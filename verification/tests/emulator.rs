use mimic::config::Config;
use mimic::emulator::Emulator;
use mimic::minion::{Action, Minion};

fn config() -> Config {
    Config {
        computer_width: 51,
        computer_height: 19,
        pocket_width: 26,
        pocket_height: 20,
        space_limit: 2097152,
        border_width: 2,
        border_height: 2,
    }
}

#[test]
fn fresh_fleet_is_empty() {
    let emulator = Emulator::new(&config(), false);
    assert_eq!(emulator.len(), 0);
    assert_eq!(emulator.newest_id(), -1);
}

#[test]
fn fleet_numbers_its_computers_in_order() {
    let mut emulator = Emulator::new(&config(), false);

    let first = emulator.new_minion(true, false, 10);
    assert_eq!(first.options.id, 0);
    assert_eq!(first.options.title, "Computer 0");
    assert!(first.options.advanced);
    assert_eq!((first.options.width, first.options.height), (51, 19));
    assert_eq!(first.options.space_limit, 2097152);
    assert_eq!(first.parent, None);

    let second = emulator.new_minion(true, true, 20);
    assert_eq!(second.options.id, 1);
    assert_eq!(second.options.title, "Pocket Computer 1");
    assert_eq!((second.options.width, second.options.height), (26, 20));
    assert_eq!(second.parent, Some(0));

    let third = emulator.new_minion(false, false, 30);
    assert_eq!(third.options.id, 2);
    assert_eq!(third.options.title, "Computer 2");
    assert!(!third.options.advanced);
    assert_eq!(third.parent, Some(0));

    assert_eq!(emulator.len(), 3);
    assert_eq!(emulator.newest_id(), 2);
    assert_eq!(*emulator.minion(0), Minion::new(&first.options, 10, false));
    assert_eq!(*emulator.minion(1), Minion::new(&second.options, 20, false));
    assert_eq!(*emulator.minion(2), Minion::new(&third.options, 30, false));
}

#[test]
fn titles_have_every_digit() {
    let mut emulator = Emulator::new(&config(), false);
    let mut last = String::new();
    for _ in 0..=120 {
        last = emulator.new_minion(false, true, 0).options.title;
    }
    assert_eq!(last, "Pocket Computer 120");
}

#[test]
fn minions_know_whether_meta_is_command() {
    let mut emulator = Emulator::new(&config(), true);
    emulator.new_minion(true, false, 0);
    assert!(emulator.minion(0).meta_is_command);
}

#[test]
fn a_minion_is_worked_on_in_place() {
    let mut emulator = Emulator::new(&config(), false);
    emulator.new_minion(true, false, 0);
    emulator.new_minion(true, false, 0);
    assert_eq!(emulator.minion_mut(1).advance(500_000_000), 500_000_000);
    assert!(emulator.minion(0).cursor_flash);
    assert!(!emulator.minion(1).cursor_flash);
    assert_eq!(emulator.len(), 2);
    assert_eq!(emulator.newest_id(), 1);
}

#[test]
fn running_while_any_window_is() {
    let mut emulator = Emulator::new(&config(), false);
    assert!(!emulator.is_running(&vec![]));
    assert!(!emulator.is_running(&vec![true]));
    emulator.new_minion(true, false, 0);
    emulator.new_minion(true, false, 0);
    assert!(!emulator.is_running(&vec![false, false]));
    assert!(emulator.is_running(&vec![false, true]));
    assert!(emulator.is_running(&vec![true, false]));
    assert!(emulator.is_running(&vec![true]));
    assert!(!emulator.is_running(&vec![false, false, true]));
    assert!(!emulator.is_running(&vec![]));
}

#[test]
fn actions_open_computers_in_the_order_of_the_fleet() {
    let mut emulator = Emulator::new(&config(), false);
    emulator.new_minion(true, false, 0);
    emulator.new_minion(true, false, 0);
    emulator.new_minion(true, false, 0);
    let spawns = emulator.handle_actions(
        &vec![
            Some(Action::NewInstance { advanced: false, pocket: true }),
            None,
            Some(Action::NewInstance { advanced: true, pocket: false }),
        ],
        99,
    );
    assert_eq!(spawns.len(), 2);
    assert_eq!(spawns[0].options.id, 3);
    assert_eq!(spawns[0].options.title, "Pocket Computer 3");
    assert!(!spawns[0].options.advanced);
    assert_eq!(spawns[0].options.width, 26);
    assert_eq!(spawns[0].parent, Some(0));
    assert_eq!(spawns[1].options.id, 4);
    assert_eq!(spawns[1].options.title, "Computer 4");
    assert!(spawns[1].options.advanced);
    assert_eq!(emulator.len(), 5);
    assert_eq!(emulator.newest_id(), 4);
    assert_eq!(emulator.minion(3).advance_time, 99);
    assert_eq!(emulator.minion(4).width, 51);
}

#[test]
fn no_actions_open_nothing() {
    let mut emulator = Emulator::new(&config(), false);
    assert!(emulator.handle_actions(&vec![None, None], 0).is_empty());
    assert!(emulator.handle_actions(&vec![], 0).is_empty());
    assert_eq!(emulator.len(), 0);
    let spawns =
        emulator.handle_actions(&vec![Some(Action::NewInstance { advanced: true, pocket: false })], 0);
    assert_eq!(spawns[0].options.id, 0);
    assert_eq!(spawns[0].parent, None);
}

#[test]
fn a_stopped_computer_is_driven_no_more() {
    let mut emulator = Emulator::new(&config(), false);
    assert!(!emulator.is_driven(0));
    emulator.new_minion(true, false, 0);
    emulator.new_minion(true, false, 0);
    assert!(emulator.is_driven(0));
    assert!(emulator.is_driven(1));
    assert!(!emulator.is_driven(2));

    emulator.stop(0);
    assert!(!emulator.is_driven(0));
    assert!(emulator.is_driven(1));
    emulator.stop(0);
    assert!(!emulator.is_driven(0));
    emulator.stop(7);
    assert!(emulator.is_driven(1));
    assert_eq!(emulator.len(), 2);
    assert_eq!(emulator.newest_id(), 1);

    emulator.minion_mut(0).advance(500_000_000);
    assert!(!emulator.is_driven(0));

    let third = emulator.new_minion(false, true, 0);
    assert_eq!(third.options.id, 2);
    assert_eq!(third.parent, Some(0));
    assert!(!emulator.is_driven(0));
    assert!(emulator.is_driven(1));
    assert!(emulator.is_driven(2));

    let spawns =
        emulator.handle_actions(&vec![Some(Action::NewInstance { advanced: true, pocket: false })], 0);
    assert_eq!(spawns[0].options.id, 3);
    assert!(!emulator.is_driven(0));
    assert!(emulator.is_driven(3));
}

#[test]
fn a_stopped_computer_does_not_keep_the_emulator_running() {
    let mut emulator = Emulator::new(&config(), false);
    emulator.new_minion(true, false, 0);
    emulator.new_minion(true, false, 0);
    assert!(emulator.is_running(&vec![true, false]));
    emulator.stop(0);
    assert!(!emulator.is_running(&vec![true, false]));
    assert!(emulator.is_running(&vec![true, true]));
    assert!(emulator.is_running(&vec![false, true]));
    emulator.stop(1);
    assert!(!emulator.is_running(&vec![true, true]));
    emulator.new_minion(true, false, 0);
    assert!(emulator.is_running(&vec![true, true, true]));
    assert!(!emulator.is_running(&vec![true, true, false]));
}
