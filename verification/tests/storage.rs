use mimic::storage::{classpath, config, join, programs, resources, rom, storage};

#[test]
fn paths_below_the_home_directory() {
    assert_eq!(storage("/Users/me"), "/Users/me/Documents/Mimic");
    assert_eq!(rom("/Users/me"), "/Users/me/Documents/Mimic/rom");
    assert_eq!(programs("/Users/me"), "/Users/me/Documents/Mimic/rom/programs");
    assert_eq!(config("/Users/me"), "/Users/me/Documents/Mimic/config.json");
}

#[test]
fn paths_beside_the_executable() {
    assert_eq!(resources("/Apps/Mimic.app/Contents/MacOS"), "/Apps/Mimic.app/Contents/MacOS/../Resources");
    assert_eq!(
        classpath("/res"),
        vec!["/res/mimic.jar".to_string(), "/res/computercraft.jar".to_string()]
    );
}

#[test]
fn join_puts_one_separator_between() {
    assert_eq!(join("a", "b"), "a/b");
    assert_eq!(join("", "b"), "/b");
}
