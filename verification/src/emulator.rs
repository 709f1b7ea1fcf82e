//! The emulator program: the fleet of emulated computers.

use vstd::prelude::*;
use vstd::string::StringExecFns;

use crate::config::Config;
use crate::minion::{Action, Minion, Options};
use crate::text::{append_decimal, decimal};

verus! {

/// A computer that was added to the fleet: the options to build its machine
/// and its window from, and the place in the fleet of the computer whose
/// window the new one is to be placed by, if there is one.
#[derive(Clone, Debug)]
pub struct Spawn {
    pub options: Options,
    pub parent: Option<usize>,
}

/// The emulator: every computer that was opened, in the order in which they
/// were, which of them were stopped, and the number that the last one got.
pub struct Emulator {
    minions: Vec<Minion>,
    stopped: Vec<bool>,
    last_id: i32,
    config: Config,
    meta_is_command: bool,
}

/// The title of the window of computer `id`.
pub open spec fn title_text(pocket: bool, id: u32) -> Seq<char> {
    if pocket {
        "Pocket Computer "@ + decimal(id as nat)
    } else {
        "Computer "@ + decimal(id as nat)
    }
}

/// Whether `spawn` is what opening a computer gives, in a fleet of `count`
/// computers with `config`: the new computer gets `count` as its number and
/// a title with that number, the size of the kind that was asked for, and
/// the configured space; it is placed by the first computer of the fleet,
/// if there is one.
pub open spec fn is_spawn(
    spawn: Spawn,
    count: nat,
    config: Config,
    advanced: bool,
    pocket: bool,
) -> bool {
    &&& spawn.options.id == count
    &&& spawn.options.advanced == advanced
    &&& spawn.options.title@ == title_text(pocket, spawn.options.id)
    &&& spawn.options.width == if pocket {
        config.pocket_width
    } else {
        config.computer_width
    }
    &&& spawn.options.height == if pocket {
        config.pocket_height
    } else {
        config.computer_height
    }
    &&& spawn.options.space_limit == config.space_limit
    &&& spawn.parent == if count == 0 {
        None
    } else {
        Some(0usize)
    }
}

/// The actions among `requests`, in order.
pub open spec fn requested(requests: Seq<Option<Action>>) -> Seq<Action>
    decreases requests.len(),
{
    if requests.len() == 0 {
        Seq::empty()
    } else {
        match requests.last() {
            Some(action) => requested(requests.drop_last()).push(action),
            None => requested(requests.drop_last()),
        }
    }
}

impl Emulator {
    /// The computers of the fleet, oldest first.
    pub closed spec fn minions(&self) -> Seq<Minion> {
        self.minions@
    }

    /// For each computer of the fleet, whether it was stopped.
    pub closed spec fn stopped(&self) -> Seq<bool> {
        self.stopped@
    }

    /// The number of the computer that was opened last; -1 before the first.
    pub closed spec fn last_id(&self) -> int {
        self.last_id as int
    }

    /// The configuration that computers are opened with.
    pub closed spec fn config(&self) -> Config {
        self.config
    }

    /// Whether the meta modifier counts as the command modifier.
    pub closed spec fn meta_is_command(&self) -> bool {
        self.meta_is_command
    }

    /// The numbers start at zero and go up by one: the last number given is
    /// one less than the number of computers.  Of each computer it is known
    /// whether it was stopped.
    pub open spec fn wf(&self) -> bool {
        self.last_id() == self.minions().len() - 1 && self.stopped().len() == self.minions().len()
    }

    /// Whether the computer at `index` is driven: it is one of the fleet and
    /// was not stopped.
    pub open spec fn driven(&self, index: int) -> bool {
        0 <= index < self.minions().len() && index < self.stopped().len() && !self.stopped()[index]
    }

    /// Whether one of the first `count` computers is driven and running,
    /// where `running` says of each computer's window, in the order of the
    /// fleet, whether it runs.
    pub open spec fn any_running(&self, running: Seq<bool>, count: int) -> bool {
        exists|i: int| 0 <= i < running.len() && i < count && self.driven(i) && #[trigger] running[i]
    }

    /// Whether `self` is `before` with `spawns` added, opened at `now`.
    pub open spec fn follows(&self, before: Emulator, spawns: Seq<Spawn>, now: u64) -> bool {
        &&& self.config() == before.config()
        &&& self.meta_is_command() == before.meta_is_command()
        &&& self.last_id() == before.last_id() + spawns.len()
        &&& self.minions() == before.minions() + Seq::new(
            spawns.len(),
            |k: int| Minion::initial(spawns[k].options, now, before.meta_is_command()),
        )
        &&& self.stopped() == before.stopped() + Seq::new(spawns.len(), |k: int| false)
    }

    /// Create a new emulator.
    pub fn new(config: &Config, meta_is_command: bool) -> (emulator: Emulator)
        ensures
            emulator.wf(),
            emulator.minions() == Seq::<Minion>::empty(),
            emulator.stopped() == Seq::<bool>::empty(),
            emulator.last_id() == -1,
            emulator.config() == *config,
            emulator.meta_is_command() == meta_is_command,
    {
        Emulator {
            minions: Vec::new(),
            stopped: Vec::new(),
            last_id: -1,
            config: *config,
            meta_is_command,
        }
    }

    /// The number of computers.
    pub fn len(&self) -> (count: usize)
        ensures
            count == self.minions().len(),
    {
        self.minions.len()
    }

    /// The number of the computer that was opened last; -1 before the first.
    pub fn newest_id(&self) -> (id: i32)
        ensures
            id == self.last_id(),
    {
        self.last_id
    }

    /// The computer at `index`.
    pub fn minion(&self, index: usize) -> (minion: &Minion)
        requires
            index < self.minions().len(),
        ensures
            *minion == self.minions()[index as int],
    {
        &self.minions[index]
    }

    /// The computer at `index`, to work on.
    pub fn minion_mut(&mut self, index: usize) -> (minion: &mut Minion)
        requires
            index < old(self).minions().len(),
        ensures
            *minion == old(self).minions()[index as int],
            final(self).minions() == old(self).minions().update(index as int, *final(minion)),
            final(self).stopped() == old(self).stopped(),
            final(self).last_id() == old(self).last_id(),
            final(self).config() == old(self).config(),
            final(self).meta_is_command() == old(self).meta_is_command(),
    {
        &mut self.minions[index]
    }

    /// Stops the computer at `index`: it is driven no more.  Nothing else
    /// changes, and nothing at all if there is no such computer.
    pub fn stop(&mut self, index: usize)
        ensures
            final(self).stopped() == if index < old(self).stopped().len() {
                old(self).stopped().update(index as int, true)
            } else {
                old(self).stopped()
            },
            final(self).minions() == old(self).minions(),
            final(self).last_id() == old(self).last_id(),
            final(self).config() == old(self).config(),
            final(self).meta_is_command() == old(self).meta_is_command(),
    {
        if index < self.stopped.len() {
            self.stopped.set(index, true);
        }
    }

    /// Whether the computer at `index` is driven: it is one of the fleet and
    /// was not stopped.
    pub fn is_driven(&self, index: usize) -> (result: bool)
        ensures
            result == self.driven(index as int),
    {
        index < self.minions.len() && index < self.stopped.len() && !self.stopped[index]
    }

    /// Create a new minion with an automatically assigned ID.
    pub fn new_minion(&mut self, advanced: bool, pocket: bool, now: u64) -> (spawn: Spawn)
        requires
            old(self).wf(),
            old(self).minions().len() <= i32::MAX,
        ensures
            final(self).wf(),
            is_spawn(spawn, old(self).minions().len(), old(self).config(), advanced, pocket),
            final(self).follows(*old(self), seq![spawn], now),
    {
        self.last_id += 1;

        // Get the minion's width and height
        let (width, height) = if pocket {
            (self.config.pocket_width, self.config.pocket_height)
        } else {
            (self.config.computer_width, self.config.computer_height)
        };

        // Create its title
        let id = self.last_id as u32;
        let mut title = if pocket {
            String::from_str("Pocket Computer ")
        } else {
            String::from_str("Computer ")
        };
        append_decimal(&mut title, id);

        // Create its options
        let options = Options {
            id,
            advanced,
            title,
            width,
            height,
            space_limit: self.config.space_limit,
        };

        // Create the minion itself
        let parent = if self.minions.len() == 0 {
            None
        } else {
            Some(0)
        };
        self.minions.push(Minion::new(&options, now, self.meta_is_command));
        self.stopped.push(false);
        let spawn = Spawn { options, parent };
        proof {
            assert(final(self).minions() =~= old(self).minions() + Seq::new(
                1,
                |k: int| Minion::initial(seq![spawn][k].options, now, old(self).meta_is_command()),
            ));
            assert(final(self).stopped() =~= old(self).stopped() + Seq::new(1, |k: int| false));
        }
        spawn
    }

    /// Returns true if any minion is still running, going by what each
    /// minion's window says of itself, in the order of the fleet.  A
    /// computer that was stopped does not count, whatever its window says.
    pub fn is_running(&self, running: &Vec<bool>) -> (result: bool)
        ensures
            result == self.any_running(running@, self.minions().len() as int),
    {
        let mut result = false;
        let mut i: usize = 0;
        while i < running.len() && i < self.minions.len()
            invariant
                i <= running.len(),
                i <= self.minions.len(),
                result == self.any_running(running@, i as int),
            decreases running.len() - i,
        {
            let counts = self.is_driven(i) && running[i];
            result = result || counts;
            i += 1;
        }
        result
    }

    /// Handle the actions that the minions returned in one round, in the
    /// order of the fleet: open a computer for each.
    pub fn handle_actions(&mut self, requests: &Vec<Option<Action>>, now: u64) -> (spawns: Vec<
        Spawn,
    >)
        requires
            old(self).wf(),
            old(self).minions().len() + requests.len() <= i32::MAX + 1,
        ensures
            final(self).wf(),
            spawns.len() == requested(requests@).len(),
            forall|k: int|
                0 <= k < spawns.len() ==> is_spawn(
                    #[trigger] spawns[k],
                    (old(self).minions().len() + k) as nat,
                    old(self).config(),
                    requested(requests@)[k]->advanced,
                    requested(requests@)[k]->pocket,
                ),
            final(self).follows(*old(self), spawns@, now),
    {
        let mut spawns: Vec<Spawn> = Vec::new();
        let mut i: usize = 0;
        while i < requests.len()
            invariant
                i <= requests.len(),
                self.wf(),
                old(self).wf(),
                old(self).minions().len() + requests.len() <= i32::MAX + 1,
                spawns.len() == requested(requests@.take(i as int)).len(),
                spawns.len() <= i,
                forall|k: int|
                    0 <= k < spawns.len() ==> is_spawn(
                        #[trigger] spawns[k],
                        (old(self).minions().len() + k) as nat,
                        old(self).config(),
                        requested(requests@.take(i as int))[k]->advanced,
                        requested(requests@.take(i as int))[k]->pocket,
                    ),
                self.follows(*old(self), spawns@, now),
            decreases requests.len() - i,
        {
            proof {
                assert(requests@.take(i + 1).drop_last() =~= requests@.take(i as int));
                assert(requests@.take(i + 1).last() == requests@[i as int]);
            }
            match requests[i] {
                Some(Action::NewInstance { advanced, pocket }) => {
                    let spawn = self.new_minion(advanced, pocket, now);
                    spawns.push(spawn);
                    proof {
                        assert(self.minions() =~= old(self).minions() + Seq::new(
                            spawns@.len(),
                            |k: int|
                                Minion::initial(
                                    spawns@[k].options,
                                    now,
                                    old(self).meta_is_command(),
                                ),
                        ));
                        assert(self.stopped() =~= old(self).stopped() + Seq::new(
                            spawns@.len(),
                            |k: int| false,
                        ));
                    }
                },
                None => {},
            }
            i += 1;
        }
        assert(requests@.take(i as int) =~= requests@);
        spawns
    }
}

/// Computers are numbered in the order in which they are opened, whatever
/// became of the earlier ones: the first computer of a fleet gets 0, and a
/// computer opened after another gets the next number and is placed by the
/// first computer of the fleet.
pub proof fn lemma_numbers_go_up(
    before: Emulator,
    between: Emulator,
    first: Spawn,
    second: Spawn,
    first_advanced: bool,
    first_pocket: bool,
    second_advanced: bool,
    second_pocket: bool,
    now: u64,
)
    requires
        before.wf(),
        is_spawn(first, before.minions().len(), before.config(), first_advanced, first_pocket),
        between.follows(before, seq![first], now),
        is_spawn(
            second,
            between.minions().len(),
            between.config(),
            second_advanced,
            second_pocket,
        ),
    ensures
        between.wf(),
        first.options.id == before.last_id() + 1,
        before.minions().len() == 0 ==> first.options.id == 0 && first.parent is None,
        second.options.id == first.options.id + 1,
        second.parent == Some(0usize),
{
}

} // verus!
