//! The startup sequence: wait for the link, wait for an address, spawn the
//! worker pool one by one, then beat a liveness heartbeat forever. A worker
//! whose spawn fails is left out; the rest serve on.
use vstd::prelude::*;

verus! {

/// Pause between two polls of the link or of the address, in milliseconds.
pub const POLL_INTERVAL_MS: u64 = 500;

/// Pause between two liveness messages, in milliseconds.
pub const HEARTBEAT_INTERVAL_MS: u64 = 10000;

#[derive(Clone, Copy, Debug, PartialEq, Eq, Structural)]
pub enum StartupPhase {
    WaitingForLink,
    WaitingForAddress,
    /// Spawning the worker with this index.
    Spawning(usize),
    Running,
}

#[derive(Clone, Copy, Debug, PartialEq, Eq, Structural)]
pub enum StartupEvent {
    /// Whether the link reads as up.
    LinkPolled(bool),
    /// Whether an address was assigned.
    AddressPolled(bool),
    /// Whether the last spawn succeeded.
    Spawned(bool),
    /// The last sleep is over.
    Woke,
}

#[derive(Clone, Copy, Debug, PartialEq, Eq, Structural)]
pub enum StartupAction {
    /// Sleep this many milliseconds, then report `LinkPolled`.
    PollLink(u64),
    /// Sleep this many milliseconds, then report `AddressPolled`.
    PollAddress(u64),
    /// Spawn the worker with this index and report `Spawned`.
    Spawn(usize),
    /// Sleep this many milliseconds, log that the system is alive, report `Woke`.
    Heartbeat(u64),
}

/// After the address is known, or after spawn `next - 1`: spawn worker
/// `next` if there is one, else start the heartbeat.
pub open spec fn after_spawn(next: int, tasks: int) -> (StartupPhase, StartupAction) {
    if next < tasks {
        (StartupPhase::Spawning(next as usize), StartupAction::Spawn(next as usize))
    } else {
        (StartupPhase::Running, StartupAction::Heartbeat(HEARTBEAT_INTERVAL_MS))
    }
}

/// The transition table. An event that does not belong to the current phase
/// repeats the phase's own action.
pub open spec fn startup_next(phase: StartupPhase, tasks: int, ev: StartupEvent) -> (StartupPhase, StartupAction) {
    match (phase, ev) {
        (StartupPhase::WaitingForLink, StartupEvent::LinkPolled(true)) => (
            StartupPhase::WaitingForAddress,
            StartupAction::PollAddress(0),
        ),
        (StartupPhase::WaitingForLink, _) => (StartupPhase::WaitingForLink, StartupAction::PollLink(POLL_INTERVAL_MS)),
        (StartupPhase::WaitingForAddress, StartupEvent::AddressPolled(true)) => after_spawn(0, tasks),
        (StartupPhase::WaitingForAddress, _) => (
            StartupPhase::WaitingForAddress,
            StartupAction::PollAddress(POLL_INTERVAL_MS),
        ),
        (StartupPhase::Spawning(i), StartupEvent::Spawned(_)) => after_spawn(i + 1, tasks),
        (StartupPhase::Spawning(i), _) => (StartupPhase::Spawning(i), StartupAction::Spawn(i)),
        (StartupPhase::Running, _) => (StartupPhase::Running, StartupAction::Heartbeat(HEARTBEAT_INTERVAL_MS)),
    }
}

/// The spawn outcomes recorded after `ev`: the outcome of a spawn is added
/// for the worker being spawned, and nothing else changes them.
pub open spec fn spawned_next(phase: StartupPhase, spawned: Seq<bool>, ev: StartupEvent) -> Seq<bool> {
    match (phase, ev) {
        (StartupPhase::Spawning(_), StartupEvent::Spawned(ok)) => spawned.push(ok),
        _ => spawned,
    }
}

/// The orchestrator: how many workers it must spawn, where it stands, and
/// which of the workers spawned so far are running.
pub struct Startup {
    tasks: usize,
    phase: StartupPhase,
    spawned: Vec<bool>,
}

impl Startup {
    pub closed spec fn spec_tasks(&self) -> int {
        self.tasks as int
    }

    pub closed spec fn spec_phase(&self) -> StartupPhase {
        self.phase
    }

    /// For each worker spawned so far, whether its spawn succeeded.
    pub closed spec fn spec_spawned(&self) -> Seq<bool> {
        self.spawned@
    }

    /// While spawning worker `i`, exactly `i` spawns are recorded; once
    /// running, all of them are.
    pub open spec fn wf(&self) -> bool {
        match self.spec_phase() {
            StartupPhase::WaitingForLink => self.spec_spawned().len() == 0,
            StartupPhase::WaitingForAddress => self.spec_spawned().len() == 0,
            StartupPhase::Spawning(i) => i < self.spec_tasks() && self.spec_spawned().len() == i,
            StartupPhase::Running => self.spec_spawned().len() == self.spec_tasks(),
        }
    }

    /// A sequence that will spawn `tasks` workers; the first action is to
    /// poll the link at once.
    pub fn new(tasks: usize) -> (r: (Startup, StartupAction))
        ensures
            r.0.wf(),
            r.0.spec_tasks() == tasks,
            r.0.spec_phase() == StartupPhase::WaitingForLink,
            r.1 == StartupAction::PollLink(0),
    {
        (Startup { tasks, phase: StartupPhase::WaitingForLink, spawned: Vec::new() }, StartupAction::PollLink(0))
    }

    fn next_spawn(&self, next: usize) -> (r: (StartupPhase, StartupAction))
        requires
            next <= self.tasks,
        ensures
            r == after_spawn(next as int, self.tasks as int),
    {
        if next < self.tasks {
            (StartupPhase::Spawning(next), StartupAction::Spawn(next))
        } else {
            (StartupPhase::Running, StartupAction::Heartbeat(HEARTBEAT_INTERVAL_MS))
        }
    }

    /// Takes one transition on `ev`. The outcome of a spawn is recorded for
    /// the worker being spawned, and nothing else is.
    pub fn step(&mut self, ev: StartupEvent) -> (r: StartupAction)
        requires
            old(self).wf(),
        ensures
            final(self).wf(),
            final(self).spec_tasks() == old(self).spec_tasks(),
            (final(self).spec_phase(), r) == startup_next(old(self).spec_phase(), old(self).spec_tasks(), ev),
            final(self).spec_spawned() == spawned_next(old(self).spec_phase(), old(self).spec_spawned(), ev),
    {
        let next = match (self.phase, ev) {
            (StartupPhase::WaitingForLink, StartupEvent::LinkPolled(true)) => (
                StartupPhase::WaitingForAddress,
                StartupAction::PollAddress(0),
            ),
            (StartupPhase::WaitingForLink, _) => (
                StartupPhase::WaitingForLink,
                StartupAction::PollLink(POLL_INTERVAL_MS),
            ),
            (StartupPhase::WaitingForAddress, StartupEvent::AddressPolled(true)) => self.next_spawn(0),
            (StartupPhase::WaitingForAddress, _) => (
                StartupPhase::WaitingForAddress,
                StartupAction::PollAddress(POLL_INTERVAL_MS),
            ),
            (StartupPhase::Spawning(i), StartupEvent::Spawned(ok)) => {
                self.spawned.push(ok);
                self.next_spawn(i + 1)
            },
            (StartupPhase::Spawning(i), _) => (StartupPhase::Spawning(i), StartupAction::Spawn(i)),
            (StartupPhase::Running, _) => (
                StartupPhase::Running,
                StartupAction::Heartbeat(HEARTBEAT_INTERVAL_MS),
            ),
        };
        self.phase = next.0;
        next.1
    }

    pub fn phase(&self) -> (r: StartupPhase)
        ensures
            r == self.spec_phase(),
    {
        self.phase
    }

    /// How many workers are running: the spawns that succeeded.
    pub fn running_workers(&self) -> (r: usize)
        ensures
            r == self.spec_spawned().filter(|ok: bool| ok).len(),
    {
        let mut count: usize = 0;
        let mut i: usize = 0;
        while i < self.spawned.len()
            invariant
                i <= self.spawned@.len(),
                count == self.spawned@.subrange(0, i as int).filter(|ok: bool| ok).len(),
                count <= i,
            decreases self.spawned@.len() - i,
        {
            proof {
                let s = self.spawned@;
                assert(s.subrange(0, i + 1 as int).drop_last() == s.subrange(0, i as int));
                reveal(Seq::filter);
            }
            if self.spawned[i] {
                count = count + 1;
            }
            i = i + 1;
        }
        proof {
            assert(self.spawned@.subrange(0, i as int) == self.spawned@);
        }
        count
    }
}

/// Workers are spawned in index order, each at most once, and only once the
/// address is known: a spawn action always names the first worker of the
/// pool whose outcome is not recorded yet.
pub proof fn lemma_spawns_in_order(s: Startup, ev: StartupEvent)
    requires
        s.wf(),
    ensures
        startup_next(s.spec_phase(), s.spec_tasks(), ev).1 matches StartupAction::Spawn(i) ==> {
            &&& i < s.spec_tasks()
            &&& i == spawned_next(s.spec_phase(), s.spec_spawned(), ev).len()
            &&& !(s.spec_phase() is WaitingForLink)
        },
{
}

} // verus!
