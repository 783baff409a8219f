use vstd::prelude::*;

verus! {

/// What a run does when it cannot clear the artifact directory of an earlier
/// run: stop (`Strict`), or go on beside the stale files (`Lenient`).
#[derive(Clone, Copy, Debug, PartialEq, Eq, Structural)]
pub enum CleanupPolicy {
    Strict,
    Lenient,
}

/// Where a training run stands.
#[derive(Clone, Copy, Debug, PartialEq, Eq, Structural)]
pub enum Phase {
    /// Clearing the artifact directory, saving the configuration, seeding,
    /// and building the data loaders, the network and the optimizer.
    Initializing,
    /// The training pass of an epoch: parameters are updated.
    Training { epoch: usize },
    /// The validation pass of an epoch: no parameter changes.
    Validating { epoch: usize },
    /// Saving the parameters after an epoch.
    Checkpointing { epoch: usize },
    /// All epochs done; the trained network is available.
    Finished,
    /// The run stopped on a failure.
    Failed,
}

/// What the caller reports after carrying out an action.
#[derive(Clone, Copy, Debug, PartialEq, Eq, Structural)]
pub enum Event {
    /// Initialization is done; `cleanup_ok` tells whether the old contents of
    /// the artifact directory were removed.
    Prepared { cleanup_ok: bool },
    /// The current pass or checkpoint is done.
    Completed,
}

/// What the caller is to do next.
#[derive(Clone, Copy, Debug, PartialEq, Eq, Structural)]
pub enum Action {
    PrepareArtifacts,
    TrainEpoch { epoch: usize },
    ValidateEpoch { epoch: usize },
    SaveCheckpoint { epoch: usize },
    Finish,
    Abort,
}

/// The action that belongs to a phase.
pub open spec fn action_of(p: Phase) -> Action {
    match p {
        Phase::Initializing => Action::PrepareArtifacts,
        Phase::Training { epoch } => Action::TrainEpoch { epoch },
        Phase::Validating { epoch } => Action::ValidateEpoch { epoch },
        Phase::Checkpointing { epoch } => Action::SaveCheckpoint { epoch },
        Phase::Finished => Action::Finish,
        Phase::Failed => Action::Abort,
    }
}

/// The phase after `p` once `e` is reported, in a run of `n` epochs. An event
/// that does not belong to the phase fails the run; `Finished` and `Failed`
/// are final.
pub open spec fn next_phase(n: nat, policy: CleanupPolicy, p: Phase, e: Event) -> Phase {
    match (p, e) {
        (Phase::Initializing, Event::Prepared { cleanup_ok }) => {
            if !cleanup_ok && policy == CleanupPolicy::Strict {
                Phase::Failed
            } else if n == 0 {
                Phase::Finished
            } else {
                Phase::Training { epoch: 0 }
            }
        },
        (Phase::Training { epoch }, Event::Completed) => Phase::Validating { epoch },
        (Phase::Validating { epoch }, Event::Completed) => Phase::Checkpointing { epoch },
        (Phase::Checkpointing { epoch }, Event::Completed) => {
            if epoch + 1 < n {
                Phase::Training { epoch: (epoch + 1) as usize }
            } else {
                Phase::Finished
            }
        },
        (Phase::Finished, _) => Phase::Finished,
        _ => Phase::Failed,
    }
}

/// The phases that a run passes through from `p` as `events` are reported.
pub open spec fn phases(n: nat, policy: CleanupPolicy, p: Phase, events: Seq<Event>) -> Seq<Phase>
    decreases events.len(),
{
    if events.len() == 0 {
        seq![]
    } else {
        let q = next_phase(n, policy, p, events[0]);
        seq![q] + phases(n, policy, q, events.subrange(1, events.len() as int))
    }
}

/// `k` reports that a pass or checkpoint is done.
pub open spec fn completions(k: nat) -> Seq<Event> {
    Seq::new(k, |i: int| Event::Completed)
}

/// The phases of a run of `n` epochs in which every step succeeds: for each
/// epoch its training pass, validation pass and checkpoint, then `Finished`.
pub open spec fn schedule(n: nat) -> Seq<Phase> {
    Seq::new(
        3 * n + 1,
        |i: int|
            if i == 3 * n {
                Phase::Finished
            } else if i % 3 == 0 {
                Phase::Training { epoch: (i / 3) as usize }
            } else if i % 3 == 1 {
                Phase::Validating { epoch: (i / 3) as usize }
            } else {
                Phase::Checkpointing { epoch: (i / 3) as usize }
            },
    )
}

/// The decisions of a training run of `num_epochs` epochs.
#[derive(Clone, Copy, Debug)]
pub struct TrainingDriver {
    pub num_epochs: usize,
    pub policy: CleanupPolicy,
    pub phase: Phase,
}

impl TrainingDriver {
    /// Every epoch named by the phase is one of the run's epochs.
    pub open spec fn wf(self) -> bool {
        match self.phase {
            Phase::Training { epoch } => epoch < self.num_epochs,
            Phase::Validating { epoch } => epoch < self.num_epochs,
            Phase::Checkpointing { epoch } => epoch < self.num_epochs,
            _ => true,
        }
    }

    /// A run about to initialize.
    pub fn new(num_epochs: usize, policy: CleanupPolicy) -> (r: TrainingDriver)
        ensures
            r.wf(),
            r.num_epochs == num_epochs,
            r.policy == policy,
            r.phase == Phase::Initializing,
    {
        TrainingDriver { num_epochs, policy, phase: Phase::Initializing }
    }

    /// The action that the current phase asks for.
    pub fn action(&self) -> (r: Action)
        ensures
            r == action_of(self.phase),
    {
        match self.phase {
            Phase::Initializing => Action::PrepareArtifacts,
            Phase::Training { epoch } => Action::TrainEpoch { epoch },
            Phase::Validating { epoch } => Action::ValidateEpoch { epoch },
            Phase::Checkpointing { epoch } => Action::SaveCheckpoint { epoch },
            Phase::Finished => Action::Finish,
            Phase::Failed => Action::Abort,
        }
    }

    /// Takes in what the caller reports and moves to the next phase; returns
    /// the action that phase asks for.
    pub fn step(&mut self, e: Event) -> (r: Action)
        requires
            old(self).wf(),
        ensures
            final(self).wf(),
            final(self).num_epochs == old(self).num_epochs,
            final(self).policy == old(self).policy,
            final(self).phase == next_phase(old(self).num_epochs as nat, old(self).policy, old(self).phase, e),
            r == action_of(final(self).phase),
    {
        let n = self.num_epochs;
        let next = match (self.phase, e) {
            (Phase::Initializing, Event::Prepared { cleanup_ok }) => {
                if !cleanup_ok && self.policy == CleanupPolicy::Strict {
                    Phase::Failed
                } else if n == 0 {
                    Phase::Finished
                } else {
                    Phase::Training { epoch: 0 }
                }
            },
            (Phase::Training { epoch }, Event::Completed) => Phase::Validating { epoch },
            (Phase::Validating { epoch }, Event::Completed) => Phase::Checkpointing { epoch },
            (Phase::Checkpointing { epoch }, Event::Completed) => {
                if epoch + 1 < n {
                    Phase::Training { epoch: epoch + 1 }
                } else {
                    Phase::Finished
                }
            },
            (Phase::Finished, _) => Phase::Finished,
            _ => Phase::Failed,
        };
        self.phase = next;
        self.action()
    }
}

/// From a phase that is `Finished` or `Failed`, every later phase is that same phase.
pub proof fn lemma_final_phases_stay(n: nat, policy: CleanupPolicy, p: Phase, events: Seq<Event>)
    requires
        p == Phase::Finished || p == Phase::Failed,
    ensures
        forall|i: int| 0 <= i < phases(n, policy, p, events).len() ==> #[trigger] phases(n, policy, p, events)[i] == p,
        phases(n, policy, p, events).len() == events.len(),
    decreases events.len(),
{
    if events.len() > 0 {
        lemma_final_phases_stay(n, policy, p, events.subrange(1, events.len() as int));
    }
}

proof fn lemma_schedule_suffix(n: usize, policy: CleanupPolicy, k: int)
    requires
        0 <= k <= 3 * n,
    ensures
        phases(n as nat, policy, schedule(n as nat)[k], completions((3 * n - k) as nat))
            == schedule(n as nat).subrange(k + 1, 3 * n + 1),
    decreases 3 * n - k,
{
    let s = schedule(n as nat);
    let rest = completions((3 * n - k) as nat);
    if k == 3 * n {
        assert(s.subrange(k + 1, 3 * n + 1) =~= Seq::<Phase>::empty());
    } else {
        assert(next_phase(n as nat, policy, s[k], Event::Completed) == s[k + 1]);
        lemma_schedule_suffix(n, policy, k + 1);
        assert(rest.subrange(1, rest.len() as int) =~= completions((3 * n - (k + 1)) as nat));
        assert(s.subrange(k + 1, 3 * n + 1) =~= seq![s[k + 1]] + s.subrange(k + 2, 3 * n + 1));
    }
}

/// When initialization succeeds and every pass and checkpoint after it is
/// reported done, a run of `n` epochs goes through exactly the phases of
/// `schedule(n)`: one training pass, one validation pass and one checkpoint
/// per epoch, in order, then `Finished`.
pub proof fn lemma_successful_run(n: usize, policy: CleanupPolicy)
    ensures
        phases(
            n as nat,
            policy,
            Phase::Initializing,
            seq![Event::Prepared { cleanup_ok: true }] + completions((3 * n) as nat),
        ) == schedule(n as nat),
{
    let events = seq![Event::Prepared { cleanup_ok: true }] + completions((3 * n) as nat);
    let s = schedule(n as nat);
    assert(next_phase(n as nat, policy, Phase::Initializing, events[0]) == s[0]);
    lemma_schedule_suffix(n, policy, 0);
    assert(events.subrange(1, events.len() as int) =~= completions((3 * n) as nat));
    assert(s =~= seq![s[0]] + s.subrange(1, 3 * n + 1));
}

/// A run of zero epochs never enters a training pass, so it updates no
/// parameter, whatever is reported; once initialization is reported done
/// (and the cleanup policy lets it go on) it is finished.
pub proof fn lemma_zero_epochs_no_training(policy: CleanupPolicy, events: Seq<Event>)
    ensures
        forall|i: int| 0 <= i < phases(0, policy, Phase::Initializing, events).len()
            ==> !(#[trigger] phases(0, policy, Phase::Initializing, events)[i] is Training),
        events.len() > 0 && events[0] == (Event::Prepared { cleanup_ok: true })
            ==> phases(0, policy, Phase::Initializing, events)[0] == Phase::Finished,
{
    if events.len() > 0 {
        let q = next_phase(0, policy, Phase::Initializing, events[0]);
        let rest = events.subrange(1, events.len() as int);
        lemma_final_phases_stay(0, policy, q, rest);
        let all = phases(0, policy, Phase::Initializing, events);
        assert forall|i: int| 0 <= i < all.len() implies !(#[trigger] all[i] is Training) by {
            if i > 0 {
                assert(all[i] == phases(0, policy, q, rest)[i - 1]);
            }
        }
    }
}

/// Under the strict policy, a run whose cleanup of the artifact directory
/// failed stops there: every phase after that report is `Failed`, so no
/// epoch runs beside stale artifacts.
pub proof fn lemma_strict_cleanup_failure_stops(n: nat, events: Seq<Event>)
    requires
        events.len() > 0,
        events[0] == (Event::Prepared { cleanup_ok: false }),
    ensures
        forall|i: int| 0 <= i < phases(n, CleanupPolicy::Strict, Phase::Initializing, events).len()
            ==> #[trigger] phases(n, CleanupPolicy::Strict, Phase::Initializing, events)[i] == Phase::Failed,
{
    let rest = events.subrange(1, events.len() as int);
    lemma_final_phases_stay(n, CleanupPolicy::Strict, Phase::Failed, rest);
    let all = phases(n, CleanupPolicy::Strict, Phase::Initializing, events);
    assert forall|i: int| 0 <= i < all.len() implies #[trigger] all[i] == Phase::Failed by {
        if i > 0 {
            assert(all[i] == phases(n, CleanupPolicy::Strict, Phase::Failed, rest)[i - 1]);
        }
    }
}

} // verus!
