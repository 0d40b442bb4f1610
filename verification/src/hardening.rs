//! The order of hardening, and the decision to run untrusted code.
//!
//! A worker is hardened in three parts: it is isolated in its directory, its
//! file system access is restricted, and its environment is scrubbed. The
//! restriction follows the isolation; the scrubbing may come at any time. A
//! [`Hardening`] keeps account of what has been done. It is handed on from one
//! part to the next, and at the end it says whether untrusted code may run:
//! only if every part has succeeded. A part that has failed stays failed.

use crate::environment::{check_scrubbed, entries, is_scrubbed, names, EnvironmentEntry};
use crate::isolation::{
    is_staging_token, unshare_user_namespace_and_change_root, worker_directory_fault, Isolation,
    IsolationError, IsolationState,
};
use crate::restriction::{exceptions, may_come_of, try_restrict, RestrictionError, RulesetException};
use crate::status::LandlockStatus;
use vstd::prelude::*;

verus! {

/// What is asked of a hardening before untrusted code may run.
#[derive(Debug, Clone, Copy, PartialEq, Eq, Structural)]
pub struct HardeningPolicy {
    /// The restriction must be fully enforced. Less is enough only for
    /// diagnostics.
    pub require_full_enforcement: bool,
}

/// How far the isolation has come.
#[derive(Debug, Clone, Copy, PartialEq, Eq, Structural)]
pub enum IsolationPhase {
    /// Nothing has been attempted.
    NotStarted,
    /// The isolation has begun; its steps are being taken.
    Begun,
    /// The worker is confined to its directory.
    Done,
    /// The isolation has failed.
    Failed(IsolationError),
}

/// How far the restriction has come.
#[derive(Debug, Clone, PartialEq, Eq)]
pub enum RestrictionPhase {
    /// Nothing has been attempted.
    NotStarted,
    /// The calling thread is restricted, to this degree.
    Applied(LandlockStatus),
    /// The restriction has failed.
    Failed(RestrictionError),
    /// A restriction was asked for while the worker was not isolated. Nothing
    /// was attempted.
    OutOfOrder,
}

/// Why untrusted code may not run.
#[derive(Debug, Clone, PartialEq, Eq)]
pub enum HardeningFailure {
    /// The isolation has not been completed.
    IsolationNotDone,
    /// The isolation has failed.
    Isolation(IsolationError),
    /// No restriction has been applied.
    RestrictionNotApplied,
    /// A restriction was asked for while the worker was not isolated.
    RestrictionOutOfOrder,
    /// The restriction has failed.
    Restriction(RestrictionError),
    /// The restriction is not fully enforced, as the policy asks.
    NotFullyEnforced(LandlockStatus),
    /// The environment holds variables that are to be removed.
    EnvironmentNotScrubbed,
}

/// Something that happens to a hardening.
pub enum HardeningEvent {
    /// An isolation was asked for, on a path with the given fault, if any.
    IsolationBegun(Option<IsolationError>),
    /// An isolation was handed back in the given state.
    IsolationFinished(IsolationState),
    /// A restriction was asked for, and this came of it where it was
    /// attempted.
    Restricted(Result<landlock::RulesetStatus, RestrictionError>),
    /// The environment was looked at: whether nothing is left to remove.
    EnvironmentChecked(bool),
}

/// What a [`Hardening`] stands for.
pub struct HardeningView {
    pub isolation: IsolationPhase,
    pub restriction: RestrictionPhase,
    pub scrubbed: bool,
}

impl HardeningView {
    /// The account with which every hardening starts: nothing has been done.
    pub open spec fn initial() -> HardeningView {
        HardeningView {
            isolation: IsolationPhase::NotStarted,
            restriction: RestrictionPhase::NotStarted,
            scrubbed: false,
        }
    }

    /// A restriction may be attempted: the worker is isolated, and no
    /// restriction has failed or was refused before.
    pub open spec fn may_restrict(self) -> bool {
        self.isolation is Done && (self.restriction is NotStarted || self.restriction is Applied)
    }

    /// The isolation after another one was asked for. Only the first is
    /// begun. Any further one fails, as its first step would: at unsharing the
    /// user namespace.
    pub open spec fn isolation_after_begin(self, fault: Option<IsolationError>) -> IsolationPhase {
        match self.isolation {
            IsolationPhase::NotStarted => match fault {
                None => IsolationPhase::Begun,
                Some(e) => IsolationPhase::Failed(e),
            },
            IsolationPhase::Failed(e) => IsolationPhase::Failed(e),
            _ => IsolationPhase::Failed(IsolationError::UnshareUserNamespace),
        }
    }

    /// The isolation after one was handed back in the given state. One that
    /// still has a step pending counts as failed at that step. One that was
    /// never begun here counts as a further one.
    pub open spec fn isolation_after_finish(self, state: IsolationState) -> IsolationPhase {
        match self.isolation {
            IsolationPhase::Begun => match state {
                IsolationState::Done => IsolationPhase::Done,
                IsolationState::Failed(e) => IsolationPhase::Failed(e),
                IsolationState::Pending(step) => IsolationPhase::Failed(step.failure()),
            },
            IsolationPhase::Failed(e) => IsolationPhase::Failed(e),
            _ => IsolationPhase::Failed(IsolationError::UnshareUserNamespace),
        }
    }

    /// The restriction after one was asked for. It is attempted only where
    /// [`HardeningView::may_restrict`] holds. A status is never raised by a
    /// later one.
    pub open spec fn restriction_after(
        self,
        result: Result<landlock::RulesetStatus, RestrictionError>,
    ) -> RestrictionPhase {
        if !self.may_restrict() {
            match self.restriction {
                RestrictionPhase::Failed(e) => RestrictionPhase::Failed(e),
                _ => RestrictionPhase::OutOfOrder,
            }
        } else {
            match result {
                Err(e) => RestrictionPhase::Failed(e),
                Ok(status) => {
                    let status = LandlockStatus::of_ruleset_status(status);
                    match self.restriction {
                        RestrictionPhase::Applied(earlier) => RestrictionPhase::Applied(
                            earlier.weaker_of(status),
                        ),
                        _ => RestrictionPhase::Applied(status),
                    }
                },
            }
        }
    }

    /// The account after the event.
    pub open spec fn after(self, event: HardeningEvent) -> HardeningView {
        match event {
            HardeningEvent::IsolationBegun(fault) => HardeningView {
                isolation: self.isolation_after_begin(fault),
                ..self
            },
            HardeningEvent::IsolationFinished(state) => HardeningView {
                isolation: self.isolation_after_finish(state),
                ..self
            },
            HardeningEvent::Restricted(result) => HardeningView {
                restriction: self.restriction_after(result),
                ..self
            },
            HardeningEvent::EnvironmentChecked(clean) => HardeningView { scrubbed: clean, ..self },
        }
    }

    /// The account after the events, one after the other.
    pub open spec fn after_all(self, events: Seq<HardeningEvent>) -> HardeningView
        decreases events.len(),
    {
        if events.len() == 0 {
            self
        } else {
            self.after(events[0]).after_all(events.drop_first())
        }
    }

    /// A part has failed: the isolation, or the restriction.
    pub open spec fn has_failed(self) -> bool {
        self.isolation is Failed || self.restriction is Failed || self.restriction is OutOfOrder
    }

    /// The first reason for which untrusted code may not run, if there is one:
    /// the isolation comes first, the restriction second, the environment
    /// last.
    pub open spec fn failure(self, policy: HardeningPolicy) -> Option<HardeningFailure> {
        match self.isolation {
            IsolationPhase::NotStarted => Some(HardeningFailure::IsolationNotDone),
            IsolationPhase::Begun => Some(HardeningFailure::IsolationNotDone),
            IsolationPhase::Failed(e) => Some(HardeningFailure::Isolation(e)),
            IsolationPhase::Done => match self.restriction {
                RestrictionPhase::NotStarted => Some(HardeningFailure::RestrictionNotApplied),
                RestrictionPhase::OutOfOrder => Some(HardeningFailure::RestrictionOutOfOrder),
                RestrictionPhase::Failed(e) => Some(HardeningFailure::Restriction(e)),
                RestrictionPhase::Applied(status) => if policy.require_full_enforcement && status
                    != LandlockStatus::FullyEnforced {
                    Some(HardeningFailure::NotFullyEnforced(status))
                } else if !self.scrubbed {
                    Some(HardeningFailure::EnvironmentNotScrubbed)
                } else {
                    None
                },
            },
        }
    }

    /// Untrusted code may run: the worker is isolated, the restriction is
    /// applied, and fully enforced where the policy asks for it, and the
    /// environment is scrubbed.
    pub open spec fn ready(self, policy: HardeningPolicy) -> bool {
        &&& self.isolation is Done
        &&& self.restriction matches RestrictionPhase::Applied(status)
        &&& (policy.require_full_enforcement ==> status == LandlockStatus::FullyEnforced)
        &&& self.scrubbed
    }
}

/// The account of what has been done to harden a worker.
#[derive(Debug)]
pub struct Hardening {
    isolation: IsolationPhase,
    restriction: RestrictionPhase,
    scrubbed: bool,
}

impl View for Hardening {
    type V = HardeningView;

    closed spec fn view(&self) -> HardeningView {
        HardeningView {
            isolation: self.isolation,
            restriction: self.restriction,
            scrubbed: self.scrubbed,
        }
    }
}

impl Hardening {
    /// The account of a worker to which nothing has been done.
    pub fn new() -> (hardening: Hardening)
        ensures
            hardening@ == HardeningView::initial(),
    {
        Hardening {
            isolation: IsolationPhase::NotStarted,
            restriction: RestrictionPhase::NotStarted,
            scrubbed: false,
        }
    }

    /// How far the isolation has come.
    pub fn isolation(&self) -> (phase: IsolationPhase)
        ensures
            phase == self@.isolation,
    {
        self.isolation
    }

    /// The status of the restriction, if one is applied.
    pub fn restriction_status(&self) -> (status: Option<LandlockStatus>)
        ensures
            status == (match self@.restriction {
                RestrictionPhase::Applied(s) => Some(s),
                _ => None,
            }),
    {
        match &self.restriction {
            RestrictionPhase::Applied(s) => Some(*s),
            _ => None,
        }
    }

    /// Begins the isolation of the worker in the directory `worker_dir_path`.
    ///
    /// The first isolation is begun if the path names a worker directory. Any
    /// further one fails as its first step would, at unsharing the user
    /// namespace, and the isolation counts as failed from then on.
    pub fn begin_isolation(self, worker_dir_path: &Vec<u8>) -> (next: (
        Hardening,
        Result<Isolation, IsolationError>,
    ))
        ensures
            next.0@ == self@.after(
                HardeningEvent::IsolationBegun(worker_directory_fault(worker_dir_path@)),
            ),
            match next.1 {
                Ok(isolation) => {
                    &&& self@.isolation is NotStarted
                    &&& worker_directory_fault(worker_dir_path@) is None
                    &&& isolation@.worker_dir == worker_dir_path@
                    &&& is_staging_token(isolation@.token)
                    &&& isolation@.state == IsolationState::initial()
                },
                Err(e) => if self@.isolation is NotStarted {
                    worker_directory_fault(worker_dir_path@) == Some(e)
                } else {
                    e == IsolationError::UnshareUserNamespace
                },
            },
    {
        match self.isolation {
            IsolationPhase::NotStarted => {
                match unshare_user_namespace_and_change_root(worker_dir_path) {
                    Ok(isolation) => (
                        Hardening {
                            isolation: IsolationPhase::Begun,
                            restriction: self.restriction,
                            scrubbed: self.scrubbed,
                        },
                        Ok(isolation),
                    ),
                    Err(e) => (
                        Hardening {
                            isolation: IsolationPhase::Failed(e),
                            restriction: self.restriction,
                            scrubbed: self.scrubbed,
                        },
                        Err(e),
                    ),
                }
            },
            IsolationPhase::Failed(e) => (
                Hardening {
                    isolation: IsolationPhase::Failed(e),
                    restriction: self.restriction,
                    scrubbed: self.scrubbed,
                },
                Err(IsolationError::UnshareUserNamespace),
            ),
            _ => (
                Hardening {
                    isolation: IsolationPhase::Failed(IsolationError::UnshareUserNamespace),
                    restriction: self.restriction,
                    scrubbed: self.scrubbed,
                },
                Err(IsolationError::UnshareUserNamespace),
            ),
        }
    }

    /// Takes back an isolation, and takes note of how it ended. An isolation
    /// can be handed back once.
    pub fn finish_isolation(self, isolation: Isolation) -> (next: Hardening)
        ensures
            next@ == self@.after(HardeningEvent::IsolationFinished(isolation@.state)),
    {
        let phase = match self.isolation {
            IsolationPhase::Begun => match isolation.state() {
                IsolationState::Done => IsolationPhase::Done,
                IsolationState::Failed(e) => IsolationPhase::Failed(e),
                IsolationState::Pending(step) => IsolationPhase::Failed(step.error()),
            },
            IsolationPhase::Failed(e) => IsolationPhase::Failed(e),
            _ => IsolationPhase::Failed(IsolationError::UnshareUserNamespace),
        };
        Hardening { isolation: phase, restriction: self.restriction, scrubbed: self.scrubbed }
    }

    /// Whether a restriction may be attempted.
    pub fn may_restrict(&self) -> (may: bool)
        ensures
            may == self@.may_restrict(),
    {
        let isolated = match self.isolation {
            IsolationPhase::Done => true,
            _ => false,
        };
        let open = match &self.restriction {
            RestrictionPhase::NotStarted => true,
            RestrictionPhase::Applied(_) => true,
            _ => false,
        };
        isolated && open
    }

    /// Takes note of what came of a restriction. Where no restriction may be
    /// attempted, none counts as applied, whatever `result` says.
    pub fn record_restriction(
        self,
        result: Result<landlock::RulesetStatus, RestrictionError>,
    ) -> (next: Hardening)
        ensures
            next@ == self@.after(HardeningEvent::Restricted(result)),
    {
        if !self.may_restrict() {
            return self.refuse_restriction();
        }
        let phase = match result {
            Err(e) => RestrictionPhase::Failed(e),
            Ok(status) => {
                let status = LandlockStatus::from_ruleset_status(status);
                match self.restriction {
                    RestrictionPhase::Applied(earlier) => RestrictionPhase::Applied(
                        earlier.weaker(status),
                    ),
                    _ => RestrictionPhase::Applied(status),
                }
            },
        };
        Hardening { isolation: self.isolation, restriction: phase, scrubbed: self.scrubbed }
    }

    /// Takes note that a restriction was asked for where none may be
    /// attempted.
    fn refuse_restriction(self) -> (next: Hardening)
        requires
            !self@.may_restrict(),
        ensures
            next@.isolation == self@.isolation,
            next@.scrubbed == self@.scrubbed,
            next@.restriction == (match self@.restriction {
                RestrictionPhase::Failed(e) => RestrictionPhase::Failed(e),
                _ => RestrictionPhase::OutOfOrder,
            }),
    {
        let phase = match self.restriction {
            RestrictionPhase::Failed(e) => RestrictionPhase::Failed(e),
            _ => RestrictionPhase::OutOfOrder,
        };
        Hardening { isolation: self.isolation, restriction: phase, scrubbed: self.scrubbed }
    }

    /// Restricts the calling thread with [`try_restrict`], if a restriction
    /// may be attempted, and takes note of what came of it. Otherwise nothing
    /// is asked of the kernel, and the restriction counts as refused.
    pub fn restrict(self, fs_exceptions: &Vec<RulesetException>) -> (next: Hardening)
        ensures
            next@.isolation == self@.isolation,
            next@.scrubbed == self@.scrubbed,
            !self@.may_restrict() ==> next@.restriction == (match self@.restriction {
                RestrictionPhase::Failed(e) => RestrictionPhase::Failed(e),
                _ => RestrictionPhase::OutOfOrder,
            }),
            self@.may_restrict() ==> exists|
                result: Result<landlock::RulesetStatus, RestrictionError>,
            |
                may_come_of(exceptions(fs_exceptions@), result) && next@ == #[trigger] self@.after(
                    HardeningEvent::Restricted(result),
                ),
    {
        if self.may_restrict() {
            let result = try_restrict(fs_exceptions);
            let ghost outcome = result;
            let next = self.record_restriction(result);
            assert(next@ == self@.after(HardeningEvent::Restricted(outcome)));
            next
        } else {
            self.refuse_restriction()
        }
    }

    /// Looks at the environment as it is now, and takes note whether every
    /// variable that is left is on the allow-list.
    pub fn check_environment(
        self,
        table: &Vec<EnvironmentEntry>,
        allow_list: &Vec<Vec<u8>>,
    ) -> (next: Hardening)
        ensures
            next@ == self@.after(
                HardeningEvent::EnvironmentChecked(
                    is_scrubbed(entries(table@), names(allow_list@)),
                ),
            ),
    {
        let clean = check_scrubbed(table, allow_list);
        Hardening { isolation: self.isolation, restriction: self.restriction, scrubbed: clean }
    }

    /// Whether untrusted code may run.
    pub fn ready(&self, policy: HardeningPolicy) -> (ready: bool)
        ensures
            ready == self@.ready(policy),
            ready == (self@.failure(policy) is None),
    {
        let isolated = match self.isolation {
            IsolationPhase::Done => true,
            _ => false,
        };
        let restricted = match &self.restriction {
            RestrictionPhase::Applied(status) => !policy.require_full_enforcement
                || status.is_fully_enforced(),
            _ => false,
        };
        isolated && restricted && self.scrubbed
    }

    /// The outcome of the hardening: untrusted code may run, or the first
    /// reason for which it may not.
    pub fn verdict(self, policy: HardeningPolicy) -> (verdict: Result<(), HardeningFailure>)
        ensures
            verdict is Ok <==> self@.ready(policy),
            match verdict {
                Ok(()) => self@.failure(policy) is None,
                Err(failure) => self@.failure(policy) == Some(failure),
            },
    {
        match self.isolation {
            IsolationPhase::NotStarted => Err(HardeningFailure::IsolationNotDone),
            IsolationPhase::Begun => Err(HardeningFailure::IsolationNotDone),
            IsolationPhase::Failed(e) => Err(HardeningFailure::Isolation(e)),
            IsolationPhase::Done => match self.restriction {
                RestrictionPhase::NotStarted => Err(HardeningFailure::RestrictionNotApplied),
                RestrictionPhase::OutOfOrder => Err(HardeningFailure::RestrictionOutOfOrder),
                RestrictionPhase::Failed(e) => Err(HardeningFailure::Restriction(e)),
                RestrictionPhase::Applied(status) => {
                    if policy.require_full_enforcement && !status.is_fully_enforced() {
                        Err(HardeningFailure::NotFullyEnforced(status))
                    } else if !self.scrubbed {
                        Err(HardeningFailure::EnvironmentNotScrubbed)
                    } else {
                        Ok(())
                    }
                },
            },
        }
    }
}

/// Untrusted code may run exactly when nothing speaks against it.
pub proof fn lemma_ready_iff_no_failure(hardening: HardeningView, policy: HardeningPolicy)
    ensures
        hardening.ready(policy) <==> hardening.failure(policy) is None,
{
}

/// Where a part has failed, untrusted code may not run, whatever the policy.
pub proof fn lemma_failed_is_not_ready(hardening: HardeningView, policy: HardeningPolicy)
    requires
        hardening.has_failed(),
    ensures
        !hardening.ready(policy),
{
}

/// A part that has failed stays failed, whatever happens afterwards.
pub proof fn lemma_failure_is_permanent(hardening: HardeningView, event: HardeningEvent)
    requires
        hardening.has_failed(),
    ensures
        hardening.after(event).has_failed(),
{
}

/// After a failure, no course of events lets untrusted code run.
pub proof fn lemma_never_ready_after_failure(
    hardening: HardeningView,
    events: Seq<HardeningEvent>,
    policy: HardeningPolicy,
)
    requires
        hardening.has_failed(),
    ensures
        hardening.after_all(events).has_failed(),
        !hardening.after_all(events).ready(policy),
    decreases events.len(),
{
    if events.len() > 0 {
        lemma_failure_is_permanent(hardening, events[0]);
        lemma_never_ready_after_failure(hardening.after(events[0]), events.drop_first(), policy);
    }
}

/// An isolation that is asked for a second time fails, whatever the path, and
/// the hardening has failed with it: the first attempt is the only one.
pub proof fn lemma_second_isolation_fails(
    hardening: HardeningView,
    fault: Option<IsolationError>,
)
    requires
        !(hardening.isolation is NotStarted),
    ensures
        hardening.after(HardeningEvent::IsolationBegun(fault)).isolation is Failed,
        hardening.after(HardeningEvent::IsolationBegun(fault)).has_failed(),
        !(hardening.isolation is Failed) ==> hardening.after(
            HardeningEvent::IsolationBegun(fault),
        ).isolation == IsolationPhase::Failed(IsolationError::UnshareUserNamespace),
{
}

/// The status of an applied restriction is never raised by what happens
/// afterwards: it stays, sinks, or gives way to a failure.
pub proof fn lemma_status_is_never_raised(
    hardening: HardeningView,
    event: HardeningEvent,
    status: LandlockStatus,
)
    requires
        hardening.restriction == RestrictionPhase::Applied(status),
    ensures
        match hardening.after(event).restriction {
            RestrictionPhase::Applied(later) => later.strength() <= status.strength(),
            RestrictionPhase::NotStarted => false,
            _ => true,
        },
{
}

/// A restriction is applied only to a worker that is isolated: starting from
/// nothing, an applied restriction means that the isolation was done when it
/// was applied, so that the isolation is done now or has failed since.
pub proof fn lemma_restriction_follows_isolation(events: Seq<HardeningEvent>)
    ensures
        HardeningView::initial().after_all(events).restriction is Applied
            ==> HardeningView::initial().after_all(events).isolation is Done
            || HardeningView::initial().after_all(events).isolation is Failed,
{
    lemma_restricted_is_isolated(HardeningView::initial(), events);
}

/// The fact of [`lemma_restriction_follows_isolation`] holds after any course
/// of events if it held before.
proof fn lemma_restricted_is_isolated(hardening: HardeningView, events: Seq<HardeningEvent>)
    requires
        hardening.restriction is Applied ==> hardening.isolation is Done || hardening.isolation
            is Failed,
    ensures
        hardening.after_all(events).restriction is Applied ==> hardening.after_all(
            events,
        ).isolation is Done || hardening.after_all(events).isolation is Failed,
    decreases events.len(),
{
    if events.len() > 0 {
        lemma_restricted_is_isolated(hardening.after(events[0]), events.drop_first());
    }
}

} // verus!
