//! Restriction of file system access with Landlock.
//!
//! A rule set that handles every access right of [`LANDLOCK_ABI`] denies all
//! file system access, but for the exceptions that are added to it. Once the
//! calling thread is restricted with it, the restriction cannot be lifted.
//!
//! [`try_restrict`] restricts the calling thread. To learn what the running
//! kernel would enforce without restricting oneself, a caller runs
//! `try_restrict` without exceptions on a thread of its own, and hands what
//! became of that thread to [`get_status`] or [`check_is_fully_enabled`].

use crate::access::{AccessFs, AccessRights, LANDLOCK_ABI};
use crate::bytes::as_utf8;
use crate::status::LandlockStatus;
use landlock::{RulesetAttr, RulesetCreatedAttr};
use vstd::prelude::*;
use vstd::string::StringSliceAdditionalSpecFns;

verus! {

/// `landlock::Ruleset`: a rule set in the making.
#[verifier::external_type_specification]
#[verifier::external_body]
pub struct ExRuleset(landlock::Ruleset);

/// `landlock::RulesetCreated`: a rule set that the kernel has created.
#[verifier::external_type_specification]
#[verifier::external_body]
pub struct ExRulesetCreated(landlock::RulesetCreated);

/// `landlock::PathFd`: an open file or directory.
#[verifier::external_type_specification]
#[verifier::external_body]
pub struct ExPathFd(landlock::PathFd);

/// `landlock::PathBeneath`: a rule for a file hierarchy.
#[verifier::external_type_specification]
#[verifier::external_body]
#[verifier::reject_recursive_types(F)]
pub struct ExPathBeneath<F>(landlock::PathBeneath<F>);

/// `landlock::RestrictionStatus`: what a restriction achieved. The type is
/// taken as the crate defines it, with its two public fields.
#[verifier::external_type_specification]
pub struct ExRestrictionStatus(landlock::RestrictionStatus);

/// An exception from the restriction: the rights that stay allowed on a file,
/// or on a directory and everything beneath it.
#[derive(Debug, Clone, PartialEq, Eq)]
pub struct RulesetException {
    /// The file or directory.
    pub path: Vec<u8>,
    /// The rights that stay allowed.
    pub access: AccessRights,
}

/// A [`RulesetException`] with its path as a sequence of bytes and its rights
/// as a set.
pub struct ExceptionView {
    pub path: Seq<u8>,
    pub access: Set<AccessFs>,
}

impl View for RulesetException {
    type V = ExceptionView;

    open spec fn view(&self) -> ExceptionView {
        ExceptionView { path: self.path@, access: self.access@ }
    }
}

/// The exceptions of a list, each by its view.
pub open spec fn exceptions(list: Seq<RulesetException>) -> Seq<ExceptionView> {
    list.map_values(|e: RulesetException| e@)
}

/// Why a restriction failed.
#[derive(Debug, Clone, PartialEq, Eq)]
pub enum RestrictionError {
    /// The path of the exception at `index` is not valid UTF-8. Nothing was
    /// asked of the kernel.
    InvalidPath { index: usize },
    /// The rule set did not take the access rights to handle.
    HandleAccess { detail: String },
    /// The kernel did not create the rule set.
    CreateRuleset { detail: String },
    /// The rule for the exception at `index` could not be made, or was refused.
    AddRule { index: usize, detail: String },
    /// The calling thread could not be restricted.
    RestrictSelf { detail: String },
}

/// A step of a restriction: something that is asked of Landlock.
#[derive(Debug, Clone, Copy, PartialEq, Eq, Structural)]
pub enum RestrictionStep {
    /// The rule set is told which access rights it handles.
    HandleAccess,
    /// The kernel creates the rule set.
    CreateRuleset,
    /// The rule for the exception at `index` is added.
    AddRule { index: usize },
    /// The calling thread is restricted.
    RestrictSelf,
}

impl RestrictionStep {
    /// The error that a failure of this step is reported as, with the detail
    /// that came with the failure.
    pub open spec fn failure(self, detail: String) -> RestrictionError {
        match self {
            RestrictionStep::HandleAccess => RestrictionError::HandleAccess { detail },
            RestrictionStep::CreateRuleset => RestrictionError::CreateRuleset { detail },
            RestrictionStep::AddRule { index } => RestrictionError::AddRule { index, detail },
            RestrictionStep::RestrictSelf => RestrictionError::RestrictSelf { detail },
        }
    }
}

/// `landlock::Ruleset::new`: a rule set that handles nothing yet.
#[verifier::external_body]
fn new_ruleset() -> landlock::Ruleset {
    landlock::Ruleset::new()
}

/// `landlock::RulesetAttr::handle_access` with the rights that `bits` stand
/// for: the rule set handles them from now on, or the text of the error says
/// why it cannot.
#[verifier::external_body]
fn handle_access(ruleset: landlock::Ruleset, bits: u64) -> Result<landlock::Ruleset, String> {
    let access = landlock::BitFlags::<landlock::AccessFs>::from_bits_truncate(bits);
    match ruleset.handle_access(access) {
        Ok(ruleset) => Ok(ruleset),
        Err(e) => Err(e.to_string()),
    }
}

/// `landlock::Ruleset::create`: the kernel's rule set, or the text of the error
/// that says why there is none.
#[verifier::external_body]
fn create_ruleset(ruleset: landlock::Ruleset) -> Result<landlock::RulesetCreated, String> {
    match ruleset.create() {
        Ok(created) => Ok(created),
        Err(e) => Err(e.to_string()),
    }
}

/// `landlock::path_beneath_rules` for one path and the rights that `bits`
/// stand for: the rule that allows these rights beneath the path, or the text
/// of the error that says why it could not be made. There is neither for a
/// path that cannot be opened.
#[verifier::external_body]
fn path_beneath_rule(path: &str, bits: u64) -> Option<
    Result<landlock::PathBeneath<landlock::PathFd>, String>,
> {
    let access = landlock::BitFlags::<landlock::AccessFs>::from_bits_truncate(bits);
    match landlock::path_beneath_rules([path], access).next() {
        None => None,
        Some(Ok(rule)) => Some(Ok(rule)),
        Some(Err(e)) => Some(Err(e.to_string())),
    }
}

/// `landlock::RulesetCreatedAttr::add_rule`: the rule set with the rule added,
/// or the text of the error that says why the rule was refused.
#[verifier::external_body]
fn add_rule(
    created: landlock::RulesetCreated,
    rule: landlock::PathBeneath<landlock::PathFd>,
) -> Result<landlock::RulesetCreated, String> {
    match created.add_rule(rule) {
        Ok(created) => Ok(created),
        Err(e) => Err(e.to_string()),
    }
}

/// `landlock::RulesetCreated::restrict_self`: restricts the calling thread, and
/// says what is enforced, or gives the text of the error that says why the
/// restriction failed.
#[verifier::external_body]
fn restrict_self(created: landlock::RulesetCreated) -> Result<landlock::RestrictionStatus, String> {
    match created.restrict_self() {
        Ok(status) => Ok(status),
        Err(e) => Err(e.to_string()),
    }
}

/// What a step of a restriction comes to: what it gave, if it succeeded, and
/// the step's error with the detail of the failure, if it failed. A failure is
/// never passed over.
pub fn step_outcome<T>(step: RestrictionStep, outcome: Result<T, String>) -> (result: Result<
    T,
    RestrictionError,
>)
    ensures
        match outcome {
            Ok(v) => result == Ok::<T, RestrictionError>(v),
            Err(d) => result == Err::<T, RestrictionError>(step.failure(d)),
        },
{
    match outcome {
        Ok(v) => Ok(v),
        Err(detail) => Err(
            match step {
                RestrictionStep::HandleAccess => RestrictionError::HandleAccess { detail },
                RestrictionStep::CreateRuleset => RestrictionError::CreateRuleset { detail },
                RestrictionStep::AddRule { index } => RestrictionError::AddRule { index, detail },
                RestrictionStep::RestrictSelf => RestrictionError::RestrictSelf { detail },
            },
        ),
    }
}

/// What the making of the rule for the exception at `index` comes to. Where
/// there is no rule, because the path cannot be opened, the exception is
/// passed over: nothing is added for it, and the restriction goes on. Where
/// there is a rule, it is to be added. A failure fails the restriction at this
/// exception.
pub fn rule_outcome<R>(index: usize, outcome: Option<Result<R, String>>) -> (result: Result<
    Option<R>,
    RestrictionError,
>)
    ensures
        match outcome {
            None => result == Ok::<Option<R>, RestrictionError>(None),
            Some(Ok(rule)) => result == Ok::<Option<R>, RestrictionError>(Some(rule)),
            Some(Err(d)) => result == Err::<Option<R>, RestrictionError>(
                RestrictionStep::AddRule { index }.failure(d),
            ),
        },
{
    match outcome {
        None => Ok(None),
        Some(Ok(rule)) => Ok(Some(rule)),
        Some(Err(detail)) => Err(RestrictionError::AddRule { index, detail }),
    }
}

/// What the last step of a restriction comes to: the status of the rule set,
/// if the calling thread was restricted, and `RestrictSelf` with the detail of
/// the failure, if it was not.
pub fn restriction_status(outcome: Result<landlock::RestrictionStatus, String>) -> (result: Result<
    landlock::RulesetStatus,
    RestrictionError,
>)
    ensures
        match outcome {
            Ok(s) => result == Ok::<landlock::RulesetStatus, RestrictionError>(s.ruleset),
            Err(d) => result == Err::<landlock::RulesetStatus, RestrictionError>(
                RestrictionError::RestrictSelf { detail: d },
            ),
        },
{
    match outcome {
        Ok(status) => Ok(status.ruleset),
        Err(detail) => Err(RestrictionError::RestrictSelf { detail }),
    }
}

/// The path of every exception is valid UTF-8.
pub open spec fn all_paths_valid(list: Seq<ExceptionView>) -> bool {
    forall|i: int| 0 <= i < list.len() ==> vstd::utf8::valid_utf8(#[trigger] list[i].path)
}

/// The exception at `index` is the first whose path is not valid UTF-8.
pub open spec fn is_first_invalid_path(list: Seq<ExceptionView>, index: int) -> bool {
    &&& 0 <= index < list.len()
    &&& !vstd::utf8::valid_utf8(list[index].path)
    &&& forall|j: int| 0 <= j < index ==> vstd::utf8::valid_utf8(#[trigger] list[j].path)
}

/// The paths of the exceptions as strings; if one is not valid UTF-8, the
/// position of the first that is not.
pub fn exception_paths(fs_exceptions: &Vec<RulesetException>) -> (result: Result<Vec<&str>, usize>)
    ensures
        match result {
            Ok(paths) => {
                &&& all_paths_valid(exceptions(fs_exceptions@))
                &&& paths@.len() == fs_exceptions@.len()
                &&& forall|i: int|
                    0 <= i < paths@.len() ==> (#[trigger] paths@[i]).spec_bytes()
                        == fs_exceptions@[i].path@
            },
            Err(index) => is_first_invalid_path(exceptions(fs_exceptions@), index as int),
        },
{
    let mut paths: Vec<&str> = Vec::new();
    let mut i: usize = 0;
    while i < fs_exceptions.len()
        invariant
            i <= fs_exceptions.len(),
            paths@.len() == i,
            forall|j: int|
                0 <= j < i ==> vstd::utf8::valid_utf8(#[trigger] exceptions(fs_exceptions@)[j].path),
            forall|j: int|
                0 <= j < i ==> (#[trigger] paths@[j]).spec_bytes() == fs_exceptions@[j].path@,
        decreases fs_exceptions.len() - i,
    {
        match as_utf8(&fs_exceptions[i].path) {
            Some(path) => {
                paths.push(path);
            },
            None => {
                return Err(i);
            },
        }
        i += 1;
    }
    Ok(paths)
}

/// What can come of an attempt to restrict with the given exceptions. A path
/// that is not valid UTF-8 gives `InvalidPath` with the position of the first
/// such exception, and this error comes in no other case. A rule that could
/// not be made or was refused belongs to an exception of the list.
pub open spec fn may_come_of(
    list: Seq<ExceptionView>,
    result: Result<landlock::RulesetStatus, RestrictionError>,
) -> bool {
    if !all_paths_valid(list) {
        result matches Err(RestrictionError::InvalidPath { index }) && is_first_invalid_path(
            list,
            index as int,
        )
    } else {
        match result {
            Ok(_) => true,
            Err(RestrictionError::InvalidPath { .. }) => false,
            Err(RestrictionError::AddRule { index, .. }) => index < list.len(),
            Err(_) => true,
        }
    }
}

/// Tries to restrict the calling thread: all file system access is denied from
/// now on, but for the exceptions. Meant for the main thread of a process,
/// before any untrusted code runs.
///
/// The rule set handles every right of [`LANDLOCK_ABI`], whatever the running
/// kernel offers. The exceptions are added in their order. The first step that
/// fails ends the attempt with the error of that step ([`step_outcome`]), and
/// the calling thread is restricted by the last step only
/// ([`restriction_status`]). An exception whose path cannot be opened is passed
/// over ([`rule_outcome`]). Where the kernel does not support Landlock, nothing
/// is restricted and the status says so.
///
/// An exception whose path is not valid UTF-8 fails the attempt before anything
/// is asked of the kernel. What comes back otherwise is for the kernel to
/// decide: the status of the restriction, or the step that failed.
pub fn try_restrict(fs_exceptions: &Vec<RulesetException>) -> (result: Result<
    landlock::RulesetStatus,
    RestrictionError,
>)
    ensures
        may_come_of(exceptions(fs_exceptions@), result),
{
    let paths = match exception_paths(fs_exceptions) {
        Ok(paths) => paths,
        Err(index) => {
            return Err(RestrictionError::InvalidPath { index });
        },
    };
    let handled = AccessFs::from_all(LANDLOCK_ABI);
    let ruleset = match step_outcome(
        RestrictionStep::HandleAccess,
        handle_access(new_ruleset(), handled.bits()),
    ) {
        Ok(ruleset) => ruleset,
        Err(e) => {
            return Err(e);
        },
    };
    let mut created = match step_outcome(RestrictionStep::CreateRuleset, create_ruleset(ruleset)) {
        Ok(created) => created,
        Err(e) => {
            return Err(e);
        },
    };
    let mut i: usize = 0;
    while i < fs_exceptions.len()
        invariant
            i <= fs_exceptions.len(),
            paths@.len() == fs_exceptions@.len(),
            all_paths_valid(exceptions(fs_exceptions@)),
        decreases fs_exceptions.len() - i,
    {
        let rule = match rule_outcome(
            i,
            path_beneath_rule(paths[i], fs_exceptions[i].access.bits()),
        ) {
            Ok(rule) => rule,
            Err(e) => {
                return Err(e);
            },
        };
        match rule {
            None => {},
            Some(rule) => {
                created = match step_outcome(
                    RestrictionStep::AddRule { index: i },
                    add_rule(created, rule),
                ) {
                    Ok(created) => created,
                    Err(e) => {
                        return Err(e);
                    },
                };
            },
        }
        i += 1;
    }
    restriction_status(restrict_self(created))
}

/// What became of a thread that was started to probe the restriction: it ran
/// [`try_restrict`] without exceptions.
#[derive(Debug)]
pub enum ProbeOutcome {
    /// The thread ran to its end, with this result.
    Completed(Result<landlock::RulesetStatus, RestrictionError>),
    /// The thread panicked.
    Panicked,
}

/// Why a probe gave no status.
#[derive(Debug, Clone, PartialEq, Eq)]
pub enum ProbeError {
    /// The restriction failed in the probing thread.
    Restriction(RestrictionError),
    /// The probing thread panicked.
    Panicked,
}

impl ProbeError {
    /// The text of [`ProbeError::message`].
    pub open spec fn spec_message(self) -> Seq<char> {
        match self {
            ProbeError::Restriction(e) => e.spec_message(),
            ProbeError::Panicked => "a panic occurred in try_restrict"@,
        }
    }

    /// The error in words; for a failed restriction, the words of that
    /// failure.
    pub fn message(&self) -> (msg: &str)
        ensures
            msg@ == self.spec_message(),
    {
        match self {
            ProbeError::Restriction(e) => e.message(),
            ProbeError::Panicked => "a panic occurred in try_restrict",
        }
    }
}

impl RestrictionError {
    /// The text of [`RestrictionError::message`].
    pub open spec fn spec_message(self) -> Seq<char> {
        match self {
            RestrictionError::InvalidPath { .. } => "exception path is not valid UTF-8"@,
            RestrictionError::HandleAccess { detail } => detail@,
            RestrictionError::CreateRuleset { detail } => detail@,
            RestrictionError::AddRule { detail, .. } => detail@,
            RestrictionError::RestrictSelf { detail } => detail@,
        }
    }

    /// The error in words: for a step that failed, the detail that came with
    /// the failure.
    pub fn message(&self) -> (msg: &str)
        ensures
            msg@ == self.spec_message(),
    {
        match self {
            RestrictionError::InvalidPath { .. } => "exception path is not valid UTF-8",
            RestrictionError::HandleAccess { detail } => detail.as_str(),
            RestrictionError::CreateRuleset { detail } => detail.as_str(),
            RestrictionError::AddRule { detail, .. } => detail.as_str(),
            RestrictionError::RestrictSelf { detail } => detail.as_str(),
        }
    }
}

/// The status that a probe found.
pub open spec fn probed_status(outcome: ProbeOutcome) -> Result<landlock::RulesetStatus, ProbeError> {
    match outcome {
        ProbeOutcome::Completed(Ok(status)) => Ok(status),
        ProbeOutcome::Completed(Err(e)) => Err(ProbeError::Restriction(e)),
        ProbeOutcome::Panicked => Err(ProbeError::Panicked),
    }
}

/// To what degree the restriction is enabled on this host, as a probe found
/// it: the status that the probing thread came to, the error that it ended
/// with, or the news that it panicked.
pub fn get_status(outcome: ProbeOutcome) -> (status: Result<landlock::RulesetStatus, ProbeError>)
    ensures
        status == probed_status(outcome),
{
    match outcome {
        ProbeOutcome::Completed(Ok(status)) => Ok(status),
        ProbeOutcome::Completed(Err(e)) => Err(ProbeError::Restriction(e)),
        ProbeOutcome::Panicked => Err(ProbeError::Panicked),
    }
}

/// The status to report for a host after a probe: the status that the probe
/// found, and `Unavailable` where it found none, be it that the restriction
/// failed in the probing thread or that the thread panicked.
pub fn reported_status(status: Result<landlock::RulesetStatus, ProbeError>) -> (reported:
    LandlockStatus)
    ensures
        reported == (match status {
            Ok(s) => LandlockStatus::of_ruleset_status(s),
            Err(_) => LandlockStatus::Unavailable,
        }),
{
    match status {
        Ok(s) => LandlockStatus::from_ruleset_status(s),
        Err(_) => LandlockStatus::Unavailable,
    }
}

/// Whether `status` says that the restriction is fully enabled on this host:
/// only a status of `FullyEnforced` does.
pub fn status_is_fully_enabled(status: &Result<landlock::RulesetStatus, ProbeError>) -> (enabled:
    bool)
    ensures
        enabled == (*status == Ok::<landlock::RulesetStatus, ProbeError>(
            landlock::RulesetStatus::FullyEnforced,
        )),
{
    match status {
        Ok(landlock::RulesetStatus::FullyEnforced) => true,
        _ => false,
    }
}

/// Whether a probe found the restriction fully enabled on this host.
pub fn check_is_fully_enabled(outcome: ProbeOutcome) -> (enabled: bool)
    ensures
        enabled == (outcome matches ProbeOutcome::Completed(
            Ok(landlock::RulesetStatus::FullyEnforced),
        )),
{
    status_is_fully_enabled(&get_status(outcome))
}

} // verus!
