//! Namespace and root isolation.
//!
//! Confining a worker takes nine system calls, each of which must succeed before
//! the next is made. The calls themselves are made by the caller; this module
//! decides which call comes next and with which arguments, and what a failed call
//! means. [`unshare_user_namespace_and_change_root`] validates the worker
//! directory and hands out an [`Isolation`]; the caller asks it for the next call
//! with [`Isolation::next_call`], makes the call, and reports what it returned
//! with [`Isolation::advance`], until [`Isolation::outcome`] is known.

use crate::bytes::{append, as_utf8, contains_byte, copy_of, has_byte, tail_from};
use crate::paths::{is_beneath, is_path_beneath, relocated, root_directory, root_path, SLASH};
use rand::Rng;
use vstd::prelude::*;

verus! {

/// Number of random characters in the name of the staging directory.
pub const RANDOM_LEN: usize = 10;

/// Permission bits of the staging directory.
pub const STAGING_MODE: u32 = 0o755;

/// Why a worker could not be isolated.
#[derive(Debug, Clone, Copy, PartialEq, Eq, Structural)]
pub enum IsolationError {
    /// The worker directory path is not valid UTF-8.
    InvalidUtf8,
    /// The worker directory path holds a NUL byte.
    InteriorNul,
    /// The worker directory path does not start at the root.
    NotAbsolute,
    /// The user namespace could not be unshared.
    UnshareUserNamespace,
    /// The mount namespace could not be unshared.
    UnshareMountNamespace,
    /// The root mount could not be made private.
    MountPrivate,
    /// The worker directory could not be bind-mounted onto itself.
    MountBind,
    /// The staging directory could not be created.
    MkdirOldroot,
    /// The root could not be swapped.
    PivotRoot,
    /// The working directory could not be changed to the new root.
    ChdirNewRoot,
    /// The old root could not be detached.
    UmountOldroot,
    /// The staging directory could not be removed.
    RmdirOldroot,
}

impl IsolationError {
    /// The text of [`IsolationError::message`].
    pub open spec fn spec_message(self) -> Seq<char> {
        match self {
            IsolationError::InvalidUtf8 => "worker dir path is not valid UTF-8"@,
            IsolationError::InteriorNul => "worker dir path contains a NUL byte"@,
            IsolationError::NotAbsolute => "worker dir path is not absolute"@,
            IsolationError::UnshareUserNamespace => "unshare user namespace"@,
            IsolationError::UnshareMountNamespace => "unshare mount namespace"@,
            IsolationError::MountPrivate => "mount MS_PRIVATE"@,
            IsolationError::MountBind => "mount MS_BIND"@,
            IsolationError::MkdirOldroot => "mkdir oldroot"@,
            IsolationError::PivotRoot => "pivot_root"@,
            IsolationError::ChdirNewRoot => "chdir to new root"@,
            IsolationError::UmountOldroot => "umount2 the oldroot"@,
            IsolationError::RmdirOldroot => "rmdir the oldroot"@,
        }
    }

    /// A short description of the failure, naming the operation that failed.
    pub fn message(&self) -> (msg: &'static str)
        ensures
            msg@ == self.spec_message(),
    {
        match self {
            IsolationError::InvalidUtf8 => "worker dir path is not valid UTF-8",
            IsolationError::InteriorNul => "worker dir path contains a NUL byte",
            IsolationError::NotAbsolute => "worker dir path is not absolute",
            IsolationError::UnshareUserNamespace => "unshare user namespace",
            IsolationError::UnshareMountNamespace => "unshare mount namespace",
            IsolationError::MountPrivate => "mount MS_PRIVATE",
            IsolationError::MountBind => "mount MS_BIND",
            IsolationError::MkdirOldroot => "mkdir oldroot",
            IsolationError::PivotRoot => "pivot_root",
            IsolationError::ChdirNewRoot => "chdir to new root",
            IsolationError::UmountOldroot => "umount2 the oldroot",
            IsolationError::RmdirOldroot => "rmdir the oldroot",
        }
    }
}

/// What a path must satisfy to name a worker directory: well-formed UTF-8, free
/// of NUL bytes, and starting at the root.
pub open spec fn is_worker_directory_path(path: Seq<u8>) -> bool {
    &&& vstd::utf8::valid_utf8(path)
    &&& !has_byte(path, 0)
    &&& path.len() > 0
    &&& path[0] == SLASH
}

/// The first reason for which `path` names no worker directory, if there is one.
pub open spec fn worker_directory_fault(path: Seq<u8>) -> Option<IsolationError> {
    if !vstd::utf8::valid_utf8(path) {
        Some(IsolationError::InvalidUtf8)
    } else if has_byte(path, 0) {
        Some(IsolationError::InteriorNul)
    } else if path.len() == 0 || path[0] != SLASH {
        Some(IsolationError::NotAbsolute)
    } else {
        None
    }
}

/// The directory that becomes the root of the worker: an absolute path.
#[derive(Debug, PartialEq, Eq)]
pub struct WorkerDirectory {
    path: Vec<u8>,
}

impl Clone for WorkerDirectory {
    fn clone(&self) -> (copy: Self)
        ensures
            copy@ == self@,
    {
        proof {
            use_type_invariant(self);
        }
        WorkerDirectory { path: copy_of(&self.path) }
    }
}

impl View for WorkerDirectory {
    type V = Seq<u8>;

    closed spec fn view(&self) -> Seq<u8> {
        self.path@
    }
}

impl WorkerDirectory {
    #[verifier::type_invariant]
    spec fn well_formed(self) -> bool {
        is_worker_directory_path(self.path@)
    }

    /// Accepts `path` as a worker directory, or says what is wrong with it.
    pub fn new(path: &Vec<u8>) -> (result: Result<WorkerDirectory, IsolationError>)
        ensures
            match result {
                Ok(dir) => worker_directory_fault(path@) is None && dir@ == path@,
                Err(e) => worker_directory_fault(path@) == Some(e),
            },
    {
        if as_utf8(path).is_none() {
            return Err(IsolationError::InvalidUtf8);
        }
        if contains_byte(path, 0) {
            return Err(IsolationError::InteriorNul);
        }
        if path.len() == 0 || path[0] != SLASH {
            return Err(IsolationError::NotAbsolute);
        }
        Ok(WorkerDirectory { path: copy_of(path) })
    }

    /// The path, as given to [`WorkerDirectory::new`].
    pub fn as_bytes(&self) -> (path: &Vec<u8>)
        ensures
            path@ == self@,
            is_worker_directory_path(path@),
    {
        proof {
            use_type_invariant(self);
        }
        &self.path
    }

    /// Where a path of the old root is found once this directory has become the
    /// root: `None` for a path that does not lie in this directory. Paths are
    /// compared as written, component by component.
    pub fn path_after_isolation(&self, path: &Vec<u8>) -> (inside: Option<Vec<u8>>)
        ensures
            match inside {
                Some(p) => is_beneath(self@, path@) && p@ == relocated(self@, path@),
                None => !is_beneath(self@, path@),
            },
    {
        proof {
            use_type_invariant(self);
        }
        let dir = &self.path;
        if !is_path_beneath(dir, path) {
            return None;
        }
        let ends_with_slash = dir[dir.len() - 1] == SLASH;
        let rest = tail_from(path, dir.len());
        if ends_with_slash {
            let mut inside = root_directory();
            append(&mut inside, &rest);
            Some(inside)
        } else if path.len() == dir.len() {
            Some(root_directory())
        } else {
            Some(rest)
        }
    }
}

/// An ASCII letter or digit.
pub open spec fn is_alphanumeric(b: u8) -> bool {
    (0x30 <= b <= 0x39) || (0x41 <= b <= 0x5a) || (0x61 <= b <= 0x7a)
}

/// What the random part of a staging directory's name must satisfy:
/// [`RANDOM_LEN`] ASCII letters and digits.
pub open spec fn is_staging_token(token: Seq<u8>) -> bool {
    &&& token.len() == RANDOM_LEN
    &&& forall|i: int| 0 <= i < token.len() ==> is_alphanumeric(#[trigger] token[i])
}

/// `rand::Rng::sample_iter` on `rand::thread_rng()` with
/// `rand::distributions::Alphanumeric`, cut off after `len` samples. The
/// distribution yields ASCII letters and digits only, and never runs dry, so
/// there are `len` of them. Which ones is left open: two calls may differ.
#[verifier::external_body]
fn random_alphanumeric(len: usize) -> (sample: Vec<u8>)
    ensures
        sample@.len() == len,
        forall|i: int| 0 <= i < sample@.len() ==> is_alphanumeric(#[trigger] sample@[i]),
{
    rand::thread_rng().sample_iter(&rand::distributions::Alphanumeric).take(len).collect()
}

/// The random part of a staging directory's name.
#[derive(Debug, PartialEq, Eq)]
pub struct StagingToken {
    chars: Vec<u8>,
}

impl View for StagingToken {
    type V = Seq<u8>;

    closed spec fn view(&self) -> Seq<u8> {
        self.chars@
    }
}

impl StagingToken {
    #[verifier::type_invariant]
    spec fn well_formed(self) -> bool {
        is_staging_token(self.chars@)
    }

    /// A fresh token, drawn at random.
    pub fn random() -> (token: StagingToken)
        ensures
            is_staging_token(token@),
    {
        StagingToken { chars: random_alphanumeric(RANDOM_LEN) }
    }

    /// The token spelled by `chars`, if they spell one.
    pub fn new(chars: &Vec<u8>) -> (token: Option<StagingToken>)
        ensures
            match token {
                Some(t) => is_staging_token(chars@) && t@ == chars@,
                None => !is_staging_token(chars@),
            },
    {
        if chars.len() != RANDOM_LEN {
            return None;
        }
        let mut i: usize = 0;
        while i < chars.len()
            invariant
                i <= chars.len(),
                forall|j: int| 0 <= j < i ==> is_alphanumeric(#[trigger] chars@[j]),
            decreases chars.len() - i,
        {
            let b: u8 = chars[i];
            let ok = (0x30 <= b && b <= 0x39) || (0x41 <= b && b <= 0x5a) || (0x61 <= b && b
                <= 0x7a);
            if !ok {
                assert(!is_alphanumeric(chars@[i as int]));
                return None;
            }
            i += 1;
        }
        Some(StagingToken { chars: copy_of(chars) })
    }

    /// The characters of the token.
    pub fn as_bytes(&self) -> (chars: &Vec<u8>)
        ensures
            chars@ == self@,
            is_staging_token(chars@),
    {
        proof {
            use_type_invariant(self);
        }
        &self.chars
    }
}

/// The fixed part of a staging directory's name: `oldroot-`.
pub open spec fn staging_prefix() -> Seq<u8> {
    seq![0x6fu8, 0x6cu8, 0x64u8, 0x72u8, 0x6fu8, 0x6fu8, 0x74u8, 0x2du8]
}

/// The name of the staging directory with the given token.
pub open spec fn staging_name(token: Seq<u8>) -> Seq<u8> {
    staging_prefix() + token
}

/// The staging directory as it is named before the root is swapped: inside the
/// worker directory.
pub open spec fn staging_path_before(worker_dir: Seq<u8>, token: Seq<u8>) -> Seq<u8> {
    worker_dir + seq![SLASH] + staging_name(token)
}

/// The staging directory as it is named after the root is swapped: directly
/// under the new root.
pub open spec fn staging_path_after(token: Seq<u8>) -> Seq<u8> {
    seq![SLASH] + staging_name(token)
}

/// A namespace to leave.
#[derive(Debug, Clone, Copy, PartialEq, Eq, Structural)]
pub enum Namespace {
    /// The user namespace.
    User,
    /// The mount namespace.
    Mount,
}

/// Options of a mount call.
#[derive(Debug, Clone, Copy, PartialEq, Eq, Structural)]
pub struct MountFlags {
    /// Make a bind mount.
    pub bind: bool,
    /// Apply to the whole subtree.
    pub recursive: bool,
    /// Stop propagation to and from other namespaces.
    pub private: bool,
    /// Forbid executing programs from the mount.
    pub no_exec: bool,
    /// Forbid device nodes on the mount.
    pub no_dev: bool,
    /// Ignore set-user-id and set-group-id bits on the mount.
    pub no_suid: bool,
}

/// A system call that the caller is asked to make.
#[derive(Debug, Clone, PartialEq, Eq)]
pub enum Syscall {
    /// `unshare`: leave the given namespace for a new one.
    Unshare { namespace: Namespace },
    /// `mount`, without file system type or data.
    Mount { source: Option<Vec<u8>>, target: Vec<u8>, flags: MountFlags },
    /// `mkdir` with the given permission bits.
    Mkdir { path: Vec<u8>, mode: u32 },
    /// `pivot_root`: make `new_root` the root and move the old root to `put_old`.
    PivotRoot { new_root: Vec<u8>, put_old: Vec<u8> },
    /// `chdir`.
    Chdir { path: Vec<u8> },
    /// `umount2`; with `detach`, lazily.
    Umount { target: Vec<u8>, detach: bool },
    /// `rmdir`.
    Rmdir { path: Vec<u8> },
}

/// A [`Syscall`] with its paths as sequences of bytes.
pub enum SyscallView {
    Unshare { namespace: Namespace },
    Mount { source: Option<Seq<u8>>, target: Seq<u8>, flags: MountFlags },
    Mkdir { path: Seq<u8>, mode: u32 },
    PivotRoot { new_root: Seq<u8>, put_old: Seq<u8> },
    Chdir { path: Seq<u8> },
    Umount { target: Seq<u8>, detach: bool },
    Rmdir { path: Seq<u8> },
}

impl View for Syscall {
    type V = SyscallView;

    open spec fn view(&self) -> SyscallView {
        match self {
            Syscall::Unshare { namespace } => SyscallView::Unshare { namespace: *namespace },
            Syscall::Mount { source, target, flags } => SyscallView::Mount {
                source: match source {
                    Some(s) => Some(s@),
                    None => None,
                },
                target: target@,
                flags: *flags,
            },
            Syscall::Mkdir { path, mode } => SyscallView::Mkdir { path: path@, mode: *mode },
            Syscall::PivotRoot { new_root, put_old } => SyscallView::PivotRoot {
                new_root: new_root@,
                put_old: put_old@,
            },
            Syscall::Chdir { path } => SyscallView::Chdir { path: path@ },
            Syscall::Umount { target, detach } => SyscallView::Umount {
                target: target@,
                detach: *detach,
            },
            Syscall::Rmdir { path } => SyscallView::Rmdir { path: path@ },
        }
    }
}

impl SyscallView {
    /// No path of the call holds a NUL byte, so each can be handed to the
    /// kernel as a C string.
    pub open spec fn nul_free(self) -> bool {
        match self {
            SyscallView::Unshare { .. } => true,
            SyscallView::Mount { source, target, .. } => !has_byte(target, 0) && (source matches Some(
                s,
            ) ==> !has_byte(s, 0)),
            SyscallView::Mkdir { path, .. } => !has_byte(path, 0),
            SyscallView::PivotRoot { new_root, put_old } => !has_byte(new_root, 0) && !has_byte(
                put_old,
                0,
            ),
            SyscallView::Chdir { path } => !has_byte(path, 0),
            SyscallView::Umount { target, .. } => !has_byte(target, 0),
            SyscallView::Rmdir { path } => !has_byte(path, 0),
        }
    }
}

/// The steps of an isolation, in the order in which they are taken.
#[derive(Debug, Clone, Copy, PartialEq, Eq, Structural)]
pub enum IsolationStep {
    /// Leave the user namespace.
    UnshareUser,
    /// Leave the mount namespace.
    UnshareMount,
    /// Make the root mount and everything below it private.
    MakeRootPrivate,
    /// Bind-mount the worker directory onto itself.
    BindWorkerDir,
    /// Create the staging directory for the old root.
    CreateStaging,
    /// Swap the root.
    PivotRoot,
    /// Change the working directory to the new root.
    EnterNewRoot,
    /// Detach the old root.
    DetachOldRoot,
    /// Remove the staging directory.
    RemoveStaging,
}

/// Number of steps of an isolation.
pub const STEP_COUNT: usize = 9;

impl IsolationStep {
    /// Position of the step, counted from 0.
    pub open spec fn index(self) -> nat {
        match self {
            IsolationStep::UnshareUser => 0,
            IsolationStep::UnshareMount => 1,
            IsolationStep::MakeRootPrivate => 2,
            IsolationStep::BindWorkerDir => 3,
            IsolationStep::CreateStaging => 4,
            IsolationStep::PivotRoot => 5,
            IsolationStep::EnterNewRoot => 6,
            IsolationStep::DetachOldRoot => 7,
            IsolationStep::RemoveStaging => 8,
        }
    }

    /// The step at position `index`.
    pub open spec fn at(index: nat) -> IsolationStep
        recommends
            index < STEP_COUNT,
    {
        if index == 0 {
            IsolationStep::UnshareUser
        } else if index == 1 {
            IsolationStep::UnshareMount
        } else if index == 2 {
            IsolationStep::MakeRootPrivate
        } else if index == 3 {
            IsolationStep::BindWorkerDir
        } else if index == 4 {
            IsolationStep::CreateStaging
        } else if index == 5 {
            IsolationStep::PivotRoot
        } else if index == 6 {
            IsolationStep::EnterNewRoot
        } else if index == 7 {
            IsolationStep::DetachOldRoot
        } else {
            IsolationStep::RemoveStaging
        }
    }

    /// The step that follows this one; `None` after the last.
    pub open spec fn following(self) -> Option<IsolationStep> {
        if self.index() + 1 < STEP_COUNT {
            Some(Self::at(self.index() + 1))
        } else {
            None
        }
    }

    /// The error that a failure of this step is reported as.
    pub open spec fn failure(self) -> IsolationError {
        match self {
            IsolationStep::UnshareUser => IsolationError::UnshareUserNamespace,
            IsolationStep::UnshareMount => IsolationError::UnshareMountNamespace,
            IsolationStep::MakeRootPrivate => IsolationError::MountPrivate,
            IsolationStep::BindWorkerDir => IsolationError::MountBind,
            IsolationStep::CreateStaging => IsolationError::MkdirOldroot,
            IsolationStep::PivotRoot => IsolationError::PivotRoot,
            IsolationStep::EnterNewRoot => IsolationError::ChdirNewRoot,
            IsolationStep::DetachOldRoot => IsolationError::UmountOldroot,
            IsolationStep::RemoveStaging => IsolationError::RmdirOldroot,
        }
    }

    /// The call that this step makes, for the given worker directory and token.
    pub open spec fn call(self, worker_dir: Seq<u8>, token: Seq<u8>) -> SyscallView {
        match self {
            IsolationStep::UnshareUser => SyscallView::Unshare { namespace: Namespace::User },
            IsolationStep::UnshareMount => SyscallView::Unshare { namespace: Namespace::Mount },
            IsolationStep::MakeRootPrivate => SyscallView::Mount {
                source: None,
                target: root_path(),
                flags: MountFlags {
                    bind: false,
                    recursive: true,
                    private: true,
                    no_exec: false,
                    no_dev: false,
                    no_suid: false,
                },
            },
            IsolationStep::BindWorkerDir => SyscallView::Mount {
                source: Some(worker_dir),
                target: worker_dir,
                flags: MountFlags {
                    bind: true,
                    recursive: true,
                    private: false,
                    no_exec: true,
                    no_dev: true,
                    no_suid: true,
                },
            },
            IsolationStep::CreateStaging => SyscallView::Mkdir {
                path: staging_path_before(worker_dir, token),
                mode: STAGING_MODE,
            },
            IsolationStep::PivotRoot => SyscallView::PivotRoot {
                new_root: worker_dir,
                put_old: staging_path_before(worker_dir, token),
            },
            IsolationStep::EnterNewRoot => SyscallView::Chdir { path: root_path() },
            IsolationStep::DetachOldRoot => SyscallView::Umount {
                target: staging_path_after(token),
                detach: true,
            },
            IsolationStep::RemoveStaging => SyscallView::Rmdir { path: staging_path_after(token) },
        }
    }

    /// The step that follows this one; `None` after the last.
    pub fn next(self) -> (next: Option<IsolationStep>)
        ensures
            next == self.following(),
    {
        match self {
            IsolationStep::UnshareUser => Some(IsolationStep::UnshareMount),
            IsolationStep::UnshareMount => Some(IsolationStep::MakeRootPrivate),
            IsolationStep::MakeRootPrivate => Some(IsolationStep::BindWorkerDir),
            IsolationStep::BindWorkerDir => Some(IsolationStep::CreateStaging),
            IsolationStep::CreateStaging => Some(IsolationStep::PivotRoot),
            IsolationStep::PivotRoot => Some(IsolationStep::EnterNewRoot),
            IsolationStep::EnterNewRoot => Some(IsolationStep::DetachOldRoot),
            IsolationStep::DetachOldRoot => Some(IsolationStep::RemoveStaging),
            IsolationStep::RemoveStaging => None,
        }
    }

    /// The error that a failure of this step is reported as.
    pub fn error(self) -> (error: IsolationError)
        ensures
            error == self.failure(),
    {
        match self {
            IsolationStep::UnshareUser => IsolationError::UnshareUserNamespace,
            IsolationStep::UnshareMount => IsolationError::UnshareMountNamespace,
            IsolationStep::MakeRootPrivate => IsolationError::MountPrivate,
            IsolationStep::BindWorkerDir => IsolationError::MountBind,
            IsolationStep::CreateStaging => IsolationError::MkdirOldroot,
            IsolationStep::PivotRoot => IsolationError::PivotRoot,
            IsolationStep::EnterNewRoot => IsolationError::ChdirNewRoot,
            IsolationStep::DetachOldRoot => IsolationError::UmountOldroot,
            IsolationStep::RemoveStaging => IsolationError::RmdirOldroot,
        }
    }
}

/// How far an isolation has come.
#[derive(Debug, Clone, Copy, PartialEq, Eq, Structural)]
pub enum IsolationState {
    /// The given step is the next to take.
    Pending(IsolationStep),
    /// Every step has succeeded: the worker is confined.
    Done,
    /// A step has failed. No further step is taken.
    Failed(IsolationError),
}

impl IsolationState {
    /// The state in which every isolation starts.
    pub open spec fn initial() -> IsolationState {
        IsolationState::Pending(IsolationStep::UnshareUser)
    }

    /// The state after the pending call has returned `ret`. A negative value
    /// reports a failure. Once the isolation is done or has failed, nothing
    /// changes the state.
    pub open spec fn after(self, ret: i64) -> IsolationState {
        match self {
            IsolationState::Pending(step) => if ret < 0 {
                IsolationState::Failed(step.failure())
            } else {
                match step.following() {
                    Some(next) => IsolationState::Pending(next),
                    None => IsolationState::Done,
                }
            },
            IsolationState::Done => IsolationState::Done,
            IsolationState::Failed(e) => IsolationState::Failed(e),
        }
    }

    /// The state after the calls have returned `rets`, one after the other.
    pub open spec fn after_all(self, rets: Seq<i64>) -> IsolationState
        decreases rets.len(),
    {
        if rets.len() == 0 {
            self
        } else {
            self.after(rets[0]).after_all(rets.drop_first())
        }
    }

    /// The result of the isolation, once it is known.
    pub open spec fn result(self) -> Option<Result<(), IsolationError>> {
        match self {
            IsolationState::Pending(_) => None,
            IsolationState::Done => Some(Ok(())),
            IsolationState::Failed(e) => Some(Err(e)),
        }
    }
}

/// What an [`Isolation`] stands for.
pub struct IsolationView {
    /// The directory that becomes the root.
    pub worker_dir: Seq<u8>,
    /// The random part of the staging directory's name.
    pub token: Seq<u8>,
    /// How far the isolation has come.
    pub state: IsolationState,
}

/// An isolation in progress: the worker directory, the staging directory's
/// token, and the step that comes next.
#[derive(Debug)]
pub struct Isolation {
    worker_dir: WorkerDirectory,
    token: StagingToken,
    state: IsolationState,
}

impl View for Isolation {
    type V = IsolationView;

    closed spec fn view(&self) -> IsolationView {
        IsolationView { worker_dir: self.worker_dir@, token: self.token@, state: self.state }
    }
}

impl Isolation {
    /// An isolation of `worker_dir` that has taken no step yet.
    pub fn begin(worker_dir: WorkerDirectory, token: StagingToken) -> (isolation: Isolation)
        ensures
            isolation@.worker_dir == worker_dir@,
            isolation@.token == token@,
            isolation@.state == IsolationState::initial(),
    {
        Isolation { worker_dir, token, state: IsolationState::Pending(IsolationStep::UnshareUser) }
    }

    /// How far the isolation has come.
    pub fn state(&self) -> (state: IsolationState)
        ensures
            state == self@.state,
    {
        self.state
    }

    /// The result of the isolation: `None` while a step is pending.
    pub fn outcome(&self) -> (outcome: Option<Result<(), IsolationError>>)
        ensures
            outcome == self@.state.result(),
    {
        match self.state {
            IsolationState::Pending(_) => None,
            IsolationState::Done => Some(Ok(())),
            IsolationState::Failed(e) => Some(Err(e)),
        }
    }

    /// The staging directory's path before the root is swapped.
    pub fn staging_path_before(&self) -> (path: Vec<u8>)
        ensures
            path@ == staging_path_before(self@.worker_dir, self@.token),
    {
        let mut path = copy_of(self.worker_dir.as_bytes());
        path.push(SLASH);
        push_staging_name(&mut path, &self.token);
        assert(path@ =~= staging_path_before(self@.worker_dir, self@.token));
        path
    }

    /// The staging directory's path after the root is swapped.
    pub fn staging_path_after(&self) -> (path: Vec<u8>)
        ensures
            path@ == staging_path_after(self@.token),
    {
        let mut path: Vec<u8> = Vec::new();
        path.push(SLASH);
        push_staging_name(&mut path, &self.token);
        assert(path@ =~= staging_path_after(self@.token));
        path
    }

    /// The call to make next: `None` once the isolation is done or has failed.
    /// No path of the call holds a NUL byte.
    pub fn next_call(&self) -> (call: Option<Syscall>)
        ensures
            match call {
                Some(c) => self@.state matches IsolationState::Pending(step) && c@ == step.call(
                    self@.worker_dir,
                    self@.token,
                ) && c@.nul_free(),
                None => !(self@.state is Pending),
            },
    {
        let step = match self.state {
            IsolationState::Pending(step) => step,
            _ => {
                return None;
            },
        };
        proof {
            use_type_invariant(&self.worker_dir);
            use_type_invariant(&self.token);
            lemma_calls_are_nul_free(step, self@.worker_dir, self@.token);
        }
        let call = match step {
            IsolationStep::UnshareUser => Syscall::Unshare { namespace: Namespace::User },
            IsolationStep::UnshareMount => Syscall::Unshare { namespace: Namespace::Mount },
            IsolationStep::MakeRootPrivate => Syscall::Mount {
                source: None,
                target: root_directory(),
                flags: MountFlags {
                    bind: false,
                    recursive: true,
                    private: true,
                    no_exec: false,
                    no_dev: false,
                    no_suid: false,
                },
            },
            IsolationStep::BindWorkerDir => Syscall::Mount {
                source: Some(copy_of(self.worker_dir.as_bytes())),
                target: copy_of(self.worker_dir.as_bytes()),
                flags: MountFlags {
                    bind: true,
                    recursive: true,
                    private: false,
                    no_exec: true,
                    no_dev: true,
                    no_suid: true,
                },
            },
            IsolationStep::CreateStaging => Syscall::Mkdir {
                path: self.staging_path_before(),
                mode: STAGING_MODE,
            },
            IsolationStep::PivotRoot => Syscall::PivotRoot {
                new_root: copy_of(self.worker_dir.as_bytes()),
                put_old: self.staging_path_before(),
            },
            IsolationStep::EnterNewRoot => Syscall::Chdir { path: root_directory() },
            IsolationStep::DetachOldRoot => Syscall::Umount {
                target: self.staging_path_after(),
                detach: true,
            },
            IsolationStep::RemoveStaging => Syscall::Rmdir { path: self.staging_path_after() },
        };
        Some(call)
    }

    /// Takes note of what the call of [`Isolation::next_call`] returned. A
    /// negative value fails the isolation with the error of the pending step;
    /// any other value moves on to the following step, or completes the
    /// isolation after the last. Once the isolation is done or has failed,
    /// nothing changes.
    pub fn advance(self, ret: i64) -> (next: Isolation)
        ensures
            next@.worker_dir == self@.worker_dir,
            next@.token == self@.token,
            next@.state == self@.state.after(ret),
    {
        let state = match self.state {
            IsolationState::Pending(step) => {
                if ret < 0 {
                    IsolationState::Failed(step.error())
                } else {
                    match step.next() {
                        Some(next) => IsolationState::Pending(next),
                        None => IsolationState::Done,
                    }
                }
            },
            IsolationState::Done => IsolationState::Done,
            IsolationState::Failed(e) => IsolationState::Failed(e),
        };
        Isolation { worker_dir: self.worker_dir, token: self.token, state }
    }
}

/// Appends the staging directory's name to `path`.
fn push_staging_name(path: &mut Vec<u8>, token: &StagingToken)
    ensures
        final(path)@ == old(path)@ + staging_name(token@),
{
    path.push(0x6f);
    path.push(0x6c);
    path.push(0x64);
    path.push(0x72);
    path.push(0x6f);
    path.push(0x6f);
    path.push(0x74);
    path.push(0x2d);
    append(path, token.as_bytes());
    assert(path@ =~= old(path)@ + staging_name(token@));
}

/// Begins the isolation of a worker in the directory `worker_dir_path`: the
/// user and mount namespaces are left, and the directory becomes the root.
///
/// Fails on a path that names no worker directory, without any step taken.
/// Otherwise a token for the staging directory is drawn at random, and the
/// isolation stands before its first step.
pub fn unshare_user_namespace_and_change_root(worker_dir_path: &Vec<u8>) -> (result: Result<
    Isolation,
    IsolationError,
>)
    ensures
        match result {
            Ok(isolation) => {
                &&& worker_directory_fault(worker_dir_path@) is None
                &&& isolation@.worker_dir == worker_dir_path@
                &&& is_staging_token(isolation@.token)
                &&& isolation@.state == IsolationState::initial()
            },
            Err(e) => worker_directory_fault(worker_dir_path@) == Some(e),
        },
{
    let worker_dir = match WorkerDirectory::new(worker_dir_path) {
        Ok(dir) => dir,
        Err(e) => {
            return Err(e);
        },
    };
    Ok(Isolation::begin(worker_dir, StagingToken::random()))
}

/// No byte of a concatenation is NUL when no byte of its parts is.
pub proof fn lemma_concat_nul_free(a: Seq<u8>, b: Seq<u8>)
    requires
        !has_byte(a, 0),
        !has_byte(b, 0),
    ensures
        !has_byte(a + b, 0),
{
    if has_byte(a + b, 0) {
        let i = choose|i: int| 0 <= i < (a + b).len() && (a + b)[i] == 0;
        if i < a.len() {
            assert(a[i] == 0);
        } else {
            assert(b[i - a.len()] == 0);
        }
    }
}

/// Every path that an isolation hands to the kernel is free of NUL bytes.
pub proof fn lemma_calls_are_nul_free(step: IsolationStep, worker_dir: Seq<u8>, token: Seq<u8>)
    requires
        is_worker_directory_path(worker_dir),
        is_staging_token(token),
    ensures
        step.call(worker_dir, token).nul_free(),
{
    assert(!has_byte(root_path(), 0));
    assert(!has_byte(staging_prefix(), 0));
    assert(!has_byte(token, 0)) by {
        if has_byte(token, 0) {
            let i = choose|i: int| 0 <= i < token.len() && token[i] == 0;
            assert(is_alphanumeric(token[i]));
        }
    }
    lemma_concat_nul_free(staging_prefix(), token);
    lemma_concat_nul_free(seq![SLASH], staging_name(token));
    lemma_concat_nul_free(worker_dir, seq![SLASH]);
    lemma_concat_nul_free(worker_dir + seq![SLASH], staging_name(token));
}

/// Number of calls that are still to succeed before the isolation is done.
pub open spec fn calls_left(state: IsolationState) -> nat {
    match state {
        IsolationState::Pending(step) => (STEP_COUNT - step.index()) as nat,
        _ => 0,
    }
}

/// A finished isolation stays as it is: neither a success nor a failure is
/// changed by anything reported later.
pub proof fn lemma_outcome_is_final(state: IsolationState, rets: Seq<i64>)
    requires
        !(state is Pending),
    ensures
        state.after_all(rets) == state,
    decreases rets.len(),
{
    if rets.len() > 0 {
        lemma_outcome_is_final(state, rets.drop_first());
    }
}

/// An isolation is done exactly when each of the calls that were still to be
/// made has returned, and none of them has reported a failure.
pub proof fn lemma_done_iff_every_call_succeeded(step: IsolationStep, rets: Seq<i64>)
    ensures
        IsolationState::Pending(step).after_all(rets) is Done <==> {
            &&& rets.len() >= calls_left(IsolationState::Pending(step))
            &&& forall|k: int|
                0 <= k < calls_left(IsolationState::Pending(step)) ==> #[trigger] rets[k] >= 0
        },
    decreases rets.len(),
{
    let start = IsolationState::Pending(step);
    let left = calls_left(start);
    if rets.len() == 0 {
    } else {
        let rest = rets.drop_first();
        let second = start.after(rets[0]);
        if rets[0] < 0 {
            lemma_outcome_is_final(second, rest);
        } else {
            match step.following() {
                None => {
                    lemma_outcome_is_final(second, rest);
                },
                Some(next) => {
                    lemma_done_iff_every_call_succeeded(next, rest);
                    let left_next = calls_left(IsolationState::Pending(next));
                    assert(left == left_next + 1);
                    if second.after_all(rest) is Done {
                        assert forall|k: int| 0 <= k < left implies #[trigger] rets[k] >= 0 by {
                            if k > 0 {
                                assert(rets[k] == rest[k - 1]);
                            }
                        }
                    }
                    if rets.len() >= left && (forall|k: int|
                        0 <= k < left ==> #[trigger] rets[k] >= 0) {
                        assert forall|k: int| 0 <= k < left_next implies #[trigger] rest[k]
                            >= 0 by {
                            assert(rest[k] == rets[k + 1]);
                        }
                    }
                },
            }
        }
    }
}

/// Started afresh, an isolation is done exactly when all its calls, nine in
/// number, have returned without reporting a failure.
pub proof fn lemma_isolation_succeeds_iff_all_steps_succeed(rets: Seq<i64>)
    ensures
        IsolationState::initial().after_all(rets) is Done <==> {
            &&& rets.len() >= STEP_COUNT
            &&& forall|k: int| 0 <= k < STEP_COUNT ==> #[trigger] rets[k] >= 0
        },
{
    lemma_done_iff_every_call_succeeded(IsolationStep::UnshareUser, rets);
}

/// The first call that reports a failure decides the outcome: the isolation
/// fails with the error of that step, whatever is reported afterwards.
pub proof fn lemma_first_failure_decides(step: IsolationStep, rets: Seq<i64>, k: int)
    requires
        0 <= k < rets.len(),
        k < calls_left(IsolationState::Pending(step)),
        rets[k] < 0,
        forall|j: int| 0 <= j < k ==> #[trigger] rets[j] >= 0,
    ensures
        IsolationState::Pending(step).after_all(rets) == IsolationState::Failed(
            IsolationStep::at((step.index() + k) as nat).failure(),
        ),
    decreases k,
{
    let start = IsolationState::Pending(step);
    let rest = rets.drop_first();
    if k == 0 {
        lemma_outcome_is_final(start.after(rets[0]), rest);
    } else {
        assert(rets[0] >= 0);
        let next = step.following()->0;
        assert forall|j: int| 0 <= j < k - 1 implies #[trigger] rest[j] >= 0 by {
            assert(rest[j] == rets[j + 1]);
        }
        assert(rest[k - 1] == rets[k]);
        lemma_first_failure_decides(next, rest, k - 1);
    }
}

/// Started afresh, an isolation whose call number `k` is the first to report a
/// failure fails with the error of step number `k`.
pub proof fn lemma_isolation_fails_at_first_failed_step(rets: Seq<i64>, k: int)
    requires
        0 <= k < rets.len(),
        k < STEP_COUNT,
        rets[k] < 0,
        forall|j: int| 0 <= j < k ==> #[trigger] rets[j] >= 0,
    ensures
        IsolationState::initial().after_all(rets) == IsolationState::Failed(
            IsolationStep::at(k as nat).failure(),
        ),
{
    lemma_first_failure_decides(IsolationStep::UnshareUser, rets, k);
}

/// Two tokens that differ give staging directories that differ, before the
/// root is swapped and after it.
pub proof fn lemma_staging_paths_differ(worker_dir: Seq<u8>, token1: Seq<u8>, token2: Seq<u8>)
    requires
        token1 != token2,
    ensures
        staging_path_before(worker_dir, token1) != staging_path_before(worker_dir, token2),
        staging_path_after(token1) != staging_path_after(token2),
{
    let head_before = worker_dir + seq![SLASH] + staging_prefix();
    let head_after = seq![SLASH] + staging_prefix();
    assert(staging_path_before(worker_dir, token1) =~= head_before + token1);
    assert(staging_path_before(worker_dir, token2) =~= head_before + token2);
    assert(staging_path_after(token1) =~= head_after + token1);
    assert(staging_path_after(token2) =~= head_after + token2);
    lemma_concat_same_head(head_before, token1, token2);
    lemma_concat_same_head(head_after, token1, token2);
}

/// Two tails that differ give concatenations that differ.
proof fn lemma_concat_same_head(head: Seq<u8>, tail1: Seq<u8>, tail2: Seq<u8>)
    requires
        tail1 != tail2,
    ensures
        head + tail1 != head + tail2,
{
    if head + tail1 == head + tail2 {
        assert(tail1 =~= (head + tail1).subrange(head.len() as int, (head + tail1).len() as int));
        assert(tail2 =~= (head + tail2).subrange(head.len() as int, (head + tail2).len() as int));
    }
}

/// The staging directory lies in the worker directory, and the directory that
/// is created before the root is swapped is the one that is removed after it:
/// its old name is carried to its new one.
pub proof fn lemma_staging_is_relocated(worker_dir: Seq<u8>, token: Seq<u8>)
    requires
        worker_dir.len() > 0,
        worker_dir.last() != SLASH,
    ensures
        is_beneath(worker_dir, staging_path_before(worker_dir, token)),
        relocated(worker_dir, staging_path_before(worker_dir, token)) == staging_path_after(token),
{
    let before = staging_path_before(worker_dir, token);
    assert(before.subrange(0, worker_dir.len() as int) =~= worker_dir);
    assert(before[worker_dir.len() as int] == SLASH);
    assert(before.subrange(worker_dir.len() as int, before.len() as int) =~= staging_path_after(
        token,
    ));
}

/// As long as every call succeeds, the steps are taken in their order: after
/// `rets.len()` calls, the step at that position is pending.
pub proof fn lemma_steps_are_taken_in_order(step: IsolationStep, rets: Seq<i64>)
    requires
        step.index() + rets.len() < STEP_COUNT,
        forall|k: int| 0 <= k < rets.len() ==> #[trigger] rets[k] >= 0,
    ensures
        IsolationState::Pending(step).after_all(rets) == IsolationState::Pending(
            IsolationStep::at(step.index() + rets.len()),
        ),
    decreases rets.len(),
{
    if rets.len() > 0 {
        let rest = rets.drop_first();
        assert(rets[0] >= 0);
        assert forall|k: int| 0 <= k < rest.len() implies #[trigger] rest[k] >= 0 by {
            assert(rest[k] == rets[k + 1]);
        }
        lemma_steps_are_taken_in_order(step.following()->0, rest);
    }
}

/// An isolation whose first call is refused has failed at unsharing the user
/// namespace. It stays so whatever is reported afterwards, and no further call
/// is asked for: no step is pending.
pub proof fn lemma_refused_first_call_ends_isolation(ret: i64, later: Seq<i64>)
    requires
        ret < 0,
    ensures
        IsolationState::initial().after(ret) == IsolationState::Failed(
            IsolationError::UnshareUserNamespace,
        ),
        IsolationState::initial().after(ret).after_all(later) == IsolationState::Failed(
            IsolationError::UnshareUserNamespace,
        ),
        IsolationState::initial().after(ret).result() == Some(
            Err::<(), IsolationError>(IsolationError::UnshareUserNamespace),
        ),
{
    lemma_outcome_is_final(IsolationState::initial().after(ret), later);
}

/// What an isolation that is done has asked for, and got: the staging
/// directory was made in the worker directory, the root was swapped for the
/// worker directory with the old root put into the staging directory, the
/// working directory was changed to the new root, the old root was detached
/// from the staging directory, and the staging directory was removed, which
/// was the last call. None of these calls reported a failure.
pub proof fn lemma_done_isolation_swapped_root_and_removed_staging(
    worker_dir: Seq<u8>,
    token: Seq<u8>,
    rets: Seq<i64>,
)
    requires
        IsolationState::initial().after_all(rets) is Done,
    ensures
        rets.len() >= STEP_COUNT,
        forall|k: int| 0 <= k < STEP_COUNT ==> #[trigger] rets[k] >= 0,
        IsolationStep::at(4).call(worker_dir, token) == (SyscallView::Mkdir {
            path: staging_path_before(worker_dir, token),
            mode: STAGING_MODE,
        }),
        IsolationStep::at(5).call(worker_dir, token) == (SyscallView::PivotRoot {
            new_root: worker_dir,
            put_old: staging_path_before(worker_dir, token),
        }),
        IsolationStep::at(6).call(worker_dir, token) == (SyscallView::Chdir { path: root_path() }),
        IsolationStep::at(7).call(worker_dir, token) == (SyscallView::Umount {
            target: staging_path_after(token),
            detach: true,
        }),
        IsolationStep::at(8).call(worker_dir, token) == (SyscallView::Rmdir {
            path: staging_path_after(token),
        }),
        IsolationStep::at(8).following() is None,
{
    lemma_isolation_succeeds_iff_all_steps_succeed(rets);
}

} // verus!
