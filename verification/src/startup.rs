//! Startup: settings with their defaults, and the checks that must pass
//! before the daemon watches anything.
//!
//! The caller looks the configured names up in the system's identity
//! database and probes the working directory on disk; the functions here
//! decide from what was found. What the text of the working directory shows
//! is decided here too. Every failure is fatal and has an exit code of its
//! own.

use vstd::prelude::*;

verus! {

/// Prefix of the environment variables that hold the settings.
pub const ENV_PREFIX: &'static str = "RUDEVIL";

/// Separator between the prefix and a setting's key.
pub const ENV_SEPARATOR: &'static str = "_";

/// The directory that is watched, without its subdirectories.
pub const WATCHED_DIR: &'static str = "/dev";

/// Why the daemon cannot start.
#[derive(Clone, Copy, Debug, PartialEq, Eq, Structural)]
pub enum StartupError {
    /// The configured user is not in the identity database.
    UserNotFound,
    /// The configured group is not in the identity database.
    GroupNotFound,
    /// The working directory is a symbolic link.
    WorkdirIsSymlink,
    /// The working directory is missing or is no directory.
    WorkdirNotDirectory,
    /// The working directory does not start at the filesystem root.
    WorkdirNotRooted,
    /// The working directory is not an absolute path.
    WorkdirNotAbsolute,
}

impl StartupError {
    /// The exit code that reports this failure.
    pub open spec fn spec_exit_code(&self) -> u8 {
        match self {
            StartupError::UserNotFound => 2,
            StartupError::GroupNotFound => 3,
            StartupError::WorkdirIsSymlink => 4,
            StartupError::WorkdirNotDirectory => 5,
            StartupError::WorkdirNotRooted => 6,
            StartupError::WorkdirNotAbsolute => 7,
        }
    }

    /// The exit code that reports this failure: never 0, and a different one
    /// for each kind.
    #[verifier::when_used_as_spec(spec_exit_code)]
    pub fn exit_code(&self) -> (code: u8)
        ensures
            code == self.spec_exit_code(),
            code != 0,
    {
        match self {
            StartupError::UserNotFound => 2,
            StartupError::GroupNotFound => 3,
            StartupError::WorkdirIsSymlink => 4,
            StartupError::WorkdirNotDirectory => 5,
            StartupError::WorkdirNotRooted => 6,
            StartupError::WorkdirNotAbsolute => 7,
        }
    }
}

impl StartupError {
    /// The words that report this failure.
    pub open spec fn spec_message(&self) -> Seq<char> {
        match self {
            StartupError::UserNotFound => "no such user"@,
            StartupError::GroupNotFound => "no such group"@,
            StartupError::WorkdirIsSymlink => "working directory can not be a symlink"@,
            StartupError::WorkdirNotDirectory => "working directory is invalid, not a dir"@,
            StartupError::WorkdirNotRooted => "working directory must start at root"@,
            StartupError::WorkdirNotAbsolute => "working directory must be absolute"@,
        }
    }

    /// The words that report this failure.
    pub fn message(&self) -> (text: &'static str)
        ensures
            text@ == self.spec_message(),
    {
        match self {
            StartupError::UserNotFound => "no such user",
            StartupError::GroupNotFound => "no such group",
            StartupError::WorkdirIsSymlink => "working directory can not be a symlink",
            StartupError::WorkdirNotDirectory => "working directory is invalid, not a dir",
            StartupError::WorkdirNotRooted => "working directory must start at root",
            StartupError::WorkdirNotAbsolute => "working directory must be absolute",
        }
    }
}

/// Two startup failures with the same exit code are the same failure, and no
/// failure exits with the code of success.
pub proof fn law_exit_codes_distinct(a: StartupError, b: StartupError)
    ensures
        a.exit_code() == b.exit_code() ==> a == b,
        a.exit_code() != 0,
{
}

/// The numeric id of the configured user, given what the lookup of its name
/// returned.
pub fn find_uid(entry: Option<u32>) -> (r: Result<u32, StartupError>)
    ensures
        r == match entry {
            Some(uid) => Ok::<u32, StartupError>(uid),
            None => Err(StartupError::UserNotFound),
        },
{
    match entry {
        Some(uid) => Ok(uid),
        None => Err(StartupError::UserNotFound),
    }
}

/// The numeric id of the configured group, given what the lookup of its name
/// returned.
pub fn find_gid(entry: Option<u32>) -> (r: Result<u32, StartupError>)
    ensures
        r == match entry {
            Some(gid) => Ok::<u32, StartupError>(gid),
            None => Err(StartupError::GroupNotFound),
        },
{
    match entry {
        Some(gid) => Ok(gid),
        None => Err(StartupError::GroupNotFound),
    }
}

/// What the disk says of the configured working directory.
#[derive(Clone, Copy, Debug, PartialEq, Eq)]
pub struct WorkdirProbe {
    /// The path itself is a symbolic link.
    pub is_symlink: bool,
    /// The path leads to an existing directory.
    pub is_dir: bool,
}

/// The path starts at the filesystem root.
pub open spec fn is_rooted(path: Seq<char>) -> bool {
    path.len() > 0 && path[0] == '/'
}

/// The first rule that the working directory breaks, if any. The rules, in
/// the order in which they are tested: no symbolic link, an existing
/// directory, rooted at `/`, absolute by the rules of the platform.
pub open spec fn workdir_violation(
    path: Seq<char>,
    probe: WorkdirProbe,
    is_absolute: bool,
) -> Option<StartupError> {
    if probe.is_symlink {
        Some(StartupError::WorkdirIsSymlink)
    } else if !probe.is_dir {
        Some(StartupError::WorkdirNotDirectory)
    } else if !is_rooted(path) {
        Some(StartupError::WorkdirNotRooted)
    } else if !is_absolute {
        Some(StartupError::WorkdirNotAbsolute)
    } else {
        None
    }
}

/// `found` is what the check of the working directory owes for this path,
/// this probe and this answer of the platform.
pub open spec fn is_workdir_verdict(
    found: Result<String, StartupError>,
    path: Seq<char>,
    probe: WorkdirProbe,
    is_absolute: bool,
) -> bool {
    match found {
        Ok(dir) => workdir_violation(path, probe, is_absolute) is None && dir@ == path,
        Err(e) => workdir_violation(path, probe, is_absolute) == Some(e),
    }
}

/// Tells whether `path` starts with `/`.
fn starts_at_root(path: &str) -> (r: bool)
    ensures
        r == is_rooted(path@),
{
    let mut chars = path.chars();
    match chars.next() {
        Some(c) => c == '/',
        None => false,
    }
}

/// Calls `std::path::Path::is_absolute` on `path`. What makes a path
/// absolute is laid down by the platform the program is built for, so
/// nothing is claimed of the answer.
#[verifier::external_body]
fn platform_is_absolute(path: &str) -> (answer: bool) {
    std::path::Path::new(path).is_absolute()
}

/// Validates the configured working directory, given what the disk says of
/// it and whether the platform takes it for absolute. Mount points are
/// created under it with elevated rights, so it must be exactly what it
/// seems.
pub fn find_workdir(path: &str, probe: &WorkdirProbe, is_absolute: bool) -> (r: Result<
    String,
    StartupError,
>)
    ensures
        is_workdir_verdict(r, path@, *probe, is_absolute),
{
    if probe.is_symlink {
        return Err(StartupError::WorkdirIsSymlink);
    }
    if !probe.is_dir {
        return Err(StartupError::WorkdirNotDirectory);
    }
    if !starts_at_root(path) {
        return Err(StartupError::WorkdirNotRooted);
    }
    if !is_absolute {
        return Err(StartupError::WorkdirNotAbsolute);
    }
    Ok(path.to_owned())
}

/// The settings of the daemon, as text.
#[derive(Debug, PartialEq, Eq)]
pub struct Settings {
    /// Name of the user who is to own the device nodes.
    pub user: String,
    /// Name of the group that is to own the device nodes.
    pub group: String,
    /// The directory under which mount points are made.
    pub workdir: String,
}

impl Settings {
    /// The settings, given what the environment holds under the keys `user`,
    /// `group` and `workdir`. A key that is not set gets its default: `root`,
    /// `plugdev`, `/storage`.
    pub fn resolve(user: Option<String>, group: Option<String>, workdir: Option<String>) -> (r:
        Settings)
        ensures
            r.user@ == (match user {
                Some(name) => name@,
                None => "root"@,
            }),
            r.group@ == (match group {
                Some(name) => name@,
                None => "plugdev"@,
            }),
            r.workdir@ == (match workdir {
                Some(path) => path@,
                None => "/storage"@,
            }),
    {
        Settings {
            user: match user {
                Some(name) => name,
                None => "root".to_owned(),
            },
            group: match group {
                Some(name) => name,
                None => "plugdev".to_owned(),
            },
            workdir: match workdir {
                Some(path) => path,
                None => "/storage".to_owned(),
            },
        }
    }
}

/// What every event handler works with: who is to own the device nodes, and
/// where the mount points go. It is made once, at startup, and never changes.
#[derive(Debug, PartialEq, Eq)]
pub struct MountContext {
    uid: u32,
    gid: u32,
    workdir: String,
}

/// A `MountContext` as plain values.
pub struct MountContextView {
    pub uid: u32,
    pub gid: u32,
    pub workdir: Seq<char>,
}

impl View for MountContext {
    type V = MountContextView;

    closed spec fn view(&self) -> MountContextView {
        MountContextView { uid: self.uid, gid: self.gid, workdir: self.workdir@ }
    }
}

/// How startup ends, given what the lookups of user and group returned,
/// what the probe of the working directory found and whether the platform
/// takes the working directory for absolute. The user is checked first, then
/// the group, then the working directory.
pub open spec fn startup_verdict(
    user: Option<u32>,
    group: Option<u32>,
    workdir: Seq<char>,
    probe: WorkdirProbe,
    is_absolute: bool,
) -> Result<MountContextView, StartupError> {
    if user is None {
        Err(StartupError::UserNotFound)
    } else if group is None {
        Err(StartupError::GroupNotFound)
    } else {
        match workdir_violation(workdir, probe, is_absolute) {
            Some(e) => Err(e),
            None => Ok(MountContextView { uid: user->0, gid: group->0, workdir }),
        }
    }
}

/// `found` is the context, or the failure, that `verdict` describes.
pub open spec fn is_startup_verdict(
    found: Result<MountContext, StartupError>,
    verdict: Result<MountContextView, StartupError>,
) -> bool {
    match found {
        Ok(context) => verdict == Ok::<MountContextView, StartupError>(context@),
        Err(e) => verdict == Err::<MountContextView, StartupError>(e),
    }
}

impl MountContext {
    #[verifier::type_invariant]
    spec fn inv(self) -> bool {
        is_rooted(self.workdir@)
    }

    /// Makes the context from what startup found, or says why the daemon
    /// cannot start.
    pub fn assemble(
        user: Option<u32>,
        group: Option<u32>,
        workdir: &str,
        probe: &WorkdirProbe,
        is_absolute: bool,
    ) -> (r: Result<MountContext, StartupError>)
        ensures
            is_startup_verdict(r, startup_verdict(user, group, workdir@, *probe, is_absolute)),
    {
        let uid = match find_uid(user) {
            Ok(uid) => uid,
            Err(e) => {
                return Err(e);
            },
        };
        let gid = match find_gid(group) {
            Ok(gid) => gid,
            Err(e) => {
                return Err(e);
            },
        };
        match find_workdir(workdir, probe, is_absolute) {
            Ok(workdir) => Ok(MountContext { uid, gid, workdir }),
            Err(e) => Err(e),
        }
    }

    /// Makes the context as `assemble` does, and asks the platform itself
    /// whether the working directory is absolute. The result is the verdict
    /// for the platform's answer, whichever it was. So a missing user or
    /// group, and every fault of the working directory but that one, is
    /// reported on every platform alike.
    pub fn establish(user: Option<u32>, group: Option<u32>, workdir: &str, probe: &WorkdirProbe) -> (r:
        Result<MountContext, StartupError>)
        ensures
            is_startup_verdict(r, startup_verdict(user, group, workdir@, *probe, true))
                || is_startup_verdict(r, startup_verdict(user, group, workdir@, *probe, false)),
    {
        MountContext::assemble(user, group, workdir, probe, platform_is_absolute(workdir))
    }

    /// The user who is to own the device nodes.
    pub fn uid(&self) -> (uid: u32)
        ensures
            uid == self@.uid,
    {
        self.uid
    }

    /// The group that is to own the device nodes.
    pub fn gid(&self) -> (gid: u32)
        ensures
            gid == self@.gid,
    {
        self.gid
    }

    /// The directory under which mount points are made. It starts at the
    /// filesystem root.
    pub fn workdir(&self) -> (workdir: &str)
        ensures
            workdir@ == self@.workdir,
            is_rooted(workdir@),
    {
        proof {
            use_type_invariant(self);
        }
        self.workdir.as_str()
    }
}

} // verus!
