//! The backup run: error taxonomy, termination-status classification,
//! outcome combination, the exact command line and environment handed to
//! the archival command, and the state machine that supervises one run.
//!
//! The machine in this module makes every decision of a run; the driver
//! only performs the emitted [`Action`]s and reports each result back as
//! an [`Event`]. The secret handed to the archival command is never an
//! input of this module: the plan carries only the number of the
//! descriptor the secret can be read from.

use vstd::prelude::*;
use vstd::string::*;
use crate::btrfs;
use crate::config::Archive;
use crate::naming;

verus! {

/// The operating-system error number for "already exists".
pub const EEXIST: i32 = 17;

/// The errors that can occur while performing a backup.
#[derive(Clone, Debug, PartialEq, Eq)]
pub enum Error {
    /// The archive root directory cannot be opened.
    OpenArchiveRoot(i32),
    /// The parent directory of the archive root cannot be opened.
    OpenArchiveRootParent(i32),
    /// The created snapshot cannot be opened.
    OpenSnapshot(i32),
    /// An error occurred creating a btrfs snapshot.
    SnapshotCreate(btrfs::Error),
    /// An error occurred deleting a btrfs snapshot.
    SnapshotDelete(btrfs::Error),
    /// There was an error spawning or communicating with the archival
    /// command.
    Spawn(i32),
    /// The archival command terminated with exit code 2, indicating an
    /// error.
    ErrorStatus,
    /// The archival command terminated with an exit code other than 0, 1,
    /// or 2, which is not documented as possible.
    UnknownExitCode(i32),
    /// The archival command terminated due to a fatal signal.
    Signal(i32),
    /// The archival command terminated for an unknown reason: neither a
    /// normal exit nor a signal.
    Unknown,
}

/// The termination status of a waited-for child process.
#[derive(Clone, Copy, Debug, PartialEq, Eq, Structural)]
pub enum TermStatus {
    /// The process exited normally with the given code.
    Exited(i32),
    /// The process was terminated by the given fatal signal.
    Signaled(i32),
    /// Neither an exit code nor a signal could be observed.
    Unknown,
}

/// The decimal digit character for `d`.
pub open spec fn digit_char(d: int) -> char {
    if d == 0 {
        '0'
    } else if d == 1 {
        '1'
    } else if d == 2 {
        '2'
    } else if d == 3 {
        '3'
    } else if d == 4 {
        '4'
    } else if d == 5 {
        '5'
    } else if d == 6 {
        '6'
    } else if d == 7 {
        '7'
    } else if d == 8 {
        '8'
    } else {
        '9'
    }
}

/// The decimal rendering of a number, most significant digit first.
pub open spec fn dec_digits(n: nat) -> Seq<char>
    decreases n,
{
    if n < 10 {
        seq![digit_char(n as int)]
    } else {
        dec_digits(n / 10) + seq![digit_char((n % 10) as int)]
    }
}

/// The octal rendering of a number, most significant digit first.
pub open spec fn oct_digits(n: nat) -> Seq<char>
    decreases n,
{
    if n < 8 {
        seq![digit_char(n as int)]
    } else {
        oct_digits(n / 8) + seq![digit_char((n % 8) as int)]
    }
}

/// The decimal rendering of a signed number.
pub open spec fn int_chars(n: int) -> Seq<char> {
    if n >= 0 {
        dec_digits(n as nat)
    } else {
        seq!['-'] + dec_digits((-n) as nat)
    }
}

/// The one-character string for a decimal digit.
fn digit_str(d: u64) -> (r: &'static str)
    requires
        d < 10,
    ensures
        r@ == seq![digit_char(d as int)],
{
    proof {
        reveal_strlit("0");
        reveal_strlit("1");
        reveal_strlit("2");
        reveal_strlit("3");
        reveal_strlit("4");
        reveal_strlit("5");
        reveal_strlit("6");
        reveal_strlit("7");
        reveal_strlit("8");
        reveal_strlit("9");
    }
    let r = match d {
        0 => "0",
        1 => "1",
        2 => "2",
        3 => "3",
        4 => "4",
        5 => "5",
        6 => "6",
        7 => "7",
        8 => "8",
        _ => "9",
    };
    proof {
        assert(r@ =~= seq![digit_char(d as int)]);
    }
    r
}

/// Appends the decimal rendering of `n`.
pub(crate) fn push_dec_u64(out: &mut String, n: u64)
    ensures
        final(out)@ == old(out)@ + dec_digits(n as nat),
    decreases n,
{
    if n >= 10 {
        push_dec_u64(out, n / 10);
    }
    out.append(digit_str(n % 10));
    proof {
        assert(final(out)@ =~= old(out)@ + dec_digits(n as nat));
    }
}

/// Appends the octal rendering of `n`.
pub(crate) fn push_oct_u64(out: &mut String, n: u64)
    ensures
        final(out)@ == old(out)@ + oct_digits(n as nat),
    decreases n,
{
    if n >= 8 {
        push_oct_u64(out, n / 8);
    }
    out.append(digit_str(n % 8));
    proof {
        assert(final(out)@ =~= old(out)@ + oct_digits(n as nat));
    }
}

/// Appends the decimal rendering of a signed number.
pub(crate) fn push_dec_i32(out: &mut String, n: i32)
    ensures
        final(out)@ == old(out)@ + int_chars(n as int),
{
    let wide = n as i64;
    if wide < 0 {
        out.append("-");
        proof {
            reveal_strlit("-");
            assert("-"@ =~= seq!['-']);
        }
        push_dec_u64(out, (-wide) as u64);
        proof {
            assert(final(out)@ =~= old(out)@ + int_chars(n as int));
        }
    } else {
        push_dec_u64(out, wide as u64);
    }
}

/// The description of an error, with any exit code or signal number
/// rendered in decimal.
pub open spec fn spec_message(e: Error) -> Seq<char> {
    match e {
        Error::OpenArchiveRoot(_) => "error opening archive root directory"@,
        Error::OpenArchiveRootParent(_) => "error opening archive root's parent directory"@,
        Error::OpenSnapshot(_) => "error opening created btrfs snapshot"@,
        Error::SnapshotCreate(_) => "error creating btrfs snapshot"@,
        Error::SnapshotDelete(_) => "error deleting btrfs snapshot"@,
        Error::Spawn(_) => "failed to spawn Borg executable"@,
        Error::ErrorStatus => "borg returned exit code 2 (error) without an error message"@,
        Error::UnknownExitCode(code) => "borg returned unknown exit code "@ + int_chars(
            code as int,
        ),
        Error::Signal(signal) => "borg terminated due to signal "@ + int_chars(signal as int),
        Error::Unknown => "borg terminated due to unknown reason"@,
    }
}

impl Error {
    /// A description of the error.
    pub fn message(&self) -> (r: String)
        ensures
            r@ == spec_message(*self),
    {
        match self {
            Error::OpenArchiveRoot(_) => String::from_str("error opening archive root directory"),
            Error::OpenArchiveRootParent(_) => String::from_str(
                "error opening archive root's parent directory",
            ),
            Error::OpenSnapshot(_) => String::from_str("error opening created btrfs snapshot"),
            Error::SnapshotCreate(_) => String::from_str("error creating btrfs snapshot"),
            Error::SnapshotDelete(_) => String::from_str("error deleting btrfs snapshot"),
            Error::Spawn(_) => String::from_str("failed to spawn Borg executable"),
            Error::ErrorStatus => String::from_str(
                "borg returned exit code 2 (error) without an error message",
            ),
            Error::UnknownExitCode(code) => {
                let mut s = String::from_str("borg returned unknown exit code ");
                push_dec_i32(&mut s, *code);
                s
            },
            Error::Signal(signal) => {
                let mut s = String::from_str("borg terminated due to signal ");
                push_dec_i32(&mut s, *signal);
                s
            },
            Error::Unknown => String::from_str("borg terminated due to unknown reason"),
        }
    }
}

/// The outcome a termination status maps to: exit code 0 is success, 1 is
/// success with warnings, 2 is the documented error exit, any other code
/// is undocumented, and a signal or an indeterminate status is reported
/// as such.
pub open spec fn spec_classify_exit(status: TermStatus) -> Result<bool, Error> {
    match status {
        TermStatus::Exited(code) => if code == 0 {
            Ok(false)
        } else if code == 1 {
            Ok(true)
        } else if code == 2 {
            Err(Error::ErrorStatus)
        } else {
            Err(Error::UnknownExitCode(code))
        },
        TermStatus::Signaled(signal) => Err(Error::Signal(signal)),
        TermStatus::Unknown => Err(Error::Unknown),
    }
}

/// Classifies the termination status of the archival command.
pub fn classify_exit(status: TermStatus) -> (r: Result<bool, Error>)
    ensures
        r == spec_classify_exit(status),
{
    match status {
        TermStatus::Exited(code) => {
            if code == 0 {
                Ok(false)
            } else if code == 1 {
                Ok(true)
            } else if code == 2 {
                Err(Error::ErrorStatus)
            } else {
                Err(Error::UnknownExitCode(code))
            }
        },
        TermStatus::Signaled(signal) => Err(Error::Signal(signal)),
        TermStatus::Unknown => Err(Error::Unknown),
    }
}

/// The combined outcome of a backup run and the snapshot teardown that
/// follows it. A successful run reports a warning if the naming step or
/// the run itself warned; a failed teardown is reported only when the run
/// itself succeeded; when both fail, the run's error is the one reported.
pub open spec fn spec_combine(
    snapshot_warnings: bool,
    backup: Result<bool, Error>,
    delete: Result<(), Error>,
) -> Result<bool, Error> {
    match backup {
        Ok(run_warnings) => match delete {
            Ok(_) => Ok(snapshot_warnings || run_warnings),
            Err(delete_error) => Err(delete_error),
        },
        Err(backup_error) => Err(backup_error),
    }
}

/// Combines the backup outcome with the snapshot-deletion outcome.
pub fn combine_outcomes(
    snapshot_warnings: bool,
    backup: Result<bool, Error>,
    delete: Result<(), Error>,
) -> (r: Result<bool, Error>)
    ensures
        r == spec_combine(snapshot_warnings, backup, delete),
{
    match backup {
        Ok(run_warnings) => match delete {
            Ok(_) => Ok(snapshot_warnings || run_warnings),
            Err(delete_error) => Err(delete_error),
        },
        Err(backup_error) => Err(backup_error),
    }
}

/// When both the backup run and the snapshot deletion fail, the reported
/// error is the backup run's, never the deletion's.
pub proof fn lemma_backup_error_wins(
    snapshot_warnings: bool,
    backup_error: Error,
    delete_error: Error,
)
    ensures
        spec_combine(snapshot_warnings, Err(backup_error), Err(delete_error)) == Err::<
            bool,
            Error,
        >(backup_error),
{
}

/// Everything needed to spawn the archival command: the program, its
/// argument vector, and the variables added to its environment.
#[derive(Clone, Debug, PartialEq, Eq)]
pub struct CommandPlan {
    pub program: String,
    pub args: Vec<String>,
    pub env: Vec<(String, String)>,
}

/// The `--umask` argument: a leading zero, then the mask in octal.
pub open spec fn spec_umask_arg(umask: u16) -> Seq<char> {
    "0"@ + oct_digits(umask as nat)
}

/// The archive label: the archive name and the local timestamp.
pub open spec fn spec_archive_label(name: Seq<char>, ts_local: Seq<char>) -> Seq<char> {
    "::"@ + name + "-"@ + ts_local
}

/// One `--pattern=` argument.
pub open spec fn spec_pattern_arg(p: Seq<char>) -> Seq<char> {
    "--pattern="@ + p
}

/// The exact argument vector of the archival command.
pub open spec fn spec_plan_args(
    name: Seq<char>,
    compression: Seq<char>,
    ts_utc: Seq<char>,
    ts_local: Seq<char>,
    umask: u16,
    patterns: Seq<Seq<char>>,
) -> Seq<Seq<char>> {
    seq![
        "--verbose"@,
        "--progress"@,
        "--iec"@,
        "--umask"@,
        spec_umask_arg(umask),
        "create"@,
        "--stats"@,
        "--exclude-caches"@,
        "--timestamp"@,
        ts_utc,
        "--compression"@,
        compression,
    ] + patterns.map_values(|p: Seq<char>| spec_pattern_arg(p)) + seq![
        spec_archive_label(name, ts_local),
        "."@,
    ]
}

/// The exact environment additions of the archival command: the repository
/// location, the cache-partitioning key, and — only when a secret is to be
/// handed over — the number of the descriptor it can be read from. The
/// secret itself is never part of the plan.
pub open spec fn spec_plan_env(
    name: Seq<char>,
    repository: Seq<char>,
    passphrase_fd: Option<u64>,
) -> Seq<(Seq<char>, Seq<char>)> {
    let base = seq![("BORG_REPO"@, repository), ("BORG_FILES_CACHE_SUFFIX"@, name)];
    match passphrase_fd {
        Some(fd) => base + seq![("BORG_PASSPHRASE_FD"@, dec_digits(fd as nat))],
        None => base,
    }
}

/// Appends one argument.
fn push_arg(args: &mut Vec<String>, s: String)
    ensures
        final(args).deep_view() == old(args).deep_view().push(s@),
{
    let ghost old_dv = args.deep_view();
    let ghost sv = s@;
    args.push(s);
    proof {
        assert(args.deep_view() =~~= old_dv.push(sv));
    }
}

/// Appends one environment binding.
fn push_env(env: &mut Vec<(String, String)>, k: String, v: String)
    ensures
        final(env).deep_view() == old(env).deep_view().push((k@, v@)),
{
    let ghost old_dv = env.deep_view();
    let ghost kv = (k@, v@);
    env.push((k, v));
    proof {
        assert(env.deep_view() =~~= old_dv.push(kv));
    }
}

/// Builds the spawn plan for one run of the archival command.
///
/// The plan is a function of the archive's non-secret parameters and of the
/// credential descriptor's number alone; the secret is not an input, so no
/// argument and no environment value can carry it.
pub fn build_plan(
    archive_name: &str,
    archive: &Archive,
    timestamp_utc: &str,
    timestamp_local: &str,
    umask: u16,
    passphrase_fd: Option<u64>,
) -> (r: CommandPlan)
    ensures
        r.program@ == "borg"@,
        r.args.deep_view() == spec_plan_args(
            archive_name@,
            archive.compression@,
            timestamp_utc@,
            timestamp_local@,
            umask,
            archive.patterns.deep_view(),
        ),
        r.env.deep_view() == spec_plan_env(archive_name@, archive.repository@, passphrase_fd),
{
    let mut args: Vec<String> = Vec::new();
    push_arg(&mut args, String::from_str("--verbose"));
    push_arg(&mut args, String::from_str("--progress"));
    push_arg(&mut args, String::from_str("--iec"));
    push_arg(&mut args, String::from_str("--umask"));
    let mut umask_arg = String::from_str("0");
    push_oct_u64(&mut umask_arg, umask as u64);
    push_arg(&mut args, umask_arg);
    push_arg(&mut args, String::from_str("create"));
    push_arg(&mut args, String::from_str("--stats"));
    push_arg(&mut args, String::from_str("--exclude-caches"));
    push_arg(&mut args, String::from_str("--timestamp"));
    push_arg(&mut args, String::from_str(timestamp_utc));
    push_arg(&mut args, String::from_str("--compression"));
    push_arg(&mut args, archive.compression.clone());
    let ghost fixed = args.deep_view();
    let ghost patv = archive.patterns.deep_view();
    let n = archive.patterns.len();
    let mut i: usize = 0;
    while i < n
        invariant
            n == archive.patterns.len(),
            i <= n,
            patv == archive.patterns.deep_view(),
            patv.len() == n,
            args.deep_view() == fixed + patv.subrange(0, i as int).map_values(
                |p: Seq<char>| spec_pattern_arg(p),
            ),
        decreases n - i,
    {
        let mut a = String::from_str("--pattern=");
        a.append(archive.patterns[i].as_str());
        proof {
            assert(patv[i as int] == archive.patterns@[i as int]@);
            assert(a@ == spec_pattern_arg(patv[i as int]));
        }
        push_arg(&mut args, a);
        i = i + 1;
        proof {
            assert(patv.subrange(0, i as int).map_values(|p: Seq<char>| spec_pattern_arg(p))
                =~~= patv.subrange(0, i - 1).map_values(|p: Seq<char>| spec_pattern_arg(p)).push(
                spec_pattern_arg(patv[i - 1]),
            ));
        }
    }
    proof {
        assert(patv.subrange(0, n as int) =~~= patv);
        assert(patv.subrange(0, n as int).map_values(|p: Seq<char>| spec_pattern_arg(p)) =~~= patv
            .map_values(|p: Seq<char>| spec_pattern_arg(p)));
    }
    let mut label = String::from_str("::");
    label.append(archive_name);
    label.append("-");
    label.append(timestamp_local);
    push_arg(&mut args, label);
    push_arg(&mut args, String::from_str("."));
    proof {
        assert(args.deep_view() =~~= spec_plan_args(
            archive_name@,
            archive.compression@,
            timestamp_utc@,
            timestamp_local@,
            umask,
            archive.patterns.deep_view(),
        ));
    }
    let mut env: Vec<(String, String)> = Vec::new();
    push_env(&mut env, String::from_str("BORG_REPO"), archive.repository.clone());
    push_env(
        &mut env,
        String::from_str("BORG_FILES_CACHE_SUFFIX"),
        String::from_str(archive_name),
    );
    match passphrase_fd {
        Some(fd) => {
            let mut v = String::new();
            push_dec_u64(&mut v, fd);
            push_env(&mut env, String::from_str("BORG_PASSPHRASE_FD"), v);
        },
        None => {},
    }
    proof {
        assert(env.deep_view() =~~= spec_plan_env(
            archive_name@,
            archive.repository@,
            passphrase_fd,
        ));
    }
    CommandPlan { program: String::from_str("borg"), args, env }
}

/// The handles of a live snapshot and the warning count of its creation.
#[derive(Clone, Copy, Debug, PartialEq, Eq, Structural)]
pub struct SnapCtx {
    /// The descriptor of the directory containing the snapshot.
    pub parent_fd: i64,
    /// The descriptor of the snapshot root itself.
    pub snap_fd: i64,
    /// How many name collisions were tolerated while creating it.
    pub warnings: u64,
}

/// What the run is waiting for. Each phase names the action whose result
/// the machine expects next, with the context that the following steps
/// need.
#[derive(Debug, PartialEq, Eq)]
pub enum Phase {
    /// The archive root directory is being opened.
    RootRequested,
    /// The root's parent directory is being opened.
    ParentRequested { root_fd: i64 },
    /// The root's filesystem type is being read, before create attempt
    /// number `counter`.
    FsCheckRequested { root_fd: i64, parent_fd: i64, counter: u64, warnings: u64 },
    /// The root's inode is being examined, before create attempt number
    /// `counter`.
    InodeCheckRequested { root_fd: i64, parent_fd: i64, counter: u64, warnings: u64 },
    /// A create-snapshot request with the given name is outstanding.
    CreateRequested { root_fd: i64, parent_fd: i64, counter: u64, warnings: u64, name: Vec<u8> },
    /// The created snapshot's directory is being opened.
    SnapDirRequested { root_fd: i64, parent_fd: i64, warnings: u64, name: Vec<u8> },
    /// The credential pipe is being prepared.
    PipeRequested { work_fd: i64, snapshot: Option<SnapCtx> },
    /// The archival command is running.
    SpawnRequested { work_fd: i64, snapshot: Option<SnapCtx> },
    /// The snapshot's flags are being read for teardown.
    FlagsReadRequested { snap: SnapCtx, backup: Result<bool, Error> },
    /// The snapshot's read-only flag is being cleared.
    FlagsWriteRequested { snap: SnapCtx, backup: Result<bool, Error> },
    /// The snapshot's internal identifier is being resolved.
    InfoRequested { snap: SnapCtx, backup: Result<bool, Error> },
    /// The destroy request is outstanding.
    DestroyRequested { snap: SnapCtx, backup: Result<bool, Error> },
    /// The run is over.
    Finished { result: Result<bool, Error> },
}

/// What the driver must do next. Descriptors are plain numbers; the driver
/// owns the handles they came from.
#[derive(Debug, PartialEq, Eq)]
pub enum Action {
    /// Open `path` as a directory, refusing to follow a symlink.
    OpenRoot { path: String },
    /// Open the parent directory of the directory open at `root_fd`.
    OpenParent { root_fd: i64 },
    /// Read the filesystem type of the directory open at `fd`.
    CheckFilesystem { fd: i64 },
    /// Read the inode kind and number of the directory open at `fd`.
    CheckInode { fd: i64 },
    /// Issue the encoded create-snapshot request on `parent_fd`.
    CreateSnapshot { parent_fd: i64, request: Vec<u8>, name: Vec<u8> },
    /// Open the named snapshot under `parent_fd` as a directory, refusing
    /// to follow a symlink.
    OpenSnapshotDir { parent_fd: i64, name: Vec<u8> },
    /// Create the credential pipe: write the secret into it and make its
    /// read end inheritable.
    PreparePipe,
    /// Spawn the planned command with its working directory changed to the
    /// directory open at `dir_fd`, and wait for it.
    RunCommand { plan: CommandPlan, dir_fd: i64 },
    /// Read the subvolume flags of the directory open at `fd`.
    ReadFlags { fd: i64 },
    /// Write the subvolume flags of the directory open at `fd`.
    WriteFlags { fd: i64, flags: u64 },
    /// Read the subvolume info of the directory open at `fd`.
    QueryInfo { fd: i64 },
    /// Issue the encoded destroy request on `parent_fd`.
    DestroySnapshot { parent_fd: i64, request: Vec<u8> },
    /// The run is over with this result.
    Done { result: Result<bool, Error> },
}

/// What the driver reports back after performing an action.
#[derive(Clone, Copy, Debug, PartialEq, Eq, Structural)]
pub enum Event {
    /// A directory was opened; `fd` is its descriptor.
    Opened { fd: i64 },
    /// The filesystem type was read.
    FsType { f_type: i64 },
    /// The inode was examined.
    Inode { is_dir: bool, ino: u64 },
    /// The outstanding request succeeded.
    Succeeded,
    /// The subvolume flags were read.
    Flags { flags: u64 },
    /// The subvolume's internal identifier was resolved.
    SubvolId { id: u64 },
    /// The credential pipe is ready; `fd` is the read end's descriptor.
    PipeReady { fd: u64 },
    /// The spawned command terminated with this status.
    Exited { status: TermStatus },
    /// The outstanding call failed with this operating-system error number.
    Failed { errno: i32 },
}

/// The state machine that supervises one backup run.
#[derive(Debug, PartialEq, Eq)]
pub struct BackupMachine {
    pub archive_name: String,
    pub archive: Archive,
    pub timestamp_utc: String,
    pub timestamp_local: String,
    pub has_passphrase: bool,
    pub umask: u16,
    pub phase: Phase,
}

/// The naming seed of a run: the bytes of the archive root's path.
pub open spec fn seed_of(m: BackupMachine) -> Seq<u8> {
    vstd::utf8::encode_utf8(m.archive.root@)
}

/// The two machines describe the same run: only the phase may differ.
pub open spec fn same_inputs(a: BackupMachine, b: BackupMachine) -> bool {
    &&& b.archive_name == a.archive_name
    &&& b.archive == a.archive
    &&& b.timestamp_utc == a.timestamp_utc
    &&& b.timestamp_local == a.timestamp_local
    &&& b.has_passphrase == a.has_passphrase
    &&& b.umask == a.umask
}

/// The plan is exactly the one for this run, with the given credential
/// descriptor.
pub open spec fn plan_ok(pre: BackupMachine, plan: CommandPlan, passphrase_fd: Option<u64>) -> bool {
    &&& plan.program@ == "borg"@
    &&& plan.args.deep_view() == spec_plan_args(
        pre.archive_name@,
        pre.archive.compression@,
        pre.timestamp_utc@,
        pre.timestamp_local@,
        pre.umask,
        pre.archive.patterns.deep_view(),
    )
    &&& plan.env.deep_view() == spec_plan_env(
        pre.archive_name@,
        pre.archive.repository@,
        passphrase_fd,
    )
}

/// The run ends here with `result`.
pub open spec fn step_finishes(post: BackupMachine, act: Action, result: Result<bool, Error>) -> bool {
    &&& post.phase == (Phase::Finished { result })
    &&& act == (Action::Done { result })
}

/// The run proceeds to the command stage, rooted at `work_fd`: the
/// credential pipe comes first when a secret is to be handed over.
pub open spec fn step_to_run(
    pre: BackupMachine,
    work_fd: i64,
    snapshot: Option<SnapCtx>,
    post: BackupMachine,
    act: Action,
) -> bool {
    if pre.has_passphrase {
        &&& post.phase == (Phase::PipeRequested { work_fd, snapshot })
        &&& act == (Action::PreparePipe)
    } else {
        &&& post.phase == (Phase::SpawnRequested { work_fd, snapshot })
        &&& act matches Action::RunCommand { plan, dir_fd } && dir_fd == work_fd && plan_ok(
            pre,
            plan,
            None,
        )
    }
}

/// The command stage is over with `outcome`: with a snapshot the teardown
/// begins, without one the run ends.
pub open spec fn step_after_run(
    snapshot: Option<SnapCtx>,
    outcome: Result<bool, Error>,
    post: BackupMachine,
    act: Action,
) -> bool {
    match snapshot {
        Some(snap) => {
            &&& post.phase == (Phase::FlagsReadRequested { snap, backup: outcome })
            &&& act == (Action::ReadFlags { fd: snap.snap_fd })
        },
        None => step_finishes(post, act, outcome),
    }
}

/// A teardown call failed: the run ends with the combined outcome.
pub open spec fn step_teardown_failed(
    snap: SnapCtx,
    backup: Result<bool, Error>,
    errno: i32,
    post: BackupMachine,
    act: Action,
) -> bool {
    step_finishes(
        post,
        act,
        spec_combine(
            snap.warnings > 0,
            backup,
            Err(Error::SnapshotDelete(btrfs::Error::Syscall(errno))),
        ),
    )
}

/// The transition relation of the machine: what the next state and the
/// emitted action are for each phase and event.
pub open spec fn spec_step(
    pre: BackupMachine,
    ev: Event,
    post: BackupMachine,
    act: Action,
) -> bool {
    &&& same_inputs(pre, post)
    &&& match pre.phase {
        Phase::RootRequested => match ev {
            Event::Opened { fd } => if pre.archive.btrfs_snapshot {
                &&& post.phase == (Phase::ParentRequested { root_fd: fd })
                &&& act == (Action::OpenParent { root_fd: fd })
            } else {
                step_to_run(pre, fd, None, post, act)
            },
            Event::Failed { errno } => step_finishes(
                post,
                act,
                Err(Error::OpenArchiveRoot(errno)),
            ),
            _ => false,
        },
        Phase::ParentRequested { root_fd } => match ev {
            Event::Opened { fd } => {
                &&& post.phase == (Phase::FsCheckRequested {
                    root_fd,
                    parent_fd: fd,
                    counter: 0u64,
                    warnings: 0u64,
                })
                &&& act == (Action::CheckFilesystem { fd: root_fd })
            },
            Event::Failed { errno } => step_finishes(
                post,
                act,
                Err(Error::OpenArchiveRootParent(errno)),
            ),
            _ => false,
        },
        Phase::FsCheckRequested { root_fd, parent_fd, counter, warnings } => match ev {
            Event::FsType { f_type } => if f_type == btrfs::BTRFS_SUPER_MAGIC {
                &&& post.phase == (Phase::InodeCheckRequested {
                    root_fd,
                    parent_fd,
                    counter,
                    warnings,
                })
                &&& act == (Action::CheckInode { fd: root_fd })
            } else {
                step_finishes(post, act, Err(Error::SnapshotCreate(btrfs::Error::NotBtrfs)))
            },
            Event::Failed { errno } => step_finishes(
                post,
                act,
                Err(Error::SnapshotCreate(btrfs::Error::Syscall(errno))),
            ),
            _ => false,
        },
        Phase::InodeCheckRequested { root_fd, parent_fd, counter, warnings } => match ev {
            Event::Inode { is_dir, ino } => if is_dir && ino == btrfs::FIRST_FREE_OBJECTID {
                &&& post.phase matches Phase::CreateRequested {
                    root_fd: rf,
                    parent_fd: pf,
                    counter: c,
                    warnings: w,
                    name,
                } && rf == root_fd && pf == parent_fd && c == counter && w == warnings && name@
                    == naming::spec_snapshot_name(seed_of(pre), counter)
                &&& act matches Action::CreateSnapshot { parent_fd: pf, request, name } && pf
                    == parent_fd && name@ == naming::spec_snapshot_name(seed_of(pre), counter)
                    && request@ == btrfs::spec_create_request_bytes(
                    root_fd,
                    naming::spec_snapshot_name(seed_of(pre), counter),
                )
            } else {
                step_finishes(
                    post,
                    act,
                    Err(Error::SnapshotCreate(btrfs::Error::NotSubvolumeRoot)),
                )
            },
            Event::Failed { errno } => step_finishes(
                post,
                act,
                Err(Error::SnapshotCreate(btrfs::Error::Syscall(errno))),
            ),
            _ => false,
        },
        Phase::CreateRequested { root_fd, parent_fd, counter, warnings, name } => match ev {
            Event::Succeeded => {
                &&& post.phase matches Phase::SnapDirRequested {
                    root_fd: rf,
                    parent_fd: pf,
                    warnings: w,
                    name: n2,
                } && rf == root_fd && pf == parent_fd && w == warnings && n2@ == name@
                &&& act matches Action::OpenSnapshotDir { parent_fd: pf, name: n3 } && pf
                    == parent_fd && n3@ == name@
            },
            Event::Failed { errno } => if errno == EEXIST {
                &&& post.phase == (Phase::FsCheckRequested {
                    root_fd,
                    parent_fd,
                    counter: (counter + 1) as u64,
                    warnings: (warnings + 1) as u64,
                })
                &&& act == (Action::CheckFilesystem { fd: root_fd })
            } else {
                step_finishes(
                    post,
                    act,
                    Err(Error::SnapshotCreate(btrfs::Error::Syscall(errno))),
                )
            },
            _ => false,
        },
        Phase::SnapDirRequested { root_fd, parent_fd, warnings, name } => match ev {
            Event::Opened { fd } => step_to_run(
                pre,
                fd,
                Some(SnapCtx { parent_fd, snap_fd: fd, warnings }),
                post,
                act,
            ),
            Event::Failed { errno } => step_finishes(post, act, Err(Error::OpenSnapshot(errno))),
            _ => false,
        },
        Phase::PipeRequested { work_fd, snapshot } => match ev {
            Event::PipeReady { fd } => {
                &&& post.phase == (Phase::SpawnRequested { work_fd, snapshot })
                &&& act matches Action::RunCommand { plan, dir_fd } && dir_fd == work_fd
                    && plan_ok(pre, plan, Some(fd))
            },
            Event::Failed { errno } => step_after_run(
                snapshot,
                Err(Error::Spawn(errno)),
                post,
                act,
            ),
            _ => false,
        },
        Phase::SpawnRequested { work_fd, snapshot } => match ev {
            Event::Exited { status } => step_after_run(
                snapshot,
                spec_classify_exit(status),
                post,
                act,
            ),
            Event::Failed { errno } => step_after_run(
                snapshot,
                Err(Error::Spawn(errno)),
                post,
                act,
            ),
            _ => false,
        },
        Phase::FlagsReadRequested { snap, backup } => match ev {
            Event::Flags { flags } => {
                &&& post.phase == (Phase::FlagsWriteRequested { snap, backup })
                &&& act == (Action::WriteFlags {
                    fd: snap.snap_fd,
                    flags: flags & !btrfs::SUBVOL_RDONLY,
                })
            },
            Event::Failed { errno } => step_teardown_failed(snap, backup, errno, post, act),
            _ => false,
        },
        Phase::FlagsWriteRequested { snap, backup } => match ev {
            Event::Succeeded => {
                &&& post.phase == (Phase::InfoRequested { snap, backup })
                &&& act == (Action::QueryInfo { fd: snap.snap_fd })
            },
            Event::Failed { errno } => step_teardown_failed(snap, backup, errno, post, act),
            _ => false,
        },
        Phase::InfoRequested { snap, backup } => match ev {
            Event::SubvolId { id } => {
                &&& post.phase == (Phase::DestroyRequested { snap, backup })
                &&& act matches Action::DestroySnapshot { parent_fd, request } && parent_fd
                    == snap.parent_fd && request@ == btrfs::spec_destroy_request_bytes(id)
            },
            Event::Failed { errno } => step_teardown_failed(snap, backup, errno, post, act),
            _ => false,
        },
        Phase::DestroyRequested { snap, backup } => match ev {
            Event::Succeeded => step_finishes(
                post,
                act,
                spec_combine(snap.warnings > 0, backup, Ok(())),
            ),
            Event::Failed { errno } => step_teardown_failed(snap, backup, errno, post, act),
            _ => false,
        },
        Phase::Finished { .. } => false,
    }
}

impl BackupMachine {
    /// The machine's bookkeeping is intact: a pending snapshot name fits a
    /// create request, and never more warnings were counted than create
    /// attempts made.
    pub open spec fn wf(self) -> bool {
        match self.phase {
            Phase::FsCheckRequested { counter, warnings, .. } => warnings <= counter,
            Phase::InodeCheckRequested { counter, warnings, .. } => warnings <= counter,
            Phase::CreateRequested { counter, warnings, name, .. } => warnings <= counter && name@.len()
                <= btrfs::SUBVOL_NAME_MAX,
            Phase::SnapDirRequested { name, .. } => name@.len() <= btrfs::SUBVOL_NAME_MAX,
            _ => true,
        }
    }

    /// Whether the machine can take this event in its current phase. The
    /// one arithmetic bound: a create attempt that collides when the
    /// counter has reached its maximum would exhaust the naming space,
    /// which is treated as an impossible condition rather than handled.
    pub open spec fn accepts(self, ev: Event) -> bool {
        match self.phase {
            Phase::RootRequested => ev matches Event::Opened { .. } || ev matches Event::Failed {
                ..
            },
            Phase::ParentRequested { .. } => ev matches Event::Opened { .. }
                || ev matches Event::Failed { .. },
            Phase::FsCheckRequested { .. } => ev matches Event::FsType { .. }
                || ev matches Event::Failed { .. },
            Phase::InodeCheckRequested { .. } => ev matches Event::Inode { .. }
                || ev matches Event::Failed { .. },
            Phase::CreateRequested { counter, .. } => ev matches Event::Succeeded
                || (ev matches Event::Failed { errno } && (errno != EEXIST || counter
                < u64::MAX)),
            Phase::SnapDirRequested { .. } => ev matches Event::Opened { .. }
                || ev matches Event::Failed { .. },
            Phase::PipeRequested { .. } => ev matches Event::PipeReady { .. }
                || ev matches Event::Failed { .. },
            Phase::SpawnRequested { .. } => ev matches Event::Exited { .. }
                || ev matches Event::Failed { .. },
            Phase::FlagsReadRequested { .. } => ev matches Event::Flags { .. }
                || ev matches Event::Failed { .. },
            Phase::FlagsWriteRequested { .. } => ev matches Event::Succeeded
                || ev matches Event::Failed { .. },
            Phase::InfoRequested { .. } => ev matches Event::SubvolId { .. }
                || ev matches Event::Failed { .. },
            Phase::DestroyRequested { .. } => ev matches Event::Succeeded
                || ev matches Event::Failed { .. },
            Phase::Finished { .. } => false,
        }
    }

    /// Starts a run: the first action opens the archive root.
    pub fn new(
        archive_name: String,
        archive: Archive,
        timestamp_utc: String,
        timestamp_local: String,
        has_passphrase: bool,
        umask: u16,
    ) -> (r: (BackupMachine, Action))
        ensures
            r.0 == (BackupMachine {
                archive_name,
                archive,
                timestamp_utc,
                timestamp_local,
                has_passphrase,
                umask,
                phase: Phase::RootRequested,
            }),
            r.1 matches Action::OpenRoot { path } && path@ == archive.root@,
            r.0.wf(),
    {
        let path = archive.root.clone();
        let m = BackupMachine {
            archive_name,
            archive,
            timestamp_utc,
            timestamp_local,
            has_passphrase,
            umask,
            phase: Phase::RootRequested,
        };
        (m, Action::OpenRoot { path })
    }

    /// Takes one event and decides the next action.
    pub fn step(self, ev: Event) -> (r: (BackupMachine, Action))
        requires
            self.wf(),
            self.accepts(ev),
        ensures
            spec_step(self, ev, r.0, r.1),
            r.0.wf(),
    {
        let BackupMachine {
            archive_name,
            archive,
            timestamp_utc,
            timestamp_local,
            has_passphrase,
            umask,
            phase,
        } = self;
        let ghost pre = self;
        match phase {
            Phase::RootRequested => match ev {
                Event::Opened { fd } => {
                    if archive.btrfs_snapshot {
                        let m = BackupMachine {
                            archive_name,
                            archive,
                            timestamp_utc,
                            timestamp_local,
                            has_passphrase,
                            umask,
                            phase: Phase::ParentRequested { root_fd: fd },
                        };
                        (m, Action::OpenParent { root_fd: fd })
                    } else {
                        enter_run_stage(
                            archive_name,
                            archive,
                            timestamp_utc,
                            timestamp_local,
                            has_passphrase,
                            umask,
                            fd,
                            None,
                            Ghost(pre),
                        )
                    }
                },
                _ => {
                    let errno = failed_errno(&ev);
                    finish(
                        archive_name,
                        archive,
                        timestamp_utc,
                        timestamp_local,
                        has_passphrase,
                        umask,
                        Err(Error::OpenArchiveRoot(errno)),
                    )
                },
            },
            Phase::ParentRequested { root_fd } => match ev {
                Event::Opened { fd } => {
                    let m = BackupMachine {
                        archive_name,
                        archive,
                        timestamp_utc,
                        timestamp_local,
                        has_passphrase,
                        umask,
                        phase: Phase::FsCheckRequested {
                            root_fd,
                            parent_fd: fd,
                            counter: 0,
                            warnings: 0,
                        },
                    };
                    (m, Action::CheckFilesystem { fd: root_fd })
                },
                _ => {
                    let errno = failed_errno(&ev);
                    finish(
                        archive_name,
                        archive,
                        timestamp_utc,
                        timestamp_local,
                        has_passphrase,
                        umask,
                        Err(Error::OpenArchiveRootParent(errno)),
                    )
                },
            },
            Phase::FsCheckRequested { root_fd, parent_fd, counter, warnings } => match ev {
                Event::FsType { f_type } => {
                    if btrfs::is_btrfs_f_type(f_type) {
                        let m = BackupMachine {
                            archive_name,
                            archive,
                            timestamp_utc,
                            timestamp_local,
                            has_passphrase,
                            umask,
                            phase: Phase::InodeCheckRequested {
                                root_fd,
                                parent_fd,
                                counter,
                                warnings,
                            },
                        };
                        (m, Action::CheckInode { fd: root_fd })
                    } else {
                        finish(
                            archive_name,
                            archive,
                            timestamp_utc,
                            timestamp_local,
                            has_passphrase,
                            umask,
                            Err(Error::SnapshotCreate(btrfs::Error::NotBtrfs)),
                        )
                    }
                },
                _ => {
                    let errno = failed_errno(&ev);
                    finish(
                        archive_name,
                        archive,
                        timestamp_utc,
                        timestamp_local,
                        has_passphrase,
                        umask,
                        Err(Error::SnapshotCreate(btrfs::Error::Syscall(errno))),
                    )
                },
            },
            Phase::InodeCheckRequested { root_fd, parent_fd, counter, warnings } => match ev {
                Event::Inode { is_dir, ino } => {
                    if btrfs::is_subvolume_root(is_dir, ino) {
                        let seed = archive.root.as_str().as_bytes_vec();
                        let name = naming::snapshot_name(seed.as_slice(), counter);
                        let request = btrfs::create_request_bytes(root_fd, &name);
                        let act = Action::CreateSnapshot {
                            parent_fd,
                            request,
                            name: btrfs::copy_bytes(&name),
                        };
                        let m = BackupMachine {
                            archive_name,
                            archive,
                            timestamp_utc,
                            timestamp_local,
                            has_passphrase,
                            umask,
                            phase: Phase::CreateRequested {
                                root_fd,
                                parent_fd,
                                counter,
                                warnings,
                                name,
                            },
                        };
                        (m, act)
                    } else {
                        finish(
                            archive_name,
                            archive,
                            timestamp_utc,
                            timestamp_local,
                            has_passphrase,
                            umask,
                            Err(Error::SnapshotCreate(btrfs::Error::NotSubvolumeRoot)),
                        )
                    }
                },
                _ => {
                    let errno = failed_errno(&ev);
                    finish(
                        archive_name,
                        archive,
                        timestamp_utc,
                        timestamp_local,
                        has_passphrase,
                        umask,
                        Err(Error::SnapshotCreate(btrfs::Error::Syscall(errno))),
                    )
                },
            },
            Phase::CreateRequested { root_fd, parent_fd, counter, warnings, name } => match ev {
                Event::Succeeded => {
                    let act = Action::OpenSnapshotDir { parent_fd, name: btrfs::copy_bytes(&name) };
                    let m = BackupMachine {
                        archive_name,
                        archive,
                        timestamp_utc,
                        timestamp_local,
                        has_passphrase,
                        umask,
                        phase: Phase::SnapDirRequested { root_fd, parent_fd, warnings, name },
                    };
                    (m, act)
                },
                _ => {
                    let errno = failed_errno(&ev);
                    if errno == EEXIST {
                        let m = BackupMachine {
                            archive_name,
                            archive,
                            timestamp_utc,
                            timestamp_local,
                            has_passphrase,
                            umask,
                            phase: Phase::FsCheckRequested {
                                root_fd,
                                parent_fd,
                                counter: counter + 1,
                                warnings: warnings + 1,
                            },
                        };
                        (m, Action::CheckFilesystem { fd: root_fd })
                    } else {
                        finish(
                            archive_name,
                            archive,
                            timestamp_utc,
                            timestamp_local,
                            has_passphrase,
                            umask,
                            Err(Error::SnapshotCreate(btrfs::Error::Syscall(errno))),
                        )
                    }
                },
            },
            Phase::SnapDirRequested { root_fd, parent_fd, warnings, name } => match ev {
                Event::Opened { fd } => {
                    enter_run_stage(
                        archive_name,
                        archive,
                        timestamp_utc,
                        timestamp_local,
                        has_passphrase,
                        umask,
                        fd,
                        Some(SnapCtx { parent_fd, snap_fd: fd, warnings }),
                        Ghost(pre),
                    )
                },
                _ => {
                    let errno = failed_errno(&ev);
                    finish(
                        archive_name,
                        archive,
                        timestamp_utc,
                        timestamp_local,
                        has_passphrase,
                        umask,
                        Err(Error::OpenSnapshot(errno)),
                    )
                },
            },
            Phase::PipeRequested { work_fd, snapshot } => match ev {
                Event::PipeReady { fd } => {
                    let plan = build_plan(
                        archive_name.as_str(),
                        &archive,
                        timestamp_utc.as_str(),
                        timestamp_local.as_str(),
                        umask,
                        Some(fd),
                    );
                    let m = BackupMachine {
                        archive_name,
                        archive,
                        timestamp_utc,
                        timestamp_local,
                        has_passphrase,
                        umask,
                        phase: Phase::SpawnRequested { work_fd, snapshot },
                    };
                    (m, Action::RunCommand { plan, dir_fd: work_fd })
                },
                _ => {
                    let errno = failed_errno(&ev);
                    leave_run_stage(
                        archive_name,
                        archive,
                        timestamp_utc,
                        timestamp_local,
                        has_passphrase,
                        umask,
                        snapshot,
                        Err(Error::Spawn(errno)),
                    )
                },
            },
            Phase::SpawnRequested { work_fd: _, snapshot } => match ev {
                Event::Exited { status } => {
                    let outcome = classify_exit(status);
                    leave_run_stage(
                        archive_name,
                        archive,
                        timestamp_utc,
                        timestamp_local,
                        has_passphrase,
                        umask,
                        snapshot,
                        outcome,
                    )
                },
                _ => {
                    let errno = failed_errno(&ev);
                    leave_run_stage(
                        archive_name,
                        archive,
                        timestamp_utc,
                        timestamp_local,
                        has_passphrase,
                        umask,
                        snapshot,
                        Err(Error::Spawn(errno)),
                    )
                },
            },
            Phase::FlagsReadRequested { snap, backup } => match ev {
                Event::Flags { flags } => {
                    let cleared = btrfs::writable_flags(flags);
                    let m = BackupMachine {
                        archive_name,
                        archive,
                        timestamp_utc,
                        timestamp_local,
                        has_passphrase,
                        umask,
                        phase: Phase::FlagsWriteRequested { snap, backup },
                    };
                    (m, Action::WriteFlags { fd: snap.snap_fd, flags: cleared })
                },
                _ => {
                    let errno = failed_errno(&ev);
                    let result = combine_outcomes(
                        snap.warnings > 0,
                        backup,
                        Err(Error::SnapshotDelete(btrfs::Error::Syscall(errno))),
                    );
                    finish(
                        archive_name,
                        archive,
                        timestamp_utc,
                        timestamp_local,
                        has_passphrase,
                        umask,
                        result,
                    )
                },
            },
            Phase::FlagsWriteRequested { snap, backup } => match ev {
                Event::Succeeded => {
                    let m = BackupMachine {
                        archive_name,
                        archive,
                        timestamp_utc,
                        timestamp_local,
                        has_passphrase,
                        umask,
                        phase: Phase::InfoRequested { snap, backup },
                    };
                    (m, Action::QueryInfo { fd: snap.snap_fd })
                },
                _ => {
                    let errno = failed_errno(&ev);
                    let result = combine_outcomes(
                        snap.warnings > 0,
                        backup,
                        Err(Error::SnapshotDelete(btrfs::Error::Syscall(errno))),
                    );
                    finish(
                        archive_name,
                        archive,
                        timestamp_utc,
                        timestamp_local,
                        has_passphrase,
                        umask,
                        result,
                    )
                },
            },
            Phase::InfoRequested { snap, backup } => match ev {
                Event::SubvolId { id } => {
                    let request = btrfs::destroy_request_bytes(id);
                    let m = BackupMachine {
                        archive_name,
                        archive,
                        timestamp_utc,
                        timestamp_local,
                        has_passphrase,
                        umask,
                        phase: Phase::DestroyRequested { snap, backup },
                    };
                    (m, Action::DestroySnapshot { parent_fd: snap.parent_fd, request })
                },
                _ => {
                    let errno = failed_errno(&ev);
                    let result = combine_outcomes(
                        snap.warnings > 0,
                        backup,
                        Err(Error::SnapshotDelete(btrfs::Error::Syscall(errno))),
                    );
                    finish(
                        archive_name,
                        archive,
                        timestamp_utc,
                        timestamp_local,
                        has_passphrase,
                        umask,
                        result,
                    )
                },
            },
            Phase::DestroyRequested { snap, backup } => match ev {
                Event::Succeeded => {
                    let result = combine_outcomes(snap.warnings > 0, backup, Ok(()));
                    finish(
                        archive_name,
                        archive,
                        timestamp_utc,
                        timestamp_local,
                        has_passphrase,
                        umask,
                        result,
                    )
                },
                _ => {
                    let errno = failed_errno(&ev);
                    let result = combine_outcomes(
                        snap.warnings > 0,
                        backup,
                        Err(Error::SnapshotDelete(btrfs::Error::Syscall(errno))),
                    );
                    finish(
                        archive_name,
                        archive,
                        timestamp_utc,
                        timestamp_local,
                        has_passphrase,
                        umask,
                        result,
                    )
                },
            },
            Phase::Finished { .. } => vstd::pervasive::unreached(),
        }
    }
}

/// The error number of a `Failed` event; precluded from being called on
/// any other event.
fn failed_errno(ev: &Event) -> (r: i32)
    requires
        *ev matches Event::Failed { .. },
    ensures
        *ev matches Event::Failed { errno } && r == errno,
{
    match ev {
        Event::Failed { errno } => *errno,
        _ => vstd::pervasive::unreached(),
    }
}

/// Assembles a machine that has ended with `result` and the matching
/// action.
fn finish(
    archive_name: String,
    archive: Archive,
    timestamp_utc: String,
    timestamp_local: String,
    has_passphrase: bool,
    umask: u16,
    result: Result<bool, Error>,
) -> (r: (BackupMachine, Action))
    ensures
        r.0 == (BackupMachine {
            archive_name,
            archive,
            timestamp_utc,
            timestamp_local,
            has_passphrase,
            umask,
            phase: Phase::Finished { result },
        }),
        step_finishes(r.0, r.1, result),
        r.0.wf(),
{
    let done = Action::Done { result: clone_result(&result) };
    let m = BackupMachine {
        archive_name,
        archive,
        timestamp_utc,
        timestamp_local,
        has_passphrase,
        umask,
        phase: Phase::Finished { result },
    };
    (m, done)
}

/// A copy of a run result.
fn clone_result(r: &Result<bool, Error>) -> (c: Result<bool, Error>)
    ensures
        c == *r,
{
    match r {
        Ok(w) => Ok(*w),
        Err(e) => Err(clone_error(e)),
    }
}

/// A copy of an error.
fn clone_error(e: &Error) -> (c: Error)
    ensures
        c == *e,
{
    match e {
        Error::OpenArchiveRoot(x) => Error::OpenArchiveRoot(*x),
        Error::OpenArchiveRootParent(x) => Error::OpenArchiveRootParent(*x),
        Error::OpenSnapshot(x) => Error::OpenSnapshot(*x),
        Error::SnapshotCreate(x) => Error::SnapshotCreate(clone_btrfs_error(x)),
        Error::SnapshotDelete(x) => Error::SnapshotDelete(clone_btrfs_error(x)),
        Error::Spawn(x) => Error::Spawn(*x),
        Error::ErrorStatus => Error::ErrorStatus,
        Error::UnknownExitCode(x) => Error::UnknownExitCode(*x),
        Error::Signal(x) => Error::Signal(*x),
        Error::Unknown => Error::Unknown,
    }
}

/// A copy of a btrfs error.
fn clone_btrfs_error(e: &btrfs::Error) -> (c: btrfs::Error)
    ensures
        c == *e,
{
    match e {
        btrfs::Error::NotBtrfs => btrfs::Error::NotBtrfs,
        btrfs::Error::NotSubvolumeRoot => btrfs::Error::NotSubvolumeRoot,
        btrfs::Error::Syscall(x) => btrfs::Error::Syscall(*x),
    }
}

/// Enters the command stage rooted at `work_fd`: prepares the credential
/// pipe first when a secret is to be handed over, else spawns at once.
fn enter_run_stage(
    archive_name: String,
    archive: Archive,
    timestamp_utc: String,
    timestamp_local: String,
    has_passphrase: bool,
    umask: u16,
    work_fd: i64,
    snapshot: Option<SnapCtx>,
    Ghost(pre): Ghost<BackupMachine>,
) -> (r: (BackupMachine, Action))
    requires
        same_inputs(
            pre,
            BackupMachine {
                archive_name,
                archive,
                timestamp_utc,
                timestamp_local,
                has_passphrase,
                umask,
                phase: pre.phase,
            },
        ),
    ensures
        same_inputs(pre, r.0),
        step_to_run(pre, work_fd, snapshot, r.0, r.1),
        r.0.wf(),
{
    if has_passphrase {
        let m = BackupMachine {
            archive_name,
            archive,
            timestamp_utc,
            timestamp_local,
            has_passphrase,
            umask,
            phase: Phase::PipeRequested { work_fd, snapshot },
        };
        (m, Action::PreparePipe)
    } else {
        let plan = build_plan(
            archive_name.as_str(),
            &archive,
            timestamp_utc.as_str(),
            timestamp_local.as_str(),
            umask,
            None,
        );
        let m = BackupMachine {
            archive_name,
            archive,
            timestamp_utc,
            timestamp_local,
            has_passphrase,
            umask,
            phase: Phase::SpawnRequested { work_fd, snapshot },
        };
        (m, Action::RunCommand { plan, dir_fd: work_fd })
    }
}

/// Leaves the command stage with `outcome`: begins the snapshot teardown
/// when one is live, else ends the run.
fn leave_run_stage(
    archive_name: String,
    archive: Archive,
    timestamp_utc: String,
    timestamp_local: String,
    has_passphrase: bool,
    umask: u16,
    snapshot: Option<SnapCtx>,
    outcome: Result<bool, Error>,
) -> (r: (BackupMachine, Action))
    ensures
        r.0 == (BackupMachine {
            archive_name,
            archive,
            timestamp_utc,
            timestamp_local,
            has_passphrase,
            umask,
            phase: r.0.phase,
        }),
        step_after_run(snapshot, outcome, r.0, r.1),
        r.0.wf(),
{
    match snapshot {
        Some(snap) => {
            let m = BackupMachine {
                archive_name,
                archive,
                timestamp_utc,
                timestamp_local,
                has_passphrase,
                umask,
                phase: Phase::FlagsReadRequested { snap, backup: outcome },
            };
            (m, Action::ReadFlags { fd: snap.snap_fd })
        },
        None => finish(
            archive_name,
            archive,
            timestamp_utc,
            timestamp_local,
            has_passphrase,
            umask,
            outcome,
        ),
    }
}

/// A run of the machine: `states[0]` is the starting machine, and each
/// event took `states[i]` to `states[i + 1]` while emitting `actions[i]`.
pub open spec fn valid_trace(
    states: Seq<BackupMachine>,
    events: Seq<Event>,
    actions: Seq<Action>,
) -> bool {
    &&& states.len() == events.len() + 1
    &&& actions.len() == events.len()
    &&& forall|i: int|
        0 <= i < events.len() ==> #[trigger] spec_step(
            states[i],
            events[i],
            states[i + 1],
            actions[i],
        )
}

/// Book-keeping along any run that starts at the beginning: the run's
/// inputs never change; while the creation loop runs, exactly as many
/// warnings have been recorded as create attempts have collided, and the
/// pending name is the one generated for the current counter; and the
/// snapshot whose directory is opened carries the name generated for
/// counter value equal to its warning count — creation succeeded at
/// attempt `warnings` after exactly `warnings` collisions.
pub proof fn lemma_create_attempts_counted(
    states: Seq<BackupMachine>,
    events: Seq<Event>,
    actions: Seq<Action>,
    k: int,
)
    requires
        valid_trace(states, events, actions),
        states[0].phase == Phase::RootRequested,
        0 <= k < states.len(),
    ensures
        same_inputs(states[0], states[k]),
        states[k].phase matches Phase::FsCheckRequested { counter, warnings, .. } ==> warnings
            == counter,
        states[k].phase matches Phase::InodeCheckRequested { counter, warnings, .. } ==> warnings
            == counter,
        states[k].phase matches Phase::CreateRequested { counter, warnings, name, .. } ==> warnings
            == counter && name@ == naming::spec_snapshot_name(seed_of(states[0]), counter),
        states[k].phase matches Phase::SnapDirRequested { warnings, name, .. } ==> name@
            == naming::spec_snapshot_name(seed_of(states[0]), warnings),
    decreases k,
{
    if k > 0 {
        lemma_create_attempts_counted(states, events, actions, k - 1);
        let i = k - 1;
        assert(spec_step(states[i], events[i], states[i + 1], actions[i]));
        assert(seed_of(states[i]) == seed_of(states[0]));
    }
}

/// In any run that starts at the beginning, while the teardown has reached
/// the identifier query or the destroy request, an earlier flags write
/// whose value has the read-only bit cleared was issued and acknowledged.
proof fn lemma_teardown_phase_origin(
    states: Seq<BackupMachine>,
    events: Seq<Event>,
    actions: Seq<Action>,
    k: int,
)
    requires
        valid_trace(states, events, actions),
        states[0].phase == Phase::RootRequested,
        0 <= k < states.len(),
        states[k].phase matches Phase::InfoRequested { .. } || states[k].phase
            matches Phase::DestroyRequested { .. },
    ensures
        exists|j: int|
            0 <= j < k - 1 && ((#[trigger] actions[j]) matches Action::WriteFlags { flags, .. }
                && flags & btrfs::SUBVOL_RDONLY == 0) && events[j + 1] == Event::Succeeded,
    decreases k,
{
    assert(forall|f: u64| f & !2u64 & 2u64 == 0) by (bit_vector);
    assert(k > 0);
    let i1 = k - 1;
    assert(spec_step(states[i1], events[i1], states[i1 + 1], actions[i1]));
    if states[k].phase matches Phase::InfoRequested { .. } {
        assert(states[k - 1].phase matches Phase::FlagsWriteRequested { .. });
        assert(events[k - 1] == Event::Succeeded);
        assert(k - 1 > 0);
        let i2 = k - 2;
        assert(spec_step(states[i2], events[i2], states[i2 + 1], actions[i2]));
        assert(states[k - 2].phase matches Phase::FlagsReadRequested { .. });
        let j = k - 2;
        assert(actions[j] matches Action::WriteFlags { flags, .. } && flags
            & btrfs::SUBVOL_RDONLY == 0);
        assert(0 <= j < k - 1 && (actions[j] matches Action::WriteFlags { flags, .. } && flags
            & btrfs::SUBVOL_RDONLY == 0) && events[j + 1] == Event::Succeeded);
        assert(events[j + 1] == Event::Succeeded);
    } else {
        assert(states[k - 1].phase matches Phase::InfoRequested { .. });
        lemma_teardown_phase_origin(states, events, actions, k - 1);
    }
}

/// A destroy request is never issued while the snapshot may still be
/// read-only: in any run, every destroy action is preceded by an
/// acknowledged flags write whose value has the read-only bit cleared.
pub proof fn lemma_destroy_after_readonly_cleared(
    states: Seq<BackupMachine>,
    events: Seq<Event>,
    actions: Seq<Action>,
    i: int,
)
    requires
        valid_trace(states, events, actions),
        states[0].phase == Phase::RootRequested,
        0 <= i < actions.len(),
        actions[i] matches Action::DestroySnapshot { .. },
    ensures
        exists|j: int|
            0 <= j < i && ((#[trigger] actions[j]) matches Action::WriteFlags { flags, .. } && flags
                & btrfs::SUBVOL_RDONLY == 0) && events[j + 1] == Event::Succeeded,
{
    let i0 = i;
    assert(spec_step(states[i0], events[i0], states[i0 + 1], actions[i0]));
    assert(states[i].phase matches Phase::InfoRequested { .. });
    lemma_teardown_phase_origin(states, events, actions, i);
}

/// The run has reached the command stage or the teardown that follows it.
pub open spec fn past_command_stage(m: BackupMachine) -> bool {
    ||| m.phase matches Phase::SpawnRequested { .. }
    ||| m.phase matches Phase::FlagsReadRequested { .. }
    ||| m.phase matches Phase::FlagsWriteRequested { .. }
    ||| m.phase matches Phase::InfoRequested { .. }
    ||| m.phase matches Phase::DestroyRequested { .. }
    ||| m.phase matches Phase::Finished { .. }
}

/// Once a run has reached the command stage it never leaves it.
proof fn lemma_command_stage_is_final(
    states: Seq<BackupMachine>,
    events: Seq<Event>,
    actions: Seq<Action>,
    k: int,
    j: int,
)
    requires
        valid_trace(states, events, actions),
        0 <= k <= j < states.len(),
        past_command_stage(states[k]),
    ensures
        past_command_stage(states[j]),
    decreases j - k,
{
    if j > k {
        lemma_command_stage_is_final(states, events, actions, k, j - 1);
        let i = j - 1;
        assert(spec_step(states[i], events[i], states[i + 1], actions[i]));
    }
}

/// The archival command is spawned at most once per run.
pub proof fn lemma_run_command_at_most_once(
    states: Seq<BackupMachine>,
    events: Seq<Event>,
    actions: Seq<Action>,
    i: int,
    j: int,
)
    requires
        valid_trace(states, events, actions),
        0 <= i < j < actions.len(),
        actions[i] matches Action::RunCommand { .. },
    ensures
        !(actions[j] matches Action::RunCommand { .. }),
{
    let a = i;
    assert(spec_step(states[a], events[a], states[a + 1], actions[a]));
    assert(past_command_stage(states[i + 1]));
    lemma_command_stage_is_final(states, events, actions, i + 1, j);
    let b = j;
    assert(spec_step(states[b], events[b], states[b + 1], actions[b]));
}

/// Once the destroy request has been issued, the run can only end.
proof fn lemma_destroy_is_final(
    states: Seq<BackupMachine>,
    events: Seq<Event>,
    actions: Seq<Action>,
    k: int,
    j: int,
)
    requires
        valid_trace(states, events, actions),
        0 <= k <= j < states.len(),
        states[k].phase matches Phase::DestroyRequested { .. } || states[k].phase
            matches Phase::Finished { .. },
    ensures
        states[j].phase matches Phase::DestroyRequested { .. } || states[j].phase
            matches Phase::Finished { .. },
    decreases j - k,
{
    if j > k {
        lemma_destroy_is_final(states, events, actions, k, j - 1);
        let i = j - 1;
        assert(spec_step(states[i], events[i], states[i + 1], actions[i]));
    }
}

/// The destroy request is issued at most once per run.
pub proof fn lemma_destroy_at_most_once(
    states: Seq<BackupMachine>,
    events: Seq<Event>,
    actions: Seq<Action>,
    i: int,
    j: int,
)
    requires
        valid_trace(states, events, actions),
        0 <= i < j < actions.len(),
        actions[i] matches Action::DestroySnapshot { .. },
    ensures
        !(actions[j] matches Action::DestroySnapshot { .. }),
{
    let a = i;
    assert(spec_step(states[a], events[a], states[a + 1], actions[a]));
    assert(states[i + 1].phase matches Phase::DestroyRequested { .. });
    lemma_destroy_is_final(states, events, actions, i + 1, j);
    let b = j;
    assert(spec_step(states[b], events[b], states[b + 1], actions[b]));
}

/// The strings an argument of a spawn plan can be: a fixed option string,
/// or a value built from the run's non-secret inputs.
pub open spec fn arg_from_inputs(
    a: Seq<char>,
    name: Seq<char>,
    compression: Seq<char>,
    ts_utc: Seq<char>,
    ts_local: Seq<char>,
    umask: u16,
    patterns: Seq<Seq<char>>,
) -> bool {
    ||| a == "--verbose"@
    ||| a == "--progress"@
    ||| a == "--iec"@
    ||| a == "--umask"@
    ||| a == spec_umask_arg(umask)
    ||| a == "create"@
    ||| a == "--stats"@
    ||| a == "--exclude-caches"@
    ||| a == "--timestamp"@
    ||| a == ts_utc
    ||| a == "--compression"@
    ||| a == compression
    ||| (exists|j: int| 0 <= j < patterns.len() && a == spec_pattern_arg(#[trigger] patterns[j]))
    ||| a == spec_archive_label(name, ts_local)
    ||| a == "."@
}

/// The argument vector of a spawn plan never carries the secret: every
/// entry is a fixed option string or a value built from the run's
/// non-secret inputs alone, so a secret that differs from each of those
/// strings occurs nowhere in it.
pub proof fn lemma_args_from_inputs(
    name: Seq<char>,
    compression: Seq<char>,
    ts_utc: Seq<char>,
    ts_local: Seq<char>,
    umask: u16,
    patterns: Seq<Seq<char>>,
)
    ensures
        forall|i: int|
            0 <= i < spec_plan_args(name, compression, ts_utc, ts_local, umask, patterns).len()
                ==> arg_from_inputs(
                #[trigger] spec_plan_args(name, compression, ts_utc, ts_local, umask, patterns)[i],
                name,
                compression,
                ts_utc,
                ts_local,
                umask,
                patterns,
            ),
{
    let args = spec_plan_args(name, compression, ts_utc, ts_local, umask, patterns);
    let m = patterns.map_values(|p: Seq<char>| spec_pattern_arg(p));
    assert forall|i: int| 0 <= i < args.len() implies arg_from_inputs(
        #[trigger] args[i],
        name,
        compression,
        ts_utc,
        ts_local,
        umask,
        patterns,
    ) by {
        if 12 <= i < 12 + patterns.len() {
            assert(args[i] == m[i - 12]);
            assert(m[i - 12] == spec_pattern_arg(patterns[i - 12]));
        }
    }
}

/// The environment of a spawn plan never carries the secret: a value other
/// than the repository location, the archive name, and the decimal
/// rendering of the credential descriptor's number does not occur in it.
pub proof fn lemma_env_never_secret(
    name: Seq<char>,
    repository: Seq<char>,
    passphrase_fd: Option<u64>,
    secret: Seq<char>,
)
    requires
        secret != repository,
        secret != name,
        passphrase_fd matches Some(fd) ==> secret != dec_digits(fd as nat),
    ensures
        forall|i: int|
            0 <= i < spec_plan_env(name, repository, passphrase_fd).len() ==> (
            #[trigger] spec_plan_env(name, repository, passphrase_fd)[i]).1 != secret,
{
}

} // verus!
