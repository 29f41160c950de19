//! Device deployment: splitting the command line into deployable files
//! and program arguments, computing the staging path on the device,
//! building the `adb` invocations, and the phase machine that guarantees
//! the staging directory is cleaned up on every exit path.

use vstd::prelude::*;
use vstd::string::StrSliceExecFns;
use vstd::string::StringExecFns;
use crate::RunError;
use crate::Step;
use crate::text::clone_strings;
use crate::text::str_eq;

verus! {

/// Splits the command line the simple way: the first argument is the
/// sole file to deploy, everything after it is program arguments.
pub fn partition(args: &Vec<String>) -> (r: (Vec<String>, Vec<String>))
    requires
        args@.len() > 0,
    ensures
        r.0@ == args@.take(1),
        r.1@ == args@.skip(1),
{
    let mut files: Vec<String> = Vec::new();
    files.push(args[0].clone());
    proof {
        assert(files@ =~= args@.take(1));
    }
    (files, clone_strings(args, 1))
}

/// Some argument is the literal separator `--`.
pub open spec fn has_dashdash(args: Seq<String>) -> bool {
    exists|i: int| 0 <= i < args.len() && args[i]@ == "--"@
}

/// Position of the first `--` argument.
pub open spec fn dashdash_pos(args: Seq<String>) -> int
    decreases args.len(),
{
    if args.len() == 0 {
        0
    } else if args[0]@ == "--"@ {
        0
    } else {
        1 + dashdash_pos(args.drop_first())
    }
}

proof fn lemma_dashdash_pos(args: Seq<String>, i: int)
    requires
        0 <= i < args.len(),
        args[i]@ == "--"@,
        forall|j: int| 0 <= j < i ==> args[j]@ != "--"@,
    ensures
        dashdash_pos(args) == i,
    decreases i,
{
    if i > 0 {
        assert(args.drop_first()[i - 1] == args[i]);
        assert(forall|j: int| 0 <= j < i - 1 ==> args.drop_first()[j] == args[j + 1]);
        lemma_dashdash_pos(args.drop_first(), i - 1);
    }
}

/// Splits the command line the flexible way: everything before the first
/// `--` is files to deploy, everything after it is program arguments;
/// with no `--` present, every argument is a file and there are no
/// program arguments.
pub fn partition_flexible(args: &Vec<String>) -> (r: (Vec<String>, Vec<String>))
    ensures
        if has_dashdash(args@) {
            r.0@ == args@.take(dashdash_pos(args@)) && r.1@ == args@.skip(dashdash_pos(args@) + 1)
        } else {
            r.0@ == args@ && r.1@.len() == 0
        },
{
    let n = args.len();
    let mut i: usize = 0;
    while i < n
        invariant
            i <= n,
            n == args@.len(),
            forall|j: int| 0 <= j < i ==> args@[j]@ != "--"@,
        decreases n - i,
    {
        if str_eq(args[i].as_str(), "--") {
            proof {
                lemma_dashdash_pos(args@, i as int);
            }
            let files = clone_strings_prefix(args, i);
            let rest = clone_strings(args, i + 1);
            return (files, rest);
        }
        i = i + 1;
    }
    proof {
        assert(args@.skip(0) =~= args@);
    }
    (clone_strings(args, 0), Vec::new())
}

fn clone_strings_prefix(v: &Vec<String>, to: usize) -> (r: Vec<String>)
    requires
        to <= v@.len(),
    ensures
        r@ == v@.take(to as int),
{
    let mut r: Vec<String> = Vec::new();
    let mut i: usize = 0;
    while i < to
        invariant
            i <= to <= v@.len(),
            r@ =~= v@.take(i as int),
        decreases to - i,
    {
        r.push(v[i].clone());
        proof {
            assert(v@.take(i + 1) =~= v@.take(i as int).push(v@[i as int]));
        }
        i = i + 1;
    }
    r
}

/// Position right after the last `/` of a path; 0 when the path has no
/// separator.
pub open spec fn base_start(p: Seq<char>) -> int
    decreases p.len(),
{
    if p.len() == 0 {
        0
    } else if p.last() == '/' {
        p.len() as int
    } else {
        base_start(p.drop_last())
    }
}

/// The final path component: everything after the last `/`.
pub open spec fn basename(p: Seq<char>) -> Seq<char> {
    p.skip(base_start(p))
}

proof fn lemma_base_start(p: Seq<char>, k: int)
    requires
        0 <= k < p.len(),
        p[k] == '/',
        forall|j: int| k < j < p.len() ==> p[j] != '/',
    ensures
        base_start(p) == k + 1,
    decreases p.len(),
{
    if k < p.len() - 1 {
        lemma_base_start(p.drop_last(), k);
    }
}

proof fn lemma_base_start_nosep(p: Seq<char>)
    requires
        forall|j: int| 0 <= j < p.len() ==> p[j] != '/',
    ensures
        base_start(p) == 0,
    decreases p.len(),
{
    if p.len() > 0 {
        lemma_base_start_nosep(p.drop_last());
    }
}

/// The staging path of a local file on the device: the fixed staging
/// directory joined with the file's base name, directory components
/// stripped. The path must name a file plainly: its final component may
/// not be empty, `.` or `..`.
pub fn path_of_device(p: &str) -> (r: String)
    requires
        basename(p@).len() > 0,
        basename(p@) != "."@,
        basename(p@) != ".."@,
    ensures
        r@ == "/data/local/tmp/"@ + basename(p@),
{
    let n = p.unicode_len();
    let mut start: usize = 0;
    let mut i: usize = 0;
    while i < n
        invariant
            start <= i <= n,
            n == p@.len(),
            if start == 0 {
                forall|j: int| 0 <= j < i ==> p@[j] != '/'
            } else {
                p@[start - 1] == '/' && (forall|j: int| start <= j < i ==> p@[j] != '/')
            },
        decreases n - i,
    {
        if p.get_char(i) == '/' {
            start = i + 1;
        }
        i = i + 1;
    }
    proof {
        if start == 0 {
            lemma_base_start_nosep(p@);
        } else {
            lemma_base_start(p@, start - 1);
        }
    }
    let name = p.substring_char(start, n);
    let mut r = "/data/local/tmp/".to_owned();
    r.append(name);
    proof {
        assert(name@ =~= basename(p@));
    }
    r
}

/// Relies on std's Path::is_file: answers whether the path names an
/// existing regular file; the answer depends on the filesystem, so
/// nothing is promised of it.
#[verifier::external_body]
pub fn is_file(p: &str) -> bool {
    std::path::Path::new(p).is_file()
}

/// Checks the preconditions of a deployment: the debugging bridge must
/// be on the execution path, and the first given file must exist as a
/// regular file.
pub fn preflight(adb_ok: bool, files: &Vec<String>, first_is_file: bool) -> (r: Result<
    (),
    RunError,
>)
    ensures
        match r {
            Ok(u) => adb_ok && files@.len() > 0 && first_is_file,
            Err(e) => (e == RunError::BridgeNotFound && !adb_ok) || (e == RunError::FileNotFound
                && adb_ok && !(files@.len() > 0 && first_is_file)),
        },
{
    if !adb_ok {
        return Err(RunError::BridgeNotFound);
    }
    if files.len() == 0 || !first_is_file {
        return Err(RunError::FileNotFound);
    }
    Ok(())
}

/// The `adb` arguments that copy one local file into the staging
/// directory.
pub fn adb_push_args(file: &str) -> (r: Vec<String>)
    ensures
        r@.len() == 3,
        r@[0]@ == "push"@,
        r@[1]@ == file@,
        r@[2]@ == "/data/local/tmp/"@,
{
    let mut r: Vec<String> = Vec::new();
    r.push("push".to_owned());
    r.push(file.to_owned());
    r.push("/data/local/tmp/".to_owned());
    r
}

/// The `adb` arguments that clear the staging directory.
pub fn adb_remove_all_args() -> (r: Vec<String>)
    ensures
        r@.len() == 2,
        r@[0]@ == "shell"@,
        r@[1]@ == "sh -c 'rm -rf /data/local/tmp/*'"@,
{
    let mut r: Vec<String> = Vec::new();
    r.push("shell".to_owned());
    r.push("sh -c 'rm -rf /data/local/tmp/*'".to_owned());
    r
}

/// The `adb` arguments of the remote invocation: change into the staging
/// directory, mark the primary file executable, set the library search
/// path and the backtrace variable, run the primary file under a timing
/// wrapper with the given program arguments, and append a marker line
/// with the shell exit code to the error stream.
pub fn adb_run_args(target: &str, args: &Vec<String>) -> (r: Vec<String>)
    ensures
        r@.len() == 7 + args@.len(),
        r@[0]@ == "shell"@,
        r@[1]@ == "cd /data/local/tmp/"@,
        r@[2]@ == "&& chmod 777"@,
        r@[3]@ == target@,
        r@[4]@ == "&& time sh -c 'LD_LIBRARY_PATH=/data/local/tmp RUST_BACKTRACE=full"@,
        r@[5]@ == target@,
        forall|i: int| 0 <= i < args@.len() ==> r@[6 + i]@ == args@[i]@,
        r@[6 + args@.len() as int]@ == "; echo \"============================\n[exit status:($?)]\" 1>&2'"@,
{
    let mut r: Vec<String> = Vec::new();
    r.push("shell".to_owned());
    r.push("cd /data/local/tmp/".to_owned());
    r.push("&& chmod 777".to_owned());
    r.push(target.to_owned());
    r.push("&& time sh -c 'LD_LIBRARY_PATH=/data/local/tmp RUST_BACKTRACE=full".to_owned());
    r.push(target.to_owned());
    let mut i: usize = 0;
    while i < args.len()
        invariant
            i <= args@.len(),
            r@.len() == 6 + i,
            r@[0]@ == "shell"@,
            r@[1]@ == "cd /data/local/tmp/"@,
            r@[2]@ == "&& chmod 777"@,
            r@[3]@ == target@,
            r@[4]@ == "&& time sh -c 'LD_LIBRARY_PATH=/data/local/tmp RUST_BACKTRACE=full"@,
            r@[5]@ == target@,
            forall|j: int| 0 <= j < i ==> r@[6 + j]@ == args@[j]@,
        decreases args@.len() - i,
    {
        r.push(args[i].clone());
        i = i + 1;
    }
    r.push("; echo \"============================\n[exit status:($?)]\" 1>&2'".to_owned());
    r
}

/// What the driver is asked to do next.
#[derive(Clone, Copy, PartialEq, Eq, Structural, Debug)]
pub enum Action {
    /// Copy the file at this index of the deployment's file list.
    PushFile { index: usize },
    /// Execute the primary file on the device.
    RunPrimary,
    /// Clear the staging directory.
    RemoveAll,
    /// Nothing is left to do.
    Done,
}

/// The outcome of a finished deployment: a failure of the execution
/// steps and a failure of the cleanup step are reported in fields of
/// their own.
#[derive(Clone, Copy, Debug)]
pub struct Report {
    /// The first failure among the push and run steps, if any.
    pub failure: Option<RunError>,
    /// The failure of the cleanup step, if it failed.
    pub cleanup: Option<RunError>,
}

/// Where a deployment stands.
#[derive(Clone, Copy, Debug)]
pub enum Phase {
    /// Copying files; `next` is the index of the file to copy next.
    Pushing { next: usize },
    /// All files are on the device; the primary file runs next.
    Running,
    /// Clearing the staging directory; `pending` is the failure of an
    /// earlier step, carried through so the cleanup cannot mask it.
    CleaningUp { pending: Option<RunError> },
    /// Nothing is left to do.
    Finished { report: Report },
}

/// The phase reached from `phase` when the step just performed reported
/// `ok`, deploying `len` files. A failure while pushing or running moves
/// to the cleanup phase, never straight to the end; the cleanup phase
/// records its own failure beside the one it inherited.
pub open spec fn step_phase(phase: Phase, len: nat, ok: bool) -> Phase {
    match phase {
        Phase::Pushing { next } => {
            if !ok {
                Phase::CleaningUp {
                    pending: Some(RunError::SubprocessFailed { step: Step::Push }),
                }
            } else if next + 1 < len {
                Phase::Pushing { next: (next + 1) as usize }
            } else {
                Phase::Running
            }
        },
        Phase::Running => Phase::CleaningUp {
            pending: if ok {
                None
            } else {
                Some(RunError::SubprocessFailed { step: Step::Run })
            },
        },
        Phase::CleaningUp { pending } => Phase::Finished {
            report: Report {
                failure: pending,
                cleanup: if ok {
                    None
                } else {
                    Some(RunError::SubprocessFailed { step: Step::Cleanup })
                },
            },
        },
        Phase::Finished { report } => phase,
    }
}

/// The action owed in a phase.
pub open spec fn phase_action(phase: Phase) -> Action {
    match phase {
        Phase::Pushing { next } => Action::PushFile { index: next },
        Phase::Running => Action::RunPrimary,
        Phase::CleaningUp { pending } => Action::RemoveAll,
        Phase::Finished { report } => Action::Done,
    }
}

/// One deployment: the files to place on the device and where the
/// sequence stands.
pub struct Deploy {
    /// The files to copy; the first is the one executed.
    pub files: Vec<String>,
    /// Where the sequence stands.
    pub phase: Phase,
}

impl Deploy {
    /// There is a file to run, and the push index stays within bounds.
    pub open spec fn wf(self) -> bool {
        self.files@.len() > 0 && match self.phase {
            Phase::Pushing { next } => next < self.files@.len(),
            _ => true,
        }
    }

    /// Starts a deployment of the given files, first file first.
    pub fn new(files: Vec<String>) -> (d: Deploy)
        requires
            files@.len() > 0,
        ensures
            d.wf(),
            d.files == files,
            d.phase == (Phase::Pushing { next: 0usize }),
    {
        Deploy { files, phase: Phase::Pushing { next: 0 } }
    }

    /// The action owed in the current phase.
    pub fn action(&self) -> (a: Action)
        ensures
            a == phase_action(self.phase),
    {
        match self.phase {
            Phase::Pushing { next } => Action::PushFile { index: next },
            Phase::Running => Action::RunPrimary,
            Phase::CleaningUp { pending } => Action::RemoveAll,
            Phase::Finished { report } => Action::Done,
        }
    }

    /// Moves to the next phase once the current action has been
    /// performed and reported `ok`.
    pub fn advance(&mut self, ok: bool)
        requires
            old(self).wf(),
        ensures
            final(self).wf(),
            final(self).files == old(self).files,
            final(self).phase == step_phase(old(self).phase, old(self).files@.len() as nat, ok),
    {
        let len = self.files.len();
        self.phase = match self.phase {
            Phase::Pushing { next } => {
                if !ok {
                    Phase::CleaningUp {
                        pending: Some(RunError::SubprocessFailed { step: Step::Push }),
                    }
                } else if next + 1 < len {
                    Phase::Pushing { next: next + 1 }
                } else {
                    Phase::Running
                }
            },
            Phase::Running => Phase::CleaningUp {
                pending: if ok {
                    None
                } else {
                    Some(RunError::SubprocessFailed { step: Step::Run })
                },
            },
            Phase::CleaningUp { pending } => Phase::Finished {
                report: Report {
                    failure: pending,
                    cleanup: if ok {
                        None
                    } else {
                        Some(RunError::SubprocessFailed { step: Step::Cleanup })
                    },
                },
            },
            Phase::Finished { report } => Phase::Finished { report },
        };
    }
}

/// The phases a deployment of `len` files passes through on the step
/// outcomes `evs`, starting at the first push; one entry per phase
/// visited, in order.
pub open spec fn phase_trace(len: nat, evs: Seq<bool>) -> Seq<Phase>
    decreases evs.len(),
{
    if evs.len() == 0 {
        seq![Phase::Pushing { next: 0usize }]
    } else {
        let t = phase_trace(len, evs.drop_last());
        t.push(step_phase(t.last(), len, evs.last()))
    }
}

/// Law: the cleanup step cannot be skipped. Whatever the step outcomes,
/// a deployment that has finished passed through the cleanup phase, in
/// which the action owed is clearing the staging directory.
pub proof fn lemma_cleanup_always_runs(len: nat, evs: Seq<bool>)
    requires
        phase_trace(len, evs).last() is Finished,
    ensures
        exists|k: int|
            0 <= k < phase_trace(len, evs).len() && phase_trace(len, evs)[k] is CleaningUp
                && phase_action(phase_trace(len, evs)[k]) == Action::RemoveAll,
    decreases evs.len(),
{
    let t = phase_trace(len, evs);
    if evs.len() == 0 {
        assert(t.last() is Pushing);
    } else {
        let prev = phase_trace(len, evs.drop_last());
        if prev.last() is CleaningUp {
            assert(t[t.len() - 2] is CleaningUp);
        } else {
            assert(prev.last() is Finished);
            lemma_cleanup_always_runs(len, evs.drop_last());
            let k = choose|k: int| 0 <= k < prev.len() && prev[k] is CleaningUp;
            assert(t[k] is CleaningUp);
        }
    }
}

/// Law: a failure of the cleanup step is reported beside, not in place
/// of, the failure it inherited from the push and run steps: the report
/// keeps the earlier failure in its own field and records the cleanup
/// failure under the cleanup step.
pub proof fn lemma_cleanup_failure_distinct(len: nat, pending: Option<RunError>)
    ensures
        step_phase((Phase::CleaningUp { pending }), len, false) matches Phase::Finished {
            report,
        } && report.failure == pending && report.cleanup == Some(
            (RunError::SubprocessFailed { step: Step::Cleanup }),
        ),
{
}

} // verus!
