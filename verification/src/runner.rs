//! The process runner: the external tool's command name, the working
//! directory that receives generated artifacts, and the exact command lines
//! of the three input flows.
//!
//! The runner does not spawn anything itself. It prepares a [`RenderJob`]
//! that fixes the full argument vector, the payload to stream over standard
//! input, and the output path; the embedding executes it and reports a
//! [`ProcessOutcome`] back, which [`RenderJob::conclude`] maps to the final
//! result.

use vstd::prelude::*;

use crate::app::WkhtmlError;

verus! {

/// The ghost state of a [`Core`].
pub ghost struct CoreView {
    pub cmd: Seq<char>,
    pub work_dir: Seq<char>,
    pub debug: bool,
}

/// The process runner: one external command, one working directory, and the
/// verbosity toggle that decides whether the URL flow captures standard
/// error.
#[derive(Debug, Clone)]
pub struct Core {
    cmd: String,
    work_dir: String,
    debug: bool,
}

impl View for Core {
    type V = CoreView;

    closed spec fn view(&self) -> CoreView {
        CoreView { cmd: self.cmd@, work_dir: self.work_dir@, debug: self.debug }
    }
}

/// How one invocation of the external process ended, as the embedding
/// observed it: the process could not be started at all, its standard input
/// could not be written in full, or it exited, successfully or not, with the
/// standard-error text that was captured.
#[derive(Debug, Clone)]
pub enum ProcessOutcome {
    SpawnFailed(String),
    StdinFailed(String),
    Exited { success: bool, stderr: String },
}

/// One fully prepared invocation of the external tool.
#[derive(Debug, Clone)]
pub struct RenderJob {
    /// The command to execute.
    pub program: String,
    /// Every argument after the command name, ending with the output path.
    pub args: Vec<String>,
    /// The markup to stream over standard input, for the inline-HTML flow.
    pub stdin_payload: Option<String>,
    /// Whether standard error is to be captured rather than inherited.
    pub capture_stderr: bool,
    /// Where the external tool is told to place the artifact.
    pub output_path: String,
}

/// The fixed message of a failed bootstrap probe; it names the missing tool
/// and nothing of the underlying cause.
pub open spec fn spec_tool_missing_msg(cmd: Seq<char>) -> Seq<char> {
    cmd + " not found, please make sure you have installed it"@
}

/// The message of a rejected working-directory change.
pub open spec fn spec_work_dir_msg(dir: Seq<char>) -> Seq<char> {
    "Failed to create work directory: "@ + dir
}

/// The working directory a fresh runner starts with.
pub open spec fn spec_default_work_dir() -> Seq<char> {
    "/tmp/wkhtmlapp"@
}

/// An artifact path: `dir/` followed by the fresh identifier, a hyphen, and
/// the file name.
pub open spec fn spec_output_path(dir: Seq<char>, id: Seq<char>, name: Seq<char>) -> Seq<char> {
    dir + "/"@ + id + "-"@ + name
}

/// Holds when `path` is an artifact path under `dir` for the file `name`,
/// with some fresh identifier of the fixed width in the middle.
pub open spec fn spec_fresh_output(dir: Seq<char>, name: Seq<char>, path: Seq<char>) -> bool {
    exists|id: Seq<char>| id.len() == 36 && path == spec_output_path(dir, id, name)
}

/// Relies on `uuid::Uuid::new_v4` and the `Display` form of `uuid::Uuid`:
/// the hyphenated text of a freshly drawn random version-4 UUID, which is
/// always 36 characters long. Nothing is assumed about which identifier
/// comes back, only its width.
#[verifier::external_body]
fn fresh_token() -> (r: String)
    ensures
        r@.len() == 36,
{
    uuid::Uuid::new_v4().to_string()
}

/// An artifact path under `dir` for the file `name`.
fn output_path(dir: &str, id: &str, name: &str) -> (r: String)
    ensures
        r@ == spec_output_path(dir@, id@, name@),
{
    String::from_str(dir).concat("/").concat(id).concat("-").concat(name)
}

/// An artifact path begins with the working directory and the `/` separator
/// and ends with the file name: a successful rendering of `name` under
/// `dir` hands back a path under `dir` whose last characters are `name`,
/// extension included.
pub proof fn lemma_fresh_output_shape(dir: Seq<char>, name: Seq<char>, path: Seq<char>)
    requires
        spec_fresh_output(dir, name, path),
    ensures
        path.len() == dir.len() + 38 + name.len(),
        path.subrange(0, dir.len() as int + 1) == dir + "/"@,
        path.subrange(dir.len() as int + 37, path.len() as int) == "-"@ + name,
{
    let id = choose|id: Seq<char>|
        id.len() == 36 && path == spec_output_path(dir, id, name);
    reveal_strlit("/");
    reveal_strlit("-");
    assert(path.subrange(0, dir.len() as int + 1) =~= dir + "/"@);
    assert(path.subrange(dir.len() as int + 37, path.len() as int) =~= "-"@ + name);
}

/// Distinct fresh identifiers of the shared fixed width give distinct
/// artifact paths under one working directory, whatever the file names: two
/// invocations can collide only by drawing the same identifier.
pub proof fn lemma_output_paths_distinct(
    dir: Seq<char>,
    id1: Seq<char>,
    id2: Seq<char>,
    n1: Seq<char>,
    n2: Seq<char>,
)
    requires
        id1.len() == id2.len(),
        id1 != id2,
    ensures
        spec_output_path(dir, id1, n1) != spec_output_path(dir, id2, n2),
{
    let p1 = spec_output_path(dir, id1, n1);
    let p2 = spec_output_path(dir, id2, n2);
    if p1 == p2 {
        assert(!(id1 =~= id2));
        let i = choose|i: int| !(0 <= i < id1.len() ==> id1[i] == id2[i]);
        reveal_strlit("/");
        reveal_strlit("-");
        let j = dir.len() + 1 + i;
        assert(p1[j] == id1[i]);
        assert(p2[j] == id2[i]);
        assert(false);
    }
}

impl Core {
    /// A runner for `cmd` that has not been probed: the command is taken on
    /// the caller's word. The bootstrap path of the embedding goes through
    /// [`Core::new`] instead, handing it the outcome of a version probe.
    pub fn with_cmd(cmd: &str) -> (r: Core)
        ensures
            r@ == (CoreView { cmd: cmd@, work_dir: spec_default_work_dir(), debug: false }),
    {
        Core {
            cmd: String::from_str(cmd),
            work_dir: String::from_str("/tmp/wkhtmlapp"),
            debug: false,
        }
    }

    /// Bootstraps a runner for `cmd`. `probe` is how an invocation of the
    /// tool's version query ended; anything short of a successful exit
    /// refuses construction with the fixed tool-missing message, whatever
    /// the underlying error text was.
    pub fn new(cmd: &str, probe: &ProcessOutcome) -> (r: Result<Core, WkhtmlError>)
        ensures
            (probe matches ProcessOutcome::Exited { success: true, .. }) ==> (r matches Ok(c)
                && c@ == (CoreView {
                cmd: cmd@,
                work_dir: spec_default_work_dir(),
                debug: false,
            })),
            !(probe matches ProcessOutcome::Exited { success: true, .. }) ==> (r matches Err(e)
                && e matches WkhtmlError::ServiceErr(m) && m@ == spec_tool_missing_msg(cmd@)),
    {
        match probe {
            ProcessOutcome::Exited { success: true, .. } => Ok(Core::with_cmd(cmd)),
            _ => Err(
                WkhtmlError::ServiceErr(
                    String::from_str(cmd).concat(
                        " not found, please make sure you have installed it",
                    ),
                ),
            ),
        }
    }

    /// Turns the verbosity toggle on or off. With `debug` on, the URL flow
    /// leaves standard error uncaptured.
    pub fn set_debug(&mut self, debug: bool)
        ensures
            final(self)@ == (CoreView { debug, ..old(self)@ }),
    {
        self.debug = debug;
    }

    /// Points the runner at `work_dir` for subsequent invocations. `ready`
    /// is the embedding's report on whether the directory exists or could be
    /// created; when it is false the change is refused with a service error
    /// and the previous working directory stays in effect.
    pub fn set_work_dir(&mut self, work_dir: &str, ready: bool) -> (r: Result<(), WkhtmlError>)
        ensures
            ready ==> (r matches Ok(())) && final(self)@ == (CoreView {
                work_dir: work_dir@,
                ..old(self)@
            }),
            !ready ==> (r matches Err(e) && e matches WkhtmlError::ServiceErr(m) && m@
                == spec_work_dir_msg(work_dir@)) && *final(self) == *old(self),
    {
        if ready {
            self.work_dir = String::from_str(work_dir);
            Ok(())
        } else {
            Err(
                WkhtmlError::ServiceErr(
                    String::from_str("Failed to create work directory: ").concat(work_dir),
                ),
            )
        }
    }

    /// The file flow: the flags, then the input path, then a fresh output
    /// path; nothing on standard input; standard error captured.
    pub fn prepare_file(&self, path: &str, name: &str, flags: Vec<String>) -> (job: RenderJob)
        ensures
            job.program@ == self@.cmd,
            job.args.deep_view() == flags.deep_view().push(path@).push(job.output_path@),
            job.stdin_payload is None,
            job.capture_stderr == true,
            spec_fresh_output(self@.work_dir, name@, job.output_path@),
    {
        let out = self.fresh_output(name);
        let mut args = flags;
        args.push(String::from_str(path));
        args.push(out.clone());
        proof {
            assert(args.deep_view() =~= flags.deep_view().push(path@).push(out@));
        }
        RenderJob {
            program: self.cmd.clone(),
            args,
            stdin_payload: None,
            capture_stderr: true,
            output_path: out,
        }
    }

    /// The URL flow: as the file flow, with the address in the input
    /// position; standard error is captured only while the verbosity toggle
    /// is off.
    pub fn prepare_url(&self, url: &str, name: &str, flags: Vec<String>) -> (job: RenderJob)
        ensures
            job.program@ == self@.cmd,
            job.args.deep_view() == flags.deep_view().push(url@).push(job.output_path@),
            job.stdin_payload is None,
            job.capture_stderr == !self@.debug,
            spec_fresh_output(self@.work_dir, name@, job.output_path@),
    {
        let out = self.fresh_output(name);
        let mut args = flags;
        args.push(String::from_str(url));
        args.push(out.clone());
        proof {
            assert(args.deep_view() =~= flags.deep_view().push(url@).push(out@));
        }
        RenderJob {
            program: self.cmd.clone(),
            args,
            stdin_payload: None,
            capture_stderr: !self.debug,
            output_path: out,
        }
    }

    /// The inline-HTML flow: the input position holds the tool's `-` marker
    /// for reading from standard input, and the markup itself is carried as
    /// the payload to stream; standard error captured.
    pub fn prepare_html(&self, html: &str, name: &str, flags: Vec<String>) -> (job: RenderJob)
        ensures
            job.program@ == self@.cmd,
            job.args.deep_view() == flags.deep_view().push("-"@).push(job.output_path@),
            job.stdin_payload matches Some(p) && p@ == html@,
            job.capture_stderr == true,
            spec_fresh_output(self@.work_dir, name@, job.output_path@),
    {
        let out = self.fresh_output(name);
        let mut args = flags;
        args.push(String::from_str("-"));
        args.push(out.clone());
        proof {
            assert(args.deep_view() =~= flags.deep_view().push("-"@).push(out@));
        }
        RenderJob {
            program: self.cmd.clone(),
            args,
            stdin_payload: Some(String::from_str(html)),
            capture_stderr: true,
            output_path: out,
        }
    }

    /// A fresh artifact path for `name` under the working directory.
    fn fresh_output(&self, name: &str) -> (r: String)
        ensures
            spec_fresh_output(self@.work_dir, name@, r@),
    {
        let token = fresh_token();
        let out = output_path(self.work_dir.as_str(), token.as_str(), name);
        proof {
            assert(out@ == spec_output_path(self@.work_dir, token@, name@));
        }
        out
    }
}

impl RenderJob {
    /// Maps how the prepared invocation ended to its outcome: a successful
    /// exit yields the output path (whose existence is not independently
    /// verified); every failure is a rendering error, carrying the captured
    /// standard-error text verbatim for a failed exit.
    pub fn conclude(self, outcome: &ProcessOutcome) -> (r: Result<String, WkhtmlError>)
        ensures
            (outcome matches ProcessOutcome::Exited { success: true, .. }) ==> (r matches Ok(p)
                && p@ == self.output_path@),
            (outcome matches ProcessOutcome::Exited { success: false, stderr } ==> (r matches Err(e)
                && e matches WkhtmlError::RenderingErr(m) && m@ == stderr@)),
            (outcome matches ProcessOutcome::SpawnFailed(t) ==> (r matches Err(e) && e matches
                WkhtmlError::RenderingErr(m) && m@ == "Failed to start rendering process: "@ + t@)),
            (outcome matches ProcessOutcome::StdinFailed(t) ==> (r matches Err(e) && e matches
                WkhtmlError::RenderingErr(m) && m@ == "Failed to write rendering input: "@ + t@)),
    {
        match outcome {
            ProcessOutcome::Exited { success: true, .. } => Ok(self.output_path),
            ProcessOutcome::Exited { success: false, stderr } => Err(
                WkhtmlError::RenderingErr(stderr.clone()),
            ),
            ProcessOutcome::SpawnFailed(t) => Err(
                WkhtmlError::RenderingErr(
                    String::from_str("Failed to start rendering process: ").concat(t.as_str()),
                ),
            ),
            ProcessOutcome::StdinFailed(t) => Err(
                WkhtmlError::RenderingErr(
                    String::from_str("Failed to write rendering input: ").concat(t.as_str()),
                ),
            ),
        }
    }
}

} // verus!
