//! The pipeline: an ordered chain of commands and its execution state
//! machine.
//!
//! A `CommandPipe` starts out building: commands may be appended, in the
//! order they are to run and to pass data. A run is then driven against an
//! external process launcher: `begin_spawn` enters the running state,
//! `next_launch` hands out one launch request per stage, in order, and the
//! driver reports back with `note_launched`, `launch_failed`,
//! `missing_stdout`, `wait_failed` and `complete`. Once complete, the
//! pipeline holds exactly one `Output` — the terminal stage's exit code and
//! captured streams — and `output` returns that same snapshot on every call.
//!
//! The wiring rule of the spawn protocol: a stage's process must be created
//! before anyone blocks waiting on an earlier stage, or a full OS pipe
//! buffer deadlocks the chain. The state machine enforces it: `wait_failed`
//! and `complete`, the two transitions fed by waiting, demand that every
//! stage has already been launched.

use vstd::prelude::*;

use crate::cmd::Command;
use crate::error::APipeError;
use crate::output::Output;
use crate::tokenizer::{lemma_find_from_is, segments_from, spec_segments, spec_tokens};

verus! {

/// Where a stage's standard input comes from: closed for the first stage,
/// the previous stage's standard output for every later one.
#[derive(Debug, Clone, Copy, PartialEq, Eq)]
pub enum StdinWiring {
    Closed,
    FromPreviousStage,
}

/// Everything the external launcher needs to create one stage's process.
pub struct LaunchRequest {
    /// The program to run.
    pub program: String,
    /// Its arguments, in order.
    pub args: Vec<String>,
    /// Where its standard input comes from.
    pub stdin: StdinWiring,
    /// Whether its standard output goes to a fresh pipe endpoint. Every
    /// stage's does: downstream reads it, or, at the terminal stage, it is
    /// drained into the `Output`.
    pub capture_stdout: bool,
    /// Whether its standard error goes to a fresh pipe endpoint. Only the
    /// terminal stage's does; the others inherit the caller's.
    pub capture_stderr: bool,
}

/// The phases of a pipeline's life.
enum RunState {
    Building,
    Running { launched: usize },
    Completed { result: Output },
    Failed { error: APipeError },
}

/// An anonymous pipe: an ordered chain of commands, and the state of the
/// one run it can make.
pub struct CommandPipe {
    commands: Vec<Command>,
    state: RunState,
}

impl CommandPipe {
    /// The commands, in execution and data-flow order.
    pub closed spec fn commands(&self) -> Seq<Command> {
        self.commands@
    }

    /// Still building: no run has begun.
    pub closed spec fn building(&self) -> bool {
        self.state is Building
    }

    /// A run has begun and is not finished.
    pub closed spec fn running(&self) -> bool {
        self.state is Running
    }

    /// How many stages of the current run have been launched.
    pub closed spec fn launched(&self) -> nat {
        self.state->launched as nat
    }

    /// The one run has finished and an output snapshot is held.
    pub closed spec fn completed(&self) -> bool {
        self.state is Completed
    }

    /// The snapshot a completed run realized.
    pub closed spec fn result(&self) -> Output {
        self.state->result
    }

    /// The one run failed.
    pub closed spec fn failed(&self) -> bool {
        self.state is Failed
    }

    /// What a failed run reported.
    pub closed spec fn error(&self) -> APipeError {
        self.state->error
    }

    /// The pipeline's internal consistency: every command is well formed;
    /// while running, no more stages have been launched than exist, and
    /// only a non-empty chain runs.
    pub closed spec fn wf(&self) -> bool {
        &&& (self.state matches RunState::Running { launched } ==> launched
            <= self.commands@.len() && self.commands@.len() > 0)
        &&& (forall|k: int| 0 <= k < self.commands@.len() ==> self.commands@[k].wf())
    }

    /// A new, empty pipeline.
    pub fn new() -> (r: CommandPipe)
        ensures
            r.wf(),
            r.building(),
            r.commands().len() == 0,
    {
        CommandPipe { commands: Vec::new(), state: RunState::Building }
    }

    /// The two-stage pipeline `first | second`.
    pub fn from_pair(first: Command, second: Command) -> (r: CommandPipe)
        requires
            first.wf(),
            second.wf(),
        ensures
            r.wf(),
            r.building(),
            r.commands().len() == 2,
            r.commands()[0] == first,
            r.commands()[1] == second,
    {
        CommandPipe::new().pipe(first).pipe(second)
    }

    /// This pipeline extended by one command at the downstream end.
    pub fn pipe(self, next: Command) -> (r: CommandPipe)
        requires
            self.wf(),
            self.building(),
            next.wf(),
        ensures
            r.wf(),
            r.building(),
            r.commands() == self.commands().push(next),
    {
        let mut this = self;
        this.commands.push(next);
        this
    }

    /// Appends a command with no arguments yet.
    pub fn add_command(self, program: &str) -> (r: CommandPipe)
        requires
            self.wf(),
            self.building(),
            program@.len() > 0,
        ensures
            r.wf(),
            r.building(),
            r.commands().len() == self.commands().len() + 1,
            forall|k: int| 0 <= k < self.commands().len() ==> r.commands()[k]
                == self.commands()[k],
            r.commands().last().program_spec() == program@,
            r.commands().last().args_spec().len() == 0,
    {
        let mut this = self;
        this.commands.push(Command::new(program));
        this
    }

    /// Appends one argument to the pipeline's last command. A pipeline with
    /// no command yet has nothing to append to, which is a usage error.
    pub fn arg(self, value: &str) -> (r: Result<CommandPipe, APipeError>)
        requires
            self.wf(),
            self.building(),
        ensures
            self.commands().len() == 0 <==> r is Err,
            r matches Err(e) ==> e == APipeError::EmptyPipe,
            r matches Ok(p) ==> {
                &&& p.wf()
                &&& p.building()
                &&& p.commands().len() == self.commands().len()
                &&& (forall|k: int| 0 <= k < self.commands().len() - 1 ==> p.commands()[k]
                    == self.commands()[k])
                &&& p.commands().last().program_spec()
                    == self.commands().last().program_spec()
                &&& p.commands().last().args_spec() == self.commands().last().args_spec().push(
                    value@,
                )
            },
    {
        let mut this = self;
        match this.commands.pop() {
            None => Err(APipeError::EmptyPipe),
            Some(last) => {
                let grown = last.arg(value);
                this.commands.push(grown);
                Ok(this)
            },
        }
    }

    /// Appends every given argument, in order, to the pipeline's last
    /// command. A pipeline with no command yet has nothing to append to,
    /// which is a usage error.
    pub fn args(self, values: &Vec<String>) -> (r: Result<CommandPipe, APipeError>)
        requires
            self.wf(),
            self.building(),
        ensures
            self.commands().len() == 0 <==> r is Err,
            r matches Err(e) ==> e == APipeError::EmptyPipe,
            r matches Ok(p) ==> {
                &&& p.wf()
                &&& p.building()
                &&& p.commands().len() == self.commands().len()
                &&& (forall|k: int| 0 <= k < self.commands().len() - 1 ==> p.commands()[k]
                    == self.commands()[k])
                &&& p.commands().last().program_spec()
                    == self.commands().last().program_spec()
                &&& p.commands().last().args_spec() == self.commands().last().args_spec()
                    + values.deep_view()
            },
    {
        let mut this = self;
        match this.commands.pop() {
            None => Err(APipeError::EmptyPipe),
            Some(last) => {
                let grown = last.args(values);
                this.commands.push(grown);
                Ok(this)
            },
        }
    }

    /// Parses a whole pipeline line: the line is split on every `|`, each
    /// span is parsed as one command, and any span with no token — empty or
    /// blank space between two separators — fails the whole parse with the
    /// first such span's error.
    pub fn try_from(line: &str) -> (r: Result<CommandPipe, APipeError>)
        ensures
            r is Ok <==> (forall|k: int|
                0 <= k < spec_segments(line@).len() ==> spec_tokens(
                    #[trigger] spec_segments(line@)[k],
                ).len() > 0),
            r matches Ok(p) ==> {
                &&& p.wf()
                &&& p.building()
                &&& p.commands().len() == spec_segments(line@).len()
                &&& (forall|k: int|
                    0 <= k < spec_segments(line@).len() ==> p.commands()[k].parses(
                        #[trigger] spec_segments(line@)[k],
                    ))
            },
            r matches Err(e) ==> (exists|k: int|
                {
                    &&& 0 <= k < spec_segments(line@).len()
                    &&& spec_tokens(#[trigger] spec_segments(line@)[k]).len() == 0
                    &&& (forall|l: int|
                        0 <= l < k ==> spec_tokens(spec_segments(line@)[l]).len() > 0)
                    &&& (e matches APipeError::MissingCommand(m) && m@ == spec_segments(
                        line@,
                    )[k])
                }),
    {
        let n = line.unicode_len();
        let ghost segs = spec_segments(line@);
        let mut cmds: Vec<Command> = Vec::new();
        let mut i: usize = 0;
        let ghost mut tail_done = false;
        while i < n
            invariant
                n == line@.len(),
                i <= n,
                segs == spec_segments(line@),
                cmds@.len() <= segs.len(),
                forall|k: int| 0 <= k < cmds@.len() ==> cmds@[k].parses(#[trigger] segs[k]),
                forall|k: int| 0 <= k < cmds@.len() ==> (#[trigger] cmds@[k]).wf(),
                !tail_done ==> segments_from(line@, i as int) == segs.skip(cmds@.len() as int),
                tail_done ==> i == n && cmds@.len() == segs.len(),
            decreases n - i,
        {
            let mut j = i;
            while j < n && line.get_char(j) != '|'
                invariant
                    n == line@.len(),
                    i <= j <= n,
                    forall|k: int| i <= k < j ==> line@[k] != '|',
                decreases n - j,
            {
                j = j + 1;
            }
            proof {
                lemma_find_from_is(line@, '|', i as int, j as int);
            }
            let ghost done = cmds@.len() as int;
            proof {
                assert(segs.skip(done)[0] == segs[done]);
                if j < n {
                    assert(segments_from(line@, i as int) == seq![
                        line@.subrange(i as int, j as int),
                    ] + segments_from(line@, j + 1));
                } else {
                    assert(segments_from(line@, i as int) == seq![
                        line@.subrange(i as int, n as int),
                    ]);
                }
                assert(segs[done] == line@.subrange(i as int, j as int));
            }
            let seg = line.substring_char(i, j);
            match Command::parse_str(seg) {
                Ok(c) => {
                    cmds.push(c);
                },
                Err(e) => {
                    proof {
                        assert(spec_tokens(spec_segments(line@)[done]).len() == 0);
                    }
                    return Err(e);
                },
            }
            if j < n {
                proof {
                    assert(segs.skip(done + 1) =~= segs.skip(done).drop_first());
                    assert(segments_from(line@, j + 1) =~= segs.skip(done).drop_first());
                }
                i = j + 1;
            } else {
                proof {
                    assert(segs.skip(done).len() == 1);
                    tail_done = true;
                }
                i = n;
            }
        }
        proof {
            if !tail_done {
                assert(segments_from(line@, n as int).len() == 0);
                assert(cmds@.len() == segs.len());
            }
        }
        Ok(CommandPipe { commands: cmds, state: RunState::Building })
    }

    /// How many commands the pipeline holds.
    pub fn len(&self) -> (r: usize)
        ensures
            r == self.commands().len(),
    {
        self.commands.len()
    }

    /// Whether no run has begun.
    pub fn is_building(&self) -> (r: bool)
        ensures
            r == self.building(),
    {
        matches!(self.state, RunState::Building)
    }

    /// Whether a run is in progress.
    pub fn is_running(&self) -> (r: bool)
        ensures
            r == self.running(),
    {
        matches!(self.state, RunState::Running { .. })
    }

    /// Whether the run finished and a snapshot is held.
    pub fn is_completed(&self) -> (r: bool)
        ensures
            r == self.completed(),
    {
        matches!(self.state, RunState::Completed { .. })
    }

    /// Whether the run failed.
    pub fn is_failed(&self) -> (r: bool)
        ensures
            r == self.failed(),
    {
        matches!(self.state, RunState::Failed { .. })
    }

    /// How many stages of the current run have been launched.
    pub fn launched_count(&self) -> (r: usize)
        requires
            self.running(),
        ensures
            r == self.launched(),
    {
        match &self.state {
            RunState::Running { launched } => *launched,
            _ => 0,
        }
    }

    /// The command at the given position.
    pub fn get_command(&self, index: usize) -> (r: &Command)
        requires
            index < self.commands().len(),
        ensures
            *r == self.commands()[index as int],
    {
        &self.commands[index]
    }

    /// Starts the one run. A pipeline with no command refuses, reports the
    /// usage error, and stays as it was — in particular, it never hands out
    /// a launch request.
    pub fn begin_spawn(&mut self) -> (r: Result<(), APipeError>)
        requires
            old(self).wf(),
            old(self).building(),
        ensures
            final(self).wf(),
            spawn_transition(*old(self), *final(self), r),
    {
        if self.commands.len() == 0 {
            Err(APipeError::EmptyPipe)
        } else {
            self.state = RunState::Running { launched: 0 };
            Ok(())
        }
    }

    /// The launch request for the next stage to create, or nothing when
    /// every stage has been launched. The first stage reads from a closed
    /// standard input, every later one from its predecessor's standard
    /// output; every stage's standard output goes to a fresh pipe endpoint;
    /// only the terminal stage's standard error is captured.
    pub fn next_launch(&self) -> (r: Option<LaunchRequest>)
        requires
            self.wf(),
            self.running(),
        ensures
            r is Some <==> self.launched() < self.commands().len(),
            r matches Some(q) ==> describes_stage(q, *self, self.launched() as int),
    {
        let index = self.launched_count();
        if index < self.commands.len() {
            let command = &self.commands[index];
            Some(
                LaunchRequest {
                    program: command.get_program().clone(),
                    args: duplicate_strings(command.get_args()),
                    stdin: if index == 0 {
                        StdinWiring::Closed
                    } else {
                        StdinWiring::FromPreviousStage
                    },
                    capture_stdout: true,
                    capture_stderr: index == self.commands.len() - 1,
                },
            )
        } else {
            None
        }
    }

    /// Records that the launcher created the current stage's process.
    pub fn note_launched(&mut self)
        requires
            old(self).wf(),
            old(self).running(),
            old(self).launched() < old(self).commands().len(),
        ensures
            final(self).wf(),
            final(self).running(),
            final(self).commands() == old(self).commands(),
            final(self).launched() == old(self).launched() + 1,
    {
        let index = self.launched_count();
        let total = self.commands.len();
        proof {
            assert(index < total);
        }
        self.state = RunState::Running { launched: index + 1 };
    }

    /// Records that the launcher could not create the current stage's
    /// process. The run fails; stages after the current one are never
    /// requested, while already-created processes are the driver's to
    /// finish.
    pub fn launch_failed(&mut self, reason: &str) -> (e: APipeError)
        requires
            old(self).wf(),
            old(self).running(),
            old(self).launched() < old(self).commands().len(),
        ensures
            final(self).wf(),
            final(self).failed(),
            final(self).commands() == old(self).commands(),
            final(self).error() == e,
            e matches APipeError::FailedExecution(m) && m@ == reason@,
    {
        let stored = APipeError::FailedExecution(reason.to_owned());
        let handed = stored.duplicate();
        self.state = RunState::Failed { error: stored };
        handed
    }

    /// Records that a stage past the first was to be wired and its
    /// predecessor had no standard-output endpoint to read. The wiring
    /// always requests one, so this is defended against rather than
    /// expected.
    pub fn missing_stdout(&mut self) -> (e: APipeError)
        requires
            old(self).wf(),
            old(self).running(),
            1 <= old(self).launched() < old(self).commands().len(),
        ensures
            final(self).wf(),
            final(self).failed(),
            final(self).commands() == old(self).commands(),
            final(self).error() == e,
            e == APipeError::NoStdout,
    {
        self.state = RunState::Failed { error: APipeError::NoStdout };
        APipeError::NoStdout
    }

    /// Records that a spawned stage could not be waited on. Waiting is
    /// allowed only once every stage has been launched; see the wiring rule
    /// above.
    pub fn wait_failed(&mut self, reason: &str) -> (e: APipeError)
        requires
            old(self).wf(),
            old(self).running(),
            old(self).launched() == old(self).commands().len(),
        ensures
            final(self).wf(),
            final(self).failed(),
            final(self).commands() == old(self).commands(),
            final(self).error() == e,
            e matches APipeError::TerminatedChildCommand(m) && m@ == reason@,
    {
        let stored = APipeError::TerminatedChildCommand(reason.to_owned());
        let handed = stored.duplicate();
        self.state = RunState::Failed { error: stored };
        handed
    }

    /// Completes the run with what was observed of the terminal stage: its
    /// exit code and the bytes drained from its standard output and
    /// standard error. Only allowed once every stage has been launched; see
    /// the wiring rule above.
    pub fn complete(&mut self, code: Option<i32>, stdout: Vec<u8>, stderr: Vec<u8>)
        requires
            old(self).wf(),
            old(self).running(),
            old(self).launched() == old(self).commands().len(),
        ensures
            final(self).wf(),
            run_completion(*old(self), *final(self), code, stdout@, stderr@),
    {
        self.state = RunState::Completed { result: Output::new(code, stdout, stderr) };
    }

    /// The realized output. Before any run it is a usage error — the
    /// empty-pipe one on an empty pipeline — and so it is while a run is
    /// still in progress; a failed run reports its stored error again. A
    /// completed pipeline hands out the one cached snapshot, unchanged, on
    /// every call: nothing is re-spawned or re-drained.
    pub fn output(&mut self) -> (r: Result<Output, APipeError>)
        requires
            old(self).wf(),
        ensures
            *final(self) == *old(self),
            final(self).wf(),
            output_obligation(*old(self), r),
    {
        match &self.state {
            RunState::Building => {
                if self.commands.len() == 0 {
                    Err(APipeError::EmptyPipe)
                } else {
                    Err(APipeError::NoRunningProcesses)
                }
            },
            RunState::Running { .. } => Err(APipeError::NoRunningProcesses),
            RunState::Completed { result } => Ok(result.duplicate()),
            RunState::Failed { error } => Err(error.duplicate()),
        }
    }
}

impl Default for CommandPipe {
    /// The same as `CommandPipe::new`: an empty pipeline, still building.
    fn default() -> (r: CommandPipe)
        ensures
            r.wf(),
            r.building(),
            r.commands().len() == 0,
    {
        CommandPipe::new()
    }
}

/// What `begin_spawn` does: an empty pipeline is refused unchanged with the
/// usage error; any other enters the running state with no stage launched
/// yet.
pub open spec fn spawn_transition(
    pre: CommandPipe,
    post: CommandPipe,
    r: Result<(), APipeError>,
) -> bool {
    &&& post.commands() == pre.commands()
    &&& (pre.commands().len() == 0 ==> post == pre && (r matches Err(e) && e
        == APipeError::EmptyPipe))
    &&& (pre.commands().len() > 0 ==> r is Ok && post.running() && post.launched() == 0)
}

/// The launch request `q` is the right one for stage `i` of pipeline `p`:
/// that stage's program and arguments, standard input closed exactly at the
/// first stage and wired to the predecessor everywhere else, standard
/// output always to a fresh pipe endpoint, standard error captured exactly
/// at the terminal stage.
pub open spec fn describes_stage(q: LaunchRequest, p: CommandPipe, i: int) -> bool {
    &&& q.program@ == p.commands()[i].program_spec()
    &&& q.args.deep_view() == p.commands()[i].args_spec()
    &&& (q.stdin is Closed <==> i == 0)
    &&& (q.stdin is FromPreviousStage <==> i != 0)
    &&& q.capture_stdout
    &&& (q.capture_stderr <==> i == p.commands().len() - 1)
}

/// What `complete` does: the pipeline moves to the completed state and its
/// one snapshot holds exactly the terminal stage's exit code and captured
/// bytes.
pub open spec fn run_completion(
    pre: CommandPipe,
    post: CommandPipe,
    code: Option<i32>,
    stdout: Seq<u8>,
    stderr: Seq<u8>,
) -> bool {
    &&& post.completed()
    &&& post.commands() == pre.commands()
    &&& post.result().code_spec() == code
    &&& post.result().stdout_spec() == stdout
    &&& post.result().stderr_spec() == stderr
}

/// What `output` returns, by state: the usage errors before and during a
/// run, the stored error after a failed run, and the one cached snapshot
/// after a completed run.
pub open spec fn output_obligation(p: CommandPipe, r: Result<Output, APipeError>) -> bool {
    &&& (p.building() && p.commands().len() == 0 ==> (r matches Err(e) && e
        == APipeError::EmptyPipe))
    &&& (p.building() && p.commands().len() > 0 ==> (r matches Err(e) && e
        == APipeError::NoRunningProcesses))
    &&& (p.running() ==> (r matches Err(e) && e == APipeError::NoRunningProcesses))
    &&& (p.failed() ==> (r matches Err(e) && e == p.error()))
    &&& (p.completed() ==> (r matches Ok(o) && o.agrees_with(p.result())))
}

/// Querying the output is idempotent. The pipeline is not changed by the
/// query, so this says: two results of `output` on one and the same
/// pipeline cannot be told apart — after a completed run, both are the very
/// same snapshot, byte for byte; otherwise, both are the very same error.
/// Nothing is re-spawned or re-drained by asking again.
pub proof fn lemma_output_idempotent(
    p: CommandPipe,
    r1: Result<Output, APipeError>,
    r2: Result<Output, APipeError>,
)
    requires
        p.wf(),
        output_obligation(p, r1),
        output_obligation(p, r2),
    ensures
        r1 is Ok <==> r2 is Ok,
        r1 matches Ok(o1) ==> (r2 matches Ok(o2) && o1.agrees_with(o2)),
        r1 matches Err(e1) ==> (r2 matches Err(e2) && e1 == e2),
{
}

/// However many stages a completed run had, it realizes exactly one
/// snapshot, and querying the output yields it: the terminal stage's exit
/// code and captured streams, and nothing of any earlier stage.
pub proof fn lemma_output_reflects_terminal_stage(
    pre: CommandPipe,
    post: CommandPipe,
    code: Option<i32>,
    stdout: Seq<u8>,
    stderr: Seq<u8>,
    r: Result<Output, APipeError>,
)
    requires
        post.wf(),
        run_completion(pre, post, code, stdout, stderr),
        output_obligation(post, r),
    ensures
        r matches Ok(o) && o.code_spec() == code && o.stdout_spec() == stdout
            && o.stderr_spec() == stderr,
{
}

/// A pipeline with no commands does no work: starting its run fails with
/// the usage error and leaves it exactly as it was, still building — so it
/// never reaches the running state, and no launch request is ever handed
/// out for it.
pub proof fn lemma_empty_pipe_spawns_nothing(
    pre: CommandPipe,
    post: CommandPipe,
    r: Result<(), APipeError>,
)
    requires
        pre.wf(),
        pre.building(),
        pre.commands().len() == 0,
        spawn_transition(pre, post, r),
    ensures
        r matches Err(e) && e == APipeError::EmptyPipe,
        post == pre,
        !post.running(),
{
}

/// One string vector, copied element for element.
fn duplicate_strings(v: &Vec<String>) -> (r: Vec<String>)
    ensures
        r@ == v@,
{
    let mut r: Vec<String> = Vec::new();
    let mut k: usize = 0;
    while k < v.len()
        invariant
            k <= v.len(),
            r@ == v@.take(k as int),
        decreases v.len() - k,
    {
        r.push(v[k].clone());
        proof {
            assert(r@ =~= v@.take(k + 1));
        }
        k = k + 1;
    }
    proof {
        assert(v@.take(v@.len() as int) =~= v@);
    }
    r
}

} // verus!
