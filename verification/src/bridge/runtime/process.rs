//! Following the process of a runtime: how it is started, which of its
//! streams the handle still holds, and how it is brought to an end.
//!
//! The process itself belongs to the host. An operation that takes more than
//! one step on it is a [`ProcessTask`]: it names the next thing to do to the
//! process, takes the report of how that went, and so on until it is done.

use crate::bridge::env_keys;
use crate::bridge::error::BridgeError;
use crate::bridge::runtime::discovery::{
    args_view, executable_name_of, run_args_of, supports_typescript, RuntimeInfo, RuntimeType,
};
use vstd::prelude::*;

verus! {

/// How often a process that was asked to end is looked at before it is
/// killed.
pub const SHUTDOWN_POLLS: u32 = 50;

/// How long to wait between two looks at a process that was asked to end,
/// in milliseconds.
pub const SHUTDOWN_POLL_INTERVAL_MS: u64 = 100;

/// How long a bridge leaves its process to end by itself, in milliseconds.
pub const BRIDGE_GRACE_MS: u64 = 100;

/// What is to be started: the program, its arguments, and the environment
/// variables that are set for it, later ones over earlier ones.
#[derive(Debug)]
pub struct SpawnPlan {
    pub program: String,
    pub args: Vec<String>,
    pub env: Vec<(String, String)>,
}

/// The variables as pairs of texts.
pub open spec fn env_view(env: Seq<(String, String)>) -> Seq<(Seq<char>, Seq<char>)> {
    env.map_values(|p: (String, String)| (p.0@, p.1@))
}

/// The message for a runtime that could not be started.
pub open spec fn spawn_message(kind: RuntimeType, cause: Seq<char>) -> Seq<char> {
    "Failed to spawn "@ + executable_name_of(kind) + " process: "@ + cause
}

/// The message for a process whose streams could not be had.
pub open spec fn capture_message() -> Seq<char> {
    "Failed to capture stdin/stdout from child process"@
}

/// The message of a handle that has given its streams away.
pub open spec fn io_taken_message() -> Seq<char> {
    "无法从运行时进程获取 IO\n\n原因: stdin/stdout 可能已被取出\n\n解决方案: 检查 RuntimeProcess 的使用状态"@
}

/// How something that was done to the process went.
#[derive(Debug)]
pub enum ProcessReport {
    /// The process was looked at and is still running.
    StillRunning,
    /// It went well. Of a look at the process: it has ended.
    Finished,
    /// It failed, for the reason given.
    Failed(String),
}

/// Whether a look at the process found it running. A look that failed
/// counts as a process that has ended.
pub open spec fn reports_running(report: ProcessReport) -> bool {
    report is StillRunning
}

/// The next thing to do to the process.
#[derive(Debug, Clone, Copy, PartialEq, Eq, Structural)]
pub enum ProcessAction {
    /// Look whether it is still running, without waiting.
    Poll,
    /// Close its standard input, which tells it to end.
    CloseStdin,
    /// Let the given number of milliseconds pass.
    Sleep { ms: u64 },
    /// Kill it.
    Kill,
    /// Wait until it has ended, and take its exit status.
    Wait,
}

/// What a task is waiting for.
#[derive(Debug, Clone, Copy, PartialEq, Eq, Structural)]
pub enum TaskStage {
    /// A kill: the look at the process. `reap` says whether the process is
    /// waited for once more in the end.
    KillPoll { reap: bool },
    /// A kill: the kill itself.
    KillKill { reap: bool },
    /// A kill: the wait for the process to be gone.
    KillWait { reap: bool },
    /// The last wait, whose outcome is of no account.
    Reap,
    /// A shutdown: the first look at the process.
    FirstPoll,
    /// A shutdown: the closing of the standard input.
    Close,
    /// A shutdown: a look at the process, after `done` earlier ones.
    Poll { done: u32 },
    /// A shutdown: the pause after `done` looks.
    Pause { done: u32 },
    /// The shutdown of a bridge: the time that the process is left alone.
    Grace,
    /// The shutdown of a bridge: the look at the process.
    AlivePoll,
}

/// Where a task stands after a report.
pub enum TaskStep {
    /// It goes on, and waits for this.
    Next(TaskStage),
    /// It is done.
    Succeeded,
    /// It has failed, for the reason that the report gave.
    Errored,
}

/// What is done to the process at a stage.
pub open spec fn action_of(stage: TaskStage) -> ProcessAction {
    match stage {
        TaskStage::KillPoll { .. } => ProcessAction::Poll,
        TaskStage::KillKill { .. } => ProcessAction::Kill,
        TaskStage::KillWait { .. } => ProcessAction::Wait,
        TaskStage::Reap => ProcessAction::Wait,
        TaskStage::FirstPoll => ProcessAction::Poll,
        TaskStage::Close => ProcessAction::CloseStdin,
        TaskStage::Poll { .. } => ProcessAction::Poll,
        TaskStage::Pause { .. } => ProcessAction::Sleep { ms: SHUTDOWN_POLL_INTERVAL_MS },
        TaskStage::Grace => ProcessAction::Sleep { ms: BRIDGE_GRACE_MS },
        TaskStage::AlivePoll => ProcessAction::Poll,
    }
}

/// Where a task goes from a stage. `running` says whether the report was
/// that the process still runs, `failed` whether it was a failure.
///
/// A kill looks at the process first. One that has ended is left alone; one
/// that runs is killed and waited for, and a failure of either ends the task
/// with an error.
///
/// A shutdown looks first, too, and is done if the process has ended. Else
/// it closes the standard input and looks again, up to [`SHUTDOWN_POLLS`]
/// times with a pause after each look, and is done as soon as the process
/// has ended. After the last pause the process is killed and waited for.
///
/// A bridge leaves the process a moment and then looks. A process that
/// still runs is killed as above, and in the end waited for once more.
pub open spec fn step_of(stage: TaskStage, running: bool, failed: bool) -> TaskStep {
    match stage {
        TaskStage::KillPoll { reap } => if running {
            TaskStep::Next(TaskStage::KillKill { reap })
        } else if reap {
            TaskStep::Next(TaskStage::Reap)
        } else {
            TaskStep::Succeeded
        },
        TaskStage::KillKill { reap } => if failed {
            TaskStep::Errored
        } else {
            TaskStep::Next(TaskStage::KillWait { reap })
        },
        TaskStage::KillWait { reap } => if failed {
            TaskStep::Errored
        } else if reap {
            TaskStep::Next(TaskStage::Reap)
        } else {
            TaskStep::Succeeded
        },
        TaskStage::Reap => TaskStep::Succeeded,
        TaskStage::FirstPoll => if running {
            TaskStep::Next(TaskStage::Close)
        } else {
            TaskStep::Succeeded
        },
        TaskStage::Close => TaskStep::Next(TaskStage::Poll { done: 0 }),
        TaskStage::Poll { done } => if running {
            TaskStep::Next(TaskStage::Pause { done: if done < u32::MAX {
                (done + 1) as u32
            } else {
                done
            } })
        } else {
            TaskStep::Succeeded
        },
        TaskStage::Pause { done } => if done < SHUTDOWN_POLLS {
            TaskStep::Next(TaskStage::Poll { done })
        } else {
            TaskStep::Next(TaskStage::KillKill { reap: false })
        },
        TaskStage::Grace => TaskStep::Next(TaskStage::AlivePoll),
        TaskStage::AlivePoll => if running {
            TaskStep::Next(TaskStage::KillPoll { reap: true })
        } else {
            TaskStep::Succeeded
        },
    }
}

/// An operation on the process that is under way.
#[derive(Debug)]
pub struct ProcessTask {
    stage: TaskStage,
}

/// Where a task stands.
#[derive(Debug)]
pub enum TaskProgress {
    /// The host is to do [`ProcessTask::action`] and report how it went.
    Continue(ProcessTask),
    /// The task is over.
    Done(Result<(), BridgeError>),
}

impl ProcessTask {
    /// What the task is waiting for.
    pub closed spec fn stage(&self) -> TaskStage {
        self.stage
    }

    /// The task that kills the process, unless it has ended already.
    pub fn kill() -> (t: ProcessTask)
        ensures
            t.stage() == (TaskStage::KillPoll { reap: false }),
    {
        ProcessTask { stage: TaskStage::KillPoll { reap: false } }
    }

    /// The task that asks the process to end, and kills it if it does not.
    pub fn shutdown() -> (t: ProcessTask)
        ensures
            t.stage() == TaskStage::FirstPoll,
    {
        ProcessTask { stage: TaskStage::FirstPoll }
    }

    /// The task by which a bridge ends its process.
    pub fn bridge_shutdown() -> (t: ProcessTask)
        ensures
            t.stage() == TaskStage::Grace,
    {
        ProcessTask { stage: TaskStage::Grace }
    }

    /// What is to be done to the process now.
    pub fn action(&self) -> (a: ProcessAction)
        ensures
            a == action_of(self.stage()),
    {
        match self.stage {
            TaskStage::KillPoll { .. } => ProcessAction::Poll,
            TaskStage::KillKill { .. } => ProcessAction::Kill,
            TaskStage::KillWait { .. } => ProcessAction::Wait,
            TaskStage::Reap => ProcessAction::Wait,
            TaskStage::FirstPoll => ProcessAction::Poll,
            TaskStage::Close => ProcessAction::CloseStdin,
            TaskStage::Poll { .. } => ProcessAction::Poll,
            TaskStage::Pause { .. } => ProcessAction::Sleep { ms: SHUTDOWN_POLL_INTERVAL_MS },
            TaskStage::Grace => ProcessAction::Sleep { ms: BRIDGE_GRACE_MS },
            TaskStage::AlivePoll => ProcessAction::Poll,
        }
    }

    /// Goes on with the report of how the action went.
    pub fn advance(self, report: ProcessReport) -> (p: TaskProgress)
        ensures
            match step_of(self.stage(), reports_running(report), report is Failed) {
                TaskStep::Next(stage) => p matches TaskProgress::Continue(t) && t.stage() == stage,
                TaskStep::Succeeded => p matches TaskProgress::Done(Ok(_)),
                TaskStep::Errored => p matches TaskProgress::Done(
                    Err(BridgeError::IoError { context, source }),
                ) && context@ == "IO operation failed"@ && report == ProcessReport::Failed(source),
            },
    {
        let running = match report {
            ProcessReport::StillRunning => true,
            _ => false,
        };
        let next = match self.stage {
            TaskStage::KillPoll { reap } => if running {
                Some(TaskStage::KillKill { reap })
            } else if reap {
                Some(TaskStage::Reap)
            } else {
                None
            },
            TaskStage::KillKill { reap } => match report {
                ProcessReport::Failed(cause) => {
                    return TaskProgress::Done(Err(BridgeError::from_io(cause)));
                },
                _ => Some(TaskStage::KillWait { reap }),
            },
            TaskStage::KillWait { reap } => match report {
                ProcessReport::Failed(cause) => {
                    return TaskProgress::Done(Err(BridgeError::from_io(cause)));
                },
                _ => if reap {
                    Some(TaskStage::Reap)
                } else {
                    None
                },
            },
            TaskStage::Reap => None,
            TaskStage::FirstPoll => if running {
                Some(TaskStage::Close)
            } else {
                None
            },
            TaskStage::Close => Some(TaskStage::Poll { done: 0 }),
            TaskStage::Poll { done } => if running {
                Some(TaskStage::Pause { done: if done < u32::MAX {
                    done + 1
                } else {
                    done
                } })
            } else {
                None
            },
            TaskStage::Pause { done } => if done < SHUTDOWN_POLLS {
                Some(TaskStage::Poll { done })
            } else {
                Some(TaskStage::KillKill { reap: false })
            },
            TaskStage::Grace => Some(TaskStage::AlivePoll),
            TaskStage::AlivePoll => if running {
                Some(TaskStage::KillPoll { reap: true })
            } else {
                None
            },
        };
        match next {
            Some(stage) => TaskProgress::Continue(ProcessTask { stage }),
            None => TaskProgress::Done(Ok(())),
        }
    }
}

/// Killing a process that has ended does nothing to it and does not fail:
/// the task is over with the first look.
pub proof fn lemma_kill_of_ended_process(report: ProcessReport)
    requires
        !reports_running(report),
    ensures
        action_of(TaskStage::KillPoll { reap: false }) == ProcessAction::Poll,
        step_of(TaskStage::KillPoll { reap: false }, reports_running(report), report is Failed)
            is Succeeded,
{
}

/// Shutting down a process that has ended does nothing to it and does not
/// fail: the task is over with the first look.
pub proof fn lemma_shutdown_of_ended_process(report: ProcessReport)
    requires
        !reports_running(report),
    ensures
        action_of(TaskStage::FirstPoll) == ProcessAction::Poll,
        step_of(TaskStage::FirstPoll, reports_running(report), report is Failed) is Succeeded,
{
}

/// Shutting down a bridge whose process has ended, as it has after a first
/// shutdown, is a pause and a look and no more, and does not fail.
pub proof fn lemma_bridge_shutdown_of_ended_process(pause: ProcessReport, look: ProcessReport)
    requires
        !reports_running(look),
    ensures
        action_of(TaskStage::Grace) == (ProcessAction::Sleep { ms: BRIDGE_GRACE_MS }),
        step_of(TaskStage::Grace, reports_running(pause), pause is Failed) == TaskStep::Next(
            TaskStage::AlivePoll,
        ),
        action_of(TaskStage::AlivePoll) == ProcessAction::Poll,
        step_of(TaskStage::AlivePoll, reports_running(look), look is Failed) is Succeeded,
{
}

/// How many steps a task can still take from a stage, at most.
pub open spec fn steps_left(stage: TaskStage) -> nat {
    match stage {
        TaskStage::Reap => 1,
        TaskStage::KillWait { .. } => 2,
        TaskStage::KillKill { .. } => 3,
        TaskStage::KillPoll { .. } => 4,
        TaskStage::Pause { done } => if done <= SHUTDOWN_POLLS {
            (2 * (SHUTDOWN_POLLS - done) + 6) as nat
        } else {
            4
        },
        TaskStage::Poll { done } => if done < SHUTDOWN_POLLS {
            (2 * (SHUTDOWN_POLLS - done) + 5) as nat
        } else {
            5
        },
        TaskStage::Close => (2 * SHUTDOWN_POLLS + 6) as nat,
        TaskStage::FirstPoll => (2 * SHUTDOWN_POLLS + 7) as nat,
        TaskStage::AlivePoll => 5,
        TaskStage::Grace => 6,
    }
}

/// Every task comes to an end, whatever is reported: each step leaves
/// fewer steps to take.
pub proof fn lemma_task_ends(stage: TaskStage, running: bool, failed: bool)
    ensures
        step_of(stage, running, failed) matches TaskStep::Next(next) ==> steps_left(next)
            < steps_left(stage),
{
}

/// The handle of a runtime process: which runtime it runs, its process
/// identifier, and which of its streams the handle still holds.
#[derive(Debug)]
pub struct RuntimeProcess {
    runtime_info: RuntimeInfo,
    pid: u32,
    stdin: bool,
    stdout: bool,
}

impl RuntimeProcess {
    /// The runtime of the process.
    pub closed spec fn info(&self) -> RuntimeInfo {
        self.runtime_info
    }

    /// The process identifier.
    pub closed spec fn id(&self) -> u32 {
        self.pid
    }

    /// Whether the handle holds the standard input of the process.
    pub closed spec fn holds_stdin(&self) -> bool {
        self.stdin
    }

    /// Whether the handle holds the standard output of the process.
    pub closed spec fn holds_stdout(&self) -> bool {
        self.stdout
    }

    /// What to start for the script at `script_path`: the executable of the
    /// runtime with the arguments of [`RuntimeInfo::get_run_args`], in the
    /// environment `env` with one more variable, set last, that names the
    /// kind of the runtime.
    pub fn spawn_plan(runtime_info: &RuntimeInfo, script_path: &str, env: Vec<(String, String)>) -> (plan:
        SpawnPlan)
        ensures
            plan.program@ == runtime_info.path@,
            args_view(plan.args@) == run_args_of(runtime_info.runtime_type, false, script_path@)
                || (supports_typescript(runtime_info.runtime_type, runtime_info.version@)
                && args_view(plan.args@) == run_args_of(
                runtime_info.runtime_type,
                true,
                script_path@,
            )),
            env_view(plan.env@) == env_view(env@).push(
                (env_keys::RUNTIME@, executable_name_of(runtime_info.runtime_type)),
            ),
    {
        let args = runtime_info.get_run_args(script_path);
        let mut env = env;
        let ghost before = env@;
        let name = String::from_str(runtime_info.runtime_type.executable_name());
        env.push((String::from_str(env_keys::RUNTIME), name));
        assert(env_view(env@) == env_view(before).push(
            (env_keys::RUNTIME@, executable_name_of(runtime_info.runtime_type)),
        ));
        SpawnPlan { program: runtime_info.path.clone(), args, env }
    }

    /// The error for a runtime that could not be started.
    pub fn spawn_failed(runtime_type: RuntimeType, cause: &str) -> (e: BridgeError)
        ensures
            e matches BridgeError::Other(m) && m@ == spawn_message(runtime_type, cause@),
    {
        let mut m = String::from_str("Failed to spawn ");
        m.append(runtime_type.executable_name());
        m.append(" process: ");
        m.append(cause);
        BridgeError::Other(m)
    }

    /// The handle of a process that was started. It holds both streams of
    /// the process or there is no handle: where one of them could not be
    /// had the start has failed, and the process is to be killed.
    pub fn spawn(runtime_info: RuntimeInfo, pid: u32, stdin_captured: bool, stdout_captured: bool) -> (r:
        Result<RuntimeProcess, BridgeError>)
        ensures
            stdin_captured && stdout_captured ==> (r matches Ok(p) && p.info() == runtime_info
                && p.id() == pid && p.holds_stdin() && p.holds_stdout()),
            !(stdin_captured && stdout_captured) ==> (r matches Err(BridgeError::Other(m)) && m@
                == capture_message()),
    {
        if !stdin_captured || !stdout_captured {
            return Err(
                BridgeError::Other(
                    String::from_str("Failed to capture stdin/stdout from child process"),
                ),
            );
        }
        Ok(RuntimeProcess { runtime_info, pid, stdin: true, stdout: true })
    }

    /// The runtime of the process.
    pub fn runtime_info(&self) -> (info: &RuntimeInfo)
        ensures
            *info == self.info(),
    {
        &self.runtime_info
    }

    /// The process identifier.
    pub fn pid(&self) -> (pid: u32)
        ensures
            pid == self.id(),
    {
        self.pid
    }

    /// Whether a look at the process found it running.
    pub fn is_running(&self, report: &ProcessReport) -> (r: bool)
        ensures
            r == reports_running(*report),
    {
        match report {
            ProcessReport::StillRunning => true,
            _ => false,
        }
    }

    /// The same as [`RuntimeProcess::is_running`].
    pub fn is_alive(&self, report: &ProcessReport) -> (r: bool)
        ensures
            r == reports_running(*report),
    {
        self.is_running(report)
    }

    /// Gives both streams away, which works once: `true` if the handle held
    /// both. Afterwards it holds neither.
    pub fn take_io(&mut self) -> (taken: bool)
        ensures
            taken == (old(self).holds_stdin() && old(self).holds_stdout()),
            !final(self).holds_stdin(),
            !final(self).holds_stdout(),
            final(self).info() == old(self).info(),
            final(self).id() == old(self).id(),
    {
        let taken = self.stdin && self.stdout;
        self.stdin = false;
        self.stdout = false;
        taken
    }

    /// The error for streams that were asked for after they were given
    /// away.
    pub fn io_unavailable() -> (e: BridgeError)
        ensures
            e matches BridgeError::Other(m) && m@ == io_taken_message(),
    {
        BridgeError::Other(
            String::from_str(
                "无法从运行时进程获取 IO\n\n原因: stdin/stdout 可能已被取出\n\n解决方案: 检查 RuntimeProcess 的使用状态",
            ),
        )
    }

    /// Lets go of the standard input, as a shutdown does.
    pub fn close_stdin(&mut self)
        ensures
            !final(self).holds_stdin(),
            final(self).holds_stdout() == old(self).holds_stdout(),
            final(self).info() == old(self).info(),
            final(self).id() == old(self).id(),
    {
        self.stdin = false;
    }

    /// What is written to the process for `data`: the text and a line
    /// break. Nothing can be written once the handle has let go of the
    /// standard input.
    pub fn send(&self, data: &str) -> (r: Result<String, BridgeError>)
        ensures
            self.holds_stdin() ==> (r matches Ok(line) && line@ == data@ + "\n"@),
            !self.holds_stdin() ==> r matches Err(BridgeError::TransportClosed),
    {
        if self.stdin {
            let mut line = String::from_str(data);
            line.append("\n");
            Ok(line)
        } else {
            Err(BridgeError::TransportClosed)
        }
    }

    /// The task that asks the process to end, and kills it if it does not.
    pub fn shutdown(&self) -> (t: ProcessTask)
        ensures
            t.stage() == TaskStage::FirstPoll,
    {
        ProcessTask::shutdown()
    }

    /// The task that kills the process, unless it has ended already.
    pub fn kill(&self) -> (t: ProcessTask)
        ensures
            t.stage() == (TaskStage::KillPoll { reap: false }),
    {
        ProcessTask::kill()
    }
}

} // verus!
