//! One run of the control utility, with the detour over the privileged
//! helper where rights are missing. The run is a state machine: it names the
//! next action, and reacts to what came of it. Processes, sockets and sleep
//! are the caller's.

use vstd::prelude::*;
use vstd::string::*;
use crate::decimal::{decimal_digits, decimal_string};
use crate::error::{SerialError, SerialErrorView};
use crate::ipc::{
    AdminRequest, AdminRequestEnvelope, AdminRequestEnvelopeView, AdminRequestView,
    AdminResponse, AdminResponseView,
};
use crate::text::{
    ascii_lowercase, chars_of, contains, is_ascii, lowercase_of, str_contains, to_lowercase,
};

verus! {

/// How often the helper is tried after it was launched.
pub const CONNECT_RETRIES: u32 = 10;

/// The pause before each such try, in milliseconds.
pub const RETRY_PAUSE_MILLIS: u64 = 500;

/// Whether the text of a failed start says that the utility wants rights
/// that the caller lacks.
pub open spec fn needs_elevation(os_error: Seq<char>) -> bool {
    contains(os_error, "740"@) || contains(os_error, "requires elevation"@) || contains(
        os_error,
        "需要提升"@,
    )
}

/// Whether what a failed command printed says that access was denied: the
/// failure code, the word in any case of its letters, the words in the
/// other language, or the driver-update call together with the code.
/// `lower` is the lowercase form of `printed`.
pub open spec fn permission_marks(printed: Seq<char>, lower: Seq<char>) -> bool {
    ||| contains(printed, "failed 5"@)
    ||| contains(lower, "denied"@)
    ||| contains(printed, "拒绝访问"@)
    ||| (contains(printed, "UpdateDriverForPlugAndPlayDevices"@) && contains(printed, "5"@))
}

/// Whether what a failed command printed says that access was denied.
pub open spec fn is_permission_error(printed: Seq<char>) -> bool {
    permission_marks(printed, lowercase_of(printed))
}

/// What a failed command printed, standard output first.
pub open spec fn combined_output(stdout: Seq<char>, stderr: Seq<char>) -> Seq<char> {
    stdout + " "@ + stderr
}

pub fn text_needs_elevation(os_error: &str) -> (r: bool)
    ensures
        r == needs_elevation(os_error@),
{
    str_contains(os_error, "740") || str_contains(os_error, "requires elevation") || str_contains(
        os_error,
        "需要提升",
    )
}

/// Whether `printed`, whose lowercase form is `lower`, says that access
/// was denied.
pub fn text_has_permission_marks(printed: &str, lower: &str) -> (r: bool)
    ensures
        r == permission_marks(printed@, lower@),
{
    if str_contains(printed, "failed 5") {
        return true;
    }
    if str_contains(lower, "denied") {
        return true;
    }
    if str_contains(printed, "拒绝访问") {
        return true;
    }
    str_contains(printed, "UpdateDriverForPlugAndPlayDevices") && str_contains(printed, "5")
}

/// The single place where free text decides whether a failure is one of
/// missing rights. The text is also read in lowercase, which for a text in
/// ASCII characters is the text with its capitals made small letters.
pub fn text_is_permission_error(printed: &str) -> (r: bool)
    ensures
        r == is_permission_error(printed@),
        is_ascii(printed@) ==> r == permission_marks(printed@, ascii_lowercase(printed@)),
{
    let lower = to_lowercase(printed);
    text_has_permission_marks(printed, lower.as_str())
}

/// What a run waits for.
#[derive(Debug)]
pub enum RunPhase {
    /// The end of the utility, started without special rights.
    Running,
    /// The first try to reach the helper.
    Connecting,
    /// The launch of the helper.
    Launching,
    /// A further try to reach the helper; `retries_left` counts this one.
    Polling { retries_left: u32 },
    /// The helper's answer.
    Exchanging,
}

/// A run of the utility with `args` in the directory `cwd`, by the manager
/// whose token is `token`.
#[derive(Debug)]
pub struct CommandRun {
    pub phase: RunPhase,
    pub args: Vec<String>,
    pub cwd: String,
    pub token: String,
}

pub struct CommandRunView {
    pub phase: RunPhase,
    pub args: Seq<Seq<char>>,
    pub cwd: Seq<char>,
    pub token: Seq<char>,
}

impl View for CommandRun {
    type V = CommandRunView;

    open spec fn view(&self) -> CommandRunView {
        CommandRunView {
            phase: self.phase,
            args: self.args.deep_view(),
            cwd: self.cwd@,
            token: self.token@,
        }
    }
}

/// What came of the last action.
#[derive(Debug)]
pub enum RunEvent {
    /// The utility could not be started.
    NotStarted { os_error: String },
    /// The utility ran and ended.
    Exited { success: bool, stdout: String, stderr: String },
    /// The helper accepted the connection.
    Connected,
    /// The helper could not be reached.
    ConnectFailed,
    /// The launcher of the helper ran and ended.
    Launched { success: bool },
    /// The launcher of the helper could not be run.
    LaunchFailed { reason: String },
    /// The helper answered.
    Answered(AdminResponse),
    /// The request could not be sent, or no well-formed answer came back.
    ExchangeFailed { reason: String },
}

pub enum RunEventView {
    NotStarted { os_error: Seq<char> },
    Exited { success: bool, stdout: Seq<char>, stderr: Seq<char> },
    Connected,
    ConnectFailed,
    Launched { success: bool },
    LaunchFailed { reason: Seq<char> },
    Answered(AdminResponseView),
    ExchangeFailed { reason: Seq<char> },
}

impl View for RunEvent {
    type V = RunEventView;

    open spec fn view(&self) -> RunEventView {
        match self {
            RunEvent::NotStarted { os_error } => RunEventView::NotStarted { os_error: os_error@ },
            RunEvent::Exited { success, stdout, stderr } => RunEventView::Exited {
                success: *success,
                stdout: stdout@,
                stderr: stderr@,
            },
            RunEvent::Connected => RunEventView::Connected,
            RunEvent::ConnectFailed => RunEventView::ConnectFailed,
            RunEvent::Launched { success } => RunEventView::Launched { success: *success },
            RunEvent::LaunchFailed { reason } => RunEventView::LaunchFailed { reason: reason@ },
            RunEvent::Answered(response) => RunEventView::Answered(response@),
            RunEvent::ExchangeFailed { reason } => RunEventView::ExchangeFailed {
                reason: reason@,
            },
        }
    }
}

/// What the caller is to do next.
#[derive(Debug)]
pub enum RunAction {
    /// Start the utility with `args` in the directory `cwd` and wait for it.
    Execute { args: Vec<String>, cwd: String },
    /// Connect to the helper.
    Connect,
    /// Launch the helper with raised rights.
    Launch,
    /// Wait `millis` milliseconds, then connect to the helper.
    SleepThenConnect { millis: u64 },
    /// Send the request, close the sending side, and read one answer.
    Send(AdminRequestEnvelope),
}

pub enum RunActionView {
    Execute { args: Seq<Seq<char>>, cwd: Seq<char> },
    Connect,
    Launch,
    SleepThenConnect { millis: u64 },
    Send(AdminRequestEnvelopeView),
}

impl View for RunAction {
    type V = RunActionView;

    open spec fn view(&self) -> RunActionView {
        match self {
            RunAction::Execute { args, cwd } => RunActionView::Execute {
                args: args.deep_view(),
                cwd: cwd@,
            },
            RunAction::Connect => RunActionView::Connect,
            RunAction::Launch => RunActionView::Launch,
            RunAction::SleepThenConnect { millis } => RunActionView::SleepThenConnect {
                millis: *millis,
            },
            RunAction::Send(envelope) => RunActionView::Send(envelope@),
        }
    }
}

/// The next action and the run that waits for its outcome, or the end.
#[derive(Debug)]
pub enum RunStep {
    Act { action: RunAction, then: CommandRun },
    Finished(Result<String, SerialError>),
}

pub enum RunStepView {
    Act { action: RunActionView, then: CommandRunView },
    Finished(Result<Seq<char>, SerialErrorView>),
}

impl View for RunStep {
    type V = RunStepView;

    open spec fn view(&self) -> RunStepView {
        match self {
            RunStep::Act { action, then } => RunStepView::Act { action: action@, then: then@ },
            RunStep::Finished(Ok(printed)) => RunStepView::Finished(Ok(printed@)),
            RunStep::Finished(Err(error)) => RunStepView::Finished(Err(error@)),
        }
    }
}

/// The request that a run sends to the helper.
pub open spec fn request_of(run: CommandRunView) -> AdminRequestEnvelopeView {
    AdminRequestEnvelopeView {
        token: run.token,
        payload: AdminRequestView::ExecuteSetupc { args: run.args, cwd: run.cwd },
    }
}

/// What the helper's answer means to the caller of the command: what the
/// command printed where it went well, else the helper's own error, or what
/// the command wrote to its error stream.
pub open spec fn response_result(response: AdminResponseView) -> Result<
    Seq<char>,
    SerialErrorView,
> {
    if response.success {
        Ok(response.stdout)
    } else {
        match response.error {
            Some(error) => Err(
                SerialErrorView::EscalationFailed { reason: "Admin Service Error: "@ + error },
            ),
            None => Err(
                SerialErrorView::EscalationFailed {
                    reason: "setupc failed via Admin Service: "@ + response.stderr,
                },
            ),
        }
    }
}

/// The step that moves `run` to `phase` with `action`.
pub open spec fn go(run: CommandRunView, phase: RunPhase, action: RunActionView) -> RunStepView {
    RunStepView::Act {
        action,
        then: CommandRunView { phase, args: run.args, cwd: run.cwd, token: run.token },
    }
}

/// The failure that ends a run.
pub open spec fn fail(error: SerialErrorView) -> RunStepView {
    RunStepView::Finished(Err(error))
}

/// What is reported where the launcher ran and did not succeed.
pub open spec fn launch_refused() -> SerialErrorView {
    SerialErrorView::EscalationFailed { reason: "Failed to start admin service (UAC denied?)"@ }
}

/// What is reported of an event that does not answer the pending action.
pub open spec fn out_of_turn() -> SerialErrorView {
    SerialErrorView::EscalationFailed { reason: "unexpected event"@ }
}

/// How a run reacts to an event.
///
/// The utility's own success ends the run with what it printed. A failure
/// that speaks of missing rights leads to the helper; any other ends the
/// run. The helper is tried once; where it is not there it is launched and
/// then tried `CONNECT_RETRIES` times, `RETRY_PAUSE_MILLIS` apart. Its
/// answer replaces whatever the first attempt printed.
pub open spec fn react(run: CommandRunView, event: RunEventView) -> RunStepView {
    match (run.phase, event) {
        (RunPhase::Running, RunEventView::NotStarted { os_error }) => if needs_elevation(
            os_error,
        ) {
            go(run, RunPhase::Connecting, RunActionView::Connect)
        } else {
            fail(SerialErrorView::DriverCommandFailed { stderr: os_error })
        },
        (RunPhase::Running, RunEventView::Exited { success, stdout, stderr }) => if success {
            RunStepView::Finished(Ok(stdout))
        } else if is_permission_error(combined_output(stdout, stderr)) {
            go(run, RunPhase::Connecting, RunActionView::Connect)
        } else {
            fail(SerialErrorView::DriverCommandFailed { stderr })
        },
        (RunPhase::Connecting, RunEventView::Connected) => go(
            run,
            RunPhase::Exchanging,
            RunActionView::Send(request_of(run)),
        ),
        (RunPhase::Connecting, RunEventView::ConnectFailed) => go(
            run,
            RunPhase::Launching,
            RunActionView::Launch,
        ),
        (RunPhase::Launching, RunEventView::Launched { success }) => if success {
            go(
                run,
                RunPhase::Polling { retries_left: CONNECT_RETRIES },
                RunActionView::SleepThenConnect { millis: RETRY_PAUSE_MILLIS },
            )
        } else {
            fail(launch_refused())
        },
        (RunPhase::Launching, RunEventView::LaunchFailed { reason }) => fail(
            SerialErrorView::EscalationFailed { reason },
        ),
        (RunPhase::Polling { retries_left }, RunEventView::Connected) => go(
            run,
            RunPhase::Exchanging,
            RunActionView::Send(request_of(run)),
        ),
        (RunPhase::Polling { retries_left }, RunEventView::ConnectFailed) => if retries_left
            <= 1 {
            fail(SerialErrorView::EscalationTimeout)
        } else {
            go(
                run,
                RunPhase::Polling { retries_left: (retries_left - 1) as u32 },
                RunActionView::SleepThenConnect { millis: RETRY_PAUSE_MILLIS },
            )
        },
        (RunPhase::Exchanging, RunEventView::Answered(response)) => RunStepView::Finished(
            response_result(response),
        ),
        (RunPhase::Exchanging, RunEventView::ExchangeFailed { reason }) => fail(
            SerialErrorView::EscalationFailed { reason },
        ),
        _ => fail(out_of_turn()),
    }
}

/// The beginning of a run: the utility is started in `working_dir`. Without
/// a directory to run it in, the run fails at once.
pub open spec fn begin(
    args: Seq<Seq<char>>,
    working_dir: Option<Seq<char>>,
    token: Seq<char>,
) -> RunStepView {
    match working_dir {
        None => fail(
            SerialErrorView::DriverCommandFailed {
                stderr: "the control utility has no parent directory"@,
            },
        ),
        Some(cwd) => RunStepView::Act {
            action: RunActionView::Execute { args, cwd },
            then: CommandRunView { phase: RunPhase::Running, args, cwd, token },
        },
    }
}

fn clone_args(args: &Vec<String>) -> (copy: Vec<String>)
    ensures
        copy.deep_view() == args.deep_view(),
{
    let mut copy: Vec<String> = Vec::new();
    let mut i: usize = 0;
    while i < args.len()
        invariant
            i <= args.len(),
            copy@.len() == i,
            forall|k: int| 0 <= k < i ==> (#[trigger] copy@[k])@ == args@[k]@,
        decreases args.len() - i,
    {
        copy.push(args[i].clone());
        i = i + 1;
    }
    proof {
        assert(copy.deep_view() =~= args.deep_view());
    }
    copy
}

fn interpret_response(response: AdminResponse) -> (r: Result<String, SerialError>)
    ensures
        crate::driver_task::outcome_view(r) == response_result(response@),
{
    if response.success {
        Ok(response.stdout)
    } else {
        match response.error {
            Some(error) => {
                let mut reason = String::from_str("Admin Service Error: ");
                reason.append(error.as_str());
                Err(SerialError::EscalationFailed { reason })
            },
            None => {
                let mut reason = String::from_str("setupc failed via Admin Service: ");
                reason.append(response.stderr.as_str());
                Err(SerialError::EscalationFailed { reason })
            },
        }
    }
}

impl CommandRun {
    /// Begins a run.
    pub fn start(args: Vec<String>, working_dir: Option<String>, token: String) -> (step: RunStep)
        ensures
            step@ == begin(args.deep_view(), working_dir.deep_view(), token@),
    {
        match working_dir {
            None => RunStep::Finished(
                Err(
                    SerialError::DriverCommandFailed {
                        stderr: String::from_str("the control utility has no parent directory"),
                    },
                ),
            ),
            Some(cwd) => {
                let action = RunAction::Execute { args: clone_args(&args), cwd: cwd.clone() };
                RunStep::Act {
                    action,
                    then: CommandRun { phase: RunPhase::Running, args, cwd, token },
                }
            },
        }
    }

    fn request(&self) -> (envelope: AdminRequestEnvelope)
        ensures
            envelope@ == request_of(self@),
    {
        AdminRequestEnvelope {
            token: self.token.clone(),
            payload: AdminRequest::ExecuteSetupc {
                args: clone_args(&self.args),
                cwd: self.cwd.clone(),
            },
        }
    }

    fn proceed(self, phase: RunPhase, action: RunAction) -> (step: RunStep)
        ensures
            step@ == go(self@, phase, action@),
    {
        RunStep::Act {
            action,
            then: CommandRun { phase, args: self.args, cwd: self.cwd, token: self.token },
        }
    }

    /// Reacts to what came of the last action.
    pub fn step(self, event: RunEvent) -> (step: RunStep)
        ensures
            step@ == react(self@, event@),
    {
        match self.phase {
            RunPhase::Running => match event {
                RunEvent::NotStarted { os_error } => {
                    if text_needs_elevation(os_error.as_str()) {
                        self.proceed(RunPhase::Connecting, RunAction::Connect)
                    } else {
                        RunStep::Finished(Err(SerialError::DriverCommandFailed { stderr: os_error }))
                    }
                },
                RunEvent::Exited { success, stdout, stderr } => {
                    if success {
                        return RunStep::Finished(Ok(stdout));
                    }
                    let mut printed = stdout;
                    printed.append(" ");
                    printed.append(stderr.as_str());
                    if text_is_permission_error(printed.as_str()) {
                        self.proceed(RunPhase::Connecting, RunAction::Connect)
                    } else {
                        RunStep::Finished(Err(SerialError::DriverCommandFailed { stderr }))
                    }
                },
                _ => out_of_turn_step(),
            },
            RunPhase::Connecting => match event {
                RunEvent::Connected => {
                    let envelope = self.request();
                    self.proceed(RunPhase::Exchanging, RunAction::Send(envelope))
                },
                RunEvent::ConnectFailed => self.proceed(RunPhase::Launching, RunAction::Launch),
                _ => out_of_turn_step(),
            },
            RunPhase::Launching => match event {
                RunEvent::Launched { success } => {
                    if success {
                        self.proceed(
                            RunPhase::Polling { retries_left: CONNECT_RETRIES },
                            RunAction::SleepThenConnect { millis: RETRY_PAUSE_MILLIS },
                        )
                    } else {
                        RunStep::Finished(
                            Err(
                                SerialError::EscalationFailed {
                                    reason: String::from_str(
                                        "Failed to start admin service (UAC denied?)",
                                    ),
                                },
                            ),
                        )
                    }
                },
                RunEvent::LaunchFailed { reason } => RunStep::Finished(
                    Err(SerialError::EscalationFailed { reason }),
                ),
                _ => out_of_turn_step(),
            },
            RunPhase::Polling { retries_left } => match event {
                RunEvent::Connected => {
                    let envelope = self.request();
                    self.proceed(RunPhase::Exchanging, RunAction::Send(envelope))
                },
                RunEvent::ConnectFailed => {
                    if retries_left <= 1 {
                        RunStep::Finished(Err(SerialError::EscalationTimeout))
                    } else {
                        self.proceed(
                            RunPhase::Polling { retries_left: retries_left - 1 },
                            RunAction::SleepThenConnect { millis: RETRY_PAUSE_MILLIS },
                        )
                    }
                },
                _ => out_of_turn_step(),
            },
            RunPhase::Exchanging => match event {
                RunEvent::Answered(response) => RunStep::Finished(interpret_response(response)),
                RunEvent::ExchangeFailed { reason } => RunStep::Finished(
                    Err(SerialError::EscalationFailed { reason }),
                ),
                _ => out_of_turn_step(),
            },
        }
    }
}

fn out_of_turn_step() -> (step: RunStep)
    ensures
        step@ == fail(out_of_turn()),
{
    RunStep::Finished(
        Err(SerialError::EscalationFailed { reason: String::from_str("unexpected event") }),
    )
}

/// A text with each single quote doubled, as a quoted argument of the
/// launcher's shell wants it.
pub open spec fn escape_quotes(text: Seq<char>) -> Seq<char>
    decreases text.len(),
{
    if text.len() == 0 {
        Seq::empty()
    } else if text.last() == '\'' {
        escape_quotes(text.drop_last()) + "''"@
    } else {
        escape_quotes(text.drop_last()).push(text.last())
    }
}

/// The shell command that launches the helper with raised rights and no
/// window: the program at `exe_path`, told to serve, which process to
/// watch, and which token its caller holds.
pub open spec fn launch_script(exe_path: Seq<char>, pid: u32, token: Seq<char>) -> Seq<char> {
    "Start-Process -FilePath '"@ + escape_quotes(exe_path)
        + "' -ArgumentList '--admin-service', '--parent-pid', '"@ + decimal_digits(pid as nat)
        + "', '--token', '"@ + token + "' -Verb RunAs -WindowStyle Hidden"@
}

/// The arguments with which the launcher's shell is run.
pub open spec fn launch_args(exe_path: Seq<char>, pid: u32, token: Seq<char>) -> Seq<Seq<char>> {
    seq!["-NoProfile"@, "-Command"@, launch_script(exe_path, pid, token)]
}

fn append_escaped(script: &mut String, text: &str)
    ensures
        final(script)@ == old(script)@ + escape_quotes(text@),
{
    let n = text.unicode_len();
    let mut i: usize = 0;
    proof {
        assert(text@.take(0) =~= Seq::<char>::empty());
        assert(script@ =~= old(script)@ + escape_quotes(text@.take(0)));
    }
    while i < n
        invariant
            i <= n == text@.len(),
            script@ == old(script)@ + escape_quotes(text@.take(i as int)),
        decreases n - i,
    {
        let ghost before = script@;
        let c = text.get_char(i);
        proof {
            let longer = text@.take(i + 1);
            assert(longer.drop_last() =~= text@.take(i as int));
            assert(longer.last() == c);
        }
        if c == '\'' {
            script.append("''");
            proof {
                assert(script@ =~= old(script)@ + escape_quotes(text@.take(i + 1)));
            }
        } else {
            let piece = text.substring_char(i, i + 1);
            script.append(piece);
            proof {
                assert(piece@ =~= seq![c]);
                assert(script@ =~= old(script)@ + escape_quotes(text@.take(i + 1)));
            }
        }
        i = i + 1;
    }
    proof {
        assert(text@.take(n as int) =~= text@);
    }
}

impl CommandRun {
    /// The arguments for the launcher's shell, for the `Launch` action of
    /// this run: `exe_path` is the running program, `pid` its process.
    pub fn launch_arguments(&self, exe_path: &str, pid: u32) -> (args: Vec<String>)
        ensures
            args.deep_view() == launch_args(exe_path@, pid, self@.token),
    {
        let mut script = String::from_str("Start-Process -FilePath '");
        append_escaped(&mut script, exe_path);
        script.append("' -ArgumentList '--admin-service', '--parent-pid', '");
        let digits = decimal_string(pid);
        script.append(digits.as_str());
        script.append("', '--token', '");
        script.append(self.token.as_str());
        script.append("' -Verb RunAs -WindowStyle Hidden");
        let mut args: Vec<String> = Vec::new();
        args.push(String::from_str("-NoProfile"));
        args.push(String::from_str("-Command"));
        args.push(script);
        proof {
            assert(args.deep_view() =~= launch_args(exe_path@, pid, self@.token));
        }
        args
    }
}

/// Where a run stands once `failures` tries in a row have not reached the
/// helper, beginning at `run`.
pub open spec fn after_failed_connects(run: CommandRunView, failures: nat) -> RunStepView
    decreases failures,
{
    if failures == 0 {
        RunStepView::Act {
            action: RunActionView::SleepThenConnect { millis: RETRY_PAUSE_MILLIS },
            then: run,
        }
    } else {
        match after_failed_connects(run, (failures - 1) as nat) {
            RunStepView::Act { action, then } => react(then, RunEventView::ConnectFailed),
            RunStepView::Finished(result) => RunStepView::Finished(result),
        }
    }
}

/// Polling ends: a helper that stays out of reach is tried as often as
/// tries are left, each after the same pause, and then the run fails with
/// `EscalationTimeout`.
pub proof fn polling_gives_up(run: CommandRunView, failures: nat)
    requires
        run.phase matches RunPhase::Polling { retries_left } && retries_left >= 1,
    ensures
        after_failed_connects(run, failures) == if failures < run.phase->retries_left {
            go(
                run,
                RunPhase::Polling { retries_left: (run.phase->retries_left - failures) as u32 },
                RunActionView::SleepThenConnect { millis: RETRY_PAUSE_MILLIS },
            )
        } else {
            fail(SerialErrorView::EscalationTimeout)
        },
    decreases failures,
{
    if failures > 0 {
        polling_gives_up(run, (failures - 1) as nat);
    }
}

} // verus!
