//! The privileged helper: a server that runs commands of the control
//! utility for callers that lack the rights. Its loop is a state machine
//! that names the next action and reacts to what came of it; listening,
//! reading, running and sleeping are the caller's.
//!
//! The helper does not compare the token of a request with any token it
//! expects: whoever reaches it is served.

use vstd::prelude::*;
use vstd::string::*;
use crate::text::{contains, str_contains};
use crate::decimal::{decimal_digits, decimal_string};
use crate::ipc::{
    AdminRequest, AdminRequestEnvelope, AdminRequestEnvelopeView, AdminRequestView,
    AdminResponse, AdminResponseView,
};

verus! {

/// The port on the loopback address at which the helper listens.
pub const ADMIN_PORT: u16 = 56789;

/// The pause after a look for a connection that found none, in milliseconds.
pub const IDLE_PAUSE_MILLIS: u64 = 500;

/// The time that a caller is given to send its request, and to take the
/// answer, in seconds.
pub const EXCHANGE_TIMEOUT_SECS: u64 = 5;

/// How the utility fared when the helper ran it.
#[derive(Debug)]
pub enum ExecOutcome {
    /// The utility was not found.
    UtilityMissing { reason: String },
    /// The utility could not be started.
    NotStarted { os_error: String },
    /// The utility ran and ended.
    Exited { success: bool, stdout: String, stderr: String },
}

pub enum ExecOutcomeView {
    UtilityMissing { reason: Seq<char> },
    NotStarted { os_error: Seq<char> },
    Exited { success: bool, stdout: Seq<char>, stderr: Seq<char> },
}

impl View for ExecOutcome {
    type V = ExecOutcomeView;

    open spec fn view(&self) -> ExecOutcomeView {
        match self {
            ExecOutcome::UtilityMissing { reason } => ExecOutcomeView::UtilityMissing {
                reason: reason@,
            },
            ExecOutcome::NotStarted { os_error } => ExecOutcomeView::NotStarted {
                os_error: os_error@,
            },
            ExecOutcome::Exited { success, stdout, stderr } => ExecOutcomeView::Exited {
                success: *success,
                stdout: stdout@,
                stderr: stderr@,
            },
        }
    }
}

/// What came of the last action.
#[derive(Debug)]
pub enum ServiceEvent {
    /// The helper has begun to listen.
    Started,
    /// The parent process was looked for.
    ParentChecked { alive: bool },
    /// No caller is waiting.
    NoConnection,
    /// Looking for a caller failed.
    AcceptFailed,
    /// A caller has connected.
    Accepted,
    /// The pause is over.
    Woke,
    /// The caller's request.
    Received(AdminRequestEnvelope),
    /// The caller sent no well-formed request in time.
    Malformed,
    /// The utility was run.
    Executed(ExecOutcome),
    /// The answer was handed to the caller, or could not be.
    Replied,
}

pub enum ServiceEventView {
    Started,
    ParentChecked { alive: bool },
    NoConnection,
    AcceptFailed,
    Accepted,
    Woke,
    Received(AdminRequestEnvelopeView),
    Malformed,
    Executed(ExecOutcomeView),
    Replied,
}

impl View for ServiceEvent {
    type V = ServiceEventView;

    open spec fn view(&self) -> ServiceEventView {
        match self {
            ServiceEvent::Started => ServiceEventView::Started,
            ServiceEvent::ParentChecked { alive } => ServiceEventView::ParentChecked {
                alive: *alive,
            },
            ServiceEvent::NoConnection => ServiceEventView::NoConnection,
            ServiceEvent::AcceptFailed => ServiceEventView::AcceptFailed,
            ServiceEvent::Accepted => ServiceEventView::Accepted,
            ServiceEvent::Woke => ServiceEventView::Woke,
            ServiceEvent::Received(envelope) => ServiceEventView::Received(envelope@),
            ServiceEvent::Malformed => ServiceEventView::Malformed,
            ServiceEvent::Executed(outcome) => ServiceEventView::Executed(outcome@),
            ServiceEvent::Replied => ServiceEventView::Replied,
        }
    }
}

/// What the helper is to do next.
#[derive(Debug)]
pub enum ServiceAction {
    /// Find out whether process `pid` still runs.
    CheckParent { pid: u32 },
    /// Look for a waiting caller, without waiting for one.
    Accept,
    /// Pause for `millis` milliseconds.
    Sleep { millis: u64 },
    /// Read one request from the caller, within `timeout_secs` seconds.
    Read { timeout_secs: u64 },
    /// Run the utility with `args` in the directory `cwd`.
    Execute { args: Vec<String>, cwd: String },
    /// Send the answer to the caller and let the caller go.
    Reply(AdminResponse),
    /// Stop serving and end the process.
    Exit,
}

pub enum ServiceActionView {
    CheckParent { pid: u32 },
    Accept,
    Sleep { millis: u64 },
    Read { timeout_secs: u64 },
    Execute { args: Seq<Seq<char>>, cwd: Seq<char> },
    Reply(AdminResponseView),
    Exit,
}

impl View for ServiceAction {
    type V = ServiceActionView;

    open spec fn view(&self) -> ServiceActionView {
        match self {
            ServiceAction::CheckParent { pid } => ServiceActionView::CheckParent { pid: *pid },
            ServiceAction::Accept => ServiceActionView::Accept,
            ServiceAction::Sleep { millis } => ServiceActionView::Sleep { millis: *millis },
            ServiceAction::Read { timeout_secs } => ServiceActionView::Read {
                timeout_secs: *timeout_secs,
            },
            ServiceAction::Execute { args, cwd } => ServiceActionView::Execute {
                args: args.deep_view(),
                cwd: cwd@,
            },
            ServiceAction::Reply(response) => ServiceActionView::Reply(response@),
            ServiceAction::Exit => ServiceActionView::Exit,
        }
    }
}

/// Whether the helper serves or has stopped.
#[derive(Debug, Clone, Copy, PartialEq, Eq, Structural)]
pub enum ServiceState {
    Listening,
    Terminated,
}

/// The answer to a request, from how the utility fared.
pub open spec fn response_for(outcome: ExecOutcomeView) -> AdminResponseView {
    match outcome {
        ExecOutcomeView::UtilityMissing { reason } => AdminResponseView {
            success: false,
            stdout: Seq::empty(),
            stderr: Seq::empty(),
            error: Some("Failed to find setupc: "@ + reason),
        },
        ExecOutcomeView::NotStarted { os_error } => AdminResponseView {
            success: false,
            stdout: Seq::empty(),
            stderr: Seq::empty(),
            error: Some(os_error),
        },
        ExecOutcomeView::Exited { success, stdout, stderr } => AdminResponseView {
            success,
            stdout,
            stderr,
            error: None,
        },
    }
}

/// How a round of the loop begins: with a look for the parent where one
/// was named, else with a look for a caller.
pub open spec fn begin_round(parent_pid: Option<u32>) -> ServiceActionView {
    match parent_pid {
        Some(pid) => ServiceActionView::CheckParent { pid },
        None => ServiceActionView::Accept,
    }
}

/// How the helper reacts to an event: the state it is in afterwards, and
/// the action it takes.
///
/// Once its parent is gone, or once it is told to shut down, the helper
/// stops for good. A caller is read from once and answered once. What
/// goes wrong with one caller does not end the service.
pub open spec fn serve(
    parent_pid: Option<u32>,
    state: ServiceState,
    event: ServiceEventView,
) -> (ServiceState, ServiceActionView) {
    if state == ServiceState::Terminated {
        (ServiceState::Terminated, ServiceActionView::Exit)
    } else {
        match event {
            ServiceEventView::ParentChecked { alive } => if alive {
                (ServiceState::Listening, ServiceActionView::Accept)
            } else {
                (ServiceState::Terminated, ServiceActionView::Exit)
            },
            ServiceEventView::NoConnection => (
                ServiceState::Listening,
                ServiceActionView::Sleep { millis: IDLE_PAUSE_MILLIS },
            ),
            ServiceEventView::Accepted => (
                ServiceState::Listening,
                ServiceActionView::Read { timeout_secs: EXCHANGE_TIMEOUT_SECS },
            ),
            ServiceEventView::Received(envelope) => match envelope.payload {
                AdminRequestView::ExecuteSetupc { args, cwd } => (
                    ServiceState::Listening,
                    ServiceActionView::Execute { args, cwd },
                ),
                AdminRequestView::Shutdown => (ServiceState::Terminated, ServiceActionView::Exit),
            },
            ServiceEventView::Executed(outcome) => (
                ServiceState::Listening,
                ServiceActionView::Reply(response_for(outcome)),
            ),
            ServiceEventView::Started
            | ServiceEventView::Woke
            | ServiceEventView::AcceptFailed
            | ServiceEventView::Malformed
            | ServiceEventView::Replied => (ServiceState::Listening, begin_round(parent_pid)),
        }
    }
}

/// The helper's loop.
#[derive(Debug)]
pub struct AdminService {
    parent_pid: Option<u32>,
    state: ServiceState,
}

impl AdminService {
    pub closed spec fn parent(&self) -> Option<u32> {
        self.parent_pid
    }

    pub closed spec fn state_view(&self) -> ServiceState {
        self.state
    }

    /// A helper that serves until it is told to stop, or, where a parent
    /// is named, until that process is gone.
    pub fn new(parent_pid: Option<u32>) -> (service: Self)
        ensures
            service.parent() == parent_pid,
            service.state_view() == ServiceState::Listening,
    {
        AdminService { parent_pid, state: ServiceState::Listening }
    }

    pub fn state(&self) -> (state: ServiceState)
        ensures
            state == self.state_view(),
    {
        self.state
    }

    /// The answer to a request, from how the utility fared.
    pub fn handle_request(outcome: ExecOutcome) -> (response: AdminResponse)
        ensures
            response@ == response_for(outcome@),
    {
        match outcome {
            ExecOutcome::UtilityMissing { reason } => {
                let mut error = String::from_str("Failed to find setupc: ");
                error.append(reason.as_str());
                AdminResponse {
                    success: false,
                    stdout: String::new(),
                    stderr: String::new(),
                    error: Some(error),
                }
            },
            ExecOutcome::NotStarted { os_error } => AdminResponse {
                success: false,
                stdout: String::new(),
                stderr: String::new(),
                error: Some(os_error),
            },
            ExecOutcome::Exited { success, stdout, stderr } => AdminResponse {
                success,
                stdout,
                stderr,
                error: None,
            },
        }
    }

    fn round(&self) -> (action: ServiceAction)
        ensures
            action@ == begin_round(self.parent()),
    {
        match self.parent_pid {
            Some(pid) => ServiceAction::CheckParent { pid },
            None => ServiceAction::Accept,
        }
    }

    /// Reacts to what came of the last action.
    pub fn step(&mut self, event: ServiceEvent) -> (action: ServiceAction)
        ensures
            final(self).parent() == old(self).parent(),
            (final(self).state_view(), action@) == serve(
                old(self).parent(),
                old(self).state_view(),
                event@,
            ),
    {
        if self.state == ServiceState::Terminated {
            return ServiceAction::Exit;
        }
        match event {
            ServiceEvent::ParentChecked { alive } => {
                if alive {
                    ServiceAction::Accept
                } else {
                    self.state = ServiceState::Terminated;
                    ServiceAction::Exit
                }
            },
            ServiceEvent::NoConnection => ServiceAction::Sleep { millis: IDLE_PAUSE_MILLIS },
            ServiceEvent::Accepted => ServiceAction::Read { timeout_secs: EXCHANGE_TIMEOUT_SECS },
            ServiceEvent::Received(envelope) => match envelope.payload {
                AdminRequest::ExecuteSetupc { args, cwd } => ServiceAction::Execute { args, cwd },
                AdminRequest::Shutdown => {
                    self.state = ServiceState::Terminated;
                    ServiceAction::Exit
                },
            },
            ServiceEvent::Executed(outcome) => ServiceAction::Reply(Self::handle_request(outcome)),
            ServiceEvent::Started => self.round(),
            ServiceEvent::Woke => self.round(),
            ServiceEvent::AcceptFailed => self.round(),
            ServiceEvent::Malformed => self.round(),
            ServiceEvent::Replied => self.round(),
        }
    }
}

/// The arguments with which the system's list of tasks is asked for
/// process `pid` alone, without a heading.
pub open spec fn task_filter_args(pid: u32) -> Seq<Seq<char>> {
    seq!["/FI"@, "PID eq "@ + decimal_digits(pid as nat), "/NH"@]
}

/// Whether the list of tasks that was asked for process `pid` names it: a
/// list that could not be had names nothing.
pub open spec fn names_process(listing: Option<Seq<char>>, pid: u32) -> bool {
    match listing {
        Some(text) => contains(text, decimal_digits(pid as nat)),
        None => false,
    }
}

impl AdminService {
    /// The arguments for the look at the parent, for `CheckParent`.
    pub fn parent_check_args(pid: u32) -> (args: Vec<String>)
        ensures
            args.deep_view() == task_filter_args(pid),
    {
        let mut filter = String::from_str("PID eq ");
        let digits = decimal_string(pid);
        filter.append(digits.as_str());
        let mut args: Vec<String> = Vec::new();
        args.push(String::from_str("/FI"));
        args.push(filter);
        args.push(String::from_str("/NH"));
        proof {
            assert(args.deep_view() =~= task_filter_args(pid));
        }
        args
    }

    /// Whether process `pid` runs, by the list of tasks that was asked
    /// for it; `None` where the list could not be had.
    pub fn is_process_running(listing: Option<String>, pid: u32) -> (running: bool)
        ensures
            running == names_process(listing.deep_view(), pid),
    {
        match listing {
            Some(text) => {
                let digits = decimal_string(pid);
                str_contains(text.as_str(), digits.as_str())
            },
            None => false,
        }
    }
}

/// Whatever happens to a helper that has stopped, it stays stopped and
/// asks only to exit.
pub proof fn terminated_is_final(parent_pid: Option<u32>, event: ServiceEventView)
    ensures
        serve(parent_pid, ServiceState::Terminated, event) == (
            ServiceState::Terminated,
            ServiceActionView::Exit,
        ),
{
}

/// A helper stops only when its parent is gone or a caller tells it to.
pub proof fn stops_only_on_demand(
    parent_pid: Option<u32>,
    event: ServiceEventView,
)
    ensures
        serve(parent_pid, ServiceState::Listening, event).0 == ServiceState::Terminated <==> (event
            == (ServiceEventView::ParentChecked { alive: false }) || (event matches ServiceEventView::Received(
            envelope,
        ) && envelope.payload == AdminRequestView::Shutdown)),
{
}

} // verus!
