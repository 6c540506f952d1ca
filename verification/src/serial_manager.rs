//! The session on a physical serial port, with an optional bridge to a
//! virtual port. The session here is the bookkeeping and the decisions:
//! which handles are held, which loops are to run, what each loop does with
//! what it has read. The handles and the threads are the caller's.

use vstd::prelude::*;
use vstd::string::*;
use crate::error::{SerialError, SerialErrorView};

verus! {

/// The time after which a read returns empty-handed, in milliseconds. It
/// bounds how long a loop takes to notice that it is to stop.
pub const READ_TIMEOUT_MILLIS: u64 = 10;

/// The speed at which the virtual port is opened.
pub const VIRTUAL_BAUD_RATE: u32 = 115200;

/// The time that the bridge is given to notice that sharing has stopped,
/// before the virtual port is let go, in milliseconds.
pub const STOP_GRACE_MILLIS: u64 = 20;

/// The most that the reader takes in with one read, in bytes.
pub const READER_BUFFER_SIZE: usize = 4096;

/// The most that the bridge takes in with one read, in bytes.
pub const BRIDGE_BUFFER_SIZE: usize = 1024;

#[derive(Debug, Clone, Copy, PartialEq, Eq, Structural)]
pub enum DataBits {
    Five,
    Six,
    Seven,
    Eight,
}

#[derive(Debug, Clone, Copy, PartialEq, Eq, Structural)]
pub enum FlowControl {
    Off,
    Software,
    Hardware,
}

#[derive(Debug, Clone, Copy, PartialEq, Eq, Structural)]
pub enum Parity {
    Off,
    Odd,
    Even,
}

#[derive(Debug, Clone, Copy, PartialEq, Eq, Structural)]
pub enum StopBits {
    One,
    Two,
}

/// How a port is to be opened.
#[derive(Debug)]
pub struct PortSettings {
    pub port_name: String,
    pub baud_rate: u32,
    pub data_bits: DataBits,
    pub flow_control: FlowControl,
    pub parity: Parity,
    pub stop_bits: StopBits,
    pub timeout_millis: u64,
}

pub struct PortSettingsView {
    pub port_name: Seq<char>,
    pub baud_rate: u32,
    pub data_bits: DataBits,
    pub flow_control: FlowControl,
    pub parity: Parity,
    pub stop_bits: StopBits,
    pub timeout_millis: u64,
}

impl View for PortSettings {
    type V = PortSettingsView;

    open spec fn view(&self) -> PortSettingsView {
        PortSettingsView {
            port_name: self.port_name@,
            baud_rate: self.baud_rate,
            data_bits: self.data_bits,
            flow_control: self.flow_control,
            parity: self.parity,
            stop_bits: self.stop_bits,
            timeout_millis: self.timeout_millis,
        }
    }
}

/// What came of a read.
#[derive(Debug, Clone, Copy, PartialEq, Eq, Structural)]
pub enum ReadOutcome {
    /// So many bytes were read.
    Bytes { count: usize },
    /// Nothing came within the timeout.
    TimedOut,
    /// The read failed otherwise.
    Failed,
}

/// What the reader of the physical port does with a read.
#[derive(Debug, Clone, Copy, PartialEq, Eq, Structural)]
pub enum ReaderAction {
    /// Hand a copy of the bytes to the subscriber; where `forward` is set,
    /// write them to the virtual port too, whether or not that succeeds.
    /// Stop where the subscriber is gone, else read again.
    Deliver { forward: bool },
    /// Read again.
    Continue,
    /// Leave the loop.
    Stop,
}

/// What the bridge does with a read from the virtual port.
#[derive(Debug, Clone, Copy, PartialEq, Eq, Structural)]
pub enum BridgeAction {
    /// Write the bytes to the physical port and flush, whether or not that
    /// succeeds, then read again.
    Forward,
    /// Read again.
    Continue,
    /// Leave the loop.
    Stop,
}

/// The state of a session, for contracts.
pub struct SessionView {
    /// Whether the physical port is held.
    pub port_open: bool,
    /// Whether a subscriber to the received bytes is registered.
    pub has_sender: bool,
    /// Whether the reader is to go on.
    pub should_run: bool,
    /// Whether the virtual port is held.
    pub virtual_open: bool,
    /// Whether the bridge is to go on.
    pub sharing_active: bool,
}

/// A session. It holds the virtual port exactly while sharing is on.
#[derive(Debug)]
pub struct SerialManager {
    port_open: bool,
    has_sender: bool,
    should_run: bool,
    virtual_open: bool,
    sharing_active: bool,
}

impl View for SerialManager {
    type V = SessionView;

    closed spec fn view(&self) -> SessionView {
        SessionView {
            port_open: self.port_open,
            has_sender: self.has_sender,
            should_run: self.should_run,
            virtual_open: self.virtual_open,
            sharing_active: self.sharing_active,
        }
    }
}

/// What the reader does with a read, in a session in state `session`.
pub open spec fn reader_action(session: SessionView, read: ReadOutcome) -> ReaderAction {
    if !session.should_run {
        ReaderAction::Stop
    } else {
        match read {
            ReadOutcome::Bytes { count } => if count > 0 {
                ReaderAction::Deliver { forward: session.virtual_open }
            } else {
                ReaderAction::Continue
            },
            ReadOutcome::TimedOut => ReaderAction::Continue,
            ReadOutcome::Failed => ReaderAction::Stop,
        }
    }
}

/// What the bridge does with a read, in a session in state `session`.
pub open spec fn bridge_action(session: SessionView, read: ReadOutcome) -> BridgeAction {
    if !session.sharing_active {
        BridgeAction::Stop
    } else {
        match read {
            ReadOutcome::Bytes { count } => if count > 0 && session.port_open {
                BridgeAction::Forward
            } else {
                BridgeAction::Continue
            },
            ReadOutcome::TimedOut => BridgeAction::Continue,
            ReadOutcome::Failed => BridgeAction::Stop,
        }
    }
}

/// A session after `close`.
pub open spec fn closed(session: SessionView) -> SessionView {
    SessionView { port_open: false, should_run: false, ..session }
}

/// Whether a write may go ahead.
pub open spec fn write_result(session: SessionView) -> Result<(), SerialErrorView> {
    if session.port_open {
        Ok(())
    } else {
        Err(SerialErrorView::PortNotOpen)
    }
}

/// What is said of a port that could not be opened: what was tried, on
/// which port, and what the system answered.
pub open spec fn failure_words(tried: Seq<char>, port_name: Seq<char>, os_error: Seq<char>) -> Seq<
    char,
> {
    tried + port_name + ": "@ + os_error
}

/// The words for a physical port that could not be opened.
pub open spec fn open_failure(port_name: Seq<char>, os_error: Seq<char>) -> Seq<char> {
    failure_words("Failed to open port "@, port_name, os_error)
}

/// The words for a virtual port that could not be opened.
pub open spec fn sharing_failure(virtual_port_name: Seq<char>, os_error: Seq<char>) -> Seq<char> {
    failure_words("Failed to open virtual port "@, virtual_port_name, os_error)
}

fn failure_text(tried: &str, port_name: &str, os_error: &str) -> (text: String)
    ensures
        text@ == failure_words(tried@, port_name@, os_error@),
{
    let mut text = String::from_str(tried);
    text.append(port_name);
    text.append(": ");
    text.append(os_error);
    text
}

impl SerialManager {
    #[verifier::type_invariant]
    spec fn virtual_port_held_iff_sharing(&self) -> bool {
        self.virtual_open == self.sharing_active
    }

    /// A session without ports and without a subscriber.
    pub fn new() -> (session: Self)
        ensures
            session@ == (SessionView {
                port_open: false,
                has_sender: false,
                should_run: false,
                virtual_open: false,
                sharing_active: false,
            }),
    {
        SerialManager {
            port_open: false,
            has_sender: false,
            should_run: false,
            virtual_open: false,
            sharing_active: false,
        }
    }

    /// Registers the subscriber to the received bytes. A reader is started
    /// by the next `open`.
    pub fn set_sender(&mut self)
        ensures
            final(self)@ == (SessionView { has_sender: true, ..old(self)@ }),
    {
        proof {
            use_type_invariant(&*self);
        }
        self.has_sender = true;
    }

    pub fn is_open(&self) -> (open: bool)
        ensures
            open == self@.port_open,
    {
        self.port_open
    }

    pub fn is_sharing(&self) -> (sharing: bool)
        ensures
            sharing == self@.sharing_active,
            sharing == self@.virtual_open,
    {
        proof {
            use_type_invariant(self);
        }
        self.sharing_active
    }

    /// How the physical port is to be opened: as asked, with the short
    /// read timeout.
    pub fn open_settings(
        port_name: &str,
        baud_rate: u32,
        data_bits: DataBits,
        flow_control: FlowControl,
        parity: Parity,
        stop_bits: StopBits,
    ) -> (settings: PortSettings)
        ensures
            settings@ == (PortSettingsView {
                port_name: port_name@,
                baud_rate,
                data_bits,
                flow_control,
                parity,
                stop_bits,
                timeout_millis: READ_TIMEOUT_MILLIS,
            }),
    {
        PortSettings {
            port_name: String::from_str(port_name),
            baud_rate,
            data_bits,
            flow_control,
            parity,
            stop_bits,
            timeout_millis: READ_TIMEOUT_MILLIS,
        }
    }

    /// Takes note of an attempt to open the physical port `port_name`.
    /// Where it failed with `os_error`, the session stays as it was and the
    /// failure is reported as `PortOpenFailed`, in words that name the port
    /// and give what the system said. Where it succeeded, the port is held
    /// and the reader is to run; the result says whether a reader is to be
    /// started, which is so where a subscriber is registered.
    ///
    /// A port that is held must be closed first.
    pub fn open(&mut self, port_name: &str, attempt: Result<(), String>) -> (r: Result<
        bool,
        SerialError,
    >)
        requires
            !old(self)@.port_open,
        ensures
            match attempt {
                Ok(_) => r == Ok::<bool, SerialError>(old(self)@.has_sender) && final(self)@ == (
                    SessionView { port_open: true, should_run: true, ..old(self)@ }),
                Err(os_error) => r matches Err(error) && error@ == (
                    SerialErrorView::PortOpenFailed {
                        os_error: open_failure(port_name@, os_error@),
                    }) && final(self)@ == old(self)@,
            },
    {
        proof {
            use_type_invariant(&*self);
        }
        match attempt {
            Ok(_) => {
                self.should_run = true;
                self.port_open = true;
                Ok(self.has_sender)
            },
            Err(os_error) => Err(
                SerialError::PortOpenFailed {
                    os_error: failure_text("Failed to open port ", port_name, os_error.as_str()),
                },
            ),
        }
    }

    /// Lets the physical port go and tells the reader to stop. Sharing is
    /// left as it is: a bridge outlives the closing and reopening of the
    /// physical port.
    pub fn close(&mut self) -> (r: Result<(), SerialError>)
        ensures
            r is Ok,
            final(self)@ == closed(old(self)@),
    {
        proof {
            use_type_invariant(&*self);
        }
        self.should_run = false;
        self.port_open = false;
        Ok(())
    }

    /// Whether bytes may be written: `Ok` where the physical port is held,
    /// and the caller then writes them all and flushes; `PortNotOpen` where
    /// it is not.
    pub fn write(&self) -> (r: Result<(), SerialError>)
        ensures
            match r {
                Ok(_) => write_result(self@) is Ok,
                Err(error) => write_result(self@) == Err::<(), SerialErrorView>(error@),
            },
    {
        if self.port_open {
            Ok(())
        } else {
            Err(SerialError::PortNotOpen)
        }
    }

    /// How the virtual port is to be opened: at its fixed speed, eight data
    /// bits, no parity, one stop bit, no flow control, with the short read
    /// timeout.
    pub fn sharing_settings(virtual_port_name: &str) -> (settings: PortSettings)
        ensures
            settings@ == (PortSettingsView {
                port_name: virtual_port_name@,
                baud_rate: VIRTUAL_BAUD_RATE,
                data_bits: DataBits::Eight,
                flow_control: FlowControl::Off,
                parity: Parity::Off,
                stop_bits: StopBits::One,
                timeout_millis: READ_TIMEOUT_MILLIS,
            }),
    {
        PortSettings {
            port_name: String::from_str(virtual_port_name),
            baud_rate: VIRTUAL_BAUD_RATE,
            data_bits: DataBits::Eight,
            flow_control: FlowControl::Off,
            parity: Parity::Off,
            stop_bits: StopBits::One,
            timeout_millis: READ_TIMEOUT_MILLIS,
        }
    }

    /// Takes note of an attempt to open the virtual port
    /// `virtual_port_name`. Where it failed with `os_error`, the session
    /// stays as it was and the failure is reported as `PortOpenFailed`, in
    /// words that name the port and give what the system said. Where it
    /// succeeded, the virtual port is held and sharing is on: the reader
    /// forwards what it reads, and a bridge is to be started for the other
    /// direction.
    pub fn start_sharing(&mut self, virtual_port_name: &str, attempt: Result<(), String>) -> (r:
        Result<(), SerialError>)
        ensures
            match attempt {
                Ok(_) => r is Ok && final(self)@ == (SessionView {
                    virtual_open: true,
                    sharing_active: true,
                    ..old(self)@
                }),
                Err(os_error) => r matches Err(error) && error@ == (
                    SerialErrorView::PortOpenFailed {
                        os_error: sharing_failure(virtual_port_name@, os_error@),
                    }) && final(self)@ == old(self)@,
            },
    {
        match attempt {
            Ok(_) => {
                let fresh = SerialManager {
                    port_open: self.port_open,
                    has_sender: self.has_sender,
                    should_run: self.should_run,
                    virtual_open: true,
                    sharing_active: true,
                };
                *self = fresh;
                Ok(())
            },
            Err(os_error) => Err(
                SerialError::PortOpenFailed {
                    os_error: failure_text(
                        "Failed to open virtual port ",
                        virtual_port_name,
                        os_error.as_str(),
                    ),
                },
            ),
        }
    }

    /// Turns sharing off: the bridge is to stop, and after its grace
    /// period the virtual port is let go. The physical port is left as it
    /// is.
    pub fn stop_sharing(&mut self) -> (r: Result<(), SerialError>)
        ensures
            r is Ok,
            final(self)@ == (SessionView {
                virtual_open: false,
                sharing_active: false,
                ..old(self)@
            }),
    {
        let fresh = SerialManager {
            port_open: self.port_open,
            has_sender: self.has_sender,
            should_run: self.should_run,
            virtual_open: false,
            sharing_active: false,
        };
        *self = fresh;
        Ok(())
    }

    /// What the reader does with what it has read from the physical port.
    pub fn reader_step(&self, read: ReadOutcome) -> (action: ReaderAction)
        ensures
            action == reader_action(self@, read),
    {
        if !self.should_run {
            return ReaderAction::Stop;
        }
        match read {
            ReadOutcome::Bytes { count } => {
                if count > 0 {
                    ReaderAction::Deliver { forward: self.virtual_open }
                } else {
                    ReaderAction::Continue
                }
            },
            ReadOutcome::TimedOut => ReaderAction::Continue,
            ReadOutcome::Failed => ReaderAction::Stop,
        }
    }

    /// What the bridge does with what it has read from the virtual port.
    pub fn bridge_step(&self, read: ReadOutcome) -> (action: BridgeAction)
        ensures
            action == bridge_action(self@, read),
    {
        if !self.sharing_active {
            return BridgeAction::Stop;
        }
        match read {
            ReadOutcome::Bytes { count } => {
                if count > 0 && self.port_open {
                    BridgeAction::Forward
                } else {
                    BridgeAction::Continue
                }
            },
            ReadOutcome::TimedOut => BridgeAction::Continue,
            ReadOutcome::Failed => BridgeAction::Stop,
        }
    }
}

/// After `close` no physical port is held, so that a write is refused with
/// `PortNotOpen`, the reader stops at its next turn, and sharing is as it
/// was before.
pub proof fn close_keeps_sharing(session: SessionView, read: ReadOutcome)
    ensures
        write_result(closed(session)) == Err::<(), SerialErrorView>(SerialErrorView::PortNotOpen),
        reader_action(closed(session), read) == ReaderAction::Stop,
        closed(session).sharing_active == session.sharing_active,
        closed(session).virtual_open == session.virtual_open,
        bridge_action(closed(session), read) != BridgeAction::Forward,
{
}

} // verus!
