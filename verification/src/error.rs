//! The failures that the operations of this crate report.

use vstd::prelude::*;

verus! {

#[derive(Debug)]
pub enum SerialError {
    /// The driver's control utility was found nowhere.
    DriverNotInstalled,
    /// The control utility ran and failed for a reason other than missing rights.
    DriverCommandFailed { stderr: String },
    /// The privileged helper was reached and the command still failed there,
    /// or the exchange with it broke down.
    EscalationFailed { reason: String },
    /// The privileged helper never became reachable.
    EscalationTimeout,
    /// No physical port is held.
    PortNotOpen,
    /// The operating system refused to open the port.
    PortOpenFailed { os_error: String },
    /// Sharing is already on.
    AlreadyEnabled,
    /// Fewer than two port numbers are free.
    NoAvailablePorts,
    /// No pair with this id is listed.
    PairNotFound { id: u32 },
}

/// A failure with its texts as character sequences.
pub enum SerialErrorView {
    DriverNotInstalled,
    DriverCommandFailed { stderr: Seq<char> },
    EscalationFailed { reason: Seq<char> },
    EscalationTimeout,
    PortNotOpen,
    PortOpenFailed { os_error: Seq<char> },
    AlreadyEnabled,
    NoAvailablePorts,
    PairNotFound { id: u32 },
}

impl View for SerialError {
    type V = SerialErrorView;

    open spec fn view(&self) -> SerialErrorView {
        match self {
            SerialError::DriverNotInstalled => SerialErrorView::DriverNotInstalled,
            SerialError::DriverCommandFailed { stderr } => SerialErrorView::DriverCommandFailed {
                stderr: stderr@,
            },
            SerialError::EscalationFailed { reason } => SerialErrorView::EscalationFailed {
                reason: reason@,
            },
            SerialError::EscalationTimeout => SerialErrorView::EscalationTimeout,
            SerialError::PortNotOpen => SerialErrorView::PortNotOpen,
            SerialError::PortOpenFailed { os_error } => SerialErrorView::PortOpenFailed {
                os_error: os_error@,
            },
            SerialError::AlreadyEnabled => SerialErrorView::AlreadyEnabled,
            SerialError::NoAvailablePorts => SerialErrorView::NoAvailablePorts,
            SerialError::PairNotFound { id } => SerialErrorView::PairNotFound { id: *id },
        }
    }
}

impl DeepView for SerialError {
    type V = SerialErrorView;

    open spec fn deep_view(&self) -> SerialErrorView {
        self@
    }
}

impl Clone for SerialError {
    fn clone(&self) -> (r: Self)
        ensures
            r@ == self@,
    {
        match self {
            SerialError::DriverNotInstalled => SerialError::DriverNotInstalled,
            SerialError::DriverCommandFailed { stderr } => SerialError::DriverCommandFailed {
                stderr: stderr.clone(),
            },
            SerialError::EscalationFailed { reason } => SerialError::EscalationFailed {
                reason: reason.clone(),
            },
            SerialError::EscalationTimeout => SerialError::EscalationTimeout,
            SerialError::PortNotOpen => SerialError::PortNotOpen,
            SerialError::PortOpenFailed { os_error } => SerialError::PortOpenFailed {
                os_error: os_error.clone(),
            },
            SerialError::AlreadyEnabled => SerialError::AlreadyEnabled,
            SerialError::NoAvailablePorts => SerialError::NoAvailablePorts,
            SerialError::PairNotFound { id } => SerialError::PairNotFound { id: *id },
        }
    }
}

} // verus!
