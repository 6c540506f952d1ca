//! The records that travel between a manager and the privileged helper.

use vstd::prelude::*;

verus! {

/// What the helper is asked to do.
#[derive(Debug)]
pub enum AdminRequest {
    /// Run the control utility with these arguments in this directory.
    ExecuteSetupc { args: Vec<String>, cwd: String },
    /// Stop serving.
    Shutdown,
}

pub enum AdminRequestView {
    ExecuteSetupc { args: Seq<Seq<char>>, cwd: Seq<char> },
    Shutdown,
}

impl View for AdminRequest {
    type V = AdminRequestView;

    open spec fn view(&self) -> AdminRequestView {
        match self {
            AdminRequest::ExecuteSetupc { args, cwd } => AdminRequestView::ExecuteSetupc {
                args: args.deep_view(),
                cwd: cwd@,
            },
            AdminRequest::Shutdown => AdminRequestView::Shutdown,
        }
    }
}

/// A request together with the token of the manager that sends it.
#[derive(Debug)]
pub struct AdminRequestEnvelope {
    pub token: String,
    pub payload: AdminRequest,
}

pub struct AdminRequestEnvelopeView {
    pub token: Seq<char>,
    pub payload: AdminRequestView,
}

impl View for AdminRequestEnvelope {
    type V = AdminRequestEnvelopeView;

    open spec fn view(&self) -> AdminRequestEnvelopeView {
        AdminRequestEnvelopeView { token: self.token@, payload: self.payload@ }
    }
}

/// The helper's answer: how the command ended and what it printed.
#[derive(Debug)]
pub struct AdminResponse {
    pub success: bool,
    pub stdout: String,
    pub stderr: String,
    pub error: Option<String>,
}

pub struct AdminResponseView {
    pub success: bool,
    pub stdout: Seq<char>,
    pub stderr: Seq<char>,
    pub error: Option<Seq<char>>,
}

impl View for AdminResponse {
    type V = AdminResponseView;

    open spec fn view(&self) -> AdminResponseView {
        AdminResponseView {
            success: self.success,
            stdout: self.stdout@,
            stderr: self.stderr@,
            error: self.error.deep_view(),
        }
    }
}

} // verus!
