//! The coordinator of a sharing session: it picks free port numbers, has a
//! virtual pair created and removed, and keeps the one state that callers
//! see, on or off. Running the driver's commands is left to the caller.

use vstd::prelude::*;
use vstd::string::*;
use crate::com0com_manager::{
    change_args, com_name, first_free, install_args, uppercased, Com0comManager,
    Com0comManagerView, PortPair, PortPairView,
};
use crate::decimal::decimal_string;
use crate::driver_task::{
    list_args, outcome_view, remove_args, TaskPhaseView, TaskStep, TaskStepView,
};
use crate::error::{SerialError, SerialErrorView};

verus! {

/// Whether sharing is on, and if so over which pair and under which name
/// other programs reach it.
#[derive(Debug)]
pub struct SharingStatus {
    pub enabled: bool,
    pub port_pair: Option<PortPair>,
    pub external_port: Option<String>,
}

pub struct SharingStatusView {
    pub enabled: bool,
    pub port_pair: Option<PortPairView>,
    pub external_port: Option<Seq<char>>,
}

impl View for SharingStatus {
    type V = SharingStatusView;

    open spec fn view(&self) -> SharingStatusView {
        SharingStatusView {
            enabled: self.enabled,
            port_pair: self.port_pair.deep_view(),
            external_port: self.external_port.deep_view(),
        }
    }
}

impl Clone for SharingStatus {
    fn clone(&self) -> (r: Self)
        ensures
            r@ == self@,
    {
        SharingStatus {
            enabled: self.enabled,
            port_pair: match &self.port_pair {
                Some(pair) => Some(pair.clone()),
                None => None,
            },
            external_port: match &self.external_port {
                Some(name) => Some(name.clone()),
                None => None,
            },
        }
    }
}

/// The status while sharing is off.
pub open spec fn off() -> SharingStatusView {
    SharingStatusView { enabled: false, port_pair: None, external_port: None }
}

/// The status while sharing is on over `pair`: other programs use its B side.
pub open spec fn on(pair: PortPairView) -> SharingStatusView {
    SharingStatusView { enabled: true, port_pair: Some(pair), external_port: Some(pair.port_b) }
}

/// A status is either off, with no pair and no name, or on, with both.
pub open spec fn consistent(status: SharingStatusView) -> bool {
    status == off() || (status.port_pair is Some && status == on(status.port_pair->0))
}

/// The state of a coordinator, for contracts.
pub struct CoordinatorView {
    /// The driver's manager; none where the driver was not found.
    pub driver: Option<Com0comManagerView>,
    pub status: SharingStatusView,
    /// Whether the bridge between the subscriber and the virtual port is to go on.
    pub bridge_running: bool,
}

impl CoordinatorView {
    /// Whether the driver was found.
    pub open spec fn installed(self) -> bool {
        self.driver is Some
    }
}

/// The driver's manager as plain values, where there is one.
pub open spec fn driver_view(com0com: Option<Com0comManager>) -> Option<Com0comManagerView> {
    match com0com {
        Some(manager) => Some(manager@),
        None => None,
    }
}

/// A coordinator is sound where its status is consistent and sharing is on
/// only with a driver.
pub open spec fn sound(coordinator: CoordinatorView) -> bool {
    consistent(coordinator.status) && (coordinator.status.enabled ==> coordinator.installed())
}

/// What `enable_sharing` answers, given the free port numbers that were
/// found: it refuses where sharing is on, where the driver is missing, and
/// where fewer than two numbers are free, in this order. Else it begins
/// the creation of a pair named after the first two numbers.
pub open spec fn enabling(coordinator: CoordinatorView, free: Seq<u32>) -> Result<
    TaskStepView,
    SerialErrorView,
> {
    if coordinator.status.enabled {
        Err(SerialErrorView::AlreadyEnabled)
    } else if !coordinator.installed() {
        Err(SerialErrorView::DriverNotInstalled)
    } else if free.len() < 2 {
        Err(SerialErrorView::NoAvailablePorts)
    } else {
        Ok(
            TaskStepView::Run {
                args: install_args(com_name(free[0] as nat), com_name(free[1] as nat)),
                then: TaskPhaseView::Installing,
            },
        )
    }
}

/// The coordinator once the creation of the pair has ended with `created`:
/// sharing is on over the pair where one was created, sharing was off and
/// the driver is there; else nothing changes.
pub open spec fn enabled_with(
    coordinator: CoordinatorView,
    created: Result<PortPairView, SerialErrorView>,
) -> CoordinatorView {
    match created {
        Ok(pair) if !coordinator.status.enabled && coordinator.installed() => CoordinatorView {
            status: on(pair),
            ..coordinator
        },
        _ => coordinator,
    }
}

/// What the caller of `finish_enabling` is told: `AlreadyEnabled` where
/// sharing is on, else `DriverNotInstalled` where the driver is missing,
/// else the failure of the creation, or the name that other programs are
/// to use, which is the B side of the new pair.
pub open spec fn enabled_answer(
    coordinator: CoordinatorView,
    created: Result<PortPairView, SerialErrorView>,
) -> Result<Seq<char>, SerialErrorView> {
    if coordinator.status.enabled {
        Err(SerialErrorView::AlreadyEnabled)
    } else if !coordinator.installed() {
        Err(SerialErrorView::DriverNotInstalled)
    } else {
        match created {
            Ok(pair) => Ok(pair.port_b),
            Err(error) => Err(error),
        }
    }
}

/// The coordinator after `disable_sharing`.
pub open spec fn disabled(coordinator: CoordinatorView) -> CoordinatorView {
    if coordinator.status.enabled {
        CoordinatorView { status: off(), bridge_running: false, ..coordinator }
    } else {
        coordinator
    }
}

/// The removal that `disable_sharing` asks for: that of the pair over
/// which sharing was on.
pub open spec fn removal(coordinator: CoordinatorView) -> Option<TaskStepView> {
    if coordinator.status.enabled && coordinator.installed() && coordinator.status.port_pair
        is Some {
        Some(
            TaskStepView::Run {
                args: remove_args(coordinator.status.port_pair->0.pair_id),
                then: TaskPhaseView::Removing,
            },
        )
    } else {
        None
    }
}

/// The outcome of a creation, for contracts.
pub open spec fn created_view(created: Result<PortPair, SerialError>) -> Result<
    PortPairView,
    SerialErrorView,
> {
    match created {
        Ok(pair) => Ok(pair@),
        Err(error) => Err(error@),
    }
}

/// A step or a refusal, for contracts.
pub open spec fn step_view(r: Result<TaskStep, SerialError>) -> Result<
    TaskStepView,
    SerialErrorView,
> {
    match r {
        Ok(step) => Ok(step@),
        Err(error) => Err(error@),
    }
}

/// A step that may be absent, for contracts.
pub open spec fn optional_step_view(step: Option<TaskStep>) -> Option<TaskStepView> {
    match step {
        Some(step) => Some(step@),
        None => None,
    }
}

/// What an operation on pairs answers through the coordinator: the
/// operation's first step where the driver was found, else
/// `DriverNotInstalled`.
pub open spec fn through_driver(coordinator: CoordinatorView, step: TaskStepView) -> Result<
    TaskStepView,
    SerialErrorView,
> {
    if coordinator.installed() {
        Ok(step)
    } else {
        Err(SerialErrorView::DriverNotInstalled)
    }
}

/// The coordinator.
#[derive(Debug)]
pub struct PortSharingManager {
    com0com: Option<Com0comManager>,
    status: SharingStatus,
    bridge_running: bool,
}

impl View for PortSharingManager {
    type V = CoordinatorView;

    closed spec fn view(&self) -> CoordinatorView {
        CoordinatorView {
            driver: driver_view(self.com0com),
            status: self.status@,
            bridge_running: self.bridge_running,
        }
    }
}

fn make_com_name(n: u32) -> (name: String)
    ensures
        name@ == com_name(n as nat),
{
    let mut name = String::from_str("COM");
    let digits = decimal_string(n);
    name.append(digits.as_str());
    name
}

impl PortSharingManager {
    #[verifier::type_invariant]
    spec fn is_sound(&self) -> bool {
        consistent(self.status@) && (self.status.enabled ==> self.com0com is Some)
    }

    /// A coordinator with sharing off. `com0com` is the driver's manager,
    /// or `None` where the driver was not found.
    pub fn new(com0com: Option<Com0comManager>) -> (coordinator: Self)
        ensures
            coordinator@ == (CoordinatorView {
                driver: driver_view(com0com),
                status: off(),
                bridge_running: false,
            }),
    {
        PortSharingManager {
            com0com,
            status: SharingStatus { enabled: false, port_pair: None, external_port: None },
            bridge_running: false,
        }
    }

    pub fn is_com0com_installed(&self) -> (installed: bool)
        ensures
            installed == self@.installed(),
    {
        self.com0com.is_some()
    }

    /// The driver's manager, which runs what the coordinator begins.
    pub fn get_com0com(&self) -> (com0com: Option<&Com0comManager>)
        ensures
            match com0com {
                Some(manager) => self@.driver == Some(manager@),
                None => self@.driver is None,
            },
    {
        match &self.com0com {
            Some(manager) => Some(manager),
            None => None,
        }
    }

    /// The status. The coordinator is always sound: its status is
    /// consistent, and sharing is on only with a driver.
    pub fn get_status(&self) -> (status: SharingStatus)
        ensures
            status@ == self@.status,
            sound(self@),
    {
        proof {
            use_type_invariant(self);
        }
        self.status.clone()
    }

    /// The first part of `enable_sharing`, given the free port numbers.
    pub fn plan_sharing(&self, free: &Vec<u32>) -> (r: Result<TaskStep, SerialError>)
        ensures
            step_view(r) == enabling(self@, free@),
    {
        if self.status.enabled {
            return Err(SerialError::AlreadyEnabled);
        }
        match &self.com0com {
            None => Err(SerialError::DriverNotInstalled),
            Some(com0com) => {
                if free.len() < 2 {
                    return Err(SerialError::NoAvailablePorts);
                }
                let name_a = make_com_name(free[0]);
                let name_b = make_com_name(free[1]);
                Ok(com0com.create_pair(name_a.as_str(), name_b.as_str()))
            },
        }
    }

    /// Begins to turn sharing on for the physical port `physical_port`, on
    /// a system whose ports, as enumerated by the caller at this moment,
    /// are `existing`. Fails with `AlreadyEnabled` where sharing is on,
    /// else with `DriverNotInstalled` where the driver is missing, else
    /// with `NoAvailablePorts` where fewer than two port numbers are free.
    /// Else the result begins the creation of a pair named after the first
    /// two free numbers; its outcome goes to `finish_enabling`. The
    /// coordinator itself is not changed yet.
    pub fn enable_sharing(&mut self, physical_port: &str, existing: &Vec<String>) -> (r: Result<
        TaskStep,
        SerialError,
    >)
        ensures
            final(self)@ == old(self)@,
            step_view(r) == enabling(
                old(self)@,
                first_free(uppercased(existing.deep_view()), 2),
            ),
    {
        let free = match &self.com0com {
            None => Vec::new(),
            Some(com0com) => com0com.find_available_com_numbers(existing, 2),
        };
        self.plan_sharing(&free)
    }

    /// Ends turning sharing on, given how the creation of the pair ended.
    /// Where a pair was created, sharing is on over it, and the result is
    /// the name under which other programs reach it: its B side. Where the
    /// creation failed, its failure is the result and nothing changes. A
    /// coordinator in which sharing is on, or one without a driver, refuses
    /// and does not change either.
    pub fn finish_enabling(&mut self, created: Result<PortPair, SerialError>) -> (r: Result<
        String,
        SerialError,
    >)
        ensures
            final(self)@ == enabled_with(old(self)@, created_view(created)),
            outcome_view(r) == enabled_answer(old(self)@, created_view(created)),
    {
        proof {
            use_type_invariant(&*self);
        }
        if self.status.enabled {
            return Err(SerialError::AlreadyEnabled);
        }
        if self.com0com.is_none() {
            return Err(SerialError::DriverNotInstalled);
        }
        match created {
            Err(error) => Err(error),
            Ok(pair) => {
                let external_port = pair.port_b.clone();
                self.status = SharingStatus {
                    enabled: true,
                    port_pair: Some(pair),
                    external_port: Some(external_port.clone()),
                };
                Ok(external_port)
            },
        }
    }

    /// Turns sharing off. Where it is off already, nothing happens. Else
    /// the bridge is told to stop, the status is cleared, and the result
    /// begins the removal of the pair. The removal is for the caller to
    /// run; whether it succeeds does not matter to the coordinator.
    pub fn disable_sharing(&mut self) -> (r: Result<Option<TaskStep>, SerialError>)
        ensures
            final(self)@ == disabled(old(self)@),
            r matches Ok(step) && optional_step_view(step) == removal(old(self)@),
            removal(old(self)@) is Some == old(self)@.status.enabled,
    {
        proof {
            use_type_invariant(&*self);
        }
        if !self.status.enabled {
            return Ok(None);
        }
        let step = match (&self.status.port_pair, &self.com0com) {
            (Some(pair), Some(com0com)) => Some(com0com.remove_pair(pair.pair_id)),
            _ => None,
        };
        self.status = SharingStatus { enabled: false, port_pair: None, external_port: None };
        self.bridge_running = false;
        Ok(step)
    }

    /// The name of the port that this program uses: the A side of the pair.
    pub fn get_internal_port(&self) -> (name: Option<String>)
        ensures
            name.deep_view() == match self@.status.port_pair {
                Some(pair) => Some(pair.port_a),
                None => None,
            },
    {
        match &self.status.port_pair {
            Some(pair) => Some(pair.port_a.clone()),
            None => None,
        }
    }

    /// The name of the port that other programs use.
    pub fn get_external_port(&self) -> (name: Option<String>)
        ensures
            name.deep_view() == self@.status.external_port,
    {
        match &self.status.external_port {
            Some(name) => Some(name.clone()),
            None => None,
        }
    }

    /// Begins listing the pairs, as the driver's manager does.
    pub fn list_pairs(&self) -> (r: Result<TaskStep, SerialError>)
        ensures
            step_view(r) == through_driver(
                self@,
                TaskStepView::Run { args: list_args(), then: TaskPhaseView::Listing },
            ),
    {
        match &self.com0com {
            Some(com0com) => Ok(com0com.list_pairs()),
            None => Err(SerialError::DriverNotInstalled),
        }
    }

    /// Begins creating a pair, as the driver's manager does.
    pub fn create_pair(&self, name_a: &str, name_b: &str) -> (r: Result<TaskStep, SerialError>)
        ensures
            step_view(r) == through_driver(
                self@,
                TaskStepView::Run {
                    args: install_args(name_a@, name_b@),
                    then: TaskPhaseView::Installing,
                },
            ),
    {
        match &self.com0com {
            Some(com0com) => Ok(com0com.create_pair(name_a, name_b)),
            None => Err(SerialError::DriverNotInstalled),
        }
    }

    /// Begins renaming a pair, as the driver's manager does.
    pub fn rename_pair(&self, pair_id: u32, new_name_a: &str, new_name_b: &str) -> (r: Result<
        TaskStep,
        SerialError,
    >)
        ensures
            step_view(r) == through_driver(
                self@,
                TaskStepView::Run {
                    args: change_args(pair_id, true, new_name_a@),
                    then: TaskPhaseView::RenamingA {
                        change_b: change_args(pair_id, false, new_name_b@),
                    },
                },
            ),
    {
        match &self.com0com {
            Some(com0com) => Ok(com0com.rename_pair(pair_id, new_name_a, new_name_b)),
            None => Err(SerialError::DriverNotInstalled),
        }
    }

    /// Begins removing a pair, as the driver's manager does.
    pub fn remove_pair(&self, pair_id: u32) -> (r: Result<TaskStep, SerialError>)
        ensures
            step_view(r) == through_driver(
                self@,
                TaskStepView::Run { args: remove_args(pair_id), then: TaskPhaseView::Removing },
            ),
    {
        match &self.com0com {
            Some(com0com) => Ok(com0com.remove_pair(pair_id)),
            None => Err(SerialError::DriverNotInstalled),
        }
    }

    /// Tells the bridge between the subscriber and the virtual port to
    /// run. Fails with `PortNotOpen` while sharing is off, as no virtual
    /// port is open then.
    pub fn start_bridge(&mut self) -> (r: Result<(), SerialError>)
        ensures
            match r {
                Ok(_) => old(self)@.status.enabled && final(self)@ == (CoordinatorView {
                    bridge_running: true,
                    ..old(self)@
                }),
                Err(error) => !old(self)@.status.enabled && error@ == SerialErrorView::PortNotOpen
                    && final(self)@ == old(self)@,
            },
    {
        proof {
            use_type_invariant(&*self);
        }
        if !self.status.enabled {
            return Err(SerialError::PortNotOpen);
        }
        self.bridge_running = true;
        Ok(())
    }

    /// Whether the bridge is to go on.
    pub fn is_bridge_running(&self) -> (running: bool)
        ensures
            running == self@.bridge_running,
    {
        self.bridge_running
    }
}

/// With a driver, turning sharing off and on again takes the pair that
/// the driver has newly created, whichever pair was used before and
/// whatever its id: the status then holds the new pair, and the name for
/// other programs is the new pair's B side.
pub proof fn reenabling_takes_the_new_pair(before: CoordinatorView, created: PortPairView)
    requires
        sound(before),
        before.installed(),
    ensures
        enabled_with(disabled(before), Ok(created)).status == on(created),
        enabled_answer(disabled(before), Ok(created)) == Ok::<Seq<char>, SerialErrorView>(
            created.port_b,
        ),
        disabled(before).status == off(),
{
}

} // verus!
