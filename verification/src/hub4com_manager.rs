//! The manager of the hub program that routes one physical port to several
//! virtual ports: the command line it is started with, and the register of
//! the hubs that run, one per physical port. The processes themselves are
//! the caller's.

use vstd::prelude::*;
use vstd::string::*;
use crate::com0com_manager::{first_existing, Com0comManager, PathProbe};
use crate::decimal::{decimal_digits, decimal_string, decimal_string_u64};
use crate::error::{SerialError, SerialErrorView};
use crate::text::chars_of;

verus! {

/// The prefix under which a port is opened as a device.
pub open spec fn device_prefix() -> Seq<char> {
    seq!['\\', '\\', '.', '\\']
}

/// The name of a port as a device: the name itself where it has the
/// device prefix, else the prefix and the name.
pub open spec fn device_name(port: Seq<char>) -> Seq<char> {
    if device_prefix().is_prefix_of(port) {
        port
    } else {
        device_prefix() + port
    }
}

/// The route from port `from` to port `to` of the hub, by their positions
/// on the command line.
pub open spec fn route_arg(from: nat, to: nat) -> Seq<char> {
    "--route="@ + decimal_digits(from) + ":"@ + decimal_digits(to)
}

/// The device names of the first `count` of the ports.
pub open spec fn device_names(ports: Seq<Seq<char>>, count: nat) -> Seq<Seq<char>>
    decreases count,
{
    if count == 0 || count > ports.len() {
        Seq::empty()
    } else {
        device_names(ports, (count - 1) as nat).push(device_name(ports[count - 1]))
    }
}

/// The routes between the first `count` ports and port `hub`: towards
/// `hub` where `inward` is set, else away from it.
pub open spec fn routes(count: nat, hub: nat, inward: bool) -> Seq<Seq<char>>
    decreases count,
{
    if count == 0 {
        Seq::empty()
    } else {
        routes((count - 1) as nat, hub, inward).push(
            if inward {
                route_arg((count - 1) as nat, hub)
            } else {
                route_arg(hub, (count - 1) as nat)
            },
        )
    }
}

/// The speed argument, where a speed is given.
pub open spec fn baud_args(baud_rate: Option<u32>) -> Seq<Seq<char>> {
    match baud_rate {
        Some(baud) => seq!["--baud="@ + decimal_digits(baud as nat)],
        None => Seq::empty(),
    }
}

/// The command line of a hub: the virtual ports, the speed of the physical
/// port where one is given, the physical port, then a route from each
/// virtual port to the physical port, and one back to each.
pub open spec fn share_args(
    physical_port: Seq<char>,
    virtual_ports: Seq<Seq<char>>,
    baud_rate: Option<u32>,
) -> Seq<Seq<char>> {
    let n = virtual_ports.len();
    device_names(virtual_ports, n) + baud_args(baud_rate) + seq![device_name(physical_port)]
        + routes(n, n, true) + routes(n, n, false)
}

fn make_device_name(port: &str) -> (name: String)
    ensures
        name@ == device_name(port@),
{
    let chars = chars_of(port);
    let prefixed = chars.len() >= 4 && chars[0] == '\\' && chars[1] == '\\' && chars[2] == '.'
        && chars[3] == '\\';
    proof {
        let p = device_prefix();
        if prefixed {
            assert(port@.subrange(0, 4) =~= p);
        } else if p.is_prefix_of(port@) {
            assert(port@.subrange(0, 4)[0] == p[0]);
            assert(port@.subrange(0, 4)[1] == p[1]);
            assert(port@.subrange(0, 4)[2] == p[2]);
            assert(port@.subrange(0, 4)[3] == p[3]);
        }
    }
    if prefixed {
        String::from_str(port)
    } else {
        proof {
            reveal_strlit("\\\\.\\");
            assert("\\\\.\\"@ =~= device_prefix());
        }
        let mut name = String::from_str("\\\\.\\");
        name.append(port);
        name
    }
}

fn make_route(from: usize, to: usize) -> (arg: String)
    ensures
        arg@ == route_arg(from as nat, to as nat),
{
    let mut arg = String::from_str("--route=");
    let a = decimal_string_u64(from as u64);
    arg.append(a.as_str());
    arg.append(":");
    let b = decimal_string_u64(to as u64);
    arg.append(b.as_str());
    arg
}

/// Builds the command line of a hub.
pub fn make_share_args(physical_port: &str, virtual_ports: &Vec<String>, baud_rate: Option<u32>) -> (args:
    Vec<String>)
    ensures
        args.deep_view() == share_args(physical_port@, virtual_ports.deep_view(), baud_rate),
{
    let ghost ports = virtual_ports.deep_view();
    let n = virtual_ports.len();
    let mut args: Vec<String> = Vec::new();
    let mut i: usize = 0;
    proof {
        assert(args.deep_view() =~= device_names(ports, 0));
    }
    while i < n
        invariant
            i <= n == virtual_ports.len(),
            ports == virtual_ports.deep_view(),
            args.deep_view() == device_names(ports, i as nat),
        decreases n - i,
    {
        let ghost before = args.deep_view();
        let name = make_device_name(virtual_ports[i].as_str());
        args.push(name);
        proof {
            assert(args.deep_view() =~= before.push(device_name(ports[i as int])));
        }
        i = i + 1;
    }
    let ghost head = args.deep_view();
    match baud_rate {
        Some(baud) => {
            let mut arg = String::from_str("--baud=");
            let digits = decimal_string(baud);
            arg.append(digits.as_str());
            args.push(arg);
        },
        None => {},
    }
    args.push(make_device_name(physical_port));
    proof {
        assert(args.deep_view() =~= head + baud_args(baud_rate) + seq![device_name(physical_port@)]);
    }
    let ghost middle = args.deep_view();
    let mut k: usize = 0;
    proof {
        assert(args.deep_view() =~= middle + routes(0, n as nat, true));
    }
    while k < n
        invariant
            k <= n,
            args.deep_view() == middle + routes(k as nat, n as nat, true),
        decreases n - k,
    {
        let ghost before = args.deep_view();
        args.push(make_route(k, n));
        proof {
            assert(args.deep_view() =~= before.push(route_arg(k as nat, n as nat)));
            assert(args.deep_view() =~= middle + routes((k + 1) as nat, n as nat, true));
        }
        k = k + 1;
    }
    let ghost inward = args.deep_view();
    let mut j: usize = 0;
    proof {
        assert(args.deep_view() =~= inward + routes(0, n as nat, false));
    }
    while j < n
        invariant
            j <= n,
            args.deep_view() == inward + routes(j as nat, n as nat, false),
        decreases n - j,
    {
        let ghost before = args.deep_view();
        args.push(make_route(n, j));
        proof {
            assert(args.deep_view() =~= before.push(route_arg(n as nat, j as nat)));
            assert(args.deep_view() =~= inward + routes((j + 1) as nat, n as nat, false));
        }
        j = j + 1;
    }
    args
}

/// A hub that runs: the physical port it serves and the virtual ports it
/// feeds.
#[derive(Debug)]
pub struct HubInstance {
    pub physical_port: String,
    pub virtual_ports: Vec<String>,
}

pub struct HubInstanceView {
    pub physical_port: Seq<char>,
    pub virtual_ports: Seq<Seq<char>>,
}

impl View for HubInstance {
    type V = HubInstanceView;

    open spec fn view(&self) -> HubInstanceView {
        HubInstanceView {
            physical_port: self.physical_port@,
            virtual_ports: self.virtual_ports.deep_view(),
        }
    }
}

impl DeepView for HubInstance {
    type V = HubInstanceView;

    open spec fn deep_view(&self) -> HubInstanceView {
        self@
    }
}

/// What became of a hub shortly after it was started.
#[derive(Debug)]
pub enum HubStart {
    /// The hub could not be started.
    NotStarted { os_error: String },
    /// The hub has ended already; `stderr` is what it wrote in complaint.
    Exited { stderr: String },
    /// Whether the hub still runs could not be found out.
    Unknown { reason: String },
    /// The hub runs.
    Running,
}

/// Where in the register the hub of `port` stands, if it has one.
pub open spec fn position_of(hubs: Seq<HubInstanceView>, port: Seq<char>) -> Option<int>
    decreases hubs.len(),
{
    if hubs.len() == 0 {
        None
    } else if hubs.last().physical_port == port {
        Some(hubs.len() - 1)
    } else {
        position_of(hubs.drop_last(), port)
    }
}

/// No physical port has two hubs.
pub open spec fn one_hub_each(hubs: Seq<HubInstanceView>) -> bool {
    forall|i: int, j: int|
        0 <= i < j < hubs.len() ==> (#[trigger] hubs[i]).physical_port != (
        #[trigger] hubs[j]).physical_port
}

pub proof fn position_of_found(hubs: Seq<HubInstanceView>, port: Seq<char>)
    ensures
        match position_of(hubs, port) {
            Some(at) => 0 <= at < hubs.len() && hubs[at].physical_port == port,
            None => forall|i: int| 0 <= i < hubs.len() ==> (#[trigger] hubs[i]).physical_port != port,
        },
    decreases hubs.len(),
{
    if hubs.len() > 0 && hubs.last().physical_port != port {
        position_of_found(hubs.drop_last(), port);
        assert forall|i: int| 0 <= i < hubs.len() - 1 implies hubs[i] == hubs.drop_last()[i] by {}
        if position_of(hubs, port) is None {
            assert forall|i: int| 0 <= i < hubs.len() implies (#[trigger] hubs[i]).physical_port
                != port by {
                if i < hubs.len() - 1 {
                    assert(hubs[i] == hubs.drop_last()[i]);
                }
            }
        }
    }
}

/// The path of the program `name` where it is looked up on the search path
/// (`which::which`); `None` where it is not found there. The result
/// depends on the system, and nothing is promised of it.
#[verifier::external_body]
fn on_search_path(name: &str) -> (path: Option<String>)
{
    which::which(name).ok().map(|p| p.to_string_lossy().to_string())
}

/// The manager of the hubs.
#[derive(Debug)]
pub struct Hub4comManager {
    hub4com_path: String,
    instances: Vec<HubInstance>,
}

impl Hub4comManager {
    #[verifier::type_invariant]
    spec fn register_is_sound(&self) -> bool {
        one_hub_each(self.instances.deep_view())
    }

    pub closed spec fn path_view(&self) -> Seq<char> {
        self.hub4com_path@
    }

    /// The hubs that run, in the order in which they were started.
    pub closed spec fn hubs(&self) -> Seq<HubInstanceView> {
        self.instances.deep_view()
    }

    /// The installation paths that are tried first, in this order.
    pub fn well_known_paths() -> (paths: Vec<String>)
        ensures
            paths.deep_view() == seq![
                "C:\\Program Files (x86)\\com0com\\hub4com.exe"@,
                "C:\\Program Files\\com0com\\hub4com.exe"@,
                "C:\\Program Files (x86)\\com0com\\x64\\hub4com.exe"@,
                "C:\\Program Files\\com0com\\x64\\hub4com.exe"@,
                "C:\\Program Files (x86)\\com0com\\hub4com\\hub4com.exe"@,
                "C:\\Program Files\\com0com\\hub4com\\hub4com.exe"@,
            ],
    {
        let mut paths: Vec<String> = Vec::new();
        paths.push(String::from_str("C:\\Program Files (x86)\\com0com\\hub4com.exe"));
        paths.push(String::from_str("C:\\Program Files\\com0com\\hub4com.exe"));
        paths.push(String::from_str("C:\\Program Files (x86)\\com0com\\x64\\hub4com.exe"));
        paths.push(String::from_str("C:\\Program Files\\com0com\\x64\\hub4com.exe"));
        paths.push(String::from_str("C:\\Program Files (x86)\\com0com\\hub4com\\hub4com.exe"));
        paths.push(String::from_str("C:\\Program Files\\com0com\\hub4com\\hub4com.exe"));
        proof {
            assert(paths.deep_view() =~= seq![
                "C:\\Program Files (x86)\\com0com\\hub4com.exe"@,
                "C:\\Program Files\\com0com\\hub4com.exe"@,
                "C:\\Program Files (x86)\\com0com\\x64\\hub4com.exe"@,
                "C:\\Program Files\\com0com\\x64\\hub4com.exe"@,
                "C:\\Program Files (x86)\\com0com\\hub4com\\hub4com.exe"@,
                "C:\\Program Files\\com0com\\hub4com\\hub4com.exe"@,
            ]);
        }
        paths
    }

    /// Picks the hub program: the first of the probed places at which a
    /// file was found, else `on_search_path`, where the program was found by
    /// its name. Fails with `DriverNotInstalled` where it is nowhere.
    pub fn pick_hub4com_path(probes: &Vec<PathProbe>, on_search_path: Option<String>) -> (r: Result<
        String,
        SerialError,
    >)
        ensures
            match r {
                Ok(path) => Some(path@) == (match first_existing(probes@) {
                    Some(found) => Some(found),
                    None => on_search_path.deep_view(),
                }),
                Err(error) => first_existing(probes@) is None && on_search_path is None && error@
                    == SerialErrorView::DriverNotInstalled,
            },
    {
        match Com0comManager::find_setupc_path(probes) {
            Ok(path) => Ok(path),
            Err(_) => match on_search_path {
                Some(path) => Ok(path),
                None => Err(SerialError::DriverNotInstalled),
            },
        }
    }

    /// Finds the hub program among the probed places, or else as
    /// `hub4com.exe` on the search path of the system as it is at this
    /// moment.
    pub fn find_hub4com_path(probes: &Vec<PathProbe>) -> (r: Result<String, SerialError>)
        ensures
            match r {
                Ok(path) => first_existing(probes@) is Some ==> first_existing(probes@) == Some(
                    path@,
                ),
                Err(error) => first_existing(probes@) is None && error@
                    == SerialErrorView::DriverNotInstalled,
            },
    {
        if Com0comManager::is_installed(probes) {
            Self::pick_hub4com_path(probes, None)
        } else {
            Self::pick_hub4com_path(probes, on_search_path("hub4com.exe"))
        }
    }

    /// A manager without hubs, for the hub program that is found.
    pub fn new(probes: &Vec<PathProbe>) -> (r: Result<Self, SerialError>)
        ensures
            match r {
                Ok(manager) => manager.hubs() == Seq::<HubInstanceView>::empty() && (first_existing(
                    probes@,
                ) is Some ==> first_existing(probes@) == Some(manager.path_view())),
                Err(error) => first_existing(probes@) is None && error@
                    == SerialErrorView::DriverNotInstalled,
            },
    {
        match Self::find_hub4com_path(probes) {
            Ok(hub4com_path) => {
                let instances: Vec<HubInstance> = Vec::new();
                proof {
                    assert(instances.deep_view() =~= Seq::<HubInstanceView>::empty());
                }
                Ok(Hub4comManager { hub4com_path, instances })
            },
            Err(error) => Err(error),
        }
    }

    /// Whether the hub program is found.
    pub fn is_installed(probes: &Vec<PathProbe>) -> (installed: bool)
        ensures
            first_existing(probes@) is Some ==> installed,
    {
        Self::find_hub4com_path(probes).is_ok()
    }

    pub fn get_hub4com_path(&self) -> (path: &String)
        ensures
            path@ == self.path_view(),
    {
        &self.hub4com_path
    }

    fn find(&self, physical_port: &str) -> (at: Option<usize>)
        ensures
            match at {
                Some(i) => position_of(self.hubs(), physical_port@) == Some(i as int),
                None => position_of(self.hubs(), physical_port@) is None,
            },
    {
        let ghost hubs = self.instances.deep_view();
        let wanted = String::from_str(physical_port);
        let mut i: usize = self.instances.len();
        proof {
            assert(hubs.take(i as int) =~= hubs);
        }
        while i > 0
            invariant
                i <= self.instances.len(),
                hubs == self.instances.deep_view(),
                wanted@ == physical_port@,
                position_of(hubs, physical_port@) == position_of(
                    hubs.take(i as int),
                    physical_port@,
                ),
            decreases i,
        {
            proof {
                assert(hubs.take(i as int).drop_last() =~= hubs.take(i - 1));
                assert(hubs.take(i as int).last() == hubs[i - 1]);
                assert(hubs[i - 1] == self.instances@[i - 1]@);
            }
            if self.instances[i - 1].physical_port == wanted {
                return Some(i - 1);
            }
            i = i - 1;
        }
        None
    }
}

fn clone_names(names: &Vec<String>) -> (copy: Vec<String>)
    ensures
        copy.deep_view() == names.deep_view(),
{
    let mut copy: Vec<String> = Vec::new();
    let mut i: usize = 0;
    while i < names.len()
        invariant
            i <= names.len(),
            copy@.len() == i,
            forall|k: int| 0 <= k < i ==> (#[trigger] copy@[k])@ == names@[k]@,
        decreases names.len() - i,
    {
        copy.push(names[i].clone());
        i = i + 1;
    }
    proof {
        assert(copy.deep_view() =~= names.deep_view());
    }
    copy
}

/// What is reported of a hub that did not come to run.
pub open spec fn start_failure(outcome: HubStart) -> Option<SerialErrorView> {
    match outcome {
        HubStart::NotStarted { os_error } => Some(
            SerialErrorView::DriverCommandFailed { stderr: os_error@ },
        ),
        HubStart::Exited { stderr } => Some(SerialErrorView::DriverCommandFailed { stderr: stderr@ }),
        HubStart::Unknown { reason } => Some(
            SerialErrorView::DriverCommandFailed { stderr: reason@ },
        ),
        HubStart::Running => None,
    }
}

impl Hub4comManager {
    /// Begins sharing `physical_port` with `virtual_ports`: the command
    /// line with which the hub is to be started. Fails with
    /// `AlreadyEnabled` where a hub serves the port already. The register
    /// is not changed yet: what became of the hub goes to `share_started`.
    pub fn start_share(
        &self,
        physical_port: &str,
        virtual_ports: &Vec<String>,
        baud_rate: Option<u32>,
    ) -> (r: Result<Vec<String>, SerialError>)
        ensures
            match r {
                Ok(args) => position_of(self.hubs(), physical_port@) is None && args.deep_view()
                    == share_args(physical_port@, virtual_ports.deep_view(), baud_rate),
                Err(error) => position_of(self.hubs(), physical_port@) is Some && error@
                    == SerialErrorView::AlreadyEnabled,
            },
    {
        match self.find(physical_port) {
            Some(_) => Err(SerialError::AlreadyEnabled),
            None => Ok(make_share_args(physical_port, virtual_ports, baud_rate)),
        }
    }

    /// Takes note of what became of a hub that was started for
    /// `physical_port`. A hub that runs is entered in the register, last.
    /// One that did not start, has ended already, or of which nothing can
    /// be said is reported as `DriverCommandFailed`, with what is known of
    /// the failure. Where a hub serves the port already, the result is
    /// `AlreadyEnabled`. The register changes only where `Ok` is returned.
    pub fn share_started(
        &mut self,
        physical_port: &str,
        virtual_ports: &Vec<String>,
        outcome: HubStart,
    ) -> (r: Result<(), SerialError>)
        ensures
            final(self).path_view() == old(self).path_view(),
            match r {
                Ok(_) => position_of(old(self).hubs(), physical_port@) is None && outcome
                    is Running && final(self).hubs() == old(self).hubs().push(
                    HubInstanceView {
                        physical_port: physical_port@,
                        virtual_ports: virtual_ports.deep_view(),
                    },
                ),
                Err(error) => final(self).hubs() == old(self).hubs() && (if position_of(
                    old(self).hubs(),
                    physical_port@,
                ) is Some {
                    error@ == SerialErrorView::AlreadyEnabled
                } else {
                    start_failure(outcome) == Some(error@)
                }),
            },
    {
        proof {
            use_type_invariant(&*self);
        }
        if self.find(physical_port).is_some() {
            return Err(SerialError::AlreadyEnabled);
        }
        match outcome {
            HubStart::NotStarted { os_error } => Err(
                SerialError::DriverCommandFailed { stderr: os_error },
            ),
            HubStart::Exited { stderr } => Err(SerialError::DriverCommandFailed { stderr }),
            HubStart::Unknown { reason } => Err(SerialError::DriverCommandFailed { stderr: reason }),
            HubStart::Running => {
                let ghost before = self.instances.deep_view();
                let instance = HubInstance {
                    physical_port: String::from_str(physical_port),
                    virtual_ports: clone_names(virtual_ports),
                };
                let mut instances: Vec<HubInstance> = Vec::new();
                core::mem::swap(&mut instances, &mut self.instances);
                instances.push(instance);
                proof {
                    position_of_found(before, physical_port@);
                    assert(instances.deep_view() =~= before.push(
                        HubInstanceView {
                            physical_port: physical_port@,
                            virtual_ports: virtual_ports.deep_view(),
                        },
                    ));
                    let after = instances.deep_view();
                    assert forall|i: int, j: int| 0 <= i < j < after.len() implies (
                    #[trigger] after[i]).physical_port != (#[trigger] after[j]).physical_port by {
                        assert(after[i] == before[i]);
                        if j < before.len() {
                            assert(after[j] == before[j]);
                        }
                    }
                }
                self.instances = instances;
                Ok(())
            },
        }
    }
}

impl Hub4comManager {
    /// Ends the sharing of `physical_port`: its hub leaves the register,
    /// and the caller ends the process. Fails with `PortNotOpen` where no
    /// hub serves the port.
    pub fn stop_share(&mut self, physical_port: &str) -> (r: Result<(), SerialError>)
        ensures
            final(self).path_view() == old(self).path_view(),
            match r {
                Ok(_) => position_of(old(self).hubs(), physical_port@) matches Some(at)
                    && final(self).hubs() == old(self).hubs().remove(at),
                Err(error) => position_of(old(self).hubs(), physical_port@) is None && error@
                    == SerialErrorView::PortNotOpen && final(self).hubs() == old(self).hubs(),
            },
    {
        proof {
            use_type_invariant(&*self);
        }
        match self.find(physical_port) {
            None => Err(SerialError::PortNotOpen),
            Some(at) => {
                let ghost before = self.instances.deep_view();
                let mut instances: Vec<HubInstance> = Vec::new();
                core::mem::swap(&mut instances, &mut self.instances);
                proof {
                    position_of_found(before, physical_port@);
                }
                let _gone = instances.remove(at);
                proof {
                    let after = instances.deep_view();
                    assert(after =~= before.remove(at as int));
                    assert forall|i: int, j: int| 0 <= i < j < after.len() implies (
                    #[trigger] after[i]).physical_port != (#[trigger] after[j]).physical_port by {
                        let from_i = if i < at {
                            i
                        } else {
                            i + 1
                        };
                        let from_j = if j < at {
                            j
                        } else {
                            j + 1
                        };
                        assert(after[i] == before[from_i]);
                        assert(after[j] == before[from_j]);
                    }
                }
                self.instances = instances;
                Ok(())
            },
        }
    }

    /// The hubs that run: each physical port with its virtual ports, in
    /// the order in which the hubs were started.
    pub fn get_sharing_status(&self) -> (status: Vec<(String, Vec<String>)>)
        ensures
            status@.len() == self.hubs().len(),
            forall|i: int|
                0 <= i < status@.len() ==> (#[trigger] status@[i]).0@ == self.hubs()[i].physical_port
                    && status@[i].1.deep_view() == self.hubs()[i].virtual_ports,
    {
        let mut status: Vec<(String, Vec<String>)> = Vec::new();
        let mut i: usize = 0;
        while i < self.instances.len()
            invariant
                i <= self.instances.len(),
                status@.len() == i,
                forall|k: int|
                    0 <= k < i ==> (#[trigger] status@[k]).0@ == self.instances@[k].physical_port@
                        && status@[k].1.deep_view() == self.instances@[k].virtual_ports.deep_view(),
            decreases self.instances.len() - i,
        {
            let instance = &self.instances[i];
            status.push((instance.physical_port.clone(), clone_names(&instance.virtual_ports)));
            i = i + 1;
        }
        status
    }
}

} // verus!
