//! The manager of the virtual-port driver: the pairs it lists, and the
//! commands of its control utility.

use vstd::prelude::*;
use vstd::string::*;
use crate::command_run::{begin, CommandRun, RunStep};
use crate::decimal::{decimal_digits, decimal_string};
use crate::driver_task::{
    list_args, make_list_args, make_remove_args, remove_args, TaskPhase, TaskPhaseView, TaskStep,
    TaskStepView,
};
use crate::error::{SerialError, SerialErrorView};
use crate::listing::{cnc_prefix, listing, parse_listing, parse_prefix_range};
use crate::text::{ascii_uppercase, chars_of, is_ascii, to_uppercase, uppercase_of};

verus! {

/// A virtual port pair: its number and the names of its two ends.
#[derive(Debug)]
pub struct PortPair {
    /// The pair's number (0, 1, 2, ...).
    pub pair_id: u32,
    /// Name of the A side, such as `CNCA0` or `COM10`.
    pub port_a: String,
    /// Name of the B side, such as `CNCB0` or `COM11`.
    pub port_b: String,
}

/// A pair with its names as character sequences.
pub struct PortPairView {
    pub pair_id: u32,
    pub port_a: Seq<char>,
    pub port_b: Seq<char>,
}

impl View for PortPair {
    type V = PortPairView;

    open spec fn view(&self) -> PortPairView {
        PortPairView { pair_id: self.pair_id, port_a: self.port_a@, port_b: self.port_b@ }
    }
}

impl DeepView for PortPair {
    type V = PortPairView;

    open spec fn deep_view(&self) -> PortPairView {
        self@
    }
}

impl Clone for PortPair {
    fn clone(&self) -> (r: Self)
        ensures
            r@ == self@,
    {
        PortPair {
            pair_id: self.pair_id,
            port_a: self.port_a.clone(),
            port_b: self.port_b.clone(),
        }
    }
}

/// A place where the control utility may be, and whether a file is there.
#[derive(Debug)]
pub struct PathProbe {
    pub path: String,
    pub exists: bool,
}

/// The path of the first probe that found a file.
pub open spec fn first_existing(probes: Seq<PathProbe>) -> Option<Seq<char>>
    decreases probes.len(),
{
    if probes.len() == 0 {
        None
    } else if probes[0].exists {
        Some(probes[0].path@)
    } else {
        first_existing(probes.drop_first())
    }
}

/// A key of the system registry under which the driver records where it is
/// installed, the directories below that place, by their names, in which
/// the control utility is looked for, and the name of its file. An empty
/// directory name is the place itself.
#[derive(Debug)]
pub struct RegistryLocation {
    pub key: String,
    pub value: String,
    pub subdirs: Vec<String>,
    pub file_name: String,
}

/// The lowest port number that is handed out: those below are left to the
/// physical ports.
pub const FIRST_COM_NUMBER: u32 = 10;

/// One more than the highest port number that is handed out.
pub const COM_NUMBER_LIMIT: u32 = 256;

/// The name of the port with number `n`.
pub open spec fn com_name(n: nat) -> Seq<char> {
    "COM"@ + decimal_digits(n)
}

/// The names of some ports in uppercase, as the names of taken ports are
/// compared.
pub open spec fn uppercased(existing: Seq<Seq<char>>) -> Seq<Seq<char>> {
    Seq::new(existing.len(), |i: int| uppercase_of(existing[i]))
}

/// The uppercase form of each name that is written in ASCII characters
/// alone is the name with its small letters made capitals.
pub open spec fn ascii_names_are_capitalised(existing: Seq<Seq<char>>) -> bool {
    forall|k: int|
        0 <= k < existing.len() && is_ascii(#[trigger] existing[k]) ==> uppercase_of(existing[k])
            == ascii_uppercase(existing[k])
}

/// Whether `name`, written in ASCII characters, is the name of port `n`
/// but for the case of its letters.
pub open spec fn goes_under(name: Seq<char>, n: nat) -> bool {
    is_ascii(name) && ascii_uppercase(name) == com_name(n)
}

/// Whether one of the names in `taken` is the name of port `n`.
pub open spec fn is_taken(taken: Seq<Seq<char>>, n: nat) -> bool {
    exists|i: int| 0 <= i < taken.len() && #[trigger] taken[i] == com_name(n)
}

/// The numbers from `low` up to, not including, `high` that are not taken,
/// ascending.
pub open spec fn free_numbers(existing: Seq<Seq<char>>, low: nat, high: nat) -> Seq<u32>
    decreases high,
{
    if high <= low {
        Seq::empty()
    } else {
        let below = free_numbers(existing, low, (high - 1) as nat);
        if is_taken(existing, (high - 1) as nat) {
            below
        } else {
            below.push((high - 1) as u32)
        }
    }
}

/// The first `count` free numbers, or all of them where there are fewer.
pub open spec fn first_free(existing: Seq<Seq<char>>, count: nat) -> Seq<u32> {
    let all = free_numbers(existing, FIRST_COM_NUMBER as nat, COM_NUMBER_LIMIT as nat);
    if count <= all.len() {
        all.take(count as int)
    } else {
        all
    }
}

/// The free numbers up to a bound are the first of those up to a higher one,
/// they lie in their range and none of them is taken.
pub proof fn free_numbers_grow(existing: Seq<Seq<char>>, low: nat, mid: nat, high: nat)
    requires
        low <= mid <= high <= u32::MAX,
    ensures
        free_numbers(existing, low, mid).is_prefix_of(free_numbers(existing, low, high)),
        forall|i: int|
            0 <= i < free_numbers(existing, low, mid).len() ==> {
                let n = #[trigger] free_numbers(existing, low, mid)[i];
                low <= n < mid && !is_taken(existing, n as nat)
            },
    decreases high - mid, mid,
{
    if mid < high {
        free_numbers_grow(existing, low, mid, (high - 1) as nat);
    } else if low < mid {
        free_numbers_grow(existing, low, (mid - 1) as nat, (mid - 1) as nat);
        let below = free_numbers(existing, low, (mid - 1) as nat);
        let all = free_numbers(existing, low, mid);
        assert forall|i: int| 0 <= i < all.len() implies {
            let n = #[trigger] all[i];
            low <= n < mid && !is_taken(existing, n as nat)
        } by {
            if i < below.len() {
                assert(all[i] == below[i]);
            }
        }
    }
}

/// The port argument of `install`: the name, or `-` to leave the naming
/// to the driver, behind `PortName=`.
pub open spec fn port_arg(name: Seq<char>) -> Seq<char> {
    "PortName="@ + name
}

/// The command that creates a pair.
pub open spec fn install_args(name_a: Seq<char>, name_b: Seq<char>) -> Seq<Seq<char>> {
    seq!["install"@, port_arg(name_a), port_arg(name_b)]
}

/// The command that renames one side of pair `id`.
pub open spec fn change_args(id: u32, side_a: bool, name: Seq<char>) -> Seq<Seq<char>> {
    seq![
        "change"@,
        (if side_a {
            "CNCA"@
        } else {
            "CNCB"@
        }) + decimal_digits(id as nat),
        "PortName="@ + name,
    ]
}

fn make_port_arg(name: &str) -> (arg: String)
    ensures
        arg@ == port_arg(name@),
{
    let mut arg = String::from_str("PortName=");
    arg.append(name);
    arg
}

fn make_change_args(id: u32, side_a: bool, name: &str) -> (args: Vec<String>)
    ensures
        args.deep_view() == change_args(id, side_a, name@),
{
    let mut port = if side_a {
        String::from_str("CNCA")
    } else {
        String::from_str("CNCB")
    };
    let digits = decimal_string(id);
    port.append(digits.as_str());
    let mut binding = String::from_str("PortName=");
    binding.append(name);
    let mut args: Vec<String> = Vec::new();
    args.push(String::from_str("change"));
    args.push(port);
    args.push(binding);
    proof {
        assert(args.deep_view() =~= change_args(id, side_a, name@));
    }
    args
}

/// A fresh random token: `uuid::Uuid::new_v4`, written out by `to_string`
/// in the hyphenated form, which takes 36 characters. Nothing else is
/// promised of it: two tokens may or may not differ. Where the system has
/// no random bytes to give, the call does not return.
#[verifier::external_body]
fn fresh_token() -> (token: String)
    ensures
        token@.len() == 36,
{
    uuid::Uuid::new_v4().to_string()
}

/// The directory that holds the file at `path`, as `std::path::Path::parent`
/// gives it: the path without its last component, or none where the path
/// ends in a root or is empty. It is found from the text of the path alone,
/// by the path rules of the system that the library is built for.
pub uninterp spec fn parent_of(path: Seq<char>) -> Option<Seq<char>>;

/// The directory that holds the file at `path`: `std::path::Path::parent`
/// on the path, its result as text. The contract gives the result its
/// name and says no more of it.
#[verifier::external_body]
fn parent_dir(path: &str) -> (dir: Option<String>)
    ensures
        dir.deep_view() == parent_of(path@),
{
    std::path::Path::new(path).parent().map(|p| p.to_string_lossy().to_string())
}

/// The manager of the virtual-port driver. It knows where the control
/// utility is and in which directory it lies, where it lies in one, and
/// holds the token under which it asks for privileged help.
#[derive(Debug)]
pub struct Com0comManager {
    setupc_path: String,
    working_dir: Option<String>,
    admin_token: String,
}

/// A manager as plain values.
pub struct Com0comManagerView {
    pub setupc_path: Seq<char>,
    pub working_dir: Option<Seq<char>>,
    pub admin_token: Seq<char>,
}

impl View for Com0comManager {
    type V = Com0comManagerView;

    open spec fn view(&self) -> Com0comManagerView {
        Com0comManagerView {
            setupc_path: self.path_view(),
            working_dir: self.dir_view(),
            admin_token: self.token_view(),
        }
    }
}

impl Com0comManager {
    pub closed spec fn path_view(&self) -> Seq<char> {
        self.setupc_path@
    }

    pub closed spec fn token_view(&self) -> Seq<char> {
        self.admin_token@
    }

    /// The directory in which the utility is run.
    pub closed spec fn dir_view(&self) -> Option<Seq<char>> {
        self.working_dir.deep_view()
    }

    /// The installation paths that are tried first, in this order.
    pub fn well_known_paths() -> (paths: Vec<String>)
        ensures
            paths.deep_view() == seq![
                "C:\\Program Files (x86)\\com0com\\setupc.exe"@,
                "C:\\Program Files\\com0com\\setupc.exe"@,
                "C:\\Program Files (x86)\\com0com\\x64\\setupc.exe"@,
                "C:\\Program Files\\com0com\\x64\\setupc.exe"@,
            ],
    {
        let mut paths: Vec<String> = Vec::new();
        paths.push(String::from_str("C:\\Program Files (x86)\\com0com\\setupc.exe"));
        paths.push(String::from_str("C:\\Program Files\\com0com\\setupc.exe"));
        paths.push(String::from_str("C:\\Program Files (x86)\\com0com\\x64\\setupc.exe"));
        paths.push(String::from_str("C:\\Program Files\\com0com\\x64\\setupc.exe"));
        proof {
            assert(paths.deep_view() =~= seq![
                "C:\\Program Files (x86)\\com0com\\setupc.exe"@,
                "C:\\Program Files\\com0com\\setupc.exe"@,
                "C:\\Program Files (x86)\\com0com\\x64\\setupc.exe"@,
                "C:\\Program Files\\com0com\\x64\\setupc.exe"@,
            ]);
        }
        paths
    }

    /// Where the registry is consulted when no well-known path holds the
    /// utility: first the driver's own key, where the utility may also be in
    /// the `x64` directory, then the key of a 32-bit installation.
    pub fn registry_locations() -> (locations: Vec<RegistryLocation>)
        ensures
            locations@.len() == 2,
            locations@[0].key@ == "SOFTWARE\\com0com"@,
            locations@[0].value@ == "Install_Dir"@,
            locations@[0].subdirs.deep_view() == seq![""@, "x64"@],
            locations@[0].file_name@ == "setupc.exe"@,
            locations@[1].key@ == "SOFTWARE\\WOW6432Node\\com0com"@,
            locations@[1].value@ == "Install_Dir"@,
            locations@[1].subdirs.deep_view() == seq![""@],
            locations@[1].file_name@ == "setupc.exe"@,
    {
        let mut both: Vec<String> = Vec::new();
        both.push(String::from_str(""));
        both.push(String::from_str("x64"));
        let mut plain: Vec<String> = Vec::new();
        plain.push(String::from_str(""));
        proof {
            assert(both.deep_view() =~= seq![""@, "x64"@]);
            assert(plain.deep_view() =~= seq![""@]);
        }
        let mut locations: Vec<RegistryLocation> = Vec::new();
        locations.push(
            RegistryLocation {
                key: String::from_str("SOFTWARE\\com0com"),
                value: String::from_str("Install_Dir"),
                subdirs: both,
                file_name: String::from_str("setupc.exe"),
            },
        );
        locations.push(
            RegistryLocation {
                key: String::from_str("SOFTWARE\\WOW6432Node\\com0com"),
                value: String::from_str("Install_Dir"),
                subdirs: plain,
                file_name: String::from_str("setupc.exe"),
            },
        );
        locations
    }

    /// Picks the control utility among the places that were probed: the
    /// first at which a file was found. Fails with `DriverNotInstalled`
    /// where none was.
    pub fn find_setupc_path(probes: &Vec<PathProbe>) -> (r: Result<String, SerialError>)
        ensures
            match r {
                Ok(path) => first_existing(probes@) == Some(path@),
                Err(error) => first_existing(probes@) is None && error@
                    == SerialErrorView::DriverNotInstalled,
            },
    {
        let mut i: usize = 0;
        proof {
            assert(probes@.skip(0) =~= probes@);
        }
        while i < probes.len()
            invariant
                i <= probes.len(),
                first_existing(probes@) == first_existing(probes@.skip(i as int)),
            decreases probes.len() - i,
        {
            proof {
                assert(probes@.skip(i as int).drop_first() =~= probes@.skip(i + 1));
            }
            if probes[i].exists {
                return Ok(probes[i].path.clone());
            }
            i = i + 1;
        }
        Err(SerialError::DriverNotInstalled)
    }

    /// A manager for the utility at `setupc_path`, which is run in
    /// `working_dir`, with the token `admin_token`.
    pub fn at(setupc_path: String, working_dir: Option<String>, admin_token: String) -> (manager:
        Self)
        ensures
            manager.path_view() == setupc_path@,
            manager.dir_view() == working_dir.deep_view(),
            manager.token_view() == admin_token@,
    {
        Com0comManager { setupc_path, working_dir, admin_token }
    }

    /// A manager for the utility that the probes found, with a token of its
    /// own. The directory in which the utility is run is the one that holds
    /// it. Fails with `DriverNotInstalled` where no probe found the
    /// utility.
    pub fn new(probes: &Vec<PathProbe>) -> (r: Result<Self, SerialError>)
        ensures
            match r {
                Ok(manager) => first_existing(probes@) == Some(manager.path_view())
                    && manager.dir_view() == parent_of(manager.path_view())
                    && manager.token_view().len() == 36,
                Err(error) => first_existing(probes@) is None && error@
                    == SerialErrorView::DriverNotInstalled,
            },
    {
        match Self::find_setupc_path(probes) {
            Ok(setupc_path) => {
                let working_dir = parent_dir(setupc_path.as_str());
                Ok(Self::at(setupc_path, working_dir, fresh_token()))
            },
            Err(error) => Err(error),
        }
    }

    /// Whether the probes found the control utility.
    pub fn is_installed(probes: &Vec<PathProbe>) -> (installed: bool)
        ensures
            installed == (first_existing(probes@) is Some),
    {
        Self::find_setupc_path(probes).is_ok()
    }

    pub fn get_setupc_path(&self) -> (path: &String)
        ensures
            path@ == self.path_view(),
    {
        &self.setupc_path
    }

    /// The token that this manager sends with each privileged request.
    pub fn get_admin_token(&self) -> (token: &String)
        ensures
            token@ == self.token_view(),
    {
        &self.admin_token
    }

    /// The directory in which the utility is run; `None` where the
    /// utility lies in no directory.
    pub fn get_working_dir(&self) -> (dir: &Option<String>)
        ensures
            dir.deep_view() == self.dir_view(),
    {
        &self.working_dir
    }

    /// Begins a run of the utility with `args` in the manager's directory.
    /// Without a directory the run fails at once.
    pub fn run_command(&self, args: Vec<String>) -> (step: RunStep)
        ensures
            step@ == begin(args.deep_view(), self.dir_view(), self.token_view()),
    {
        let dir = match &self.working_dir {
            Some(dir) => Some(dir.clone()),
            None => None,
        };
        CommandRun::start(args, dir, self.admin_token.clone())
    }

    /// Begins listing the pairs: `list`; the task ends with the pairs of
    /// which both sides are listed, by ascending id.
    pub fn list_pairs(&self) -> (step: TaskStep)
        ensures
            step@ == (TaskStepView::Run { args: list_args(), then: TaskPhaseView::Listing }),
    {
        TaskStep::Run { args: make_list_args(), then: TaskPhase::Listing }
    }

    /// Reads what `list` printed.
    pub fn parse_list_output(output: &str) -> (r: Result<Vec<PortPair>, SerialError>)
        ensures
            r matches Ok(pairs) && pairs.deep_view() == listing(output@),
    {
        Ok(parse_listing(output))
    }

    /// Reads a port's prefix: the pair's id, and whether it is the A side.
    pub fn parse_cnc_prefix(prefix: &str) -> (r: Option<(u32, bool)>)
        ensures
            r == cnc_prefix(prefix@),
    {
        let chars = chars_of(prefix);
        proof {
            assert(chars@.subrange(0, chars@.len() as int) =~= prefix@);
        }
        parse_prefix_range(&chars, 0, chars.len())
    }

    /// Begins creating a pair: `install` with the two names, each a name to
    /// give or `-` for the driver's own; then `list`. The task ends with the
    /// pair of the greatest id in that list.
    pub fn create_pair(&self, name_a: &str, name_b: &str) -> (step: TaskStep)
        ensures
            step@ == (TaskStepView::Run {
                args: install_args(name_a@, name_b@),
                then: TaskPhaseView::Installing,
            }),
    {
        let mut args: Vec<String> = Vec::new();
        args.push(String::from_str("install"));
        args.push(make_port_arg(name_a));
        args.push(make_port_arg(name_b));
        proof {
            assert(args.deep_view() =~= install_args(name_a@, name_b@));
        }
        TaskStep::Run { args, then: TaskPhase::Installing }
    }

    /// Begins renaming pair `pair_id`: `change` for side A, then for side
    /// B. Where the second fails, the first is not undone.
    pub fn rename_pair(&self, pair_id: u32, new_name_a: &str, new_name_b: &str) -> (step: TaskStep)
        ensures
            step@ == (TaskStepView::Run {
                args: change_args(pair_id, true, new_name_a@),
                then: TaskPhaseView::RenamingA {
                    change_b: change_args(pair_id, false, new_name_b@),
                },
            }),
    {
        TaskStep::Run {
            args: make_change_args(pair_id, true, new_name_a),
            then: TaskPhase::RenamingA { change_b: make_change_args(pair_id, false, new_name_b) },
        }
    }

    /// Begins removing pair `pair_id`: `remove` with its id.
    pub fn remove_pair(&self, pair_id: u32) -> (step: TaskStep)
        ensures
            step@ == (TaskStepView::Run {
                args: remove_args(pair_id),
                then: TaskPhaseView::Removing,
            }),
    {
        TaskStep::Run { args: make_remove_args(pair_id), then: TaskPhase::Removing }
    }

    /// Begins removing every pair: `list`, then `remove` for each pair of
    /// that list, by ascending id, until one fails.
    pub fn remove_all(&self) -> (step: TaskStep)
        ensures
            step@ == (TaskStepView::Run { args: list_args(), then: TaskPhaseView::ListingAll }),
    {
        TaskStep::Run { args: make_list_args(), then: TaskPhase::ListingAll }
    }

    /// The first `count` port numbers, from `FIRST_COM_NUMBER` on, that
    /// none of the names in `taken` is the name of; fewer where fewer are
    /// free. The names are compared as they stand.
    pub fn free_com_numbers(taken: &Vec<String>, count: usize) -> (numbers: Vec<u32>)
        ensures
            numbers@ == first_free(taken.deep_view(), count as nat),
            numbers@.len() <= count,
            forall|i: int|
                0 <= i < numbers@.len() ==> FIRST_COM_NUMBER <= (#[trigger] numbers@[i])
                    < COM_NUMBER_LIMIT && !is_taken(taken.deep_view(), numbers@[i] as nat),
    {
        let ghost names = taken.deep_view();
        let mut numbers: Vec<u32> = Vec::new();
        let mut n: u32 = FIRST_COM_NUMBER;
        proof {
            free_numbers_grow(names, 10, 10, 256);
        }
        while n < COM_NUMBER_LIMIT && numbers.len() < count
            invariant
                FIRST_COM_NUMBER <= n <= COM_NUMBER_LIMIT,
                names == taken.deep_view(),
                numbers@ == free_numbers(names, FIRST_COM_NUMBER as nat, n as nat),
                numbers@.len() <= count,
            decreases COM_NUMBER_LIMIT - n,
        {
            let mut candidate = String::from_str("COM");
            let digits = decimal_string(n);
            candidate.append(digits.as_str());
            let mut found = false;
            let mut j: usize = 0;
            while j < taken.len()
                invariant
                    j <= taken.len(),
                    names == taken.deep_view(),
                    candidate@ == com_name(n as nat),
                    found == exists|i: int| 0 <= i < j && #[trigger] names[i] == com_name(n as nat),
                decreases taken.len() - j,
            {
                proof {
                    assert(names[j as int] == taken@[j as int]@);
                }
                if taken[j] == candidate {
                    found = true;
                }
                j = j + 1;
            }
            if !found {
                numbers.push(n);
            }
            n = n + 1;
        }
        proof {
            let all = free_numbers(names, 10, 256);
            free_numbers_grow(names, 10, n as nat, 256);
            if n < COM_NUMBER_LIMIT {
                assert(numbers@.len() == count);
                assert(all.take(count as int) =~= numbers@);
            } else {
                assert(numbers@ == all);
                if count <= all.len() {
                    assert(all.take(count as int) =~= all);
                }
            }
        }
        numbers
    }

    /// The first `count` port numbers, from `FIRST_COM_NUMBER` on, under
    /// which none of the `existing` ports goes, whatever the case of its
    /// name; fewer where fewer are free. The names are compared in
    /// uppercase, which for a name in ASCII characters is the name with its
    /// small letters made capitals.
    pub fn available_com_numbers(existing: &Vec<String>, count: usize) -> (numbers: Vec<u32>)
        ensures
            numbers@ == first_free(uppercased(existing.deep_view()), count as nat),
            ascii_names_are_capitalised(existing.deep_view()),
            numbers@.len() <= count,
            forall|i: int|
                0 <= i < numbers@.len() ==> FIRST_COM_NUMBER <= (#[trigger] numbers@[i])
                    < COM_NUMBER_LIMIT && !is_taken(
                    uppercased(existing.deep_view()),
                    numbers@[i] as nat,
                ),
            forall|k: int, i: int|
                0 <= k < existing@.len() && 0 <= i < numbers@.len() ==> !goes_under(
                    #[trigger] existing.deep_view()[k],
                    #[trigger] numbers@[i] as nat,
                ),
    {
        let ghost names = existing.deep_view();
        let mut upper: Vec<String> = Vec::new();
        let mut k: usize = 0;
        while k < existing.len()
            invariant
                k <= existing.len(),
                names == existing.deep_view(),
                upper@.len() == k,
                forall|i: int| 0 <= i < k ==> (#[trigger] upper@[i])@ == uppercase_of(names[i]),
                forall|i: int|
                    0 <= i < k && is_ascii(#[trigger] names[i]) ==> uppercase_of(names[i])
                        == ascii_uppercase(names[i]),
            decreases existing.len() - k,
        {
            let name = to_uppercase(existing[k].as_str());
            upper.push(name);
            k = k + 1;
        }
        proof {
            assert(upper.deep_view() =~= uppercased(names));
        }
        let numbers = Self::free_com_numbers(&upper, count);
        proof {
            assert forall|k: int, i: int|
                0 <= k < names.len() && 0 <= i < numbers@.len() implies !goes_under(
                #[trigger] names[k],
                #[trigger] numbers@[i] as nat,
            ) by {
                if goes_under(names[k], numbers@[i] as nat) {
                    assert(uppercased(names)[k] == com_name(numbers@[i] as nat));
                    assert(is_taken(uppercased(names), numbers@[i] as nat));
                }
            }
        }
        numbers
    }

    /// The first `count` port numbers that are free on a system whose
    /// ports, as enumerated by the caller at this moment, are `existing`:
    /// none of them goes under a number of the result, whatever the case
    /// of its name. The numbers ascend, and are fewer than `count` where
    /// fewer are free.
    pub fn find_available_com_numbers(&self, existing: &Vec<String>, count: usize) -> (numbers:
        Vec<u32>)
        ensures
            numbers@ == first_free(uppercased(existing.deep_view()), count as nat),
            ascii_names_are_capitalised(existing.deep_view()),
            numbers@.len() <= count,
            forall|i: int|
                0 <= i < numbers@.len() ==> FIRST_COM_NUMBER <= (#[trigger] numbers@[i])
                    < COM_NUMBER_LIMIT && !is_taken(
                    uppercased(existing.deep_view()),
                    numbers@[i] as nat,
                ),
            forall|k: int, i: int|
                0 <= k < existing@.len() && 0 <= i < numbers@.len() ==> !goes_under(
                    #[trigger] existing.deep_view()[k],
                    #[trigger] numbers@[i] as nat,
                ),
            forall|i: int, j: int|
                0 <= i < j < numbers@.len() ==> numbers@[i] < numbers@[j],
    {
        let numbers = Self::available_com_numbers(existing, count);
        proof {
            free_numbers_ascend(uppercased(existing.deep_view()), 10, 256);
        }
        numbers
    }
}

/// Free numbers come in ascending order.
pub proof fn free_numbers_ascend(existing: Seq<Seq<char>>, low: nat, high: nat)
    requires
        low <= high <= u32::MAX,
    ensures
        forall|i: int, j: int|
            0 <= i < j < free_numbers(existing, low, high).len() ==> free_numbers(
                existing,
                low,
                high,
            )[i] < free_numbers(existing, low, high)[j],
    decreases high,
{
    if low < high {
        free_numbers_ascend(existing, low, (high - 1) as nat);
        free_numbers_grow(existing, low, (high - 1) as nat, (high - 1) as nat);
        let below = free_numbers(existing, low, (high - 1) as nat);
        let all = free_numbers(existing, low, high);
        assert forall|i: int, j: int| 0 <= i < j < all.len() implies all[i] < all[j] by {
            assert(all[i] == below[i]);
            if j < below.len() {
                assert(all[j] == below[j]);
            }
        }
    }
}

} // verus!
