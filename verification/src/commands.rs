//! What the shell hands over and takes back: the settings of a connection
//! as the shell writes them, and the ports as the shell shows them.

use vstd::prelude::*;
use vstd::string::*;
use crate::decimal::{decimal_digits, decimal_string, is_digit, parse_u32, parse_u32_range};
use crate::serial_manager::{DataBits, FlowControl, Parity, StopBits};
use crate::text::{ascii_lowercase, chars_of, is_ascii, lowercase_of, to_lowercase};

verus! {

/// The settings of a connection as the shell writes them.
#[derive(Debug)]
pub struct SerialConfig {
    pub port_name: String,
    pub baud_rate: u32,
    pub data_bits: u8,
    pub flow_control: String,
    pub parity: String,
    pub stop_bits: u8,
}

pub open spec fn data_bits_of(n: u8) -> Option<DataBits> {
    if n == 5 {
        Some(DataBits::Five)
    } else if n == 6 {
        Some(DataBits::Six)
    } else if n == 7 {
        Some(DataBits::Seven)
    } else if n == 8 {
        Some(DataBits::Eight)
    } else {
        None
    }
}

pub open spec fn flow_control_of(name: Seq<char>) -> Option<FlowControl> {
    if name == "None"@ {
        Some(FlowControl::Off)
    } else if name == "Software"@ {
        Some(FlowControl::Software)
    } else if name == "Hardware"@ {
        Some(FlowControl::Hardware)
    } else {
        None
    }
}

pub open spec fn parity_of(name: Seq<char>) -> Option<Parity> {
    if name == "None"@ {
        Some(Parity::Off)
    } else if name == "Odd"@ {
        Some(Parity::Odd)
    } else if name == "Even"@ {
        Some(Parity::Even)
    } else {
        None
    }
}

pub open spec fn stop_bits_of(n: u8) -> Option<StopBits> {
    if n == 1 {
        Some(StopBits::One)
    } else if n == 2 {
        Some(StopBits::Two)
    } else {
        None
    }
}

/// The settings that a configuration stands for, or the complaint about
/// the first of its fields that stands for none: data bits, then flow
/// control, then parity, then stop bits.
pub open spec fn params_of(
    data_bits: u8,
    flow_control: Seq<char>,
    parity: Seq<char>,
    stop_bits: u8,
) -> Result<(DataBits, FlowControl, Parity, StopBits), Seq<char>> {
    match data_bits_of(data_bits) {
        None => Err("Invalid data bits: "@ + decimal_digits(data_bits as nat)),
        Some(d) => match flow_control_of(flow_control) {
            None => Err("Invalid flow control: "@ + flow_control),
            Some(f) => match parity_of(parity) {
                None => Err("Invalid parity: "@ + parity),
                Some(p) => match stop_bits_of(stop_bits) {
                    None => Err("Invalid stop bits: "@ + decimal_digits(stop_bits as nat)),
                    Some(s) => Ok((d, f, p, s)),
                },
            },
        },
    }
}

/// A result of `to_params`, for contracts.
pub open spec fn params_view(r: Result<(DataBits, FlowControl, Parity, StopBits), String>) -> Result<
    (DataBits, FlowControl, Parity, StopBits),
    Seq<char>,
> {
    match r {
        Ok(params) => Ok(params),
        Err(complaint) => Err(complaint@),
    }
}

fn is_text(name: &String, word: &str) -> (same: bool)
    ensures
        same == (name@ == word@),
{
    *name == String::from_str(word)
}

fn complaint(about: &str, what: &str) -> (text: String)
    ensures
        text@ == about@ + what@,
{
    let mut text = String::from_str(about);
    text.append(what);
    text
}

impl SerialConfig {
    /// Reads the settings. Fails with a complaint that names the first
    /// field that no setting goes by.
    pub fn to_params(&self) -> (r: Result<(DataBits, FlowControl, Parity, StopBits), String>)
        ensures
            params_view(r) == params_of(
                self.data_bits,
                self.flow_control@,
                self.parity@,
                self.stop_bits,
            ),
    {
        let data_bits = if self.data_bits == 5 {
            DataBits::Five
        } else if self.data_bits == 6 {
            DataBits::Six
        } else if self.data_bits == 7 {
            DataBits::Seven
        } else if self.data_bits == 8 {
            DataBits::Eight
        } else {
            let n = decimal_string(self.data_bits as u32);
            return Err(complaint("Invalid data bits: ", n.as_str()));
        };
        let flow_control = if is_text(&self.flow_control, "None") {
            FlowControl::Off
        } else if is_text(&self.flow_control, "Software") {
            FlowControl::Software
        } else if is_text(&self.flow_control, "Hardware") {
            FlowControl::Hardware
        } else {
            return Err(complaint("Invalid flow control: ", self.flow_control.as_str()));
        };
        let parity = if is_text(&self.parity, "None") {
            Parity::Off
        } else if is_text(&self.parity, "Odd") {
            Parity::Odd
        } else if is_text(&self.parity, "Even") {
            Parity::Even
        } else {
            return Err(complaint("Invalid parity: ", self.parity.as_str()));
        };
        let stop_bits = if self.stop_bits == 1 {
            StopBits::One
        } else if self.stop_bits == 2 {
            StopBits::Two
        } else {
            let n = decimal_string(self.stop_bits as u32);
            return Err(complaint("Invalid stop bits: ", n.as_str()));
        };
        Ok((data_bits, flow_control, parity, stop_bits))
    }
}

/// A port as the shell shows it: its name, and what it is.
#[derive(Debug)]
pub struct PortInfo {
    pub port_name: String,
    pub product_name: Option<String>,
}

/// What kind of device a port is, as far as the system tells.
#[derive(Debug)]
pub enum PortKind {
    Usb { product: Option<String>, manufacturer: Option<String> },
    Bluetooth,
    Pci,
    Unknown,
}

/// A text, or the empty text where there is none.
pub open spec fn text_or_empty(text: Option<String>) -> Seq<char> {
    match text {
        Some(t) => t@,
        None => Seq::empty(),
    }
}

/// What a port is shown as: under the name the system's own list gives
/// it, where it gives one; else a USB port under its product, or its
/// manufacturer where it names no product, or as a plain USB device; any
/// other port by its kind.
pub open spec fn product_name_of(listed: Option<String>, kind: PortKind) -> Seq<char> {
    match listed {
        Some(name) => name@,
        None => match kind {
            PortKind::Usb { product, manufacturer } => if text_or_empty(product).len() > 0 {
                text_or_empty(product)
            } else if text_or_empty(manufacturer).len() > 0 {
                text_or_empty(manufacturer)
            } else {
                "USB Device"@
            },
            PortKind::Bluetooth => "Bluetooth Device"@,
            PortKind::Pci => "PCI Device"@,
            PortKind::Unknown => "Standard Serial Port"@,
        },
    }
}

/// Whether a port whose name in lowercase is `lower` is one that the shell
/// lists: the ends of virtual pairs that go by the driver's own names,
/// which begin with `cnc`, are left out.
pub open spec fn is_listed_lowercase(lower: Seq<char>) -> bool {
    !seq!['c', 'n', 'c'].is_prefix_of(lower)
}

/// Whether a port is one that the shell lists.
pub open spec fn is_listed(port_name: Seq<char>) -> bool {
    is_listed_lowercase(lowercase_of(port_name))
}

/// How many characters stand before the first decimal digit of `name`.
pub open spec fn digits_start(name: Seq<char>) -> nat
    decreases name.len(),
{
    if name.len() == 0 || is_digit(name[0]) {
        0
    } else {
        1 + digits_start(name.drop_first())
    }
}

/// How many decimal digits `name` begins with.
pub open spec fn digits_len(name: Seq<char>) -> nat
    decreases name.len(),
{
    if name.len() == 0 || !is_digit(name[0]) {
        0
    } else {
        1 + digits_len(name.drop_first())
    }
}

/// The first run of decimal digits in `name`; empty where it holds none.
pub open spec fn first_digits(name: Seq<char>) -> Seq<char> {
    let rest = name.skip(digits_start(name) as int);
    rest.take(digits_len(rest) as int)
}

/// The number that a port's name holds: its first run of decimal digits,
/// read as a `u32`; none where the name holds no digit or the run is worth
/// more than a `u32` holds. Ports are put in order by it.
pub open spec fn number_in_name(name: Seq<char>) -> Option<u32> {
    parse_u32(first_digits(name))
}

fn non_empty(text: Option<String>) -> (r: Option<String>)
    ensures
        match r {
            Some(t) => t@ == text_or_empty(text) && t@.len() > 0,
            None => text_or_empty(text).len() == 0,
        },
{
    match text {
        Some(t) => {
            if t.as_str().unicode_len() > 0 {
                Some(t)
            } else {
                None
            }
        },
        None => None,
    }
}

impl PortInfo {
    /// Whether the port `port_name` is one that the shell lists. The name
    /// is read in lowercase, which for a name in ASCII characters is the
    /// name with its capitals made small letters.
    pub fn lists(port_name: &str) -> (listed: bool)
        ensures
            listed == is_listed(port_name@),
            is_ascii(port_name@) ==> listed == is_listed_lowercase(ascii_lowercase(port_name@)),
    {
        let lower = to_lowercase(port_name);
        Self::lists_lowercase(lower.as_str())
    }

    /// Whether a port whose name in lowercase is `lower` is one that the
    /// shell lists.
    pub fn lists_lowercase(lower: &str) -> (listed: bool)
        ensures
            listed == is_listed_lowercase(lower@),
    {
        let chars = chars_of(lower);
        let hidden = chars.len() >= 3 && chars[0] == 'c' && chars[1] == 'n' && chars[2] == 'c';
        proof {
            let prefix = seq!['c', 'n', 'c'];
            if hidden {
                assert(chars@.subrange(0, 3) =~= prefix);
            } else if prefix.is_prefix_of(chars@) {
                assert(chars@.subrange(0, 3)[0] == prefix[0]);
                assert(chars@.subrange(0, 3)[1] == prefix[1]);
                assert(chars@.subrange(0, 3)[2] == prefix[2]);
            }
        }
        !hidden
    }

    /// The number that a port's name holds.
    pub fn first_number(port_name: &str) -> (number: Option<u32>)
        ensures
            number == number_in_name(port_name@),
    {
        let chars = chars_of(port_name);
        let n = chars.len();
        let mut start: usize = 0;
        proof {
            assert(chars@.subrange(0, n as int) =~= chars@);
        }
        while start < n && !(chars[start] >= '0' && chars[start] <= '9')
            invariant
                start <= n == chars.len(),
                digits_start(chars@) == start + digits_start(chars@.subrange(start as int, n as int)),
            decreases n - start,
        {
            proof {
                let s = chars@.subrange(start as int, n as int);
                assert(s.drop_first() =~= chars@.subrange(start + 1, n as int));
            }
            start = start + 1;
        }
        let ghost rest = chars@.subrange(start as int, n as int);
        proof {
            assert(digits_start(rest) == 0);
            assert(chars@.skip(start as int) =~= rest);
        }
        let mut end: usize = start;
        while end < n && chars[end] >= '0' && chars[end] <= '9'
            invariant
                start <= end <= n == chars.len(),
                rest == chars@.subrange(start as int, n as int),
                digits_len(rest) == (end - start) + digits_len(chars@.subrange(end as int, n as int)),
            decreases n - end,
        {
            proof {
                let s = chars@.subrange(end as int, n as int);
                assert(s.drop_first() =~= chars@.subrange(end + 1, n as int));
            }
            end = end + 1;
        }
        proof {
            assert(digits_len(chars@.subrange(end as int, n as int)) == 0);
            assert(rest.take(end - start) =~= chars@.subrange(start as int, end as int));
        }
        parse_u32_range(&chars, start, end)
    }

    /// The port as the shell shows it. `listed` is the name that the
    /// system's own list of ports gives it, where it gives one.
    pub fn describe(port_name: String, listed: Option<String>, kind: PortKind) -> (info: Self)
        ensures
            info.port_name@ == port_name@,
            info.product_name.deep_view() == Some(product_name_of(listed, kind)),
    {
        let product_name = match listed {
            Some(name) => name,
            None => match kind {
                PortKind::Usb { product, manufacturer } => match non_empty(product) {
                    Some(p) => p,
                    None => match non_empty(manufacturer) {
                        Some(m) => m,
                        None => String::from_str("USB Device"),
                    },
                },
                PortKind::Bluetooth => String::from_str("Bluetooth Device"),
                PortKind::Pci => String::from_str("PCI Device"),
                PortKind::Unknown => String::from_str("Standard Serial Port"),
            },
        };
        PortInfo { port_name, product_name: Some(product_name) }
    }
}

} // verus!
