use vstd::prelude::*;
use vstd::string::StringSliceAdditionalSpecFns;

use crate::config::Config;
use crate::events::EventType;
use crate::rpc::{Color, IntegerValueChange};

verus! {

/// The command-line surface: the chosen command plus the global options.
#[derive(Clone, Debug)]
pub struct Cli {
    pub command: Commands,
    pub config: Config,
    pub address: Option<String>,
    pub port: Option<u16>,
    pub secure: Option<bool>,
    pub json: bool,
}

/// Either a client command or a server command.
#[derive(Clone, Debug)]
pub enum Commands {
    Client(ClientCommand),
    Server(ServerCommand),
}

/// The server-side commands.
#[derive(Clone, Debug)]
pub enum ServerCommand {
    /// Start the server, optionally on an explicit port.
    Serve { port: Option<u16> },
}

/// A paired hue and saturation option: each may be given, but the server
/// accepts only both together.
#[derive(Clone, Copy, Debug, PartialEq, Eq, Structural)]
pub struct HueSaturation {
    pub hue: Option<IntegerValueChange>,
    pub saturation: Option<IntegerValueChange>,
}

/// The client-side commands.
#[derive(Clone, Debug)]
pub enum ClientCommand {
    /// List all registered devices.
    Devices,
    /// Subscribe to device events, all types when none are named.
    Events { types: Vec<EventType> },
    /// Update properties of a device.
    SetProperties {
        device: String,
        brightness: Option<IntegerValueChange>,
        hue_saturation: HueSaturation,
        temperature: Option<IntegerValueChange>,
        color: Option<Color>,
        power: Option<bool>,
    },
    /// Print information about a device.
    Info { device: String },
    /// Print usage information about a device.
    Usage { device: String },
    /// Turn a device on.
    On { device: String },
    /// Turn a device off.
    Off { device: String },
    /// Reset a device to factory defaults.
    Reset { device: String },
    /// Create shell completions in a directory.
    Completions { directory: String },
}

/// Whether a byte is an ASCII decimal digit.
pub open spec fn spec_is_digit(b: u8) -> bool {
    48 <= b <= 57
}

/// Whether every byte of the string is an ASCII decimal digit.
pub open spec fn spec_all_digits(s: Seq<u8>) -> bool {
    forall|i: int| 0 <= i < s.len() ==> spec_is_digit(#[trigger] s[i])
}

/// The numeric value of a string of ASCII decimal digits.
pub open spec fn spec_digits_value(s: Seq<u8>) -> int
    decreases s.len(),
{
    if s.len() == 0 {
        0
    } else {
        spec_digits_value(s.drop_last()) * 10 + (s.last() - 48)
    }
}

proof fn lemma_digits_value_nonneg(s: Seq<u8>)
    requires
        spec_all_digits(s),
    ensures
        spec_digits_value(s) >= 0,
    decreases s.len(),
{
    if s.len() > 0 {
        assert(spec_all_digits(s.drop_last()));
        lemma_digits_value_nonneg(s.drop_last());
    }
}

/// What parsing a signed decimal integer from the given bytes yields: an
/// optional leading sign, then at least one digit, with a value that must fit
/// the 32-bit range; anything else is no integer.
pub open spec fn spec_parse_i32(s: Seq<u8>) -> Option<i32> {
    let negative = s.len() > 0 && s[0] == 45;
    let digits = if s.len() > 0 && (s[0] == 43 || s[0] == 45) {
        s.drop_first()
    } else {
        s
    };
    if digits.len() == 0 || !spec_all_digits(digits) {
        None
    } else {
        let v = if negative {
            -spec_digits_value(digits)
        } else {
            spec_digits_value(digits)
        };
        if i32::MIN <= v <= i32::MAX {
            Some(v as i32)
        } else {
            None
        }
    }
}

/// Parse a signed decimal integer, as the value-change options are written on
/// the command line: an optional `+` or `-`, then decimal digits.
pub fn parse_i32_bytes(b: &[u8]) -> (r: Option<i32>)
    ensures
        r == spec_parse_i32(b@),
{
    let len = b.len();
    if len == 0 {
        return None;
    }
    let negative = b[0] == 45;
    let start: usize = if b[0] == 43 || b[0] == 45 {
        1
    } else {
        0
    };
    if start == len {
        proof {
            assert(b@.drop_first() =~= b@.subrange(1, len as int));
        }
        return None;
    }
    let ghost digits = if start == 1 { b@.drop_first() } else { b@ };
    proof {
        if start == 1 {
            assert(digits =~= b@.subrange(1, len as int));
        } else {
            assert(digits =~= b@.subrange(0, len as int));
        }
    }
    let mut acc: i64 = 0;
    let mut overflow = false;
    let mut i: usize = start;
    while i < len
        invariant
            start <= i <= len,
            0 < len == b@.len(),
            start == 0 || start == 1,
            (start == 1) <==> (b@[0] == 43 || b@[0] == 45),
            negative == (b@[0] == 45),
            digits == b@.subrange(start as int, len as int),
            forall|j: int| start <= j < i ==> spec_is_digit(#[trigger] b@[j]),
            !overflow ==> 0 <= acc <= 0x8000_0000 && acc == spec_digits_value(
                b@.subrange(start as int, i as int),
            ),
            overflow ==> spec_digits_value(b@.subrange(start as int, i as int)) > 0x8000_0000,
        decreases len - i,
    {
        let d = b[i];
        if d < 48 || d > 57 {
            proof {
                assert(digits[i - start] == b@[i as int]);
                assert(!spec_all_digits(digits));
            }
            return None;
        }
        proof {
            let prefix = b@.subrange(start as int, i as int);
            let extended = b@.subrange(start as int, i + 1 as int);
            assert(extended.drop_last() =~= prefix);
            assert(extended.last() == b@[i as int]);
            assert(spec_all_digits(prefix));
            lemma_digits_value_nonneg(prefix);
        }
        if !overflow {
            acc = acc * 10 + (d - 48) as i64;
            if acc > 0x8000_0000 {
                overflow = true;
            }
        }
        i += 1;
    }
    proof {
        assert(b@.subrange(start as int, len as int) == digits);
        assert(spec_all_digits(digits));
        lemma_digits_value_nonneg(digits);
    }
    if overflow {
        return None;
    }
    if negative {
        Some((-acc) as i32)
    } else {
        if acc > 2147483647 {
            None
        } else {
            Some(acc as i32)
        }
    }
}

/// Whether the option was written with a leading sign, which marks it as a
/// relative change rather than an absolute value.
pub open spec fn spec_is_relative(s: Seq<u8>) -> bool {
    s.len() > 0 && (s[0] == 43 || s[0] == 45)
}

/// What parsing a value-change option with the absolute domain `[lo, hi]`
/// yields: a relative change for any signed integer, an absolute change only
/// inside the domain, and nothing for malformed or out-of-range input.
pub open spec fn spec_parse_value_change(s: Seq<u8>, lo: int, hi: int) -> Option<
    IntegerValueChange,
> {
    match spec_parse_i32(s) {
        Some(v) => if spec_is_relative(s) {
            Some(IntegerValueChange { absolute: false, value: v })
        } else if lo <= v <= hi {
            Some(IntegerValueChange { absolute: true, value: v })
        } else {
            None
        },
        None => None,
    }
}

fn parse_value_change(s: &str, lo: i32, hi: i32, range_message: &str) -> (r: Result<
    IntegerValueChange,
    String,
>)
    requires
        0 < lo <= hi,
    ensures
        match r {
            Ok(change) => Some(change) == spec_parse_value_change(
                s.spec_bytes(),
                lo as int,
                hi as int,
            ),
            Err(_) => spec_parse_value_change(s.spec_bytes(), lo as int, hi as int) is None,
        },
{
    let bytes = s.as_bytes();
    let parsed = parse_i32_bytes(bytes);
    let int_value = match parsed {
        Some(v) => v,
        None => {
            let mut message = String::from_str("'");
            message.append(s);
            message.append("' is not a valid integer");
            return Err(message);
        },
    };
    let relative = bytes.len() > 0 && (bytes[0] == 43 || bytes[0] == 45);
    if !relative && !(lo <= int_value && int_value <= hi) {
        let mut message = String::from_str("value is not in range ");
        message.append(range_message);
        return Err(message);
    }
    Ok(IntegerValueChange { absolute: !relative, value: int_value })
}

/// Parse a hue option: relative with a leading sign, otherwise an absolute
/// value in `[1, 360]`.
pub fn parse_360_value(s: &str) -> (r: Result<IntegerValueChange, String>)
    ensures
        match r {
            Ok(change) => Some(change) == spec_parse_value_change(s.spec_bytes(), 1, 360),
            Err(_) => spec_parse_value_change(s.spec_bytes(), 1, 360) is None,
        },
{
    parse_value_change(s, 1, 360, "1 to 360")
}

/// Parse a brightness or saturation option: relative with a leading sign,
/// otherwise an absolute value in `[1, 100]`.
pub fn parse_100_value(s: &str) -> (r: Result<IntegerValueChange, String>)
    ensures
        match r {
            Ok(change) => Some(change) == spec_parse_value_change(s.spec_bytes(), 1, 100),
            Err(_) => spec_parse_value_change(s.spec_bytes(), 1, 100) is None,
        },
{
    parse_value_change(s, 1, 100, "1 to 100")
}

/// Parse a color-temperature option: relative with a leading sign, otherwise
/// an absolute value in `[2500, 6500]`.
pub fn parse_kelvin_value(s: &str) -> (r: Result<IntegerValueChange, String>)
    ensures
        match r {
            Ok(change) => Some(change) == spec_parse_value_change(s.spec_bytes(), 2500, 6500),
            Err(_) => spec_parse_value_change(s.spec_bytes(), 2500, 6500) is None,
        },
{
    parse_value_change(s, 2500, 6500, "2500 to 6500")
}

} // verus!
