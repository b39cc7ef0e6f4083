//! Start-up configuration: the listening port and the GPU device directory.

use vstd::prelude::*;
use vstd::string::*;

verus! {

/// Why the service could not start.
#[derive(Debug, Clone, Copy, PartialEq, Eq, Structural)]
pub enum StartupError {
    /// No port argument was given.
    MissingPort,
    /// The port argument is not a decimal number in `0..=65535`.
    InvalidPort,
}

/// The sysfs directory of the GPU that is read when nothing else is configured.
pub open spec fn default_gpu_device_path() -> Seq<char> {
    "/sys/class/drm/card1/device"@
}

pub open spec fn is_digit(c: char) -> bool {
    '0' <= c && c <= '9'
}

pub open spec fn digit_value(c: char) -> int {
    (c as u32) as int - 48
}

pub open spec fn all_digits(s: Seq<char>) -> bool {
    forall|i: int| 0 <= i < s.len() ==> is_digit(#[trigger] s[i])
}

/// The number that a string of decimal digits denotes, most significant first.
pub open spec fn decimal_value(s: Seq<char>) -> int
    decreases s.len(),
{
    if s.len() == 0 {
        0
    } else {
        decimal_value(s.drop_last()) * 10 + digit_value(s.last())
    }
}

/// A port argument: one or more decimal digits whose value fits in 16 bits.
pub open spec fn is_port_text(s: Seq<char>) -> bool {
    &&& s.len() > 0
    &&& all_digits(s)
    &&& decimal_value(s) <= u16::MAX
}

proof fn lemma_decimal_value_nonneg(s: Seq<char>)
    requires
        all_digits(s),
    ensures
        decimal_value(s) >= 0,
    decreases s.len(),
{
    if s.len() > 0 {
        lemma_decimal_value_nonneg(s.drop_last());
    }
}

/// A prefix of a digit string never denotes more than the whole string.
proof fn lemma_prefix_value_le(s: Seq<char>, k: int)
    requires
        all_digits(s),
        0 <= k <= s.len(),
    ensures
        decimal_value(s.subrange(0, k)) <= decimal_value(s),
    decreases s.len(),
{
    if k < s.len() {
        let p = s.drop_last();
        assert(p.subrange(0, k) =~= s.subrange(0, k));
        lemma_prefix_value_le(p, k);
        lemma_decimal_value_nonneg(p);
    } else {
        assert(s.subrange(0, k) =~= s);
    }
}

/// Reads a listening port written in decimal.
pub fn parse_port(text: &str) -> (r: Result<u16, StartupError>)
    ensures
        match r {
            Ok(p) => is_port_text(text@) && p as int == decimal_value(text@),
            Err(e) => !is_port_text(text@) && e == StartupError::InvalidPort,
        },
{
    let n = text.unicode_len();
    if n == 0 {
        return Err(StartupError::InvalidPort);
    }
    let mut value: u32 = 0;
    let mut i: usize = 0;
    while i < n
        invariant
            n == text@.len(),
            0 <= i <= n,
            all_digits(text@.subrange(0, i as int)),
            value as int == decimal_value(text@.subrange(0, i as int)),
            value <= 65535,
        decreases n - i,
    {
        let c = text.get_char(i);
        let ghost prefix = text@.subrange(0, i as int);
        let ghost next = text@.subrange(0, i as int + 1);
        assert(next.drop_last() =~= prefix);
        if c < '0' || c > '9' {
            assert(!all_digits(text@)) by {
                assert(!is_digit(text@[i as int]));
            }
            return Err(StartupError::InvalidPort);
        }
        assert(all_digits(next)) by {
            assert forall|j: int| 0 <= j < next.len() implies is_digit(#[trigger] next[j]) by {
                if j < i {
                    assert(next[j] == prefix[j]);
                }
            }
        }
        let d: u32 = (c as u32) - 48;
        value = value * 10 + d;
        if value > 65535 {
            proof {
                if all_digits(text@) {
                    lemma_prefix_value_le(text@, i as int + 1);
                }
            }
            return Err(StartupError::InvalidPort);
        }
        i = i + 1;
    }
    assert(text@.subrange(0, n as int) =~= text@);
    Ok(value as u16)
}

/// What the service needs before it starts.
pub struct Config {
    pub port: u16,
    pub gpu_device_path: String,
}

/// The GPU directory in force: the configured one, unless it is absent or empty.
pub open spec fn chosen_gpu_device_path(setting: Option<Seq<char>>) -> Seq<char> {
    match setting {
        Some(p) => if p.len() > 0 { p } else { default_gpu_device_path() },
        None => default_gpu_device_path(),
    }
}

pub open spec fn setting_view(setting: Option<String>) -> Option<Seq<char>> {
    match setting {
        Some(p) => Some(p@),
        None => None,
    }
}

impl Config {
    /// Builds the configuration from the command line (program name first, then
    /// the port; later arguments are ignored) and an optional GPU directory.
    pub fn from_args(args: &Vec<String>, gpu_path_setting: Option<String>) -> (r: Result<
        Config,
        StartupError,
    >)
        ensures
            args@.len() < 2 ==> r == Err::<Config, StartupError>(StartupError::MissingPort),
            args@.len() >= 2 ==> match r {
                Ok(c) => {
                    &&& is_port_text(args@[1]@)
                    &&& c.port as int == decimal_value(args@[1]@)
                    &&& c.gpu_device_path@ == chosen_gpu_device_path(
                        setting_view(gpu_path_setting),
                    )
                },
                Err(e) => !is_port_text(args@[1]@) && e == StartupError::InvalidPort,
            },
    {
        if args.len() < 2 {
            return Err(StartupError::MissingPort);
        }
        let port = match parse_port(args[1].as_str()) {
            Ok(p) => p,
            Err(e) => {
                return Err(e);
            },
        };
        let gpu_device_path = match gpu_path_setting {
            Some(p) => {
                if p.as_str().unicode_len() > 0 {
                    p
                } else {
                    String::from_str("/sys/class/drm/card1/device")
                }
            },
            None => String::from_str("/sys/class/drm/card1/device"),
        };
        Ok(Config { port, gpu_device_path })
    }
}

} // verus!
