//! Target-device helpers: the device record, and the parsing of the
//! mixer tool's output used by the fallback microphone control.
//!
//! Enumeration of the USB bus and the calls into the mixer tool happen
//! outside the library; the parsing of what they return is here.

use vstd::prelude::*;
use vstd::string::StrSliceExecFns;
use crate::graph::clone_opt_string;
use crate::strutil::digits_value;
use crate::strutil::spec_str_contains;
use crate::strutil::str_contains;

verus! {

/// A detected target capture device.
#[derive(Debug)]
pub struct Wave3Device {
    /// Device serial number.
    pub serial: String,
    /// Sound-card name for fallback control, when known.
    pub alsa_card: Option<String>,
}

impl Clone for Wave3Device {
    fn clone(&self) -> (r: Self)
        ensures
            r == *self,
    {
        Wave3Device { serial: self.serial.clone(), alsa_card: clone_opt_string(&self.alsa_card) }
    }
}

impl Wave3Device {
    /// A device record from its discovered identifiers.
    pub fn new(serial: String, alsa_card: Option<String>) -> (r: Self)
        ensures
            r.serial@ == serial@,
            r.alsa_card == alsa_card,
    {
        Wave3Device { serial, alsa_card }
    }

    /// The device's serial number.
    pub fn serial(&self) -> (r: &str)
        ensures
            r@ == self.serial@,
    {
        self.serial.as_str()
    }

    /// The sound-card name for fallback control, if known.
    pub fn alsa_card(&self) -> (r: Option<&str>)
        ensures
            match r {
                Some(c) => self.alsa_card matches Some(a) && c@ == a@,
                None => self.alsa_card is None,
            },
    {
        match &self.alsa_card {
            Some(c) => Some(c.as_str()),
            None => None,
        }
    }
}

/// What the mixer tool's output says about the mute switch: `[off]`
/// means muted, otherwise `[on]` means unmuted; anything else is
/// unreadable.
pub open spec fn spec_parse_mixer_mute(out: Seq<char>) -> Option<bool> {
    if spec_str_contains(out, "[off]"@) {
        Some(true)
    } else if spec_str_contains(out, "[on]"@) {
        Some(false)
    } else {
        None
    }
}

/// Read the mute switch from the mixer tool's output.
pub fn parse_mixer_mute(out: &str) -> (r: Option<bool>)
    ensures
        r == spec_parse_mixer_mute(out@),
{
    if str_contains(out, "[off]") {
        Some(true)
    } else if str_contains(out, "[on]") {
        Some(false)
    } else {
        None
    }
}

/// Whether a percentage reading `[NN%]` starts at position `i` of the
/// output, with the digits running from `i + 1` to `j`.
pub open spec fn percent_at(out: Seq<char>, i: int, j: int) -> bool {
    &&& 0 <= i < j
    &&& j + 1 < out.len()
    &&& out[i] == '['
    &&& out[j] == '%'
    &&& out[j + 1] == ']'
    &&& j > i + 1
    &&& forall|k: int| i < k < j ==> 48 <= (#[trigger] out[k]) as int <= 57
}

/// Whether the output carries a percentage reading anywhere.
pub open spec fn has_percent(out: Seq<char>) -> bool {
    exists|i: int, j: int| percent_at(out, i, j)
}

/// An integer clamped into the `u32` range.
pub open spec fn sat_u32(n: int) -> u32 {
    if n > u32::MAX {
        u32::MAX
    } else if n < 0 {
        0u32
    } else {
        n as u32
    }
}

/// Whether this character is a decimal digit.
fn is_digit_char(c: char) -> (r: bool)
    ensures
        r == (48 <= c as int <= 57),
{
    let v: u32 = c as u32;
    48 <= v && v <= 57
}

/// Read a percentage reading `[NN%]` from the mixer tool's output.
///
/// The result is `Some` exactly when such a reading occurs; the value
/// returned is the digits of the first reading, saturating at the
/// integer range.
pub fn parse_mixer_percent(out: &str) -> (r: Option<u32>)
    ensures
        r is Some <==> has_percent(out@),
        r matches Some(v) ==> exists|i: int, j: int|
            {
                &&& #[trigger] percent_at(out@, i, j)
                &&& forall|a: int, b: int| 0 <= a < i ==> !(#[trigger] percent_at(out@, a, b))
                &&& v == sat_u32(digits_value(out@.subrange(i + 1, j)))
            },
{
    let n: usize = out.unicode_len();
    let mut i: usize = 0;
    while i < n
        invariant
            n == out@.len(),
            i <= n,
            forall|a: int, b: int| 0 <= a < i ==> !(#[trigger] percent_at(out@, a, b)),
        decreases n - i,
    {
        if out.get_char(i) == '[' {
            let mut j: usize = i + 1;
            let mut value: u64 = 0;
            while j < n && is_digit_char(out.get_char(j))
                invariant
                    n == out@.len(),
                    i < j <= n,
                    value <= u32::MAX as u64 * 10 + 9,
                    forall|k: int| i < k < j ==> 48 <= (#[trigger] out@[k]) as int <= 57,
                    ({
                        let dv = crate::strutil::digits_value(out@.subrange(i + 1, j as int));
                        &&& (dv <= u32::MAX ==> value == dv)
                        &&& (dv > u32::MAX ==> value > u32::MAX as u64)
                    }),
                decreases n - j,
            {
                let d: u32 = out.get_char(j) as u32;
                proof {
                    let sub = out@.subrange(i + 1, j as int);
                    let sub2 = out@.subrange(i + 1, j + 1);
                    assert(sub2.drop_last() =~= sub);
                    assert(sub2.last() == out@[j as int]);
                    assert(crate::strutil::all_digits(sub)) by {
                        assert(forall|k: int|
                            0 <= k < sub.len() ==> sub[k] == out@[i + 1 + k]);
                    }
                    crate::strutil::lemma_digits_nonneg_pub(sub);
                }
                if value <= u32::MAX as u64 {
                    value = value * 10 + (d - 48) as u64;
                }
                j += 1;
            }
            if j > i + 1 && j < n && j + 1 < n {
                let pc = out.get_char(j);
                let br = out.get_char(j + 1);
                if pc == '%' && br == ']' {
                    proof {
                        assert(percent_at(out@, i as int, j as int));
                        let dv = crate::strutil::digits_value(
                            out@.subrange(i + 1, j as int),
                        );
                        if value > u32::MAX as u64 {
                            assert(dv > u32::MAX);
                            assert(sat_u32(dv) == u32::MAX);
                        } else {
                            assert(value == dv);
                        }
                    }
                    if value > u32::MAX as u64 {
                        return Some(u32::MAX);
                    }
                    return Some(value as u32);
                }
            }
            proof {
                assert forall|b: int| !percent_at(out@, i as int, b) by {
                    if percent_at(out@, i as int, b) {
                        if i + 1 < b < j {
                            assert(48 <= out@[b] as int <= 57);
                            assert(out@[b] == '%');
                            assert(false);
                        } else if b == j {
                            assert(j > i + 1 && j + 1 < n);
                            assert(out@[j as int] == '%');
                            assert(j < n && 48 <= out@[j as int] as int <= 57 ==> false);
                            assert(false);
                        } else if b > j {
                            assert(48 <= out@[j as int] as int <= 57);
                            assert(j == n || !(48 <= out@[j as int] as int <= 57));
                            assert(false);
                        } else {
                            assert(b <= i + 1);
                            assert(false);
                        }
                    }
                }
            }
        } else {
            proof {
                assert forall|b: int| !percent_at(out@, i as int, b) by {}
            }
        }
        i += 1;
    }
    proof {
        if has_percent(out@) {
            let (a, b) = choose|a: int, b: int| percent_at(out@, a, b);
            assert(0 <= a < n);
            assert(!percent_at(out@, a, b));
        }
    }
    None
}

} // verus!
