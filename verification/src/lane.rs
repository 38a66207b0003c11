//! Lane identifiers: a fixed-width (four byte) sub-channel id within a
//! bridge, written on the command line as exactly eight hex digits and
//! defaulting to all zeroes.

use vstd::prelude::*;

verus! {

/// A lane id parsed from its hex form.
#[derive(Debug, Clone, Copy, PartialEq, Eq)]
pub struct HexLaneId(pub [u8; 4]);

impl View for HexLaneId {
    type V = Seq<u8>;

    open spec fn view(&self) -> Seq<u8> {
        self.0@
    }
}

/// Whether `c` is a hex digit, either case.
pub open spec fn is_hex_digit(c: char) -> bool {
    ('0' <= c && c <= '9') || ('a' <= c && c <= 'f') || ('A' <= c && c <= 'F')
}

/// The value of a hex digit.
pub open spec fn hex_val(c: char) -> int {
    if '0' <= c && c <= '9' {
        (c as u32) - ('0' as u32)
    } else if 'a' <= c && c <= 'f' {
        (c as u32) - ('a' as u32) + 10
    } else {
        (c as u32) - ('A' as u32) + 10
    }
}

/// Whether `s` is a well-formed lane id: exactly eight hex digits.
pub open spec fn spec_lane_ok(s: Seq<char>) -> bool {
    s.len() == 8 && (forall|i: int| 0 <= i < s.len() ==> is_hex_digit(s[i]))
}

/// The byte at position `k` of the lane id written by `s`: two hex digits
/// per byte, most significant first.
pub open spec fn spec_lane_byte(s: Seq<char>, k: int) -> int {
    hex_val(s[2 * k]) * 16 + hex_val(s[2 * k + 1])
}

/// The four bytes of the lane id written by `s`.
pub open spec fn spec_lane_bytes(s: Seq<char>) -> Seq<u8> {
    Seq::new(4, |k: int| spec_lane_byte(s, k) as u8)
}

/// The default lane id: all zeroes.
pub open spec fn spec_default_lane() -> Seq<u8> {
    Seq::new(4, |k: int| 0u8)
}

impl Default for HexLaneId {
    /// The all-zero lane id.
    fn default() -> (r: Self)
        ensures
            r@ == spec_default_lane(),
    {
        let r = HexLaneId([0u8; 4]);
        proof {
            assert(r@ =~= spec_default_lane());
        }
        r
    }
}

/// The value of one hex digit; `None` exactly on non-digits.
fn hex_digit_val(c: char) -> (r: Option<u8>)
    ensures
        r.is_some() == is_hex_digit(c),
        r.is_some() ==> r.unwrap() as int == hex_val(c),
{
    if '0' <= c && c <= '9' {
        Some((c as u8) - ('0' as u8))
    } else if 'a' <= c && c <= 'f' {
        Some((c as u8) - ('a' as u8) + 10)
    } else if 'A' <= c && c <= 'F' {
        Some((c as u8) - ('A' as u8) + 10)
    } else {
        None
    }
}

impl HexLaneId {
    /// Parse a lane id from its hex form: succeeds exactly on eight hex
    /// digits, and then returns their four bytes.
    pub fn parse(s: &str) -> (r: Option<HexLaneId>)
        ensures
            r.is_some() == spec_lane_ok(s@),
            r.is_some() ==> r.unwrap()@ == spec_lane_bytes(s@),
    {
        let len = s.unicode_len();
        if len != 8 {
            return None;
        }
        let mut bytes: [u8; 4] = [0u8; 4];
        let mut k: usize = 0;
        while k < 4
            invariant
                k <= 4,
                s@.len() == 8,
                forall|i: int| 0 <= i < 2 * k ==> is_hex_digit(s@[i]),
                forall|j: int| 0 <= j < k ==> bytes@[j] as int == spec_lane_byte(s@, j),
            decreases 4 - k,
        {
            let hi = s.get_char(2 * k);
            let lo = s.get_char(2 * k + 1);
            let hv = match hex_digit_val(hi) {
                Some(v) => v,
                None => {
                    assert(!is_hex_digit(s@[2 * k as int]));
                    return None;
                },
            };
            let lv = match hex_digit_val(lo) {
                Some(v) => v,
                None => {
                    assert(!is_hex_digit(s@[2 * k as int + 1]));
                    return None;
                },
            };
            assert(hv < 16 && lv < 16);
            bytes[k] = hv * 16 + lv;
            k += 1;
        }
        let r = HexLaneId(bytes);
        proof {
            assert(r@ =~= spec_lane_bytes(s@));
        }
        Some(r)
    }

    /// The bytes of the lane id.
    pub fn bytes(&self) -> (r: [u8; 4])
        ensures
            r@ == self@,
    {
        self.0
    }
}

} // verus!
