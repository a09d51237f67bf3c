//! Network helpers: MAC address parsing and TAP interface requests.

use crate::error::{Error, Result};
use crate::strings::owned;
use vstd::prelude::*;
use vstd::string::{StrSliceExecFns, StringSliceAdditionalSpecFns};

verus! {

/// Longest interface name, terminating zero included.
pub const IFACE_NAME_MAX_LEN: usize = 16;

/// The value of the hexadecimal digit `c`, or `None` if it is not one.
pub open spec fn hex_digit(c: char) -> Option<u8> {
    if '0' <= c && c <= '9' {
        Some((c as u32 - '0' as u32) as u8)
    } else if 'a' <= c && c <= 'f' {
        Some((c as u32 - 'a' as u32 + 10) as u8)
    } else if 'A' <= c && c <= 'F' {
        Some((c as u32 - 'A' as u32 + 10) as u8)
    } else {
        None
    }
}

/// Every character of `s` is a hexadecimal digit.
pub open spec fn all_hex(s: Seq<char>) -> bool {
    forall|i: int| 0 <= i < s.len() ==> (#[trigger] hex_digit(s[i])) is Some
}

/// The number the hexadecimal digits `s` write.
pub open spec fn hex_value(s: Seq<char>) -> nat
    decreases s.len(),
{
    if s.len() == 0 {
        0
    } else {
        hex_value(s.drop_last()) * 16 + match hex_digit(s.last()) {
            Some(d) => d as nat,
            None => 0,
        }
    }
}

/// A byte written in hexadecimal, as `u8::from_str_radix(s, 16)` reads it:
/// an optional `+`, then at least one digit, of a value below 256.
pub open spec fn parse_hex_u8(s: Seq<char>) -> Option<u8> {
    let digits = if s.len() > 0 && s[0] == '+' {
        s.subrange(1, s.len() as int)
    } else {
        s
    };
    if digits.len() > 0 && all_hex(digits) && hex_value(digits) < 256 {
        Some(hex_value(digits) as u8)
    } else {
        None
    }
}

/// The pieces of `s` between colons.
pub open spec fn split_colon(s: Seq<char>) -> Seq<Seq<char>>
    decreases s.len(),
{
    if s.len() == 0 {
        seq![Seq::<char>::empty()]
    } else {
        let p = split_colon(s.drop_last());
        if s.last() == ':' {
            p.push(Seq::<char>::empty())
        } else {
            p.update(p.len() - 1, p.last().push(s.last()))
        }
    }
}

proof fn lemma_split_nonempty(s: Seq<char>)
    ensures
        split_colon(s).len() >= 1,
    decreases s.len(),
{
    if s.len() > 0 {
        lemma_split_nonempty(s.drop_last());
    }
}

/// The six bytes of a MAC address written as six colon-separated
/// hexadecimal bytes; `None` for anything else.
pub open spec fn spec_mac_bytes(s: Seq<char>) -> Option<Seq<u8>> {
    let parts = split_colon(s);
    if parts.len() == 6 && forall|k: int| 0 <= k < 6 ==> (#[trigger] parse_hex_u8(parts[k])) is Some {
        Some(Seq::new(6, |k: int| parse_hex_u8(parts[k])->Some_0))
    } else {
        None
    }
}

/// The value of the hexadecimal digit `c`.
fn hex_digit_of(c: char) -> (r: Option<u8>)
    ensures
        r == hex_digit(c),
{
    if '0' <= c && c <= '9' {
        Some((c as u32 - '0' as u32) as u8)
    } else if 'a' <= c && c <= 'f' {
        Some((c as u32 - 'a' as u32 + 10) as u8)
    } else if 'A' <= c && c <= 'F' {
        Some((c as u32 - 'A' as u32 + 10) as u8)
    } else {
        None
    }
}

/// Reads the hexadecimal byte written in characters `from..to` of `s`.
fn parse_hex_segment(s: &str, from: usize, to: usize) -> (r: Option<u8>)
    requires
        from <= to <= s@.len(),
    ensures
        r == parse_hex_u8(s@.subrange(from as int, to as int)),
{
    let ghost seg = s@.subrange(from as int, to as int);
    let start: usize = if from < to && s.get_char(from) == '+' {
        from + 1
    } else {
        from
    };
    let ghost digits = s@.subrange(start as int, to as int);
    assert(digits == (if seg.len() > 0 && seg[0] == '+' {
        seg.subrange(1, seg.len() as int)
    } else {
        seg
    }));
    if start == to {
        return None;
    }
    let mut v: u32 = 0;
    let mut big = false;
    let mut i: usize = start;
    while i < to
        invariant
            start <= i <= to,
            to <= s@.len(),
            digits == s@.subrange(start as int, to as int),
            seg == s@.subrange(from as int, to as int),
            digits == (if seg.len() > 0 && seg[0] == '+' {
                seg.subrange(1, seg.len() as int)
            } else {
                seg
            }),
            all_hex(s@.subrange(start as int, i as int)),
            big ==> hex_value(s@.subrange(start as int, i as int)) >= 256,
            !big ==> v == hex_value(s@.subrange(start as int, i as int)) && v < 256,
        decreases to - i,
    {
        let c = s.get_char(i);
        let d = match hex_digit_of(c) {
            Some(d) => d,
            None => {
                assert(digits[i - start] == c);
                assert(hex_digit(digits[i - start]) is None);
                assert(!all_hex(digits));
                return None;
            },
        };
        let ghost pre = s@.subrange(start as int, i as int);
        let ghost next = s@.subrange(start as int, i + 1);
        assert(next.drop_last() == pre);
        assert(next.last() == c);
        assert forall|k: int| 0 <= k < next.len() implies (#[trigger] hex_digit(next[k])) is Some by {
            if k < pre.len() {
                assert(next[k] == pre[k]);
            }
        }
        if !big {
            v = v * 16 + d as u32;
            if v >= 256 {
                big = true;
            }
        }
        i = i + 1;
    }
    assert(s@.subrange(start as int, to as int) == digits);
    if big {
        None
    } else {
        Some(v as u8)
    }
}

/// Parses a MAC address written as six colon-separated hexadecimal bytes.
pub fn mac_address_to_bytes(mac_address: &str) -> (r: Option<Vec<u8>>)
    ensures
        match spec_mac_bytes(mac_address@) {
            Some(b) => (r matches Some(v) && v@ == b),
            None => r is None,
        },
{
    let n = mac_address.unicode_len();
    let mut bytes: Vec<u8> = Vec::new();
    let mut all_ok = true;
    let mut count: usize = 0;
    let mut seg_start: usize = 0;
    let mut i: usize = 0;
    let ghost s = mac_address@;
    proof {
        assert(s.subrange(0, 0) =~= Seq::<char>::empty());
        assert(s.subrange(0, 0) =~= Seq::<char>::empty());
    }
    while i < n
        invariant
            n == s.len(),
            s == mac_address@,
            seg_start <= i <= n,
            split_colon(s.subrange(0, i as int)).len() == count + 1,
            split_colon(s.subrange(0, i as int)).last() == s.subrange(seg_start as int, i as int),
            bytes@.len() == count,
            count <= i,
            all_ok ==> forall|k: int|
                0 <= k < count ==> #[trigger] parse_hex_u8(split_colon(s.subrange(0, i as int))[k])
                    == Some(bytes@[k]),
            !all_ok ==> exists|k: int|
                0 <= k < count && #[trigger] parse_hex_u8(split_colon(s.subrange(0, i as int))[k])
                    is None,
        decreases n - i,
    {
        let ghost parts = split_colon(s.subrange(0, i as int));
        let ghost next = s.subrange(0, i + 1);
        proof {
            assert(next.drop_last() =~= s.subrange(0, i as int));
            assert(next.last() == s[i as int]);
        }
        if mac_address.get_char(i) == ':' {
            let seg = parse_hex_segment(mac_address, seg_start, i);
            proof {
                assert(split_colon(next) == parts.push(Seq::<char>::empty()));
                assert(s.subrange(i + 1, i + 1) =~= Seq::<char>::empty());
            }
            match seg {
                Some(b) => bytes.push(b),
                None => {
                    bytes.push(0);
                    all_ok = false;
                },
            }
            proof {
                let np = split_colon(next);
                assert forall|k: int| 0 <= k < count implies np[k] == parts[k] by {}
                assert(np[count as int] == parts.last());
            }
            count = count + 1;
            seg_start = i + 1;
        } else {
            proof {
                lemma_split_nonempty(s.subrange(0, i as int));
                assert(split_colon(next) == parts.update(
                    parts.len() - 1,
                    parts.last().push(s[i as int]),
                ));
                assert(s.subrange(seg_start as int, i + 1) =~= s.subrange(
                    seg_start as int,
                    i as int,
                ).push(s[i as int]));
                let np = split_colon(next);
                assert forall|k: int| 0 <= k < count implies np[k] == parts[k] by {}
            }
        }
        i = i + 1;
    }
    let last = parse_hex_segment(mac_address, seg_start, n);
    proof {
        assert(s.subrange(0, n as int) =~= s);
    }
    match last {
        Some(b) => {
            if count == 5 && all_ok {
                bytes.push(b);
                proof {
                    let parts = split_colon(s);
                    assert(bytes@ =~= Seq::new(6, |k: int| parse_hex_u8(parts[k])->Some_0));
                }
                return Some(bytes);
            }
            None
        },
        None => None,
    }
}

/// The interface name `if_name` as a zero-terminated C string of
/// `IFACE_NAME_MAX_LEN` bytes; a name of that length or more is refused.
pub fn build_terminated_if_name(if_name: &str) -> (r: Result<[u8; 16]>)
    ensures
        if_name.spec_bytes().len() >= IFACE_NAME_MAX_LEN ==> (r matches Err(
            Error::NetInvalidIfname(n),
        ) && n@ == if_name@),
        if_name.spec_bytes().len() < IFACE_NAME_MAX_LEN ==> (r matches Ok(a) && forall|i: int|
            0 <= i < 16 ==> #[trigger] a@[i] == if i < if_name.spec_bytes().len() {
                if_name.spec_bytes()[i]
            } else {
                0u8
            }),
{
    let bytes = if_name.as_bytes();
    if bytes.len() >= IFACE_NAME_MAX_LEN {
        return Err(Error::NetInvalidIfname(owned(if_name)));
    }
    let mut name = [0u8; 16];
    let mut i: usize = 0;
    while i < bytes.len()
        invariant
            i <= bytes@.len() < 16,
            bytes@ == if_name.spec_bytes(),
            forall|k: int| 0 <= k < i ==> name@[k] == bytes@[k],
            forall|k: int| i <= k < 16 ==> name@[k] == 0u8,
        decreases bytes@.len() - i,
    {
        name[i] = bytes[i];
        i = i + 1;
    }
    Ok(name)
}

/// An interface request under construction: the interface name and flags
/// that a TAP ioctl carries.
#[derive(Clone, Copy, Debug)]
pub struct IfReqBuilder {
    pub name: [u8; 16],
    pub flags: i16,
}

impl IfReqBuilder {
    /// A request with an empty name and no flags.
    pub fn new() -> (r: IfReqBuilder)
        ensures
            forall|i: int| 0 <= i < 16 ==> #[trigger] r.name@[i] == 0u8,
            r.flags == 0,
    {
        IfReqBuilder { name: [0u8; 16], flags: 0 }
    }

    /// The request with the interface name `if_name`.
    pub fn if_name(self, if_name: &[u8; 16]) -> (r: IfReqBuilder)
        ensures
            r.name == *if_name,
            r.flags == self.flags,
    {
        IfReqBuilder { name: *if_name, ..self }
    }

    /// The request with the flags `flags`.
    pub fn flags(self, flags: i16) -> (r: IfReqBuilder)
        ensures
            r.name == self.name,
            r.flags == flags,
    {
        IfReqBuilder { flags, ..self }
    }
}

/// The length of the name held in a zero-terminated interface name: the
/// bytes before the first zero, or all of them when there is none.
pub fn if_name_len(name: &[u8; 16]) -> (r: usize)
    ensures
        r <= 16,
        forall|i: int| 0 <= i < r ==> name@[i] != 0u8,
        r < 16 ==> name@[r as int] == 0u8,
{
    let mut i: usize = 0;
    while i < 16
        invariant
            i <= 16,
            forall|k: int| 0 <= k < i ==> name@[k] != 0u8,
        decreases 16 - i,
    {
        if name[i] == 0 {
            return i;
        }
        i = i + 1;
    }
    16
}

} // verus!
