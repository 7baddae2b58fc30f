//! The running kernel's version, and the one encoding decision that
//! depends on it: the `bcdVersion` field of OS-extension descriptors.

use vstd::prelude::*;

verus! {

/// Relies on nix::sys::utsname::uname: the release string of the running
/// kernel, as bytes.  The result depends on the machine, so nothing is
/// promised of it.
#[verifier::external_body]
fn kernel_release_bytes() -> (r: Option<Vec<u8>>) {
    match nix::sys::utsname::uname() {
        Ok(uts) => Some(uts.release().as_encoded_bytes().to_vec()),
        Err(_) => None,
    }
}

/// Index of the first occurrence of `b`, or the length when absent.
pub open spec fn spec_find_byte(s: Seq<u8>, b: u8) -> int
    decreases s.len(),
{
    if s.len() == 0 {
        0
    } else if s[0] == b {
        0
    } else {
        1 + spec_find_byte(s.drop_first(), b)
    }
}

/// The find result is the first occurrence.
pub proof fn lemma_find_byte(s: Seq<u8>, b: u8)
    ensures
        0 <= spec_find_byte(s, b) <= s.len(),
        forall|i: int| 0 <= i < spec_find_byte(s, b) ==> s[i] != b,
        spec_find_byte(s, b) < s.len() ==> s[spec_find_byte(s, b)] == b,
    decreases s.len(),
{
    if s.len() > 0 && s[0] != b {
        lemma_find_byte(s.drop_first(), b);
        assert forall|i: int| 1 <= i < spec_find_byte(s, b) implies s[i] != b by {
            assert(s.drop_first()[i - 1] == s[i]);
        }
    }
}

/// Whether the byte is a decimal digit.
pub open spec fn spec_is_digit(b: u8) -> bool {
    48 <= b <= 57
}

/// Decimal value of a digit string, most significant digit first.
pub open spec fn spec_digits_val(s: Seq<u8>) -> int
    decreases s.len(),
{
    if s.len() == 0 {
        0
    } else {
        spec_digits_val(s.drop_last()) * 10 + (s.last() - 48)
    }
}

/// The number a digit string holds, when it is one or more digits with a
/// value that fits 16 bits.
pub open spec fn spec_parse_digits(t: Seq<u8>) -> Option<u16> {
    if t.len() == 0 {
        None
    } else if exists|i: int| 0 <= i < t.len() && !spec_is_digit(#[trigger] t[i]) {
        None
    } else if spec_digits_val(t) > 65535 {
        None
    } else {
        Some(spec_digits_val(t) as u16)
    }
}

/// The number a decimal field holds: an optional leading plus sign, then
/// at least one digit, with a value that fits 16 bits.
pub open spec fn spec_parse_u16_dec(s: Seq<u8>) -> Option<u16> {
    spec_parse_digits(
        if s.len() > 0 && s[0] == 43 {
            s.drop_first()
        } else {
            s
        },
    )
}

/// The major and minor version a release string holds: the two decimal
/// fields before the first two dots, as in `6.4.0-whatever`.
pub open spec fn spec_parse_kernel_release(s: Seq<u8>) -> Option<(u16, u16)> {
    let i = spec_find_byte(s, 46);
    if i >= s.len() {
        None
    } else {
        let rest = s.skip(i + 1);
        let j = spec_find_byte(rest, 46);
        match (spec_parse_u16_dec(s.take(i)), spec_parse_u16_dec(rest.take(j))) {
            (Some(major), Some(minor)) => Some((major, minor)),
            _ => None,
        }
    }
}

/// Parses a decimal field of the release string.
fn parse_u16_dec(bytes: &[u8], start: usize, end: usize) -> (r: Option<u16>)
    requires
        start <= end <= bytes@.len(),
    ensures
        r == spec_parse_u16_dec(bytes@.subrange(start as int, end as int)),
{
    let ghost s = bytes@.subrange(start as int, end as int);
    let mut from: usize = start;
    if start < end && bytes[start] == 43 {
        from = start + 1;
        proof {
            assert(s[0] == bytes@[start as int]);
            assert(s.len() > 0 && s[0] == 43);
            assert(bytes@.subrange(from as int, end as int) =~= s.drop_first());
        }
    } else {
        proof {
            if s.len() > 0 {
                assert(s[0] == bytes@[start as int]);
            }
            assert(!(s.len() > 0 && s[0] == 43));
            assert(bytes@.subrange(from as int, end as int) =~= s);
        }
    }
    let ghost t = bytes@.subrange(from as int, end as int);
    proof {
        assert(t == (if s.len() > 0 && s[0] == 43 {
            s.drop_first()
        } else {
            s
        }));
    }
    if from == end {
        proof {
            assert(t.len() == 0);
        }
        return None;
    }
    let mut acc: u32 = 0;
    let mut k: usize = from;
    while k < end
        invariant
            from <= k <= end <= bytes@.len(),
            start <= from,
            s == bytes@.subrange(start as int, end as int),
            t == bytes@.subrange(from as int, end as int),
            t == (if s.len() > 0 && s[0] == 43 {
                s.drop_first()
            } else {
                s
            }),
            t.len() > 0,
            forall|i: int| 0 <= i < k - from ==> spec_is_digit(#[trigger] t[i]),
            spec_digits_val(t.take(k - from)) <= 65535 ==> acc == spec_digits_val(
                t.take(k - from),
            ),
            spec_digits_val(t.take(k - from)) > 65535 ==> acc == 65536,
            acc <= 65536,
        decreases end - k,
    {
        let b = bytes[k];
        proof {
            assert(t[k - from] == bytes@[k as int]);
        }
        if b < 48 || b > 57 {
            proof {
                assert(0 <= k - from < t.len());
                assert(!spec_is_digit(t[k - from]));
                assert(exists|i: int| 0 <= i < t.len() && !spec_is_digit(#[trigger] t[i]));
                assert(spec_parse_digits(t) is None);
                assert(spec_parse_u16_dec(s) is None);
            }
            return None;
        }
        let d: u32 = (b - 48) as u32;
        let next: u32 = acc * 10 + d;
        proof {
            let pfx = t.take(k - from);
            let pfx1 = t.take(k - from + 1);
            assert(pfx1.drop_last() =~= pfx);
            assert(pfx1.last() == t[k - from]);
            assert(spec_digits_val(pfx1) == spec_digits_val(pfx) * 10 + (b - 48));
            if spec_digits_val(pfx) > 65535 {
                assert(spec_digits_val(pfx1) > 65535);
            }
        }
        if next > 65535 {
            acc = 65536;
        } else {
            acc = next;
        }
        k = k + 1;
    }
    proof {
        assert(t.take(end - from) =~= t);
    }
    if acc > 65535 {
        return None;
    }
    Some(acc as u16)
}

/// Index of the first occurrence of `b` at or after `start`.
fn find_byte(bytes: &[u8], start: usize, b: u8) -> (r: usize)
    requires
        start <= bytes@.len(),
    ensures
        r as int == start + spec_find_byte(bytes@.skip(start as int), b),
        start <= r <= bytes@.len(),
{
    let ghost s = bytes@.skip(start as int);
    let mut k: usize = start;
    while k < bytes.len()
        invariant
            start <= k <= bytes@.len(),
            s == bytes@.skip(start as int),
            forall|i: int| 0 <= i < k - start ==> s[i] != b,
        decreases bytes@.len() - k,
    {
        if bytes[k] == b {
            proof {
                lemma_find_byte(s, b);
                assert(s[k - start] == b);
                if spec_find_byte(s, b) < k - start {
                    assert(s[spec_find_byte(s, b)] == b);
                }
                if spec_find_byte(s, b) > k - start {
                    assert(s[k - start] != b);
                }
            }
            return k;
        }
        k = k + 1;
    }
    proof {
        lemma_find_byte(s, b);
        if spec_find_byte(s, b) < s.len() {
            assert(s[spec_find_byte(s, b)] == b);
        }
    }
    bytes.len()
}

/// Parses a kernel release string such as `6.4.0-generic` into its major
/// and minor version.
pub fn parse_kernel_release(bytes: &[u8]) -> (r: Option<(u16, u16)>)
    ensures
        r == spec_parse_kernel_release(bytes@),
{
    let dot1 = find_byte(bytes, 0, 46);
    proof {
        assert(bytes@.skip(0) =~= bytes@);
    }
    if dot1 >= bytes.len() {
        return None;
    }
    let rest_start = dot1 + 1;
    let dot2 = find_byte(bytes, rest_start, 46);
    proof {
        assert(bytes@.skip(rest_start as int) =~= bytes@.skip(dot1 + 1));
        assert(bytes@.subrange(0, dot1 as int) =~= bytes@.take(dot1 as int));
        assert(bytes@.subrange(rest_start as int, dot2 as int) =~= bytes@.skip(dot1 + 1).take(
            dot2 - rest_start,
        ));
    }
    let major = match parse_u16_dec(bytes, 0, dot1) {
        Some(v) => v,
        None => {
            return None;
        },
    };
    let minor = match parse_u16_dec(bytes, rest_start, dot2) {
        Some(v) => v,
        None => {
            return None;
        },
    };
    Some((major, minor))
}

/// The Linux kernel version of the running system, when it can be
/// obtained and parsed.
pub fn linux_version() -> (r: Option<(u16, u16)>) {
    match kernel_release_bytes() {
        Some(bytes) => parse_kernel_release(bytes.as_slice()),
        None => None,
    }
}

/// The `bcdVersion` field value of OS-extension descriptors for a kernel
/// version: `0x0100` from Linux 6.4 on, `0x0001` before and when the
/// version is unknown.
pub open spec fn spec_os_desc_bcd_version(version: Option<(u16, u16)>) -> u16 {
    match version {
        Some(v) => if v.0 > 6 || (v.0 == 6 && v.1 >= 4) {
            0x0100
        } else {
            0x0001
        },
        None => 0x0001,
    }
}

/// The `bcdVersion` field value of OS-extension descriptors for a kernel
/// version.
pub fn os_desc_bcd_version(version: Option<(u16, u16)>) -> (r: u16)
    ensures
        r == spec_os_desc_bcd_version(version),
{
    match version {
        Some(v) => if v.0 > 6 || (v.0 == 6 && v.1 >= 4) {
            0x0100
        } else {
            0x0001
        },
        None => 0x0001,
    }
}

} // verus!
