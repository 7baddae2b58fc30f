//! Building the small property strings that the kernel's configuration
//! filesystems expect: decimal and hexadecimal renderings of integers.

use vstd::prelude::*;

verus! {

/// Character for a single digit value below 16.
pub open spec fn spec_digit(value: int) -> char {
    if value == 0 {
        '0'
    } else if value == 1 {
        '1'
    } else if value == 2 {
        '2'
    } else if value == 3 {
        '3'
    } else if value == 4 {
        '4'
    } else if value == 5 {
        '5'
    } else if value == 6 {
        '6'
    } else if value == 7 {
        '7'
    } else if value == 8 {
        '8'
    } else if value == 9 {
        '9'
    } else if value == 10 {
        'a'
    } else if value == 11 {
        'b'
    } else if value == 12 {
        'c'
    } else if value == 13 {
        'd'
    } else if value == 14 {
        'e'
    } else {
        'f'
    }
}

/// Decimal rendering of a non-negative integer, most significant digit first.
pub open spec fn spec_decimal(value: int) -> Seq<char>
    decreases value,
{
    if value < 10 {
        seq![spec_digit(value)]
    } else {
        spec_decimal(value / 10) + seq![spec_digit(value % 10)]
    }
}

/// One-character string for a single digit value below 16.
fn digit_str(value: u8) -> (r: &'static str)
    requires
        value < 16,
    ensures
        r@ == seq![spec_digit(value as int)],
        r.is_ascii(),
{
    proof {
        reveal_strlit("0");
        reveal_strlit("1");
        reveal_strlit("2");
        reveal_strlit("3");
        reveal_strlit("4");
        reveal_strlit("5");
        reveal_strlit("6");
        reveal_strlit("7");
        reveal_strlit("8");
        reveal_strlit("9");
        reveal_strlit("a");
        reveal_strlit("b");
        reveal_strlit("c");
        reveal_strlit("d");
        reveal_strlit("e");
        reveal_strlit("f");
    }
    match value {
        0 => "0",
        1 => "1",
        2 => "2",
        3 => "3",
        4 => "4",
        5 => "5",
        6 => "6",
        7 => "7",
        8 => "8",
        9 => "9",
        10 => "a",
        11 => "b",
        12 => "c",
        13 => "d",
        14 => "e",
        _ => "f",
    }
}

/// Decimal rendering of a 64-bit value.
pub fn u64_to_decimal(value: u64) -> (r: String)
    ensures
        r@ == spec_decimal(value as int),
    decreases value,
{
    if value < 10 {
        digit_str(value as u8).to_owned()
    } else {
        let mut s = u64_to_decimal(value / 10);
        s.append(digit_str((value % 10) as u8));
        s
    }
}

/// Decimal rendering of a 32-bit value.
pub fn u32_to_decimal(value: u32) -> (r: String)
    ensures
        r@ == spec_decimal(value as int),
{
    u64_to_decimal(value as u64)
}

/// Decimal rendering of a signed 16-bit value, with a leading minus sign
/// when negative.
pub open spec fn spec_decimal_i16(value: int) -> Seq<char> {
    if value < 0 {
        seq!['-'] + spec_decimal(-value)
    } else {
        spec_decimal(value)
    }
}

/// Decimal rendering of a signed 16-bit value.
pub fn i16_to_decimal(value: i16) -> (r: String)
    ensures
        r@ == spec_decimal_i16(value as int),
{
    proof {
        reveal_strlit("-");
    }
    if value < 0 {
        let magnitude: u64 = (-(value as i64)) as u64;
        let mut s = String::from_str("-");
        s.append(u64_to_decimal(magnitude).as_str());
        s
    } else {
        u64_to_decimal(value as u64)
    }
}

/// Hexadecimal rendering of an 8-bit value in the form `0x00`.
pub open spec fn spec_hex_u8(value: int) -> Seq<char> {
    seq!['0', 'x', spec_digit(value / 16), spec_digit(value % 16)]
}

/// 8-bit value to hexadecimal notation.
pub fn hex_u8(value: u8) -> (r: String)
    ensures
        r@ == spec_hex_u8(value as int),
{
    proof {
        reveal_strlit("0x");
    }
    let mut s = String::from_str("0x");
    s.append(digit_str(value / 16));
    s.append(digit_str(value % 16));
    assert(s@ =~= spec_hex_u8(value as int));
    s
}

/// Hexadecimal rendering of a 16-bit value in the form `0x0000`.
pub open spec fn spec_hex_u16(value: int) -> Seq<char> {
    seq![
        '0',
        'x',
        spec_digit(value / 4096),
        spec_digit((value / 256) % 16),
        spec_digit((value / 16) % 16),
        spec_digit(value % 16),
    ]
}

/// 16-bit value to hexadecimal notation.
pub fn hex_u16(value: u16) -> (r: String)
    ensures
        r@ == spec_hex_u16(value as int),
{
    proof {
        reveal_strlit("0x");
    }
    let mut s = String::from_str("0x");
    s.append(digit_str((value / 4096) as u8));
    s.append(digit_str(((value / 256) % 16) as u8));
    s.append(digit_str(((value / 16) % 16) as u8));
    s.append(digit_str((value % 16) as u8));
    assert(s@ =~= spec_hex_u16(value as int));
    s
}

/// The given strings joined by single newlines, in order.
pub open spec fn spec_join_lines(parts: Seq<Seq<char>>) -> Seq<char>
    decreases parts.len(),
{
    if parts.len() == 0 {
        Seq::empty()
    } else if parts.len() == 1 {
        parts[0]
    } else {
        spec_join_lines(parts.drop_last()) + seq!['\n'] + parts.last()
    }
}

/// Joins the given strings with single newlines.
pub fn join_lines(parts: &Vec<String>) -> (r: String)
    ensures
        r@ == spec_join_lines(parts@.map_values(|p: String| p@)),
{
    let mut out = String::new();
    let ghost views = parts@.map_values(|p: String| p@);
    for i in 0..parts.len()
        invariant
            views == parts@.map_values(|p: String| p@),
            out@ == spec_join_lines(views.take(i as int)),
    {
        if i > 0 {
            out.append("\n");
        }
        let part = &parts[i];
        proof {
            assert(views[i as int] == part@);
        }
        out.append(part.as_str());
        proof {
            let prev = views.take(i as int);
            let cur = views.take(i as int + 1);
            assert(cur.drop_last() =~= prev);
            assert(cur.last() == views[i as int]);
            if i == 0 {
                assert(out@ =~= cur[0]);
            } else {
                reveal_strlit("\n");
                assert(("\n")@ =~= seq!['\n']);
                assert(out@ =~= spec_join_lines(prev) + seq!['\n'] + views[i as int]);
            }
        }
    }
    proof {
        assert(views.take(parts@.len() as int) =~= views);
    }
    out
}

/// The given strings joined by single commas, in order.
pub open spec fn spec_join_comma(parts: Seq<Seq<char>>) -> Seq<char>
    decreases parts.len(),
{
    if parts.len() == 0 {
        Seq::empty()
    } else if parts.len() == 1 {
        parts[0]
    } else {
        spec_join_comma(parts.drop_last()) + seq![','] + parts.last()
    }
}

/// Joins the given strings with single commas.
pub fn join_comma(parts: &Vec<String>) -> (r: String)
    ensures
        r@ == spec_join_comma(parts@.map_values(|p: String| p@)),
{
    proof {
        reveal_strlit(",");
    }
    let mut out = String::new();
    let ghost views = parts@.map_values(|p: String| p@);
    for i in 0..parts.len()
        invariant
            views == parts@.map_values(|p: String| p@),
            out@ == spec_join_comma(views.take(i as int)),
    {
        if i > 0 {
            out.append(",");
        }
        let part = &parts[i];
        proof {
            assert(views[i as int] == part@);
        }
        out.append(part.as_str());
        proof {
            let prev = views.take(i as int);
            let cur = views.take(i as int + 1);
            assert(cur.drop_last() =~= prev);
            assert(cur.last() == views[i as int]);
            if i == 0 {
                assert(out@ =~= cur[0]);
            } else {
                reveal_strlit(",");
                assert(","@ =~= seq![',']);
                assert(out@ =~= spec_join_comma(prev) + seq![','] + views[i as int]);
            }
        }
    }
    proof {
        assert(views.take(parts@.len() as int) =~= views);
    }
    out
}

} // verus!
