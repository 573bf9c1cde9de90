//! Verified text rendering: decimal numbers and the canonical hyphenated
//! hexadecimal form of the registry's 128-bit identifiers.

use vstd::prelude::*;

verus! {

/// Relies on `String::push`: appends the given character to the end of
/// the string.
pub assume_specification[ String::push ](s: &mut String, c: char)
    ensures
        final(s)@ == old(s)@.push(c),
;

/// The lowercase hexadecimal digit for a value below sixteen.
pub open spec fn hex_char(d: int) -> char {
    if d == 0 {
        '0'
    } else if d == 1 {
        '1'
    } else if d == 2 {
        '2'
    } else if d == 3 {
        '3'
    } else if d == 4 {
        '4'
    } else if d == 5 {
        '5'
    } else if d == 6 {
        '6'
    } else if d == 7 {
        '7'
    } else if d == 8 {
        '8'
    } else if d == 9 {
        '9'
    } else if d == 10 {
        'a'
    } else if d == 11 {
        'b'
    } else if d == 12 {
        'c'
    } else if d == 13 {
        'd'
    } else if d == 14 {
        'e'
    } else {
        'f'
    }
}

/// The decimal digit for a value below ten.
pub open spec fn dec_char(d: int) -> char {
    if d == 0 {
        '0'
    } else if d == 1 {
        '1'
    } else if d == 2 {
        '2'
    } else if d == 3 {
        '3'
    } else if d == 4 {
        '4'
    } else if d == 5 {
        '5'
    } else if d == 6 {
        '6'
    } else if d == 7 {
        '7'
    } else if d == 8 {
        '8'
    } else {
        '9'
    }
}

/// The usual decimal rendering of a non-negative integer, most significant
/// digit first, with no leading zeros (a single `'0'` for zero).
pub open spec fn dec_str(n: int) -> Seq<char>
    recommends
        n >= 0,
    decreases n,
{
    if n < 10 {
        seq![dec_char(n)]
    } else {
        dec_str(n / 10).push(dec_char(n % 10))
    }
}

/// The `k`-th hexadecimal digit, most significant first, of a 128-bit value.
pub open spec fn nibble(n: u128, k: int) -> int
    recommends
        0 <= k < 32,
{
    ((n >> (((31 - k) * 4) as u128)) & 0xf) as int
}

/// Which of the 32 hexadecimal digits stands at position `i` of the
/// hyphenated form (positions 8, 13, 18 and 23 hold the hyphens).
pub open spec fn uuid_digit_index(i: int) -> int {
    if i < 8 {
        i
    } else if i < 13 {
        i - 1
    } else if i < 18 {
        i - 2
    } else if i < 23 {
        i - 3
    } else {
        i - 4
    }
}

/// The character at position `i` of the canonical hyphenated form of an id.
pub open spec fn uuid_char(n: u128, i: int) -> char {
    if i == 8 || i == 13 || i == 18 || i == 23 {
        '-'
    } else {
        hex_char(nibble(n, uuid_digit_index(i)))
    }
}

/// The canonical textual form of a 128-bit id: 32 lowercase hexadecimal
/// digits, most significant first, hyphenated in groups of 8-4-4-4-12.
pub open spec fn uuid_str(n: u128) -> Seq<char> {
    Seq::new(36, |i: int| uuid_char(n, i))
}

proof fn lemma_low_nibble_bound(x: u128)
    ensures
        (x & 0xf) < 16,
{
    assert((x & 0xf) < 16) by (bit_vector);
}

/// The lowercase hexadecimal digit of the low four bits of `d`.
fn low_nibble_char(d: u128) -> (c: char)
    ensures
        c == hex_char((d & 0xf) as int),
{
    proof {
        lemma_low_nibble_bound(d);
    }
    let m: u128 = d & 0xf;
    if m == 0 {
        '0'
    } else if m == 1 {
        '1'
    } else if m == 2 {
        '2'
    } else if m == 3 {
        '3'
    } else if m == 4 {
        '4'
    } else if m == 5 {
        '5'
    } else if m == 6 {
        '6'
    } else if m == 7 {
        '7'
    } else if m == 8 {
        '8'
    } else if m == 9 {
        '9'
    } else if m == 10 {
        'a'
    } else if m == 11 {
        'b'
    } else if m == 12 {
        'c'
    } else if m == 13 {
        'd'
    } else if m == 14 {
        'e'
    } else {
        'f'
    }
}

/// The decimal digit character for `d`.
fn dec_digit(d: u32) -> (c: char)
    requires
        d < 10,
    ensures
        c == dec_char(d as int),
{
    if d == 0 {
        '0'
    } else if d == 1 {
        '1'
    } else if d == 2 {
        '2'
    } else if d == 3 {
        '3'
    } else if d == 4 {
        '4'
    } else if d == 5 {
        '5'
    } else if d == 6 {
        '6'
    } else if d == 7 {
        '7'
    } else if d == 8 {
        '8'
    } else {
        '9'
    }
}

/// Renders a non-negative number in decimal.
pub fn dec_text(n: u32) -> (s: String)
    ensures
        s@ == dec_str(n as int),
    decreases n,
{
    if n < 10 {
        let mut s = String::new();
        s.push(dec_digit(n));
        proof {
            assert(s@ =~= dec_str(n as int));
        }
        s
    } else {
        let mut s = dec_text(n / 10);
        s.push(dec_digit(n % 10));
        proof {
            assert(s@ =~= dec_str(n as int));
        }
        s
    }
}

/// Renders a 128-bit id in its canonical hyphenated form.
pub fn uuid_text(n: u128) -> (s: String)
    ensures
        s@ == uuid_str(n),
{
    let mut s = String::new();
    let mut i: usize = 0;
    while i < 36
        invariant
            0 <= i <= 36,
            s@.len() == i,
            forall|j: int| 0 <= j < i ==> s@[j] == uuid_char(n, j),
        decreases 36 - i,
    {
        if i == 8 || i == 13 || i == 18 || i == 23 {
            s.push('-');
        } else {
            let k: u128 = if i < 8 {
                i as u128
            } else if i < 13 {
                (i - 1) as u128
            } else if i < 18 {
                (i - 2) as u128
            } else if i < 23 {
                (i - 3) as u128
            } else {
                (i - 4) as u128
            };
            proof {
                assert(k == uuid_digit_index(i as int));
            }
            let d: u128 = n >> ((31 - k) * 4);
            proof {
                assert((d & 0xf) as int == nibble(n, uuid_digit_index(i as int)));
            }
            s.push(low_nibble_char(d));
        }
        i += 1;
    }
    proof {
        assert(s@ =~= uuid_str(n));
    }
    s
}

} // verus!
