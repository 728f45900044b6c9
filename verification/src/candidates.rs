//! Candidate PIN generation: fixed-width, zero-padded decimal strings,
//! produced in ascending order over a caller-chosen range of the
//! candidate space.

use vstd::prelude::*;

verus! {

/// The decimal digit character for a value below ten.
pub open spec fn spec_digit_char(d: int) -> char {
    if d == 0 {
        '0'
    } else if d == 1 {
        '1'
    } else if d == 2 {
        '2'
    } else if d == 3 {
        '3'
    } else if d == 4 {
        '4'
    } else if d == 5 {
        '5'
    } else if d == 6 {
        '6'
    } else if d == 7 {
        '7'
    } else if d == 8 {
        '8'
    } else {
        '9'
    }
}

/// The `width` lowest decimal digits of `n`, zero-padded on the left:
/// for `n` below ten to the `width` this is its canonical fixed-width
/// decimal rendering.
pub open spec fn spec_padded_decimal(n: int, width: nat) -> Seq<char>
    decreases width,
{
    if width == 0 {
        Seq::empty()
    } else {
        spec_padded_decimal(n / 10, (width - 1) as nat).push(spec_digit_char(n % 10))
    }
}

/// The one-character string for a decimal digit.
fn digit_str(d: u64) -> (r: &'static str)
    requires
        d < 10,
    ensures
        r@ == seq![spec_digit_char(d as int)],
{
    let r: &'static str = if d == 0 {
        "0"
    } else if d == 1 {
        "1"
    } else if d == 2 {
        "2"
    } else if d == 3 {
        "3"
    } else if d == 4 {
        "4"
    } else if d == 5 {
        "5"
    } else if d == 6 {
        "6"
    } else if d == 7 {
        "7"
    } else if d == 8 {
        "8"
    } else {
        "9"
    };
    proof {
        reveal_strlit("0");
        reveal_strlit("1");
        reveal_strlit("2");
        reveal_strlit("3");
        reveal_strlit("4");
        reveal_strlit("5");
        reveal_strlit("6");
        reveal_strlit("7");
        reveal_strlit("8");
        reveal_strlit("9");
        assert(r@ =~= seq![spec_digit_char(d as int)]);
    }
    r
}

/// Renders `n` as a `width`-digit zero-padded decimal string, keeping
/// its `width` lowest digits.
pub fn padded_decimal(n: u64, width: usize) -> (r: String)
    ensures
        r@ == spec_padded_decimal(n as int, width as nat),
    decreases width,
{
    if width == 0 {
        String::new()
    } else {
        let mut prefix = padded_decimal(n / 10, width - 1);
        let ghost before = prefix@;
        let digit = digit_str(n % 10);
        prefix.append(digit);
        proof {
            assert(prefix@ =~= before.push(spec_digit_char(n as int % 10)));
        }
        prefix
    }
}

/// All `width`-digit zero-padded candidate strings for the values from
/// `from` up to but excluding `to`, in ascending order; candidates are
/// canonical while the values stay below ten to the `width`.
pub fn pin_candidates(from: u64, to: u64, width: usize) -> (r: Vec<String>)
    requires
        from <= to,
        to - from <= usize::MAX,
    ensures
        r@.len() == to - from,
        forall|i: int|
            0 <= i < r@.len() ==> r@[i]@ == spec_padded_decimal(from + i, width as nat),
{
    let mut out: Vec<String> = Vec::new();
    let mut next = from;
    while next < to
        invariant
            from <= next <= to,
            out@.len() == next - from,
            forall|i: int|
                0 <= i < out@.len() ==> out@[i]@ == spec_padded_decimal(from + i, width as nat),
        decreases to - next,
    {
        out.push(padded_decimal(next, width));
        next = next + 1;
    }
    out
}

} // verus!
