//! The names of the frames that are written out.

use vstd::prelude::*;
use vstd::string::StringExecFns;

verus! {

/// Least number of digits in a frame's number: smaller numbers get zeros in
/// front.
pub const FRAME_DIGITS: usize = 3;

/// The character of the decimal digit `d`.
pub open spec fn digit_char(d: int) -> char {
    seq!['0', '1', '2', '3', '4', '5', '6', '7', '8', '9'][d]
}

/// The decimal numeral of `n`, without leading zeros.
pub open spec fn decimal(n: nat) -> Seq<char>
    decreases n,
{
    if n < 10 {
        seq![digit_char(n as int)]
    } else {
        decimal(n / 10).push(digit_char((n % 10) as int))
    }
}

/// `numeral` with as many zeros in front as it lacks to `width` characters.
pub open spec fn zero_padded(numeral: Seq<char>, width: nat) -> Seq<char> {
    if numeral.len() >= width {
        numeral
    } else {
        Seq::new((width - numeral.len()) as nat, |i: int| '0') + numeral
    }
}

/// The extension of a frame's file.
pub open spec fn frame_extension() -> Seq<char> {
    seq!['.', 'p', 'n', 'g']
}

/// The file name of frame number `export`: the number in at least three
/// decimal digits, and the extension of a PNG image.
pub open spec fn frame_name(export: nat) -> Seq<char> {
    zero_padded(decimal(export), FRAME_DIGITS as nat) + frame_extension()
}

/// The digits of `n` that stand before its last one: none for a number below
/// ten.
spec fn leading(n: nat) -> Seq<char> {
    if n == 0 {
        Seq::empty()
    } else {
        decimal(n)
    }
}

proof fn lemma_decimal_splits(n: nat)
    ensures
        decimal(n) =~= leading(n / 10).push(digit_char((n % 10) as int)),
{
    if n < 10 {
        assert(n / 10 == 0);
        assert(n % 10 == n);
    }
}

/// The one-character string of the decimal digit `d`.
fn digit_str(d: usize) -> (s: &'static str)
    requires
        d < 10,
    ensures
        s@ =~= seq![digit_char(d as int)],
{
    proof {
        reveal_strlit("0");
        reveal_strlit("1");
        reveal_strlit("2");
        reveal_strlit("3");
        reveal_strlit("4");
        reveal_strlit("5");
        reveal_strlit("6");
        reveal_strlit("7");
        reveal_strlit("8");
        reveal_strlit("9");
    }
    if d == 0 {
        "0"
    } else if d == 1 {
        "1"
    } else if d == 2 {
        "2"
    } else if d == 3 {
        "3"
    } else if d == 4 {
        "4"
    } else if d == 5 {
        "5"
    } else if d == 6 {
        "6"
    } else if d == 7 {
        "7"
    } else if d == 8 {
        "8"
    } else {
        "9"
    }
}

/// The file name under which frame number `export` is written.
pub fn frame_file_name(export: usize) -> (name: String)
    ensures
        name@ == frame_name(export as nat),
{
    // The digits from the last to the first.
    let mut digits: Vec<usize> = Vec::new();
    digits.push(export % 10);
    let mut rest: usize = export / 10;
    proof {
        lemma_decimal_splits(export as nat);
    }
    while rest > 0
        invariant
            digits@.len() >= 1,
            forall|k: int| 0 <= k < digits@.len() ==> #[trigger] digits@[k] < 10,
            decimal(export as nat) =~= leading(rest as nat) + Seq::new(
                digits@.len(),
                |k: int| digit_char(digits@[digits@.len() - 1 - k] as int),
            ),
        decreases rest,
    {
        proof {
            lemma_decimal_splits(rest as nat);
        }
        digits.push(rest % 10);
        rest = rest / 10;
    }
    let ghost numeral: Seq<char> = decimal(export as nat);
    let mut name: String = String::new();
    let mut missing: usize = if digits.len() < FRAME_DIGITS {
        FRAME_DIGITS - digits.len()
    } else {
        0
    };
    let ghost zeros: nat = missing as nat;
    while missing > 0
        invariant
            missing <= zeros,
            name@ =~= Seq::new((zeros - missing) as nat, |i: int| '0'),
        decreases missing,
    {
        name.append(digit_str(0));
        missing -= 1;
    }
    let mut k: usize = digits.len();
    while k > 0
        invariant
            k <= digits@.len(),
            numeral.len() == digits@.len(),
            forall|j: int| 0 <= j < digits@.len() ==> #[trigger] digits@[j] < 10,
            forall|j: int|
                0 <= j < digits@.len() ==> #[trigger] numeral[j] == digit_char(
                    digits@[digits@.len() - 1 - j] as int,
                ),
            name@ =~= Seq::new(zeros, |i: int| '0') + numeral.subrange(0, digits@.len() - k),
        decreases k,
    {
        k -= 1;
        name.append(digit_str(digits[k]));
    }
    assert(numeral.subrange(0, digits@.len() as int) =~= numeral);
    proof {
        reveal_strlit(".png");
    }
    name.append(".png");
    assert(name@ =~= frame_name(export as nat));
    name
}

} // verus!
