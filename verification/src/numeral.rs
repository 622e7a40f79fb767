//! Decimal numerals: the number that a level folder's name denotes, and the
//! numeral under which a level is written out.

use vstd::prelude::*;

verus! {

/// Whether `c` is one of the ten decimal digits.
pub open spec fn is_digit(c: char) -> bool {
    '0' <= c && c <= '9'
}

/// The value of the digit `c`.
pub open spec fn digit_value(c: char) -> nat {
    (c as u32 - '0' as u32) as nat
}

/// The digit whose value is `d`, for `d` below ten.
pub open spec fn digit_char(d: nat) -> char {
    if d == 0 {
        '0'
    } else if d == 1 {
        '1'
    } else if d == 2 {
        '2'
    } else if d == 3 {
        '3'
    } else if d == 4 {
        '4'
    } else if d == 5 {
        '5'
    } else if d == 6 {
        '6'
    } else if d == 7 {
        '7'
    } else if d == 8 {
        '8'
    } else {
        '9'
    }
}

/// Whether every character of `s` is a decimal digit.
pub open spec fn all_digits(s: Seq<char>) -> bool {
    forall|i: int| 0 <= i < s.len() ==> is_digit(#[trigger] s[i])
}

/// The number that the digits of `s` denote, most significant digit first.
pub open spec fn digits_value(s: Seq<char>) -> nat
    decreases s.len(),
{
    if s.len() == 0 {
        0
    } else {
        10 * digits_value(s.drop_last()) + digit_value(s.last())
    }
}

/// The decimal numeral of `n`, without sign and without leading zeros.
pub open spec fn decimal(n: nat) -> Seq<char>
    decreases n,
{
    if n < 10 {
        seq![digit_char(n)]
    } else {
        decimal(n / 10).push(digit_char(n % 10))
    }
}

/// The digits of a numeral: `s` without the plus sign that may lead it.
pub open spec fn unsigned_part(s: Seq<char>) -> Seq<char> {
    if s.len() > 0 && s[0] == '+' {
        s.subrange(1, s.len() as int)
    } else {
        s
    }
}

/// Whether a folder name is a numeral: a run of one or more decimal digits,
/// which a single plus sign may lead. The run may be of any length.
pub open spec fn spec_is_numeral(name: Seq<char>) -> bool {
    unsigned_part(name).len() > 0 && all_digits(unsigned_part(name))
}

/// The number that a folder name denotes, however large, where the name is
/// a numeral. Any other name denotes no number.
pub open spec fn spec_level_number(name: Seq<char>) -> Option<nat> {
    if spec_is_numeral(name) {
        Some(digits_value(unsigned_part(name)))
    } else {
        None
    }
}

/// How one number stands to another.
#[derive(Clone, Copy, Debug, PartialEq, Eq, Structural)]
pub enum Rank {
    /// It is the lower.
    Lower,
    /// They are the same.
    Same,
    /// It is the higher.
    Higher,
}

/// How `x` stands to `y`.
pub open spec fn rank_of(x: nat, y: nat) -> Rank {
    if x < y {
        Rank::Lower
    } else if x == y {
        Rank::Same
    } else {
        Rank::Higher
    }
}

/// How the number that `a` denotes stands to the number that `b` denotes,
/// where both are numerals.
pub open spec fn spec_number_rank(a: Seq<char>, b: Seq<char>) -> Option<Rank> {
    match (spec_level_number(a), spec_level_number(b)) {
        (Some(x), Some(y)) => Some(rank_of(x, y)),
        _ => None,
    }
}

/// The digits `s`, led by as many zeros as bring them to `width` digits.
pub open spec fn padded(s: Seq<char>, width: nat) -> Seq<char> {
    Seq::new((width - s.len()) as nat, |i: int| '0') + s
}

/// Leading zeros do not change the number that digits denote.
pub proof fn lemma_padding_keeps_value(s: Seq<char>, width: nat)
    requires
        s.len() <= width,
    ensures
        digits_value(padded(s, width)) == digits_value(s),
    decreases width,
{
    let wide = padded(s, width);
    if width > 0 {
        if s.len() == 0 {
            lemma_padding_keeps_value(s, (width - 1) as nat);
            assert(wide.drop_last() =~= padded(s, (width - 1) as nat));
            assert(wide.last() == '0');
        } else {
            lemma_padding_keeps_value(s.drop_last(), (width - 1) as nat);
            assert(wide.drop_last() =~= padded(s.drop_last(), (width - 1) as nat));
            assert(wide.last() == s.last());
        }
    } else {
        assert(wide =~= s);
    }
}

/// The numeral of a number is made of digits, one at least, and they denote
/// the number.
pub proof fn lemma_decimal_digits(n: nat)
    ensures
        decimal(n).len() > 0,
        all_digits(decimal(n)),
        digits_value(decimal(n)) == n,
    decreases n,
{
    let text = decimal(n);
    if n < 10 {
        assert(digits_value(text.drop_last()) == 0);
    } else {
        lemma_decimal_digits(n / 10);
        assert(text.drop_last() =~= decimal(n / 10));
    }
}

/// A level that is written out under its number is read back as that
/// number: the numeral of a number denotes it.
pub proof fn lemma_decimal_denotes(n: nat)
    ensures
        spec_level_number(decimal(n)) == Some(n),
{
    lemma_decimal_digits(n);
}

/// Two numbers with the same numeral are the same number.
pub proof fn lemma_decimal_is_injective(m: nat, n: nat)
    requires
        decimal(m) == decimal(n),
    ensures
        m == n,
{
    lemma_decimal_digits(m);
    lemma_decimal_digits(n);
}

/// The value of the digit `c`, if it is one.
pub fn digit_of(c: char) -> (d: Option<u32>)
    ensures
        d is Some <==> is_digit(c),
        d matches Some(v) ==> v == digit_value(c) && v < 10,
{
    if '0' <= c && c <= '9' {
        Some(c as u32 - '0' as u32)
    } else {
        None
    }
}

/// Whether the folder name `name` is a numeral.
pub fn is_numeral(name: &str) -> (numeral: bool)
    ensures
        numeral == spec_is_numeral(name@),
{
    let len: usize = name.unicode_len();
    let start: usize = if len > 0 && name.get_char(0) == '+' {
        1
    } else {
        0
    };
    if start == len {
        return false;
    }
    let ghost digits = unsigned_part(name@);
    let mut i: usize = start;
    while i < len
        invariant
            start <= i <= len,
            len == name@.len(),
            digits == unsigned_part(name@),
            digits.len() == len - start,
            forall|j: int| 0 <= j < digits.len() ==> digits[j] == name@[j + start],
            forall|j: int| 0 <= j < i - start ==> is_digit(#[trigger] digits[j]),
        decreases len - i,
    {
        if digit_of(name.get_char(i)).is_none() {
            assert(!is_digit(digits[i - start]));
            return false;
        }
        i = i + 1;
    }
    true
}

/// The digit at place `place` of the digits of `name`, led by as many zeros
/// as bring them to `width` digits.
fn padded_digit(name: &str, start: usize, width: usize, place: usize) -> (d: u32)
    requires
        spec_is_numeral(name@),
        start == name@.len() - unsigned_part(name@).len(),
        unsigned_part(name@).len() <= width,
        place < width,
    ensures
        d == digit_value(padded(unsigned_part(name@), width as nat)[place as int]),
        d < 10,
        is_digit(padded(unsigned_part(name@), width as nat)[place as int]),
{
    let len: usize = name.unicode_len();
    let zeros: usize = width - (len - start);
    let ghost digits = unsigned_part(name@);
    if place < zeros {
        0
    } else {
        assert(digits[place - zeros] == name@[place - zeros + start]);
        assert(is_digit(digits[place - zeros]));
        match digit_of(name.get_char(place - zeros + start)) {
            Some(d) => d,
            None => 0,
        }
    }
}

/// How the number that `a` denotes stands to the number that `b` denotes,
/// however large the two are; nothing where one of them is no numeral.
pub fn number_rank(a: &str, b: &str) -> (rank: Option<Rank>)
    ensures
        rank == spec_number_rank(a@, b@),
{
    if !is_numeral(a) || !is_numeral(b) {
        return None;
    }
    let a_len: usize = a.unicode_len();
    let b_len: usize = b.unicode_len();
    let a_start: usize = if a.get_char(0) == '+' {
        1
    } else {
        0
    };
    let b_start: usize = if b.get_char(0) == '+' {
        1
    } else {
        0
    };
    let width: usize = if a_len - a_start < b_len - b_start {
        b_len - b_start
    } else {
        a_len - a_start
    };
    let ghost wide_a = padded(unsigned_part(a@), width as nat);
    let ghost wide_b = padded(unsigned_part(b@), width as nat);
    let mut rank = Rank::Same;
    let mut place: usize = 0;
    while place < width
        invariant
            place <= width,
            spec_is_numeral(a@),
            spec_is_numeral(b@),
            a_start == a@.len() - unsigned_part(a@).len(),
            b_start == b@.len() - unsigned_part(b@).len(),
            unsigned_part(a@).len() <= width,
            unsigned_part(b@).len() <= width,
            wide_a == padded(unsigned_part(a@), width as nat),
            wide_b == padded(unsigned_part(b@), width as nat),
            rank == rank_of(
                digits_value(wide_a.take(place as int)),
                digits_value(wide_b.take(place as int)),
            ),
        decreases width - place,
    {
        let x: u32 = padded_digit(a, a_start, width, place);
        let y: u32 = padded_digit(b, b_start, width, place);
        proof {
            assert(wide_a.take(place + 1).drop_last() =~= wide_a.take(place as int));
            assert(wide_b.take(place + 1).drop_last() =~= wide_b.take(place as int));
            assert(wide_a.take(place + 1).last() == wide_a[place as int]);
            assert(wide_b.take(place + 1).last() == wide_b[place as int]);
        }
        if rank == Rank::Same {
            rank = if x < y {
                Rank::Lower
            } else if x == y {
                Rank::Same
            } else {
                Rank::Higher
            };
        }
        place = place + 1;
    }
    proof {
        assert(wide_a.take(width as int) =~= wide_a);
        assert(wide_b.take(width as int) =~= wide_b);
        lemma_padding_keeps_value(unsigned_part(a@), width as nat);
        lemma_padding_keeps_value(unsigned_part(b@), width as nat);
    }
    Some(rank)
}

/// The text of the digit whose value is `d`.
fn digit_text(d: usize) -> (text: &'static str)
    requires
        d < 10,
    ensures
        text@ == seq![digit_char(d as nat)],
{
    proof {
        reveal_strlit("0");
        reveal_strlit("1");
        reveal_strlit("2");
        reveal_strlit("3");
        reveal_strlit("4");
        reveal_strlit("5");
        reveal_strlit("6");
        reveal_strlit("7");
        reveal_strlit("8");
        reveal_strlit("9");
    }
    if d == 0 {
        "0"
    } else if d == 1 {
        "1"
    } else if d == 2 {
        "2"
    } else if d == 3 {
        "3"
    } else if d == 4 {
        "4"
    } else if d == 5 {
        "5"
    } else if d == 6 {
        "6"
    } else if d == 7 {
        "7"
    } else if d == 8 {
        "8"
    } else {
        "9"
    }
}

/// The decimal numeral of `n`.
pub fn numeral(n: usize) -> (text: String)
    ensures
        text@ == decimal(n as nat),
    decreases n,
{
    if n < 10 {
        String::from_str(digit_text(n))
    } else {
        let mut text = numeral(n / 10);
        text.append(digit_text(n % 10));
        text
    }
}

} // verus!
