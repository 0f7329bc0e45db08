//! Decimal rendering and column padding, as the overlay's text output needs them.
use vstd::prelude::*;
use vstd::string::*;

verus! {

/// The character of a decimal digit.
pub open spec fn digit_char(d: nat) -> char {
    if d == 0 { '0' }
    else if d == 1 { '1' }
    else if d == 2 { '2' }
    else if d == 3 { '3' }
    else if d == 4 { '4' }
    else if d == 5 { '5' }
    else if d == 6 { '6' }
    else if d == 7 { '7' }
    else if d == 8 { '8' }
    else { '9' }
}

/// The decimal text of a natural number, without sign or leading zeros.
pub open spec fn decimal(n: nat) -> Seq<char>
    decreases n,
{
    if n < 10 {
        seq![digit_char(n)]
    } else {
        decimal(n / 10).push(digit_char(n % 10))
    }
}

/// The number that a text of decimal digits denotes.
pub open spec fn digits_value(s: Seq<char>) -> int
    decreases s.len(),
{
    if s.len() == 0 {
        0
    } else {
        digits_value(s.drop_last()) * 10 + (s.last() as int - '0' as int)
    }
}

/// A digit's character is the one whose code is that of `'0'` plus the digit.
pub proof fn lemma_digit_char_code(d: nat)
    requires
        d < 10,
    ensures
        digit_char(d) as int == '0' as int + d,
{
}

/// The decimal text of `n` is made of the characters `'0'` to `'9'`, does
/// not start with `'0'` unless it is `"0"`, and read back as base-10
/// digits it denotes `n`.
pub proof fn lemma_decimal_denotes(n: nat)
    ensures
        digits_value(decimal(n)) == n,
        decimal(n).len() >= 1,
        forall|i: int| 0 <= i < decimal(n).len() ==> '0' <= #[trigger] decimal(n)[i] <= '9',
        decimal(n)[0] == '0' ==> n == 0,
    decreases n,
{
    if n < 10 {
        lemma_digit_char_code(n);
        assert(decimal(n).drop_last() =~= Seq::<char>::empty());
        assert(digits_value(Seq::<char>::empty()) == 0);
        assert(decimal(n).last() == digit_char(n));
        assert(digits_value(decimal(n)) == digits_value(decimal(n).drop_last()) * 10 + (
        digit_char(n) as int - '0' as int));
    } else {
        lemma_decimal_denotes(n / 10);
        lemma_digit_char_code(n % 10);
        assert(decimal(n).drop_last() =~= decimal(n / 10));
        assert(decimal(n).last() == digit_char(n % 10));
        assert(digits_value(decimal(n)) == digits_value(decimal(n / 10)) * 10 + (digit_char(n % 10)
            as int - '0' as int));
        assert(decimal(n)[0] == decimal(n / 10)[0]);
        assert forall|i: int| 0 <= i < decimal(n).len() implies '0' <= #[trigger] decimal(n)[i]
            <= '9' by {
            if i < decimal(n / 10).len() {
                assert(decimal(n)[i] == decimal(n / 10)[i]);
            }
        }
    }
}

/// A leading `'0'` does not change the number that digits denote.
pub proof fn lemma_leading_zero(s: Seq<char>)
    ensures
        digits_value(seq!['0'] + s) == digits_value(s),
    decreases s.len(),
{
    if s.len() == 0 {
        assert(seq!['0'] + s =~= seq!['0']);
        assert(seq!['0'].drop_last() =~= Seq::<char>::empty());
        assert(digits_value(Seq::<char>::empty()) == 0);
        assert(seq!['0'].last() == '0');
        assert(digits_value(seq!['0']) == digits_value(seq!['0'].drop_last()) * 10 + ('0' as int
            - '0' as int));
        assert(digits_value(s) == 0);
    } else {
        lemma_leading_zero(s.drop_last());
        let z = seq!['0'] + s;
        assert(z.drop_last() =~= seq!['0'] + s.drop_last());
        assert(z.last() == s.last());
        assert(digits_value(z) == digits_value(z.drop_last()) * 10 + (z.last() as int - '0' as int));
        assert(digits_value(s) == digits_value(s.drop_last()) * 10 + (s.last() as int - '0' as int));
    }
}

/// A number below 100, written in two digits with a leading `'0'` where
/// needed: two decimal digits that denote the number.
pub proof fn lemma_two_digits(n: nat)
    requires
        n < 100,
    ensures
        pad_left(decimal(n), 2, '0').len() == 2,
        digits_value(pad_left(decimal(n), 2, '0')) == n,
        forall|i: int| 0 <= i < 2 ==> '0' <= #[trigger] pad_left(decimal(n), 2, '0')[i] <= '9',
{
    lemma_decimal_denotes(n);
    if n < 10 {
        assert(decimal(n).len() == 1);
        assert(fill('0', 1) =~= seq!['0']);
        lemma_leading_zero(decimal(n));
        assert(pad_left(decimal(n), 2, '0') =~= seq!['0'] + decimal(n));
    } else {
        assert(decimal(n / 10).len() == 1);
        assert(decimal(n).len() == 2);
    }
}

/// Different numbers have different decimal texts.
pub proof fn lemma_decimal_injective(m: nat, n: nat)
    requires
        decimal(m) == decimal(n),
    ensures
        m == n,
{
    lemma_decimal_denotes(m);
    lemma_decimal_denotes(n);
}

/// `n` copies of `c`.
pub open spec fn fill(c: char, n: nat) -> Seq<char> {
    Seq::new(n, |_i: int| c)
}

/// `s` followed by spaces up to `width` characters (never cut).
pub open spec fn pad_right(s: Seq<char>, width: nat) -> Seq<char> {
    if s.len() < width {
        s + fill(' ', (width - s.len()) as nat)
    } else {
        s
    }
}

/// `s` preceded by `c` up to `width` characters (never cut).
pub open spec fn pad_left(s: Seq<char>, width: nat, c: char) -> Seq<char> {
    if s.len() < width {
        fill(c, (width - s.len()) as nat) + s
    } else {
        s
    }
}

/// Padding on the right keeps the text in front, reaches at least `width`
/// characters, and adds only spaces.
pub proof fn lemma_pad_right(s: Seq<char>, width: nat)
    ensures
        pad_right(s, width).len() == (if s.len() < width { width } else { s.len() }),
        pad_right(s, width).take(s.len() as int) == s,
        forall|i: int|
            s.len() <= i < pad_right(s, width).len() ==> #[trigger] pad_right(s, width)[i] == ' ',
{
    assert(pad_right(s, width).take(s.len() as int) =~= s);
}

/// Padding on the left keeps the text at the end, reaches at least `width`
/// characters, and adds only the fill character.
pub proof fn lemma_pad_left(s: Seq<char>, width: nat, c: char)
    ensures
        pad_left(s, width, c).len() == (if s.len() < width { width } else { s.len() }),
        pad_left(s, width, c).skip(pad_left(s, width, c).len() - s.len()) == s,
        forall|i: int|
            0 <= i < pad_left(s, width, c).len() - s.len() ==> #[trigger] pad_left(s, width, c)[i]
                == c,
{
    assert(pad_left(s, width, c).skip(pad_left(s, width, c).len() - s.len()) =~= s);
}

/// The text of one decimal digit.
fn digit_str(d: u64) -> (r: &'static str)
    requires
        d < 10,
    ensures
        r@ == seq![digit_char(d as nat)],
{
    match d {
        0 => { proof { reveal_strlit("0"); } "0" },
        1 => { proof { reveal_strlit("1"); } "1" },
        2 => { proof { reveal_strlit("2"); } "2" },
        3 => { proof { reveal_strlit("3"); } "3" },
        4 => { proof { reveal_strlit("4"); } "4" },
        5 => { proof { reveal_strlit("5"); } "5" },
        6 => { proof { reveal_strlit("6"); } "6" },
        7 => { proof { reveal_strlit("7"); } "7" },
        8 => { proof { reveal_strlit("8"); } "8" },
        _ => { proof { reveal_strlit("9"); } "9" },
    }
}

/// Appends the decimal text of `n` to `out`.
pub fn push_decimal(out: &mut String, n: u64)
    ensures
        final(out)@ == old(out)@ + decimal(n as nat),
    decreases n,
{
    if n >= 10 {
        push_decimal(out, n / 10);
    }
    out.append(digit_str(n % 10));
    proof {
        assert(old(out)@ + decimal(n as nat) =~= final(out)@);
    }
}

/// Appends `count` copies of the one-character text `unit` to `out`.
fn push_fill(out: &mut String, unit: &str, count: usize)
    requires
        unit@.len() == 1,
    ensures
        final(out)@ == old(out)@ + fill(unit@[0], count as nat),
{
    let mut k: usize = 0;
    while k < count
        invariant
            k <= count,
            unit@.len() == 1,
            out@ == old(out)@ + fill(unit@[0], k as nat),
        decreases count - k,
    {
        out.append(unit);
        k = k + 1;
        assert(out@ =~= old(out)@ + fill(unit@[0], k as nat));
    }
}

/// Appends `s`, padded with spaces on the right to `width` characters.
pub fn push_pad_right(out: &mut String, s: &str, width: usize)
    ensures
        final(out)@ == old(out)@ + pad_right(s@, width as nat),
{
    let len = s.unicode_len();
    out.append(s);
    if len < width {
        proof { reveal_strlit(" "); }
        push_fill(out, " ", width - len);
    }
    assert(final(out)@ =~= old(out)@ + pad_right(s@, width as nat));
}

/// Appends the decimal text of `n`, padded on the left with `c` (given as a
/// one-character text `unit`) to `width` characters.
pub fn push_decimal_pad_left(out: &mut String, n: u64, width: usize, unit: &str)
    requires
        unit@.len() == 1,
    ensures
        final(out)@ == old(out)@ + pad_left(decimal(n as nat), width as nat, unit@[0]),
{
    let mut digits = String::new();
    push_decimal(&mut digits, n);
    let len = digits.as_str().unicode_len();
    if len < width {
        push_fill(out, unit, width - len);
    }
    out.append(digits.as_str());
    assert(final(out)@ =~= old(out)@ + pad_left(decimal(n as nat), width as nat, unit@[0]));
}

} // verus!
