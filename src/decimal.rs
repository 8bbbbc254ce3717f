//! Decimal text of integers, as sent on the wire.
use vstd::prelude::*;
use vstd::string::*;

verus! {

/// The character of a decimal digit.
pub open spec fn digit_char(d: nat) -> char {
    if d == 0 { '0' }
    else if d == 1 { '1' }
    else if d == 2 { '2' }
    else if d == 3 { '3' }
    else if d == 4 { '4' }
    else if d == 5 { '5' }
    else if d == 6 { '6' }
    else if d == 7 { '7' }
    else if d == 8 { '8' }
    else { '9' }
}

/// The value of a decimal digit character.
pub open spec fn char_value(c: char) -> nat {
    if c == '1' { 1 }
    else if c == '2' { 2 }
    else if c == '3' { 3 }
    else if c == '4' { 4 }
    else if c == '5' { 5 }
    else if c == '6' { 6 }
    else if c == '7' { 7 }
    else if c == '8' { 8 }
    else if c == '9' { 9 }
    else { 0 }
}

/// The shortest decimal text of `n`: no sign, no leading zeros.
pub open spec fn dec_of(n: nat) -> Seq<char>
    decreases n,
{
    if n < 10 {
        seq![digit_char(n)]
    } else {
        dec_of(n / 10).push(digit_char(n % 10))
    }
}

/// The number that a text of decimal digits denotes.
pub open spec fn dec_value(s: Seq<char>) -> nat
    decreases s.len(),
{
    if s.len() == 0 {
        0
    } else {
        dec_value(s.drop_last()) * 10 + char_value(s.last())
    }
}

/// The decimal text of a signed integer: a minus sign before a negative one.
pub open spec fn signed_dec_of(n: int) -> Seq<char> {
    if n < 0 {
        seq!['-'] + dec_of((-n) as nat)
    } else {
        dec_of(n as nat)
    }
}

/// Reading back the decimal text of `n` gives `n`.
pub proof fn lemma_dec_value_of_dec(n: nat)
    ensures
        dec_value(dec_of(n)) == n,
        dec_of(n).len() >= 1,
    decreases n,
{
    if n >= 10 {
        lemma_dec_value_of_dec(n / 10);
        assert(dec_of(n).drop_last() =~= dec_of(n / 10));
        assert(char_value(digit_char(n % 10)) == n % 10);
        assert(n == (n / 10) * 10 + n % 10);
    } else {
        assert(dec_of(n).drop_last() =~= Seq::<char>::empty());
        assert(dec_value(Seq::<char>::empty()) == 0);
        assert(char_value(digit_char(n)) == n);
    }
}

/// Decimal text is faithful to order: the text of the larger number reads
/// back as the larger number.
pub proof fn lemma_dec_order(a: nat, b: nat)
    requires
        a <= b,
    ensures
        dec_value(dec_of(a)) <= dec_value(dec_of(b)),
{
    lemma_dec_value_of_dec(a);
    lemma_dec_value_of_dec(b);
}

/// Distinct numbers have distinct decimal texts.
pub proof fn lemma_dec_injective(a: nat, b: nat)
    requires
        dec_of(a) == dec_of(b),
    ensures
        a == b,
{
    lemma_dec_value_of_dec(a);
    lemma_dec_value_of_dec(b);
}

fn digit_str(d: u128) -> (r: &'static str)
    requires
        d < 10,
    ensures
        r@ == seq![digit_char(d as nat)],
{
    proof {
        reveal_strlit("0");
        reveal_strlit("1");
        reveal_strlit("2");
        reveal_strlit("3");
        reveal_strlit("4");
        reveal_strlit("5");
        reveal_strlit("6");
        reveal_strlit("7");
        reveal_strlit("8");
        reveal_strlit("9");
    }
    if d == 0 { "0" }
    else if d == 1 { "1" }
    else if d == 2 { "2" }
    else if d == 3 { "3" }
    else if d == 4 { "4" }
    else if d == 5 { "5" }
    else if d == 6 { "6" }
    else if d == 7 { "7" }
    else if d == 8 { "8" }
    else { "9" }
}

/// Appends the decimal text of `n` to `out`.
pub fn push_decimal(out: &mut String, n: u128)
    ensures
        final(out)@ == old(out)@ + dec_of(n as nat),
    decreases n,
{
    if n >= 10 {
        push_decimal(out, n / 10);
    }
    out.append(digit_str(n % 10));
    proof {
        if n >= 10 {
            assert(dec_of(n as nat) == dec_of((n / 10) as nat).push(digit_char((n % 10) as nat)));
        }
    }
}

/// The decimal text of `n`.
pub fn decimal_string(n: u128) -> (r: String)
    ensures
        r@ == dec_of(n as nat),
{
    let mut out = String::new();
    push_decimal(&mut out, n);
    assert(out@ =~= dec_of(n as nat));
    out
}

/// The decimal text of a signed integer.
pub fn signed_decimal_string(n: i64) -> (r: String)
    ensures
        r@ == signed_dec_of(n as int),
{
    let mut out = String::new();
    if n < 0 {
        proof { reveal_strlit("-"); }
        out.append("-");
        let m: u128 = (0i128 - n as i128) as u128;
        push_decimal(&mut out, m);
    } else {
        push_decimal(&mut out, n as u128);
    }
    assert(out@ =~= signed_dec_of(n as int));
    out
}

/// `n` zeros.
pub open spec fn zeros(n: nat) -> Seq<char> {
    Seq::new(n, |i: int| '0')
}

/// A fixed-point number: `digits` scaled down by ten to the `scale`.
/// `Decimal { digits: 1, scale: 2 }` is 0.01.
#[derive(Debug, Clone, Copy, PartialEq, Eq, Structural)]
pub struct Decimal {
    pub digits: u64,
    pub scale: u32,
}

impl Decimal {
    /// The text of the number: the digits, with a point before the last
    /// `scale` of them, padded with zeros so that one digit stands before the
    /// point.
    pub open spec fn spec_text(self) -> Seq<char> {
        let d = dec_of(self.digits as nat);
        let k = self.scale as nat;
        if k == 0 {
            d
        } else if d.len() > k {
            d.subrange(0, d.len() - k) + seq!['.'] + d.subrange(d.len() - k, d.len() as int)
        } else {
            seq!['0', '.'] + zeros((k - d.len()) as nat) + d
        }
    }

    /// A whole number.
    pub fn from_integer(n: u64) -> (r: Decimal)
        ensures
            r == (Decimal { digits: n, scale: 0 }),
    {
        Decimal { digits: n, scale: 0 }
    }

    /// The decimal text of the number, as sent on the wire.
    pub fn to_text(&self) -> (r: String)
        ensures
            r@ == self.spec_text(),
    {
        let d = decimal_string(self.digits as u128);
        let ds: &str = d.as_str();
        let len = ds.unicode_len();
        let k = self.scale as usize;
        proof { lemma_dec_value_of_dec(self.digits as nat); }
        if k == 0 {
            return d;
        }
        let mut out = String::new();
        if len > k {
            out.append(ds.substring_char(0, len - k));
            proof { reveal_strlit("."); }
            out.append(".");
            out.append(ds.substring_char(len - k, len));
        } else {
            proof { reveal_strlit("0."); reveal_strlit("0"); }
            out.append("0.");
            let mut i: usize = 0;
            while i < k - len
                invariant
                    i <= k - len,
                    out@ == seq!['0', '.'] + zeros(i as nat),
                decreases k - len - i,
            {
                proof { reveal_strlit("0"); }
                out.append("0");
                assert(zeros((i + 1) as nat) =~= zeros(i as nat).push('0'));
                assert(out@ =~= seq!['0', '.'] + zeros((i + 1) as nat));
                i = i + 1;
            }
            out.append(ds);
        }
        assert(out@ =~= self.spec_text());
        out
    }
}

} // verus!
