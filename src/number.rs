//! Decimal text of integers, as JSON writes them: written and read back.
use vstd::prelude::*;

verus! {

/// The decimal digit character for `d < 10`.
pub open spec fn digit(d: nat) -> char {
    if d == 0 { '0' }
    else if d == 1 { '1' }
    else if d == 2 { '2' }
    else if d == 3 { '3' }
    else if d == 4 { '4' }
    else if d == 5 { '5' }
    else if d == 6 { '6' }
    else if d == 7 { '7' }
    else if d == 8 { '8' }
    else { '9' }
}

/// The decimal text of `n`, without leading zeros.
pub open spec fn decimal(n: nat) -> Seq<char>
    decreases n,
{
    if n < 10 {
        seq![digit(n)]
    } else {
        decimal(n / 10).push(digit(n % 10))
    }
}

/// The JSON text of an integer.
pub open spec fn integer_text(n: int) -> Seq<char> {
    if n < 0 {
        seq!['-'] + decimal((-n) as nat)
    } else {
        decimal(n as nat)
    }
}

/// The value of a decimal digit character (0 for any other character).
pub open spec fn char_value(c: char) -> nat {
    if c == '1' { 1 }
    else if c == '2' { 2 }
    else if c == '3' { 3 }
    else if c == '4' { 4 }
    else if c == '5' { 5 }
    else if c == '6' { 6 }
    else if c == '7' { 7 }
    else if c == '8' { 8 }
    else if c == '9' { 9 }
    else { 0 }
}

/// The number that a run of decimal digits denotes.
pub open spec fn digits_value(s: Seq<char>) -> nat
    decreases s.len(),
{
    if s.len() == 0 {
        0
    } else {
        digits_value(s.drop_last()) * 10 + char_value(s.last())
    }
}

/// A character that `decimal` can produce.
pub open spec fn is_digit(c: char) -> bool {
    exists|d: nat| d < 10 && #[trigger] digit(d) == c
}

proof fn lemma_digit_value(d: nat)
    requires
        d < 10,
    ensures
        char_value(digit(d)) == d,
{
}

/// Reading the decimal text of `n` gives `n` back, and the text holds digits only.
pub proof fn lemma_decimal_value(n: nat)
    ensures
        digits_value(decimal(n)) == n,
        forall|i: int| 0 <= i < decimal(n).len() ==> is_digit(#[trigger] decimal(n)[i]),
        decimal(n).len() >= 1,
    decreases n,
{
    lemma_digit_value(n % 10);
    if n < 10 {
        assert(decimal(n).drop_last() =~= Seq::<char>::empty());
        assert(digit(n) == decimal(n).last());
        assert(digits_value(Seq::<char>::empty()) == 0);
        assert(digits_value(decimal(n)) == char_value(digit(n)));
    } else {
        lemma_decimal_value(n / 10);
        let d = decimal(n);
        assert(d.drop_last() =~= decimal(n / 10));
        assert(digits_value(d) == n / 10 * 10 + n % 10);
        assert forall|i: int| 0 <= i < d.len() implies is_digit(#[trigger] d[i]) by {
            if i < d.len() - 1 {
                assert(d[i] == decimal(n / 10)[i]);
            } else {
                assert(digit(n % 10) == d[i]);
            }
        }
    }
}

/// The value of a prefix never exceeds the value of the whole run.
proof fn lemma_prefix_value_le(s: Seq<char>, k: int)
    requires
        0 <= k <= s.len(),
    ensures
        digits_value(s.take(k)) <= digits_value(s),
    decreases s.len(),
{
    if k < s.len() {
        lemma_prefix_value_le(s.drop_last(), k);
        assert(s.drop_last().take(k) =~= s.take(k));
    } else {
        assert(s.take(k) =~= s);
    }
}

fn digit_str(d: u64) -> (r: &'static str)
    requires
        d < 10,
    ensures
        r@ == seq![digit(d as nat)],
{
    proof {
        reveal_strlit("0");
        reveal_strlit("1");
        reveal_strlit("2");
        reveal_strlit("3");
        reveal_strlit("4");
        reveal_strlit("5");
        reveal_strlit("6");
        reveal_strlit("7");
        reveal_strlit("8");
        reveal_strlit("9");
    }
    let r = if d == 0 { "0" }
    else if d == 1 { "1" }
    else if d == 2 { "2" }
    else if d == 3 { "3" }
    else if d == 4 { "4" }
    else if d == 5 { "5" }
    else if d == 6 { "6" }
    else if d == 7 { "7" }
    else if d == 8 { "8" }
    else { "9" };
    assert(r@ =~= seq![digit(d as nat)]);
    r
}

/// Appends the decimal text of `n` to `out`.
pub fn write_decimal(out: &mut String, n: u64)
    ensures
        final(out)@ == old(out)@ + decimal(n as nat),
    decreases n,
{
    if n >= 10 {
        write_decimal(out, n / 10);
    }
    out.append(digit_str(n % 10));
    assert(final(out)@ =~= old(out)@ + decimal(n as nat));
}

/// Appends the JSON text of the integer `n` to `out`.
pub fn write_integer(out: &mut String, n: i64)
    ensures
        final(out)@ == old(out)@ + integer_text(n as int),
{
    if n < 0 {
        out.append("-");
        proof { reveal_strlit("-"); }
        let m: u64 = (-(n as i128)) as u64;
        write_decimal(out, m);
    } else {
        write_decimal(out, n as u64);
    }
    assert(final(out)@ =~= old(out)@ + integer_text(n as int));
}

/// The value of a decimal digit character, if it is one.
fn digit_of(c: char) -> (r: Option<u64>)
    ensures
        r matches Some(d) ==> d < 10 && char_value(c) == d,
        is_digit(c) ==> r is Some,
{
    if c == '0' { Some(0) }
    else if c == '1' { Some(1) }
    else if c == '2' { Some(2) }
    else if c == '3' { Some(3) }
    else if c == '4' { Some(4) }
    else if c == '5' { Some(5) }
    else if c == '6' { Some(6) }
    else if c == '7' { Some(7) }
    else if c == '8' { Some(8) }
    else if c == '9' { Some(9) }
    else { None }
}

/// Reads the decimal digits `s[start..end]` as a number of at most 2^63.
fn parse_magnitude(s: &str, start: usize, end: usize) -> (r: Option<u64>)
    requires
        start <= end <= s@.len(),
    ensures
        r matches Some(v) ==> v == digits_value(s@.subrange(start as int, end as int)) && v
            <= 0x8000_0000_0000_0000,
        forall|m: nat|
            m <= 0x8000_0000_0000_0000 && s@.subrange(start as int, end as int) == #[trigger] decimal(m)
                ==> r == Some(m as u64),
{
    let ghost whole = s@.subrange(start as int, end as int);
    if start == end {
        proof {
            assert forall|m: nat| whole == #[trigger] decimal(m) implies false by {
                lemma_decimal_value(m);
            }
        }
        return None;
    }
    let mut acc: u64 = 0;
    let mut i: usize = start;
    while i < end
        invariant
            start <= i <= end <= s@.len(),
            whole == s@.subrange(start as int, end as int),
            acc == digits_value(s@.subrange(start as int, i as int)),
            acc <= 0x8000_0000_0000_0000,
        decreases end - i,
    {
        let c = s.get_char(i);
        let d = match digit_of(c) {
            Some(d) => d,
            None => {
                proof {
                    assert forall|m: nat| whole == #[trigger] decimal(m) implies false by {
                        lemma_decimal_value(m);
                        assert(whole[i - start] == c);
                    }
                }
                return None;
            },
        };
        proof {
            assert(s@.subrange(start as int, i + 1).drop_last() =~= s@.subrange(start as int, i as int));
        }
        if acc > 922_337_203_685_477_580 || (acc == 922_337_203_685_477_580 && d > 8) {
            proof {
                assert forall|m: nat|
                    m <= 0x8000_0000_0000_0000 && whole == #[trigger] decimal(m) implies false by {
                    lemma_decimal_value(m);
                    lemma_prefix_value_le(whole, i + 1 - start);
                    assert(whole.take(i + 1 - start) =~= s@.subrange(start as int, i + 1));
                }
            }
            return None;
        }
        acc = acc * 10 + d;
        i = i + 1;
    }
    proof {
        assert forall|m: nat|
            m <= 0x8000_0000_0000_0000 && whole == #[trigger] decimal(m) implies acc == m by {
            lemma_decimal_value(m);
        }
    }
    Some(acc)
}

/// Reads `s[start..end]` as the JSON text of an `i64`.
pub(crate) fn parse_integer(s: &str, start: usize, end: usize) -> (r: Option<i64>)
    requires
        start <= end <= s@.len(),
    ensures
        forall|m: i64|
            s@.subrange(start as int, end as int) == #[trigger] integer_text(m as int) ==> r == Some(m),
{
    let ghost whole = s@.subrange(start as int, end as int);
    if start < end && s.get_char(start) == '-' {
        let r = match parse_magnitude(s, start + 1, end) {
            Some(v) => if v >= 1 { Some((-(v as i128)) as i64) } else { None },
            None => None,
        };
        proof {
            assert forall|m: i64| whole == #[trigger] integer_text(m as int) implies r == Some(m) by {
                if m >= 0 {
                    lemma_decimal_value(m as nat);
                    let c = decimal(m as nat)[0];
                    assert(is_digit(c));
                    let d = choose|d: nat| d < 10 && #[trigger] digit(d) == c;
                    assert(c == whole[0]);
                } else {
                    let dm = decimal((-m) as nat);
                    assert(whole == seq!['-'] + dm);
                    assert(whole.subrange(1, whole.len() as int) =~= dm);
                    assert(s@.subrange(start + 1, end as int) =~= whole.subrange(1, whole.len() as int));
                }
            }
        }
        r
    } else {
        let r = match parse_magnitude(s, start, end) {
            Some(v) => if v <= 0x7fff_ffff_ffff_ffff { Some(v as i64) } else { None },
            None => None,
        };
        proof {
            assert forall|m: i64| whole == #[trigger] integer_text(m as int) implies r == Some(m) by {
                if m < 0 {
                    assert(whole[0] == '-');
                }
            }
        }
        r
    }
}

/// Distinct integers have distinct texts.
pub proof fn lemma_integer_text_injective(m1: i64, m2: i64)
    requires
        integer_text(m1 as int) == integer_text(m2 as int),
    ensures
        m1 == m2,
{
    let t = integer_text(m1 as int);
    lemma_decimal_value(if m1 < 0 { (-m1) as nat } else { m1 as nat });
    lemma_decimal_value(if m2 < 0 { (-m2) as nat } else { m2 as nat });
    if m1 < 0 && m2 < 0 {
        assert(decimal((-m1) as nat) =~= t.subrange(1, t.len() as int));
        assert(decimal((-m2) as nat) =~= t.subrange(1, t.len() as int));
    } else if m1 >= 0 && m2 >= 0 {
    } else {
        let c = if m1 < 0 { decimal(m2 as nat)[0] } else { decimal(m1 as nat)[0] };
        assert(c == t[0]);
        assert(is_digit(c));
        let d = choose|d: nat| d < 10 && #[trigger] digit(d) == c;
    }
}

} // verus!
