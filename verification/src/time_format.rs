use vstd::prelude::*;
use vstd::string::*;

verus! {

/// The decimal digit character for a value below ten.
pub open spec fn spec_digit(d: int) -> char {
    if d == 0 {
        '0'
    } else if d == 1 {
        '1'
    } else if d == 2 {
        '2'
    } else if d == 3 {
        '3'
    } else if d == 4 {
        '4'
    } else if d == 5 {
        '5'
    } else if d == 6 {
        '6'
    } else if d == 7 {
        '7'
    } else if d == 8 {
        '8'
    } else {
        '9'
    }
}

/// The decimal digit characters of a non-negative integer, most significant
/// digit first, with no leading zeros beyond the single digit of zero itself.
pub open spec fn spec_decimal(n: int) -> Seq<char>
    decreases n,
{
    if n < 10 {
        seq![spec_digit(n)]
    } else {
        spec_decimal(n / 10) + seq![spec_digit(n % 10)]
    }
}

/// Decimal digits, zero-padded on the left to at least two characters.
pub open spec fn spec_padded2(n: int) -> Seq<char> {
    if n < 10 {
        seq!['0'] + spec_decimal(n)
    } else {
        spec_decimal(n)
    }
}

/// The "HH:MM:SS" rendering of a whole number of seconds: hours unbounded
/// (not wrapped at twenty-four), minutes and seconds taken modulo sixty,
/// every field zero-padded to at least two digits.
pub open spec fn spec_hhmmss(total_seconds: int) -> Seq<char> {
    spec_padded2(total_seconds / 3600) + seq![':'] + spec_padded2((total_seconds / 60) % 60)
        + seq![':'] + spec_padded2(total_seconds % 60)
}

/// Whether a character is a decimal digit.
pub open spec fn is_digit_char(c: char) -> bool {
    c == '0' || c == '1' || c == '2' || c == '3' || c == '4' || c == '5' || c == '6' || c == '7'
        || c == '8' || c == '9'
}

/// The numeric value of a decimal digit character.
pub open spec fn spec_digit_val(c: char) -> int {
    if c == '0' {
        0
    } else if c == '1' {
        1
    } else if c == '2' {
        2
    } else if c == '3' {
        3
    } else if c == '4' {
        4
    } else if c == '5' {
        5
    } else if c == '6' {
        6
    } else if c == '7' {
        7
    } else if c == '8' {
        8
    } else {
        9
    }
}

/// The number that a sequence of decimal digit characters denotes,
/// most significant digit first.
pub open spec fn spec_digits_value(s: Seq<char>) -> int
    decreases s.len(),
{
    if s.len() == 0 {
        0
    } else {
        spec_digits_value(s.drop_last()) * 10 + spec_digit_val(s.last())
    }
}

proof fn lemma_decimal_digits(n: int)
    requires
        n >= 0,
    ensures
        spec_decimal(n).len() >= 1,
        forall|i: int|
            0 <= i < spec_decimal(n).len() ==> is_digit_char(#[trigger] spec_decimal(n)[i]),
        spec_digits_value(spec_decimal(n)) == n,
        n < 10 ==> spec_decimal(n).len() == 1,
        10 <= n < 100 ==> spec_decimal(n).len() == 2,
    decreases n,
{
    if n < 10 {
        let w = spec_decimal(n);
        assert(w.drop_last() =~= Seq::<char>::empty());
        assert(spec_digits_value(w.drop_last()) == 0);
        assert(spec_digit_val(spec_digit(n)) == n);
        assert(spec_digits_value(w) == spec_digits_value(w.drop_last()) * 10 + spec_digit_val(
            w.last(),
        ));
    } else {
        lemma_decimal_digits(n / 10);
        let prefix = spec_decimal(n / 10);
        let w = spec_decimal(n);
        assert(w.drop_last() =~= prefix);
        assert(w.last() == spec_digit(n % 10));
        assert(spec_digit_val(spec_digit(n % 10)) == n % 10);
        assert(spec_digits_value(w) == spec_digits_value(w.drop_last()) * 10 + spec_digit_val(
            w.last(),
        ));
        assert(spec_digits_value(w) == (n / 10) * 10 + n % 10);
    }
}

/// A leading zero does not change the number a digit string denotes.
proof fn lemma_leading_zero(s: Seq<char>)
    ensures
        spec_digits_value(seq!['0'] + s) == spec_digits_value(s),
    decreases s.len(),
{
    let w = seq!['0'] + s;
    if s.len() == 0 {
        assert(w =~= seq!['0']);
        assert(w.drop_last() =~= Seq::<char>::empty());
        assert(spec_digits_value(w.drop_last()) == 0);
        assert(spec_digits_value(w) == spec_digits_value(w.drop_last()) * 10 + spec_digit_val(
            w.last(),
        ));
        assert(spec_digit_val('0') == 0);
    } else {
        lemma_leading_zero(s.drop_last());
        assert(w.drop_last() =~= seq!['0'] + s.drop_last());
        assert(w.last() == s.last());
        assert(spec_digits_value(w) == spec_digits_value(w.drop_last()) * 10 + spec_digit_val(
            w.last(),
        ));
        assert(spec_digits_value(s) == spec_digits_value(s.drop_last()) * 10 + spec_digit_val(
            s.last(),
        ));
    }
}

proof fn lemma_padded2(n: int)
    requires
        n >= 0,
    ensures
        spec_padded2(n).len() >= 2,
        forall|i: int|
            0 <= i < spec_padded2(n).len() ==> is_digit_char(#[trigger] spec_padded2(n)[i]),
        spec_digits_value(spec_padded2(n)) == n,
        n < 100 ==> spec_padded2(n).len() == 2,
        n < 60 ==> spec_digit_val(spec_padded2(n)[0]) <= 5,
{
    lemma_decimal_digits(n);
    if n < 10 {
        lemma_leading_zero(spec_decimal(n));
        assert(spec_padded2(n)[0] == '0');
        assert(forall|i: int|
            0 <= i < spec_padded2(n).len() ==> is_digit_char(#[trigger] spec_padded2(n)[i]));
    } else {
        lemma_decimal_digits(n / 10);
        assert(spec_decimal(n) == spec_decimal(n / 10) + seq![spec_digit(n % 10)]);
        assert(spec_decimal(n).len() >= 2);
        if 10 <= n < 100 {
            assert(spec_decimal(n / 10) =~= seq![spec_digit(n / 10)]);
            assert(spec_padded2(n)[0] == spec_digit(n / 10));
        }
    }
}

/// Law: for every non-negative number of whole seconds, the "HH:MM:SS"
/// rendering matches the pattern `^\d{2,}:[0-5]\d:[0-5]\d$` — two or more
/// hour digits that read exactly `total_seconds / 3600` (unbounded, not
/// clamped at twenty-four), a colon, a two-digit minutes field whose value is
/// `(total_seconds / 60) % 60` (so below sixty), a colon, and a two-digit
/// seconds field whose value is `total_seconds % 60` (so below sixty).
pub proof fn lemma_hhmmss_shape(total_seconds: int)
    requires
        total_seconds >= 0,
    ensures
        ({
            let f = spec_hhmmss(total_seconds);
            let n = f.len() as int;
            &&& n >= 8
            &&& f.subrange(0, n - 6) == spec_padded2(total_seconds / 3600)
            &&& spec_digits_value(f.subrange(0, n - 6)) == total_seconds / 3600
            &&& (forall|i: int| 0 <= i < n - 6 ==> is_digit_char(#[trigger] f[i]))
            &&& f[n - 6] == ':'
            &&& is_digit_char(f[n - 5]) && spec_digit_val(f[n - 5]) <= 5
            &&& is_digit_char(f[n - 4])
            &&& f[n - 3] == ':'
            &&& is_digit_char(f[n - 2]) && spec_digit_val(f[n - 2]) <= 5
            &&& is_digit_char(f[n - 1])
            &&& f.subrange(n - 5, n - 3) == spec_padded2((total_seconds / 60) % 60)
            &&& spec_digits_value(f.subrange(n - 5, n - 3)) == (total_seconds / 60) % 60
            &&& f.subrange(n - 2, n) == spec_padded2(total_seconds % 60)
            &&& spec_digits_value(f.subrange(n - 2, n)) == total_seconds % 60
        }),
{
    let h = total_seconds / 3600;
    let m = (total_seconds / 60) % 60;
    let s = total_seconds % 60;
    lemma_padded2(h);
    lemma_padded2(m);
    lemma_padded2(s);
    let hp = spec_padded2(h);
    let mp = spec_padded2(m);
    let sp = spec_padded2(s);
    let f = spec_hhmmss(total_seconds);
    let n = f.len() as int;
    assert(mp.len() == 2 && sp.len() == 2);
    assert(n == hp.len() + 6);
    assert(f.subrange(0, n - 6) =~= hp);
    assert(f[n - 6] == ':');
    assert(f.subrange(n - 5, n - 3) =~= mp);
    assert(f[n - 5] == mp[0] && f[n - 4] == mp[1]);
    assert(f[n - 3] == ':');
    assert(f.subrange(n - 2, n) =~= sp);
    assert(f[n - 2] == sp[0] && f[n - 1] == sp[1]);
    assert forall|i: int| 0 <= i < n - 6 implies is_digit_char(#[trigger] f[i]) by {
        assert(f[i] == hp[i]);
    }
}

fn digit_str(d: u64) -> (r: &'static str)
    requires
        d < 10,
    ensures
        r@ == seq![spec_digit(d as int)],
{
    proof {
        reveal_strlit("0");
        reveal_strlit("1");
        reveal_strlit("2");
        reveal_strlit("3");
        reveal_strlit("4");
        reveal_strlit("5");
        reveal_strlit("6");
        reveal_strlit("7");
        reveal_strlit("8");
        reveal_strlit("9");
    }
    let r: &'static str = match d {
        0 => "0",
        1 => "1",
        2 => "2",
        3 => "3",
        4 => "4",
        5 => "5",
        6 => "6",
        7 => "7",
        8 => "8",
        _ => "9",
    };
    proof {
        assert(r@ =~= seq![spec_digit(d as int)]);
    }
    r
}

fn decimal_string(n: u64) -> (r: String)
    ensures
        r@ == spec_decimal(n as int),
    decreases n,
{
    if n < 10 {
        let mut s = String::new();
        s.append(digit_str(n));
        proof {
            assert(s@ =~= spec_decimal(n as int));
        }
        s
    } else {
        let mut s = decimal_string(n / 10);
        s.append(digit_str(n % 10));
        proof {
            assert(s@ =~= spec_decimal(n as int));
        }
        s
    }
}

fn padded2(n: u64) -> (r: String)
    ensures
        r@ == spec_padded2(n as int),
{
    if n < 10 {
        let mut s = String::from_str("0");
        s.append(digit_str(n));
        proof {
            reveal_strlit("0");
            assert(s@ =~= spec_padded2(n as int));
        }
        s
    } else {
        decimal_string(n)
    }
}

/// The zero-padded "HH:MM:SS" rendering of an elapsed whole number of
/// seconds: hours unbounded, minutes and seconds below sixty.
pub fn format_time_duration(total_seconds: u64) -> (r: String)
    ensures
        r@ == spec_hhmmss(total_seconds as int),
{
    let hours = total_seconds / 3600;
    let minutes = (total_seconds / 60) % 60;
    let seconds = total_seconds % 60;
    let mut s = padded2(hours);
    s.append(":");
    let mid = padded2(minutes);
    s.append(mid.as_str());
    s.append(":");
    let last = padded2(seconds);
    s.append(last.as_str());
    proof {
        reveal_strlit(":");
        assert(s@ =~= spec_hhmmss(total_seconds as int));
    }
    s
}

} // verus!
