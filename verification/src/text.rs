//! Text building blocks: decimal numbers, clock times and fixed-point values.
//!
//! Every quantity that the player measures continuously (positions, volume,
//! speed, delays) is held as a count of thousandths.  The functions here turn
//! such counts and plain integers into the text that the player shows.
use vstd::prelude::*;

verus! {

/// The character of a decimal digit.
pub open spec fn digit_char(d: nat) -> char {
    if d == 0 {
        '0'
    } else if d == 1 {
        '1'
    } else if d == 2 {
        '2'
    } else if d == 3 {
        '3'
    } else if d == 4 {
        '4'
    } else if d == 5 {
        '5'
    } else if d == 6 {
        '6'
    } else if d == 7 {
        '7'
    } else if d == 8 {
        '8'
    } else {
        '9'
    }
}

/// The decimal digits of `n`, most significant first, without leading zeros.
pub open spec fn decimal(n: nat) -> Seq<char>
    decreases n,
{
    if n < 10 {
        seq![digit_char(n)]
    } else {
        decimal(n / 10) + seq![digit_char(n % 10)]
    }
}

/// A signed integer in decimal: a minus sign before the digits of a negative value.
pub open spec fn signed_decimal(n: int) -> Seq<char> {
    if n < 0 {
        seq!['-'] + decimal((-n) as nat)
    } else {
        decimal(n as nat)
    }
}

/// `n` in decimal with at least two digits (a leading zero below ten).
pub open spec fn two_digits(n: nat) -> Seq<char> {
    if n < 10 {
        seq!['0'] + decimal(n)
    } else {
        decimal(n)
    }
}

/// `a / unit` rounded to the nearest integer, ties to the even neighbour.
pub open spec fn round_half_even(a: nat, unit: nat) -> nat
    recommends
        unit > 0,
{
    let q = a / unit;
    let r = a % unit;
    if 2 * r > unit || (2 * r == unit && q % 2 == 1) {
        q + 1
    } else {
        q
    }
}

/// The value `milli / 1000` written with no fractional digit, rounded half to even;
/// negative values carry a minus sign even where they round to zero.
pub open spec fn fixed0(milli: int) -> Seq<char> {
    let sign = if milli < 0 { seq!['-'] } else { Seq::<char>::empty() };
    let a = if milli < 0 { (-milli) as nat } else { milli as nat };
    sign + decimal(round_half_even(a, 1000))
}

/// The value `milli / 1000` written with one fractional digit, rounded half to even;
/// negative values carry a minus sign even where they round to zero.
pub open spec fn fixed1(milli: int) -> Seq<char> {
    let sign = if milli < 0 { seq!['-'] } else { Seq::<char>::empty() };
    let a = if milli < 0 { (-milli) as nat } else { milli as nat };
    let tenths = round_half_even(a, 100);
    sign + decimal(tenths / 10) + seq!['.', digit_char(tenths % 10)]
}

/// The shortest decimal text of `milli / 1000`: no fractional part for whole values,
/// otherwise the thousandths with trailing zeros left out.
pub open spec fn shortest_fixed(milli: int) -> Seq<char> {
    let sign = if milli < 0 { seq!['-'] } else { Seq::<char>::empty() };
    let a = if milli < 0 { (-milli) as nat } else { milli as nat };
    let whole = a / 1000;
    let frac = a % 1000;
    if frac == 0 {
        sign + decimal(whole)
    } else if frac % 100 == 0 {
        sign + decimal(whole) + seq!['.', digit_char(frac / 100)]
    } else if frac % 10 == 0 {
        sign + decimal(whole) + seq!['.', digit_char(frac / 100), digit_char((frac / 10) % 10)]
    } else {
        sign + decimal(whole) + seq![
            '.',
            digit_char(frac / 100),
            digit_char((frac / 10) % 10),
            digit_char(frac % 10),
        ]
    }
}

/// A clock reading of `total` seconds: `h:mm:ss` from one hour on, else `m:ss`.
pub open spec fn clock_text(total: nat) -> Seq<char> {
    let h = total / 3600;
    let m = (total % 3600) / 60;
    let s = total % 60;
    if h > 0 {
        decimal(h) + seq![':'] + two_digits(m) + seq![':'] + two_digits(s)
    } else {
        decimal(m) + seq![':'] + two_digits(s)
    }
}

/// A duration of `total` seconds: `h:mm:ss` from one hour on, else `mm:ss`.
pub open spec fn duration_text(total: nat) -> Seq<char> {
    let h = total / 3600;
    let m = (total % 3600) / 60;
    let s = total % 60;
    if h > 0 {
        decimal(h) + seq![':'] + two_digits(m) + seq![':'] + two_digits(s)
    } else {
        two_digits(m) + seq![':'] + two_digits(s)
    }
}

/// Whole seconds in `ms` milliseconds, counting a negative span as none.
pub open spec fn whole_seconds(ms: int) -> nat {
    if ms <= 0 {
        0
    } else {
        (ms / 1000) as nat
    }
}

/// The text of one decimal digit.
pub fn digit_str(d: u64) -> (s: &'static str)
    requires
        d < 10,
    ensures
        s@ == seq![digit_char(d as nat)],
{
    if d == 0 {
        proof {
            reveal_strlit("0");
        }
        "0"
    } else if d == 1 {
        proof {
            reveal_strlit("1");
        }
        "1"
    } else if d == 2 {
        proof {
            reveal_strlit("2");
        }
        "2"
    } else if d == 3 {
        proof {
            reveal_strlit("3");
        }
        "3"
    } else if d == 4 {
        proof {
            reveal_strlit("4");
        }
        "4"
    } else if d == 5 {
        proof {
            reveal_strlit("5");
        }
        "5"
    } else if d == 6 {
        proof {
            reveal_strlit("6");
        }
        "6"
    } else if d == 7 {
        proof {
            reveal_strlit("7");
        }
        "7"
    } else if d == 8 {
        proof {
            reveal_strlit("8");
        }
        "8"
    } else {
        proof {
            reveal_strlit("9");
        }
        "9"
    }
}

/// Appends a literal or borrowed text to `out`.
pub fn push_text(out: &mut String, text: &str)
    ensures
        final(out)@ == old(out)@ + text@,
{
    out.append(text);
}

/// Appends the decimal digits of `n`.
pub fn push_decimal(out: &mut String, n: u64)
    ensures
        final(out)@ == old(out)@ + decimal(n as nat),
    decreases n,
{
    let ghost start = out@;
    if n >= 10 {
        push_decimal(out, n / 10);
    }
    out.append(digit_str(n % 10));
    proof {
        if n >= 10 {
            assert(out@ =~= start + (decimal((n / 10) as nat) + seq![digit_char((n % 10) as nat)]));
        } else {
            assert(out@ =~= start + decimal(n as nat));
        }
    }
}

/// Appends `n` with a minus sign where it is negative.
pub fn push_signed_decimal(out: &mut String, n: i64)
    ensures
        final(out)@ == old(out)@ + signed_decimal(n as int),
{
    let ghost start = out@;
    if n < 0 {
        proof {
            reveal_strlit("-");
        }
        out.append("-");
        let magnitude: u64 = if n == i64::MIN {
            9223372036854775808u64
        } else {
            (-n) as u64
        };
        push_decimal(out, magnitude);
        assert(out@ =~= start + (seq!['-'] + decimal((-n) as nat)));
    } else {
        push_decimal(out, n as u64);
    }
}

/// Appends `n` with at least two digits.
pub fn push_two_digits(out: &mut String, n: u64)
    ensures
        final(out)@ == old(out)@ + two_digits(n as nat),
{
    let ghost start = out@;
    if n < 10 {
        out.append(digit_str(0));
        push_decimal(out, n);
        assert(out@ =~= start + (seq!['0'] + decimal(n as nat)));
    } else {
        push_decimal(out, n);
    }
}

/// The decimal text of `n`.
pub fn decimal_string(n: u64) -> (s: String)
    ensures
        s@ == decimal(n as nat),
{
    let mut s = String::new();
    push_decimal(&mut s, n);
    assert(s@ =~= decimal(n as nat));
    s
}

/// The decimal text of a signed `n`.
pub fn signed_decimal_string(n: i64) -> (s: String)
    ensures
        s@ == signed_decimal(n as int),
{
    let mut s = String::new();
    push_signed_decimal(&mut s, n);
    assert(s@ =~= signed_decimal(n as int));
    s
}

/// Magnitude of a count of thousandths, as an unsigned number.
fn magnitude(milli: i64) -> (a: u64)
    ensures
        a as int == if milli < 0 { -(milli as int) } else { milli as int },
{
    if milli < 0 {
        if milli == i64::MIN {
            9223372036854775808u64
        } else {
            (-milli) as u64
        }
    } else {
        milli as u64
    }
}

/// `a / unit` rounded half to even.
fn rounded(a: u64, unit: u64) -> (q: u64)
    requires
        unit == 100 || unit == 1000,
    ensures
        q as nat == round_half_even(a as nat, unit as nat),
{
    let q = a / unit;
    let r = a % unit;
    if 2 * r > unit || (2 * r == unit && q % 2 == 1) {
        q + 1
    } else {
        q
    }
}

/// Appends a minus sign where `milli` is negative.
fn push_sign(out: &mut String, milli: i64)
    ensures
        final(out)@ == old(out)@ + (if milli < 0 { seq!['-'] } else { Seq::<char>::empty() }),
{
    if milli < 0 {
        proof {
            reveal_strlit("-");
        }
        out.append("-");
    } else {
        assert(out@ =~= out@ + Seq::<char>::empty());
    }
}

/// Appends `milli / 1000` with no fractional digit.
pub fn push_fixed0(out: &mut String, milli: i64)
    ensures
        final(out)@ == old(out)@ + fixed0(milli as int),
{
    let ghost start = out@;
    let ghost sign = if milli < 0 { seq!['-'] } else { Seq::<char>::empty() };
    push_sign(out, milli);
    let a = magnitude(milli);
    let q = rounded(a, 1000);
    push_decimal(out, q);
    assert(out@ =~= start + (sign + decimal(round_half_even(a as nat, 1000))));
}

/// Appends `milli / 1000` with one fractional digit.
pub fn push_fixed1(out: &mut String, milli: i64)
    ensures
        final(out)@ == old(out)@ + fixed1(milli as int),
{
    let ghost start = out@;
    let ghost sign = if milli < 0 { seq!['-'] } else { Seq::<char>::empty() };
    push_sign(out, milli);
    let a = magnitude(milli);
    let tenths = rounded(a, 100);
    push_decimal(out, tenths / 10);
    proof {
        reveal_strlit(".");
    }
    out.append(".");
    out.append(digit_str(tenths % 10));
    assert(out@ =~= start + (sign + decimal((tenths / 10) as nat) + seq![
        '.',
        digit_char((tenths % 10) as nat),
    ]));
}

/// Appends the shortest decimal text of `milli / 1000`.
pub fn push_shortest_fixed(out: &mut String, milli: i64)
    ensures
        final(out)@ == old(out)@ + shortest_fixed(milli as int),
{
    let ghost start = out@;
    let ghost sign = if milli < 0 { seq!['-'] } else { Seq::<char>::empty() };
    push_sign(out, milli);
    let a = magnitude(milli);
    let whole = a / 1000;
    let frac = a % 1000;
    push_decimal(out, whole);
    let ghost after_whole = out@;
    assert(after_whole =~= start + (sign + decimal(whole as nat)));
    if frac != 0 {
        proof {
            reveal_strlit(".");
        }
        out.append(".");
        out.append(digit_str(frac / 100));
        if frac % 100 != 0 {
            out.append(digit_str((frac / 10) % 10));
            if frac % 10 != 0 {
                out.append(digit_str(frac % 10));
            }
        }
    }
    assert(out@ =~= start + shortest_fixed(milli as int));
}

/// The text of `milli / 1000` with no fractional digit.
pub fn fixed0_string(milli: i64) -> (s: String)
    ensures
        s@ == fixed0(milli as int),
{
    let mut s = String::new();
    push_fixed0(&mut s, milli);
    assert(s@ =~= fixed0(milli as int));
    s
}

/// The text of `milli / 1000` with one fractional digit.
pub fn fixed1_string(milli: i64) -> (s: String)
    ensures
        s@ == fixed1(milli as int),
{
    let mut s = String::new();
    push_fixed1(&mut s, milli);
    assert(s@ =~= fixed1(milli as int));
    s
}

/// The shortest decimal text of `milli / 1000`.
pub fn shortest_fixed_string(milli: i64) -> (s: String)
    ensures
        s@ == shortest_fixed(milli as int),
{
    let mut s = String::new();
    push_shortest_fixed(&mut s, milli);
    assert(s@ =~= shortest_fixed(milli as int));
    s
}

/// Whole seconds of a span of milliseconds, a negative span counting as none.
pub fn whole_seconds_of(ms: i64) -> (s: u64)
    ensures
        s as nat == whole_seconds(ms as int),
{
    if ms <= 0 {
        0
    } else {
        (ms / 1000) as u64
    }
}

/// A playback time as the controls show it: `h:mm:ss`, or `m:ss` below one hour.
pub fn format_time(ms: i64) -> (s: String)
    ensures
        s@ == clock_text(whole_seconds(ms as int)),
{
    let total = whole_seconds_of(ms);
    let h = total / 3600;
    let m = (total % 3600) / 60;
    let sec = total % 60;
    let mut s = String::new();
    proof {
        reveal_strlit(":");
    }
    if h > 0 {
        push_decimal(&mut s, h);
        s.append(":");
        push_two_digits(&mut s, m);
        s.append(":");
        push_two_digits(&mut s, sec);
    } else {
        push_decimal(&mut s, m);
        s.append(":");
        push_two_digits(&mut s, sec);
    }
    assert(s@ =~= clock_text(whole_seconds(ms as int)));
    s
}

/// A media duration as the playlist shows it: `h:mm:ss`, or `mm:ss` below one hour.
pub fn format_duration(ms: i64) -> (s: String)
    ensures
        s@ == duration_text(whole_seconds(ms as int)),
{
    let total = whole_seconds_of(ms);
    let h = total / 3600;
    let m = (total % 3600) / 60;
    let sec = total % 60;
    let mut s = String::new();
    proof {
        reveal_strlit(":");
    }
    if h > 0 {
        push_decimal(&mut s, h);
        s.append(":");
        push_two_digits(&mut s, m);
        s.append(":");
        push_two_digits(&mut s, sec);
    } else {
        push_two_digits(&mut s, m);
        s.append(":");
        push_two_digits(&mut s, sec);
    }
    assert(s@ =~= duration_text(whole_seconds(ms as int)));
    s
}

/// What `str::to_lowercase` gives for a text.
pub uninterp spec fn lowercase(s: Seq<char>) -> Seq<char>;

/// `str::to_lowercase`, the lower-case form of a text by the Unicode rules of
/// std; the contract names the result [`lowercase`] of the text and says
/// nothing more of it.
#[verifier::external_body]
pub(crate) fn to_lowercase(s: &str) -> (r: String)
    ensures
        r@ == lowercase(s@),
{
    s.to_lowercase()
}

/// Whether `c` has the Unicode White_Space property: the controls tab to
/// carriage return, space, next line, no-break space, ogham space mark, the
/// spaces from en quad to hair space, line and paragraph separator, narrow
/// no-break space, medium mathematical space and ideographic space.
pub open spec fn is_white_space(c: char) -> bool {
    let v = c as int;
    ||| 0x9 <= v <= 0xd
    ||| v == 0x20
    ||| v == 0x85
    ||| v == 0xa0
    ||| v == 0x1680
    ||| 0x2000 <= v <= 0x200a
    ||| v == 0x2028
    ||| v == 0x2029
    ||| v == 0x202f
    ||| v == 0x205f
    ||| v == 0x3000
}

/// `s` without its leading and trailing white space.
pub open spec fn trim_white_space(s: Seq<char>) -> Seq<char>
    decreases s.len(),
{
    if s.len() == 0 {
        s
    } else if is_white_space(s[0]) {
        trim_white_space(s.drop_first())
    } else if is_white_space(s.last()) {
        trim_white_space(s.drop_last())
    } else {
        s
    }
}

/// Whether `c` is white space (see [`is_white_space`]).
pub fn is_white_space_char(c: char) -> (r: bool)
    ensures
        r == is_white_space(c),
{
    let v = c as u32;
    (0x9 <= v && v <= 0xd) || v == 0x20 || v == 0x85 || v == 0xa0 || v == 0x1680 || (0x2000 <= v && v
        <= 0x200a) || v == 0x2028 || v == 0x2029 || v == 0x202f || v == 0x205f || v == 0x3000
}

/// The text without its leading and trailing white space.
pub fn trim_text(s: &str) -> (r: String)
    ensures
        r@ == trim_white_space(s@),
{
    let n = s.unicode_len();
    let mut i: usize = 0;
    assert(s@.subrange(0, n as int) =~= s@);
    while i < n && is_white_space_char(s.get_char(i))
        invariant
            i <= n == s@.len(),
            trim_white_space(s@) == trim_white_space(s@.subrange(i as int, n as int)),
        decreases n - i,
    {
        assert(s@.subrange(i as int, n as int).drop_first() =~= s@.subrange(i + 1, n as int));
        i = i + 1;
    }
    let mut j: usize = n;
    while j > i && is_white_space_char(s.get_char(j - 1))
        invariant
            i <= j <= n == s@.len(),
            i < n ==> !is_white_space(s@[i as int]),
            trim_white_space(s@) == trim_white_space(s@.subrange(i as int, j as int)),
        decreases j - i,
    {
        let ghost t = s@.subrange(i as int, j as int);
        assert(t[0] == s@[i as int]);
        assert(t.last() == s@[j - 1]);
        assert(t.drop_last() =~= s@.subrange(i as int, j - 1));
        j = j - 1;
    }
    let r = s.substring_char(i, j).to_string();
    proof {
        let t = s@.subrange(i as int, j as int);
        if j > i {
            assert(t[0] == s@[i as int]);
            assert(t.last() == s@[j - 1]);
        }
        assert(r@ == t);
    }
    r
}

} // verus!
