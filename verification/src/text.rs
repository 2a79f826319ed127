//! Text rendering shared by the backend and the frontend: decimal and
//! lower-case hexadecimal numerals, and trimming of repeated delimiters.

use vstd::prelude::*;
use vstd::string::*;

verus! {

/// The decimal digit characters, indexed by their value.
pub open spec fn decimal_digit(d: nat) -> char {
    seq!['0', '1', '2', '3', '4', '5', '6', '7', '8', '9'][d as int]
}

/// The lower-case hexadecimal digit characters, indexed by their value.
pub open spec fn hex_digit(d: nat) -> char {
    seq!['0', '1', '2', '3', '4', '5', '6', '7', '8', '9', 'a', 'b', 'c', 'd', 'e', 'f'][d as int]
}

/// The decimal numeral of `n`, without sign or leading zeros (`0` is "0").
pub open spec fn decimal(n: nat) -> Seq<char>
    decreases n,
{
    if n < 10 {
        seq![decimal_digit(n)]
    } else {
        decimal(n / 10).push(decimal_digit(n % 10))
    }
}

/// The two lower-case hexadecimal digits of a byte, high nibble first.
pub open spec fn hex_byte(b: u8) -> Seq<char> {
    seq![hex_digit((b / 16) as nat), hex_digit((b % 16) as nat)]
}

/// Each byte of `bytes` as two lower-case hexadecimal digits, in order.
pub open spec fn hex_lower(bytes: Seq<u8>) -> Seq<char>
    decreases bytes.len(),
{
    if bytes.len() == 0 {
        Seq::empty()
    } else {
        hex_lower(bytes.drop_last()) + hex_byte(bytes.last())
    }
}

/// `s` with every leading occurrence of `c` removed.
pub open spec fn strip_leading(s: Seq<char>, c: char) -> Seq<char>
    decreases s.len(),
{
    if s.len() > 0 && s[0] == c {
        strip_leading(s.drop_first(), c)
    } else {
        s
    }
}

/// `s` with every trailing occurrence of `c` removed.
pub open spec fn strip_trailing(s: Seq<char>, c: char) -> Seq<char>
    decreases s.len(),
{
    if s.len() > 0 && s.last() == c {
        strip_trailing(s.drop_last(), c)
    } else {
        s
    }
}

/// A numeral has at least one digit, and at least two from ten on.
pub proof fn lemma_decimal_len(n: nat)
    ensures
        decimal(n).len() >= 1,
        n >= 10 ==> decimal(n).len() >= 2,
    decreases n,
{
    if n >= 10 {
        lemma_decimal_len(n / 10);
    }
}

proof fn lemma_decimal_digit_injective(a: nat, b: nat)
    requires
        a < 10,
        b < 10,
        decimal_digit(a) == decimal_digit(b),
    ensures
        a == b,
{
    let d = seq!['0', '1', '2', '3', '4', '5', '6', '7', '8', '9'];
    assert(d[0] == '0' && d[1] == '1' && d[2] == '2' && d[3] == '3' && d[4] == '4');
    assert(d[5] == '5' && d[6] == '6' && d[7] == '7' && d[8] == '8' && d[9] == '9');
}

/// Different numbers have different numerals.
pub proof fn lemma_decimal_injective(a: nat, b: nat)
    requires
        decimal(a) == decimal(b),
    ensures
        a == b,
    decreases a,
{
    lemma_decimal_len(a);
    lemma_decimal_len(b);
    if a < 10 && b < 10 {
        assert(decimal(a)[0] == decimal_digit(a));
        assert(decimal(b)[0] == decimal_digit(b));
        lemma_decimal_digit_injective(a, b);
    } else if a >= 10 && b >= 10 {
        let da = decimal(a);
        let db = decimal(b);
        assert(da.last() == decimal_digit(a % 10));
        assert(db.last() == decimal_digit(b % 10));
        lemma_decimal_digit_injective(a % 10, b % 10);
        assert(da.drop_last() =~= decimal(a / 10));
        assert(db.drop_last() =~= decimal(b / 10));
        lemma_decimal_injective(a / 10, b / 10);
    }
}

/// Every byte takes two hexadecimal digits.
pub proof fn lemma_hex_lower_len(bytes: Seq<u8>)
    ensures
        hex_lower(bytes).len() == 2 * bytes.len(),
    decreases bytes.len(),
{
    if bytes.len() > 0 {
        lemma_hex_lower_len(bytes.drop_last());
    }
}

/// Removing trailing `c`: one more `c` at the end changes nothing, and a
/// text that is empty or does not end with `c` stays as it is.
pub proof fn lemma_strip_trailing_laws(s: Seq<char>, c: char)
    ensures
        strip_trailing(s.push(c), c) == strip_trailing(s, c),
        (s.len() == 0 || s.last() != c) ==> strip_trailing(s, c) == s,
{
    assert(s.push(c).drop_last() =~= s);
}

/// Removing leading `c`: one more `c` in front changes nothing, and a text
/// that is empty or does not start with `c` stays as it is.
pub proof fn lemma_strip_leading_laws(s: Seq<char>, c: char)
    ensures
        strip_leading(seq![c] + s, c) == strip_leading(s, c),
        (s.len() == 0 || s[0] != c) ==> strip_leading(s, c) == s,
{
    assert((seq![c] + s).drop_first() =~= s);
}

/// A text `k` enclosed once in two different delimiters comes back as `k`
/// when `k` itself neither starts with the opening one nor ends with the
/// closing one: nothing of `k` is removed.
pub proof fn lemma_unbracket(k: Seq<char>, first: char, last: char)
    requires
        first != last,
        k.len() == 0 || (k[0] != first && k.last() != last),
    ensures
        strip_trailing(strip_leading(seq![first] + k + seq![last], first), last) == k,
{
    let x = k.push(last);
    assert(seq![first] + k + seq![last] =~= seq![first] + x);
    lemma_strip_leading_laws(x, first);
    if k.len() > 0 {
        assert(x[0] == k[0]);
    } else {
        assert(x[0] == last);
    }
    lemma_strip_trailing_laws(k, last);
}

/// After stripping, the text neither starts with the leading delimiter nor
/// ends with the trailing one, and it is a contiguous part of the original.
pub proof fn lemma_stripped(s: Seq<char>, first: char, last: char)
    ensures
        strip_trailing(strip_leading(s, first), last).len() > 0 ==> strip_trailing(
            strip_leading(s, first),
            last,
        ).last() != last,
        strip_leading(s, first).len() > 0 ==> strip_leading(s, first)[0] != first,
        exists|a: int, b: int|
            0 <= a <= b <= s.len() && strip_trailing(strip_leading(s, first), last)
                == s.subrange(a, b),
{
    lemma_strip_leading_shape(s, first);
    let a = choose|a: int| 0 <= a <= s.len() && strip_leading(s, first) == s.subrange(a, s.len() as int);
    let t = strip_leading(s, first);
    lemma_strip_trailing_shape(t, last);
    let b = choose|b: int| 0 <= b <= t.len() && strip_trailing(t, last) == t.subrange(0, b);
    assert(t.subrange(0, b) =~= s.subrange(a, a + b));
}

proof fn lemma_strip_leading_shape(s: Seq<char>, c: char)
    ensures
        strip_leading(s, c).len() > 0 ==> strip_leading(s, c)[0] != c,
        exists|a: int| 0 <= a <= s.len() && strip_leading(s, c) == s.subrange(a, s.len() as int),
    decreases s.len(),
{
    if s.len() > 0 && s[0] == c {
        lemma_strip_leading_shape(s.drop_first(), c);
        let a = choose|a: int|
            0 <= a <= s.drop_first().len() && strip_leading(s.drop_first(), c)
                == s.drop_first().subrange(a, s.drop_first().len() as int);
        assert(s.drop_first().subrange(a, s.drop_first().len() as int) =~= s.subrange(
            a + 1,
            s.len() as int,
        ));
    } else {
        assert(s.subrange(0, s.len() as int) =~= s);
    }
}

proof fn lemma_strip_trailing_shape(s: Seq<char>, c: char)
    ensures
        strip_trailing(s, c).len() > 0 ==> strip_trailing(s, c).last() != c,
        exists|b: int| 0 <= b <= s.len() && strip_trailing(s, c) == s.subrange(0, b),
    decreases s.len(),
{
    if s.len() > 0 && s.last() == c {
        lemma_strip_trailing_shape(s.drop_last(), c);
        let b = choose|b: int|
            0 <= b <= s.drop_last().len() && strip_trailing(s.drop_last(), c)
                == s.drop_last().subrange(0, b);
        assert(s.drop_last().subrange(0, b) =~= s.subrange(0, b));
    } else {
        assert(s.subrange(0, s.len() as int) =~= s);
    }
}

/// The one-character string of a decimal digit.
fn decimal_digit_str(d: u64) -> (r: &'static str)
    requires
        d < 10,
    ensures
        r@ == seq![decimal_digit(d as nat)],
{
    proof {
        reveal_strlit("0");
        reveal_strlit("1");
        reveal_strlit("2");
        reveal_strlit("3");
        reveal_strlit("4");
        reveal_strlit("5");
        reveal_strlit("6");
        reveal_strlit("7");
        reveal_strlit("8");
        reveal_strlit("9");
    }
    if d == 0 {
        "0"
    } else if d == 1 {
        "1"
    } else if d == 2 {
        "2"
    } else if d == 3 {
        "3"
    } else if d == 4 {
        "4"
    } else if d == 5 {
        "5"
    } else if d == 6 {
        "6"
    } else if d == 7 {
        "7"
    } else if d == 8 {
        "8"
    } else {
        "9"
    }
}

/// The one-character string of a hexadecimal digit.
fn hex_digit_str(d: u8) -> (r: &'static str)
    requires
        d < 16,
    ensures
        r@ == seq![hex_digit(d as nat)],
{
    proof {
        reveal_strlit("0");
        reveal_strlit("1");
        reveal_strlit("2");
        reveal_strlit("3");
        reveal_strlit("4");
        reveal_strlit("5");
        reveal_strlit("6");
        reveal_strlit("7");
        reveal_strlit("8");
        reveal_strlit("9");
        reveal_strlit("a");
        reveal_strlit("b");
        reveal_strlit("c");
        reveal_strlit("d");
        reveal_strlit("e");
        reveal_strlit("f");
    }
    if d < 10 {
        decimal_digit_str(d as u64)
    } else if d == 10 {
        "a"
    } else if d == 11 {
        "b"
    } else if d == 12 {
        "c"
    } else if d == 13 {
        "d"
    } else if d == 14 {
        "e"
    } else {
        "f"
    }
}

/// Appends the decimal numeral of `n` to `out`.
pub fn push_decimal(out: &mut String, n: u64)
    ensures
        final(out)@ == old(out)@ + decimal(n as nat),
    decreases n,
{
    if n < 10 {
        out.append(decimal_digit_str(n));
    } else {
        push_decimal(out, n / 10);
        out.append(decimal_digit_str(n % 10));
        assert(decimal(n as nat) == decimal((n / 10) as nat).push(decimal_digit((n % 10) as nat)));
    }
}

/// Each byte of `bytes` as two lower-case hexadecimal digits.
pub fn hex_lower_string(bytes: &[u8]) -> (r: String)
    ensures
        r@ == hex_lower(bytes@),
{
    let mut out = String::new();
    let n = bytes.len();
    for i in 0..n
        invariant
            n == bytes@.len(),
            out@ == hex_lower(bytes@.take(i as int)),
    {
        let b = bytes[i];
        out.append(hex_digit_str(b / 16));
        out.append(hex_digit_str(b % 16));
        assert(bytes@.take(i + 1).drop_last() =~= bytes@.take(i as int));
    }
    assert(bytes@.take(n as int) =~= bytes@);
    out
}

proof fn lemma_strip_leading_prefix(s: Seq<char>, c: char, i: int)
    requires
        0 <= i <= s.len(),
        forall|j: int| 0 <= j < i ==> s[j] == c,
    ensures
        strip_leading(s, c) == strip_leading(s.subrange(i, s.len() as int), c),
    decreases i,
{
    if i > 0 {
        assert(s.drop_first() =~= s.subrange(1, s.len() as int));
        lemma_strip_leading_prefix(s.drop_first(), c, i - 1);
        assert(s.drop_first().subrange(i - 1, s.drop_first().len() as int) =~= s.subrange(i, s.len() as int));
    } else {
        assert(s.subrange(0, s.len() as int) =~= s);
    }
}

proof fn lemma_strip_trailing_suffix(s: Seq<char>, c: char, k: int)
    requires
        0 <= k <= s.len(),
        forall|j: int| k <= j < s.len() ==> s[j] == c,
    ensures
        strip_trailing(s, c) == strip_trailing(s.subrange(0, k), c),
    decreases s.len() - k,
{
    if k < s.len() {
        assert(s.drop_last() =~= s.subrange(0, s.len() - 1));
        lemma_strip_trailing_suffix(s.drop_last(), c, k);
        assert(s.drop_last().subrange(0, k) =~= s.subrange(0, k));
    } else {
        assert(s.subrange(0, k) =~= s);
    }
}

/// `s` with all leading `first` and then all trailing `last` characters removed.
pub fn trim_delimiters(s: &str, first: char, last: char) -> (r: String)
    ensures
        r@ == strip_trailing(strip_leading(s@, first), last),
{
    let n = s.unicode_len();
    let mut a: usize = 0;
    while a < n && s.get_char(a) == first
        invariant
            n == s@.len(),
            a <= n,
            forall|j: int| 0 <= j < a ==> s@[j] == first,
        decreases n - a,
    {
        a = a + 1;
    }
    proof {
        lemma_strip_leading_prefix(s@, first, a as int);
    }
    let ghost rest = s@.subrange(a as int, n as int);
    assert(strip_leading(rest, first) == rest);
    let mut b: usize = n;
    while b > a && s.get_char(b - 1) == last
        invariant
            n == s@.len(),
            a <= b <= n,
            rest == s@.subrange(a as int, n as int),
            forall|j: int| b <= j < n ==> s@[j] == last,
        decreases b - a,
    {
        b = b - 1;
    }
    proof {
        assert forall|j: int| (b - a) <= j < rest.len() implies rest[j] == last by {
            assert(rest[j] == s@[a + j]);
        }
        lemma_strip_trailing_suffix(rest, last, (b - a) as int);
        assert(rest.subrange(0, (b - a) as int) =~= s@.subrange(a as int, b as int));
        let t = s@.subrange(a as int, b as int);
        if t.len() > 0 {
            assert(t.last() == s@[b - 1]);
        }
    }
    String::from_str(s.substring_char(a, b))
}

} // verus!
