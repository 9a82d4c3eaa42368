//! String helpers used across the bot: decimal rendering of integers and
//! appending single characters.

use vstd::prelude::*;
use vstd::string::*;

verus! {

/// The character of a decimal digit `d` (0..=9).
pub open spec fn digit_char(d: nat) -> char {
    (48 + d) as char
}

/// The decimal rendering of `n`, as `format!("{}", n)` prints it.
pub open spec fn decimal(n: nat) -> Seq<char>
    decreases n,
{
    if n < 10 {
        seq![digit_char(n)]
    } else {
        decimal(n / 10).push(digit_char(n % 10))
    }
}

/// Every character of a decimal rendering is a digit, and there is at least one.
pub proof fn lemma_decimal_digits(n: nat)
    ensures
        decimal(n).len() >= 1,
        forall|j: int| 0 <= j < decimal(n).len() ==> '0' <= #[trigger] decimal(n)[j] <= '9',
    decreases n,
{
    if n >= 10 {
        lemma_decimal_digits(n / 10);
    }
}

/// Different numbers have different decimal renderings.
pub proof fn lemma_decimal_injective(a: nat, b: nat)
    requires
        decimal(a) == decimal(b),
    ensures
        a == b,
    decreases a,
{
    lemma_decimal_digits(a / 10);
    lemma_decimal_digits(b / 10);
    if a < 10 && b < 10 {
        assert(decimal(a) == seq![digit_char(a)]);
        assert(decimal(b) == seq![digit_char(b)]);
        assert(seq![digit_char(a)][0] == digit_char(a));
        assert(seq![digit_char(b)][0] == digit_char(b));
        assert(digit_char(a) == digit_char(b));
        assert(digit_char(a) as int == 48 + a);
        assert(digit_char(b) as int == 48 + b);
        assert(a == b);
    } else if a < 10 {
        assert(decimal(b).len() >= 2);
    } else if b < 10 {
        assert(decimal(a).len() >= 2);
    } else {
        assert(decimal(a) == decimal(a / 10).push(digit_char(a % 10)));
        assert(decimal(b) == decimal(b / 10).push(digit_char(b % 10)));
        assert(decimal(a).last() == digit_char(a % 10));
        assert(decimal(b).last() == digit_char(b % 10));
        assert(decimal(a).drop_last() =~= decimal(a / 10));
        assert(decimal(b).drop_last() =~= decimal(b / 10));
        lemma_decimal_injective(a / 10, b / 10);
        assert(digit_char(a % 10) as int == 48 + a % 10);
        assert(digit_char(b % 10) as int == 48 + b % 10);
        assert(a % 10 == b % 10);
        assert(a == (a / 10) * 10 + a % 10);
        assert(b == (b / 10) * 10 + b % 10);
    }
}

/// The decimal rendering of `n` reads back as `n`.
pub proof fn lemma_decimal_digits_value(n: nat)
    ensures
        digits_value(decimal(n), 10) == Some(n),
    decreases n,
{
    assert(digit_char(n % 10) as int == 48 + n % 10);
    assert(digit_value(digit_char(n % 10), 10) == Some(n % 10));
    if n < 10 {
        assert(decimal(n) == seq![digit_char(n)]);
        assert(decimal(n).drop_last() =~= Seq::<char>::empty());
        assert(digits_value(Seq::<char>::empty(), 10) == Some(0nat));
        assert(decimal(n).last() == digit_char(n));
        assert(n % 10 == n);
    } else {
        lemma_decimal_digits_value(n / 10);
        assert(decimal(n) == decimal(n / 10).push(digit_char(n % 10)));
        assert(decimal(n).drop_last() =~= decimal(n / 10));
        assert(decimal(n).last() == digit_char(n % 10));
        assert(n == (n / 10) * 10 + n % 10);
    }
}

/// Parsing the decimal rendering of `n` in base 10 gives `n` back, where
/// `n` fits.
pub proof fn lemma_parse_decimal(n: nat, max: nat)
    requires
        n <= max,
    ensures
        parse_unsigned(decimal(n), 10, max) == Some(n),
{
    lemma_decimal_digits(n);
    lemma_decimal_digits_value(n);
    assert('0' <= decimal(n)[0] <= '9');
}

/// Appends `c` to `s` through `String::push`, which std documents as
/// appending the given char to the end of the string.
#[verifier::external_body]
pub(crate) fn push_char(s: &mut String, c: char)
    ensures
        final(s)@ == old(s)@.push(c),
{
    s.push(c);
}

/// Renders `n` in decimal, as `n.to_string()` does.
pub fn u64_to_decimal(n: u64) -> (res: String)
    ensures
        res@ == decimal(n as nat),
    decreases n,
{
    if n < 10 {
        let mut s = String::new();
        push_char(&mut s, (48u8 + n as u8) as char);
        s
    } else {
        let mut s = u64_to_decimal(n / 10);
        push_char(&mut s, (48u8 + (n % 10) as u8) as char);
        s
    }
}


/// The value of digit `c` in base `radix` (at most 36), as `char::to_digit` gives it.
pub open spec fn digit_value(c: char, radix: nat) -> Option<nat> {
    let v = c as nat;
    if 48 <= v <= 57 && v - 48 < radix {
        Some((v - 48) as nat)
    } else if 97 <= v <= 122 && v - 87 < radix {
        Some((v - 87) as nat)
    } else if 65 <= v <= 90 && v - 55 < radix {
        Some((v - 55) as nat)
    } else {
        None
    }
}

/// The value of the digit string `s` in base `radix`; `None` when a
/// character is no digit of that base.
pub open spec fn digits_value(s: Seq<char>, radix: nat) -> Option<nat>
    decreases s.len(),
{
    if s.len() == 0 {
        Some(0)
    } else {
        match (digits_value(s.drop_last(), radix), digit_value(s.last(), radix)) {
            (Some(a), Some(d)) => Some(a * radix + d),
            _ => None,
        }
    }
}

/// What `from_str_radix` of an unsigned integer type whose largest value is
/// `max` gives: an optional leading `+`, then at least one digit of `radix`,
/// and a value that fits.
pub open spec fn parse_unsigned(s: Seq<char>, radix: nat, max: nat) -> Option<nat> {
    if s.len() == 0 {
        None
    } else {
        let digits = if s[0] == '+' { s.drop_first() } else { s };
        if digits.len() == 0 {
            None
        } else {
            match digits_value(digits, radix) {
                Some(v) => if v <= max { Some(v) } else { None },
                None => None,
            }
        }
    }
}

proof fn lemma_digits_prefix(s: Seq<char>, radix: nat, k: int)
    requires
        radix >= 1,
        0 <= k <= s.len(),
        digits_value(s, radix) is Some,
    ensures
        digits_value(s.take(k), radix) is Some,
        digits_value(s.take(k), radix)->0 <= digits_value(s, radix)->0,
    decreases s.len(),
{
    if k == s.len() {
        assert(s.take(k) =~= s);
    } else {
        let p = s.drop_last();
        lemma_digits_prefix(p, radix, k);
        assert(p.take(k) =~= s.take(k));
        let a = digits_value(p, radix)->0;
        let d = digit_value(s.last(), radix)->0;
        assert(a * radix + d >= a) by (nonlinear_arith)
            requires radix >= 1;
    }
}

/// Parses the digits of `s` from the character at `start` on in base `radix`,
/// giving the value where every character is a digit and the value is at most
/// `max`.
fn parse_digits(s: &str, start: usize, radix: u64, max: u64) -> (res: Option<u64>)
    requires
        2 <= radix <= 36,
        start <= s@.len(),
    ensures
        res matches Some(v) ==> digits_value(s@.skip(start as int), radix as nat) == Some(v as nat)
            && v <= max,
        res is None ==> match digits_value(s@.skip(start as int), radix as nat) {
            Some(v) => v > max,
            None => true,
        },
{
    let n = s.unicode_len();
    let ghost digits = s@.skip(start as int);
    let mut acc: u64 = 0;
    let mut i = start;
    while i < n
        invariant
            2 <= radix <= 36,
            start <= i <= n,
            n == s@.len(),
            digits == s@.skip(start as int),
            acc <= max,
            digits_value(digits.take(i - start), radix as nat) == Some(acc as nat),
        decreases n - i,
    {
        let c = s.get_char(i);
        let ghost pre = digits.take(i - start);
        assert(digits.take(i + 1 - start).drop_last() =~= pre);
        assert(digits.take(i + 1 - start).last() == c);
        let code = c as u32;
        let d: u64 = if 48 <= code && code <= 57 {
            (code - 48) as u64
        } else if 97 <= code && code <= 122 {
            (code - 87) as u64
        } else if 65 <= code && code <= 90 {
            (code - 55) as u64
        } else {
            radix
        };
        if d >= radix {
            proof {
                if digits_value(digits, radix as nat) is Some {
                    lemma_digits_prefix(digits, radix as nat, i + 1 - start);
                }
            }
            return None;
        }
        assert(digit_value(c, radix as nat) == Some(d as nat));
        match acc.checked_mul(radix) {
            None => {
                proof {
                    if digits_value(digits, radix as nat) is Some {
                        lemma_digits_prefix(digits, radix as nat, i + 1 - start);
                        assert(acc * radix + d >= acc * radix);
                    }
                }
                return None;
            },
            Some(m) => match m.checked_add(d) {
                None => {
                    proof {
                        if digits_value(digits, radix as nat) is Some {
                            lemma_digits_prefix(digits, radix as nat, i + 1 - start);
                        }
                    }
                    return None;
                },
                Some(v) => {
                    if v > max {
                        proof {
                            if digits_value(digits, radix as nat) is Some {
                                lemma_digits_prefix(digits, radix as nat, i + 1 - start);
                            }
                        }
                        return None;
                    }
                    acc = v;
                },
            },
        }
        i = i + 1;
    }
    assert(digits.take(n - start) =~= digits);
    Some(acc)
}

/// Parses `s` as `from_str_radix` does for an unsigned integer type whose
/// largest value is `max`.
pub fn parse_unsigned_radix(s: &str, radix: u64, max: u64) -> (res: Option<u64>)
    requires
        2 <= radix <= 36,
    ensures
        res matches Some(v) ==> parse_unsigned(s@, radix as nat, max as nat) == Some(v as nat),
        res is None ==> parse_unsigned(s@, radix as nat, max as nat) is None,
{
    let n = s.unicode_len();
    if n == 0 {
        return None;
    }
    let start: usize = if s.get_char(0) == '+' { 1 } else { 0 };
    if start == n {
        return None;
    }
    proof {
        if s@[0] == '+' {
            assert(s@.skip(1) =~= s@.drop_first());
        } else {
            assert(s@.skip(0) =~= s@);
        }
    }
    parse_digits(s, start, radix, max)
}


/// The index of the first `c` in `s`, if any.
pub open spec fn index_of_char(s: Seq<char>, c: char) -> Option<int>
    decreases s.len(),
{
    if s.len() == 0 {
        None
    } else if s[0] == c {
        Some(0)
    } else {
        match index_of_char(s.drop_first(), c) {
            Some(i) => Some(i + 1),
            None => None,
        }
    }
}

/// The pieces of `s` between the occurrences of `c`, as `str::split(c)`
/// yields them: empty pieces included, and always at least one piece.
pub open spec fn split_on(s: Seq<char>, c: char) -> Seq<Seq<char>>
    decreases s.len(),
{
    match index_of_char(s, c) {
        None => seq![s],
        Some(i) => if 0 <= i < s.len() {
            seq![s.take(i)] + split_on(s.skip(i + 1), c)
        } else {
            seq![s]
        },
    }
}

/// `s` split at its first `c`, as `str::split_once(c)` gives it.
pub open spec fn split_once_on(s: Seq<char>, c: char) -> Option<(Seq<char>, Seq<char>)> {
    match index_of_char(s, c) {
        None => None,
        Some(i) => Some((s.take(i), s.skip(i + 1))),
    }
}

proof fn lemma_index_of_char(s: Seq<char>, c: char)
    ensures
        match index_of_char(s, c) {
            Some(i) => 0 <= i < s.len() && s[i] == c && forall|j: int| 0 <= j < i ==> s[j] != c,
            None => forall|j: int| 0 <= j < s.len() ==> s[j] != c,
        },
    decreases s.len(),
{
    if s.len() > 0 {
        lemma_index_of_char(s.drop_first(), c);
        if s[0] != c {
            assert forall|j: int| 0 <= j < s.len() && s.drop_first().len() >= 0 && 1 <= j implies s[j] == s.drop_first()[j - 1] by {}
        }
    }
}

/// In `a`, `c`, `b` where `a` holds no `c`, the first `c` is the one after `a`.
proof fn lemma_index_after_prefix(a: Seq<char>, c: char, b: Seq<char>)
    requires
        forall|j: int| 0 <= j < a.len() ==> a[j] != c,
    ensures
        index_of_char(a + seq![c] + b, c) == Some(a.len() as int),
    decreases a.len(),
{
    if a.len() == 0 {
        assert((a + seq![c] + b)[0] == c);
    } else {
        lemma_index_after_prefix(a.drop_first(), c, b);
        assert((a + seq![c] + b).drop_first() =~= a.drop_first() + seq![c] + b);
    }
}

/// Splitting `a`, `c`, `b` at its first `c` gives `a` and `b` back, where
/// `a` holds no `c` (`b` may hold any).
pub proof fn lemma_split_once_joined(a: Seq<char>, c: char, b: Seq<char>)
    requires
        forall|j: int| 0 <= j < a.len() ==> a[j] != c,
    ensures
        split_once_on(a + seq![c] + b, c) == Some((a, b)),
{
    lemma_index_after_prefix(a, c, b);
    assert((a + seq![c] + b).take(a.len() as int) =~= a);
    assert((a + seq![c] + b).skip(a.len() + 1int) =~= b);
}

/// Splitting `a`, `c`, `b` on every `c`, where `a` holds no `c`, gives `a`
/// and then the pieces of `b`.
pub proof fn lemma_split_on_joined(a: Seq<char>, c: char, b: Seq<char>)
    requires
        forall|j: int| 0 <= j < a.len() ==> a[j] != c,
    ensures
        split_on(a + seq![c] + b, c) == seq![a] + split_on(b, c),
{
    lemma_index_after_prefix(a, c, b);
    assert((a + seq![c] + b).take(a.len() as int) =~= a);
    assert((a + seq![c] + b).skip(a.len() + 1int) =~= b);
}

/// A string without `c` is a single piece.
pub proof fn lemma_split_on_plain(s: Seq<char>, c: char)
    requires
        forall|j: int| 0 <= j < s.len() ==> s[j] != c,
    ensures
        split_on(s, c) == seq![s],
{
    lemma_index_of_char(s, c);
}

/// The index of the first `c` in `s` at or after character `from`.
fn find_char_from(s: &str, c: char, from: usize) -> (res: Option<usize>)
    requires
        from <= s@.len(),
    ensures
        match index_of_char(s@.skip(from as int), c) {
            Some(i) => res == Some((i + from) as usize),
            None => res is None,
        },
{
    let n = s.unicode_len();
    let mut i = from;
    proof {
        lemma_index_of_char(s@.skip(from as int), c);
    }
    while i < n
        invariant
            from <= i <= n,
            n == s@.len(),
            forall|j: int| from <= j < i ==> s@[j] != c,
        decreases n - i,
    {
        if s.get_char(i) == c {
            proof {
                lemma_index_of_char(s@.skip(from as int), c);
                let t = s@.skip(from as int);
                assert(t[i - from] == c);
                match index_of_char(t, c) {
                    Some(k) => {
                        assert(forall|j: int| 0 <= j < k ==> t[j] != c);
                        if k < i - from {
                            assert(t[k] == s@[k + from]);
                        }
                        if k > i - from {
                            assert(t[i - from] != c);
                        }
                    },
                    None => {},
                }
            }
            return Some(i);
        }
        i = i + 1;
    }
    proof {
        lemma_index_of_char(s@.skip(from as int), c);
        let t = s@.skip(from as int);
        if let Some(k) = index_of_char(t, c) {
            assert(t[k] == s@[k + from]);
        }
    }
    None
}

/// Splits `s` at its first `c`, as `str::split_once(c)` does.
pub fn split_once_char(s: &str, c: char) -> (res: Option<(String, String)>)
    ensures
        match split_once_on(s@, c) {
            None => res is None,
            Some((a, b)) => res matches Some(p) && p.0@ == a && p.1@ == b,
        },
{
    assert(s@.skip(0) =~= s@);
    match find_char_from(s, c, 0) {
        None => None,
        Some(i) => {
            let n = s.unicode_len();
            proof {
                lemma_index_of_char(s@, c);
            }
            let before = s.substring_char(0, i).to_owned();
            let after = s.substring_char(i + 1, n).to_owned();
            proof {
                assert(before@ =~= s@.take(i as int));
                assert(after@ =~= s@.skip(i + 1));
            }
            Some((before, after))
        },
    }
}

/// Splits `s` at every `c`, as `s.split(c).collect()` does.
pub fn split_char(s: &str, c: char) -> (res: Vec<String>)
    ensures
        res@.len() == split_on(s@, c).len(),
        forall|k: int| 0 <= k < res@.len() ==> #[trigger] res@[k]@ == split_on(s@, c)[k],
{
    let n = s.unicode_len();
    let mut pieces: Vec<String> = Vec::new();
    let mut start: usize = 0;
    assert(s@.skip(0) =~= s@);
    loop
        invariant
            start <= n,
            n == s@.len(),
            forall|k: int| 0 <= k < pieces@.len() ==> #[trigger] pieces@[k]@ == split_on(s@, c)[k],
            split_on(s@, c) =~= Seq::new(pieces@.len() as nat, |k: int| split_on(s@, c)[k]) + split_on(s@.skip(start as int), c),
        decreases n - start,
    {
        let ghost rest = s@.skip(start as int);
        proof {
            lemma_index_of_char(rest, c);
        }
        match find_char_from(s, c, start) {
            None => {
                let piece = s.substring_char(start, n).to_owned();
                assert(piece@ =~= rest);
                assert(split_on(rest, c) == seq![rest]);
                let ghost before = pieces@;
                pieces.push(piece);
                assert forall|k: int| 0 <= k < pieces@.len() implies #[trigger] pieces@[k]@ == split_on(s@, c)[k] by {
                    if k < before.len() {
                        assert(pieces@[k] == before[k]);
                    } else {
                        assert(split_on(s@, c)[k] == split_on(rest, c)[0]);
                    }
                }
                assert(split_on(s@, c).len() == pieces@.len());
                return pieces;
            },
            Some(i) => {
                let piece = s.substring_char(start, i).to_owned();
                let ghost k0 = (i - start) as int;
                assert(index_of_char(rest, c) == Some(k0));
                assert(piece@ =~= rest.take(k0));
                assert(rest.skip(k0 + 1) =~= s@.skip(i + 1));
                let ghost before = pieces@;
                assert(split_on(rest, c) == seq![rest.take(k0)] + split_on(s@.skip(i + 1), c));
                pieces.push(piece);
                assert forall|k: int| 0 <= k < pieces@.len() implies #[trigger] pieces@[k]@ == split_on(s@, c)[k] by {
                    if k < before.len() {
                        assert(pieces@[k] == before[k]);
                    } else {
                        assert(split_on(s@, c)[k] == split_on(rest, c)[0]);
                    }
                }
                assert(split_on(s@, c) =~= Seq::new(pieces@.len() as nat, |k: int| split_on(s@, c)[k]) + split_on(s@.skip(i + 1), c));
                start = i + 1;
            },
        }
    }
}


/// `s` with every non-overlapping occurrence of `pat`, found from left to
/// right, replaced by `rep`, as `str::replace` gives it. An empty `pat`
/// matches before every character and at the end.
pub open spec fn replace_all(s: Seq<char>, pat: Seq<char>, rep: Seq<char>) -> Seq<char>
    decreases s.len(),
{
    if pat.len() == 0 {
        if s.len() == 0 {
            rep
        } else {
            rep + seq![s[0]] + replace_all(s.drop_first(), pat, rep)
        }
    } else if s.len() == 0 {
        Seq::empty()
    } else if s.len() >= pat.len() && s.take(pat.len() as int) == pat {
        rep + replace_all(s.skip(pat.len() as int), pat, rep)
    } else {
        seq![s[0]] + replace_all(s.drop_first(), pat, rep)
    }
}

/// Whether `s` holds `pat` at character `i`.
fn matches_at(s: &str, n: usize, pat: &str, m: usize, i: usize) -> (res: bool)
    requires
        n == s@.len(),
        m == pat@.len(),
        i <= n,
    ensures
        res == (n - i >= m && s@.skip(i as int).take(m as int) == pat@),
{
    if n - i < m {
        return false;
    }
    let mut j: usize = 0;
    while j < m
        invariant
            j <= m,
            m == pat@.len(),
            n == s@.len(),
            i <= n,
            n - i >= m,
            forall|k: int| 0 <= k < j ==> s@[i + k] == pat@[k],
        decreases m - j,
    {
        if s.get_char(i + j) != pat.get_char(j) {
            assert(s@.skip(i as int).take(m as int)[j as int] != pat@[j as int]);
            return false;
        }
        j = j + 1;
    }
    assert(s@.skip(i as int).take(m as int) =~= pat@);
    true
}

/// Replaces every occurrence of the non-empty `pat` in `s` by `rep`, as
/// `str::replace` does.
pub fn replace_str(s: &str, pat: &str, rep: &str) -> (res: String)
    ensures
        res@ == replace_all(s@, pat@, rep@),
{
    let n = s.unicode_len();
    let m = pat.unicode_len();
    let mut out = String::new();
    let mut i: usize = 0;
    assert(s@.skip(0) =~= s@);
    if m == 0 {
        while i < n
            invariant
                i <= n,
                n == s@.len(),
                pat@.len() == 0,
                replace_all(s@, pat@, rep@) == out@ + replace_all(s@.skip(i as int), pat@, rep@),
            decreases n - i,
        {
            let ghost rest = s@.skip(i as int);
            let c = s.get_char(i);
            out.append(rep);
            push_char(&mut out, c);
            assert(rest.drop_first() =~= s@.skip(i + 1));
            assert(rest[0] == c);
            assert(replace_all(rest, pat@, rep@) == rep@ + seq![c] + replace_all(s@.skip(i + 1), pat@, rep@));
            assert(replace_all(s@, pat@, rep@) == out@ + replace_all(s@.skip(i + 1), pat@, rep@));
            i = i + 1;
        }
        assert(s@.skip(i as int).len() == 0);
        out.append(rep);
        return out;
    }
    while i < n
        invariant
            i <= n,
            n == s@.len(),
            m == pat@.len(),
            m > 0,
            replace_all(s@, pat@, rep@) == out@ + replace_all(s@.skip(i as int), pat@, rep@),
        decreases n - i,
    {
        let ghost rest = s@.skip(i as int);
        if matches_at(s, n, pat, m, i) {
            out.append(rep);
            assert(rest.skip(m as int) =~= s@.skip(i + m));
            assert(replace_all(rest, pat@, rep@) == rep@ + replace_all(s@.skip(i + m), pat@, rep@));
            assert(replace_all(s@, pat@, rep@) == out@ + replace_all(s@.skip(i + m), pat@, rep@));
            i = i + m;
        } else {
            let c = s.get_char(i);
            push_char(&mut out, c);
            assert(rest.drop_first() =~= s@.skip(i + 1));
            assert(rest[0] == c);
            assert(replace_all(rest, pat@, rep@) == seq![c] + replace_all(s@.skip(i + 1), pat@, rep@));
            assert(replace_all(s@, pat@, rep@) == out@ + replace_all(s@.skip(i + 1), pat@, rep@));
            i = i + 1;
        }
    }
    assert(s@.skip(i as int).len() == 0);
    assert(out@ + Seq::<char>::empty() =~= out@);
    out
}

/// The pieces joined with `sep` between them, as `slice::join` gives it.
pub open spec fn join_with(parts: Seq<Seq<char>>, sep: Seq<char>) -> Seq<char>
    decreases parts.len(),
{
    if parts.len() == 0 {
        Seq::empty()
    } else if parts.len() == 1 {
        parts[0]
    } else {
        join_with(parts.drop_last(), sep) + sep + parts.last()
    }
}

/// Joins `parts` with `sep` between them.
pub fn join_strings(parts: &Vec<String>, sep: &str) -> (res: String)
    ensures
        res@ == join_with(parts@.map_values(|p: String| p@), sep@),
{
    let ghost views = parts@.map_values(|p: String| p@);
    let mut out = String::new();
    let mut i: usize = 0;
    while i < parts.len()
        invariant
            i <= parts@.len(),
            views == parts@.map_values(|p: String| p@),
            out@ == join_with(views.take(i as int), sep@),
        decreases parts@.len() - i,
    {
        assert(views.take(i + 1).drop_last() =~= views.take(i as int));
        assert(views.take(i + 1).last() == parts@[i as int]@);
        if i > 0 {
            out.append(sep);
        } else {
            assert(views.take(1) =~= seq![parts@[0]@]);
        }
        out.append(parts[i].as_str());
        i = i + 1;
    }
    assert(views.take(parts@.len() as int) =~= views);
    out
}

/// Whether `s` ends with `suffix`.
pub fn ends_with_str(s: &str, suffix: &str) -> (res: bool)
    ensures
        res == (suffix@.len() <= s@.len() && s@.skip(s@.len() - suffix@.len()) == suffix@),
{
    let n = s.unicode_len();
    let m = suffix.unicode_len();
    if m > n {
        return false;
    }
    let r = matches_at(s, n, suffix, m, n - m);
    proof {
        assert(s@.skip((n - m) as int).take(m as int) =~= s@.skip((n - m) as int));
    }
    r
}

/// The upper-case form of `c`, as `char::to_uppercase` yields it.
pub uninterp spec fn char_uppercase(c: char) -> Seq<char>;

/// The characters of `char::to_uppercase(c)`, collected into a string; std
/// maps `c` by the Unicode case tables, which `char_uppercase` names.
#[verifier::external_body]
fn to_uppercase_string(c: char) -> (res: String)
    ensures
        res@ == char_uppercase(c),
{
    c.to_uppercase().collect()
}

/// `s` with its first character in upper case.
pub open spec fn capitalized(s: Seq<char>) -> Seq<char> {
    if s.len() == 0 {
        Seq::empty()
    } else {
        char_uppercase(s[0]) + s.drop_first()
    }
}

/// Puts the first character of `s` in upper case and keeps the rest.
pub fn capitalize(s: &str) -> (res: String)
    ensures
        res@ == capitalized(s@),
{
    let n = s.unicode_len();
    if n == 0 {
        return String::new();
    }
    let mut out = to_uppercase_string(s.get_char(0));
    let rest = s.substring_char(1, n);
    assert(rest@ =~= s@.drop_first());
    out.append(rest);
    out
}


/// The decimal rendering of a signed integer, with `-` before a negative one.
pub open spec fn signed_decimal(n: int) -> Seq<char> {
    if n < 0 {
        seq!['-'] + decimal((-n) as nat)
    } else {
        decimal(n as nat)
    }
}

/// Renders `n` in decimal, as `n.to_string()` does.
pub fn i64_to_decimal(n: i64) -> (res: String)
    ensures
        res@ == signed_decimal(n as int),
{
    if n < 0 {
        let magnitude: u64 = if n == i64::MIN { 9223372036854775808u64 } else { (-n) as u64 };
        let mut s = String::new();
        push_char(&mut s, '-');
        s.append(u64_to_decimal(magnitude).as_str());
        s
    } else {
        u64_to_decimal(n as u64)
    }
}

} // verus!
