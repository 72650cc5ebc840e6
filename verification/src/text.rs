//! Character-level text handling: decimal numbers, splitting, replacing.
use vstd::prelude::*;
use vstd::utf8::{decode_utf8, encode_utf8, encode_utf8_decode_utf8, encode_utf8_valid_utf8, is_char_boundary};
use vstd::string::StringSliceAdditionalSpecFns;

verus! {

/// `c` is an ASCII decimal digit.
pub open spec fn is_digit(c: char) -> bool {
    '0' <= c && c <= '9'
}

/// The value of a decimal digit character.
pub open spec fn digit_value(c: char) -> nat {
    (c as int - '0' as int) as nat
}

/// Every character of `s` is a decimal digit.
pub open spec fn all_digits(s: Seq<char>) -> bool {
    forall|i: int| 0 <= i < s.len() ==> is_digit(#[trigger] s[i])
}

/// The number written by the decimal digits `s` (most significant first).
pub open spec fn digits_value(s: Seq<char>) -> nat
    decreases s.len(),
{
    if s.len() == 0 {
        0
    } else {
        digits_value(s.drop_last()) * 10 + digit_value(s.last())
    }
}

/// The digits of an unsigned number: an optional leading `+` is dropped.
pub open spec fn unsigned_digits(s: Seq<char>) -> Seq<char> {
    if s.len() > 0 && s[0] == '+' {
        s.drop_first()
    } else {
        s
    }
}

/// What `str::parse::<u64>` gives: an optional `+`, then at least one
/// decimal digit and nothing else, of a value that fits in 64 bits.
pub open spec fn parse_u64_spec(s: Seq<char>) -> Option<u64> {
    let d = unsigned_digits(s);
    if d.len() > 0 && all_digits(d) && digits_value(d) <= u64::MAX {
        Some(digits_value(d) as u64)
    } else {
        None
    }
}

/// The character of the decimal digit `d`.
pub open spec fn digit_char(d: nat) -> char {
    if d == 0 { '0' }
    else if d == 1 { '1' }
    else if d == 2 { '2' }
    else if d == 3 { '3' }
    else if d == 4 { '4' }
    else if d == 5 { '5' }
    else if d == 6 { '6' }
    else if d == 7 { '7' }
    else if d == 8 { '8' }
    else { '9' }
}

/// The shortest decimal writing of `n`, as `u64::to_string` gives it.
pub open spec fn decimal_of(n: nat) -> Seq<char>
    decreases n,
{
    if n < 10 {
        seq![digit_char(n)]
    } else {
        decimal_of(n / 10).push(digit_char(n % 10))
    }
}

/// A prefix of digits is worth no more than the whole.
pub proof fn lemma_digits_value_prefix(s: Seq<char>, k: int)
    requires
        0 <= k <= s.len(),
    ensures
        digits_value(s.take(k)) <= digits_value(s),
    decreases s.len(),
{
    if k < s.len() {
        lemma_digits_value_prefix(s.drop_last(), k);
        assert(s.drop_last().take(k) =~= s.take(k));
    } else {
        assert(s.take(k) =~= s);
    }
}

proof fn lemma_digit_char(d: nat)
    requires
        d < 10,
    ensures
        is_digit(digit_char(d)),
        digit_value(digit_char(d)) == d,
        digit_char(d) != '+',
{
}

/// The decimal writing of `n` is all digits, starts with a digit, and reads back as `n`.
pub proof fn lemma_decimal_of(n: nat)
    ensures
        decimal_of(n).len() > 0,
        all_digits(decimal_of(n)),
        digits_value(decimal_of(n)) == n,
        is_digit(decimal_of(n)[0]),
    decreases n,
{
    if n < 10 {
        lemma_digit_char(n);
        let d = decimal_of(n);
        assert(d.drop_last() =~= Seq::<char>::empty());
        assert(d.last() == digit_char(n));
        assert(digits_value(d) == digits_value(d.drop_last()) * 10 + digit_value(d.last()));
    } else {
        lemma_decimal_of(n / 10);
        lemma_digit_char(n % 10);
        let d = decimal_of(n);
        assert(d.drop_last() =~= decimal_of(n / 10));
        assert(d.last() == digit_char(n % 10));
        assert(d[0] == decimal_of(n / 10)[0]);
        assert(digits_value(d) == digits_value(d.drop_last()) * 10 + digit_value(d.last()));
        assert((n / 10) * 10 + n % 10 == n);
    }
}

/// Writing a number in decimal and parsing it back gives the number.
pub proof fn law_decimal_round_trip(n: u64)
    ensures
        parse_u64_spec(decimal_of(n as nat)) == Some(n),
{
    lemma_decimal_of(n as nat);
    assert(unsigned_digits(decimal_of(n as nat)) == decimal_of(n as nat));
}

/// The characters of `s`, one by one.
pub fn chars_of(s: &str) -> (res: Vec<char>)
    ensures
        res@ == s@,
{
    let n = s.unicode_len();
    let mut v: Vec<char> = Vec::new();
    let mut i: usize = 0;
    while i < n
        invariant
            n == s@.len(),
            i <= n,
            v@ == s@.take(i as int),
        decreases n - i,
    {
        let c = s.get_char(i);
        v.push(c);
        i += 1;
        assert(v@ =~= s@.take(i as int));
    }
    assert(v@ =~= s@);
    v
}

/// Parses an unsigned decimal number the way `str::parse::<u64>` does.
pub fn parse_u64(s: &str) -> (res: Option<u64>)
    ensures
        res == parse_u64_spec(s@),
{
    let chars = chars_of(s);
    let n = chars.len();
    let mut start: usize = 0;
    if n > 0 && chars[0] == '+' {
        start = 1;
    }
    let ghost d = unsigned_digits(s@);
    assert(d =~= chars@.subrange(start as int, n as int));
    if start >= n {
        return None;
    }
    let mut value: u64 = 0;
    let mut i: usize = start;
    while i < n
        invariant
            start <= i <= n,
            n == chars@.len(),
            d == chars@.subrange(start as int, n as int),
            d == unsigned_digits(s@),
            all_digits(chars@.subrange(start as int, i as int)),
            value == digits_value(chars@.subrange(start as int, i as int)),
        decreases n - i,
    {
        let c = chars[i];
        if !('0' <= c && c <= '9') {
            assert(d[i - start] == c);
            assert(!is_digit(d[i - start]));
            assert(!all_digits(d));
            return None;
        }
        let ghost pre = chars@.subrange(start as int, i as int);
        let ghost next = chars@.subrange(start as int, i + 1);
        assert(next.drop_last() =~= pre);
        assert(next.last() == c);
        assert(all_digits(next)) by {
            assert forall|j: int| 0 <= j < next.len() implies is_digit(#[trigger] next[j]) by {
                if j < pre.len() {
                    assert(next[j] == pre[j]);
                }
            }
        }
        let dv: u64 = (c as u32 - '0' as u32) as u64;
        assert(dv == digit_value(c));
        let ten = value.checked_mul(10);
        let grown = match ten {
            Some(t) => t.checked_add(dv),
            None => None,
        };
        match grown {
            Some(g) => {
                assert(digits_value(next) == digits_value(next.drop_last()) * 10 + digit_value(next.last()));
                value = g;
            },
            None => {
                proof {
                    assert(digits_value(next) == digits_value(next.drop_last()) * 10 + digit_value(next.last()));
                    assert(digits_value(next) > u64::MAX);
                    if all_digits(d) {
                        assert(d.take(i + 1 - start) =~= next);
                        lemma_digits_value_prefix(d, i + 1 - start);
                    }
                }
                return None;
            },
        }
        i += 1;
    }
    assert(chars@.subrange(start as int, n as int) =~= d);
    Some(value)
}

/// The string of one decimal digit.
fn digit_str(d: u64) -> (res: &'static str)
    requires
        d < 10,
    ensures
        res@ == seq![digit_char(d as nat)],
{
    if d == 0 {
        proof { reveal_strlit("0"); }
        "0"
    } else if d == 1 {
        proof { reveal_strlit("1"); }
        "1"
    } else if d == 2 {
        proof { reveal_strlit("2"); }
        "2"
    } else if d == 3 {
        proof { reveal_strlit("3"); }
        "3"
    } else if d == 4 {
        proof { reveal_strlit("4"); }
        "4"
    } else if d == 5 {
        proof { reveal_strlit("5"); }
        "5"
    } else if d == 6 {
        proof { reveal_strlit("6"); }
        "6"
    } else if d == 7 {
        proof { reveal_strlit("7"); }
        "7"
    } else if d == 8 {
        proof { reveal_strlit("8"); }
        "8"
    } else {
        proof { reveal_strlit("9"); }
        "9"
    }
}

/// Writes `n` in decimal, as `u64::to_string` does.
pub fn decimal(n: u64) -> (res: String)
    ensures
        res@ == decimal_of(n as nat),
    decreases n,
{
    if n < 10 {
        String::from_str(digit_str(n))
    } else {
        let mut s = decimal(n / 10);
        s.append(digit_str(n % 10));
        s
    }
}

/// The pieces of `s` between occurrences of `sep`, as `str::split` gives them.
pub open spec fn split_on(s: Seq<char>, sep: char) -> Seq<Seq<char>>
    decreases s.len(),
{
    if s.len() == 0 {
        seq![Seq::empty()]
    } else {
        let rest = split_on(s.drop_last(), sep);
        if s.last() == sep {
            rest.push(Seq::empty())
        } else {
            rest.update(rest.len() - 1, rest.last().push(s.last()))
        }
    }
}

/// There is always at least one piece.
pub proof fn lemma_split_on_len(s: Seq<char>, sep: char)
    ensures
        split_on(s, sep).len() >= 1,
    decreases s.len(),
{
    if s.len() > 0 {
        lemma_split_on_len(s.drop_last(), sep);
    }
}

/// `s` holds no `c`.
pub open spec fn free_of(s: Seq<char>, c: char) -> bool {
    forall|i: int| 0 <= i < s.len() ==> s[i] != c
}

/// Splitting text joined by a separator splits each side.
pub proof fn lemma_split_concat(a: Seq<char>, b: Seq<char>, sep: char)
    ensures
        split_on(a + seq![sep] + b, sep) == split_on(a, sep) + split_on(b, sep),
    decreases b.len(),
{
    let whole = a + seq![sep] + b;
    if b.len() == 0 {
        assert(whole =~= a.push(sep));
        assert(whole.drop_last() =~= a);
        assert(split_on(b, sep) =~= seq![Seq::<char>::empty()]);
        assert(split_on(whole, sep) =~= split_on(a, sep) + split_on(b, sep));
    } else {
        let b1 = b.drop_last();
        lemma_split_concat(a, b1, sep);
        lemma_split_on_len(b1, sep);
        lemma_split_on_len(a, sep);
        assert(whole.drop_last() =~= a + seq![sep] + b1);
        assert(whole.last() == b.last());
        let left = split_on(a, sep);
        let right = split_on(b1, sep);
        if b.last() == sep {
            assert(split_on(whole, sep) =~= (left + right).push(Seq::empty()));
            assert(split_on(b, sep) =~= right.push(Seq::empty()));
            assert(split_on(whole, sep) =~= left + split_on(b, sep));
        } else {
            let joined = left + right;
            assert(joined.last() == right.last());
            assert(split_on(whole, sep) =~= joined.update(
                joined.len() - 1,
                joined.last().push(b.last()),
            ));
            assert(split_on(b, sep) =~= right.update(right.len() - 1, right.last().push(b.last())));
            assert(split_on(whole, sep) =~= left + split_on(b, sep));
        }
    }
}

/// Text without the separator is a single piece.
pub proof fn lemma_split_free(s: Seq<char>, sep: char)
    requires
        free_of(s, sep),
    ensures
        split_on(s, sep) == seq![s],
    decreases s.len(),
{
    if s.len() == 0 {
        assert(s =~= Seq::<char>::empty());
        assert(split_on(s, sep) =~= seq![s]);
    } else {
        assert(free_of(s.drop_last(), sep));
        lemma_split_free(s.drop_last(), sep);
        assert(s.drop_last().push(s.last()) =~= s);
        assert(s[s.len() - 1] != sep);
        let rest = split_on(s.drop_last(), sep);
        assert(split_on(s, sep) == rest.update(rest.len() - 1, rest.last().push(s.last())));
        assert(rest.update(rest.len() - 1, rest.last().push(s.last())) =~= seq![s]);
    }
}

/// Splits `s` at every `sep`.
pub fn split_char(s: &str, sep: char) -> (res: Vec<String>)
    ensures
        res.deep_view() == split_on(s@, sep),
{
    let chars = chars_of(s);
    let n = chars.len();
    let mut pieces: Vec<String> = Vec::new();
    let mut start: usize = 0;
    let mut i: usize = 0;
    assert(s@.take(0) =~= Seq::<char>::empty());
    assert(pieces.deep_view().push(s@.subrange(0, 0)) =~= split_on(s@.take(0), sep));
    while i < n
        invariant
            n == chars@.len(),
            chars@ == s@,
            start <= i <= n,
            pieces.deep_view().push(s@.subrange(start as int, i as int)) == split_on(
                s@.take(i as int),
                sep,
            ),
        decreases n - i,
    {
        let ghost before = pieces.deep_view();
        assert(s@.take(i + 1).drop_last() =~= s@.take(i as int));
        assert(s@.take(i + 1).last() == chars@[i as int]);
        if chars[i] == sep {
            let piece = String::from_str(s.substring_char(start, i));
            pieces.push(piece);
            assert(pieces.deep_view() =~= before.push(s@.subrange(start as int, i as int)));
            start = i + 1;
            i += 1;
            assert(s@.subrange(start as int, i as int) =~= Seq::<char>::empty());
        } else {
            i += 1;
            assert(s@.subrange(start as int, i as int) =~= s@.subrange(start as int, i - 1).push(
                chars@[i - 1],
            ));
            assert(before.push(s@.subrange(start as int, i as int)) =~= before.push(
                s@.subrange(start as int, i - 1),
            ).update(before.len() as int, s@.subrange(start as int, i - 1).push(chars@[i - 1])));
        }
    }
    let ghost before = pieces.deep_view();
    let last = String::from_str(s.substring_char(start, n));
    pieces.push(last);
    assert(pieces.deep_view() =~= before.push(s@.subrange(start as int, n as int)));
    assert(s@.take(n as int) =~= s@);
    pieces
}

/// `s` with every non-overlapping occurrence of `pat` (scanning left to right)
/// replaced by `rep`, as `str::replace` gives it for a non-empty `pat`.
pub open spec fn replace_spec(s: Seq<char>, pat: Seq<char>, rep: Seq<char>) -> Seq<char>
    decreases s.len(),
{
    if pat.len() == 0 || s.len() < pat.len() {
        s
    } else if s.take(pat.len() as int) == pat {
        rep + replace_spec(s.skip(pat.len() as int), pat, rep)
    } else {
        seq![s[0]] + replace_spec(s.drop_first(), pat, rep)
    }
}

/// Whether `pat` occurs in `chars` at position `i`.
fn occurs_at(chars: &Vec<char>, i: usize, pat: &Vec<char>) -> (res: bool)
    requires
        i + pat@.len() <= chars@.len(),
    ensures
        res == (chars@.subrange(i as int, i + pat@.len()) == pat@),
{
    let m = pat.len();
    let n = chars.len();
    let mut j: usize = 0;
    while j < m
        invariant
            m == pat@.len(),
            n == chars@.len(),
            i + m <= chars@.len(),
            j <= m,
            forall|k: int| 0 <= k < j ==> chars@[i + k] == pat@[k],
        decreases m - j,
    {
        if chars[i + j] != pat[j] {
            assert(chars@.subrange(i as int, i + m)[j as int] != pat@[j as int]);
            return false;
        }
        j += 1;
    }
    assert(chars@.subrange(i as int, i + m) =~= pat@);
    true
}

/// Replaces every occurrence of the non-empty `pat` in `s` by `rep`, as `str::replace` does.
pub fn replace_all(s: &str, pat: &str, rep: &str) -> (res: String)
    requires
        pat@.len() > 0,
    ensures
        res@ == replace_spec(s@, pat@, rep@),
{
    let chars = chars_of(s);
    let pc = chars_of(pat);
    let n = chars.len();
    let m = pc.len();
    let mut res = String::new();
    let mut i: usize = 0;
    assert(s@.skip(0) =~= s@);
    assert(res@ + replace_spec(s@.skip(0), pat@, rep@) =~= replace_spec(s@, pat@, rep@));
    while i < n
        invariant
            n == chars@.len(),
            chars@ == s@,
            m == pc@.len(),
            pc@ == pat@,
            m > 0,
            i <= n,
            res@ + replace_spec(s@.skip(i as int), pat@, rep@) == replace_spec(s@, pat@, rep@),
        decreases n - i,
    {
        let ghost rest = s@.skip(i as int);
        let ghost old_res = res@;
        if n - i < m {
            res.append(s.substring_char(i, n));
            assert(s@.subrange(i as int, n as int) =~= rest);
            i = n;
            assert(s@.skip(i as int) =~= Seq::<char>::empty());
            assert(res@ + replace_spec(s@.skip(i as int), pat@, rep@) =~= old_res + rest);
        } else if occurs_at(&chars, i, &pc) {
            assert(rest.take(m as int) =~= s@.subrange(i as int, i + m));
            res.append(rep);
            assert(rest.skip(m as int) =~= s@.skip(i + m));
            i += m;
            assert(res@ + replace_spec(s@.skip(i as int), pat@, rep@) =~= old_res + replace_spec(
                rest,
                pat@,
                rep@,
            ));
        } else {
            assert(rest.take(m as int) =~= s@.subrange(i as int, i + m));
            res.append(s.substring_char(i, i + 1));
            assert(s@.subrange(i as int, i + 1) =~= seq![rest[0]]);
            assert(rest.drop_first() =~= s@.skip(i + 1));
            i += 1;
            assert(res@ + replace_spec(s@.skip(i as int), pat@, rep@) =~= old_res + replace_spec(
                rest,
                pat@,
                rep@,
            ));
        }
    }
    assert(s@.skip(n as int) =~= Seq::<char>::empty());
    assert(res@ + replace_spec(s@.skip(n as int), pat@, rep@) =~= res@);
    res
}

/// Whether two texts are equal.
pub fn same_text(a: &str, b: &str) -> (res: bool)
    ensures
        res == (a@ == b@),
{
    let ac = chars_of(a);
    let bc = chars_of(b);
    if ac.len() != bc.len() {
        return false;
    }
    let n = ac.len();
    let mut j: usize = 0;
    while j < n
        invariant
            n == ac@.len(),
            n == bc@.len(),
            ac@ == a@,
            bc@ == b@,
            j <= n,
            forall|k: int| 0 <= k < j ==> ac@[k] == bc@[k],
        decreases n - j,
    {
        if ac[j] != bc[j] {
            assert(ac@[j as int] != bc@[j as int]);
            return false;
        }
        j += 1;
    }
    assert(ac@ =~= bc@);
    true
}

/// `s` begins with `prefix`.
pub open spec fn has_prefix(s: Seq<char>, prefix: Seq<char>) -> bool {
    prefix.len() <= s.len() && s.take(prefix.len() as int) == prefix
}

/// `s` ends with `suffix`.
pub open spec fn has_suffix(s: Seq<char>, suffix: Seq<char>) -> bool {
    suffix.len() <= s.len() && s.skip(s.len() - suffix.len()) == suffix
}

/// Whether `s` begins with `prefix`, as `str::starts_with` tells.
pub fn starts_with(s: &str, prefix: &str) -> (res: bool)
    ensures
        res == has_prefix(s@, prefix@),
{
    let sc = chars_of(s);
    let pc = chars_of(prefix);
    if pc.len() > sc.len() {
        return false;
    }
    let r = occurs_at(&sc, 0, &pc);
    assert(s@.subrange(0, pc@.len() as int) =~= s@.take(prefix@.len() as int));
    r
}

/// Whether `s` ends with `suffix`, as `str::ends_with` tells.
pub fn ends_with(s: &str, suffix: &str) -> (res: bool)
    ensures
        res == has_suffix(s@, suffix@),
{
    let sc = chars_of(s);
    let pc = chars_of(suffix);
    if pc.len() > sc.len() {
        return false;
    }
    let start = sc.len() - pc.len();
    let r = occurs_at(&sc, start, &pc);
    assert(s@.subrange(start as int, start + pc@.len()) =~= s@.skip(s@.len() - suffix@.len()));
    r
}

/// The text from byte offset `a` of `s` to its end, as `&s[a..]` gives it,
/// or `None` where that slicing panics (`a` is not on a character boundary).
pub open spec fn byte_suffix(s: Seq<char>, a: int) -> Option<Seq<char>> {
    let bytes = encode_utf8(s);
    if is_char_boundary(bytes, a) {
        Some(decode_utf8(bytes.subrange(a, bytes.len() as int)))
    } else {
        None
    }
}

/// The text between byte offsets `a` and `b` of `s`, as `&s[a..b]` gives it,
/// or `None` where that slicing panics: `a` must not pass `b`, `a` must be a
/// character boundary of `s`, and `b - a` one of the text that follows `a`.
pub open spec fn byte_slice(s: Seq<char>, a: int, b: int) -> Option<Seq<char>> {
    let bytes = encode_utf8(s);
    let tail = bytes.subrange(a, bytes.len() as int);
    if a <= b && is_char_boundary(bytes, a) && is_char_boundary(tail, b - a) {
        Some(decode_utf8(tail.subrange(0, b - a)))
    } else {
        None
    }
}

/// `&s[a..]`, or `None` where it would panic.
pub fn slice_from_byte(s: &str, a: usize) -> (res: Option<String>)
    ensures
        res.deep_view() == byte_suffix(s@, a as int),
{
    proof {
        encode_utf8_valid_utf8(s@);
    }
    if s.is_char_boundary(a) {
        let (_, tail) = s.split_at(a);
        proof {
            encode_utf8_decode_utf8(tail@);
        }
        Some(String::from_str(tail))
    } else {
        None
    }
}

/// `&s[a..b]`, or `None` where it would panic.
pub fn slice_bytes(s: &str, a: usize, b: usize) -> (res: Option<String>)
    ensures
        res.deep_view() == byte_slice(s@, a as int, b as int),
{
    proof {
        encode_utf8_valid_utf8(s@);
    }
    if a <= b && s.is_char_boundary(a) {
        let (_, tail) = s.split_at(a);
        proof {
            encode_utf8_valid_utf8(tail@);
            assert(tail.spec_bytes() =~= encode_utf8(s@).subrange(a as int, encode_utf8(s@).len() as int));
        }
        if tail.is_char_boundary(b - a) {
            let (mid, _) = tail.split_at(b - a);
            proof {
                encode_utf8_decode_utf8(mid@);
            }
            Some(String::from_str(mid))
        } else {
            None
        }
    } else {
        None
    }
}

} // verus!
