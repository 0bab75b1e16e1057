//! Text helpers over `String` / `&str`, specified on their character views.
use vstd::prelude::*;

verus! {

/// The character of a decimal digit.
pub open spec fn digit_char(d: nat) -> char {
    if d == 0 { '0' } else if d == 1 { '1' } else if d == 2 { '2' } else if d == 3 { '3' }
    else if d == 4 { '4' } else if d == 5 { '5' } else if d == 6 { '6' } else if d == 7 { '7' }
    else if d == 8 { '8' } else { '9' }
}

/// Decimal digits of a natural number, most significant first, no leading zeros.
pub open spec fn nat_digits(n: nat) -> Seq<char>
    decreases n,
{
    if n < 10 {
        seq![digit_char(n)]
    } else {
        nat_digits(n / 10).push(digit_char(n % 10))
    }
}

/// The text of an integer as `to_string` writes it: an optional `-` and its digits.
pub open spec fn int_text(n: int) -> Seq<char> {
    if n < 0 { seq!['-'] + nat_digits((-n) as nat) } else { nat_digits(n as nat) }
}

fn digit_str(d: u32) -> (s: &'static str)
    requires d < 10,
    ensures s@ == seq![digit_char(d as nat)],
{
    proof {
        reveal_strlit("0"); reveal_strlit("1"); reveal_strlit("2"); reveal_strlit("3");
        reveal_strlit("4"); reveal_strlit("5"); reveal_strlit("6"); reveal_strlit("7");
        reveal_strlit("8"); reveal_strlit("9");
    }
    let s = if d == 0 { "0" } else if d == 1 { "1" } else if d == 2 { "2" } else if d == 3 { "3" }
    else if d == 4 { "4" } else if d == 5 { "5" } else if d == 6 { "6" } else if d == 7 { "7" }
    else if d == 8 { "8" } else { "9" };
    assert(s@ =~= seq![digit_char(d as nat)]);
    s
}

/// Decimal text of an unsigned number.
pub fn nat_to_text(n: u32) -> (s: String)
    ensures s@ == nat_digits(n as nat),
    decreases n,
{
    if n < 10 {
        String::from_str(digit_str(n))
    } else {
        let mut s = nat_to_text(n / 10);
        s.append(digit_str(n % 10));
        s
    }
}


/// Decimal text of a signed 32-bit number, as `i32::to_string` writes it.
pub fn int_to_text(n: i32) -> (s: String)
    ensures s@ == int_text(n as int),
{
    if n < 0 {
        let wide: i64 = n as i64;
        let magnitude: u32 = (-wide) as u32;
        let digits = nat_to_text(magnitude);
        let mut s = String::from_str(minus_str());
        s.append(digits.as_str());
        s
    } else {
        nat_to_text(n as u32)
    }
}

fn minus_str() -> (s: &'static str)
    ensures s@ == seq!['-'],
{
    proof { reveal_strlit("-"); }
    let s = "-";
    assert(s@ =~= seq!['-']);
    s
}

/// Whether two texts are equal, character by character.
pub fn text_eq(a: &str, b: &str) -> (r: bool)
    ensures r == (a@ == b@),
{
    String::from_str(a) == String::from_str(b)
}

/// Whether `needle` occurs in `haystack` starting at character position `at`.
fn occurs_at(haystack: &str, needle: &str, at: usize, needle_len: usize, haystack_len: usize) -> (r: bool)
    requires
        needle_len == needle@.len(),
        haystack_len == haystack@.len(),
        at + needle_len <= haystack@.len(),
    ensures
        r == (haystack@.subrange(at as int, at + needle_len) == needle@),
{
    let mut k: usize = 0;
    while k < needle_len
        invariant
            needle_len == needle@.len(),
            haystack_len == haystack@.len(),
            at + needle_len <= haystack@.len(),
            k <= needle_len,
            forall|j: int| 0 <= j < k ==> haystack@[at + j] == needle@[j],
        decreases needle_len - k,
    {
        if haystack.get_char(at + k) != needle.get_char(k) {
            assert(haystack@.subrange(at as int, at + needle_len)[k as int] != needle@[k as int]);
            return false;
        }
        k = k + 1;
    }
    assert(haystack@.subrange(at as int, at + needle_len) =~= needle@);
    true
}

/// `needle` occurs somewhere in `haystack` (the empty text occurs everywhere).
pub open spec fn occurs_in(haystack: Seq<char>, needle: Seq<char>) -> bool {
    exists|i: int| 0 <= i <= haystack.len() - needle.len() && #[trigger] haystack.subrange(i, i + needle.len()) == needle
}

/// Whether `needle` occurs in `haystack`, as `str::contains` with a `&str` pattern answers.
pub fn text_contains(haystack: &str, needle: &str) -> (r: bool)
    ensures r == occurs_in(haystack@, needle@),
{
    let hlen = haystack.unicode_len();
    let nlen = needle.unicode_len();
    if nlen > hlen {
        return false;
    }
    let last = hlen - nlen;
    let mut i: usize = 0;
    loop
        invariant
            hlen == haystack@.len(),
            nlen == needle@.len(),
            last == hlen - nlen,
            i <= last,
            forall|j: int| 0 <= j < i ==> #[trigger] haystack@.subrange(j, j + nlen) != needle@,
        decreases last - i,
    {
        if occurs_at(haystack, needle, i, nlen, hlen) {
            return true;
        }
        if i == last {
            return false;
        }
        i = i + 1;
    }
}

/// `s` begins with `prefix`.
pub open spec fn has_prefix(s: Seq<char>, prefix: Seq<char>) -> bool {
    prefix.len() <= s.len() && s.subrange(0, prefix.len() as int) == prefix
}

/// What is left of `s` after `prefix`, as `str::strip_prefix` with a `&str` pattern gives it.
pub fn text_strip_prefix(s: &str, prefix: &str) -> (r: Option<String>)
    ensures
        r is Some <==> has_prefix(s@, prefix@),
        r matches Some(rest) ==> rest@ == s@.subrange(prefix@.len() as int, s@.len() as int),
{
    let slen = s.unicode_len();
    let plen = prefix.unicode_len();
    if plen > slen {
        return None;
    }
    if occurs_at(s, prefix, 0, plen, slen) {
        Some(String::from_str(s.substring_char(plen, slen)))
    } else {
        None
    }
}

/// The pieces of `s` between `|` characters, as `str::split('|')` yields them:
/// one more piece than there are separators, empty pieces kept.
pub open spec fn split_on_bar(s: Seq<char>) -> Seq<Seq<char>>
    decreases s.len(),
{
    if s.len() == 0 {
        seq![Seq::<char>::empty()]
    } else {
        let pieces = split_on_bar(s.drop_last());
        if s.last() == '|' {
            pieces.push(Seq::<char>::empty())
        } else {
            pieces.update(pieces.len() - 1, pieces.last().push(s.last()))
        }
    }
}

/// Every text is split into at least one piece.
pub proof fn lemma_split_nonempty(s: Seq<char>)
    ensures split_on_bar(s).len() >= 1,
    decreases s.len(),
{
    if s.len() > 0 {
        lemma_split_nonempty(s.drop_last());
    }
}

/// The character views of a list of strings.
pub open spec fn views(v: Seq<String>) -> Seq<Seq<char>> {
    v.map_values(|p: String| p@)
}

/// Splits `s` at every `|`.
pub fn split_bar(s: &str) -> (pieces: Vec<String>)
    ensures views(pieces@) == split_on_bar(s@),
{
    let len = s.unicode_len();
    let mut pieces: Vec<String> = Vec::new();
    let mut start: usize = 0;
    let mut i: usize = 0;
    assert(s@.subrange(0, 0) =~= Seq::<char>::empty());
    assert(views(pieces@).push(s@.subrange(0, 0)) =~= split_on_bar(s@.subrange(0, 0)));
    while i < len
        invariant
            len == s@.len(),
            start <= i <= len,
            views(pieces@).push(s@.subrange(start as int, i as int)) == split_on_bar(s@.subrange(0, i as int)),
        decreases len - i,
    {
        let c = s.get_char(i);
        let ghost prev = s@.subrange(0, i as int);
        let ghost next = s@.subrange(0, i + 1);
        assert(next.drop_last() =~= prev);
        assert(next.last() == c);
        if c == '|' {
            let piece = String::from_str(s.substring_char(start, i));
            pieces.push(piece);
            start = i + 1;
            assert(s@.subrange(start as int, i + 1) =~= Seq::<char>::empty());
            assert(views(pieces@) =~= views(pieces@.drop_last()).push(piece@));
        } else {
            assert(s@.subrange(start as int, i + 1) =~= s@.subrange(start as int, i as int).push(c));
            assert(views(pieces@).push(s@.subrange(start as int, i + 1)) =~=
                split_on_bar(prev).update(split_on_bar(prev).len() - 1, split_on_bar(prev).last().push(c)));
        }
        i = i + 1;
    }
    let last = String::from_str(s.substring_char(start, len));
    pieces.push(last);
    assert(s@.subrange(0, len as int) =~= s@);
    assert(views(pieces@) =~= views(pieces@.drop_last()).push(last@));
    pieces
}

/// An ASCII decimal digit.
pub open spec fn is_digit(c: char) -> bool {
    '0' <= c && c <= '9'
}

/// The value of a decimal digit character.
pub open spec fn digit_value(c: char) -> int {
    c as int - '0' as int
}

/// Every character of the text is a decimal digit.
pub open spec fn all_digits(s: Seq<char>) -> bool {
    forall|i: int| 0 <= i < s.len() ==> #[trigger] is_digit(s[i])
}

/// The number a text of decimal digits denotes.
pub open spec fn digits_value(s: Seq<char>) -> int
    decreases s.len(),
{
    if s.len() == 0 { 0 } else { digits_value(s.drop_last()) * 10 + digit_value(s.last()) }
}

/// The digits of an unsigned number's text: what follows an optional leading `+`.
pub open spec fn unsigned_digits(s: Seq<char>) -> Seq<char> {
    if s.len() > 0 && s[0] == '+' { s.drop_first() } else { s }
}

/// What `str::parse::<u64>` makes of a text: an optional `+` followed by at least one
/// decimal digit and nothing else, denoting a number that fits in 64 bits.
pub open spec fn parse_u64_spec(s: Seq<char>) -> Option<u64> {
    let body = unsigned_digits(s);
    if body.len() > 0 && all_digits(body) && digits_value(body) <= u64::MAX {
        Some(digits_value(body) as u64)
    } else {
        None
    }
}

proof fn lemma_digits_value_nonneg(s: Seq<char>)
    requires all_digits(s),
    ensures digits_value(s) >= 0,
    decreases s.len(),
{
    if s.len() > 0 {
        assert(is_digit(s[s.len() - 1]));
        assert(all_digits(s.drop_last())) by {
            assert forall|i: int| 0 <= i < s.drop_last().len() implies #[trigger] is_digit(s.drop_last()[i]) by {
                assert(s.drop_last()[i] == s[i]);
                assert(is_digit(s[i]));
            }
        }
        lemma_digits_value_nonneg(s.drop_last());
    }
}

/// A prefix of a digit text denotes no more than the whole text.
proof fn lemma_digits_value_prefix(s: Seq<char>, k: int)
    requires
        all_digits(s),
        0 <= k <= s.len(),
    ensures
        digits_value(s.subrange(0, k)) <= digits_value(s),
    decreases s.len(),
{
    if k < s.len() {
        let t = s.drop_last();
        assert(all_digits(t)) by {
            assert forall|i: int| 0 <= i < t.len() implies #[trigger] is_digit(t[i]) by {
                assert(t[i] == s[i]);
                assert(is_digit(s[i]));
            }
        }
        lemma_digits_value_prefix(t, k);
        assert(t.subrange(0, k) =~= s.subrange(0, k));
        assert(is_digit(s[s.len() - 1]));
        lemma_digits_value_nonneg(t);
    } else {
        assert(s.subrange(0, k) =~= s);
    }
}

/// Reads an unsigned 64-bit number, as `str::parse::<u64>` does.
pub fn parse_u64(text: &str) -> (value: Option<u64>)
    ensures value == parse_u64_spec(text@),
{
    let n = text.unicode_len();
    let mut i: usize = 0;
    if n > 0 && text.get_char(0) == '+' {
        i = 1;
    }
    let start = i;
    let ghost body = unsigned_digits(text@);
    assert(body =~= text@.subrange(start as int, n as int));
    if i == n {
        return None;
    }
    let mut acc: u64 = 0;
    assert(text@.subrange(start as int, start as int) =~= Seq::<char>::empty());
    while i < n
        invariant
            n == text@.len(),
            start <= i <= n,
            start < n,
            body == unsigned_digits(text@),
            body == text@.subrange(start as int, n as int),
            all_digits(text@.subrange(start as int, i as int)),
            acc == digits_value(text@.subrange(start as int, i as int)),
        decreases n - i,
    {
        let c = text.get_char(i);
        let ghost prefix = text@.subrange(start as int, i as int);
        let ghost next = text@.subrange(start as int, i + 1);
        assert(next.drop_last() =~= prefix);
        assert(next.last() == c);
        assert(body[i - start] == c);
        if !('0' <= c && c <= '9') {
            assert(!is_digit(body[i - start]));
            assert(!all_digits(body));
            return None;
        }
        let d: u64 = (c as u32 - '0' as u32) as u64;
        assert(d == digit_value(c));
        assert(digits_value(next) == acc * 10 + d);
        assert(all_digits(next)) by {
            assert forall|j: int| 0 <= j < next.len() implies #[trigger] is_digit(next[j]) by {
                if j < next.len() - 1 {
                    assert(next[j] == prefix[j]);
                    assert(is_digit(prefix[j]));
                }
            }
        }
        let step = match acc.checked_mul(10) {
            Some(m) => m.checked_add(d),
            None => None,
        };
        match step {
            Some(v) => {
                acc = v;
            },
            None => {
                proof {
                    assert(acc * 10 + d > u64::MAX);
                    if all_digits(body) {
                        assert(body.subrange(0, i + 1 - start) =~= next);
                        lemma_digits_value_prefix(body, i + 1 - start);
                    }
                }
                return None;
            },
        }
        i = i + 1;
    }
    assert(text@.subrange(start as int, n as int) == body);
    Some(acc)
}

proof fn lemma_digit_char(d: nat)
    requires d < 10,
    ensures
        is_digit(digit_char(d)),
        digit_value(digit_char(d)) == d,
{
}

/// The decimal text of a number is all digits and denotes the number.
pub proof fn lemma_nat_digits_value(m: nat)
    ensures
        all_digits(nat_digits(m)),
        nat_digits(m).len() > 0,
        digits_value(nat_digits(m)) == m,
    decreases m,
{
    if m < 10 {
        lemma_digit_char(m);
        assert(nat_digits(m).drop_last() =~= Seq::<char>::empty());
        assert(nat_digits(m).last() == digit_char(m));
        assert(digits_value(nat_digits(m).drop_last()) == 0);
    } else {
        lemma_nat_digits_value(m / 10);
        lemma_digit_char(m % 10);
        let s = nat_digits(m);
        assert(s.drop_last() =~= nat_digits(m / 10));
        assert(s.last() == digit_char(m % 10));
        assert(m == (m / 10) * 10 + m % 10);
        assert(digits_value(s) == digits_value(s.drop_last()) * 10 + digit_value(s.last()));
        assert forall|i: int| 0 <= i < s.len() implies #[trigger] is_digit(s[i]) by {
            if i < s.len() - 1 {
                assert(s[i] == nat_digits(m / 10)[i]);
            }
        }
    }
}

/// The text `to_string` writes for a number that is not negative reads back, through
/// `parse_u64`, as the same number.
pub proof fn law_decimal_round_trip(n: int)
    requires
        0 <= n <= u64::MAX,
    ensures
        parse_u64_spec(int_text(n)) == Some(n as u64),
{
    lemma_nat_digits_value(n as nat);
    let s = nat_digits(n as nat);
    assert(is_digit(s[0]));
    assert(unsigned_digits(s) == s);
}

} // verus!
