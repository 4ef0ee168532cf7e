//! Character-level helpers on strings, stated over their `Seq<char>` views.
use vstd::prelude::*;

verus! {

/// The characters of a string slice, in order.
pub fn chars_of(s: &str) -> (r: Vec<char>)
    ensures
        r@ == s@,
{
    let mut out: Vec<char> = Vec::new();
    for c in it: s.chars()
        invariant
            out@ == it.seq().take(it.index() as int),
    {
        out.push(c);
    }
    out
}

/// Calls `String::push`. Trusted: the character is appended at the end, as
/// std documents.
#[verifier::external_body]
pub(crate) fn push_char(s: &mut String, c: char)
    ensures
        final(s)@ == old(s)@.push(c),
{
    s.push(c);
}

/// A string holding exactly the given characters.
pub fn string_from_chars(cs: &Vec<char>) -> (r: String)
    ensures
        r@ == cs@,
{
    let mut out = String::new();
    let mut i: usize = 0;
    while i < cs.len()
        invariant
            i <= cs.len(),
            out@ == cs@.take(i as int),
        decreases cs.len() - i,
    {
        push_char(&mut out, cs[i]);
        assert(cs@.take(i as int).push(cs@[i as int]) =~= cs@.take(i + 1));
        i = i + 1;
    }
    assert(cs@.take(cs.len() as int) =~= cs@);
    out
}

/// Appends the characters of `tail` to `s`.
pub fn push_chars(s: &mut String, tail: &Vec<char>)
    ensures
        final(s)@ == old(s)@ + tail@,
{
    let mut i: usize = 0;
    while i < tail.len()
        invariant
            i <= tail.len(),
            s@ == old(s)@ + tail@.take(i as int),
        decreases tail.len() - i,
    {
        push_char(s, tail[i]);
        assert(old(s)@ + tail@.take(i as int).push(tail@[i as int]) =~= old(s)@ + tail@.take(i + 1));
        i = i + 1;
    }
    assert(tail@.take(tail.len() as int) =~= tail@);
}

/// Appends the characters of `tail` to `s`.
pub fn push_str(s: &mut String, tail: &str)
    ensures
        final(s)@ == old(s)@ + tail@,
{
    let cs = chars_of(tail);
    push_chars(s, &cs);
}

/// Two character sequences are equal.
pub fn chars_eq(a: &Vec<char>, b: &Vec<char>) -> (r: bool)
    ensures
        r == (a@ == b@),
{
    if a.len() != b.len() {
        return false;
    }
    let mut i: usize = 0;
    while i < a.len()
        invariant
            a.len() == b.len(),
            i <= a.len(),
            forall|j: int| 0 <= j < i ==> a@[j] == b@[j],
        decreases a.len() - i,
    {
        if a[i] != b[i] {
            return false;
        }
        i = i + 1;
    }
    assert(a@ =~= b@);
    true
}

/// Two string slices hold the same characters.
pub fn str_eq(a: &str, b: &str) -> (r: bool)
    ensures
        r == (a@ == b@),
{
    let ca = chars_of(a);
    let cb = chars_of(b);
    chars_eq(&ca, &cb)
}

/// `needle` occurs in `hay` starting at position `i`.
pub open spec fn occurs_at(hay: Seq<char>, needle: Seq<char>, i: int) -> bool {
    0 <= i && i + needle.len() <= hay.len() && hay.subrange(i, i + needle.len()) == needle
}

/// `needle` occurs somewhere in `hay` (the empty sequence occurs in every one).
pub open spec fn seq_contains(hay: Seq<char>, needle: Seq<char>) -> bool {
    exists|i: int| #[trigger] occurs_at(hay, needle, i)
}

/// `needle` is a prefix of `hay`.
pub open spec fn seq_starts_with(hay: Seq<char>, needle: Seq<char>) -> bool {
    needle.len() <= hay.len() && hay.take(needle.len() as int) == needle
}

fn matches_at(hay: &Vec<char>, needle: &Vec<char>, i: usize) -> (r: bool)
    requires
        i + needle.len() <= hay.len(),
    ensures
        r == occurs_at(hay@, needle@, i as int),
{
    let mut j: usize = 0;
    while j < needle.len()
        invariant
            i + needle.len() <= hay.len(),
            j <= needle.len(),
            forall|k: int| 0 <= k < j ==> hay@[i + k] == needle@[k],
        decreases needle.len() - j,
    {
        if hay[i + j] != needle[j] {
            assert(hay@.subrange(i as int, i + needle.len())[j as int] != needle@[j as int]);
            return false;
        }
        j = j + 1;
    }
    assert(hay@.subrange(i as int, i + needle.len()) =~= needle@);
    true
}

/// `needle` occurs in `hay`.
pub fn vec_contains(hay: &Vec<char>, needle: &Vec<char>) -> (r: bool)
    ensures
        r == seq_contains(hay@, needle@),
{
    if needle.len() > hay.len() {
        assert forall|i: int| !occurs_at(hay@, needle@, i) by {}
        return false;
    }
    let last = hay.len() - needle.len();
    let mut i: usize = 0;
    loop
        invariant
            last == hay.len() - needle.len(),
            needle.len() <= hay.len(),
            i <= last,
            forall|k: int| 0 <= k < i ==> !occurs_at(hay@, needle@, k),
        ensures
            forall|k: int| 0 <= k <= last ==> !occurs_at(hay@, needle@, k),
        decreases last - i,
    {
        if matches_at(hay, needle, i) {
            return true;
        }
        if i == last {
            break;
        }
        i = i + 1;
    }
    assert forall|k: int| !occurs_at(hay@, needle@, k) by {
        if 0 <= k && k + needle.len() <= hay.len() {
            assert(k <= last);
        }
    }
    false
}

/// `hay` begins with `needle`.
pub fn vec_starts_with(hay: &Vec<char>, needle: &Vec<char>) -> (r: bool)
    ensures
        r == seq_starts_with(hay@, needle@),
{
    if needle.len() > hay.len() {
        return false;
    }
    let b = matches_at(hay, needle, 0);
    assert(hay@.subrange(0, needle@.len() as int) =~= hay@.take(needle@.len() as int));
    b
}

/// What `str::to_uppercase` returns for a text.
pub uninterp spec fn spec_to_uppercase(s: Seq<char>) -> Seq<char>;

/// What `str::to_lowercase` returns for a text.
pub uninterp spec fn spec_to_lowercase(s: Seq<char>) -> Seq<char>;

/// Calls `str::to_uppercase`. Trusted: the result is the named Unicode
/// uppercase mapping of the text; nothing more is stated of it.
#[verifier::external_body]
pub(crate) fn to_uppercase(s: &str) -> (r: String)
    ensures
        r@ == spec_to_uppercase(s@),
{
    s.to_uppercase()
}

/// Calls `str::to_lowercase`. Trusted: the result is the named Unicode
/// lowercase mapping of the text; nothing more is stated of it.
#[verifier::external_body]
pub(crate) fn to_lowercase(s: &str) -> (r: String)
    ensures
        r@ == spec_to_lowercase(s@),
{
    s.to_lowercase()
}

/// The decimal digit character for `d`.
pub open spec fn digit_char(d: nat) -> char {
    if d == 0 { '0' } else if d == 1 { '1' } else if d == 2 { '2' } else if d == 3 { '3' }
    else if d == 4 { '4' } else if d == 5 { '5' } else if d == 6 { '6' } else if d == 7 { '7' }
    else if d == 8 { '8' } else { '9' }
}

/// The value of a decimal digit character, if it is one.
pub open spec fn digit_value(c: char) -> Option<nat> {
    if c == '0' { Some(0) } else if c == '1' { Some(1) } else if c == '2' { Some(2) }
    else if c == '3' { Some(3) } else if c == '4' { Some(4) } else if c == '5' { Some(5) }
    else if c == '6' { Some(6) } else if c == '7' { Some(7) } else if c == '8' { Some(8) }
    else if c == '9' { Some(9) } else { None }
}

/// The shortest decimal spelling of `n`, as `Display` writes an unsigned integer.
pub open spec fn decimal(n: nat) -> Seq<char>
    decreases n,
{
    if n < 10 {
        seq![digit_char(n)]
    } else {
        decimal(n / 10).push(digit_char(n % 10))
    }
}

fn digit_to_char(d: u128) -> (c: char)
    requires
        d < 10,
    ensures
        c == digit_char(d as nat),
{
    if d == 0 { '0' } else if d == 1 { '1' } else if d == 2 { '2' } else if d == 3 { '3' }
    else if d == 4 { '4' } else if d == 5 { '5' } else if d == 6 { '6' } else if d == 7 { '7' }
    else if d == 8 { '8' } else { '9' }
}

/// The decimal spelling of `n`, as characters.
pub fn decimal_chars(n: u128) -> (r: Vec<char>)
    ensures
        r@ == decimal(n as nat),
    decreases n,
{
    if n < 10 {
        let mut v = Vec::new();
        v.push(digit_to_char(n));
        v
    } else {
        let mut v = decimal_chars(n / 10);
        v.push(digit_to_char(n % 10));
        v
    }
}

/// The decimal spelling of `n`.
pub fn decimal_string(n: u128) -> (r: String)
    ensures
        r@ == decimal(n as nat),
{
    let cs = decimal_chars(n);
    string_from_chars(&cs)
}

/// The value of a nonempty run of decimal digits (no sign), if every
/// character is a digit.
pub open spec fn digits_value(s: Seq<char>) -> Option<nat>
    decreases s.len(),
{
    if s.len() == 0 {
        Some(0)
    } else {
        match (digits_value(s.drop_last()), digit_value(s.last())) {
            (Some(v), Some(d)) => Some(v * 10 + d),
            _ => None,
        }
    }
}

/// What `str::parse::<u64>` accepts: an optional `+`, then at least one
/// decimal digit and nothing else, with a value that fits in 64 bits.
pub open spec fn spec_parse_u64(s: Seq<char>) -> Option<u64> {
    let body = if s.len() > 0 && s[0] == '+' { s.drop_first() } else { s };
    if body.len() == 0 {
        None
    } else {
        match digits_value(body) {
            Some(v) => if v <= u64::MAX { Some(v as u64) } else { None },
            None => None,
        }
    }
}

proof fn lemma_digits_value_push(s: Seq<char>, c: char)
    ensures
        digits_value(s.push(c)) == (match (digits_value(s), digit_value(c)) {
            (Some(v), Some(d)) => Some(v * 10 + d),
            _ => None::<nat>,
        }),
{
    assert(s.push(c).drop_last() =~= s);
}

fn char_digit(c: char) -> (r: Option<u64>)
    ensures
        r matches Some(d) ==> digit_value(c) == Some(d as nat) && d < 10,
        r is None ==> digit_value(c) is None,
{
    if c == '0' { Some(0) } else if c == '1' { Some(1) } else if c == '2' { Some(2) }
    else if c == '3' { Some(3) } else if c == '4' { Some(4) } else if c == '5' { Some(5) }
    else if c == '6' { Some(6) } else if c == '7' { Some(7) } else if c == '8' { Some(8) }
    else if c == '9' { Some(9) } else { None }
}

proof fn lemma_digits_value_none_extends(s: Seq<char>, t: Seq<char>)
    requires
        digits_value(s) is None,
    ensures
        digits_value(s + t) is None,
    decreases t.len(),
{
    if t.len() == 0 {
        assert(s + t =~= s);
    } else {
        lemma_digits_value_none_extends(s, t.drop_last());
        assert((s + t).drop_last() =~= s + t.drop_last());
    }
}

proof fn lemma_digits_value_grows(s: Seq<char>, t: Seq<char>)
    requires
        digits_value(s + t) is Some,
    ensures
        digits_value(s) is Some,
        digits_value(s)->0 <= digits_value(s + t)->0,
    decreases t.len(),
{
    if t.len() == 0 {
        assert(s + t =~= s);
    } else {
        assert((s + t).drop_last() =~= s + t.drop_last());
        lemma_digits_value_grows(s, t.drop_last());
    }
}

/// Parses a decimal `u64` as `str::parse::<u64>` does.
pub fn parse_u64_chars(s: &Vec<char>) -> (r: Option<u64>)
    ensures
        r == spec_parse_u64(s@),
{
    let start: usize = if s.len() > 0 && s[0] == '+' { 1 } else { 0 };
    let ghost body = if s@.len() > 0 && s@[0] == '+' { s@.drop_first() } else { s@ };
    assert(body =~= s@.subrange(start as int, s@.len() as int));
    if start >= s.len() {
        return None;
    }
    let mut acc: u64 = 0;
    let mut i: usize = start;
    while i < s.len()
        invariant
            start <= i <= s.len(),
            body == s@.subrange(start as int, s@.len() as int),
            body == (if s@.len() > 0 && s@[0] == '+' { s@.drop_first() } else { s@ }),
            body.len() > 0,
            digits_value(s@.subrange(start as int, i as int)) == Some(acc as nat),
        decreases s.len() - i,
    {
        let ghost pre = s@.subrange(start as int, i as int);
        assert(s@.subrange(start as int, i + 1) =~= pre.push(s@[i as int]));
        proof { lemma_digits_value_push(pre, s@[i as int]); }
        match char_digit(s[i]) {
            None => {
                proof {
                    lemma_digits_value_none_extends(
                        s@.subrange(start as int, i + 1),
                        s@.subrange(i + 1, s@.len() as int),
                    );
                    assert(s@.subrange(start as int, i + 1) + s@.subrange(i + 1, s@.len() as int)
                        =~= body);
                }
                return None;
            },
            Some(d) => {
                if acc > (u64::MAX - d) / 10 {
                    proof {
                        assert(acc * 10 + d > u64::MAX) by (nonlinear_arith)
                            requires acc > (u64::MAX - d) / 10, d < 10;
                        let rest = s@.subrange(i + 1, s@.len() as int);
                        assert(s@.subrange(start as int, i + 1) + rest =~= body);
                        if digits_value(body) is Some {
                            lemma_digits_value_grows(s@.subrange(start as int, i + 1), rest);
                        }
                    }
                    return None;
                }
                proof {
                    assert(acc * 10 + d <= u64::MAX) by (nonlinear_arith)
                        requires acc <= (u64::MAX - d) / 10, d < 10;
                }
                acc = acc * 10 + d;
            },
        }
        i = i + 1;
    }
    assert(s@.subrange(start as int, s@.len() as int) =~= body);
    Some(acc)
}

/// `a` comes strictly before `b` in the order of `String`'s `Ord` (character
/// by character by code point, a proper prefix first).
pub open spec fn lex_lt(a: Seq<char>, b: Seq<char>) -> bool {
    exists|k: int| 0 <= k <= a.len() && k <= b.len() && #[trigger] a.take(k) == b.take(k)
        && ((k < a.len() && k < b.len() && (a[k] as u32) < (b[k] as u32)) || (k == a.len() && k < b.len()))
}

/// Where `a` and `b` first differ (the shorter length when one is a prefix).
fn first_difference(a: &Vec<char>, b: &Vec<char>) -> (k: usize)
    ensures
        k <= a.len(),
        k <= b.len(),
        a@.take(k as int) == b@.take(k as int),
        k < a.len() && k < b.len() ==> a@[k as int] != b@[k as int],
{
    let mut k: usize = 0;
    while k < a.len() && k < b.len() && a[k] == b[k]
        invariant
            k <= a.len(),
            k <= b.len(),
            a@.take(k as int) == b@.take(k as int),
        decreases a.len() - k,
    {
        assert(a@.take(k + 1) =~= a@.take(k as int).push(a@[k as int]));
        assert(b@.take(k + 1) =~= b@.take(k as int).push(b@[k as int]));
        k = k + 1;
    }
    k
}

proof fn lemma_lex_lt_at(a: Seq<char>, b: Seq<char>, k: int)
    requires
        0 <= k <= a.len(),
        k <= b.len(),
        a.take(k) == b.take(k),
        k < a.len() && k < b.len() ==> a[k] != b[k],
    ensures
        lex_lt(a, b) == ((k < a.len() && k < b.len() && (a[k] as u32) < (b[k] as u32)) || (k == a.len() && k < b.len())),
{
    if lex_lt(a, b) {
        let j = choose|j: int| 0 <= j <= a.len() && j <= b.len() && #[trigger] a.take(j) == b.take(j)
            && ((j < a.len() && j < b.len() && (a[j] as u32) < (b[j] as u32)) || (j == a.len() && j < b.len()));
        if j < k {
            assert(a.take(k)[j] == a[j]);
            assert(b.take(k)[j] == b[j]);
        } else if j > k {
            assert(a.take(j)[k] == a[k]);
            assert(b.take(j)[k] == b[k]);
        }
    }
}

/// `a` comes strictly before `b` as strings.
pub fn vec_lex_lt(a: &Vec<char>, b: &Vec<char>) -> (r: bool)
    ensures
        r == lex_lt(a@, b@),
{
    let k = first_difference(a, b);
    proof { lemma_lex_lt_at(a@, b@, k as int); }
    if k < a.len() && k < b.len() {
        (a[k] as u32) < (b[k] as u32)
    } else {
        k == a.len() && k < b.len()
    }
}

/// `a` comes strictly before `b` as strings.
pub fn str_lt(a: &str, b: &str) -> (r: bool)
    ensures
        r == lex_lt(a@, b@),
{
    let ca = chars_of(a);
    let cb = chars_of(b);
    vec_lex_lt(&ca, &cb)
}

/// The longest common prefix of `a` and `b` that extends one of length `k`.
proof fn lemma_common_prefix(a: Seq<char>, b: Seq<char>, k: int) -> (j: int)
    requires
        0 <= k <= a.len(),
        k <= b.len(),
        a.take(k) == b.take(k),
    ensures
        k <= j <= a.len(),
        j <= b.len(),
        a.take(j) == b.take(j),
        j < a.len() && j < b.len() ==> a[j] != b[j],
    decreases a.len() - k,
{
    if k < a.len() && k < b.len() && a[k] == b[k] {
        assert(a.take(k + 1) =~= a.take(k).push(a[k]));
        assert(b.take(k + 1) =~= b.take(k).push(b[k]));
        lemma_common_prefix(a, b, k + 1)
    } else {
        k
    }
}

/// The string order is a strict total order: irreflexive, asymmetric,
/// total on distinct strings, and transitive.
pub proof fn lemma_lex_lt_total(a: Seq<char>, b: Seq<char>)
    ensures
        !lex_lt(a, a),
        lex_lt(a, b) ==> !lex_lt(b, a),
        a != b ==> lex_lt(a, b) || lex_lt(b, a),
{
    assert(a.take(0) =~= b.take(0));
    let j = lemma_common_prefix(a, b, 0);
    assert(b.take(j) == a.take(j));
    lemma_lex_lt_at(a, b, j);
    lemma_lex_lt_at(b, a, j);
    assert(a.take(0) =~= a.take(0));
    let i = lemma_common_prefix(a, a, 0);
    lemma_lex_lt_at(a, a, i);
    if j == a.len() && j == b.len() {
        assert(a =~= a.take(j));
        assert(b =~= b.take(j));
    } else if j < a.len() && j < b.len() {
        let x = a[j];
        let y = b[j];
        vstd::utf8::char_u32_cast(x, x as u32);
        vstd::utf8::char_u32_cast(y, y as u32);
        assert((x as u32) != (y as u32));
    }
}

/// The string order is transitive.
pub proof fn lemma_lex_lt_trans(a: Seq<char>, b: Seq<char>, c: Seq<char>)
    requires
        lex_lt(a, b),
        lex_lt(b, c),
    ensures
        lex_lt(a, c),
{
    let k1 = choose|k: int| 0 <= k <= a.len() && k <= b.len() && #[trigger] a.take(k) == b.take(k)
        && ((k < a.len() && k < b.len() && (a[k] as u32) < (b[k] as u32)) || (k == a.len() && k < b.len()));
    let k2 = choose|k: int| 0 <= k <= b.len() && k <= c.len() && #[trigger] b.take(k) == c.take(k)
        && ((k < b.len() && k < c.len() && (b[k] as u32) < (c[k] as u32)) || (k == b.len() && k < c.len()));
    if k1 < k2 {
        assert(b.take(k1) =~= b.take(k2).take(k1));
        assert(c.take(k1) =~= c.take(k2).take(k1));
        assert(b.take(k2)[k1] == b[k1]);
        assert(c.take(k2)[k1] == c[k1]);
        assert(a.take(k1) == c.take(k1));
    } else if k2 < k1 {
        assert(a.take(k2) =~= a.take(k1).take(k2));
        assert(b.take(k2) =~= b.take(k1).take(k2));
        assert(a.take(k1)[k2] == a[k2]);
        assert(b.take(k1)[k2] == b[k2]);
        assert(a.take(k2) == c.take(k2));
    } else {
        assert(a.take(k1) == c.take(k1));
    }
}

/// The pieces of `s` between occurrences of `sep`, as `str::split` with a
/// character pattern yields them (an empty text gives one empty piece).
pub open spec fn split_on(s: Seq<char>, sep: char) -> Seq<Seq<char>>
    decreases s.len(),
{
    if s.len() == 0 {
        seq![Seq::<char>::empty()]
    } else {
        let init = split_on(s.drop_last(), sep);
        if s.last() == sep {
            init.push(Seq::<char>::empty())
        } else {
            init.update(init.len() - 1, init.last().push(s.last()))
        }
    }
}

proof fn lemma_split_on_nonempty(s: Seq<char>, sep: char)
    ensures
        split_on(s, sep).len() >= 1,
    decreases s.len(),
{
    if s.len() > 0 {
        lemma_split_on_nonempty(s.drop_last(), sep);
    }
}

/// The views of a list of character vectors.
pub open spec fn views_of(v: Seq<Vec<char>>) -> Seq<Seq<char>> {
    v.map_values(|x: Vec<char>| x@)
}

/// Splits the characters at every `sep`, as `str::split` does.
pub fn split_chars(s: &Vec<char>, sep: char) -> (r: Vec<Vec<char>>)
    ensures
        views_of(r@) == split_on(s@, sep),
        r@.len() >= 1,
{
    let mut parts: Vec<Vec<char>> = Vec::new();
    let mut cur: Vec<char> = Vec::new();
    let mut i: usize = 0;
    while i < s.len()
        invariant
            i <= s.len(),
            views_of(parts@).push(cur@) == split_on(s@.take(i as int), sep),
        decreases s.len() - i,
    {
        let c = s[i];
        let ghost pre = s@.take(i as int);
        assert(s@.take(i + 1).drop_last() =~= pre);
        assert(s@.take(i + 1).last() == c);
        if c == sep {
            let mut done: Vec<char> = Vec::new();
            std::mem::swap(&mut done, &mut cur);
            let ghost before = views_of(parts@);
            parts.push(done);
            assert(views_of(parts@) =~= before.push(done@));
            assert(views_of(parts@).push(cur@) =~= split_on(pre, sep).push(Seq::<char>::empty()));
        } else {
            let ghost cur_before = cur@;
            cur.push(c);
            proof { lemma_split_on_nonempty(pre, sep); }
            assert(views_of(parts@).push(cur@) =~= split_on(pre, sep).update(split_on(pre, sep).len() - 1,
                split_on(pre, sep).last().push(c)));
        }
        i = i + 1;
    }
    assert(s@.take(s.len() as int) =~= s@);
    let ghost before = views_of(parts@);
    parts.push(cur);
    assert(views_of(parts@) =~= before.push(cur@));
    parts
}

/// A character of Unicode's `White_Space` property, which `char::is_whitespace`
/// and `str::trim` go by.
pub open spec fn is_unicode_space(c: char) -> bool {
    let u = c as u32;
    ||| 0x09 <= u <= 0x0D
    ||| u == 0x20
    ||| u == 0x85
    ||| u == 0xA0
    ||| u == 0x1680
    ||| 0x2000 <= u <= 0x200A
    ||| u == 0x2028
    ||| u == 0x2029
    ||| u == 0x202F
    ||| u == 0x205F
    ||| u == 0x3000
}

/// Whether `c` is white space (see `is_unicode_space`).
pub fn is_space(c: char) -> (r: bool)
    ensures
        r == is_unicode_space(c),
{
    let u = c as u32;
    (0x09 <= u && u <= 0x0D) || u == 0x20 || u == 0x85 || u == 0xA0 || u == 0x1680
        || (0x2000 <= u && u <= 0x200A) || u == 0x2028 || u == 0x2029 || u == 0x202F
        || u == 0x205F || u == 0x3000
}

/// `s` without its leading white space.
pub open spec fn trim_start(s: Seq<char>) -> Seq<char>
    decreases s.len(),
{
    if s.len() > 0 && is_unicode_space(s[0]) { trim_start(s.drop_first()) } else { s }
}

/// `s` without its trailing white space.
pub open spec fn trim_end(s: Seq<char>) -> Seq<char>
    decreases s.len(),
{
    if s.len() > 0 && is_unicode_space(s.last()) { trim_end(s.drop_last()) } else { s }
}

/// `s` without leading and trailing white space, as `str::trim` gives it.
pub open spec fn spec_trim(s: Seq<char>) -> Seq<char> {
    trim_end(trim_start(s))
}

proof fn lemma_trim_start_from(s: Seq<char>, i: int)
    requires
        0 <= i <= s.len(),
        forall|j: int| 0 <= j < i ==> is_unicode_space(#[trigger] s[j]),
    ensures
        trim_start(s) == trim_start(s.skip(i)),
    decreases i,
{
    if i > 0 {
        assert(is_unicode_space(s[0]));
        assert(s.drop_first().skip(i - 1) =~= s.skip(i));
        assert forall|j: int| 0 <= j < i - 1 implies is_unicode_space(#[trigger] s.drop_first()[j]) by {
            assert(s.drop_first()[j] == s[j + 1]);
        }
        lemma_trim_start_from(s.drop_first(), i - 1);
    } else {
        assert(s.skip(0) =~= s);
    }
}

proof fn lemma_trim_end_to(s: Seq<char>, i: int)
    requires
        0 <= i <= s.len(),
        forall|j: int| i <= j < s.len() ==> is_unicode_space(#[trigger] s[j]),
    ensures
        trim_end(s) == trim_end(s.take(i)),
    decreases s.len() - i,
{
    if i < s.len() {
        assert(s.drop_last().take(i) =~= s.take(i));
        lemma_trim_end_to(s.drop_last(), i);
    } else {
        assert(s.take(i) =~= s);
    }
}

/// The characters of `s` without leading and trailing white space.
pub fn trim_chars(s: &Vec<char>) -> (r: Vec<char>)
    ensures
        r@ == spec_trim(s@),
{
    let mut start: usize = 0;
    while start < s.len() && is_space(s[start])
        invariant
            start <= s.len(),
            forall|j: int| 0 <= j < start ==> is_unicode_space(#[trigger] s@[j]),
        decreases s.len() - start,
    {
        start = start + 1;
    }
    proof { lemma_trim_start_from(s@, start as int); }
    let ghost rest = s@.skip(start as int);
    assert(trim_start(rest) == rest);
    let mut end: usize = s.len();
    while end > start && is_space(s[end - 1])
        invariant
            start <= end <= s.len(),
            rest == s@.skip(start as int),
            forall|j: int| end - start <= j < rest.len() ==> is_unicode_space(#[trigger] rest[j]),
        decreases end,
    {
        end = end - 1;
    }
    proof {
        lemma_trim_end_to(rest, end - start);
        let t = rest.take(end - start);
        if t.len() > 0 {
            assert(t.last() == s@[end - 1]);
        }
    }
    let mut out: Vec<char> = Vec::new();
    let mut i: usize = start;
    while i < end
        invariant
            start <= i <= end <= s.len(),
            out@ == s@.subrange(start as int, i as int),
        decreases end - i,
    {
        out.push(s[i]);
        assert(s@.subrange(start as int, i + 1) =~= s@.subrange(start as int, i as int).push(s@[i as int]));
        i = i + 1;
    }
    assert(out@ =~= rest.take(end - start));
    out
}

/// Parses a decimal `u32` as `str::parse::<u32>` does.
pub open spec fn spec_parse_u32(s: Seq<char>) -> Option<u32> {
    match spec_parse_u64(s) {
        Some(v) => if v <= u32::MAX { Some(v as u32) } else { None },
        None => None,
    }
}

/// Parses a decimal `u32` (see `spec_parse_u32`).
pub fn parse_u32_chars(s: &Vec<char>) -> (r: Option<u32>)
    ensures
        r == spec_parse_u32(s@),
{
    match parse_u64_chars(s) {
        Some(v) => if v <= 0xFFFF_FFFF { Some(v as u32) } else { None },
        None => None,
    }
}

/// The position of the first `c` in `s`, if any.
pub open spec fn first_index_of(s: Seq<char>, c: char) -> Option<int> {
    if exists|i: int| 0 <= i < s.len() && s[i] == c {
        Some(choose|i: int| 0 <= i < s.len() && s[i] == c && forall|j: int| 0 <= j < i ==> s[j] != c)
    } else {
        None
    }
}

/// The position of the first `c` in `s` (see `first_index_of`).
pub fn find_char(s: &Vec<char>, c: char) -> (r: Option<usize>)
    ensures
        r matches Some(i) ==> i < s@.len() && first_index_of(s@, c) == Some(i as int),
        r is None ==> first_index_of(s@, c) is None,
{
    let mut i: usize = 0;
    while i < s.len()
        invariant
            i <= s.len(),
            forall|j: int| 0 <= j < i ==> s@[j] != c,
        decreases s.len() - i,
    {
        if s[i] == c {
            proof {
                let w = choose|k: int| 0 <= k < s@.len() && s@[k] == c && forall|j: int| 0 <= j < k ==> s@[j] != c;
                assert(0 <= i < s@.len() && s@[i as int] == c && forall|j: int| 0 <= j < i ==> s@[j] != c);
                if w < i {
                } else if w > i {
                    assert(s@[i as int] != c);
                }
            }
            return Some(i);
        }
        i = i + 1;
    }
    None
}

/// The characters of `s` from `start` up to `end`.
pub fn slice_chars(s: &Vec<char>, start: usize, end: usize) -> (r: Vec<char>)
    requires
        start <= end <= s.len(),
    ensures
        r@ == s@.subrange(start as int, end as int),
{
    let mut out: Vec<char> = Vec::new();
    let mut i: usize = start;
    while i < end
        invariant
            start <= i <= end <= s.len(),
            out@ == s@.subrange(start as int, i as int),
        decreases end - i,
    {
        out.push(s[i]);
        assert(s@.subrange(start as int, i + 1) =~= s@.subrange(start as int, i as int).push(s@[i as int]));
        i = i + 1;
    }
    out
}

} // verus!
