//! Text helpers shared by the other modules: trimming, line splitting, ASCII
//! case folding, decimal rendering and the order of texts, each stated over
//! the sequence of characters of a text.

use vstd::prelude::*;
use vstd::string::StringExecFns;

verus! {

/// Whether `c` is whitespace: one of the characters with the Unicode
/// property `White_Space`.
pub open spec fn char_is_whitespace(c: char) -> bool {
    ||| c == ' '
    ||| '\u{9}' <= c <= '\u{d}'
    ||| c == '\u{85}'
    ||| c == '\u{a0}'
    ||| c == '\u{1680}'
    ||| '\u{2000}' <= c <= '\u{200a}'
    ||| c == '\u{2028}'
    ||| c == '\u{2029}'
    ||| c == '\u{202f}'
    ||| c == '\u{205f}'
    ||| c == '\u{3000}'
}

/// Whether `c` is whitespace.
pub fn is_whitespace(c: char) -> (r: bool)
    ensures
        r == char_is_whitespace(c),
{
    c == ' ' || ('\u{9}' <= c && c <= '\u{d}') || c == '\u{85}' || c == '\u{a0}' || c
        == '\u{1680}' || ('\u{2000}' <= c && c <= '\u{200a}') || c == '\u{2028}' || c
        == '\u{2029}' || c == '\u{202f}' || c == '\u{205f}' || c == '\u{3000}'
}

/// `String::push`: the string grows by exactly the character given.
#[verifier::external_body]
pub(crate) fn push_char(s: &mut String, c: char)
    ensures
        final(s)@ == old(s)@.push(c),
{
    s.push(c)
}

/// `<str as PartialEq>::eq`: two string slices are equal exactly when they
/// hold the same characters.
pub assume_specification[ <str as PartialEq>::eq ](a: &str, b: &str) -> (r: bool)
    ensures
        r == (a@ == b@),
;

/// Whether two string slices hold the same characters.
pub fn same_text(a: &str, b: &str) -> (r: bool)
    ensures
        r == (a@ == b@),
{
    a.eq(b)
}

/// Number of whitespace characters at the front of `s`.
pub open spec fn leading_whitespace(s: Seq<char>) -> nat
    decreases s.len(),
{
    if s.len() > 0 && char_is_whitespace(s[0]) {
        1 + leading_whitespace(s.drop_first())
    } else {
        0
    }
}

/// Number of whitespace characters at the back of `s`.
pub open spec fn trailing_whitespace(s: Seq<char>) -> nat
    decreases s.len(),
{
    if s.len() > 0 && char_is_whitespace(s.last()) {
        1 + trailing_whitespace(s.drop_last())
    } else {
        0
    }
}

/// `s` without its trailing whitespace.
pub open spec fn trimmed_end(s: Seq<char>) -> Seq<char> {
    s.take(s.len() - trailing_whitespace(s))
}

/// `s` without its leading whitespace.
pub open spec fn trimmed_start(s: Seq<char>) -> Seq<char> {
    s.skip(leading_whitespace(s) as int)
}

/// `s` without leading and trailing whitespace.
pub open spec fn trimmed(s: Seq<char>) -> Seq<char> {
    trimmed_end(trimmed_start(s))
}

/// The leading whitespace of `s` is its first `k` characters as soon as those
/// are whitespace and the next one, if any, is not.
pub proof fn lemma_leading_whitespace(s: Seq<char>, k: int)
    requires
        0 <= k <= s.len(),
        forall|i: int| 0 <= i < k ==> char_is_whitespace(#[trigger] s[i]),
        k < s.len() ==> !char_is_whitespace(s[k]),
    ensures
        leading_whitespace(s) == k,
    decreases s.len(),
{
    if k > 0 {
        let rest = s.drop_first();
        assert forall|i: int| 0 <= i < k - 1 implies char_is_whitespace(#[trigger] rest[i]) by {
            assert(rest[i] == s[i + 1]);
        }
        if k - 1 < rest.len() {
            assert(rest[k - 1] == s[k]);
        }
        lemma_leading_whitespace(rest, k - 1);
    }
}

/// The trailing whitespace of `s` is everything from `k` on as soon as those
/// characters are whitespace and the one before them, if any, is not.
pub proof fn lemma_trailing_whitespace(s: Seq<char>, k: int)
    requires
        0 <= k <= s.len(),
        forall|i: int| k <= i < s.len() ==> char_is_whitespace(#[trigger] s[i]),
        k > 0 ==> !char_is_whitespace(s[k - 1]),
    ensures
        trailing_whitespace(s) == s.len() - k,
    decreases s.len(),
{
    if k < s.len() {
        let rest = s.drop_last();
        assert forall|i: int| k <= i < rest.len() implies char_is_whitespace(#[trigger] rest[i]) by {
            assert(rest[i] == s[i]);
        }
        if k > 0 {
            assert(rest[k - 1] == s[k - 1]);
        }
        lemma_trailing_whitespace(rest, k);
    }
}

/// The characters of `s`, one by one.
pub fn to_chars(s: &str) -> (r: Vec<char>)
    ensures
        r@ == s@,
{
    let mut out: Vec<char> = Vec::new();
    for c in it: s.chars()
        invariant
            it.seq() == s@,
            out@ == s@.take(it.index() as int),
    {
        out.push(c);
    }
    out
}

/// The string made of `v[from..to]`.
pub fn string_of(v: &Vec<char>, from: usize, to: usize) -> (r: String)
    requires
        from <= to <= v.len(),
    ensures
        r@ == v@.subrange(from as int, to as int),
{
    let mut out = String::new();
    let mut i: usize = from;
    while i < to
        invariant
            from <= i <= to <= v.len(),
            out@ == v@.subrange(from as int, i as int),
        decreases to - i,
    {
        push_char(&mut out, v[i]);
        i += 1;
    }
    out
}

/// `s` without its trailing whitespace.
pub fn trim_end(s: &str) -> (r: String)
    ensures
        r@ == trimmed_end(s@),
{
    let chars = to_chars(s);
    let mut end: usize = 0;
    let mut i: usize = 0;
    while i < chars.len()
        invariant
            end <= i <= chars.len(),
            end > 0 ==> !char_is_whitespace(chars@[end - 1]),
            forall|j: int| end <= j < i ==> char_is_whitespace(#[trigger] chars@[j]),
        decreases chars.len() - i,
    {
        if !is_whitespace(chars[i]) {
            end = i + 1;
        }
        i += 1;
    }
    proof {
        lemma_trailing_whitespace(chars@, end as int);
    }
    string_of(&chars, 0, end)
}

/// `s` without leading and trailing whitespace.
pub fn trim(s: &str) -> (r: String)
    ensures
        r@ == trimmed(s@),
{
    let chars = to_chars(s);
    let mut start: usize = 0;
    while start < chars.len() && is_whitespace(chars[start])
        invariant
            start <= chars.len(),
            forall|j: int| 0 <= j < start ==> char_is_whitespace(#[trigger] chars@[j]),
        decreases chars.len() - start,
    {
        start += 1;
    }
    let mut end: usize = start;
    let mut i: usize = start;
    while i < chars.len()
        invariant
            start <= end <= i <= chars.len(),
            end > start ==> !char_is_whitespace(chars@[end - 1]),
            forall|j: int| end <= j < i ==> char_is_whitespace(#[trigger] chars@[j]),
        decreases chars.len() - i,
    {
        if !is_whitespace(chars[i]) {
            end = i + 1;
        }
        i += 1;
    }
    proof {
        lemma_leading_whitespace(chars@, start as int);
        let rest = chars@.skip(start as int);
        assert forall|j: int| end - start <= j < rest.len() implies char_is_whitespace(
            #[trigger] rest[j],
        ) by {
            assert(rest[j] == chars@[j + start]);
        }
        if end > start {
            assert(rest[end - start - 1] == chars@[end - 1]);
        }
        lemma_trailing_whitespace(rest, end - start);
        assert(rest.take(end - start) =~= chars@.subrange(start as int, end as int));
    }
    string_of(&chars, start, end)
}

/// Length of the first line of `s`: the position of its first line feed, or
/// its whole length where it holds none.
pub open spec fn first_line_len(s: Seq<char>) -> nat
    decreases s.len(),
{
    if s.len() == 0 || s[0] == '\n' {
        0
    } else {
        1 + first_line_len(s.drop_first())
    }
}

/// The pieces of `s` between its line feeds, in order. A text without a line
/// feed is one piece; a text that ends in a line feed ends in an empty piece.
pub open spec fn line_pieces(s: Seq<char>) -> Seq<Seq<char>>
    decreases s.len(),
{
    let n = first_line_len(s);
    if n >= s.len() {
        seq![s]
    } else {
        seq![s.take(n as int)] + line_pieces(s.skip(n as int + 1))
    }
}

/// The first line of `s` ends at `k` as soon as no line feed stands before
/// `k` and one stands at `k`, or `s` ends there.
pub proof fn lemma_first_line_len(s: Seq<char>, k: int)
    requires
        0 <= k <= s.len(),
        forall|i: int| 0 <= i < k ==> #[trigger] s[i] != '\n',
        k < s.len() ==> s[k] == '\n',
    ensures
        first_line_len(s) == k,
    decreases s.len(),
{
    if k > 0 {
        let rest = s.drop_first();
        assert forall|i: int| 0 <= i < k - 1 implies #[trigger] rest[i] != '\n' by {
            assert(rest[i] == s[i + 1]);
        }
        if k - 1 < rest.len() {
            assert(rest[k - 1] == s[k]);
        }
        lemma_first_line_len(rest, k - 1);
    }
}

/// The view of an optional string.
pub open spec fn text_of(s: Option<String>) -> Option<Seq<char>> {
    match s {
        Some(t) => Some(t@),
        None => None,
    }
}

/// The view of an optional string slice.
pub open spec fn text_of_slice(s: Option<&str>) -> Option<Seq<char>> {
    match s {
        Some(t) => Some(t@),
        None => None,
    }
}

/// The views of a vector of strings.
pub open spec fn views(v: Seq<String>) -> Seq<Seq<char>> {
    v.map_values(|s: String| s@)
}

/// Splits `s` at its line feeds.
pub fn split_lines(s: &str) -> (r: Vec<String>)
    ensures
        views(r@) == line_pieces(s@),
{
    let chars = to_chars(s);
    let mut out: Vec<String> = Vec::new();
    let mut start: usize = 0;
    let mut i: usize = 0;
    proof {
        assert(chars@.skip(0) =~= chars@);
        assert(views(out@) + line_pieces(chars@) =~= line_pieces(chars@));
    }
    while i < chars.len()
        invariant
            start <= i <= chars.len(),
            forall|j: int| start <= j < i ==> #[trigger] chars@[j] != '\n',
            views(out@) + line_pieces(chars@.skip(start as int)) == line_pieces(chars@),
        decreases chars.len() - i,
    {
        if chars[i] == '\n' {
            let piece = string_of(&chars, start, i);
            proof {
                let rest = chars@.skip(start as int);
                assert forall|j: int| 0 <= j < i - start implies #[trigger] rest[j] != '\n' by {
                    assert(rest[j] == chars@[j + start]);
                }
                assert(rest[i - start] == chars@[i as int]);
                lemma_first_line_len(rest, i - start);
                assert(rest.take(i - start) =~= chars@.subrange(start as int, i as int));
                assert(rest.skip(i - start + 1) =~= chars@.skip(i + 1));
                assert(views(out@.push(piece)) =~= views(out@) + seq![piece@]);
            }
            out.push(piece);
            start = i + 1;
        }
        i += 1;
    }
    let piece = string_of(&chars, start, i);
    proof {
        let rest = chars@.skip(start as int);
        assert forall|j: int| 0 <= j < rest.len() implies #[trigger] rest[j] != '\n' by {
            assert(rest[j] == chars@[j + start]);
        }
        lemma_first_line_len(rest, rest.len() as int);
        assert(rest =~= chars@.subrange(start as int, i as int));
        assert(views(out@.push(piece)) =~= views(out@) + seq![piece@]);
    }
    out.push(piece);
    out
}

/// The lines put together again, a line feed between every two of them.
pub open spec fn joined_lines(lines: Seq<Seq<char>>) -> Seq<char>
    decreases lines.len(),
{
    if lines.len() == 0 {
        Seq::empty()
    } else if lines.len() == 1 {
        lines[0]
    } else {
        joined_lines(lines.drop_last()) + seq!['\n'] + lines.last()
    }
}

/// Puts lines together again, a line feed between every two of them.
pub fn join_lines(lines: &Vec<String>) -> (text: String)
    ensures
        text@ == joined_lines(views(lines@)),
{
    let ghost all = views(lines@);
    let mut text = String::new();
    let mut i: usize = 0;
    while i < lines.len()
        invariant
            i <= lines@.len(),
            all == views(lines@),
            text@ == joined_lines(all.take(i as int)),
        decreases lines@.len() - i,
    {
        proof {
            let next = all.take(i + 1);
            assert(next.drop_last() =~= all.take(i as int));
            assert(next.last() == lines@[i as int]@);
            if i == 0 {
                assert(text@ + lines@[i as int]@ =~= next[0]);
            }
        }
        if i > 0 {
            push_char(&mut text, '\n');
        }
        text.append(lines[i].as_str());
        i += 1;
    }
    proof {
        assert(all.take(lines@.len() as int) =~= all);
    }
    text
}

/// `c` with an ASCII capital letter turned into its small letter.
pub open spec fn ascii_lower(c: char) -> char {
    if 'A' <= c <= 'Z' {
        ((c as u8) + 32) as char
    } else {
        c
    }
}

/// `s` with its ASCII capital letters turned into small letters.
pub open spec fn ascii_lowercase(s: Seq<char>) -> Seq<char> {
    s.map_values(|c: char| ascii_lower(c))
}

/// `c` with an ASCII capital letter turned into its small letter.
pub fn to_ascii_lower(c: char) -> (r: char)
    ensures
        r == ascii_lower(c),
{
    if 'A' <= c && c <= 'Z' {
        ((c as u8) + 32) as char
    } else {
        c
    }
}

/// `s` with its ASCII capital letters turned into small letters.
pub fn to_ascii_lowercase(s: &str) -> (r: String)
    ensures
        r@ == ascii_lowercase(s@),
{
    let mut out = String::new();
    for c in it: s.chars()
        invariant
            it.seq() == s@,
            out@ == ascii_lowercase(s@.take(it.index() as int)),
    {
        proof {
            assert(ascii_lowercase(s@.take(it.index() + 1)) =~= ascii_lowercase(
                s@.take(it.index() as int),
            ).push(ascii_lower(c)));
        }
        push_char(&mut out, to_ascii_lower(c));
    }
    proof {
        assert(s@.take(s@.len() as int) =~= s@);
    }
    out
}

/// The decimal digit for `d`.
pub open spec fn digit(d: nat) -> char
    recommends
        d < 10,
{
    ((d + 48) as u8) as char
}

/// `n` in decimal digits, without a sign or leading zeros.
pub open spec fn decimal(n: nat) -> Seq<char>
    decreases n,
{
    if n < 10 {
        seq![digit(n)]
    } else {
        decimal(n / 10).push(digit(n % 10))
    }
}

/// `n` in decimal digits, with a minus sign where it is negative.
pub open spec fn signed_decimal(n: int) -> Seq<char> {
    if n < 0 {
        seq!['-'] + decimal((-n) as nat)
    } else {
        decimal(n as nat)
    }
}

/// Appends `n` in decimal digits to `out`.
pub fn push_decimal(out: &mut String, n: u64)
    ensures
        final(out)@ == old(out)@ + decimal(n as nat),
    decreases n,
{
    if n >= 10 {
        push_decimal(out, n / 10);
    }
    let d: u8 = (n % 10) as u8;
    push_char(out, (d + 48) as char);
    proof {
        if n >= 10 {
            assert(old(out)@ + decimal(n as nat) =~= (old(out)@ + decimal((n / 10) as nat)).push(
                digit((n % 10) as nat),
            ));
        } else {
            assert(old(out)@ + decimal(n as nat) =~= old(out)@.push(digit(n as nat)));
        }
    }
}

/// Appends `n` in decimal digits to `out`, with a minus sign where it is
/// negative.
pub fn push_signed_decimal(out: &mut String, n: i32)
    ensures
        final(out)@ == old(out)@ + signed_decimal(n as int),
{
    if n < 0 {
        push_char(out, '-');
        let magnitude: u64 = (-(n as i64)) as u64;
        push_decimal(out, magnitude);
        proof {
            assert(old(out)@ + signed_decimal(n as int) =~= old(out)@.push('-') + decimal(
                magnitude as nat,
            ));
        }
    } else {
        push_decimal(out, n as u64);
    }
}

/// `n` in decimal digits.
pub fn decimal_string(n: u64) -> (r: String)
    ensures
        r@ == decimal(n as nat),
{
    let mut out = String::new();
    push_decimal(&mut out, n);
    proof {
        assert(Seq::<char>::empty() + decimal(n as nat) =~= decimal(n as nat));
    }
    out
}

/// Whether `a` comes before `b` or is `b`, comparing character by character;
/// a text comes before every text that it begins.
pub open spec fn text_le(a: Seq<char>, b: Seq<char>) -> bool
    decreases a.len(),
{
    if a.len() == 0 {
        true
    } else if b.len() == 0 {
        false
    } else if a[0] != b[0] {
        a[0] < b[0]
    } else {
        text_le(a.drop_first(), b.drop_first())
    }
}

/// Of two texts one comes before the other or they are the same.
pub proof fn lemma_text_le_total(a: Seq<char>, b: Seq<char>)
    ensures
        text_le(a, b) || text_le(b, a),
        text_le(a, b) && text_le(b, a) ==> a == b,
    decreases a.len(),
{
    if a.len() > 0 && b.len() > 0 && a[0] == b[0] {
        lemma_text_le_total(a.drop_first(), b.drop_first());
        if text_le(a, b) && text_le(b, a) {
            assert(a =~= seq![a[0]] + a.drop_first());
            assert(b =~= seq![b[0]] + b.drop_first());
        }
    } else if a.len() == 0 && b.len() == 0 {
        assert(a =~= b);
    }
}

/// What comes before something that comes before a third comes before the
/// third.
pub proof fn lemma_text_le_transitive(a: Seq<char>, b: Seq<char>, c: Seq<char>)
    requires
        text_le(a, b),
        text_le(b, c),
    ensures
        text_le(a, c),
    decreases a.len(),
{
    if a.len() > 0 && b.len() > 0 && c.len() > 0 && a[0] == b[0] && b[0] == c[0] {
        lemma_text_le_transitive(a.drop_first(), b.drop_first(), c.drop_first());
    }
}

/// The names stand in ascending order.
pub open spec fn names_ascend(names: Seq<Seq<char>>) -> bool {
    forall|i: int, j: int| 0 <= i <= j < names.len() ==> text_le(names[i], names[j])
}

/// Two lists in ascending order that hold the same names, each as often, are
/// the same list.
pub proof fn ascending_names_are_unique(x: Seq<Seq<char>>, y: Seq<Seq<char>>)
    requires
        names_ascend(x),
        names_ascend(y),
        x.to_multiset() == y.to_multiset(),
    ensures
        x == y,
{
    let leq = |a: Seq<char>, b: Seq<char>| text_le(a, b);
    assert(vstd::relations::total_ordering(leq)) by {
        assert forall|a: Seq<char>| #[trigger] leq(a, a) by {
            lemma_text_le_total(a, a);
        }
        assert forall|a: Seq<char>, b: Seq<char>| #[trigger] leq(a, b) && #[trigger] leq(
            b,
            a,
        ) implies a == b by {
            lemma_text_le_total(a, b);
        }
        assert forall|a: Seq<char>, b: Seq<char>, c: Seq<char>| #[trigger] leq(a, b)
            && #[trigger] leq(b, c) implies leq(a, c) by {
            lemma_text_le_transitive(a, b, c);
        }
        assert forall|a: Seq<char>, b: Seq<char>| #[trigger] leq(a, b) || #[trigger] leq(
            b,
            a,
        ) by {
            lemma_text_le_total(a, b);
        }
    }
    assert(vstd::relations::sorted_by(x, leq));
    assert(vstd::relations::sorted_by(y, leq));
    vstd::seq_lib::lemma_sorted_unique(x, y, leq);
}

/// Whether `a` comes before `b` or is `b`.
pub fn text_precedes(a: &str, b: &str) -> (r: bool)
    ensures
        r == text_le(a@, b@),
{
    let x = to_chars(a);
    let y = to_chars(b);
    let mut i: usize = 0;
    proof {
        assert(x@.skip(0) =~= x@);
        assert(y@.skip(0) =~= y@);
    }
    while i < x.len() && i < y.len()
        invariant
            i <= x@.len(),
            i <= y@.len(),
            x@ == a@,
            y@ == b@,
            text_le(x@, y@) == text_le(x@.skip(i as int), y@.skip(i as int)),
        decreases x@.len() - i,
    {
        proof {
            let xr = x@.skip(i as int);
            let yr = y@.skip(i as int);
            assert(xr[0] == x@[i as int] && yr[0] == y@[i as int]);
            assert(xr.drop_first() =~= x@.skip(i + 1));
            assert(yr.drop_first() =~= y@.skip(i + 1));
        }
        if x[i] != y[i] {
            return x[i] < y[i];
        }
        i += 1;
    }
    i == x.len()
}

} // verus!
