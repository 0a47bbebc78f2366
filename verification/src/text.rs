//! Text handling over sequences of characters.
//!
//! Every function here is specified over `Seq<char>`, the view of a string.
//! The executable versions walk the characters once and slice by index.

use vstd::prelude::*;
use vstd::utf8::{decode_utf8, valid_utf8};

verus! {

/// Whether `c` is white space: one of the 25 characters with the Unicode
/// property `White_Space`.
pub open spec fn white_space(c: char) -> bool {
    let n = c as u32;
    ||| 0x09 <= n <= 0x0d
    ||| n == 0x20
    ||| n == 0x85
    ||| n == 0xa0
    ||| n == 0x1680
    ||| 0x2000 <= n <= 0x200a
    ||| n == 0x2028
    ||| n == 0x2029
    ||| n == 0x202f
    ||| n == 0x205f
    ||| n == 0x3000
}

/// The lower-case form of a text, as `str::to_lowercase` produces it.
pub uninterp spec fn lowercase(s: Seq<char>) -> Seq<char>;

/// `String::push` appends one character.
pub assume_specification[ String::push ](s: &mut String, c: char)
    ensures
        final(s)@ == old(s)@.push(c),
;

/// Whether `c` is white space.
pub fn is_whitespace(c: char) -> (r: bool)
    ensures
        r == white_space(c),
{
    let n: u32 = c as u32;
    (0x09 <= n && n <= 0x0d) || n == 0x20 || n == 0x85 || n == 0xa0 || n == 0x1680 || (0x2000 <= n
        && n <= 0x200a) || n == 0x2028 || n == 0x2029 || n == 0x202f || n == 0x205f || n
        == 0x3000
}

/// `str::to_lowercase`: the Unicode lower-case mapping of the whole text, which
/// this library names `lowercase` and does not spell out.
#[verifier::external_body]
pub(crate) fn to_lowercase(s: &str) -> (r: String)
    ensures
        r@ == lowercase(s@),
{
    s.to_lowercase()
}

/// `String::from_utf8`: succeeds exactly on well-formed UTF-8 and then yields
/// the characters that the bytes encode.
#[verifier::external_body]
pub(crate) fn utf8_text(bytes: Vec<u8>) -> (r: Option<String>)
    ensures
        r is Some <==> valid_utf8(bytes@),
        r matches Some(s) ==> s@ == decode_utf8(bytes@),
{
    String::from_utf8(bytes).ok()
}

/// Number of white-space characters at the front of `s`.
pub open spec fn leading_space(s: Seq<char>) -> nat
    decreases s.len(),
{
    if s.len() > 0 && white_space(s[0]) {
        1 + leading_space(s.drop_first())
    } else {
        0
    }
}

/// Number of white-space characters at the back of `s`.
pub open spec fn trailing_space(s: Seq<char>) -> nat
    decreases s.len(),
{
    if s.len() > 0 && white_space(s.last()) {
        1 + trailing_space(s.drop_last())
    } else {
        0
    }
}

/// `s` without its leading and trailing white space.
pub open spec fn trimmed(s: Seq<char>) -> Seq<char> {
    let rest = s.skip(leading_space(s) as int);
    rest.take(rest.len() - trailing_space(rest))
}

/// A text is blank when nothing is left of it after trimming.
pub open spec fn blank(s: Seq<char>) -> bool {
    trimmed(s).len() == 0
}

/// `needle` stands in `haystack` at index `i`.
pub open spec fn occurs_at(haystack: Seq<char>, needle: Seq<char>, i: int) -> bool {
    &&& 0 <= i
    &&& i + needle.len() <= haystack.len()
    &&& haystack.subrange(i, i + needle.len()) == needle
}

/// `needle` stands somewhere in `haystack`.
pub open spec fn contains_text(haystack: Seq<char>, needle: Seq<char>) -> bool {
    exists|i: int| occurs_at(haystack, needle, i)
}

/// `s` with every leading repetition of the non-empty `prefix` removed.
pub open spec fn without_leading(s: Seq<char>, prefix: Seq<char>) -> Seq<char>
    decreases s.len(),
{
    if prefix.len() > 0 && prefix.is_prefix_of(s) {
        without_leading(s.skip(prefix.len() as int), prefix)
    } else {
        s
    }
}

/// `s` with every trailing `c` removed.
pub open spec fn without_trailing(s: Seq<char>, c: char) -> Seq<char>
    decreases s.len(),
{
    if s.len() > 0 && s.last() == c {
        without_trailing(s.drop_last(), c)
    } else {
        s
    }
}

/// Index of the first `c` in `s`, or `s.len()` when there is none.
pub open spec fn first_index_of(s: Seq<char>, c: char) -> int
    decreases s.len(),
{
    if s.len() == 0 || s[0] == c {
        0
    } else {
        1 + first_index_of(s.drop_first(), c)
    }
}

/// The pieces of `s` between occurrences of `sep`; never empty.
pub open spec fn split_on(s: Seq<char>, sep: char) -> Seq<Seq<char>>
    decreases s.len(),
{
    let i = first_index_of(s, sep);
    if 0 <= i < s.len() {
        seq![s.take(i)] + split_on(s.skip(i + 1), sep)
    } else {
        seq![s]
    }
}

/// The decimal digit for `d`, which is below ten.
pub open spec fn digit_char(d: nat) -> char {
    if d == 0 {
        '0'
    } else if d == 1 {
        '1'
    } else if d == 2 {
        '2'
    } else if d == 3 {
        '3'
    } else if d == 4 {
        '4'
    } else if d == 5 {
        '5'
    } else if d == 6 {
        '6'
    } else if d == 7 {
        '7'
    } else if d == 8 {
        '8'
    } else {
        '9'
    }
}

/// Decimal notation of `n`, without sign or leading zeros.
pub open spec fn decimal(n: nat) -> Seq<char>
    decreases n,
{
    if n < 10 {
        seq![digit_char(n)]
    } else {
        decimal(n / 10).push(digit_char(n % 10))
    }
}

/// The first index of `c` lies within `s` or at its end, holds `c` where it
/// lies within, and has no `c` before it.
pub proof fn lemma_first_index_of(s: Seq<char>, c: char)
    ensures
        0 <= first_index_of(s, c) <= s.len(),
        forall|j: int| 0 <= j < first_index_of(s, c) ==> s[j] != c,
        first_index_of(s, c) < s.len() ==> s[first_index_of(s, c)] == c,
    decreases s.len(),
{
    if s.len() == 0 || s[0] == c {
    } else {
        let rest = s.drop_first();
        lemma_first_index_of(rest, c);
        assert forall|j: int| 0 <= j < first_index_of(s, c) implies s[j] != c by {
            if j > 0 {
                assert(s[j] == rest[j - 1]);
            }
        }
    }
}

/// The first index of `c` is the one index that holds `c` with none before it.
pub proof fn lemma_first_index_is(s: Seq<char>, c: char, k: int)
    requires
        0 <= k <= s.len(),
        forall|j: int| 0 <= j < k ==> s[j] != c,
        k < s.len() ==> s[k] == c,
    ensures
        first_index_of(s, c) == k,
{
    lemma_first_index_of(s, c);
}

/// No piece of a split holds the separator.
pub proof fn lemma_split_pieces(s: Seq<char>, sep: char)
    ensures
        forall|k: int| 0 <= k < split_on(s, sep).len() ==> !(#[trigger] split_on(s, sep)[k]).contains(sep),
    decreases s.len(),
{
    lemma_first_index_of(s, sep);
    let i = first_index_of(s, sep);
    if 0 <= i < s.len() {
        let head = s.take(i);
        let rest = split_on(s.skip(i + 1), sep);
        lemma_split_pieces(s.skip(i + 1), sep);
        assert(!head.contains(sep)) by {
            if head.contains(sep) {
                let j = choose|j: int| 0 <= j < head.len() && head[j] == sep;
                assert(s[j] == sep);
            }
        }
        assert forall|k: int| 0 <= k < split_on(s, sep).len() implies !(#[trigger] split_on(
            s,
            sep,
        )[k]).contains(sep) by {
            if k > 0 {
                assert(split_on(s, sep)[k] == rest[k - 1]);
            }
        }
    } else {
        assert(!s.contains(sep)) by {
            if s.contains(sep) {
                let j = choose|j: int| 0 <= j < s.len() && s[j] == sep;
                assert(s[j] == sep);
            }
        }
    }
}

/// Splitting a text that ends in the separator and a piece without it gives
/// the pieces of what stands before the separator, and then that piece.
pub proof fn lemma_split_append(head: Seq<char>, sep: char, tail: Seq<char>)
    requires
        !tail.contains(sep),
    ensures
        split_on(head + seq![sep] + tail, sep) == split_on(head, sep).push(tail),
    decreases head.len(),
{
    let whole = head + seq![sep] + tail;
    lemma_first_index_of(head, sep);
    let i = first_index_of(head, sep);
    if i < head.len() {
        assert forall|j: int| 0 <= j < i implies whole[j] != sep by {
            assert(whole[j] == head[j]);
        }
        assert(whole[i] == head[i]);
        lemma_first_index_is(whole, sep, i);
        assert(whole.take(i) == head.take(i));
        assert(whole.skip(i + 1) == head.skip(i + 1) + seq![sep] + tail);
        lemma_split_append(head.skip(i + 1), sep, tail);
        let rest = split_on(head.skip(i + 1), sep);
        assert(split_on(head, sep) == seq![head.take(i)] + rest);
        assert(split_on(whole, sep) == seq![head.take(i)] + rest.push(tail));
        assert(seq![head.take(i)] + rest.push(tail) == (seq![head.take(i)] + rest).push(tail));
    } else {
        assert forall|j: int| 0 <= j < head.len() implies whole[j] != sep by {
            assert(whole[j] == head[j]);
        }
        assert(whole[head.len() as int] == sep);
        lemma_first_index_is(whole, sep, head.len() as int);
        assert(whole.take(head.len() as int) == head);
        assert(whole.skip(head.len() as int + 1) == tail);
        assert forall|j: int| 0 <= j < tail.len() implies tail[j] != sep by {
            if tail[j] == sep {
                assert(tail.contains(sep));
            }
        }
        lemma_first_index_is(tail, sep, tail.len() as int);
        assert(split_on(tail, sep) == seq![tail]);
        assert(split_on(head, sep) == seq![head]);
        assert(split_on(whole, sep) == seq![head] + seq![tail]);
        assert(seq![head] + seq![tail] == seq![head].push(tail));
    }
}

/// Index of the last `c` in `s`, or -1 where there is none.
pub open spec fn last_index_of(s: Seq<char>, c: char) -> int
    decreases s.len(),
{
    if s.len() == 0 {
        -1
    } else if s.last() == c {
        s.len() - 1
    } else {
        last_index_of(s.drop_last(), c)
    }
}

/// The characters of `s`, in order.
pub fn chars_of(s: &str) -> (out: Vec<char>)
    ensures
        out@ == s@,
{
    let mut out: Vec<char> = Vec::new();
    for c in it: s.chars()
        invariant
            out@ == it.seq().take(it.index()),
            it.seq() == s@,
    {
        out.push(c);
    }
    out
}

/// The text made of `chars[from..to]`.
pub fn slice_string(chars: &Vec<char>, from: usize, to: usize) -> (out: String)
    requires
        from <= to <= chars.len(),
    ensures
        out@ == chars@.subrange(from as int, to as int),
{
    let mut out = String::new();
    let mut i: usize = from;
    while i < to
        invariant
            from <= i <= to <= chars.len(),
            out@ == chars@.subrange(from as int, i as int),
        decreases to - i,
    {
        out.push(chars[i]);
        i += 1;
    }
    out
}

/// The text whose characters are `chars`.
pub fn string_of(chars: &Vec<char>) -> (out: String)
    ensures
        out@ == chars@,
{
    let out = slice_string(chars, 0, chars.len());
    assert(chars@.subrange(0, chars.len() as int) == chars@);
    out
}

/// An owned copy of `s`.
pub fn owned(s: &str) -> (out: String)
    ensures
        out@ == s@,
{
    s.to_owned()
}

/// Number of characters of `s`.
pub fn char_len(s: &str) -> (n: usize)
    ensures
        n == s@.len(),
{
    s.unicode_len()
}

/// `a` followed by `b`.
pub fn join2(a: &str, b: &str) -> (out: String)
    ensures
        out@ == a@ + b@,
{
    let mut out = a.to_owned();
    out.append(b);
    out
}

/// `a`, `b` and `c` in a row.
pub fn join3(a: &str, b: &str, c: &str) -> (out: String)
    ensures
        out@ == a@ + b@ + c@,
{
    let mut out = a.to_owned();
    out.append(b);
    out.append(c);
    out
}

/// Four texts in a row.
pub fn join4(a: &str, b: &str, c: &str, d: &str) -> (out: String)
    ensures
        out@ == a@ + b@ + c@ + d@,
{
    let mut out = a.to_owned();
    out.append(b);
    out.append(c);
    out.append(d);
    out
}

/// Whether two texts hold the same characters.
pub fn same_text(a: &str, b: &str) -> (r: bool)
    ensures
        r == (a@ == b@),
{
    let x = chars_of(a);
    let y = chars_of(b);
    if x.len() != y.len() {
        return false;
    }
    let mut i: usize = 0;
    while i < x.len()
        invariant
            i <= x.len(),
            x.len() == y.len(),
            x@ == a@,
            y@ == b@,
            forall|j: int| 0 <= j < i ==> x@[j] == y@[j],
        decreases x.len() - i,
    {
        if x[i] != y[i] {
            assert(x@[i as int] != y@[i as int]);
            return false;
        }
        i += 1;
    }
    assert(x@ =~= y@);
    true
}

/// `s` without its leading and trailing white space.
pub fn trim(s: &str) -> (out: String)
    ensures
        out@ == trimmed(s@),
{
    let chars = chars_of(s);
    let n = chars.len();
    let mut start: usize = 0;
    assert(chars@.skip(0) == chars@);
    while start < n && is_whitespace(chars[start])
        invariant
            start <= n,
            n == chars.len(),
            leading_space(chars@) == start + leading_space(chars@.skip(start as int)),
        decreases n - start,
    {
        assert(chars@.skip(start as int).drop_first() == chars@.skip(start + 1));
        start += 1;
    }
    assert(leading_space(chars@) == start);
    let ghost rest = chars@.skip(start as int);
    let mut end: usize = n;
    assert(rest.subrange(0, n - start) == rest);
    while end > start && is_whitespace(chars[end - 1])
        invariant
            start <= end <= n,
            n == chars.len(),
            rest == chars@.skip(start as int),
            trailing_space(rest) == (n - end) + trailing_space(rest.subrange(0, end - start)),
        decreases end - start,
    {
        assert(rest.subrange(0, end - start).drop_last() == rest.subrange(0, end - start - 1));
        end -= 1;
    }
    assert(trailing_space(rest) == n - end);
    assert(rest.take(rest.len() - (n - end)) == chars@.subrange(start as int, end as int));
    slice_string(&chars, start, end)
}

/// Whether `s` holds nothing but white space.
pub fn is_blank(s: &str) -> (r: bool)
    ensures
        r == blank(s@),
{
    let t = trim(s);
    t.as_str().unicode_len() == 0
}

/// Whether `needle` stands in `haystack` at index `i`.
fn matches_at(haystack: &Vec<char>, needle: &Vec<char>, i: usize) -> (r: bool)
    requires
        i + needle.len() <= haystack.len(),
    ensures
        r == occurs_at(haystack@, needle@, i as int),
{
    let mut k: usize = 0;
    while k < needle.len()
        invariant
            k <= needle.len(),
            i + needle.len() <= haystack.len(),
            forall|j: int| 0 <= j < k ==> haystack@[i + j] == needle@[j],
        decreases needle.len() - k,
    {
        if haystack[i + k] != needle[k] {
            assert(haystack@.subrange(i as int, i + needle.len())[k as int] != needle@[k as int]);
            return false;
        }
        k += 1;
    }
    assert(haystack@.subrange(i as int, i + needle.len()) =~= needle@);
    true
}

/// Whether `needle` stands somewhere in `haystack`.
pub fn contains(haystack: &str, needle: &str) -> (r: bool)
    ensures
        r == contains_text(haystack@, needle@),
{
    let h = chars_of(haystack);
    let n = chars_of(needle);
    if n.len() > h.len() {
        return false;
    }
    let last: usize = h.len() - n.len();
    let mut i: usize = 0;
    loop
        invariant
            i <= last,
            last == h.len() - n.len(),
            h@ == haystack@,
            n@ == needle@,
            forall|j: int| 0 <= j < i ==> !occurs_at(h@, n@, j),
        decreases last - i,
    {
        if matches_at(&h, &n, i) {
            assert(occurs_at(h@, n@, i as int));
            return true;
        }
        if i == last {
            return false;
        }
        i += 1;
    }
}

/// Whether `s` begins with `prefix`.
pub fn starts_with(s: &str, prefix: &str) -> (r: bool)
    ensures
        r == prefix@.is_prefix_of(s@),
{
    let h = chars_of(s);
    let p = chars_of(prefix);
    if p.len() > h.len() {
        return false;
    }
    let r = matches_at(&h, &p, 0);
    assert(h@.subrange(0, p.len() as int) == h@.take(p.len() as int));
    r
}

/// Whether `s` ends with `suffix`.
pub fn ends_with(s: &str, suffix: &str) -> (r: bool)
    ensures
        r == suffix@.is_suffix_of(s@),
{
    let h = chars_of(s);
    let p = chars_of(suffix);
    if p.len() > h.len() {
        return false;
    }
    let r = matches_at(&h, &p, h.len() - p.len());
    assert(h@.subrange(h.len() - p.len(), h.len() as int) == h@.skip(h.len() - p.len()));
    r
}

/// `s` with every leading repetition of `prefix` removed.
pub fn trim_start_matches(s: &str, prefix: &str) -> (out: String)
    ensures
        out@ == without_leading(s@, prefix@),
{
    let h = chars_of(s);
    let p = chars_of(prefix);
    if p.len() == 0 {
        return string_of(&h);
    }
    let mut start: usize = 0;
    assert(h@.skip(0) == h@);
    while h.len() - start >= p.len() && matches_at(&h, &p, start)
        invariant
            start <= h.len(),
            p.len() > 0,
            without_leading(h@, p@) == without_leading(h@.skip(start as int), p@),
        decreases h.len() - start,
    {
        let ghost rest = h@.skip(start as int);
        assert(rest.take(p.len() as int) == h@.subrange(start as int, start + p.len()));
        assert(rest.skip(p.len() as int) == h@.skip(start + p.len()));
        start += p.len();
    }
    let ghost rest = h@.skip(start as int);
    assert(!p@.is_prefix_of(rest)) by {
        if h.len() - start >= p.len() {
            assert(rest.take(p.len() as int) == h@.subrange(start as int, start + p.len()));
        }
    }
    assert(rest == h@.subrange(start as int, h.len() as int));
    slice_string(&h, start, h.len())
}

/// `s` with every trailing `c` removed.
pub fn trim_end_matches(s: &str, c: char) -> (out: String)
    ensures
        out@ == without_trailing(s@, c),
{
    let h = chars_of(s);
    let mut end: usize = h.len();
    assert(h@.take(h.len() as int) == h@);
    while end > 0 && h[end - 1] == c
        invariant
            end <= h.len(),
            without_trailing(h@, c) == without_trailing(h@.take(end as int), c),
        decreases end,
    {
        assert(h@.take(end as int).drop_last() == h@.take(end - 1));
        end -= 1;
    }
    assert(h@.take(end as int) == h@.subrange(0, end as int));
    slice_string(&h, 0, end)
}

/// The pieces of `s` between occurrences of `sep`.
pub fn split(s: &str, sep: char) -> (out: Vec<String>)
    ensures
        out.deep_view() == split_on(s@, sep),
        out.len() >= 1,
{
    let h = chars_of(s);
    let mut out: Vec<String> = Vec::new();
    let mut start: usize = 0;
    let mut i: usize = 0;
    assert(h@.skip(0) == h@);
    assert(out.deep_view() + split_on(h@, sep) == split_on(h@, sep));
    while i < h.len()
        invariant
            start <= i <= h.len(),
            split_on(h@, sep) == out.deep_view() + split_on(h@.skip(start as int), sep),
            forall|j: int| start <= j < i ==> h@[j] != sep,
        decreases h.len() - i,
    {
        if h[i] == sep {
            let ghost rest = h@.skip(start as int);
            let ghost before = out.deep_view();
            proof {
                lemma_first_index_is(rest, sep, i - start);
                assert(rest.take(i - start) == h@.subrange(start as int, i as int));
                assert(rest.skip(i - start + 1) == h@.skip(i + 1));
            }
            let piece = slice_string(&h, start, i);
            out.push(piece);
            assert(out.deep_view() == before + seq![piece@]);
            start = i + 1;
        }
        i += 1;
    }
    let ghost rest = h@.skip(start as int);
    let ghost before = out.deep_view();
    proof {
        lemma_first_index_is(rest, sep, rest.len() as int);
        assert(rest == h@.subrange(start as int, h.len() as int));
    }
    let piece = slice_string(&h, start, h.len());
    out.push(piece);
    assert(out.deep_view() == before + seq![piece@]);
    out
}

/// The character for one decimal digit.
fn digit(d: u64) -> (c: char)
    requires
        d < 10,
    ensures
        c == digit_char(d as nat),
{
    if d == 0 {
        '0'
    } else if d == 1 {
        '1'
    } else if d == 2 {
        '2'
    } else if d == 3 {
        '3'
    } else if d == 4 {
        '4'
    } else if d == 5 {
        '5'
    } else if d == 6 {
        '6'
    } else if d == 7 {
        '7'
    } else if d == 8 {
        '8'
    } else {
        '9'
    }
}

/// Decimal notation of `n`.
pub fn decimal_text(n: u64) -> (out: String)
    ensures
        out@ == decimal(n as nat),
    decreases n,
{
    if n < 10 {
        let mut out = String::new();
        out.push(digit(n));
        out
    } else {
        let mut out = decimal_text(n / 10);
        out.push(digit(n % 10));
        out
    }
}

} // verus!
