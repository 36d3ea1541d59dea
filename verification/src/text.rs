//! Text as sequences of characters: the few operations that the rules for
//! queries and rows need.

use vstd::prelude::*;

verus! {

/// The lower-case form of a text, as Unicode defines it.
pub uninterp spec fn lowercase(s: Seq<char>) -> Seq<char>;

/// Whether a character has the Unicode property `White_Space`.
pub uninterp spec fn whitespace(c: char) -> bool;

/// `str::to_lowercase`: the lower-case equivalent of the text, as a new
/// `String`. The contract only gives the result its name.
#[verifier::external_body]
pub(crate) fn to_lowercase(s: &str) -> (lower: String)
    ensures
        lower@ == lowercase(s@),
{
    s.to_lowercase()
}

/// `char::is_whitespace`: whether the character has the `White_Space`
/// property. The contract only gives the answer its name.
pub assume_specification[ char::is_whitespace ](c: char) -> (b: bool)
    ensures
        b == whitespace(c),
;

/// `String::push`: appends the character to the end of the string.
#[verifier::external_body]
pub(crate) fn push_char(s: &mut String, c: char)
    ensures
        final(s)@ == old(s)@.push(c),
{
    s.push(c)
}

/// The text in an optional `&str`.
pub open spec fn str_view(text: Option<&str>) -> Option<Seq<char>> {
    match text {
        Some(t) => Some(t@),
        None => None,
    }
}

/// `needle` stands in `hay` at the position `at`.
pub open spec fn occurs_at(needle: Seq<char>, hay: Seq<char>, at: int) -> bool {
    0 <= at && at + needle.len() <= hay.len() && hay.subrange(at, at + needle.len()) == needle
}

/// `needle` stands somewhere in `hay`. The empty text stands in every text.
pub open spec fn occurs_in(needle: Seq<char>, hay: Seq<char>) -> bool {
    exists|at: int| occurs_at(needle, hay, at)
}

/// The characters of `s`.
pub fn chars(s: &str) -> (v: Vec<char>)
    ensures
        v@ == s@,
{
    let mut v: Vec<char> = Vec::new();
    for c in it: s.chars()
        invariant
            it.seq() == s@,
            v@ == it.seq().take(it.index()),
    {
        v.push(c);
    }
    v
}

/// The text made of the characters of `v` from `from` up to `to`.
pub fn text_of(v: &Vec<char>, from: usize, to: usize) -> (s: String)
    requires
        from <= to <= v.len(),
    ensures
        s@ == v@.subrange(from as int, to as int),
{
    let mut s = String::new();
    let mut i = from;
    while i < to
        invariant
            from <= i <= to <= v.len(),
            s@ == v@.subrange(from as int, i as int),
        decreases to - i,
    {
        push_char(&mut s, v[i]);
        i += 1;
    }
    s
}

/// Whether `needle` stands in `hay` at the position `at`.
pub fn found_at(needle: &Vec<char>, hay: &Vec<char>, at: usize) -> (b: bool)
    ensures
        b == occurs_at(needle@, hay@, at as int),
{
    if needle.len() > hay.len() || at > hay.len() - needle.len() {
        return false;
    }
    let mut i: usize = 0;
    while i < needle.len()
        invariant
            i <= needle.len(),
            at + needle.len() <= hay.len(),
            forall|j: int| 0 <= j < i ==> hay@[at + j] == needle@[j],
        decreases needle.len() - i,
    {
        if hay[at + i] != needle[i] {
            return false;
        }
        i += 1;
    }
    assert(hay@.subrange(at as int, at + needle.len()) =~= needle@);
    true
}

/// Whether `needle` stands somewhere in `hay`.
pub fn contains(hay: &Vec<char>, needle: &Vec<char>) -> (b: bool)
    ensures
        b == occurs_in(needle@, hay@),
{
    if needle.len() > hay.len() {
        return false;
    }
    let last = hay.len() - needle.len();
    let mut at: usize = 0;
    while at < last
        invariant
            at <= last,
            last == hay.len() - needle.len(),
            forall|k: int| 0 <= k < at ==> !occurs_at(needle@, hay@, k),
        decreases last - at,
    {
        if found_at(needle, hay, at) {
            return true;
        }
        at += 1;
    }
    let b = found_at(needle, hay, last);
    if !b {
        assert forall|k: int| !occurs_at(needle@, hay@, k) by {}
    }
    b
}

/// Whether `s` begins with `prefix`.
pub fn starts_with(s: &Vec<char>, prefix: &Vec<char>) -> (b: bool)
    ensures
        b == prefix@.is_prefix_of(s@),
{
    found_at(prefix, s, 0)
}

/// Whether two texts hold the same characters.
pub fn same(a: &Vec<char>, b: &Vec<char>) -> (eq: bool)
    ensures
        eq == (a@ == b@),
{
    let eq = a.len() == b.len() && starts_with(a, b);
    if eq {
        assert(a@ =~= b@);
    }
    eq
}

/// `s` without the prefix `prefix`, or `None` where it does not begin with it.
pub fn strip_prefix(s: &Vec<char>, prefix: &Vec<char>) -> (rest: Option<Vec<char>>)
    ensures
        rest is Some == prefix@.is_prefix_of(s@),
        rest matches Some(r) ==> r@ == s@.skip(prefix@.len() as int),
{
    if starts_with(s, prefix) {
        Some(part(s, prefix.len(), s.len()))
    } else {
        None
    }
}

/// `s` without its first character, where that is `first`.
pub fn strip_first(s: &Vec<char>, first: char) -> (rest: Option<Vec<char>>)
    ensures
        rest is Some == (s@.len() > 0 && s@[0] == first),
        rest matches Some(r) ==> r@ == s@.skip(1),
{
    if s.len() > 0 && s[0] == first {
        Some(part(s, 1, s.len()))
    } else {
        None
    }
}

/// The characters of `v` from `from` up to `to`.
pub fn part(v: &Vec<char>, from: usize, to: usize) -> (p: Vec<char>)
    requires
        from <= to <= v.len(),
    ensures
        p@ == v@.subrange(from as int, to as int),
{
    let mut p: Vec<char> = Vec::new();
    let mut i = from;
    while i < to
        invariant
            from <= i <= to <= v.len(),
            p@ == v@.subrange(from as int, i as int),
        decreases to - i,
    {
        p.push(v[i]);
        i += 1;
    }
    p
}

/// The text that holds the characters of `v`.
pub fn text(v: &Vec<char>) -> (s: String)
    ensures
        s@ == v@,
{
    text_of(v, 0, v.len())
}

/// For each character of `s`, whether it is white space.
pub open spec fn blanks(s: Seq<char>) -> Seq<bool> {
    s.map_values(|c: char| whitespace(c))
}

/// Tells for each character of `s` whether it is white space.
pub fn blank_flags(s: &Vec<char>) -> (blank: Vec<bool>)
    ensures
        blank@ == blanks(s@),
{
    let mut blank: Vec<bool> = Vec::new();
    let mut i: usize = 0;
    while i < s.len()
        invariant
            i <= s.len(),
            blank@ == blanks(s@.take(i as int)),
        decreases s.len() - i,
    {
        blank.push(s[i].is_whitespace());
        i += 1;
    }
    blank
}

/// Reading `s` from its start, where `blank` marks the characters that part
/// words: the words that have ended, and the word that is still open (empty
/// right after a blank).
pub open spec fn scan(s: Seq<char>, blank: Seq<bool>) -> (Seq<Seq<char>>, Seq<char>)
    decreases s.len(),
{
    if s.len() == 0 {
        (seq![], seq![])
    } else {
        let (done, open) = scan(s.drop_last(), blank);
        if !blank[s.len() - 1] {
            (done, open.push(s.last()))
        } else if open.len() > 0 {
            (done.push(open), seq![])
        } else {
            (done, open)
        }
    }
}

/// The words of `s`, where `blank` marks the characters that part words: the
/// longest runs of unmarked characters, in the order in which they stand. No
/// word is empty.
pub open spec fn words_by(s: Seq<char>, blank: Seq<bool>) -> Seq<Seq<char>> {
    let (done, open) = scan(s, blank);
    if open.len() > 0 {
        done.push(open)
    } else {
        done
    }
}

/// The words of `s`: its longest runs of characters that are no white space.
pub open spec fn words(s: Seq<char>) -> Seq<Seq<char>> {
    words_by(s, blanks(s))
}

/// The views of the texts in `v`.
pub open spec fn views(v: Seq<Vec<char>>) -> Seq<Seq<char>> {
    v.map_values(|w: Vec<char>| w@)
}

/// Splits `s` into its words, at the characters that `blank` marks.
pub fn split_at_blanks(s: &Vec<char>, blank: &Vec<bool>) -> (found: Vec<Vec<char>>)
    requires
        blank.len() == s.len(),
    ensures
        views(found@) == words_by(s@, blank@),
{
    let mut done: Vec<Vec<char>> = Vec::new();
    let mut open: Vec<char> = Vec::new();
    let mut i: usize = 0;
    while i < s.len()
        invariant
            i <= s.len(),
            blank.len() == s.len(),
            (views(done@), open@) == scan(s@.take(i as int), blank@),
        decreases s.len() - i,
    {
        let c = s[i];
        proof {
            let next = s@.take(i as int + 1);
            assert(next.drop_last() =~= s@.take(i as int));
        }
        if !blank[i] {
            open.push(c);
        } else if open.len() > 0 {
            done.push(open);
            open = Vec::new();
        }
        i += 1;
    }
    assert(s@.take(i as int) =~= s@);
    if open.len() > 0 {
        done.push(open);
    }
    done
}

/// Splits `s` at white space into its words.
pub fn split_whitespace(s: &Vec<char>) -> (found: Vec<Vec<char>>)
    ensures
        views(found@) == words(s@),
{
    split_at_blanks(s, &blank_flags(s))
}

/// How many marks stand at the start of `blank` without a gap.
pub open spec fn leading(blank: Seq<bool>) -> nat
    decreases blank.len(),
{
    if blank.len() > 0 && blank[0] {
        1 + leading(blank.skip(1))
    } else {
        0
    }
}

/// How many marks stand at the end of `blank` without a gap.
pub open spec fn trailing(blank: Seq<bool>) -> nat
    decreases blank.len(),
{
    if blank.len() > 0 && blank.last() {
        1 + trailing(blank.drop_last())
    } else {
        0
    }
}

/// `s` without the characters that `blank` marks at its start and at its end.
/// Nothing is left of a text that is marked throughout.
pub open spec fn trimmed_by(s: Seq<char>, blank: Seq<bool>) -> Seq<char> {
    if leading(blank) >= s.len() {
        seq![]
    } else {
        s.subrange(leading(blank) as int, s.len() - trailing(blank))
    }
}

/// `s` without the white space at its start and at its end.
pub open spec fn trimmed(s: Seq<char>) -> Seq<char> {
    trimmed_by(s, blanks(s))
}

/// Removes from both ends of `s` the characters that `blank` marks.
pub fn trim_blanks(s: &Vec<char>, blank: &Vec<bool>) -> (t: Vec<char>)
    requires
        blank.len() == s.len(),
    ensures
        t@ == trimmed_by(s@, blank@),
{
    let mut from: usize = 0;
    assert(blank@.skip(0) =~= blank@);
    while from < s.len() && blank[from]
        invariant
            from <= s.len(),
            blank.len() == s.len(),
            leading(blank@) == from + leading(blank@.skip(from as int)),
        decreases s.len() - from,
    {
        assert(blank@.skip(from as int).skip(1) =~= blank@.skip(from as int + 1));
        from += 1;
    }
    if from == s.len() {
        return Vec::new();
    }
    let mut to: usize = s.len();
    while to > from + 1 && blank[to - 1]
        invariant
            from < to <= s.len(),
            blank.len() == s.len(),
            !blank@[from as int],
            trailing(blank@) == s.len() - to + trailing(blank@.take(to as int)),
        decreases to,
    {
        assert(blank@.take(to as int).drop_last() =~= blank@.take(to as int - 1));
        to -= 1;
    }
    proof {
        let kept = blank@.take(to as int);
    }
    part(s, from, to)
}

/// Removes the white space at both ends of `s`.
pub fn trim(s: &Vec<char>) -> (t: Vec<char>)
    ensures
        t@ == trimmed(s@),
{
    trim_blanks(s, &blank_flags(s))
}

/// How many unmarked places stand before the first mark of `blank`; its
/// length where nothing is marked.
pub open spec fn head_len(blank: Seq<bool>) -> nat
    decreases blank.len(),
{
    if blank.len() == 0 || blank[0] {
        0
    } else {
        1 + head_len(blank.skip(1))
    }
}

/// `s` cut at the first character that `blank` marks: what stands before it
/// and what stands after it. Where nothing is marked, all of `s` and nothing.
pub open spec fn cut_by(s: Seq<char>, blank: Seq<bool>) -> (Seq<char>, Seq<char>) {
    let n = head_len(blank) as int;
    if n < s.len() {
        (s.take(n), s.skip(n + 1))
    } else {
        (s, seq![])
    }
}

/// `s` cut at its first white space.
pub open spec fn cut(s: Seq<char>) -> (Seq<char>, Seq<char>) {
    cut_by(s, blanks(s))
}

/// Cuts `s` at the first character that `blank` marks.
pub fn split_at_first_blank(s: &Vec<char>, blank: &Vec<bool>) -> (r: (Vec<char>, Vec<char>))
    requires
        blank.len() == s.len(),
    ensures
        (r.0@, r.1@) == cut_by(s@, blank@),
{
    let mut i: usize = 0;
    assert(blank@.skip(0) =~= blank@);
    while i < s.len() && !blank[i]
        invariant
            i <= s.len(),
            blank.len() == s.len(),
            head_len(blank@) == i + head_len(blank@.skip(i as int)),
        decreases s.len() - i,
    {
        assert(blank@.skip(i as int).skip(1) =~= blank@.skip(i as int + 1));
        i += 1;
    }
    if i < s.len() {
        let head = part(s, 0, i);
        let tail = part(s, i + 1, s.len());
        (head, tail)
    } else {
        let head = part(s, 0, s.len());
        (head, Vec::new())
    }
}

/// Cuts `s` at its first white space.
pub fn split_once(s: &Vec<char>) -> (r: (Vec<char>, Vec<char>))
    ensures
        (r.0@, r.1@) == cut(s@),
{
    split_at_first_blank(s, &blank_flags(s))
}

/// `s` with every `from` replaced by `to`.
pub open spec fn replaced(s: Seq<char>, from: char, to: char) -> Seq<char> {
    s.map_values(
        |c: char|
            if c == from {
                to
            } else {
                c
            },
    )
}

/// Replaces every `from` in `s` by `to`.
pub fn replace(s: &Vec<char>, from: char, to: char) -> (r: Vec<char>)
    ensures
        r@ == replaced(s@, from, to),
{
    let mut r: Vec<char> = Vec::new();
    let mut i: usize = 0;
    while i < s.len()
        invariant
            i <= s.len(),
            r@ == replaced(s@.take(i as int), from, to),
        decreases s.len() - i,
    {
        let c = s[i];
        r.push(if c == from { to } else { c });
        i += 1;
    }
    r
}

/// `s` without the run of `c` at its end.
pub open spec fn without_trailing(s: Seq<char>, c: char) -> Seq<char>
    decreases s.len(),
{
    if s.len() > 0 && s.last() == c {
        without_trailing(s.drop_last(), c)
    } else {
        s
    }
}

/// Where the last `c` stands in `s`; `-1` where `s` holds none.
pub open spec fn last_index(s: Seq<char>, c: char) -> int
    decreases s.len(),
{
    if s.len() == 0 {
        -1
    } else if s.last() == c {
        s.len() - 1
    } else {
        last_index(s.drop_last(), c)
    }
}

/// What stands before the last `c` of `s`; all of `s` where it holds none.
pub open spec fn before_last(s: Seq<char>, c: char) -> Seq<char> {
    if last_index(s, c) >= 0 {
        s.take(last_index(s, c))
    } else {
        s
    }
}

/// Removes the run of `c` at the end of `s`.
pub fn trim_end_matches(s: &Vec<char>, c: char) -> (t: Vec<char>)
    ensures
        t@ == without_trailing(s@, c),
{
    let mut to: usize = s.len();
    assert(s@.take(to as int) =~= s@);
    while to > 0 && s[to - 1] == c
        invariant
            to <= s.len(),
            without_trailing(s@, c) == without_trailing(s@.take(to as int), c),
        decreases to,
    {
        assert(s@.take(to as int).drop_last() =~= s@.take(to as int - 1));
        to -= 1;
    }
    let t = part(s, 0, to);
    t
}

/// Keeps what stands before the last `c` of `s`, or all of `s` where it holds
/// no `c`.
pub fn keep_before_last(s: &Vec<char>, c: char) -> (t: Vec<char>)
    ensures
        t@ == before_last(s@, c),
{
    let mut to: usize = s.len();
    assert(s@.take(to as int) =~= s@);
    while to > 0 && s[to - 1] != c
        invariant
            to <= s.len(),
            last_index(s@, c) == last_index(s@.take(to as int), c),
        decreases to,
    {
        assert(s@.take(to as int).drop_last() =~= s@.take(to as int - 1));
        to -= 1;
    }
    if to > 0 {
        let t = part(s, 0, to - 1);
        t
    } else {
        let t = part(s, 0, s.len());
        t
    }
}

/// The texts of `parts`, one after another, with `sep` between each two.
pub open spec fn joined(parts: Seq<Seq<char>>, sep: Seq<char>) -> Seq<char>
    decreases parts.len(),
{
    if parts.len() == 0 {
        seq![]
    } else if parts.len() == 1 {
        parts[0]
    } else {
        joined(parts.drop_last(), sep) + sep + parts.last()
    }
}

} // verus!
