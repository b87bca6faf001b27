//! Text primitives over sequences of characters: character classes, runs,
//! substring search and trimming.

use vstd::prelude::*;

verus! {

/// The characters of an optional text.
pub open spec fn text_of(s: Option<String>) -> Option<Seq<char>> {
    match s {
        Some(t) => Some(t@),
        None => None,
    }
}

/// The characters of each text of a list.
pub open spec fn texts_of(v: Seq<String>) -> Seq<Seq<char>> {
    Seq::new(v.len(), |i: int| v[i]@)
}

/// Whether `c` has the Unicode `White_Space` property.
pub open spec fn is_space(c: char) -> bool {
    let n = c as u32;
    ||| 0x09 <= n <= 0x0D
    ||| n == 0x20
    ||| n == 0x85
    ||| n == 0xA0
    ||| n == 0x1680
    ||| 0x2000 <= n <= 0x200A
    ||| n == 0x2028
    ||| n == 0x2029
    ||| n == 0x202F
    ||| n == 0x205F
    ||| n == 0x3000
}

/// A set of characters that a run of text can be made of.
#[derive(Clone, Copy, Debug, PartialEq, Eq, Structural)]
pub enum CharClass {
    /// White space.
    Space,
    /// Anything but white space.
    Word,
    /// Anything but a line feed.
    LineBody,
}

impl CharClass {
    /// Whether `c` belongs to the class.
    pub open spec fn has(self, c: char) -> bool {
        match self {
            CharClass::Space => is_space(c),
            CharClass::Word => !is_space(c),
            CharClass::LineBody => c != '\n',
        }
    }

    /// Decides membership of `c` in the class.
    pub fn test(self, c: char) -> (b: bool)
        ensures
            b == self.has(c),
    {
        match self {
            CharClass::Space => is_space_char(c),
            CharClass::Word => !is_space_char(c),
            CharClass::LineBody => c != '\n',
        }
    }
}

/// Decides whether `c` is white space.
pub fn is_space_char(c: char) -> (b: bool)
    ensures
        b == is_space(c),
{
    let n: u32 = c as u32;
    (0x09 <= n && n <= 0x0D) || n == 0x20 || n == 0x85 || n == 0xA0 || n == 0x1680 || (0x2000 <= n
        && n <= 0x200A) || n == 0x2028 || n == 0x2029 || n == 0x202F || n == 0x205F || n == 0x3000
}

/// Length of the longest prefix of `s` whose characters all belong to `class`.
pub open spec fn run_len(s: Seq<char>, class: CharClass) -> nat
    decreases s.len(),
{
    if s.len() > 0 && class.has(s[0]) {
        1 + run_len(s.drop_first(), class)
    } else {
        0
    }
}

/// Length of the longest suffix of `s` whose characters all belong to `class`.
pub open spec fn tail_run_len(s: Seq<char>, class: CharClass) -> nat
    decreases s.len(),
{
    if s.len() > 0 && class.has(s.last()) {
        1 + tail_run_len(s.drop_last(), class)
    } else {
        0
    }
}

/// A prefix of `n` characters of the class, followed by the end of the text
/// or a character outside the class, is the longest such prefix.
pub proof fn lemma_run_len_is(s: Seq<char>, class: CharClass, n: int)
    requires
        0 <= n <= s.len(),
        forall|i: int| 0 <= i < n ==> class.has(#[trigger] s[i]),
        n == s.len() || !class.has(s[n]),
    ensures
        run_len(s, class) == n,
    decreases n,
{
    if n > 0 {
        let rest = s.drop_first();
        assert forall|i: int| 0 <= i < n - 1 implies class.has(#[trigger] rest[i]) by {
            assert(rest[i] == s[i + 1]);
        }
        lemma_run_len_is(rest, class, n - 1);
    }
}

/// A suffix of `n` characters of the class, preceded by the start of the text
/// or a character outside the class, is the longest such suffix.
pub proof fn lemma_tail_run_len_is(s: Seq<char>, class: CharClass, n: int)
    requires
        0 <= n <= s.len(),
        forall|i: int| s.len() - n <= i < s.len() ==> class.has(#[trigger] s[i]),
        n == s.len() || !class.has(s[s.len() - n - 1]),
    ensures
        tail_run_len(s, class) == n,
    decreases n,
{
    if n > 0 {
        let rest = s.drop_last();
        assert forall|i: int| rest.len() - (n - 1) <= i < rest.len() implies class.has(
            #[trigger] rest[i],
        ) by {
            assert(rest[i] == s[i]);
        }
        lemma_tail_run_len_is(rest, class, n - 1);
    }
}

/// Copies the characters of `s` into a vector, so that they can be indexed in
/// constant time.
pub fn chars_of(s: &str) -> (v: Vec<char>)
    ensures
        v@ == s@,
{
    broadcast use vstd::string::group_string_axioms;

    let mut v: Vec<char> = Vec::new();
    for c in it: s.chars()
        invariant
            it.seq() == s@,
            v@ == s@.take(it.index() as int),
    {
        v.push(c);
    }
    v
}

/// Copies the characters of `text` from index `from` up to, not including,
/// index `to`.
pub fn copy_range(text: &Vec<char>, from: usize, to: usize) -> (part: Vec<char>)
    requires
        from <= to <= text.len(),
    ensures
        part@ == text@.subrange(from as int, to as int),
{
    let mut part: Vec<char> = Vec::new();
    let mut k: usize = from;
    while k < to
        invariant
            from <= k <= to <= text.len(),
            part@ == text@.subrange(from as int, k as int),
        decreases to - k,
    {
        part.push(text[k]);
        assert(part@ =~= text@.subrange(from as int, k + 1));
        k = k + 1;
    }
    part
}

/// Reads the run of `class` that starts at `from` and returns the index just
/// past it.
pub fn scan_run(text: &Vec<char>, from: usize, class: CharClass) -> (to: usize)
    requires
        from <= text.len(),
    ensures
        from <= to <= text.len(),
        to - from == run_len(text@.skip(from as int), class),
{
    let mut to: usize = from;
    while to < text.len() && class.test(text[to])
        invariant
            from <= to <= text.len(),
            forall|i: int| from <= i < to ==> class.has(#[trigger] text@[i]),
        decreases text.len() - to,
    {
        to = to + 1;
    }
    proof {
        let rest = text@.skip(from as int);
        assert forall|i: int| 0 <= i < to - from implies class.has(#[trigger] rest[i]) by {
            assert(rest[i] == text@[from + i]);
        }
        lemma_run_len_is(rest, class, to - from);
    }
    to
}

/// Reads backwards the run of `class` that ends at `until` and returns the
/// index at which it starts, never going below `from`.
pub fn scan_run_back(text: &Vec<char>, from: usize, until: usize, class: CharClass) -> (to: usize)
    requires
        from <= until <= text.len(),
    ensures
        from <= to <= until,
        until - to == tail_run_len(text@.subrange(from as int, until as int), class),
{
    let mut to: usize = until;
    while to > from && class.test(text[to - 1])
        invariant
            from <= to <= until <= text.len(),
            forall|i: int| to <= i < until ==> class.has(#[trigger] text@[i]),
        decreases to,
    {
        to = to - 1;
    }
    proof {
        let part = text@.subrange(from as int, until as int);
        assert forall|i: int| part.len() - (until - to) <= i < part.len() implies class.has(
            #[trigger] part[i],
        ) by {
            assert(part[i] == text@[from + i]);
        }
        lemma_tail_run_len_is(part, class, until - to);
    }
    to
}

/// Whether `needle` stands in `hay` at index `i`.
pub open spec fn occurs_at(hay: Seq<char>, needle: Seq<char>, i: int) -> bool {
    &&& 0 <= i
    &&& i + needle.len() <= hay.len()
    &&& hay.subrange(i, i + needle.len()) == needle
}

/// Whether `needle` stands somewhere in `hay`.
pub open spec fn contains_text(hay: Seq<char>, needle: Seq<char>) -> bool {
    exists|i: int| occurs_at(hay, needle, i)
}

/// Whether `hay` begins with `prefix`.
pub open spec fn starts_with_text(hay: Seq<char>, prefix: Seq<char>) -> bool {
    occurs_at(hay, prefix, 0)
}

/// Decides whether `needle` stands in `hay` at index `i`.
pub fn matches_at(hay: &Vec<char>, needle: &Vec<char>, i: usize) -> (b: bool)
    ensures
        b == occurs_at(hay@, needle@, i as int),
{
    if needle.len() > hay.len() || i > hay.len() - needle.len() {
        return false;
    }
    let mut k: usize = 0;
    while k < needle.len()
        invariant
            k <= needle.len(),
            i + needle.len() <= hay.len(),
            forall|j: int| 0 <= j < k ==> hay@[i + j] == #[trigger] needle@[j],
        decreases needle.len() - k,
    {
        if hay[i + k] != needle[k] {
            proof {
                let part = hay@.subrange(i as int, i + needle.len());
                assert(part[k as int] == hay@[i + k]);
            }
            return false;
        }
        k = k + 1;
    }
    assert(hay@.subrange(i as int, i + needle.len()) =~= needle@);
    true
}

/// Decides whether `needle` stands somewhere in `hay`.
pub fn find_in(hay: &Vec<char>, needle: &Vec<char>) -> (b: bool)
    ensures
        b == contains_text(hay@, needle@),
{
    if needle.len() > hay.len() {
        return false;
    }
    let last: usize = hay.len() - needle.len();
    let mut i: usize = 0;
    while i < last
        invariant
            last == hay.len() - needle.len(),
            i <= last,
            forall|j: int| 0 <= j < i ==> !occurs_at(hay@, needle@, j),
        decreases last - i,
    {
        if matches_at(hay, needle, i) {
            return true;
        }
        i = i + 1;
    }
    matches_at(hay, needle, last)
}

/// Decides whether `needle` stands somewhere in `hay`.
pub fn contains(hay: &str, needle: &str) -> (b: bool)
    ensures
        b == contains_text(hay@, needle@),
{
    let h = chars_of(hay);
    let n = chars_of(needle);
    find_in(&h, &n)
}

/// Decides whether `hay` begins with `prefix`.
pub fn starts_with(hay: &str, prefix: &str) -> (b: bool)
    ensures
        b == starts_with_text(hay@, prefix@),
{
    let h = chars_of(hay);
    let p = chars_of(prefix);
    matches_at(&h, &p, 0)
}

/// `s` without its leading and trailing white space.
pub open spec fn trimmed(s: Seq<char>) -> Seq<char> {
    let body = s.skip(run_len(s, CharClass::Space) as int);
    body.take(body.len() - tail_run_len(body, CharClass::Space))
}

/// Returns `s` without its leading and trailing white space.
pub fn trim(s: &str) -> (t: String)
    ensures
        t@ == trimmed(s@),
{
    let text = chars_of(s);
    let from = scan_run(&text, 0, CharClass::Space);
    let until = scan_run_back(&text, from, text.len(), CharClass::Space);
    proof {
        assert(text@.skip(0) =~= text@);
        let body = s@.skip(from as int);
        assert(body =~= text@.subrange(from as int, text.len() as int));
        assert(body.take(until - from) =~= s@.subrange(from as int, until as int));
    }
    let part = s.substring_char(from, until);
    part.to_owned()
}

} // verus!
