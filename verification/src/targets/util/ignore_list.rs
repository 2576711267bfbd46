//! A veto on records by the tag of their source.

use vstd::prelude::*;
use crate::record::LogRecord;

verus! {

/// Whether `pattern` occurs in `text` as a run of adjacent characters. The
/// empty pattern occurs in every text.
pub open spec fn occurs_in(pattern: Seq<char>, text: Seq<char>) -> bool {
    exists|at: int| occurs_at(pattern, text, at)
}

/// Whether `pattern` occurs in `text` starting at position `at`.
pub open spec fn occurs_at(pattern: Seq<char>, text: Seq<char>, at: int) -> bool {
    &&& 0 <= at
    &&& at + pattern.len() <= text.len()
    &&& text.subrange(at, at + pattern.len()) == pattern
}

/// The characters of a string, one by one.
fn chars_of(s: &str) -> (chars: Vec<char>)
    ensures
        chars@ == s@,
{
    let mut chars: Vec<char> = Vec::new();
    for c in it: s.chars()
        invariant
            it.seq() == s@,
            chars@ == it.seq().take(it.index()),
    {
        chars.push(c);
        assert(chars@ =~= it.seq().take(it.index() + 1));
    }
    assert(chars@ =~= s@);
    chars
}

/// Whether `pattern` stands in `text` at position `at`.
fn found_at(pattern: &Vec<char>, text: &Vec<char>, at: usize) -> (found: bool)
    requires
        at + pattern.len() <= text.len(),
    ensures
        found == occurs_at(pattern@, text@, at as int),
{
    let mut j: usize = 0;
    while j < pattern.len()
        invariant
            j <= pattern.len(),
            at + pattern.len() <= text.len(),
            forall|k: int| 0 <= k < j ==> text@[at + k] == pattern@[k],
        decreases pattern.len() - j,
    {
        if text[at + j] != pattern[j] {
            assert(text@.subrange(at as int, at + pattern.len())[j as int] != pattern@[j as int]);
            return false;
        }
        j = j + 1;
    }
    assert(text@.subrange(at as int, at + pattern.len()) =~= pattern@);
    true
}

/// Whether `pattern` stands anywhere in `text`.
fn found_in(pattern: &Vec<char>, text: &Vec<char>) -> (found: bool)
    ensures
        found == occurs_in(pattern@, text@),
{
    if pattern.len() > text.len() {
        return false;
    }
    let last: usize = text.len() - pattern.len();
    let mut at: usize = 0;
    while at < last
        invariant
            last == text.len() - pattern.len(),
            at <= last,
            forall|k: int| 0 <= k < at ==> !occurs_at(pattern@, text@, k),
        decreases last - at,
    {
        if found_at(pattern, text, at) {
            return true;
        }
        at = at + 1;
    }
    found_at(pattern, text, last)
}

/// The patterns of an ignore list, as they are handed to it.
pub type IgnoreListPatterns<'a> = &'a [&'a str];

/// An ordered list of patterns. A record whose source tag holds one of them
/// is to be ignored.
#[derive(Clone, Copy, Debug)]
pub struct IgnoreList<'a> {
    patterns: IgnoreListPatterns<'a>,
}

impl<'a> IgnoreList<'a> {
    /// The patterns of the list, in order.
    pub closed spec fn patterns(self) -> Seq<Seq<char>> {
        Seq::new(self.patterns@.len(), |i: int| self.patterns@[i]@)
    }

    /// Whether the list vetoes a source tag: one of its patterns occurs in
    /// the tag.
    pub open spec fn vetoes(self, source: Seq<char>) -> bool {
        exists|i: int| 0 <= i < self.patterns().len() && occurs_in(#[trigger] self.patterns()[i], source)
    }

    /// The list of the given patterns.
    pub fn new(patterns: IgnoreListPatterns<'a>) -> (list: Self)
        ensures
            list.patterns().len() == patterns@.len(),
            forall|i: int| 0 <= i < patterns@.len() ==> list.patterns()[i] == patterns@[i]@,
    {
        IgnoreList { patterns }
    }

    /// Whether the record is to be ignored: some pattern of the list occurs
    /// in its source tag.
    pub fn ignore(&self, record: &LogRecord) -> (ignored: bool)
        ensures
            ignored == self.vetoes(record.source@),
    {
        let text = chars_of(record.source);
        let mut i: usize = 0;
        while i < self.patterns.len()
            invariant
                i <= self.patterns.len(),
                text@ == record.source@,
                forall|k: int| 0 <= k < i ==> !occurs_in(#[trigger] self.patterns()[k], text@),
            decreases self.patterns.len() - i,
        {
            let pattern = chars_of(self.patterns[i]);
            assert(pattern@ == self.patterns()[i as int]);
            if found_in(&pattern, &text) {
                return true;
            }
            i = i + 1;
        }
        false
    }
}

impl<'a> Default for IgnoreList<'a> {
    /// The list without patterns, which ignores nothing.
    fn default() -> (list: Self)
        ensures
            list.patterns().len() == 0,
    {
        IgnoreList { patterns: &[] }
    }
}

/// A list without patterns ignores nothing, and a list that holds the empty
/// pattern ignores everything.
pub proof fn lemma_vetoes_at_the_extremes(list: IgnoreList, source: Seq<char>)
    ensures
        list.patterns().len() == 0 ==> !list.vetoes(source),
        (exists|i: int| 0 <= i < list.patterns().len() && #[trigger] list.patterns()[i].len() == 0)
            ==> list.vetoes(source),
{
    if exists|i: int| 0 <= i < list.patterns().len() && #[trigger] list.patterns()[i].len() == 0 {
        let i = choose|i: int| 0 <= i < list.patterns().len() && #[trigger] list.patterns()[i].len() == 0;
        assert(source.subrange(0, 0) =~= list.patterns()[i]);
        assert(occurs_at(list.patterns()[i], source, 0));
    }
}

} // verus!
