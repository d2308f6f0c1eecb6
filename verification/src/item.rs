//! The items of the fuzzy-search list and what a chosen item yields.

use vstd::prelude::*;
use vstd::std_specs::iter::IteratorSpec;
use vstd::string::StringExecFns;
use vstd::string::StrSliceExecFns;
use crate::entry::EmojiContainer;
use crate::entry::EntryView;

verus! {

/// How many characters of `s` stand before its first line feed: the whole
/// length where `s` holds none.
pub open spec fn line_end(s: Seq<char>) -> nat
    decreases s.len(),
{
    if s.len() == 0 || s[0] == '\n' {
        0
    } else {
        1 + line_end(s.drop_first())
    }
}

/// The first line of `s`: everything before its first line feed.
pub open spec fn first_line(s: Seq<char>) -> Seq<char> {
    s.take(line_end(s) as int)
}

/// The text under which an entry is listed: glyph, line feed, description.
pub open spec fn item_text(entry: EntryView) -> Seq<char> {
    entry.emoji + seq!['\n'] + entry.description
}

/// `line_end(s)` is the least position that is the end of `s` or holds a
/// line feed.
pub proof fn lemma_line_end(s: Seq<char>)
    ensures
        line_end(s) <= s.len(),
        forall|i: int| 0 <= i < line_end(s) ==> s[i] != '\n',
        line_end(s) < s.len() ==> s[line_end(s) as int] == '\n',
    decreases s.len(),
{
    if s.len() == 0 || s[0] == '\n' {
    } else {
        let t = s.drop_first();
        lemma_line_end(t);
        assert forall|i: int| 0 <= i < line_end(s) implies s[i] != '\n' by {
            if i > 0 {
                assert(s[i] == t[i - 1]);
            }
        }
        if line_end(s) < s.len() {
            assert(s[line_end(s) as int] == t[line_end(t) as int]);
        }
    }
}

/// A position that is the end of `s` or holds a line feed, with no line feed
/// before it, is `line_end(s)`.
pub proof fn lemma_line_end_is(s: Seq<char>, n: int)
    requires
        0 <= n <= s.len(),
        forall|i: int| 0 <= i < n ==> s[i] != '\n',
        n < s.len() ==> s[n] == '\n',
    ensures
        line_end(s) == n,
{
    lemma_line_end(s);
    let e = line_end(s) as int;
    if e < n {
        assert(s[e] == '\n');
    } else if n < e {
        assert(s[n] == '\n');
    }
}

/// One row of the list. Its text is `glyph`, a line feed, `description`.
#[derive(Clone, Debug)]
pub struct CustomSkimItem {
    inner: String,
}

/// The texts of a list of rows, in order.
pub open spec fn items_view(v: Seq<CustomSkimItem>) -> Seq<Seq<char>> {
    Seq::new(v.len(), |i: int| v[i]@)
}

impl View for CustomSkimItem {
    type V = Seq<char>;

    closed spec fn view(&self) -> Seq<char> {
        self.inner@
    }
}

impl CustomSkimItem {
    /// The row for one entry.
    pub fn new(entry: &EmojiContainer) -> (item: CustomSkimItem)
        ensures
            item@ == item_text(entry@),
    {
        let mut inner = String::from_str(entry.emoji());
        inner.append("\n");
        inner.append(entry.description());
        proof {
            reveal_strlit("\n");
            assert("\n"@ =~= seq!['\n']);
        }
        CustomSkimItem { inner }
    }

    /// The text shown in the list.
    pub fn display(&self) -> (shown: &str)
        ensures
            shown@ == self@,
    {
        self.inner.as_str()
    }

    /// The text that the fuzzy search matches against: the text shown.
    pub fn text(&self) -> (matched: &str)
        ensures
            matched@ == self@,
    {
        self.inner.as_str()
    }

    /// What the row yields once chosen: its first line, which is the glyph.
    pub fn output(&self) -> (chosen: String)
        ensures
            chosen@ == first_line(self@),
    {
        let s = self.inner.as_str();
        let len = s.unicode_len();
        let mut chars = s.chars();
        let mut n: usize = 0;
        loop
            invariant_except_break
                chars.remaining() == s@.skip(n as int),
            invariant
                n <= len,
                len == s@.len(),
                forall|i: int| 0 <= i < n ==> s@[i] != '\n',
            ensures
                n <= len,
                forall|i: int| 0 <= i < n ==> s@[i] != '\n',
                n < len ==> s@[n as int] == '\n',
            decreases len - n,
        {
            broadcast use vstd::string::next_postcondition;
            match chars.next() {
                Some(c) => {
                    if c == '\n' {
                        break;
                    }
                    n = n + 1;
                },
                None => {
                    break;
                },
            }
        }
        proof {
            lemma_line_end_is(s@, n as int);
        }
        String::from_str(s.substring_char(0, n))
    }
}

} // verus!
