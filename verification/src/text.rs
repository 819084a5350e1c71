//! Sequences of characters: how one text occurs in another, how an identifier
//! is quoted, and how a list of names is joined.

use vstd::prelude::*;
use vstd::string::*;

verus! {

/// `needle` stands in `hay` starting at position `at`.
pub open spec fn occurs_at(hay: Seq<char>, needle: Seq<char>, at: int) -> bool {
    &&& 0 <= at
    &&& at + needle.len() <= hay.len()
    &&& hay.subrange(at, at + needle.len()) == needle
}

/// `needle` stands somewhere in `hay`.
pub open spec fn contains(hay: Seq<char>, needle: Seq<char>) -> bool {
    exists|at: int| occurs_at(hay, needle, at)
}

/// `hay` ends with `tail`.
pub open spec fn ends_with(hay: Seq<char>, tail: Seq<char>) -> bool {
    occurs_at(hay, tail, hay.len() - tail.len())
}

/// An identifier between two double quotes. Quote characters inside the
/// identifier are left as they are.
pub open spec fn quoted(id: Seq<char>) -> Seq<char> {
    seq!['"'] + id + seq!['"']
}

/// The identifier holds a double quote, which would end the quotation that
/// the identifier is set in.
pub open spec fn holds_quote(id: Seq<char>) -> bool {
    exists|i: int| 0 <= i < id.len() && id[i] == '"'
}

/// The first `n` parts, with `sep` between each two neighbours.
pub open spec fn joined_prefix(parts: Seq<Seq<char>>, sep: Seq<char>, n: nat) -> Seq<char>
    decreases n,
{
    if n == 0 {
        Seq::empty()
    } else if n == 1 {
        parts[0]
    } else {
        joined_prefix(parts, sep, (n - 1) as nat) + sep + parts[n - 1]
    }
}

/// All parts, with `sep` between each two neighbours.
pub open spec fn joined(parts: Seq<Seq<char>>, sep: Seq<char>) -> Seq<char> {
    joined_prefix(parts, sep, parts.len())
}

/// The texts that a list of string slices holds.
pub open spec fn texts_of(parts: Seq<&str>) -> Seq<Seq<char>> {
    Seq::new(parts.len(), |i: int| parts[i]@)
}

/// The middle of three texts stands in their concatenation, right after the
/// first.
pub proof fn lemma_middle_occurs(before: Seq<char>, middle: Seq<char>, after: Seq<char>)
    ensures
        occurs_at(before + middle + after, middle, before.len() as int),
        contains(before + middle + after, middle),
{
    let whole = before + middle + after;
    assert(whole.subrange(before.len() as int, (before.len() + middle.len()) as int) =~= middle);
}

/// A text ends with what was put last.
pub proof fn lemma_ends_with_last(before: Seq<char>, last: Seq<char>)
    ensures
        ends_with(before + last, last),
{
    assert((before + last).subrange(before.len() as int, (before.len() + last.len()) as int)
        =~= last);
}

/// A quoted identifier starts and ends with a double quote, and where the
/// identifier holds none, there is no other in it.
pub proof fn plain_identifier_stays_quoted(id: Seq<char>)
    ensures
        quoted(id).len() == id.len() + 2,
        quoted(id).first() == '"',
        quoted(id).last() == '"',
        !holds_quote(id) ==> forall|i: int|
            0 < i < quoted(id).len() - 1 ==> #[trigger] quoted(id)[i] != '"',
{
    if !holds_quote(id) {
        assert forall|i: int| 0 < i < quoted(id).len() - 1 implies #[trigger] quoted(id)[i]
            != '"' by {
            assert(quoted(id)[i] == id[i - 1]);
        }
    }
}

/// Whether the identifier holds a double quote. The builders do not test
/// this: a caller that takes identifiers from elsewhere tests it first.
pub fn has_quote(id: &str) -> (found: bool)
    ensures
        found == holds_quote(id@),
{
    let length = id.unicode_len();
    let mut seen: usize = 0;
    while seen < length
        invariant
            length == id@.len(),
            seen <= length,
            forall|i: int| 0 <= i < seen ==> id@[i] != '"',
        decreases length - seen,
    {
        if id.get_char(seen) == '"' {
            return true;
        }
        seen = seen + 1;
    }
    false
}

/// Joins the parts into one string, with `sep` between each two neighbours.
pub fn join(parts: &Vec<&str>, sep: &str) -> (text: String)
    ensures
        text@ == joined(texts_of(parts@), sep@),
{
    let mut text = String::new();
    let mut done: usize = 0;
    while done < parts.len()
        invariant
            done <= parts.len(),
            text@ == joined_prefix(texts_of(parts@), sep@, done as nat),
        decreases parts.len() - done,
    {
        if done > 0 {
            text.append(sep);
        }
        text.append(parts[done]);
        done = done + 1;
        proof {
            if done == 1 {
                assert(text@ =~= texts_of(parts@)[0]);
            }
        }
    }
    text
}

} // verus!
