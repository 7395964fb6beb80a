//! Telling a statement that reads from one that writes.

use vstd::prelude::*;
use vstd::string::*;

verus! {

/// Whether a character is white space: one of the code points that carry
/// the Unicode property `White_Space`.
pub open spec fn is_space(c: char) -> bool {
    let code = c as u32;
    ||| 0x09 <= code <= 0x0D
    ||| code == 0x20
    ||| code == 0x85
    ||| code == 0xA0
    ||| code == 0x1680
    ||| 0x2000 <= code <= 0x200A
    ||| code == 0x2028
    ||| code == 0x2029
    ||| code == 0x202F
    ||| code == 0x205F
    ||| code == 0x3000
}

/// The text without the white space it begins with.
pub open spec fn trimmed_start(text: Seq<char>) -> Seq<char>
    decreases text.len(),
{
    if text.len() > 0 && is_space(text[0]) {
        trimmed_start(text.drop_first())
    } else {
        text
    }
}

/// The text without the white space it ends with.
pub open spec fn trimmed_end(text: Seq<char>) -> Seq<char>
    decreases text.len(),
{
    if text.len() > 0 && is_space(text.last()) {
        trimmed_end(text.drop_last())
    } else {
        text
    }
}

/// The text without the white space at either end.
pub open spec fn trimmed(text: Seq<char>) -> Seq<char> {
    trimmed_end(trimmed_start(text))
}

/// Whether a character is white space.
pub fn is_whitespace(c: char) -> (space: bool)
    ensures
        space == is_space(c),
{
    let code = c as u32;
    (0x09 <= code && code <= 0x0D) || code == 0x20 || code == 0x85 || code == 0xA0 || code
        == 0x1680 || (0x2000 <= code && code <= 0x200A) || code == 0x2028 || code == 0x2029
        || code == 0x202F || code == 0x205F || code == 0x3000
}

/// A text that begins with `start` characters of white space, and no more,
/// is trimmed to what follows them.
proof fn lemma_trimmed_start(text: Seq<char>, start: int)
    requires
        0 <= start <= text.len(),
        forall|k: int| 0 <= k < start ==> is_space(#[trigger] text[k]),
        start < text.len() ==> !is_space(text[start]),
    ensures
        trimmed_start(text) == text.skip(start),
    decreases start,
{
    if start == 0 {
        assert(text.skip(0) =~= text);
    } else {
        let rest = text.drop_first();
        assert forall|k: int| 0 <= k < start - 1 implies is_space(#[trigger] rest[k]) by {
            assert(rest[k] == text[k + 1]);
        }
        lemma_trimmed_start(rest, start - 1);
        assert(rest.skip(start - 1) =~= text.skip(start));
    }
}

/// A text that has only white space from `end` on, and not before it, is
/// trimmed to what stands before `end`.
proof fn lemma_trimmed_end(text: Seq<char>, end: int)
    requires
        0 <= end <= text.len(),
        forall|k: int| end <= k < text.len() ==> is_space(#[trigger] text[k]),
        0 < end ==> !is_space(text[end - 1]),
    ensures
        trimmed_end(text) == text.take(end),
    decreases text.len() - end,
{
    if end == text.len() {
        assert(text.take(end) =~= text);
    } else {
        let rest = text.drop_last();
        lemma_trimmed_end(rest, end);
        assert(rest.take(end) =~= text.take(end));
    }
}

/// The text without the white space at either end.
pub fn trim(text: &str) -> (inner: &str)
    ensures
        inner@ == trimmed(text@),
{
    let length = text.unicode_len();
    let mut start: usize = 0;
    let mut end: usize = 0;
    let mut seen = false;
    let mut at: usize = 0;
    for c in it: text.chars()
        invariant
            it.seq() == text@,
            length == text@.len(),
            at == it.index(),
            at <= length,
            !seen ==> start == 0 && end == 0,
            !seen ==> forall|k: int| 0 <= k < at ==> is_space(#[trigger] text@[k]),
            seen ==> start < end <= at,
            seen ==> forall|k: int| 0 <= k < start ==> is_space(#[trigger] text@[k]),
            seen ==> !is_space(text@[start as int]) && !is_space(text@[end - 1]),
            seen ==> forall|k: int| end <= k < at ==> is_space(#[trigger] text@[k]),
    {
        assert(c == text@[at as int]);
        if !is_whitespace(c) {
            if !seen {
                start = at;
                seen = true;
            }
            end = at + 1;
        }
        at += 1;
    }
    let inner = text.substring_char(start, end);
    proof {
        let whole = text@;
        if seen {
            lemma_trimmed_start(whole, start as int);
            let tail = whole.skip(start as int);
            assert forall|k: int| end - start <= k < tail.len() implies is_space(
                #[trigger] tail[k],
            ) by {
                assert(tail[k] == whole[k + start]);
            }
            assert(tail[end - start - 1] == whole[end - 1]);
            lemma_trimmed_end(tail, end - start);
            assert(tail.take(end - start) =~= whole.subrange(start as int, end as int));
        } else {
            lemma_trimmed_start(whole, whole.len() as int);
            let tail = whole.skip(whole.len() as int);
            lemma_trimmed_end(tail, 0);
            assert(tail.take(0) =~= whole.subrange(0, 0));
        }
    }
    inner
}

/// The upper-case form of a text, as `str::to_uppercase` gives it.
pub uninterp spec fn uppercase(text: Seq<char>) -> Seq<char>;

/// `str::to_uppercase`: the text with each character replaced by its
/// upper-case mapping of the Unicode character database.
#[verifier::external_body]
fn to_uppercase(text: &str) -> (upper: String)
    ensures
        upper@ == uppercase(text@),
{
    text.to_uppercase()
}

/// The keyword that a reading statement begins with.
pub open spec fn select_keyword() -> Seq<char> {
    seq!['S', 'E', 'L', 'E', 'C', 'T']
}

/// Whether a text begins with the keyword `SELECT`.
pub open spec fn begins_with_select(text: Seq<char>) -> bool {
    text.len() >= 6 && text.take(6) == select_keyword()
}

/// Whether a statement reads: whether it begins with `SELECT`, in letters of
/// either case, after the white space before it.
pub open spec fn is_select_text(query: Seq<char>) -> bool {
    begins_with_select(uppercase(trimmed(query)))
}

/// Whether an upper-case text begins with the keyword `SELECT`.
pub fn has_select_prefix(upper: &str) -> (found: bool)
    ensures
        found == begins_with_select(upper@),
{
    if upper.unicode_len() < 6 {
        return false;
    }
    let found = upper.get_char(0) == 'S' && upper.get_char(1) == 'E' && upper.get_char(2) == 'L'
        && upper.get_char(3) == 'E' && upper.get_char(4) == 'C' && upper.get_char(5) == 'T';
    proof {
        let head = upper@.take(6);
        if found {
            assert(head =~= select_keyword());
        } else {
            assert(head[0] == upper@[0]);
            assert(head[1] == upper@[1]);
            assert(head[2] == upper@[2]);
            assert(head[3] == upper@[3]);
            assert(head[4] == upper@[4]);
            assert(head[5] == upper@[5]);
            assert(select_keyword()[0] == 'S');
            assert(select_keyword()[1] == 'E');
            assert(select_keyword()[2] == 'L');
            assert(select_keyword()[3] == 'E');
            assert(select_keyword()[4] == 'C');
            assert(select_keyword()[5] == 'T');
        }
    }
    found
}

/// A statement that is ready to run: its text without the white space
/// around it, and whether it reads, and so returns records, or writes, and
/// so returns a count.
pub enum Statement<'a> {
    Read(&'a str),
    Write(&'a str),
}

/// Trims a statement and tells whether it reads or writes.
pub fn classify<'a>(query: &'a str) -> (statement: Statement<'a>)
    ensures
        match statement {
            Statement::Read(text) => text@ == trimmed(query@) && is_select_text(query@),
            Statement::Write(text) => text@ == trimmed(query@) && !is_select_text(query@),
        },
{
    let text = trim(query);
    let upper = to_uppercase(text);
    if has_select_prefix(upper.as_str()) {
        Statement::Read(text)
    } else {
        Statement::Write(text)
    }
}

/// Whether a statement reads.
pub fn is_select(query: &str) -> (reads: bool)
    ensures
        reads == is_select_text(query@),
{
    match classify(query) {
        Statement::Read(_) => true,
        Statement::Write(_) => false,
    }
}

} // verus!
