//! The log of what was processed: lines of text, looked up by the quoted
//! parts that a line holds.

use crate::text::{chars_of, contains_chars, occurs_at, occurs_in};
use vstd::prelude::*;
use vstd::string::StringExecFns;

verus! {

/// `part` between two quotation marks.
pub open spec fn quoted(part: Seq<char>) -> Seq<char> {
    seq!['"'] + part + seq!['"']
}

/// The line holds each of `parts` between quotation marks.
pub open spec fn line_mentions(line: Seq<char>, parts: Seq<Seq<char>>) -> bool {
    forall|i: int| 0 <= i < parts.len() ==> occurs_in(line, quoted(#[trigger] parts[i]))
}

/// Some line of the log holds each of `parts` between quotation marks.
pub open spec fn logged(lines: Seq<String>, parts: Seq<Seq<char>>) -> bool {
    exists|l: int| 0 <= l < lines.len() && line_mentions(#[trigger] lines[l]@, parts)
}

/// The text of each of `parts`.
pub open spec fn texts(parts: Seq<&String>) -> Seq<Seq<char>> {
    parts.map_values(|p: &String| p@)
}

/// The line that records the pair `(item, image)`.
pub open spec fn record_line(item: Seq<char>, image: Seq<char>) -> Seq<char> {
    "Adding \"P180\": "@ + quoted(item) + " to "@ + quoted(image)
}

/// `part` between two quotation marks.
pub fn quote(part: &str) -> (out: String)
    ensures
        out@ == quoted(part@),
{
    let mut out = String::from_str("\"");
    out.append(part);
    out.append("\"");
    proof {
        reveal_strlit("\"");
        assert("\""@ =~= seq!['"']);
    }
    out
}

/// Whether `line` holds each of `parts` between quotation marks.
pub fn mentions_all(line: &str, parts: &Vec<&String>) -> (out: bool)
    ensures
        out == line_mentions(line@, texts(parts@)),
{
    let hay = chars_of(line);
    let mut i: usize = 0;
    while i < parts.len()
        invariant
            i <= parts.len(),
            hay@ == line@,
            forall|k: int| 0 <= k < i ==> occurs_in(line@, quoted(#[trigger] texts(parts@)[k])),
        decreases parts.len() - i,
    {
        let needle = chars_of(quote(parts[i].as_str()).as_str());
        proof {
            assert(texts(parts@)[i as int] == parts@[i as int]@);
        }
        if !contains_chars(&hay, &needle) {
            return false;
        }
        i += 1;
    }
    true
}

/// Whether some line of `lines` holds each of `parts` between quotation
/// marks.
pub fn in_log(lines: &Vec<String>, parts: &Vec<&String>) -> (out: bool)
    ensures
        out == logged(lines@, texts(parts@)),
{
    let mut l: usize = 0;
    while l < lines.len()
        invariant
            l <= lines.len(),
            forall|k: int| 0 <= k < l ==> !line_mentions(#[trigger] lines@[k]@, texts(parts@)),
        decreases lines.len() - l,
    {
        if mentions_all(lines[l].as_str(), parts) {
            return true;
        }
        l += 1;
    }
    false
}

/// The line that records the pair `(item, image)`.
pub fn log_line(item: &str, image: &str) -> (out: String)
    ensures
        out@ == record_line(item@, image@),
{
    let mut out = String::from_str("Adding \"P180\": ");
    out.append(quote(item).as_str());
    out.append(" to ");
    out.append(quote(image).as_str());
    out
}

/// The line recording a pair holds both of its parts between quotation marks.
pub proof fn lemma_record_line_mentions(item: Seq<char>, image: Seq<char>)
    ensures
        line_mentions(record_line(item, image), seq![item, image]),
{
    let head = "Adding \"P180\": "@;
    let mid = " to "@;
    let line = record_line(item, image);
    let at_item = head.len() as int;
    let at_image = (head.len() + quoted(item).len() + mid.len()) as int;
    assert(line.subrange(at_item, at_item + quoted(item).len()) =~= quoted(item));
    assert(occurs_at(line, quoted(item), at_item));
    assert(line.subrange(at_image, at_image + quoted(image).len()) =~= quoted(image));
    assert(occurs_at(line, quoted(image), at_image));
    let parts = seq![item, image];
    assert forall|i: int| 0 <= i < parts.len() implies occurs_in(line, quoted(#[trigger] parts[i])) by {
        if i == 0 {
            assert(parts[i] == item);
        } else {
            assert(parts[i] == image);
        }
    }
}

/// Once the line recording a pair is appended, the pair is found in the log,
/// and whatever was found before is still found.
pub proof fn lemma_logged_after_append(lines: Seq<String>, line: String, item: Seq<char>, image: Seq<char>)
    requires
        line@ == record_line(item, image),
    ensures
        logged(lines.push(line), seq![item, image]),
        forall|parts: Seq<Seq<char>>| logged(lines, parts) ==> logged(lines.push(line), parts),
{
    lemma_record_line_mentions(item, image);
    let after = lines.push(line);
    assert(after[lines.len() as int] == line);
    assert forall|parts: Seq<Seq<char>>| logged(lines, parts) implies logged(after, parts) by {
        let l = choose|l: int| 0 <= l < lines.len() && line_mentions(#[trigger] lines[l]@, parts);
        assert(after[l] == lines[l]);
    }
}

} // verus!
