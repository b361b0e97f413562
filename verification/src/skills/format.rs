//! The text that skills show the user and store in the Cortex.
use vstd::prelude::*;
use crate::connectors::traits::InboxItem;
use crate::text::{contains_spec, join, join_spec, occurs_at, prefix_spec, take_chars, views};
use crate::types::{opt_text, Node};

verus! {

/// How a recalled node is summarized on one line.
#[derive(PartialEq, Eq, Structural, Clone, Copy, Debug)]
pub enum LineKind {
    /// `- [type] title: <the first 200 characters of the content>`
    Detailed,
    /// `- [type] title`
    Typed,
    /// `- title`
    TitleOnly,
    /// `[type] title: <the first 300 characters of the content>`
    Chat,
}

/// The line that summarizes a node.
pub open spec fn node_line(kind: LineKind, n: Node) -> Seq<char> {
    match kind {
        LineKind::Detailed => "- ["@ + n.node_type@ + "] "@ + n.title@ + ": "@ + prefix_spec(
            opt_text(n.content),
            200,
        ),
        LineKind::Typed => "- ["@ + n.node_type@ + "] "@ + n.title@,
        LineKind::TitleOnly => "- "@ + n.title@,
        LineKind::Chat => "["@ + n.node_type@ + "] "@ + n.title@ + ": "@ + prefix_spec(
            opt_text(n.content),
            300,
        ),
    }
}

/// The line that summarizes a node.
pub fn line_of(kind: LineKind, n: &Node) -> (r: String)
    ensures
        r@ == node_line(kind, *n),
{
    let content: &str = match &n.content {
        Some(c) => c.as_str(),
        None => "",
    };
    proof {
        reveal_strlit("");
    }
    match kind {
        LineKind::Detailed => {
            let mut r = "- [".to_owned();
            r.append(n.node_type.as_str());
            r.append("] ");
            r.append(n.title.as_str());
            r.append(": ");
            r.append(take_chars(content, 200).as_str());
            r
        },
        LineKind::Typed => {
            let mut r = "- [".to_owned();
            r.append(n.node_type.as_str());
            r.append("] ");
            r.append(n.title.as_str());
            r
        },
        LineKind::TitleOnly => {
            let mut r = "- ".to_owned();
            r.append(n.title.as_str());
            r
        },
        LineKind::Chat => {
            let mut r = "[".to_owned();
            r.append(n.node_type.as_str());
            r.append("] ");
            r.append(n.title.as_str());
            r.append(": ");
            r.append(take_chars(content, 300).as_str());
            r
        },
    }
}

/// The summary lines of the first `limit` nodes, joined with newlines.
pub open spec fn summary_spec(nodes: Seq<Node>, limit: nat, kind: LineKind) -> Seq<char> {
    let n = if nodes.len() < limit {
        nodes.len()
    } else {
        limit
    };
    join_spec(Seq::new(n, |i: int| node_line(kind, nodes[i])), "\n"@)
}

/// Summarizes the first `limit` recalled nodes, one per line.
pub fn summary(nodes: &Vec<Node>, limit: usize, kind: LineKind) -> (r: String)
    ensures
        r@ == summary_spec(nodes@, limit as nat, kind),
{
    let n = if nodes.len() < limit {
        nodes.len()
    } else {
        limit
    };
    let mut lines: Vec<String> = Vec::new();
    let mut i: usize = 0;
    while i < n
        invariant
            n <= nodes@.len(),
            i <= n,
            lines@.len() == i,
            forall|t: int| 0 <= t < i ==> #[trigger] lines@[t]@ == node_line(kind, nodes@[t]),
        decreases n - i,
    {
        lines.push(line_of(kind, &nodes[i]));
        i = i + 1;
    }
    assert(views(lines@) =~= Seq::new(n as nat, |i: int| node_line(kind, nodes@[i])));
    join(&lines, "\n")
}

/// The line that summarizes a captured item.
pub open spec fn item_line_spec(item: InboxItem) -> Seq<char> {
    "- ["@ + item.source@ + "] "@ + item.title@ + ": "@ + prefix_spec(item.content@, 100)
}

/// The line that summarizes a captured item.
pub fn item_line(item: &InboxItem) -> (r: String)
    ensures
        r@ == item_line_spec(*item),
{
    let mut r = "- [".to_owned();
    r.append(item.source.as_str());
    r.append("] ");
    r.append(item.title.as_str());
    r.append(": ");
    r.append(take_chars(item.content.as_str(), 100).as_str());
    r
}

/// Each entry on a line of its own: `prefix`, the entry, a newline.
pub open spec fn bullets_spec(entries: Seq<String>, prefix: Seq<char>) -> Seq<char>
    decreases entries.len(),
{
    if entries.len() == 0 {
        Seq::empty()
    } else {
        bullets_spec(entries.drop_last(), prefix) + prefix + entries.last()@ + "\n"@
    }
}

/// A text found in `a` is found in `a + b` at the same place.
pub proof fn lemma_occurs_in_front(a: Seq<char>, b: Seq<char>, needle: Seq<char>, i: int)
    requires
        occurs_at(a, needle, i),
    ensures
        occurs_at(a + b, needle, i),
{
    assert((a + b).subrange(i, i + needle.len()) =~= a.subrange(i, i + needle.len()));
}

/// A text found in `b` is found in `a + b`, shifted by the length of `a`.
pub proof fn lemma_occurs_behind(a: Seq<char>, b: Seq<char>, needle: Seq<char>, i: int)
    requires
        occurs_at(b, needle, i),
    ensures
        occurs_at(a + b, needle, a.len() + i),
{
    assert((a + b).subrange(a.len() + i, a.len() + i + needle.len()) =~= b.subrange(i, i + needle.len()));
}

/// Every entry shows on a line of its own, after `prefix`.
pub proof fn lemma_bullets_show_entries(entries: Seq<String>, prefix: Seq<char>, i: int)
    requires
        0 <= i < entries.len(),
    ensures
        contains_spec(bullets_spec(entries, prefix), prefix + entries[i]@ + "\n"@),
    decreases entries.len(),
{
    let rest = bullets_spec(entries.drop_last(), prefix);
    let line = prefix + entries.last()@ + "\n"@;
    assert(bullets_spec(entries, prefix) =~= rest + line);
    if i == entries.len() - 1 {
        assert((rest + line).subrange(rest.len() as int, (rest.len() + line.len()) as int) =~= line);
        assert(occurs_at(rest + line, line, rest.len() as int));
    } else {
        lemma_bullets_show_entries(entries.drop_last(), prefix, i);
        assert(entries.drop_last()[i] == entries[i]);
        let needle = prefix + entries[i]@ + "\n"@;
        let k = choose|k: int| occurs_at(rest, needle, k);
        lemma_occurs_in_front(rest, line, needle, k);
    }
}

/// Appends each entry on a line of its own, after `prefix`.
pub fn push_bullets(out: &mut String, entries: &Vec<String>, prefix: &str)
    ensures
        final(out)@ == old(out)@ + bullets_spec(entries@, prefix@),
{
    let mut i: usize = 0;
    while i < entries.len()
        invariant
            i <= entries@.len(),
            out@ == old(out)@ + bullets_spec(entries@.take(i as int), prefix@),
        decreases entries.len() - i,
    {
        out.append(prefix);
        out.append(entries[i].as_str());
        out.append("\n");
        assert(entries@.take(i + 1).drop_last() == entries@.take(i as int));
        i = i + 1;
    }
    assert(entries@.take(entries@.len() as int) == entries@);
}

/// A titled section listing entries, or nothing when there are none.
pub open spec fn section_spec(entries: Seq<String>, heading: Seq<char>, prefix: Seq<char>) -> Seq<char> {
    if entries.len() == 0 {
        Seq::empty()
    } else {
        heading + bullets_spec(entries, prefix)
    }
}

/// Every entry of a section shows on a line of its own, after `prefix`,
/// wherever the section stands in a text.
pub proof fn lemma_section_shows_entries(
    pre: Seq<char>,
    entries: Seq<String>,
    heading: Seq<char>,
    prefix: Seq<char>,
    post: Seq<char>,
    i: int,
)
    requires
        0 <= i < entries.len(),
    ensures
        contains_spec(pre + section_spec(entries, heading, prefix) + post, prefix + entries[i]@ + "\n"@),
{
    let needle = prefix + entries[i]@ + "\n"@;
    let b = bullets_spec(entries, prefix);
    lemma_bullets_show_entries(entries, prefix, i);
    let k = choose|k: int| occurs_at(b, needle, k);
    lemma_occurs_behind(heading, b, needle, k);
    assert(section_spec(entries, heading, prefix) == heading + b);
    lemma_occurs_behind(pre, heading + b, needle, heading.len() + k);
    lemma_occurs_in_front(pre + (heading + b), post, needle, pre.len() + heading.len() + k);
}

/// Appends a titled section listing entries, when there are any.
pub fn push_section(out: &mut String, entries: &Vec<String>, heading: &str, prefix: &str)
    ensures
        final(out)@ == old(out)@ + section_spec(entries@, heading@, prefix@),
{
    if entries.len() > 0 {
        out.append(heading);
        push_bullets(out, entries, prefix);
    }
}

/// The views of strings joined with `sep`.
pub open spec fn joined(v: Seq<String>, sep: Seq<char>) -> Seq<char> {
    join_spec(views(v), sep)
}

} // verus!
