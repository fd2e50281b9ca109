//! Small helpers on text: concatenation and joining of lines.

use vstd::prelude::*;

verus! {

/// The first `n` entries of `lines`, with a line feed between neighbours.
pub open spec fn joined_lines(lines: Seq<Seq<char>>, n: nat) -> Seq<char>
    decreases n,
{
    if n == 0 {
        Seq::empty()
    } else if n == 1 {
        lines[0]
    } else {
        joined_lines(lines, (n - 1) as nat) + seq!['\n'] + lines[n - 1]
    }
}

/// The views of a list of strings, in order.
pub open spec fn texts_of(items: Seq<String>) -> Seq<Seq<char>> {
    Seq::new(items.len(), |i: int| items[i]@)
}

/// The view of a string that may be missing.
pub open spec fn optional_text(text: Option<String>) -> Option<Seq<char>> {
    match text {
        Some(t) => Some(t@),
        None => None,
    }
}

/// `prefix` followed by `rest`.
pub fn prefixed(prefix: &str, rest: &str) -> (text: String)
    ensures
        text@ == prefix@ + rest@,
{
    let mut text = String::from_str(prefix);
    text.append(rest);
    text
}

/// `prefix`, `middle` and `suffix` in one string.
pub fn enclose(prefix: &str, middle: &str, suffix: &str) -> (text: String)
    ensures
        text@ == prefix@ + middle@ + suffix@,
{
    let mut text = String::from_str(prefix);
    text.append(middle);
    text.append(suffix);
    text
}

/// Appends the entries of `lines` to `text`, with a line feed between
/// neighbours.
pub fn append_joined(text: &mut String, lines: &Vec<String>)
    ensures
        final(text)@ == old(text)@ + joined_lines(texts_of(lines@), lines@.len()),
{
    let ghost all = texts_of(lines@);
    let mut i: usize = 0;
    while i < lines.len()
        invariant
            i <= lines.len(),
            all == texts_of(lines@),
            text@ == old(text)@ + joined_lines(all, i as nat),
        decreases lines.len() - i,
    {
        if i > 0 {
            text.append("\n");
        }
        text.append(lines[i].as_str());
        proof {
            reveal_strlit("\n");
        }
        i = i + 1;
    }
}

/// Appends a copy of `item` to `list`.
pub fn push_text(list: &mut Vec<String>, item: &str)
    ensures
        texts_of(final(list)@) == texts_of(old(list)@).push(item@),
{
    list.push(String::from_str(item));
}

} // verus!
