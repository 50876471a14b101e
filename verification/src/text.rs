//! Character-level helpers on strings.
//!
//! A string is reasoned about through its view, the sequence of its
//! characters. The functions here are the only place where a string is
//! walked character by character.

use vstd::prelude::*;

verus! {

/// `prefix` is an initial part of `text`.
pub open spec fn is_prefix(prefix: Seq<char>, text: Seq<char>) -> bool {
    prefix.len() <= text.len() && text.subrange(0, prefix.len() as int) == prefix
}

/// `suffix` is a final part of `text`.
pub open spec fn is_suffix(suffix: Seq<char>, text: Seq<char>) -> bool {
    suffix.len() <= text.len() && text.subrange(text.len() - suffix.len(), text.len() as int)
        == suffix
}

/// Position of the last occurrence of `wanted` in `text`, or -1 where there is
/// none.
pub open spec fn last_position(text: Seq<char>, wanted: char) -> int
    decreases text.len(),
{
    if text.len() == 0 {
        -1
    } else if text.last() == wanted {
        text.len() - 1
    } else {
        last_position(text.drop_last(), wanted)
    }
}

/// `last_position` is in range, points at `wanted`, and nothing after it is
/// `wanted`; it is -1 exactly where `wanted` does not occur.
pub proof fn lemma_last_position(text: Seq<char>, wanted: char)
    ensures
        -1 <= last_position(text, wanted) < text.len(),
        last_position(text, wanted) >= 0 ==> text[last_position(text, wanted)] == wanted,
        forall|j: int| last_position(text, wanted) < j < text.len() ==> text[j] != wanted,
        last_position(text, wanted) >= 0 <==> text.contains(wanted),
    decreases text.len(),
{
    if text.len() > 0 && text.last() != wanted {
        let front = text.drop_last();
        lemma_last_position(front, wanted);
        assert forall|j: int| last_position(text, wanted) < j < text.len() implies text[j]
            != wanted by {
            if j < front.len() {
                assert(front[j] == text[j]);
            }
        }
        if last_position(text, wanted) >= 0 {
            assert(front[last_position(front, wanted)] == text[last_position(text, wanted)]);
        }
        if text.contains(wanted) {
            let k = choose|k: int| 0 <= k < text.len() && text[k] == wanted;
            assert(front[k] == wanted);
        }
    } else if text.len() > 0 {
        assert(text[text.len() - 1] == wanted);
    }
}

/// A position that holds `wanted` and has no `wanted` after it is the last
/// position.
pub proof fn lemma_last_position_is(text: Seq<char>, wanted: char, at: int)
    requires
        0 <= at < text.len(),
        text[at] == wanted,
        forall|j: int| at < j < text.len() ==> text[j] != wanted,
    ensures
        last_position(text, wanted) == at,
{
    lemma_last_position(text, wanted);
    let found = last_position(text, wanted);
    assert(text.contains(wanted));
    if found < at {
        assert(text[at] != wanted);
    }
}

/// The characters of `text`, in order.
pub fn chars_of(text: &str) -> (chars: Vec<char>)
    ensures
        chars@ == text@,
{
    broadcast use vstd::string::axiom_spec_iter;

    let mut chars: Vec<char> = Vec::new();
    let source = text.chars();
    for c in it: source
        invariant
            it.seq() == text@,
            chars@ == text@.take(it.index()),
    {
        chars.push(c);
    }
    chars
}

/// Whether `text` begins with `prefix`.
pub fn starts_with(text: &str, prefix: &str) -> (found: bool)
    ensures
        found == is_prefix(prefix@, text@),
{
    let whole = chars_of(text);
    let part = chars_of(prefix);
    if part.len() > whole.len() {
        return false;
    }
    let mut i: usize = 0;
    while i < part.len()
        invariant
            i <= part.len() <= whole.len(),
            whole@ == text@,
            part@ == prefix@,
            whole@.subrange(0, i as int) == part@.subrange(0, i as int),
        decreases part.len() - i,
    {
        if whole[i] != part[i] {
            assert(whole@.subrange(0, part.len() as int)[i as int] != part@[i as int]);
            return false;
        }
        assert(whole@.subrange(0, i + 1) == whole@.subrange(0, i as int).push(whole@[i as int]));
        assert(part@.subrange(0, i + 1) == part@.subrange(0, i as int).push(part@[i as int]));
        i += 1;
    }
    assert(part@.subrange(0, part.len() as int) == part@);
    true
}

/// Whether `text` ends with `suffix`.
pub fn ends_with(text: &str, suffix: &str) -> (found: bool)
    ensures
        found == is_suffix(suffix@, text@),
{
    let whole = chars_of(text);
    let part = chars_of(suffix);
    if part.len() > whole.len() {
        return false;
    }
    let shift: usize = whole.len() - part.len();
    let mut i: usize = 0;
    while i < part.len()
        invariant
            i <= part.len() <= whole.len(),
            whole@ == text@,
            part@ == suffix@,
            shift == whole.len() - part.len(),
            whole@.subrange(shift as int, shift + i) == part@.subrange(0, i as int),
        decreases part.len() - i,
    {
        if whole[shift + i] != part[i] {
            assert(whole@.subrange(shift as int, whole.len() as int)[i as int] != part@[i as int]);
            return false;
        }
        assert(whole@.subrange(shift as int, shift + i + 1) == whole@.subrange(
            shift as int,
            shift + i,
        ).push(whole@[shift + i]));
        assert(part@.subrange(0, i + 1) == part@.subrange(0, i as int).push(part@[i as int]));
        i += 1;
    }
    assert(part@.subrange(0, part.len() as int) == part@);
    true
}

/// The text after the last occurrence of `separator`, or `None` where `text`
/// holds no `separator`.
pub fn after_last(text: &str, separator: char) -> (tail: Option<String>)
    ensures
        last_position(text@, separator) < 0 ==> tail is None,
        last_position(text@, separator) >= 0 ==> tail is Some && tail->0@ == text@.skip(
            last_position(text@, separator) + 1,
        ),
{
    let whole = chars_of(text);
    let mut i: usize = whole.len();
    while i > 0
        invariant
            i <= whole.len(),
            whole@ == text@,
            forall|j: int| i <= j < whole.len() ==> whole@[j] != separator,
        decreases i,
    {
        i -= 1;
        if whole[i] == separator {
            proof {
                lemma_last_position_is(text@, separator, i as int);
            }
            let tail = text.substring_char(i + 1, whole.len());
            return Some(tail.to_owned());
        }
    }
    proof {
        lemma_last_position(text@, separator);
    }
    None
}

} // verus!
