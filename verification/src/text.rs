use vstd::prelude::*;
use vstd::string::*;

verus! {

/// `text` starts with `prefix`.
pub open spec fn has_prefix(text: Seq<char>, prefix: Seq<char>) -> bool {
    prefix.len() <= text.len() && text.subrange(0, prefix.len() as int) == prefix
}

/// Whether two strings hold the same characters.
pub fn str_equals(left: &str, right: &str) -> (equal: bool)
    ensures
        equal == (left@ == right@),
{
    let length = left.unicode_len();
    if length != right.unicode_len() {
        return false;
    }
    let mut i: usize = 0;
    while i < length
        invariant
            length == left@.len(),
            length == right@.len(),
            0 <= i <= length,
            forall|k: int| 0 <= k < i ==> left@[k] == right@[k],
        decreases length - i,
    {
        if left.get_char(i) != right.get_char(i) {
            return false;
        }
        i = i + 1;
    }
    assert(left@ =~= right@);
    true
}

/// The rest of `text` after `prefix`, where `text` starts with it.
pub fn strip_prefix<'a>(text: &'a str, prefix: &str) -> (rest: Option<&'a str>)
    ensures
        rest is Some <==> has_prefix(text@, prefix@),
        rest matches Some(rest) ==> rest@ == text@.subrange(prefix@.len() as int, text@.len() as int),
{
    let length = text.unicode_len();
    let prefix_length = prefix.unicode_len();
    if prefix_length > length {
        return None;
    }
    let head = text.substring_char(0, prefix_length);
    if str_equals(head, prefix) {
        Some(text.substring_char(prefix_length, length))
    } else {
        None
    }
}

/// Whether `text` holds the character `needle`.
pub fn contains_char(text: &str, needle: char) -> (found: bool)
    ensures
        found == text@.contains(needle),
{
    let length = text.unicode_len();
    let mut i: usize = 0;
    while i < length
        invariant
            length == text@.len(),
            0 <= i <= length,
            forall|k: int| 0 <= k < i ==> text@[k] != needle,
        decreases length - i,
    {
        if text.get_char(i) == needle {
            assert(text@[i as int] == needle);
            return true;
        }
        i = i + 1;
    }
    false
}

} // verus!
