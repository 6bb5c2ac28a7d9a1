//! Device matcher: which paths name a supported partition node, and what the
//! device is called.
//!
//! A supported node is a SCSI/SATA style partition directly under the device
//! directory: `/dev/sd`, one or two lowercase letters for the disk, one or two
//! digits for the partition (`/dev/sda1`, `/dev/sdab12`). The whole path must
//! be such a name, with nothing before it and nothing after it. The test is a
//! heuristic on the name alone: it does not ask what kind of device stands
//! behind the node.

use vstd::prelude::*;

verus! {

/// A lowercase ASCII letter.
pub open spec fn is_lower(c: char) -> bool {
    'a' <= c && c <= 'z'
}

/// An ASCII decimal digit.
pub open spec fn is_digit(c: char) -> bool {
    '0' <= c && c <= '9'
}

/// What every supported node name starts with: `/dev/sd`.
pub open spec fn node_prefix() -> Seq<char> {
    seq!['/', 'd', 'e', 'v', '/', 's', 'd']
}

/// `path` is `/dev/sd`, then `letters` lowercase letters, then `digits`
/// digits, with one or two of each, and nothing else.
pub open spec fn spells_node(path: Seq<char>, letters: int, digits: int) -> bool {
    &&& 1 <= letters <= 2
    &&& 1 <= digits <= 2
    &&& path.len() == 7 + letters + digits
    &&& path.subrange(0, 7) == node_prefix()
    &&& forall|k: int| 7 <= k < 7 + letters ==> is_lower(#[trigger] path[k])
    &&& forall|k: int| 7 + letters <= k < path.len() ==> is_digit(#[trigger] path[k])
}

/// The path is the name of a supported partition node.
pub open spec fn names_device(path: Seq<char>) -> bool {
    exists|letters: int, digits: int| spells_node(path, letters, digits)
}

/// Index of the last `/` of `s`, or -1 where `s` holds none.
pub open spec fn last_slash(s: Seq<char>) -> int
    decreases s.len(),
{
    if s.len() == 0 {
        -1
    } else if s.last() == '/' {
        s.len() - 1
    } else {
        last_slash(s.drop_last())
    }
}

/// What follows the last `/` of `path`; all of `path` where it holds none.
pub open spec fn final_segment(path: Seq<char>) -> Seq<char> {
    path.skip(last_slash(path) + 1)
}

/// The device name of `path`: its final segment, if the path names a
/// supported partition node; none for every other path.
pub open spec fn device_name(path: Seq<char>) -> Option<Seq<char>> {
    if names_device(path) {
        Some(final_segment(path))
    } else {
        None
    }
}

/// The text of a device name that was handed out, if one was.
pub open spec fn name_text(name: Option<String>) -> Option<Seq<char>> {
    match name {
        Some(text) => Some(text@),
        None => None,
    }
}

/// `last_slash` points at a `/` that no `/` follows, or is -1 where there is
/// no `/` at all.
pub proof fn lemma_last_slash(s: Seq<char>)
    ensures
        -1 <= last_slash(s) < s.len(),
        last_slash(s) >= 0 ==> s[last_slash(s)] == '/',
        forall|j: int| last_slash(s) < j < s.len() ==> s[j] != '/',
    decreases s.len(),
{
    if s.len() > 0 && s.last() != '/' {
        let front = s.drop_last();
        lemma_last_slash(front);
        assert forall|j: int| last_slash(s) < j < s.len() implies s[j] != '/' by {
            if j < front.len() {
                assert(front[j] == s[j]);
            }
        }
    }
}

/// For a path that names a supported partition node, the device name is
/// exactly the text that follows the last `/` of the path. That `/` is the
/// one behind `/dev`, and the name is never empty: it is `sd`, the letters
/// and the digits.
pub proof fn law_device_name_follows_last_slash(path: Seq<char>)
    requires
        names_device(path),
    ensures
        last_slash(path) == 4,
        path[last_slash(path)] == '/',
        forall|j: int| last_slash(path) < j < path.len() ==> path[j] != '/',
        device_name(path) == Some(path.subrange(last_slash(path) + 1, path.len() as int)),
        4 <= path.subrange(last_slash(path) + 1, path.len() as int).len() <= 6,
{
    lemma_last_slash(path);
    let (letters, digits) = choose|letters: int, digits: int| spells_node(path, letters, digits);
    let prefix = path.subrange(0, 7);
    assert(prefix[4] == '/' && prefix[5] == 's' && prefix[6] == 'd');
    assert(path[4] == '/' && path[5] == 's' && path[6] == 'd');
    assert forall|j: int| 4 < j < path.len() implies path[j] != '/' by {
        if 7 <= j < 7 + letters {
            assert(is_lower(path[j]));
        } else if 7 + letters <= j {
            assert(is_digit(path[j]));
        }
    }
}

/// The device name depends on the path alone: whatever two extractions from
/// one path hand out, it is the same name.
pub proof fn law_device_name_is_determined(
    path: Seq<char>,
    first: Option<String>,
    second: Option<String>,
)
    requires
        name_text(first) == device_name(path),
        name_text(second) == device_name(path),
    ensures
        name_text(first) == name_text(second),
{
}

/// The characters of `s`, in order.
fn chars_of(s: &str) -> (v: Vec<char>)
    ensures
        v@ == s@,
{
    let mut v: Vec<char> = Vec::new();
    for c in it: s.chars()
        invariant
            v@ == it.seq().take(it.index() as int),
    {
        v.push(c);
    }
    v
}

/// Tells whether `c` is a lowercase ASCII letter.
fn lower(c: char) -> (r: bool)
    ensures
        r == is_lower(c),
{
    'a' <= c && c <= 'z'
}

/// Tells whether `c` is an ASCII decimal digit.
fn digit(c: char) -> (r: bool)
    ensures
        r == is_digit(c),
{
    '0' <= c && c <= '9'
}

/// Tells whether `text` is the name of a supported partition node.
fn is_node_name(text: &Vec<char>) -> (r: bool)
    ensures
        r == names_device(text@),
{
    let ghost s = text@;
    let n = text.len();
    if n < 9 || n > 11 {
        return false;
    }
    let prefix = text[0] == '/' && text[1] == 'd' && text[2] == 'e' && text[3] == 'v' && text[4]
        == '/' && text[5] == 's' && text[6] == 'd';
    if !prefix {
        assert forall|letters: int, digits: int| !spells_node(s, letters, digits) by {
            if spells_node(s, letters, digits) {
                let p = s.subrange(0, 7);
                assert(p[0] == '/' && p[1] == 'd' && p[2] == 'e' && p[3] == 'v' && p[4] == '/'
                    && p[5] == 's' && p[6] == 'd');
            }
        }
        return false;
    }
    assert(s.subrange(0, 7) =~= node_prefix());
    if !lower(text[7]) {
        return false;
    }
    // A letter is no digit, so the second letter is there if and only if
    // the character after the first one is a letter.
    let letters: usize = if lower(text[8]) {
        2
    } else {
        1
    };
    let first_digit: usize = 7 + letters;
    if n - first_digit < 1 || n - first_digit > 2 {
        assert forall|l: int, d: int| !spells_node(s, l, d) by {
            if spells_node(s, l, d) {
                assert(is_lower(s[8]) || is_digit(s[8]));
            }
        }
        return false;
    }
    let all_digits = digit(text[first_digit]) && (n - first_digit == 1 || digit(text[n - 1]));
    if !all_digits {
        assert forall|l: int, d: int| !spells_node(s, l, d) by {
            if spells_node(s, l, d) {
                assert(is_lower(s[8]) || is_digit(s[8]));
                assert(is_digit(s[first_digit as int]));
                assert(is_digit(s[n - 1]));
            }
        }
        return false;
    }
    assert(spells_node(s, letters as int, n - first_digit));
    true
}

/// Tells whether `path` is the name of a supported partition node.
pub fn matches_device_pattern(path: &str) -> (r: bool)
    ensures
        r == names_device(path@),
{
    let text = chars_of(path);
    is_node_name(&text)
}

/// The device matcher: the device name of `path` if `path` names a supported
/// partition node, and nothing for any other path. The name is the text
/// after the last `/`.
pub fn extract_device(path: &str) -> (r: Option<String>)
    ensures
        name_text(r) == device_name(path@),
        r is Some <==> names_device(path@),
{
    let text = chars_of(path);
    if !is_node_name(&text) {
        return None;
    }
    proof {
        law_device_name_follows_last_slash(path@);
    }
    let name = path.substring_char(5, text.len()).to_owned();
    assert(name@ =~= final_segment(path@));
    Some(name)
}

} // verus!
