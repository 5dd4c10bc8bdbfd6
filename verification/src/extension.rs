//! The extension of a file name, by which the entries of a folder are chosen.

use vstd::prelude::*;
use crate::text::text_of;

verus! {

/// The position of the last dot among the first `upto` characters of `name`,
/// if one of them is a dot.
pub open spec fn last_dot(name: Seq<char>, upto: int) -> Option<int>
    decreases upto,
{
    if upto <= 0 {
        None
    } else if name[upto - 1] == '.' {
        Some(upto - 1)
    } else {
        last_dot(name, upto - 1)
    }
}

/// The name of the parent folder, which is no file name and has no extension.
pub open spec fn parent_name() -> Seq<char> {
    seq!['.', '.']
}

/// The extension of the file name `name`: what follows its last dot. A name
/// without a dot has none, nor has one whose only dot is its first character,
/// nor the name of the parent folder. The extension holds no dot and may be
/// empty.
pub open spec fn extension(name: Seq<char>) -> Option<Seq<char>> {
    match last_dot(name, name.len() as int) {
        Some(dot) => if dot == 0 || name == parent_name() {
            None
        } else {
            Some(name.subrange(dot + 1, name.len() as int))
        },
        None => None,
    }
}

/// Whether the file name `name` has the extension `ext`, compared character
/// for character.
pub open spec fn has_extension(name: Seq<char>, ext: Seq<char>) -> bool {
    extension(name) == Some(ext)
}

/// The last dot is a dot, and no dot follows it; where there is none, no
/// character is a dot.
pub proof fn lemma_last_dot(name: Seq<char>, upto: int)
    requires
        0 <= upto <= name.len(),
    ensures
        match last_dot(name, upto) {
            Some(dot) => {
                &&& 0 <= dot < upto
                &&& name[dot] == '.'
                &&& forall|i: int| dot < i < upto ==> name[i] != '.'
            },
            None => forall|i: int| 0 <= i < upto ==> name[i] != '.',
        },
    decreases upto,
{
    if upto > 0 && name[upto - 1] != '.' {
        lemma_last_dot(name, upto - 1);
    }
}

/// A name with the extension `ext` ends in a dot and `ext`, and `ext` holds no
/// dot.
pub proof fn lemma_extension_is_suffix(name: Seq<char>, ext: Seq<char>)
    requires
        has_extension(name, ext),
    ensures
        name.len() >= ext.len() + 2,
        name == name.subrange(0, name.len() - ext.len() - 1).push('.') + ext,
        forall|i: int| 0 <= i < ext.len() ==> ext[i] != '.',
{
    lemma_last_dot(name, name.len() as int);
    let dot = last_dot(name, name.len() as int)->0;
    assert(ext.len() == name.len() - dot - 1);
    assert(name =~= name.subrange(0, dot).push('.') + ext);
    assert forall|i: int| 0 <= i < ext.len() implies ext[i] != '.' by {
        assert(ext[i] == name[dot + 1 + i]);
    }
}

/// Scans `name` once for its last dot.
fn find_last_dot(name: &str, len: usize) -> (res: Option<usize>)
    requires
        len == name@.len(),
    ensures
        match res {
            Some(dot) => last_dot(name@, len as int) == Some(dot as int),
            None => last_dot(name@, len as int) is None,
        },
{
    let mut found: Option<usize> = None;
    let mut at: usize = 0;
    for c in it: name.chars()
        invariant
            len == name@.len(),
            it.seq() == name@,
            at == it.index(),
            match found {
                Some(dot) => last_dot(name@, at as int) == Some(dot as int),
                None => last_dot(name@, at as int) is None,
            },
    {
        if c == '.' {
            found = Some(at);
        }
        at = at + 1;
    }
    found
}

/// Whether `name` is the name of the parent folder.
fn is_parent_name(name: &str, len: usize) -> (res: bool)
    requires
        len == name@.len(),
    ensures
        res == (name@ == parent_name()),
{
    if len == 2 {
        let res = name.get_char(0) == '.' && name.get_char(1) == '.';
        assert(res == (name@ =~= parent_name()));
        res
    } else {
        false
    }
}

/// The extension of a file name, if it has one.
pub fn extension_of(file_name: &str) -> (res: Option<String>)
    ensures
        text_of(res) == extension(file_name@),
{
    let len: usize = file_name.unicode_len();
    match find_last_dot(file_name, len) {
        Some(dot) => {
            if dot == 0 || is_parent_name(file_name, len) {
                None
            } else {
                proof {
                    lemma_last_dot(file_name@, len as int);
                }
                Some(String::from_str(file_name.substring_char(dot + 1, len)))
            }
        },
        None => None,
    }
}

/// Whether a file name has the extension `ext`, compared character for
/// character: case counts, and the dot is no part of the extension.
pub fn matches_extension(file_name: &str, ext: &String) -> (res: bool)
    ensures
        res == has_extension(file_name@, ext@),
{
    match extension_of(file_name) {
        Some(found) => found == *ext,
        None => false,
    }
}

} // verus!
