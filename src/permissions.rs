//! The permission column: a type glyph followed by `rwx` for owner, group, other.

use vstd::prelude::*;
use vstd::string::*;
use crate::entry::FileType;

verus! {

/// `letter` where the permission `bit` is set in `mode`, else `-`.
pub open spec fn flag_char(mode: u32, bit: u32, letter: char) -> char {
    if mode & bit != 0 {
        letter
    } else {
        '-'
    }
}

/// The ten characters shown for `mode` on an entry of type `kind`.
pub open spec fn permission_text(mode: u32, kind: FileType) -> Seq<char> {
    seq![
        kind.glyph(),
        flag_char(mode, 0o400, 'r'),
        flag_char(mode, 0o200, 'w'),
        flag_char(mode, 0o100, 'x'),
        flag_char(mode, 0o040, 'r'),
        flag_char(mode, 0o020, 'w'),
        flag_char(mode, 0o010, 'x'),
        flag_char(mode, 0o004, 'r'),
        flag_char(mode, 0o002, 'w'),
        flag_char(mode, 0o001, 'x'),
    ]
}

/// Appends `letter` when `mode` has `bit` set, `-` otherwise.
fn push_flag(s: &mut String, mode: u32, bit: u32, letter: char)
    requires
        letter == 'r' || letter == 'w' || letter == 'x',
    ensures
        final(s)@ == old(s)@.push(flag_char(mode, bit, letter)),
{
    if mode & bit == 0 {
        proof { reveal_strlit("-"); }
        s.append("-");
    } else if letter == 'r' {
        proof { reveal_strlit("r"); }
        s.append("r");
    } else if letter == 'w' {
        proof { reveal_strlit("w"); }
        s.append("w");
    } else {
        proof { reveal_strlit("x"); }
        s.append("x");
    }
}

/// The permission column for an entry of type `file_type` whose mode bits are
/// `mode`; bits above the nine standard ones are not shown.
pub fn get_formatted_permissions(mode: u32, file_type: &FileType) -> (r: String)
    ensures
        r@ == permission_text(mode, *file_type),
{
    let mut s = String::from_str(file_type.glyph_str());
    push_flag(&mut s, mode, 0o400, 'r');
    push_flag(&mut s, mode, 0o200, 'w');
    push_flag(&mut s, mode, 0o100, 'x');
    push_flag(&mut s, mode, 0o040, 'r');
    push_flag(&mut s, mode, 0o020, 'w');
    push_flag(&mut s, mode, 0o010, 'x');
    push_flag(&mut s, mode, 0o004, 'r');
    push_flag(&mut s, mode, 0o002, 'w');
    push_flag(&mut s, mode, 0o001, 'x');
    assert(s@ =~= permission_text(mode, *file_type));
    s
}

} // verus!
