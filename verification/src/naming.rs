//! Names of the files that the transforms write.
//!
//! Every function here takes the file name of a source image, that is the
//! last component of its path, and gives the file name of an output. The
//! stem of a file name is the name without its last extension: what stands
//! before its last `.`, where a `.` that opens the name starts no extension.

use vstd::prelude::*;
use vstd::string::*;
use crate::texel::Channel;

verus! {

/// The format in which outputs are encoded, which decides their extension.
#[derive(Clone, Copy, Debug, PartialEq, Eq, Structural)]
pub enum OutputFormat {
    Png,
    Tga,
}

/// Index of the last `.` of `name` among the indices from 1 up to, and not
/// including, `below`; the length of `name` where there is none.
pub open spec fn last_dot(name: Seq<char>, below: int) -> int
    decreases below,
{
    if below <= 1 {
        name.len() as int
    } else if name[below - 1] == '.' {
        below - 1
    } else {
        last_dot(name, below - 1)
    }
}

/// The stem of a file name: the part before its last `.`, not counting a `.`
/// at the very start; the whole name where no such `.` exists. So the stem
/// of `a.b.png` is `a.b`, and `.hidden` is its own stem.
pub open spec fn stem_of(name: Seq<char>) -> Seq<char> {
    name.take(last_dot(name, name.len() as int))
}

/// Below `below`, the last `.` of a name is where [`last_dot`] says: it is a
/// `.` at an index of 1 or more with no `.` between it and `below`, or, where
/// the result is the length of the name, no `.` stands from index 1 up to
/// `below`.
proof fn last_dot_is_last(name: Seq<char>, below: int)
    requires
        0 <= below <= name.len(),
    ensures
        last_dot(name, below) == name.len() || 1 <= last_dot(name, below) < below,
        last_dot(name, below) < below ==> name[last_dot(name, below)] == '.',
        last_dot(name, below) < below ==> forall|i: int|
            last_dot(name, below) < i < below ==> name[i] != '.',
        last_dot(name, below) == name.len() ==> forall|i: int| 1 <= i < below ==> name[i] != '.',
    decreases below,
{
    if below > 1 && name[below - 1] != '.' {
        last_dot_is_last(name, below - 1);
    }
}

/// The stem is a beginning of the name, and of a name that is not empty it
/// is not empty. Where it is shorter than the name, a `.` follows it and no
/// other `.` comes after that one. Where it is the whole name, the name holds
/// no `.` after its first character.
pub proof fn stem_ends_at_last_dot(name: Seq<char>)
    ensures
        stem_of(name).len() <= name.len(),
        stem_of(name) == name.take(stem_of(name).len() as int),
        name.len() > 0 ==> stem_of(name).len() > 0,
        stem_of(name).len() < name.len() ==> name[stem_of(name).len() as int] == '.',
        stem_of(name).len() < name.len() ==> forall|i: int|
            stem_of(name).len() < i < name.len() ==> name[i] != '.',
        stem_of(name).len() == name.len() ==> forall|i: int| 1 <= i < name.len() ==> name[i] != '.',
{
    last_dot_is_last(name, name.len() as int);
}

/// The letter that stands for a channel in file names.
pub open spec fn letter_of(channel: Channel) -> char {
    match channel {
        Channel::R => 'R',
        Channel::G => 'G',
        Channel::B => 'B',
        Channel::A => 'A',
    }
}

/// What the stem of a channel's file ends in: `_R`, `_G`, `_B` or `_A`.
pub open spec fn suffix_of(channel: Channel) -> Seq<char> {
    seq!['_', letter_of(channel)]
}

/// The extension of a format, without the `.`.
pub open spec fn extension_of(format: OutputFormat) -> Seq<char> {
    match format {
        OutputFormat::Png => seq!['p', 'n', 'g'],
        OutputFormat::Tga => seq!['t', 'g', 'a'],
    }
}

/// What fix-normal appends to the stem of its source.
pub open spec fn fixed_suffix() -> Seq<char> {
    seq!['_', 'F', 'i', 'x', 'e', 'd']
}

/// What a join appends to the stem of its red image, so that `tex_R`
/// becomes `tex_RGBA`.
pub open spec fn joined_suffix() -> Seq<char> {
    seq!['G', 'B', 'A']
}

/// The file name made of the stem of `name`, then `suffix`, a `.` and the
/// extension of `format`.
pub open spec fn output_name_of(name: Seq<char>, suffix: Seq<char>, format: OutputFormat) -> Seq<
    char,
> {
    stem_of(name) + suffix + seq!['.'] + extension_of(format)
}

/// The stem of a file name: the part before its last `.`, not counting a `.`
/// at the very start; the whole name where no such `.` exists.
pub fn file_stem(name: &str) -> (stem: String)
    ensures
        stem@ == stem_of(name@),
{
    let len = name.unicode_len();
    let mut below: usize = len;
    while below > 1 && name.get_char(below - 1) != '.'
        invariant
            below <= len,
            len == name@.len(),
            last_dot(name@, len as int) == last_dot(name@, below as int),
        decreases below,
    {
        below -= 1;
    }
    let end = if below > 1 {
        below - 1
    } else {
        len
    };
    String::from_str(name.substring_char(0, end))
}

/// The letter that stands for a channel in file names.
pub fn channel_letter(channel: Channel) -> (letter: char)
    ensures
        letter == letter_of(channel),
{
    match channel {
        Channel::R => 'R',
        Channel::G => 'G',
        Channel::B => 'B',
        Channel::A => 'A',
    }
}

/// What the stem of a channel's file ends in: `_R`, `_G`, `_B` or `_A`.
pub fn channel_suffix(channel: Channel) -> (suffix: &'static str)
    ensures
        suffix@ == suffix_of(channel),
{
    proof {
        reveal_strlit("_R");
        reveal_strlit("_G");
        reveal_strlit("_B");
        reveal_strlit("_A");
    }
    let suffix = match channel {
        Channel::R => "_R",
        Channel::G => "_G",
        Channel::B => "_B",
        Channel::A => "_A",
    };
    assert(suffix@ =~= suffix_of(channel));
    suffix
}

/// The extension of a format, without the `.`.
pub fn extension(format: OutputFormat) -> (ext: &'static str)
    ensures
        ext@ == extension_of(format),
{
    proof {
        reveal_strlit("png");
        reveal_strlit("tga");
    }
    let ext = match format {
        OutputFormat::Png => "png",
        OutputFormat::Tga => "tga",
    };
    assert(ext@ =~= extension_of(format));
    ext
}

/// The file name made of the stem of `name`, then `suffix`, a `.` and the
/// extension of `format`.
fn output_name(name: &str, suffix: &str, format: OutputFormat) -> (out: String)
    ensures
        out@ == output_name_of(name@, suffix@, format),
{
    proof {
        reveal_strlit(".");
    }
    let mut out = file_stem(name);
    out.append(suffix);
    out.append(".");
    out.append(extension(format));
    assert("."@ =~= seq!['.']);
    out
}

/// Name of the file that holds one channel of the split of `name`: for
/// `tex.png`, the red channel and TGA this is `tex_R.tga`, and for
/// `tex.v2.png` it is `tex.v2_R.tga`.
pub fn split_file_name(name: &str, channel: Channel, format: OutputFormat) -> (out: String)
    ensures
        out@ == output_name_of(name@, suffix_of(channel), format),
{
    output_name(name, channel_suffix(channel), format)
}

/// Name of the file that holds the fixed normal map of `name`: for `tex.png`
/// and PNG this is `tex_Fixed.png`.
pub fn fixed_file_name(name: &str, format: OutputFormat) -> (out: String)
    ensures
        out@ == output_name_of(name@, fixed_suffix(), format),
{
    proof {
        reveal_strlit("_Fixed");
    }
    assert("_Fixed"@ =~= fixed_suffix());
    output_name(name, "_Fixed", format)
}

/// Name of the file that holds the join whose red image is `red_name`: for
/// `tex_R.png` and TGA this is `tex_RGBA.tga`.
pub fn joined_file_name(red_name: &str, format: OutputFormat) -> (out: String)
    ensures
        out@ == output_name_of(red_name@, joined_suffix(), format),
{
    proof {
        reveal_strlit("GBA");
    }
    assert("GBA"@ =~= joined_suffix());
    output_name(red_name, "GBA", format)
}

} // verus!
