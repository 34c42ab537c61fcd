//! What the interactive flow decides: which operation a menu entry stands
//! for, and which of the picked files plays which part in a join.

use vstd::prelude::*;
use vstd::string::*;
use crate::error::Error;
use crate::naming::{channel_letter, file_stem, letter_of, stem_of, suffix_of};
use crate::texel::Channel;

verus! {

/// The operations of the tool, in the order of the menu.
#[derive(Clone, Copy, Debug, PartialEq, Eq, Structural)]
pub enum Operation {
    FixNormal,
    SplitMulti,
    JoinMulti,
}

/// For each channel, the position of its file among the picked files.
#[derive(Clone, Copy, Debug, PartialEq, Eq, Structural)]
pub struct Roles {
    pub r: usize,
    pub g: usize,
    pub b: usize,
    pub a: usize,
}

/// `text` ends in `tail`.
pub open spec fn ends_with(text: Seq<char>, tail: Seq<char>) -> bool {
    text.len() >= tail.len() && text.skip(text.len() - tail.len()) == tail
}

/// The file name `name` belongs to `channel`: its stem ends in the channel's
/// suffix.
pub open spec fn has_role(name: Seq<char>, channel: Channel) -> bool {
    ends_with(stem_of(name), suffix_of(channel))
}

/// `index` is the position of the first of `names` that belongs to `channel`.
pub open spec fn is_first_of(names: Seq<String>, channel: Channel, index: int) -> bool {
    &&& 0 <= index < names.len()
    &&& has_role(names[index]@, channel)
    &&& forall|k: int| 0 <= k < index ==> !has_role(#[trigger] names[k]@, channel)
}

/// Some file among `names` belongs to `channel`.
pub open spec fn has_file(names: Seq<String>, channel: Channel) -> bool {
    exists|k: int| 0 <= k < names.len() && has_role(#[trigger] names[k]@, channel)
}

/// `names` can be joined: they are four, and each channel has a file.
pub open spec fn selectable(names: Seq<String>) -> bool {
    &&& names.len() == 4
    &&& has_file(names, Channel::R)
    &&& has_file(names, Channel::G)
    &&& has_file(names, Channel::B)
    &&& has_file(names, Channel::A)
}

/// The operation behind entry `index` of the menu, counted from 0: fix-normal,
/// split, join; past them there is none.
pub open spec fn operation_of(index: int) -> Result<Operation, Error> {
    if index == 0 {
        Ok(Operation::FixNormal)
    } else if index == 1 {
        Ok(Operation::SplitMulti)
    } else if index == 2 {
        Ok(Operation::JoinMulti)
    } else {
        Err(Error::InvalidCommand)
    }
}

/// The operation behind entry `index` of the menu, counted from 0.
pub fn operation_at(index: usize) -> (operation: Result<Operation, Error>)
    ensures
        operation == operation_of(index as int),
{
    if index == 0 {
        Ok(Operation::FixNormal)
    } else if index == 1 {
        Ok(Operation::SplitMulti)
    } else if index == 2 {
        Ok(Operation::JoinMulti)
    } else {
        Err(Error::InvalidCommand)
    }
}

/// Whether the file name `name` belongs to `channel`.
pub fn names_channel(name: &str, channel: Channel) -> (belongs: bool)
    ensures
        belongs == has_role(name@, channel),
{
    let stem = file_stem(name);
    let len = stem.as_str().unicode_len();
    if len < 2 {
        return false;
    }
    let belongs = stem.as_str().get_char(len - 2) == '_' && stem.as_str().get_char(len - 1)
        == channel_letter(channel);
    proof {
        let tail = stem@.skip(len - 2);
        assert(tail.len() == 2);
        assert(tail[0] == stem@[len - 2]);
        assert(tail[1] == stem@[len - 1]);
        if belongs {
            assert(tail =~= suffix_of(channel));
        } else {
            assert(suffix_of(channel)[0] == '_');
            assert(suffix_of(channel)[1] == letter_of(channel));
        }
    }
    belongs
}

/// Position of the first of `names` that belongs to `channel`.
pub fn find_role(names: &Vec<String>, channel: Channel) -> (found: Option<usize>)
    ensures
        found is Some <==> has_file(names@, channel),
        found matches Some(index) ==> is_first_of(names@, channel, index as int),
{
    let mut index: usize = 0;
    while index < names.len()
        invariant
            index <= names.len(),
            forall|k: int| 0 <= k < index ==> !has_role(#[trigger] names@[k]@, channel),
        decreases names.len() - index,
    {
        if names_channel(names[index].as_str(), channel) {
            return Some(index);
        }
        index += 1;
    }
    None
}

/// Assigns the picked files to the channels of a join. There must be four
/// files, and for each channel one whose stem ends in `_R`, `_G`, `_B` or
/// `_A`; where several belong to one channel the first is taken.
pub fn select_roles(names: &Vec<String>) -> (roles: Result<Roles, Error>)
    ensures
        roles is Ok <==> selectable(names@),
        roles matches Ok(found) ==> {
            &&& is_first_of(names@, Channel::R, found.r as int)
            &&& is_first_of(names@, Channel::G, found.g as int)
            &&& is_first_of(names@, Channel::B, found.b as int)
            &&& is_first_of(names@, Channel::A, found.a as int)
        },
        roles matches Err(e) ==> e == Error::Selection,
{
    if names.len() != 4 {
        return Err(Error::Selection);
    }
    match (
        find_role(names, Channel::R),
        find_role(names, Channel::G),
        find_role(names, Channel::B),
        find_role(names, Channel::A),
    ) {
        (Some(r), Some(g), Some(b), Some(a)) => Ok(Roles { r, g, b, a }),
        _ => Err(Error::Selection),
    }
}

} // verus!
