use channel_remap::error::Error;
use channel_remap::interactive::{
    find_role, names_channel, operation_at, select_roles, Operation, Roles,
};
use channel_remap::texel::Channel;

fn names(list: &[&str]) -> Vec<String> {
    list.iter().map(|s| s.to_string()).collect()
}

#[test]
fn menu_entries() {
    assert_eq!(operation_at(0), Ok(Operation::FixNormal));
    assert_eq!(operation_at(1), Ok(Operation::SplitMulti));
    assert_eq!(operation_at(2), Ok(Operation::JoinMulti));
}

#[test]
fn menu_entry_out_of_range() {
    assert_eq!(operation_at(3), Err(Error::InvalidCommand));
    assert_eq!(operation_at(usize::MAX), Err(Error::InvalidCommand));
}

#[test]
fn file_names_and_channels() {
    assert!(names_channel("tex_R.png", Channel::R));
    assert!(names_channel("tex_G.tga", Channel::G));
    assert!(names_channel("tex_B", Channel::B));
    assert!(names_channel("_A.png", Channel::A));
    assert!(names_channel("tex.old_R.png", Channel::R));
    assert!(names_channel("tex_G.old_R.png", Channel::R));
    assert!(!names_channel("tex_R.png", Channel::G));
    assert!(!names_channel("tex_r.png", Channel::R));
    assert!(!names_channel("texR.png", Channel::R));
    assert!(!names_channel("tex_R.old.png", Channel::R));
    assert!(!names_channel("tex_G.old_R.png", Channel::G));
    assert!(!names_channel("R.png", Channel::R));
    assert!(!names_channel("", Channel::R));
    assert!(!names_channel("tex_RGBA.png", Channel::A));
}

#[test]
fn first_file_of_a_channel() {
    let picked = names(&["a_G.png", "b_R.png", "c_R.png", "d_A.png"]);
    assert_eq!(find_role(&picked, Channel::R), Some(1));
    assert_eq!(find_role(&picked, Channel::G), Some(0));
    assert_eq!(find_role(&picked, Channel::A), Some(3));
    assert_eq!(find_role(&picked, Channel::B), None);
    assert_eq!(find_role(&names(&[]), Channel::R), None);
}

#[test]
fn roles_go_by_the_stem() {
    let picked = names(&["t_R.v1_G.png", "t_G.v1_R.png", "t.v1_B.png", "t.v1_A.png"]);
    assert_eq!(find_role(&picked, Channel::R), Some(1));
    assert_eq!(find_role(&picked, Channel::G), Some(0));
    assert_eq!(select_roles(&picked), Ok(Roles { r: 1, g: 0, b: 2, a: 3 }));
    let picked = names(&["t_R.v1.png", "t_G.v1.png", "t_B.v1.png", "t_A.v1.png"]);
    assert_eq!(select_roles(&picked), Err(Error::Selection));
}

#[test]
fn four_files_in_any_order() {
    let picked = names(&["tex_A.png", "tex_G.png", "tex_R.png", "tex_B.png"]);
    assert_eq!(select_roles(&picked), Ok(Roles { r: 2, g: 1, b: 3, a: 0 }));
    let picked = names(&["x_R.tga", "x_G.tga", "x_B.tga", "x_A.tga"]);
    assert_eq!(select_roles(&picked), Ok(Roles { r: 0, g: 1, b: 2, a: 3 }));
}

#[test]
fn wrong_number_of_files() {
    assert_eq!(select_roles(&names(&[])), Err(Error::Selection));
    let picked = names(&["x_R.tga", "x_G.tga", "x_B.tga"]);
    assert_eq!(select_roles(&picked), Err(Error::Selection));
    let picked = names(&["x_R.tga", "x_G.tga", "x_B.tga", "x_A.tga", "y_A.tga"]);
    assert_eq!(select_roles(&picked), Err(Error::Selection));
}

#[test]
fn channel_without_a_file() {
    let picked = names(&["x_R.tga", "x_G.tga", "x_B.tga", "x.tga"]);
    assert_eq!(select_roles(&picked), Err(Error::Selection));
    let picked = names(&["x_R.tga", "y_R.tga", "x_B.tga", "x_A.tga"]);
    assert_eq!(select_roles(&picked), Err(Error::Selection));
    let picked = names(&["x_G.tga", "x_G.tga", "x_B.tga", "x_A.tga"]);
    assert_eq!(select_roles(&picked), Err(Error::Selection));
    let picked = names(&["x_R.tga", "x_G.tga", "x_A.tga", "y_A.tga"]);
    assert_eq!(select_roles(&picked), Err(Error::Selection));
}
