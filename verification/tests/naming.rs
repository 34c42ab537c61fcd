use channel_remap::naming::{
    channel_letter, channel_suffix, extension, file_stem, fixed_file_name, joined_file_name,
    split_file_name, OutputFormat,
};
use channel_remap::texel::Channel;

#[test]
fn stem_stops_at_the_last_dot() {
    assert_eq!(file_stem("foo.png"), "foo");
    assert_eq!(file_stem("foo.tar.gz"), "foo.tar");
    assert_eq!(file_stem("a.b.png"), "a.b");
    assert_eq!(file_stem("a.b.c.d"), "a.b.c");
    assert_eq!(file_stem("foo."), "foo");
    assert_eq!(file_stem("foo.."), "foo.");
    assert_eq!(file_stem("a.b"), "a");
}

#[test]
fn stem_without_a_dot_is_the_name() {
    assert_eq!(file_stem("foo"), "foo");
    assert_eq!(file_stem("f"), "f");
    assert_eq!(file_stem(""), "");
}

#[test]
fn stem_keeps_a_leading_dot() {
    assert_eq!(file_stem(".hidden"), ".hidden");
    assert_eq!(file_stem(".hidden.png"), ".hidden");
    assert_eq!(file_stem(".hidden.tar.gz"), ".hidden.tar");
    assert_eq!(file_stem("."), ".");
    assert_eq!(file_stem("..png"), ".");
    assert_eq!(file_stem(".."), ".");
}

#[test]
fn stem_agrees_with_std() {
    for name in [
        "foo.png",
        "foo.tar.gz",
        "foo",
        "foo.",
        ".hidden",
        ".hidden.png",
        "a.b.c",
        "a.b.png",
        "tex_R.tga",
        "..png",
    ] {
        let expected = std::path::Path::new(name).file_stem().unwrap().to_str().unwrap();
        assert_eq!(file_stem(name), expected);
    }
}

#[test]
fn stem_counts_characters_not_bytes() {
    assert_eq!(file_stem("héllo.png"), "héllo");
    assert_eq!(file_stem("é.é.é"), "é.é");
    assert_eq!(file_stem("é"), "é");
    assert_eq!(file_stem(".é"), ".é");
}

#[test]
fn suffixes_and_extensions() {
    assert_eq!(channel_letter(Channel::R), 'R');
    assert_eq!(channel_letter(Channel::G), 'G');
    assert_eq!(channel_letter(Channel::B), 'B');
    assert_eq!(channel_letter(Channel::A), 'A');
    assert_eq!(channel_suffix(Channel::R), "_R");
    assert_eq!(channel_suffix(Channel::G), "_G");
    assert_eq!(channel_suffix(Channel::B), "_B");
    assert_eq!(channel_suffix(Channel::A), "_A");
    assert_eq!(extension(OutputFormat::Png), "png");
    assert_eq!(extension(OutputFormat::Tga), "tga");
}

#[test]
fn split_names() {
    assert_eq!(split_file_name("foo.png", Channel::R, OutputFormat::Tga), "foo_R.tga");
    assert_eq!(split_file_name("foo.png", Channel::G, OutputFormat::Tga), "foo_G.tga");
    assert_eq!(split_file_name("foo.png", Channel::B, OutputFormat::Tga), "foo_B.tga");
    assert_eq!(split_file_name("foo.png", Channel::A, OutputFormat::Tga), "foo_A.tga");
    assert_eq!(split_file_name("foo.png", Channel::R, OutputFormat::Png), "foo_R.png");
    assert_eq!(split_file_name("multi.v2.tga", Channel::A, OutputFormat::Png), "multi.v2_A.png");
    assert_eq!(split_file_name("multi", Channel::B, OutputFormat::Tga), "multi_B.tga");
}

#[test]
fn fixed_names() {
    assert_eq!(fixed_file_name("foo.png", OutputFormat::Png), "foo_Fixed.png");
    assert_eq!(fixed_file_name("foo.png", OutputFormat::Tga), "foo_Fixed.tga");
    assert_eq!(fixed_file_name("normal.map.tga", OutputFormat::Tga), "normal.map_Fixed.tga");
}

#[test]
fn joined_names() {
    assert_eq!(joined_file_name("tex_R.png", OutputFormat::Tga), "tex_RGBA.tga");
    assert_eq!(joined_file_name("tex_R.tga", OutputFormat::Png), "tex_RGBA.png");
    assert_eq!(joined_file_name("red", OutputFormat::Tga), "redGBA.tga");
    assert_eq!(joined_file_name("tex.v2_R.png", OutputFormat::Tga), "tex.v2_RGBA.tga");
}

#[test]
fn names_of_a_source_with_two_dots() {
    assert_eq!(split_file_name("a.b.png", Channel::R, OutputFormat::Tga), "a.b_R.tga");
    assert_eq!(split_file_name("a.b.png", Channel::G, OutputFormat::Tga), "a.b_G.tga");
    assert_eq!(split_file_name("a.b.png", Channel::B, OutputFormat::Tga), "a.b_B.tga");
    assert_eq!(split_file_name("a.b.png", Channel::A, OutputFormat::Tga), "a.b_A.tga");
    assert_eq!(fixed_file_name("a.b.png", OutputFormat::Tga), "a.b_Fixed.tga");
    for channel in [Channel::R, Channel::G, Channel::B, Channel::A] {
        let written = split_file_name("a.b.png", channel, OutputFormat::Tga);
        let stem = std::path::Path::new(&written).file_stem().unwrap().to_str().unwrap();
        assert_eq!(stem, format!("a.b_{}", channel_letter(channel)));
    }
}

#[test]
fn outputs_stand_beside_a_source_with_two_dots() {
    let source = std::path::Path::new("dir/a.b.png");
    let name = source.file_name().unwrap().to_str().unwrap();
    let expected = ["a.b_R", "a.b_G", "a.b_B", "a.b_A"];
    for (index, stem) in expected.iter().enumerate() {
        let channel = Channel::from_index(index).unwrap();
        let written = source.with_file_name(split_file_name(name, channel, OutputFormat::Tga));
        assert_eq!(written.parent(), Some(std::path::Path::new("dir")));
        assert_eq!(written.file_stem().unwrap().to_str(), Some(*stem));
        assert_eq!(written.extension().unwrap().to_str(), Some("tga"));
    }
    let fixed = source.with_file_name(fixed_file_name(name, OutputFormat::Tga));
    assert_eq!(fixed.parent(), Some(std::path::Path::new("dir")));
    assert_eq!(fixed.file_stem().unwrap().to_str(), Some("a.b_Fixed"));
}
