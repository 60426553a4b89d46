use yabw::path::{extension_of, file_name_of, replace_extension};

#[test]
fn file_name_is_what_follows_the_last_separator() {
    assert_eq!(file_name_of("clip.webm"), "clip.webm");
    assert_eq!(file_name_of("/tmp/clip.webm"), "clip.webm");
    assert_eq!(file_name_of("a/b\\c.mp3"), "c.mp3");
    assert_eq!(file_name_of("C:\\Users\\me\\clip.mp4"), "clip.mp4");
    assert_eq!(file_name_of("dir/"), "");
    assert_eq!(file_name_of(""), "");
    assert_eq!(file_name_of("/срок/клип.mp4"), "клип.mp4");
}

#[test]
fn extension_is_what_follows_the_last_dot_of_the_name() {
    assert_eq!(extension_of("clip.webm"), Some("webm"));
    assert_eq!(extension_of("clip.tar.gz"), Some("gz"));
    assert_eq!(extension_of("/tmp/clip.MP3"), Some("MP3"));
    assert_eq!(extension_of("a.b/clip.m4a"), Some("m4a"));
    assert_eq!(extension_of("видео.мп4"), Some("мп4"));
}

#[test]
fn extension_is_missing_without_a_dot_inside_the_name() {
    assert_eq!(extension_of("clip"), None);
    assert_eq!(extension_of(""), None);
    assert_eq!(extension_of(".hidden"), None);
    assert_eq!(extension_of("clip."), None);
    assert_eq!(extension_of("."), None);
    assert_eq!(extension_of(".."), None);
    assert_eq!(extension_of("a.b/clip"), None);
    assert_eq!(extension_of("a.b\\clip"), None);
    assert_eq!(extension_of("dir.d/"), None);
}

#[test]
fn replace_extension_swaps_the_extension() {
    assert_eq!(replace_extension("clip.webm", "mp4"), "clip.mp4");
    assert_eq!(replace_extension("/tmp/clip.tar.gz", "mp3"), "/tmp/clip.tar.mp3");
    assert_eq!(replace_extension("a.b/clip.m4a", "mp3"), "a.b/clip.mp3");
}

#[test]
fn replace_extension_adds_one_where_there_is_none() {
    assert_eq!(replace_extension("clip", "mp4"), "clip.mp4");
    assert_eq!(replace_extension("clip.", "mp4"), "clip..mp4");
    assert_eq!(replace_extension(".hidden", "mp3"), ".hidden.mp3");
    assert_eq!(replace_extension("a.b/clip", "mp3"), "a.b/clip.mp3");
    assert_eq!(replace_extension("", "mp3"), ".mp3");
}

#[test]
fn replaced_extension_is_read_back() {
    for path in ["clip.webm", "clip", "/tmp/a.b/clip.tar.gz", ".hidden", "clip.", "x\\y.z"] {
        for new_extension in ["mp3", "mp4"] {
            let renamed = replace_extension(path, new_extension);
            assert_eq!(extension_of(&renamed), Some(new_extension));
        }
    }
}

#[test]
fn replaced_extension_is_not_read_back_without_a_file_name() {
    assert_eq!(extension_of(&replace_extension("", "mp3")), None);
    assert_eq!(extension_of(&replace_extension("dir/", "mp3")), None);
}
