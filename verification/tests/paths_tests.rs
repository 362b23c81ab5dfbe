use audio_extractor::paths::{extension_of, file_stem_of, join_path, parent_of};

#[test]
fn test_extension_of_plain_names() {
    assert_eq!(extension_of("clip.mp4").as_deref(), Some("mp4"));
    assert_eq!(extension_of("dir/sub/clip.tar.gz").as_deref(), Some("gz"));
    assert_eq!(extension_of("noext"), None);
    assert_eq!(extension_of(""), None);
}

#[test]
fn test_extension_of_dotfiles() {
    assert_eq!(extension_of(".gitignore"), None);
    assert_eq!(extension_of("dir/.gitignore"), None);
    assert_eq!(extension_of(".config.yml").as_deref(), Some("yml"));
    assert_eq!(extension_of("name.").as_deref(), Some(""));
}

#[test]
fn test_file_stem_of() {
    assert_eq!(file_stem_of("clip.mp4").as_deref(), Some("clip"));
    assert_eq!(file_stem_of("dir/clip.mp4").as_deref(), Some("clip"));
    assert_eq!(file_stem_of("noext").as_deref(), Some("noext"));
    assert_eq!(file_stem_of(".gitignore").as_deref(), Some(".gitignore"));
    assert_eq!(file_stem_of("dir/"), None);
    assert_eq!(file_stem_of(""), None);
}

#[test]
fn test_parent_of() {
    assert_eq!(parent_of("a/b/c.mp3").as_deref(), Some("a/b"));
    assert_eq!(parent_of("c.mp3").as_deref(), Some(""));
    assert_eq!(parent_of("/c.mp3").as_deref(), Some("/"));
    assert_eq!(parent_of("/"), None);
    assert_eq!(parent_of(""), None);
}

#[test]
fn test_join_path() {
    assert_eq!(join_path("out", "a.mp3"), "out/a.mp3");
    assert_eq!(join_path("out/", "a.mp3"), "out/a.mp3");
    assert_eq!(join_path("", "a.mp3"), "a.mp3");
}
