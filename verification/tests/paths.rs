use blend_converter::FilePath;

fn p(absolute: bool, comps: &[&str]) -> FilePath {
    FilePath { absolute, components: comps.iter().map(|s| s.to_string()).collect() }
}

#[test]
fn display_relative() {
    assert_eq!(p(false, &["a", "b", "x.blend"]).display(), "a/b/x.blend");
}

#[test]
fn display_absolute() {
    assert_eq!(p(true, &["usr", "bin", "blender"]).display(), "/usr/bin/blender");
}

#[test]
fn display_empty() {
    assert_eq!(p(false, &[]).display(), "");
    assert_eq!(p(true, &[]).display(), "/");
}

#[test]
fn join_relative_concatenates() {
    let out = p(false, &["out"]).join(&p(false, &["a", "x"]));
    assert!(!out.absolute);
    assert_eq!(out.display(), "out/a/x");
}

#[test]
fn join_absolute_replaces() {
    let out = p(false, &["out"]).join(&p(true, &["tmp", "x"]));
    assert!(out.absolute);
    assert_eq!(out.display(), "/tmp/x");
}

#[test]
fn parent_drops_last_component() {
    let parent = p(false, &["a", "b", "x.blend"]).parent_path();
    assert_eq!(parent.display(), "a/b");
}

#[test]
fn stem_and_extension_simple() {
    let path = p(false, &["a", "x.blend"]);
    assert_eq!(path.file_stem().unwrap(), "x");
    assert_eq!(path.extension().unwrap(), "blend");
}

#[test]
fn stem_keeps_earlier_dots() {
    let path = p(false, &["x.tar.gz"]);
    assert_eq!(path.file_stem().unwrap(), "x.tar");
    assert_eq!(path.extension().unwrap(), "gz");
}

#[test]
fn no_dot_means_no_extension() {
    let path = p(false, &["name"]);
    assert_eq!(path.file_stem().unwrap(), "name");
    assert!(path.extension().is_none());
}

#[test]
fn leading_dot_is_not_an_extension() {
    let path = p(false, &[".profile"]);
    assert_eq!(path.file_stem().unwrap(), ".profile");
    assert!(path.extension().is_none());
}

#[test]
fn trailing_dot_gives_empty_extension() {
    let path = p(false, &["name."]);
    assert_eq!(path.file_stem().unwrap(), "name");
    assert_eq!(path.extension().unwrap(), "");
}

#[test]
fn empty_path_has_no_stem() {
    let path = p(false, &[]);
    assert!(path.file_stem().is_none());
    assert!(path.extension().is_none());
}
