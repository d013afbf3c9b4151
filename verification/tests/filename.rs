use next_transform_dynamic::filename::{pick_rel_filename, rel_filename, FileName};

#[test]
fn no_base_gives_the_file_as_it_stands() {
    assert_eq!(rel_filename(None, &FileName::Real("/a/b/c.js".to_string())), "/a/b/c.js");
    assert_eq!(rel_filename(None, &FileName::Custom("<anon>".to_string())), "<anon>");
}

#[test]
fn other_source_gives_its_text_whatever_the_base() {
    assert_eq!(rel_filename(Some("/a"), &FileName::Custom("<anon>".to_string())), "<anon>");
    assert_eq!(rel_filename(Some("pages"), &FileName::Custom("pages/x.js".to_string())), "pages/x.js");
}

#[test]
fn real_file_is_taken_relative_to_the_base() {
    assert_eq!(rel_filename(Some("pages"), &FileName::Real("pages/about.js".to_string())), "about.js");
    assert_eq!(
        rel_filename(Some("/project/pages"), &FileName::Real("/project/pages/blog/post.js".to_string())),
        "blog/post.js"
    );
    assert_eq!(
        rel_filename(Some("/project/pages"), &FileName::Real("/project/src/lib.js".to_string())),
        "../src/lib.js"
    );
}

#[test]
fn file_without_a_path_from_the_base_is_given_whole() {
    // A relative path cannot be reached from an absolute base.
    assert_eq!(rel_filename(Some("/project/pages"), &FileName::Real("src/lib.js".to_string())), "src/lib.js");
    // An absolute path is its own answer for a relative base.
    assert_eq!(rel_filename(Some("pages"), &FileName::Real("/project/a.js".to_string())), "/project/a.js");
    // Nor can a base that climbs out of itself be left again.
    assert_eq!(rel_filename(Some("../pages"), &FileName::Real("src/lib.js".to_string())), "src/lib.js");
}

#[test]
fn found_path_wins_over_the_whole_path() {
    let path = "/project/pages/about.js".to_string();
    assert_eq!(pick_rel_filename(&path, Some("about.js".to_string())), "about.js");
    assert_eq!(pick_rel_filename(&path, None), "/project/pages/about.js");
}

#[test]
fn file_name_stands_for_itself() {
    assert_eq!(FileName::Real("/a/b.js".to_string()).to_string(), "/a/b.js");
    assert_eq!(FileName::Custom("virtual:entry".to_string()).to_string(), "virtual:entry");
}
