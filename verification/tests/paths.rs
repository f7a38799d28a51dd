use rootbeer_core::paths::{expand_home, is_absolute, join, resolve_path};

#[test]
fn bare_tilde_is_the_home_directory() {
    assert_eq!(resolve_path("/scripts", Some("/home/u"), "~"), "/home/u");
}

#[test]
fn tilde_slash_names_a_path_inside_home() {
    assert_eq!(resolve_path("/scripts", Some("/home/u"), "~/.x"), "/home/u/.x");
    assert_eq!(resolve_path("/scripts", Some("/home/u"), "~/.config/git/config"), "/home/u/.config/git/config");
}

#[test]
fn absolute_path_is_unchanged() {
    assert_eq!(resolve_path("/scripts", Some("/home/u"), "/abs/y"), "/abs/y");
    assert_eq!(resolve_path("/scripts", None, "/abs/y"), "/abs/y");
}

#[test]
fn relative_path_is_taken_from_the_script_directory() {
    assert_eq!(resolve_path("/scripts", Some("/home/u"), "rel/z"), "/scripts/rel/z");
    assert_eq!(resolve_path("/scripts/", Some("/home/u"), "rel/z"), "/scripts/rel/z");
    assert_eq!(resolve_path("/scripts", Some("/home/u"), "out.txt"), "/scripts/out.txt");
}

#[test]
fn tilde_followed_by_text_is_not_a_user_name() {
    assert_eq!(resolve_path("/scripts", Some("/home/u"), "~x"), "/home/u/x");
    assert_eq!(resolve_path("/scripts", Some("/home/u"), "~other/.vimrc"), "/home/u/other/.vimrc");
}

#[test]
fn missing_home_falls_back_to_the_root() {
    assert_eq!(resolve_path("/scripts", None, "~"), "/");
    assert_eq!(resolve_path("/scripts", None, "~/.x"), "/.x");
}

#[test]
fn home_with_trailing_separator_gets_no_second_one() {
    assert_eq!(resolve_path("/scripts", Some("/home/u/"), "~/.x"), "/home/u/.x");
}

#[test]
fn separators_after_the_tilde_do_not_leave_home() {
    assert_eq!(resolve_path("/scripts", Some("/home/u"), "~//x"), "/home/u/x");
    assert_eq!(resolve_path("/scripts", Some("/home/u"), "~///a/b"), "/home/u/a/b");
    assert_eq!(resolve_path("/scripts", Some("/home/u"), "~/"), "/home/u/");
    assert_eq!(resolve_path("/scripts", Some("/home/u"), "~//"), "/home/u/");
    assert_eq!(resolve_path("/scripts", Some("/home/u/"), "~//x"), "/home/u/x");
    assert_eq!(resolve_path("/scripts", None, "~//x"), "/x");
    assert_eq!(expand_home(Some("/home/u"), "~//x"), "/home/u/x");
}

#[test]
fn every_tilde_path_begins_with_home() {
    for path in ["~", "~/", "~//", "~x", "~/x", "~//x", "~/../x", "~/a//b", "~~", "~/~"] {
        let full = resolve_path("/scripts", Some("/home/u"), path);
        assert!(full.starts_with("/home/u"), "{path} resolved to {full}");
    }
}

#[test]
fn relative_home_lands_in_the_script_directory() {
    assert_eq!(resolve_path("/scripts", Some("rel"), "~"), "/scripts/rel");
    assert_eq!(resolve_path("/scripts", Some("rel"), "~/.x"), "/scripts/rel/.x");
}

#[test]
fn empty_path_is_the_script_directory_with_a_separator() {
    assert_eq!(resolve_path("/scripts", Some("/home/u"), ""), "/scripts/");
    assert_eq!(resolve_path("", Some("/home/u"), "rel"), "rel");
}

#[test]
fn tilde_inside_a_path_is_ordinary_text() {
    assert_eq!(resolve_path("/scripts", Some("/home/u"), "a/~/b"), "/scripts/a/~/b");
}

#[test]
fn join_follows_the_rules_of_the_standard_library() {
    let cases = [
        ("/a", "b"),
        ("/a/", "b"),
        ("/a", "/b"),
        ("", "b"),
        ("/a", ""),
        ("a", "b/c"),
        ("/", "x"),
        ("/a//", "b"),
        ("/dir", "~"),
        ("/dir", "é/ü"),
    ];
    for (base, path) in cases {
        let expected = std::path::Path::new(base).join(path);
        assert_eq!(join(base, path), expected.to_str().unwrap());
    }
}

#[test]
fn join_gives_exact_texts() {
    assert_eq!(join("/a", "b"), "/a/b");
    assert_eq!(join("/a/", "b"), "/a/b");
    assert_eq!(join("/a", "/b"), "/b");
    assert_eq!(join("", "b"), "b");
    assert_eq!(join("/a", ""), "/a/");
}

#[test]
fn is_absolute_looks_at_the_first_character() {
    assert!(is_absolute("/"));
    assert!(is_absolute("/a/b"));
    assert!(!is_absolute(""));
    assert!(!is_absolute("a/b"));
    assert!(!is_absolute("~/a"));
    for path in ["/", "/a/b", "", "a/b", "~/a", "./x", "//x"] {
        assert_eq!(is_absolute(path), std::path::Path::new(path).is_absolute());
    }
}

#[test]
fn expand_home_leaves_other_paths_alone() {
    assert_eq!(expand_home(Some("/home/u"), "rel/z"), "rel/z");
    assert_eq!(expand_home(Some("/home/u"), "/abs"), "/abs");
    assert_eq!(expand_home(Some("/home/u"), "~"), "/home/u");
    assert_eq!(expand_home(Some("/home/u"), "~/a b"), "/home/u/a b");
    assert_eq!(expand_home(None, "~"), "/");
}

#[test]
fn paths_with_wide_characters_are_cut_by_characters() {
    assert_eq!(resolve_path("/scripts", Some("/home/é"), "~/ü"), "/home/é/ü");
    assert_eq!(resolve_path("/scripts", Some("/home/é"), "~é"), "/home/é/é");
}
