use rootbeer_core::lua::modules::{
    depth_of, is_meta, load_dir, module_for, name_no_later, registration_order, step_for,
    steps_in_order, DirEntry, LoadStep, Module,
};
use rootbeer_core::lua::sys::{name_end, HostInfo, PasswdInfo};
use rootbeer_core::lua::RootbeerRequirer;
use rootbeer_core::order::{sort, Ranked};
use rootbeer_core::text::{finishes_with, same_text, starts_with};

fn file(name: &str) -> DirEntry {
    DirEntry { name: name.to_string(), is_dir: false }
}

fn dir(name: &str) -> DirEntry {
    DirEntry { name: name.to_string(), is_dir: true }
}

fn descend(dir: &str, prefix: &str) -> LoadStep {
    LoadStep::Descend { dir: dir.to_string(), prefix: prefix.to_string() }
}

fn register(file: &str, module: &str) -> LoadStep {
    LoadStep::Register { file: file.to_string(), module: module.to_string() }
}

fn module(name: &str) -> Module {
    Module { name: name.to_string(), source: format!("return '{name}'") }
}

#[test]
fn directory_is_gone_through_in_the_order_of_names() {
    let entries = vec![file("zsh.lua"), file("init.lua"), dir("themes"), file("bash.lua"), dir("extras")];
    assert_eq!(
        load_dir("rootbeer.shells", entries),
        vec![
            register("bash.lua", "@rootbeer.shells.bash"),
            descend("extras", "rootbeer.shells.extras"),
            register("init.lua", "@rootbeer.shells"),
            descend("themes", "rootbeer.shells.themes"),
            register("zsh.lua", "@rootbeer.shells.zsh"),
        ]
    );
}

#[test]
fn top_level_initializer_is_not_registered() {
    let entries = vec![file("init.lua"), file("git.lua"), dir("shells")];
    assert_eq!(
        load_dir("rootbeer", entries),
        vec![register("git.lua", "@rootbeer.git"), descend("shells", "rootbeer.shells")]
    );
}

#[test]
fn other_files_are_passed_over() {
    let entries = vec![file("README.md"), file("lua"), file(".lua"), file("a.luau"), file("x.lua.bak")];
    assert_eq!(load_dir("rootbeer.x", entries), vec![register(".lua", "@rootbeer.x.")]);
}

#[test]
fn directory_named_like_a_module_is_entered() {
    let entries = vec![dir("init.lua"), dir("a.lua")];
    assert_eq!(
        load_dir("p", entries),
        vec![descend("a.lua", "p.a.lua"), descend("init.lua", "p.init.lua")]
    );
}

#[test]
fn empty_directory_has_no_steps() {
    assert_eq!(load_dir("rootbeer", vec![]), vec![]);
}

#[test]
fn steps_in_order_keeps_the_given_order() {
    let entries = vec![file("b.lua"), file("a.lua")];
    assert_eq!(
        steps_in_order("p", &entries),
        vec![register("b.lua", "@p.b"), register("a.lua", "@p.a")]
    );
}

#[test]
fn step_for_each_kind_of_entry() {
    assert_eq!(step_for("p.q", &dir("sub")), Some(descend("sub", "p.q.sub")));
    assert_eq!(step_for("p.q", &file("mod.lua")), Some(register("mod.lua", "@p.q.mod")));
    assert_eq!(step_for("p.q", &file("init.lua")), Some(register("init.lua", "@p.q")));
    assert_eq!(step_for("rootbeer", &file("init.lua")), None);
    assert_eq!(step_for("p.q", &file("notes.txt")), None);
    assert_eq!(step_for("p.q", &file("é.lua")), Some(register("é.lua", "@p.q.é")));
}

#[test]
fn modules_are_registered_deepest_first() {
    let sorted = registration_order(vec![
        module("@rootbeer.shells"),
        module("@rootbeer.git"),
        module("@rootbeer.shells.zsh"),
        module("@rootbeer.shells.themes.dark"),
        module("@rootbeer.shells.bash"),
        module("@rootbeer.shells.themes"),
    ]);
    let names: Vec<&str> = sorted.iter().map(|module| module.name.as_str()).collect();
    assert_eq!(
        names,
        vec![
            "@rootbeer.shells.themes.dark",
            "@rootbeer.shells.bash",
            "@rootbeer.shells.themes",
            "@rootbeer.shells.zsh",
            "@rootbeer.git",
            "@rootbeer.shells",
        ]
    );
    assert_eq!(sorted[0].source, "return '@rootbeer.shells.themes.dark'");
    assert_eq!(sorted[5].source, "return '@rootbeer.shells'");
}

#[test]
fn initializer_comes_after_the_modules_of_its_directory() {
    let sorted = registration_order(vec![
        module("@rootbeer.shells"),
        module("@rootbeer.shells.zsh"),
        module("@rootbeer.shells.bash"),
    ]);
    let names: Vec<&str> = sorted.iter().map(|module| module.name.as_str()).collect();
    assert_eq!(names, vec!["@rootbeer.shells.bash", "@rootbeer.shells.zsh", "@rootbeer.shells"]);
}

#[test]
fn depth_counts_the_dots() {
    assert_eq!(depth_of(""), 0);
    assert_eq!(depth_of("@rootbeer"), 0);
    assert_eq!(depth_of("@rootbeer.shells"), 1);
    assert_eq!(depth_of("@rootbeer.shells.zsh"), 2);
    assert_eq!(depth_of("..."), 3);
    assert_eq!(depth_of("é.ü"), 1);
}

#[test]
fn entries_are_sorted_by_the_bytes_of_their_names() {
    let sorted = sort(vec![file("b"), file("a"), file("B"), file("ab"), file(""), file("é"), file("z")]);
    let names: Vec<&str> = sorted.iter().map(|entry| entry.name.as_str()).collect();
    assert_eq!(names, vec!["", "B", "a", "ab", "b", "z", "é"]);
    let mut expected = vec!["b", "a", "B", "ab", "", "é", "z"];
    expected.sort();
    assert_eq!(names, expected);
}

#[test]
fn sorting_keeps_every_entry() {
    let sorted = sort(vec![dir("x"), file("x"), file("a"), dir("a")]);
    assert_eq!(sorted.len(), 4);
    assert_eq!(sorted.iter().filter(|entry| entry.is_dir).count(), 2);
    assert_eq!(sorted[0].name, "a");
    assert_eq!(sorted[1].name, "a");
    assert_eq!(sorted[2].name, "x");
    assert_eq!(sorted[3].name, "x");
    assert!(sort(Vec::<DirEntry>::new()).is_empty());
}

#[test]
fn name_order_is_that_of_strings() {
    let names = ["", "a", "ab", "b", "B", "é", "abc", "abd"];
    for a in names {
        for b in names {
            assert_eq!(name_no_later(a, b), a <= b);
            assert_eq!(file(a).comes_no_later(&file(b)), a <= b);
        }
    }
}

#[test]
fn module_order_looks_at_depth_before_name() {
    assert!(module("@z.z").comes_no_later(&module("@a")));
    assert!(!module("@a").comes_no_later(&module("@z.z")));
    assert!(module("@a.b").comes_no_later(&module("@a.c")));
    assert!(!module("@a.c").comes_no_later(&module("@a.b")));
    assert!(module("@a.b").comes_no_later(&module("@a.b")));
}

#[test]
fn annotation_only_modules_are_never_registered() {
    assert!(module_for("@rootbeer.types".to_string(), "--- @meta\nlocal x".to_string()).is_none());
    assert!(module_for("@rootbeer.shells".to_string(), "--- @meta".to_string()).is_none());
    let kept = module_for("@rootbeer.git".to_string(), "return {}".to_string()).unwrap();
    assert_eq!(kept.name, "@rootbeer.git");
    assert_eq!(kept.source, "return {}");
    let kept = module_for("@rootbeer.x".to_string(), "".to_string()).unwrap();
    assert_eq!(kept.name, "@rootbeer.x");
    assert_eq!(kept.source, "");
}

#[test]
fn only_the_plain_module_of_a_directory_is_registered() {
    let entries = vec![file("types.lua"), file("init.lua"), file("notes.txt"), file("git.lua")];
    let sources = |name: &str| match name {
        "types.lua" => "--- @meta\n---@class Host".to_string(),
        "git.lua" => "return {}".to_string(),
        other => panic!("{other} should not be read"),
    };
    let mut modules = Vec::new();
    for step in load_dir("rootbeer", entries) {
        match step {
            LoadStep::Register { file, module } => {
                if let Some(module) = module_for(module, sources(&file)) {
                    modules.push(module);
                }
            }
            LoadStep::Descend { .. } => panic!("there is no directory to go into"),
        }
    }
    let names: Vec<String> =
        registration_order(modules).into_iter().map(|module| module.name).collect();
    assert_eq!(names, vec!["@rootbeer.git".to_string()]);
}

#[test]
fn annotation_modules_are_recognised_by_their_first_line() {
    assert!(is_meta("--- @meta\nlocal x = 1"));
    assert!(is_meta("--- @meta"));
    assert!(!is_meta("-- @meta"));
    assert!(!is_meta(" --- @meta"));
    assert!(!is_meta("--- @met"));
    assert!(!is_meta(""));
    assert!(!is_meta("local M = {}\n--- @meta"));
}

#[test]
fn prefix_and_suffix_tests() {
    assert!(same_text("", ""));
    assert!(same_text("init.lua", "init.lua"));
    assert!(!same_text("init.lua", "Init.lua"));
    assert!(starts_with("abc", ""));
    assert!(starts_with("abc", "ab"));
    assert!(!starts_with("abc", "bc"));
    assert!(!starts_with("ab", "abc"));
    assert!(finishes_with("abc", ""));
    assert!(finishes_with("abc", "bc"));
    assert!(!finishes_with("abc", "ab"));
    assert!(!finishes_with("bc", "abc"));
    assert!(finishes_with("é.lua", ".lua"));
}

#[test]
fn alias_configuration_names_the_library_root() {
    let requirer = RootbeerRequirer::new("/opt/share/lua");
    assert!(requirer.has_config());
    assert_eq!(
        requirer.config(),
        b"{\"aliases\":{\"rootbeer\":\"/opt/share/lua/rootbeer\"}}".to_vec()
    );
    let requirer = RootbeerRequirer::new("/opt/lua/");
    assert_eq!(requirer.config(), b"{\"aliases\":{\"rootbeer\":\"/opt/lua/rootbeer\"}}".to_vec());
}

fn entry() -> Option<PasswdInfo> {
    PasswdInfo::assemble(
        Some("dbuser".to_string()),
        Some("/db/home".to_string()),
        Some("/bin/zsh".to_string()),
    )
}

#[test]
fn host_info_fills_in_what_is_missing() {
    let info = HostInfo::gather("linux", "x86_64", Some("/home/u"), Some("u"), entry(), Some("box"));
    assert_eq!(info.os, "linux");
    assert_eq!(info.arch, "x86_64");
    assert_eq!(info.home, "/home/u");
    assert_eq!(info.username, "u");
    assert_eq!(info.hostname, "box");
    let info = HostInfo::gather("macos", "aarch64", None, None, None, None);
    assert_eq!(info.home, "");
    assert_eq!(info.username, "");
    assert_eq!(info.hostname, "unknown");
}

#[test]
fn host_info_takes_the_environment_before_the_user_database() {
    let info = HostInfo::gather("linux", "x86_64", None, None, entry(), None);
    assert_eq!(info.home, "/db/home");
    assert_eq!(info.username, "dbuser");
    let info = HostInfo::gather("linux", "x86_64", Some("/env/home"), None, entry(), None);
    assert_eq!(info.home, "/env/home");
    assert_eq!(info.username, "dbuser");
    let info = HostInfo::gather("linux", "x86_64", None, Some("envuser"), entry(), None);
    assert_eq!(info.home, "/db/home");
    assert_eq!(info.username, "envuser");
    let info = HostInfo::gather("linux", "x86_64", Some(""), Some(""), entry(), None);
    assert_eq!(info.home, "");
    assert_eq!(info.username, "");
}

#[test]
fn user_entry_is_whole_or_absent() {
    let whole = entry().unwrap();
    assert_eq!(whole.name, "dbuser");
    assert_eq!(whole.dir, "/db/home");
    assert_eq!(whole.shell, "/bin/zsh");
    let text = |value: &str| Some(value.to_string());
    assert!(PasswdInfo::assemble(None, text("/h"), text("/bin/sh")).is_none());
    assert!(PasswdInfo::assemble(text("u"), None, text("/bin/sh")).is_none());
    assert!(PasswdInfo::assemble(text("u"), text("/h"), None).is_none());
    assert!(PasswdInfo::assemble(None, None, None).is_none());
}

#[test]
fn name_ends_at_the_first_zero_byte() {
    assert_eq!(name_end(b"host\0\0\0"), 4);
    assert_eq!(name_end(b"\0host"), 0);
    assert_eq!(name_end(b"host"), 4);
    assert_eq!(name_end(b""), 0);
    assert_eq!(name_end(b"a\0b\0"), 1);
}
