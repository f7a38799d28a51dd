use rootbeer_core::error::{Error, IoError, IoKind};
use rootbeer_core::Runtime;

#[test]
fn from_script_splits_directory_and_name() {
    let runtime = Runtime::from_script("/home/u/dots/rootbeer.lua", "/opt/lua", Some("/home/u")).unwrap();
    assert_eq!(runtime.script_dir, "/home/u/dots");
    assert_eq!(runtime.script_name, "rootbeer.lua");
    assert_eq!(runtime.lua_dir, "/opt/lua");
    assert_eq!(runtime.home, Some("/home/u".to_string()));
}

#[test]
fn from_script_in_the_root_directory() {
    let runtime = Runtime::from_script("/rootbeer.lua", "/opt/lua", None).unwrap();
    assert_eq!(runtime.script_dir, "/");
    assert_eq!(runtime.script_name, "rootbeer.lua");
    assert_eq!(runtime.home, None);
}

#[test]
fn from_script_refuses_a_path_without_a_directory() {
    let error = Runtime::from_script("/", "/opt/lua", None).unwrap_err();
    assert_eq!(
        error,
        Error::Io(IoError {
            kind: IoKind::InvalidInput,
            message: "script has no parent directory".to_string()
        })
    );
    assert_eq!(error.message(), "script has no parent directory");
    let error = Runtime::from_script("", "/opt/lua", None).unwrap_err();
    assert_eq!(error.message(), "script has no parent directory");
}

#[test]
fn from_script_refuses_a_path_without_a_file_name() {
    let error = Runtime::from_script("/a/..", "/opt/lua", None).unwrap_err();
    assert_eq!(
        error,
        Error::Io(IoError {
            kind: IoKind::InvalidInput,
            message: "script has no file name".to_string()
        })
    );
}

#[test]
fn assemble_needs_both_parts() {
    let made = Runtime::assemble(
        Some("/d".to_string()),
        Some("s.lua".to_string()),
        "/lua".to_string(),
        Some("/h".to_string()),
    )
    .unwrap();
    assert_eq!(made.script_dir, "/d");
    assert_eq!(made.script_name, "s.lua");
    assert_eq!(made.lua_dir, "/lua");
    assert_eq!(made.home, Some("/h".to_string()));

    let no_dir = Runtime::assemble(None, Some("s.lua".to_string()), "/lua".to_string(), None);
    assert_eq!(no_dir.unwrap_err().message(), "script has no parent directory");
    let neither = Runtime::assemble(None, None, "/lua".to_string(), None);
    assert_eq!(neither.unwrap_err().message(), "script has no parent directory");
    let no_name = Runtime::assemble(Some("/d".to_string()), None, "/lua".to_string(), None);
    assert_eq!(no_name.unwrap_err().message(), "script has no file name");
}

#[test]
fn default_dir_prefers_the_data_directory() {
    assert_eq!(
        Runtime::default_dir(Some("/data"), Some("/home/u"), Some("/cwd")),
        "/data/rootbeer"
    );
}

#[test]
fn default_dir_falls_back_to_home() {
    assert_eq!(
        Runtime::default_dir(None, Some("/home/u"), Some("/cwd")),
        "/home/u/.local/share/rootbeer"
    );
}

#[test]
fn default_dir_falls_back_to_the_working_directory() {
    assert_eq!(Runtime::default_dir(None, None, Some("/cwd")), "/cwd");
    assert_eq!(Runtime::default_dir(None, None, None), ".");
}

#[test]
fn default_script_lies_under_source() {
    assert_eq!(
        Runtime::default_script("/home/u/.local/share/rootbeer"),
        "/home/u/.local/share/rootbeer/source/rootbeer.lua"
    );
}

#[test]
fn conflict_is_told_apart_from_other_errors() {
    let conflict = Error::io(IoKind::AlreadyExists, "x".to_string());
    assert!(conflict.is_conflict());
    assert!(!Error::io(IoKind::Other, "x".to_string()).is_conflict());
    assert!(!Error::io(IoKind::InvalidInput, "x".to_string()).is_conflict());
    assert!(!Error::Lua("x".to_string()).is_conflict());
    assert_eq!(Error::Lua("boom".to_string()).message(), "boom");
    assert_eq!(conflict.clone(), conflict);
}
