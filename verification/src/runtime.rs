use crate::error::{Error, ErrorView, IoKind};
use crate::paths::{file_name, file_name_of, join, joined, parent, parent_of};
use vstd::prelude::*;
use vstd::string::*;

verus! {

/// What a run knows of its surroundings. It is made once, before the script
/// starts, and does not change while the script runs.
#[derive(Debug)]
pub struct Runtime {
    /// The directory that holds the script. Relative paths in the script are
    /// taken from here, not from where the program was started.
    pub script_dir: String,
    /// The script's file name.
    pub script_name: String,
    /// The root of the helper library that scripts can import.
    pub lua_dir: String,
    /// The user's home directory, where one is known.
    pub home: Option<String>,
}

/// The mathematical value of a [`Runtime`].
pub ghost struct RuntimeView {
    pub script_dir: Seq<char>,
    pub script_name: Seq<char>,
    pub lua_dir: Seq<char>,
    pub home: Option<Seq<char>>,
}

/// The mathematical value of a text that may be absent.
pub open spec fn text_of(text: Option<String>) -> Option<Seq<char>> {
    match text {
        Some(t) => Some(t@),
        None => None,
    }
}

/// The mathematical value of a borrowed text that may be absent.
pub open spec fn str_of(text: Option<&str>) -> Option<Seq<char>> {
    match text {
        Some(t) => Some(t@),
        None => None,
    }
}

impl View for Runtime {
    type V = RuntimeView;

    open spec fn view(&self) -> RuntimeView {
        RuntimeView {
            script_dir: self.script_dir@,
            script_name: self.script_name@,
            lua_dir: self.lua_dir@,
            home: text_of(self.home),
        }
    }
}

/// The error for a script path that names no directory.
pub open spec fn no_parent() -> ErrorView {
    ErrorView::Io { kind: IoKind::InvalidInput, message: "script has no parent directory"@ }
}

/// The error for a script path that names no file.
pub open spec fn no_file_name() -> ErrorView {
    ErrorView::Io { kind: IoKind::InvalidInput, message: "script has no file name"@ }
}

/// The runtime for a script whose path has the given directory and file
/// name. A path without a directory is refused, and so is, after that, one
/// without a file name.
pub open spec fn assembled(
    dir: Option<Seq<char>>,
    name: Option<Seq<char>>,
    lua_dir: Seq<char>,
    home: Option<Seq<char>>,
) -> Result<RuntimeView, ErrorView> {
    match (dir, name) {
        (None, _) => Err(no_parent()),
        (Some(_), None) => Err(no_file_name()),
        (Some(script_dir), Some(script_name)) => Ok(
            RuntimeView { script_dir, script_name, lua_dir, home },
        ),
    }
}

/// Whether `made` is the outcome that `wanted` describes.
pub open spec fn is_outcome(made: Result<Runtime, Error>, wanted: Result<RuntimeView, ErrorView>) -> bool {
    match (made, wanted) {
        (Ok(runtime), Ok(view)) => runtime@ == view,
        (Err(error), Err(view)) => error@ == view,
        _ => false,
    }
}

/// The directory in which the script is looked for when none is named, by
/// what the environment holds: `rootbeer` inside the data directory; else
/// `.local/share/rootbeer` inside the home directory; else the working
/// directory, or `.` where even that is unknown.
pub open spec fn default_dir_of(
    data_home: Option<Seq<char>>,
    home: Option<Seq<char>>,
    working_dir: Option<Seq<char>>,
) -> Seq<char> {
    match (data_home, home, working_dir) {
        (Some(dir), _, _) => joined(dir, "rootbeer"@),
        (None, Some(dir), _) => joined(dir, ".local/share/rootbeer"@),
        (None, None, Some(dir)) => dir,
        (None, None, None) => "."@,
    }
}

impl Runtime {
    /// Puts a runtime together from the parts of the script's path.
    pub fn assemble(
        dir: Option<String>,
        name: Option<String>,
        lua_dir: String,
        home: Option<String>,
    ) -> (made: Result<Runtime, Error>)
        ensures
            is_outcome(made, assembled(text_of(dir), text_of(name), lua_dir@, text_of(home))),
    {
        let script_dir = match dir {
            Some(dir) => dir,
            None => {
                return Err(
                    Error::io(
                        IoKind::InvalidInput,
                        String::from_str("script has no parent directory"),
                    ),
                );
            },
        };
        let script_name = match name {
            Some(name) => name,
            None => {
                return Err(
                    Error::io(IoKind::InvalidInput, String::from_str("script has no file name")),
                );
            },
        };
        Ok(Runtime { script_dir, script_name, lua_dir, home })
    }

    /// Makes the runtime for the script at `script`, which is to be the
    /// script's full path with every link in it followed. The directory and
    /// the file name are those that the standard library reads off the path.
    pub fn from_script(script: &str, lua_dir: &str, home: Option<&str>) -> (made: Result<
        Runtime,
        Error,
    >)
        ensures
            is_outcome(
                made,
                assembled(parent_of(script@), file_name_of(script@), lua_dir@, str_of(home)),
            ),
    {
        let home = match home {
            Some(dir) => Some(String::from_str(dir)),
            None => None,
        };
        Runtime::assemble(parent(script), file_name(script), String::from_str(lua_dir), home)
    }

    /// The directory in which the script is looked for when none is named.
    pub fn default_dir(data_home: Option<&str>, home: Option<&str>, working_dir: Option<&str>) -> (dir:
        String)
        ensures
            dir@ == default_dir_of(str_of(data_home), str_of(home), str_of(working_dir)),
    {
        match (data_home, home, working_dir) {
            (Some(dir), _, _) => join(dir, "rootbeer"),
            (None, Some(dir), _) => join(dir, ".local/share/rootbeer"),
            (None, None, Some(dir)) => String::from_str(dir),
            (None, None, None) => String::from_str("."),
        }
    }

    /// The script that is run when none is named: `source/rootbeer.lua`
    /// inside the default directory.
    pub fn default_script(dir: &str) -> (script: String)
        ensures
            script@ == joined(dir@, "source/rootbeer.lua"@),
    {
        join(dir, "source/rootbeer.lua")
    }
}

} // verus!
