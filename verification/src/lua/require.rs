use crate::paths::{join, joined};
use vstd::prelude::*;
use vstd::string::*;

verus! {

/// The configuration that makes the helper library reachable under its
/// alias: the alias `rootbeer` stands for the directory `rootbeer` inside
/// `lua_dir`. The directory's path is put in as it is, without escaping.
pub open spec fn alias_config(lua_dir: Seq<char>) -> Seq<char> {
    "{\"aliases\":{\"rootbeer\":\""@ + joined(lua_dir, "rootbeer"@) + "\"}}"@
}

/// What the resolver of script imports adds to the host's own resolver of
/// files: a configuration, present wherever the resolver stands, that binds
/// the alias of the helper library. No configuration file on disk is needed
/// for it. All else is the host resolver's business.
#[derive(Debug)]
pub struct RootbeerRequirer {
    config: Vec<u8>,
}

impl View for RootbeerRequirer {
    type V = Seq<u8>;

    closed spec fn view(&self) -> Seq<u8> {
        self.config@
    }
}

impl RootbeerRequirer {
    /// Binds the alias to the helper library under `lua_dir`.
    pub fn new(lua_dir: &str) -> (requirer: RootbeerRequirer)
        ensures
            requirer@ == vstd::utf8::encode_utf8(alias_config(lua_dir@)),
    {
        let root = join(lua_dir, "rootbeer");
        let mut text = String::from_str("{\"aliases\":{\"rootbeer\":\"");
        text.append(root.as_str());
        text.append("\"}}");
        RootbeerRequirer { config: text.as_str().as_bytes_vec() }
    }

    /// Whether a configuration is present: always.
    pub fn has_config(&self) -> (present: bool)
        ensures
            present,
    {
        true
    }

    /// The configuration, as the bytes of its text.
    pub fn config(&self) -> (bytes: Vec<u8>)
        ensures
            bytes@ == self@,
    {
        self.config.clone()
    }
}

} // verus!
