use crate::runtime::str_of;
use vstd::prelude::*;
use vstd::string::*;

verus! {

/// What a script can learn of the machine it runs on.
#[derive(Debug)]
pub struct HostInfo {
    /// The operating system, such as `linux` or `macos`.
    pub os: String,
    /// The processor's architecture, such as `x86_64`.
    pub arch: String,
    /// The user's home directory; empty where it is not known.
    pub home: String,
    /// The user's name; empty where it is not known.
    pub username: String,
    /// The machine's name, or `unknown`.
    pub hostname: String,
}

/// The mathematical value of a [`HostInfo`].
pub ghost struct HostInfoView {
    pub os: Seq<char>,
    pub arch: Seq<char>,
    pub home: Seq<char>,
    pub username: Seq<char>,
    pub hostname: Seq<char>,
}

impl View for HostInfo {
    type V = HostInfoView;

    open spec fn view(&self) -> HostInfoView {
        HostInfoView {
            os: self.os@,
            arch: self.arch@,
            home: self.home@,
            username: self.username@,
            hostname: self.hostname@,
        }
    }
}

/// The text given, or `fallback` where there is none.
pub open spec fn or_else(text: Option<Seq<char>>, fallback: Seq<char>) -> Seq<char> {
    match text {
        Some(t) => t,
        None => fallback,
    }
}

fn text_or(text: Option<&str>, fallback: &str) -> (made: String)
    ensures
        made@ == or_else(str_of(text), fallback@),
{
    match text {
        Some(t) => String::from_str(t),
        None => String::from_str(fallback),
    }
}

/// The first of the two texts that is there.
pub open spec fn first_of(first: Option<Seq<char>>, second: Option<Seq<char>>) -> Option<
    Seq<char>,
> {
    match first {
        Some(text) => Some(text),
        None => second,
    }
}

/// What the system's user database holds of the current user.
#[derive(Debug)]
pub struct PasswdInfo {
    /// The user's name.
    pub name: String,
    /// The user's home directory.
    pub dir: String,
    /// The user's login shell.
    pub shell: String,
}

impl PasswdInfo {
    /// The user's entry, from its parts as far as they could be read as
    /// text. The entry is whole or absent: where any part is missing there
    /// is no entry.
    pub fn assemble(name: Option<String>, dir: Option<String>, shell: Option<String>) -> (entry:
        Option<PasswdInfo>)
        ensures
            match (name, dir, shell) {
                (Some(n), Some(d), Some(s)) => entry matches Some(e) && e.name@ == n@ && e.dir@
                    == d@ && e.shell@ == s@,
                _ => entry is None,
            },
    {
        match (name, dir, shell) {
            (Some(name), Some(dir), Some(shell)) => Some(PasswdInfo { name, dir, shell }),
            _ => None,
        }
    }
}

/// The name in the user's entry, where there is an entry.
pub open spec fn name_in(entry: Option<PasswdInfo>) -> Option<Seq<char>> {
    match entry {
        Some(e) => Some(e.name@),
        None => None,
    }
}

/// The home directory in the user's entry, where there is an entry.
pub open spec fn dir_in(entry: Option<PasswdInfo>) -> Option<Seq<char>> {
    match entry {
        Some(e) => Some(e.dir@),
        None => None,
    }
}

impl HostInfo {
    /// Puts together what is known of the host. The home directory and the
    /// user's name are those of the environment; where the environment has
    /// none, those of the user database; where that has none either, they
    /// are left empty. A host name that could not be had is given as
    /// `unknown`. No part is required, and nothing here fails.
    pub fn gather(
        os: &str,
        arch: &str,
        home: Option<&str>,
        username: Option<&str>,
        passwd: Option<PasswdInfo>,
        hostname: Option<&str>,
    ) -> (info: HostInfo)
        ensures
            info@ == (HostInfoView {
                os: os@,
                arch: arch@,
                home: or_else(first_of(str_of(home), dir_in(passwd)), ""@),
                username: or_else(first_of(str_of(username), name_in(passwd)), ""@),
                hostname: or_else(str_of(hostname), "unknown"@),
            }),
    {
        let (known_home, known_name) = match passwd {
            Some(entry) => (Some(entry.dir), Some(entry.name)),
            None => (None, None),
        };
        let home = match (home, known_home) {
            (Some(dir), _) => String::from_str(dir),
            (None, Some(dir)) => dir,
            (None, None) => String::from_str(""),
        };
        let username = match (username, known_name) {
            (Some(name), _) => String::from_str(name),
            (None, Some(name)) => name,
            (None, None) => String::from_str(""),
        };
        HostInfo {
            os: String::from_str(os),
            arch: String::from_str(arch),
            home,
            username,
            hostname: text_or(hostname, "unknown"),
        }
    }
}

/// The length of the text at the start of `buffer`: the place of the first
/// zero byte, or the whole length where there is none.
pub open spec fn text_len(buffer: Seq<u8>) -> nat
    decreases buffer.len(),
{
    if buffer.len() == 0 || buffer[0] == 0 {
        0
    } else {
        1 + text_len(buffer.drop_first())
    }
}

/// Finds where the text ends that the system wrote to the start of
/// `buffer`: at the first zero byte, or at the end of the buffer.
pub fn name_end(buffer: &[u8]) -> (end: usize)
    ensures
        end == text_len(buffer@),
        end <= buffer@.len(),
        forall|i: int| 0 <= i < end ==> buffer@[i] != 0,
        end < buffer@.len() ==> buffer@[end as int] == 0,
{
    let mut end: usize = 0;
    assert(buffer@.skip(0) =~= buffer@);
    while end < buffer.len() && buffer[end] != 0
        invariant
            end <= buffer@.len(),
            forall|i: int| 0 <= i < end ==> buffer@[i] != 0,
            text_len(buffer@) == end + text_len(buffer@.skip(end as int)),
        decreases buffer.len() - end,
    {
        assert(buffer@.skip(end as int)[0] == buffer@[end as int]);
        assert(buffer@.skip(end as int).drop_first() =~= buffer@.skip(end + 1));
        end += 1;
    }
    assert(end < buffer@.len() ==> buffer@.skip(end as int)[0] == buffer@[end as int]);
    end
}

} // verus!
