use vstd::prelude::*;
use vstd::string::*;

verus! {

/// Whether a path starts at the root of the filesystem. Paths follow the
/// rules of Unix-like systems, the only ones this library is meant for: the
/// separator is `/`, and a path is absolute exactly when it begins with one.
pub open spec fn absolute(path: Seq<char>) -> bool {
    path.len() > 0 && path[0] == '/'
}

/// `path` adjoined to `base`. An absolute `path` replaces `base`; any other
/// is appended to it, after a separator unless `base` is empty or already
/// ends in one.
pub open spec fn joined(base: Seq<char>, path: Seq<char>) -> Seq<char> {
    if absolute(path) {
        path
    } else if base.len() > 0 && base.last() != '/' {
        base + seq!['/'] + path
    } else {
        base + path
    }
}

/// The home directory to use: the one given, or the root where none is
/// known.
pub open spec fn home_or_root(home: Option<Seq<char>>) -> Seq<char> {
    match home {
        Some(dir) => dir,
        None => seq!['/'],
    }
}

/// `path` without the separators that it begins with.
pub open spec fn unrooted(path: Seq<char>) -> Seq<char>
    decreases path.len(),
{
    if path.len() > 0 && path[0] == '/' {
        unrooted(path.drop_first())
    } else {
        path
    }
}

/// `path` with a leading `~` replaced by the home directory. A bare `~` is
/// the home directory itself. Otherwise what follows the `~`, less every
/// separator that it begins with, is adjoined to the home directory, so that
/// the result always lies inside it: `~/x` and `~//x` both name `x` there,
/// and so does `~x`, which is not the home of a user `x`. A path that does
/// not begin with `~` is left as it is.
pub open spec fn expanded(home: Option<Seq<char>>, path: Seq<char>) -> Seq<char> {
    if path.len() > 0 && path[0] == '~' {
        let rest = path.subrange(1, path.len() as int);
        if rest.len() == 0 {
            home_or_root(home)
        } else {
            joined(home_or_root(home), unrooted(rest))
        }
    } else {
        path
    }
}

/// The location that a script means by `path`: the home directory is put in
/// for a leading `~`, an absolute path is taken as it is, and a relative one
/// is adjoined to `base`, the directory of the script.
pub open spec fn resolved(base: Seq<char>, home: Option<Seq<char>>, path: Seq<char>) -> Seq<
    char,
> {
    let full = expanded(home, path);
    if absolute(full) {
        full
    } else {
        joined(base, full)
    }
}

/// The directory that holds `path`, as the standard library's `Path::parent`
/// works it out on Unix-like systems: the path without its last component,
/// and `None` for the root and for the empty path. The rule is the standard
/// library's own and is not restated here.
pub uninterp spec fn parent_of(path: Seq<char>) -> Option<Seq<char>>;

/// The last component of `path`, as the standard library's
/// `Path::file_name` works it out on Unix-like systems: `None` where the
/// path ends in `..` or has no component at all. The rule is the standard
/// library's own and is not restated here.
pub uninterp spec fn file_name_of(path: Seq<char>) -> Option<Seq<char>>;

/// Calls `Path::parent` of the standard library. Trusted: the result is a
/// function of the path's text alone, named [`parent_of`]. The parent of a
/// path given as text is a leading part of that text, so it is text too.
#[verifier::external_body]
pub(crate) fn parent(path: &str) -> (dir: Option<String>)
    ensures
        match dir {
            Some(d) => parent_of(path@) == Some(d@),
            None => parent_of(path@) is None,
        },
{
    std::path::Path::new(path).parent().map(|dir| dir.to_string_lossy().into_owned())
}

/// Calls `Path::file_name` of the standard library. Trusted: the result is a
/// function of the path's text alone, named [`file_name_of`]. The name is a
/// part of the path's text between separators, so it is text too.
#[verifier::external_body]
pub(crate) fn file_name(path: &str) -> (name: Option<String>)
    ensures
        match name {
            Some(n) => file_name_of(path@) == Some(n@),
            None => file_name_of(path@) is None,
        },
{
    std::path::Path::new(path).file_name().map(|name| name.to_string_lossy().into_owned())
}

/// Whether `path` starts at the root of the filesystem.
pub fn is_absolute(path: &str) -> (yes: bool)
    ensures
        yes == absolute(path@),
{
    path.unicode_len() > 0 && path.get_char(0) == '/'
}

/// Adjoins `path` to `base`.
pub fn join(base: &str, path: &str) -> (full: String)
    ensures
        full@ == joined(base@, path@),
{
    if is_absolute(path) {
        return String::from_str(path);
    }
    let mut full = String::from_str(base);
    let len = base.unicode_len();
    if len > 0 && base.get_char(len - 1) != '/' {
        proof {
            reveal_strlit("/");
        }
        full.append("/");
        assert(full@ =~= base@ + seq!['/']);
    }
    full.append(path);
    full
}

/// Replaces a leading `~` of `path` by the home directory, which is the
/// root where `home` is `None`.
pub fn expand_home(home: Option<&str>, path: &str) -> (full: String)
    ensures
        full@ == expanded(
            match home {
                Some(dir) => Some(dir@),
                None => None,
            },
            path@,
        ),
{
    let len = path.unicode_len();
    if len > 0 && path.get_char(0) == '~' {
        proof {
            reveal_strlit("/");
        }
        let home_dir = match home {
            Some(dir) => dir,
            None => "/",
        };
        assert("/"@ =~= seq!['/']);
        if len == 1 {
            return String::from_str(home_dir);
        }
        let ghost rest = path@.subrange(1, len as int);
        let mut from: usize = 1;
        assert(path@.subrange(1, len as int) =~= rest);
        while from < len && path.get_char(from) == '/'
            invariant
                1 <= from <= len,
                len == path@.len(),
                rest == path@.subrange(1, len as int),
                unrooted(rest) == unrooted(path@.subrange(from as int, len as int)),
            decreases len - from,
        {
            assert(path@.subrange(from as int, len as int).drop_first() =~= path@.subrange(
                from + 1,
                len as int,
            ));
            from += 1;
        }
        join(home_dir, path.substring_char(from, len))
    } else {
        String::from_str(path)
    }
}

/// Resolves a path written in a script against the script's directory
/// `base`. Nothing is looked up on disk: whether the location exists is for
/// the caller to find out.
pub fn resolve_path(base: &str, home: Option<&str>, path: &str) -> (full: String)
    ensures
        full@ == resolved(
            base@,
            match home {
                Some(dir) => Some(dir@),
                None => None,
            },
            path@,
        ),
{
    let full = expand_home(home, path);
    if is_absolute(full.as_str()) {
        full
    } else {
        join(base, full.as_str())
    }
}

/// The home directory stands for a bare `~`.
pub proof fn resolve_bare_tilde(base: Seq<char>, home: Seq<char>)
    requires
        absolute(home),
    ensures
        resolved(base, Some(home), seq!['~']) == home,
{
    assert(seq!['~'].subrange(1, 1) =~= Seq::<char>::empty());
}

/// What is left when the leading separators are taken off a path does not
/// begin with one.
pub proof fn unrooted_is_relative(path: Seq<char>)
    ensures
        !absolute(unrooted(path)),
        !absolute(path) ==> unrooted(path) == path,
    decreases path.len(),
{
    if path.len() > 0 && path[0] == '/' {
        unrooted_is_relative(path.drop_first());
    }
}

/// `~/` followed by a path names that path inside the home directory:
/// whatever separators the path begins with are not counted.
pub proof fn resolve_in_home(base: Seq<char>, home: Seq<char>, rest: Seq<char>)
    requires
        absolute(home),
    ensures
        resolved(base, Some(home), seq!['~', '/'] + rest) == joined(home, unrooted(rest)),
        !absolute(rest) ==> resolved(base, Some(home), seq!['~', '/'] + rest) == joined(
            home,
            rest,
        ),
        !absolute(rest) && home.last() != '/' ==> resolved(base, Some(home), seq!['~', '/'] + rest)
            == home + seq!['/'] + rest,
{
    let path = seq!['~', '/'] + rest;
    let tail = path.subrange(1, path.len() as int);
    assert(tail =~= seq!['/'] + rest);
    assert(tail.drop_first() =~= rest);
    unrooted_is_relative(rest);
}

/// A path that begins with `~` never leaves the home directory: where the
/// home directory is absolute, what such a path resolves to begins with it,
/// whatever follows the `~` and whatever the script's directory is.
pub proof fn tilde_stays_in_home(base: Seq<char>, home: Seq<char>, path: Seq<char>)
    requires
        absolute(home),
        path.len() > 0,
        path[0] == '~',
    ensures
        home.len() <= resolved(base, Some(home), path).len(),
        resolved(base, Some(home), path).subrange(0, home.len() as int) == home,
{
    let rest = path.subrange(1, path.len() as int);
    unrooted_is_relative(rest);
    let full = resolved(base, Some(home), path);
    assert(full.subrange(0, home.len() as int) =~= home);
}

/// An absolute path is taken as it stands, whatever the script's directory.
pub proof fn resolve_absolute(base: Seq<char>, home: Option<Seq<char>>, path: Seq<char>)
    requires
        absolute(path),
    ensures
        resolved(base, home, path) == path,
{
}

/// A relative path that does not begin with `~` lands inside the script's
/// directory.
pub proof fn resolve_relative(base: Seq<char>, home: Option<Seq<char>>, path: Seq<char>)
    requires
        !absolute(path),
        path.len() > 0 ==> path[0] != '~',
    ensures
        resolved(base, home, path) == joined(base, path),
        base.len() > 0 && base.last() != '/' ==> resolved(base, home, path) == base + seq!['/']
            + path,
{
}

} // verus!
