use crate::error::{Error, ErrorView};
use crate::lua::vm::Run;
use crate::paths::{join, joined, resolve_path, resolved};
use crate::plan::{Op, OpView};
use crate::runtime::{text_of, Runtime};
use vstd::prelude::*;
use vstd::string::*;

verus! {

/// The operation that the script call `file(path, content)` declares: the
/// content is to be written to where `path` resolves.
pub open spec fn file_op(runtime: Runtime, path: Seq<char>, content: Seq<char>) -> OpView {
    OpView::WriteFile {
        path: resolved(runtime.script_dir@, text_of(runtime.home), path),
        content,
    }
}

/// The operation that the script call `link_file(src, dest)` declares, once
/// the source has been found at `found`: `dest`, resolved, is to be a link to
/// it.
pub open spec fn link_op(runtime: Runtime, found: Seq<char>, dest: Seq<char>) -> OpView {
    OpView::Symlink {
        src: found,
        dst: resolved(runtime.script_dir@, text_of(runtime.home), dest),
    }
}

/// Where the source of a link is looked for: inside the script's directory.
/// A `~` has no meaning here.
pub open spec fn link_source_of(runtime: Runtime, src: Seq<char>) -> Seq<char> {
    joined(runtime.script_dir@, src)
}

/// The error for a link whose source could not be found at `looked_at`, for
/// the reason `why`.
pub open spec fn missing_source(src: Seq<char>, looked_at: Seq<char>, why: Seq<char>) -> ErrorView {
    ErrorView::Lua {
        message: "link_file source '"@ + src + "' (resolved to '"@ + looked_at + "'): "@ + why,
    }
}

/// The home directory of the runtime, borrowed.
fn home_of(runtime: &Runtime) -> (home: Option<&str>)
    ensures
        crate::runtime::str_of(home) == text_of(runtime.home),
{
    match &runtime.home {
        Some(dir) => Some(dir.as_str()),
        None => None,
    }
}

/// The script call `file(path, content)`: declares that `content` is to be
/// written to `path`. The path is resolved now; the disk is not touched, and
/// the declaration cannot fail.
pub fn file(runtime: &Runtime, run: &mut Run, path: &str, content: String)
    ensures
        final(run)@ == old(run)@.push(file_op(*runtime, path@, content@)),
{
    let resolved = resolve_path(runtime.script_dir.as_str(), home_of(runtime), path);
    run.record(Op::WriteFile { path: resolved, content });
}

/// Where the source of a link is looked for: `src` taken from the script's
/// directory. The caller finds the true location of this path on disk and
/// hands the outcome to [`link_file`].
pub fn link_source(runtime: &Runtime, src: &str) -> (path: String)
    ensures
        path@ == link_source_of(*runtime, src@),
{
    join(runtime.script_dir.as_str(), src)
}

/// The script call `link_file(src, dest)`: declares that `dest` is to be a
/// link to `src`.
///
/// `found` is what came of looking for the source on disk: its true
/// location, with every link in it followed, or the reason why it could not
/// be reached. A source that was found is declared as the link's target, in
/// that true form. One that was not fails the call at once, and the plan
/// stays as it was.
pub fn link_file(
    runtime: &Runtime,
    run: &mut Run,
    src: &str,
    dest: &str,
    found: Result<String, String>,
) -> (declared: Result<(), Error>)
    ensures
        match found {
            Ok(location) => declared is Ok && final(run)@ == old(run)@.push(
                link_op(*runtime, location@, dest@),
            ),
            Err(why) => {
                &&& final(run)@ == old(run)@
                &&& declared matches Err(error)
                &&& error@ == missing_source(src@, link_source_of(*runtime, src@), why@)
            },
        },
{
    let looked_at = link_source(runtime, src);
    let dst = resolve_path(runtime.script_dir.as_str(), home_of(runtime), dest);
    match found {
        Ok(location) => {
            run.record(Op::Symlink { src: location, dst });
            Ok(())
        },
        Err(why) => {
            let mut message = String::from_str("link_file source '");
            message.append(src);
            message.append("' (resolved to '");
            message.append(looked_at.as_str());
            message.append("'): ");
            message.append(why.as_str());
            Err(Error::Lua(message))
        },
    }
}

} // verus!
