use vstd::prelude::*;

verus! {

/// One declared filesystem intent.
///
/// Paths are held as text. A `Symlink`'s `src` is expected to be the fully
/// resolved location of the link's target, so that an existing link can be
/// compared against it character by character.
#[derive(Debug)]
pub enum Op {
    /// Write `content` to the file at `path`, replacing what is there.
    WriteFile { path: String, content: String },
    /// Make `dst` a symbolic link that points at `src`.
    Symlink { src: String, dst: String },
}

/// The mathematical value of an [`Op`].
pub ghost enum OpView {
    WriteFile { path: Seq<char>, content: Seq<char> },
    Symlink { src: Seq<char>, dst: Seq<char> },
}

impl View for Op {
    type V = OpView;

    open spec fn view(&self) -> OpView {
        match *self {
            Op::WriteFile { path, content } => OpView::WriteFile {
                path: path@,
                content: content@,
            },
            Op::Symlink { src, dst } => OpView::Symlink { src: src@, dst: dst@ },
        }
    }
}

impl DeepView for Op {
    type V = OpView;

    open spec fn deep_view(&self) -> OpView {
        self@
    }
}

impl OpView {
    /// The path whose entry the operation sets.
    pub open spec fn target(self) -> Seq<char> {
        match self {
            OpView::WriteFile { path, .. } => path,
            OpView::Symlink { dst, .. } => dst,
        }
    }
}

impl Op {
    /// The path whose entry the operation sets: the file written or the link
    /// made.
    pub fn target(&self) -> (path: &str)
        ensures
            path@ == self@.target(),
    {
        match self {
            Op::WriteFile { path, .. } => path.as_str(),
            Op::Symlink { dst, .. } => dst.as_str(),
        }
    }
}

impl Clone for Op {
    fn clone(&self) -> (copy: Op)
        ensures
            copy@ == self@,
    {
        match self {
            Op::WriteFile { path, content } => Op::WriteFile {
                path: path.clone(),
                content: content.clone(),
            },
            Op::Symlink { src, dst } => Op::Symlink { src: src.clone(), dst: dst.clone() },
        }
    }
}

impl PartialEq for Op {
    fn eq(&self, other: &Op) -> (same: bool) {
        match (self, other) {
            (
                Op::WriteFile { path: p1, content: c1 },
                Op::WriteFile { path: p2, content: c2 },
            ) => *p1 == *p2 && *c1 == *c2,
            (Op::Symlink { src: s1, dst: d1 }, Op::Symlink { src: s2, dst: d2 }) => *s1 == *s2
                && *d1 == *d2,
            _ => false,
        }
    }
}

impl vstd::std_specs::cmp::PartialEqSpecImpl for Op {
    open spec fn obeys_eq_spec() -> bool {
        true
    }

    open spec fn eq_spec(&self, other: &Op) -> bool {
        self@ == other@
    }
}

} // verus!
