use crate::order::{ordered, sort, Ranked};
use crate::text::{begins_with, ends_with, finishes_with, same_text, starts_with};
use vstd::prelude::*;
use vstd::string::*;

verus! {

/// One entry of a directory of the helper library.
#[derive(Debug)]
pub struct DirEntry {
    /// The entry's name inside its directory.
    pub name: String,
    /// Whether the entry is a directory.
    pub is_dir: bool,
}

/// The mathematical value of a [`DirEntry`].
pub ghost struct DirEntryView {
    pub name: Seq<char>,
    pub is_dir: bool,
}

impl DeepView for DirEntry {
    type V = DirEntryView;

    open spec fn deep_view(&self) -> DirEntryView {
        DirEntryView { name: self.name@, is_dir: self.is_dir }
    }
}

/// What is to be done for one entry of a directory.
#[derive(Debug)]
pub enum LoadStep {
    /// Go through the directory `dir`, whose modules stand under the name
    /// `prefix`.
    Descend { dir: String, prefix: String },
    /// Read the file `file`: it holds the module `module`.
    Register { file: String, module: String },
}

/// The mathematical value of a [`LoadStep`].
pub ghost enum LoadStepView {
    Descend { dir: Seq<char>, prefix: Seq<char> },
    Register { file: Seq<char>, module: Seq<char> },
}

impl DeepView for LoadStep {
    type V = LoadStepView;

    open spec fn deep_view(&self) -> LoadStepView {
        match *self {
            LoadStep::Descend { dir, prefix } => LoadStepView::Descend {
                dir: dir@,
                prefix: prefix@,
            },
            LoadStep::Register { file, module } => LoadStepView::Register {
                file: file@,
                module: module@,
            },
        }
    }
}

impl PartialEq for LoadStep {
    fn eq(&self, other: &LoadStep) -> (same: bool) {
        match (self, other) {
            (
                LoadStep::Descend { dir: d1, prefix: p1 },
                LoadStep::Descend { dir: d2, prefix: p2 },
            ) => *d1 == *d2 && *p1 == *p2,
            (
                LoadStep::Register { file: f1, module: m1 },
                LoadStep::Register { file: f2, module: m2 },
            ) => *f1 == *f2 && *m1 == *m2,
            _ => false,
        }
    }
}

impl vstd::std_specs::cmp::PartialEqSpecImpl for LoadStep {
    open spec fn obeys_eq_spec() -> bool {
        true
    }

    open spec fn eq_spec(&self, other: &LoadStep) -> bool {
        self.deep_view() == other.deep_view()
    }
}

/// The order of byte strings: byte by byte, and a string before any longer
/// one that begins with it.
pub open spec fn bytes_le(a: Seq<u8>, b: Seq<u8>) -> bool
    decreases a.len(),
{
    if a.len() == 0 {
        true
    } else if b.len() == 0 {
        false
    } else if a[0] != b[0] {
        a[0] < b[0]
    } else {
        bytes_le(a.drop_first(), b.drop_first())
    }
}

/// The order of names: that of the bytes they are written with.
pub open spec fn name_le(a: Seq<char>, b: Seq<char>) -> bool {
    bytes_le(vstd::utf8::encode_utf8(a), vstd::utf8::encode_utf8(b))
}

/// Of any two byte strings, one comes no later than the other.
pub proof fn bytes_le_total(a: Seq<u8>, b: Seq<u8>)
    ensures
        bytes_le(a, b) || bytes_le(b, a),
    decreases a.len(),
{
    if a.len() > 0 && b.len() > 0 && a[0] == b[0] {
        bytes_le_total(a.drop_first(), b.drop_first());
    }
}

/// The order of byte strings carries over: what comes no later than a
/// second, which comes no later than a third, comes no later than the third.
pub proof fn bytes_le_transitive(a: Seq<u8>, b: Seq<u8>, c: Seq<u8>)
    requires
        bytes_le(a, b),
        bytes_le(b, c),
    ensures
        bytes_le(a, c),
    decreases a.len(),
{
    if a.len() > 0 && b.len() > 0 && c.len() > 0 && a[0] == b[0] && b[0] == c[0] {
        bytes_le_transitive(a.drop_first(), b.drop_first(), c.drop_first());
    }
}

/// Compares two names by their bytes.
pub fn name_no_later(a: &str, b: &str) -> (yes: bool)
    ensures
        yes == name_le(a@, b@),
{
    let x = a.as_bytes();
    let y = b.as_bytes();
    let mut i: usize = 0;
    assert(x@.skip(0) =~= x@);
    assert(y@.skip(0) =~= y@);
    while i < x.len() && i < y.len()
        invariant
            i <= x.len(),
            i <= y.len(),
            x@ == vstd::utf8::encode_utf8(a@),
            y@ == vstd::utf8::encode_utf8(b@),
            bytes_le(x@, y@) == bytes_le(x@.skip(i as int), y@.skip(i as int)),
        decreases x.len() - i,
    {
        assert(x@.skip(i as int)[0] == x@[i as int]);
        assert(y@.skip(i as int)[0] == y@[i as int]);
        assert(x@.skip(i as int).drop_first() =~= x@.skip(i + 1));
        assert(y@.skip(i as int).drop_first() =~= y@.skip(i + 1));
        if x[i] != y[i] {
            assert(bytes_le(x@.skip(i as int), y@.skip(i as int)) == (x@[i as int] < y@[i as int]));
            return x[i] < y[i];
        }
        i += 1;
    }
    i >= x.len()
}

/// The entries of a directory are taken in the order of their names.
impl Ranked for DirEntry {
    open spec fn no_later(self, other: DirEntry) -> bool {
        name_le(self.name@, other.name@)
    }

    proof fn total(x: DirEntry, y: DirEntry) {
        bytes_le_total(vstd::utf8::encode_utf8(x.name@), vstd::utf8::encode_utf8(y.name@));
    }

    proof fn transitive(x: DirEntry, y: DirEntry, z: DirEntry) {
        bytes_le_transitive(
            vstd::utf8::encode_utf8(x.name@),
            vstd::utf8::encode_utf8(y.name@),
            vstd::utf8::encode_utf8(z.name@),
        );
    }

    fn comes_no_later(&self, other: &DirEntry) -> (yes: bool) {
        name_no_later(self.name.as_str(), other.name.as_str())
    }
}

/// The name under which the native module stands and under which the helper
/// library is reached.
pub open spec fn alias() -> Seq<char> {
    "rootbeer"@
}

/// What is to be done for one entry of the directory whose modules stand
/// under `prefix`. A subdirectory is gone through, under the prefix, a dot
/// and its own name. A file whose name ends in `.lua` holds a module,
/// named, behind an `@`, by the prefix, a dot and the file's name without
/// `.lua`; the file `init.lua` holds the module of the directory itself,
/// named by the prefix alone, except at the top of the library, whose own
/// name belongs to the native module. Any other file is passed over.
pub open spec fn step_of(prefix: Seq<char>, entry: DirEntryView) -> Option<LoadStepView> {
    if entry.is_dir {
        Some(LoadStepView::Descend { dir: entry.name, prefix: prefix + "."@ + entry.name })
    } else if !ends_with(entry.name, ".lua"@) {
        None
    } else if entry.name == "init.lua"@ {
        if prefix == alias() {
            None
        } else {
            Some(LoadStepView::Register { file: entry.name, module: "@"@ + prefix })
        }
    } else {
        Some(
            LoadStepView::Register {
                file: entry.name,
                module: "@"@ + prefix + "."@ + entry.name.subrange(0, entry.name.len() - 4),
            },
        )
    }
}

/// The steps for the entries of a directory, taken in the order given.
pub open spec fn steps_of(prefix: Seq<char>, entries: Seq<DirEntryView>) -> Seq<LoadStepView>
    decreases entries.len(),
{
    if entries.len() == 0 {
        Seq::empty()
    } else {
        match step_of(prefix, entries.last()) {
            Some(step) => steps_of(prefix, entries.drop_last()).push(step),
            None => steps_of(prefix, entries.drop_last()),
        }
    }
}

/// The step for one entry, where there is one.
pub fn step_for(prefix: &str, entry: &DirEntry) -> (step: Option<LoadStep>)
    ensures
        step.deep_view() == step_of(prefix@, entry.deep_view()),
{
    let name = entry.name.as_str();
    proof {
        reveal_strlit(".lua");
    }
    if entry.is_dir {
        let mut inner = String::from_str(prefix);
        inner.append(".");
        inner.append(name);
        Some(LoadStep::Descend { dir: entry.name.clone(), prefix: inner })
    } else if !finishes_with(name, ".lua") {
        None
    } else if same_text(name, "init.lua") {
        if same_text(prefix, "rootbeer") {
            None
        } else {
            let mut module = String::from_str("@");
            module.append(prefix);
            Some(LoadStep::Register { file: entry.name.clone(), module })
        }
    } else {
        let len = name.unicode_len();
        let mut module = String::from_str("@");
        module.append(prefix);
        module.append(".");
        module.append(name.substring_char(0, len - 4));
        Some(LoadStep::Register { file: entry.name.clone(), module })
    }
}

/// The steps for a directory whose entries are taken in the order given.
pub fn steps_in_order(prefix: &str, entries: &Vec<DirEntry>) -> (steps: Vec<LoadStep>)
    ensures
        steps.deep_view() == steps_of(prefix@, entries.deep_view()),
{
    let ghost all = entries.deep_view();
    let mut steps: Vec<LoadStep> = Vec::new();
    assert(steps.deep_view() =~= Seq::<LoadStepView>::empty());
    assert(all.take(0) =~= Seq::<DirEntryView>::empty());
    let mut i: usize = 0;
    while i < entries.len()
        invariant
            i <= entries.len(),
            all == entries.deep_view(),
            steps.deep_view() == steps_of(prefix@, all.take(i as int)),
        decreases entries.len() - i,
    {
        assert(all.take(i + 1).drop_last() =~= all.take(i as int));
        assert(all.take(i + 1).last() == all[i as int]);
        match step_for(prefix, &entries[i]) {
            Some(step) => {
                let ghost before = steps.deep_view();
                steps.push(step);
                assert(steps.deep_view() =~= before.push(step.deep_view()));
            },
            None => {},
        }
        i += 1;
    }
    assert(all.take(i as int) =~= all);
    steps
}

/// Lays out the way through one directory of the helper library: the steps
/// of [`steps_of`] for the entries taken in the order of their names.
pub fn load_dir(prefix: &str, entries: Vec<DirEntry>) -> (steps: Vec<LoadStep>)
    ensures
        exists|order: Vec<DirEntry>|
            {
                &&& ordered(order@)
                &&& order@.to_multiset() == entries@.to_multiset()
                &&& #[trigger] steps_of(prefix@, order.deep_view()) == steps.deep_view()
            },
{
    let sorted = sort(entries);
    let steps = steps_in_order(prefix, &sorted);
    assert(steps_of(prefix@, sorted.deep_view()) == steps.deep_view());
    steps
}

/// Whether a module's source holds annotations only: it begins with the
/// marker `--- @meta`. Such a module is for tools that read the library and
/// is never registered.
pub open spec fn annotations_only(source: Seq<char>) -> bool {
    begins_with(source, "--- @meta"@)
}

/// Whether a module's source holds annotations only.
pub fn is_meta(source: &str) -> (yes: bool)
    ensures
        yes == annotations_only(source@),
{
    starts_with(source, "--- @meta")
}

/// A module of the helper library that is to be registered: its name and
/// its source.
#[derive(Debug)]
pub struct Module {
    pub name: String,
    pub source: String,
}

/// The module that a file of the helper library holds, if it holds one to
/// register: none where the source is annotations only, else the module of
/// that name with that source.
pub fn module_for(name: String, source: String) -> (module: Option<Module>)
    ensures
        annotations_only(source@) ==> module is None,
        !annotations_only(source@) ==> (module matches Some(m) && m.name@ == name@ && m.source@
            == source@),
{
    if is_meta(source.as_str()) {
        None
    } else {
        Some(Module { name, source })
    }
}

/// The number of dots in a module's name: how deep the module lies in the
/// library.
pub open spec fn depth(name: Seq<char>) -> nat
    decreases name.len(),
{
    if name.len() == 0 {
        0
    } else if name.last() == '.' {
        depth(name.drop_last()) + 1
    } else {
        depth(name.drop_last())
    }
}

/// Counts the dots in a module's name.
pub fn depth_of(name: &str) -> (dots: usize)
    ensures
        dots == depth(name@),
{
    let len = name.unicode_len();
    let mut dots: usize = 0;
    let mut i: usize = 0;
    assert(name@.take(0) =~= Seq::<char>::empty());
    while i < len
        invariant
            i <= len,
            len == name@.len(),
            dots == depth(name@.take(i as int)),
            dots <= i,
        decreases len - i,
    {
        assert(name@.take(i + 1).drop_last() =~= name@.take(i as int));
        assert(name@.take(i + 1).last() == name@[i as int]);
        if name.get_char(i) == '.' {
            dots += 1;
        }
        i += 1;
    }
    assert(name@.take(len as int) =~= name@);
    dots
}

/// Modules are registered deepest first, and among those of one depth in
/// the order of their names.
impl Ranked for Module {
    open spec fn no_later(self, other: Module) -> bool {
        depth(self.name@) > depth(other.name@) || (depth(self.name@) == depth(other.name@)
            && name_le(self.name@, other.name@))
    }

    proof fn total(x: Module, y: Module) {
        bytes_le_total(vstd::utf8::encode_utf8(x.name@), vstd::utf8::encode_utf8(y.name@));
    }

    proof fn transitive(x: Module, y: Module, z: Module) {
        if depth(x.name@) == depth(y.name@) && depth(y.name@) == depth(z.name@) {
            bytes_le_transitive(
                vstd::utf8::encode_utf8(x.name@),
                vstd::utf8::encode_utf8(y.name@),
                vstd::utf8::encode_utf8(z.name@),
            );
        }
    }

    fn comes_no_later(&self, other: &Module) -> (yes: bool) {
        let mine = depth_of(self.name.as_str());
        let theirs = depth_of(other.name.as_str());
        mine > theirs || (mine == theirs && name_no_later(
            self.name.as_str(),
            other.name.as_str(),
        ))
    }
}

/// Puts the modules of the helper library in the order in which they are
/// to be registered: deepest first, so that what a module may need from
/// further down is there before it.
pub fn registration_order(modules: Vec<Module>) -> (sorted: Vec<Module>)
    ensures
        ordered(sorted@),
        sorted@.to_multiset() == modules@.to_multiset(),
{
    sort(modules)
}

/// The dots of a name made of two parts are those of the parts together.
pub proof fn depth_adds(a: Seq<char>, b: Seq<char>)
    ensures
        depth(a + b) == depth(a) + depth(b),
    decreases b.len(),
{
    if b.len() == 0 {
        assert(a + b =~= a);
    } else {
        assert((a + b).drop_last() =~= a + b.drop_last());
        depth_adds(a, b.drop_last());
    }
}

/// In the order of registration no module comes before one that lies
/// deeper in the library.
pub proof fn deeper_comes_first(modules: Seq<Module>, i: int, j: int)
    requires
        ordered(modules),
        0 <= i < modules.len(),
        0 <= j < modules.len(),
        depth(modules[i].name@) > depth(modules[j].name@),
    ensures
        i < j,
{
    if j < i {
        assert(modules[j].no_later(modules[i]));
    }
}

/// The module of a directory is registered after every module that a file of
/// that directory holds: where the first has the name `@` and the prefix,
/// and the second the name `@`, the prefix, a dot and more, the second
/// comes first.
pub proof fn initializer_comes_last(
    modules: Seq<Module>,
    prefix: Seq<char>,
    stem: Seq<char>,
    package: int,
    leaf: int,
)
    requires
        ordered(modules),
        0 <= package < modules.len(),
        0 <= leaf < modules.len(),
        modules[package].name@ == "@"@ + prefix,
        modules[leaf].name@ == "@"@ + prefix + "."@ + stem,
    ensures
        leaf < package,
{
    reveal_strlit(".");
    depth_adds("@"@ + prefix, "."@ + stem);
    depth_adds("."@, stem);
    assert("@"@ + prefix + "."@ + stem =~= ("@"@ + prefix) + ("."@ + stem));
    assert("."@.drop_last() =~= Seq::<char>::empty());
    assert(depth("."@) == 1) by {
        reveal_with_fuel(depth, 2);
    }
    deeper_comes_first(modules, leaf, package);
}

} // verus!
