use crate::error::{Error, ErrorView};
use crate::text::{decimal, format_integer};
use vstd::prelude::*;
use vstd::string::*;

verus! {

/// A value that is no table.
#[derive(Debug)]
pub enum Atom {
    Boolean(bool),
    Integer(i64),
    /// A number with a fraction, already written out.
    Number(String),
    Text(String),
    /// Anything else; the text is the name of its kind.
    Opaque(String),
    /// A text that could not be read; the text says why.
    Unreadable(String),
}

/// The mathematical value of an [`Atom`].
pub ghost enum AtomView {
    Boolean(bool),
    Integer(int),
    Number(Seq<char>),
    Text(Seq<char>),
    Opaque(Seq<char>),
    Unreadable(Seq<char>),
}

impl DeepView for Atom {
    type V = AtomView;

    open spec fn deep_view(&self) -> AtomView {
        match *self {
            Atom::Boolean(b) => AtomView::Boolean(b),
            Atom::Integer(n) => AtomView::Integer(n as int),
            Atom::Number(text) => AtomView::Number(text@),
            Atom::Text(text) => AtomView::Text(text@),
            Atom::Opaque(kind) => AtomView::Opaque(kind@),
            Atom::Unreadable(why) => AtomView::Unreadable(why@),
        }
    }
}

/// A value inside a subsection: the last level that the format has.
#[derive(Debug)]
pub enum Nested {
    Atom(Atom),
    /// A table, one level deeper than the format goes.
    Table,
    /// An entry whose key could not be read; the text says why.
    Broken(String),
}

/// The mathematical value of a [`Nested`].
pub ghost enum NestedView {
    Atom(AtomView),
    Table,
    Broken(Seq<char>),
}

impl DeepView for Nested {
    type V = NestedView;

    open spec fn deep_view(&self) -> NestedView {
        match *self {
            Nested::Atom(atom) => NestedView::Atom(atom.deep_view()),
            Nested::Table => NestedView::Table,
            Nested::Broken(why) => NestedView::Broken(why@),
        }
    }
}

/// A value inside a section: an entry of the section, or a subsection with
/// entries of its own, in the order in which they are to be written.
#[derive(Debug)]
pub enum Member {
    Atom(Atom),
    Table(Vec<(String, Nested)>),
    /// An entry whose key could not be read; the text says why.
    Broken(String),
}

/// The mathematical value of a [`Member`].
pub ghost enum MemberView {
    Atom(AtomView),
    Table(Seq<(Seq<char>, NestedView)>),
    Broken(Seq<char>),
}

impl DeepView for Member {
    type V = MemberView;

    open spec fn deep_view(&self) -> MemberView {
        match *self {
            Member::Atom(atom) => MemberView::Atom(atom.deep_view()),
            Member::Table(entries) => MemberView::Table(entries.deep_view()),
            Member::Broken(why) => MemberView::Broken(why@),
        }
    }
}

/// A value at the top: a section with its members in order, or something
/// that is no table and cannot be written.
#[derive(Debug)]
pub enum Section {
    Table(Vec<(String, Member)>),
    Other,
    /// An entry whose key could not be read; the text says why.
    Broken(String),
}

/// The mathematical value of a [`Section`].
pub ghost enum SectionView {
    Table(Seq<(Seq<char>, MemberView)>),
    Other,
    Broken(Seq<char>),
}

impl DeepView for Section {
    type V = SectionView;

    open spec fn deep_view(&self) -> SectionView {
        match *self {
            Section::Table(members) => SectionView::Table(members.deep_view()),
            Section::Other => SectionView::Other,
            Section::Broken(why) => SectionView::Broken(why@),
        }
    }
}

/// The error for a value that has no place in the format; `kind` names what
/// it is.
pub open spec fn unsupported(kind: Seq<char>) -> ErrorView {
    ErrorView::Lua { message: "cannot serialize "@ + kind + " to INI value"@ }
}

/// The error for something that could not be read from the script; `why` is
/// what the script host said of it.
pub open spec fn unreadable(why: Seq<char>) -> ErrorView {
    ErrorView::Lua { message: why }
}

/// The error for a top-level key whose value is no table.
pub open spec fn not_a_section(name: Seq<char>) -> ErrorView {
    ErrorView::Lua { message: "INI top-level key '"@ + name + "' must be a table"@ }
}

/// How a value is written on the right side of an entry.
pub open spec fn atom_text(atom: AtomView) -> Result<Seq<char>, ErrorView> {
    match atom {
        AtomView::Boolean(b) => Ok(
            if b {
                "true"@
            } else {
                "false"@
            },
        ),
        AtomView::Integer(n) => Ok(decimal(n)),
        AtomView::Number(text) => Ok(text),
        AtomView::Text(text) => Ok(text),
        AtomView::Opaque(kind) => Err(unsupported(kind)),
        AtomView::Unreadable(why) => Err(unreadable(why)),
    }
}

/// One entry: a tab, the key, ` = `, the value, and the end of the line.
pub open spec fn entry_line(key: Seq<char>, text: Seq<char>) -> Seq<char> {
    "\t"@ + key + " = "@ + text + "\n"@
}

/// The header of a section.
pub open spec fn section_header(name: Seq<char>) -> Seq<char> {
    "["@ + name + "]\n"@
}

/// The header of a subsection.
pub open spec fn subsection_header(name: Seq<char>, key: Seq<char>) -> Seq<char> {
    "["@ + name + " \""@ + key + "\"]\n"@
}

/// `out`, followed by an empty line unless nothing has been written yet.
pub open spec fn spaced(out: Seq<char>) -> Seq<char> {
    if out.len() > 0 {
        out + "\n"@
    } else {
        out
    }
}

/// `out` followed by the entries of a subsection, one line each, in order.
/// The first entry that cannot be written ends it with its error: a table,
/// which would be a third level, a value of an unsupported kind, or an
/// entry that could not be read.
pub open spec fn with_nested(out: Seq<char>, entries: Seq<(Seq<char>, NestedView)>) -> Result<
    Seq<char>,
    ErrorView,
>
    decreases entries.len(),
{
    if entries.len() == 0 {
        Ok(out)
    } else {
        match entries[0].1 {
            NestedView::Table => Err(unsupported("table"@)),
            NestedView::Broken(why) => Err(unreadable(why)),
            NestedView::Atom(atom) => match atom_text(atom) {
                Err(error) => Err(error),
                Ok(text) => with_nested(
                    out + entry_line(entries[0].0, text),
                    entries.drop_first(),
                ),
            },
        }
    }
}

/// `out` followed by those members of a section that are no tables, one
/// line each, in order. The first value of an unsupported kind ends it with
/// its error, and so does the first entry that could not be read.
pub open spec fn with_entries(out: Seq<char>, members: Seq<(Seq<char>, MemberView)>) -> Result<
    Seq<char>,
    ErrorView,
>
    decreases members.len(),
{
    if members.len() == 0 {
        Ok(out)
    } else {
        match members[0].1 {
            MemberView::Table(_) => with_entries(out, members.drop_first()),
            MemberView::Broken(why) => Err(unreadable(why)),
            MemberView::Atom(atom) => match atom_text(atom) {
                Err(error) => Err(error),
                Ok(text) => with_entries(
                    out + entry_line(members[0].0, text),
                    members.drop_first(),
                ),
            },
        }
    }
}

/// `out` followed by the subsections among the members of the section
/// `name`, in order: each under its header, set off by an empty line from
/// what stands before it. An entry that could not be read ends it with its
/// error, where it stands among the members.
pub open spec fn with_subsections(
    out: Seq<char>,
    name: Seq<char>,
    members: Seq<(Seq<char>, MemberView)>,
) -> Result<Seq<char>, ErrorView>
    decreases members.len(),
{
    if members.len() == 0 {
        Ok(out)
    } else {
        match members[0].1 {
            MemberView::Atom(_) => with_subsections(out, name, members.drop_first()),
            MemberView::Broken(why) => Err(unreadable(why)),
            MemberView::Table(entries) => match with_nested(
                spaced(out) + subsection_header(name, members[0].0),
                entries,
            ) {
                Err(error) => Err(error),
                Ok(next) => with_subsections(next, name, members.drop_first()),
            },
        }
    }
}

/// Whether a section has a member that is no table.
pub open spec fn has_entries(members: Seq<(Seq<char>, MemberView)>) -> bool {
    exists|i: int| 0 <= i < members.len() && (#[trigger] members[i]).1 is Atom
}

/// `out` followed by one top-level value under the key `name`. Its
/// subsections come first; then, if it has entries of its own, its header
/// and those entries. A value that is no table is an error.
pub open spec fn with_section(out: Seq<char>, name: Seq<char>, section: SectionView) -> Result<
    Seq<char>,
    ErrorView,
> {
    match section {
        SectionView::Other => Err(not_a_section(name)),
        SectionView::Broken(why) => Err(unreadable(why)),
        SectionView::Table(members) => match with_subsections(out, name, members) {
            Err(error) => Err(error),
            Ok(next) => if has_entries(members) {
                with_entries(spaced(next) + section_header(name), members)
            } else {
                Ok(next)
            },
        },
    }
}

/// `out` followed by the sections of a document, in order, up to the first
/// error.
pub open spec fn with_sections(out: Seq<char>, document: Seq<(Seq<char>, SectionView)>) -> Result<
    Seq<char>,
    ErrorView,
>
    decreases document.len(),
{
    if document.len() == 0 {
        Ok(out)
    } else {
        match with_section(out, document[0].0, document[0].1) {
            Err(error) => Err(error),
            Ok(next) => with_sections(next, document.drop_first()),
        }
    }
}

/// A document in the INI format.
pub open spec fn ini_text(document: Seq<(Seq<char>, SectionView)>) -> Result<Seq<char>, ErrorView> {
    with_sections(Seq::empty(), document)
}

/// Whether the outcome of writing is the one that `wanted` describes.
pub open spec fn is_text(made: Result<String, Error>, wanted: Result<Seq<char>, ErrorView>) -> bool {
    match (made, wanted) {
        (Ok(text), Ok(view)) => text@ == view,
        (Err(error), Err(view)) => error@ == view,
        _ => false,
    }
}

fn unsupported_error(kind: &str) -> (error: Error)
    ensures
        error@ == unsupported(kind@),
{
    let mut message = String::from_str("cannot serialize ");
    message.append(kind);
    message.append(" to INI value");
    Error::Lua(message)
}

fn write_atom(atom: &Atom) -> (made: Result<String, Error>)
    ensures
        is_text(made, atom_text(atom.deep_view())),
{
    match atom {
        Atom::Boolean(b) => Ok(
            if *b {
                String::from_str("true")
            } else {
                String::from_str("false")
            },
        ),
        Atom::Integer(n) => Ok(format_integer(*n)),
        Atom::Number(text) => Ok(text.clone()),
        Atom::Text(text) => Ok(text.clone()),
        Atom::Opaque(kind) => Err(unsupported_error(kind.as_str())),
        Atom::Unreadable(why) => Err(Error::Lua(why.clone())),
    }
}

fn push_entry(out: &mut String, key: &str, text: &str)
    ensures
        final(out)@ == old(out)@ + entry_line(key@, text@),
{
    out.append("\t");
    out.append(key);
    out.append(" = ");
    out.append(text);
    out.append("\n");
    assert(out@ =~= old(out)@ + entry_line(key@, text@));
}

fn push_spacing(out: &mut String)
    ensures
        final(out)@ == spaced(old(out)@),
{
    if out.as_str().unicode_len() > 0 {
        out.append("\n");
    }
}

/// Writes the entries of a subsection after `out`.
pub fn write_ini_subsection(entries: &Vec<(String, Nested)>, head: String) -> (made: Result<
    String,
    Error,
>)
    ensures
        is_text(made, with_nested(head@, entries.deep_view())),
{
    let ghost start = head@;
    let mut out = head;
    let ghost all = entries.deep_view();
    let mut i: usize = 0;
    assert(all.skip(0) =~= all);
    while i < entries.len()
        invariant
            i <= entries.len(),
            all == entries.deep_view(),
            start == head@,
            with_nested(start, all) == with_nested(out@, all.skip(i as int)),
        decreases entries.len() - i,
    {
        let ghost rest = all.skip(i as int);
        assert(rest[0] == all[i as int]);
        assert(rest.drop_first() =~= all.skip(i + 1));
        let key = &entries[i].0;
        match &entries[i].1 {
            Nested::Table => {
                return Err(unsupported_error("table"));
            },
            Nested::Broken(why) => {
                return Err(Error::Lua(why.clone()));
            },
            Nested::Atom(atom) => {
                match write_atom(atom) {
                    Err(error) => {
                        return Err(error);
                    },
                    Ok(text) => {
                        push_entry(&mut out, key.as_str(), text.as_str());
                    },
                }
            },
        }
        i += 1;
    }
    Ok(out)
}

/// Writes after `out` the members of a section that are no tables.
pub fn write_ini_section(members: &Vec<(String, Member)>, head: String) -> (made: Result<
    String,
    Error,
>)
    ensures
        is_text(made, with_entries(head@, members.deep_view())),
{
    let ghost start = head@;
    let mut out = head;
    let ghost all = members.deep_view();
    let mut i: usize = 0;
    assert(all.skip(0) =~= all);
    while i < members.len()
        invariant
            i <= members.len(),
            all == members.deep_view(),
            start == head@,
            with_entries(start, all) == with_entries(out@, all.skip(i as int)),
        decreases members.len() - i,
    {
        let ghost rest = all.skip(i as int);
        assert(rest[0] == all[i as int]);
        assert(rest.drop_first() =~= all.skip(i + 1));
        let key = &members[i].0;
        match &members[i].1 {
            Member::Table(_) => {},
            Member::Broken(why) => {
                return Err(Error::Lua(why.clone()));
            },
            Member::Atom(atom) => {
                match write_atom(atom) {
                    Err(error) => {
                        return Err(error);
                    },
                    Ok(text) => {
                        push_entry(&mut out, key.as_str(), text.as_str());
                    },
                }
            },
        }
        i += 1;
    }
    Ok(out)
}

fn write_subsections(name: &str, members: &Vec<(String, Member)>, head: String) -> (made: Result<
    String,
    Error,
>)
    ensures
        is_text(made, with_subsections(head@, name@, members.deep_view())),
{
    let ghost start = head@;
    let mut out = head;
    let ghost all = members.deep_view();
    let mut i: usize = 0;
    assert(all.skip(0) =~= all);
    while i < members.len()
        invariant
            i <= members.len(),
            all == members.deep_view(),
            start == head@,
            with_subsections(start, name@, all) == with_subsections(
                out@,
                name@,
                all.skip(i as int),
            ),
        decreases members.len() - i,
    {
        let ghost rest = all.skip(i as int);
        assert(rest[0] == all[i as int]);
        assert(rest.drop_first() =~= all.skip(i + 1));
        let key = &members[i].0;
        match &members[i].1 {
            Member::Atom(_) => {},
            Member::Broken(why) => {
                return Err(Error::Lua(why.clone()));
            },
            Member::Table(entries) => {
                let ghost before = out@;
                push_spacing(&mut out);
                out.append("[");
                out.append(name);
                out.append(" \"");
                out.append(key.as_str());
                out.append("\"]\n");
                assert(out@ =~= spaced(before) + subsection_header(name@, key@));
                match write_ini_subsection(entries, out) {
                    Err(error) => {
                        return Err(error);
                    },
                    Ok(next) => {
                        out = next;
                    },
                }
            },
        }
        i += 1;
    }
    Ok(out)
}

fn any_entries(members: &Vec<(String, Member)>) -> (yes: bool)
    ensures
        yes == has_entries(members.deep_view()),
{
    let ghost all = members.deep_view();
    let mut i: usize = 0;
    while i < members.len()
        invariant
            i <= members.len(),
            all == members.deep_view(),
            forall|k: int| 0 <= k < i ==> !((#[trigger] all[k]).1 is Atom),
        decreases members.len() - i,
    {
        match &members[i].1 {
            Member::Atom(_) => {
                assert(all[i as int].1 is Atom);
                return true;
            },
            Member::Table(_) => {},
            Member::Broken(_) => {},
        }
        i += 1;
    }
    false
}

fn write_section(name: &str, section: &Section, out: String) -> (made: Result<String, Error>)
    ensures
        is_text(made, with_section(out@, name@, section.deep_view())),
{
    match section {
        Section::Broken(why) => Err(Error::Lua(why.clone())),
        Section::Other => {
            let mut message = String::from_str("INI top-level key '");
            message.append(name);
            message.append("' must be a table");
            Err(Error::Lua(message))
        },
        Section::Table(members) => {
            match write_subsections(name, members, out) {
                Err(error) => Err(error),
                Ok(next) => {
                    if any_entries(members) {
                        let mut out = next;
                        let ghost before = out@;
                        push_spacing(&mut out);
                        out.append("[");
                        out.append(name);
                        out.append("]\n");
                        assert(out@ =~= spaced(before) + section_header(name@));
                        write_ini_section(members, out)
                    } else {
                        Ok(next)
                    }
                },
            }
        },
    }
}

/// Writes a document in the INI format. The format has two levels: sections
/// with entries, and subsections of sections with entries. Sections come in
/// the order given; of each, the subsections first, then the section's own
/// entries under its header, if it has any. A top-level value that is no
/// table, a table on a third level, a value that is neither a scalar nor a
/// table and anything that could not be read from the script are errors,
/// and the first one met on the way is returned. Nothing is escaped.
pub fn lua_to_ini(document: &Vec<(String, Section)>) -> (made: Result<String, Error>)
    ensures
        is_text(made, ini_text(document.deep_view())),
{
    let mut out = String::new();
    let ghost all = document.deep_view();
    let mut i: usize = 0;
    assert(all.skip(0) =~= all);
    while i < document.len()
        invariant
            i <= document.len(),
            all == document.deep_view(),
            ini_text(all) == with_sections(out@, all.skip(i as int)),
        decreases document.len() - i,
    {
        let ghost rest = all.skip(i as int);
        assert(rest[0] == all[i as int]);
        assert(rest.drop_first() =~= all.skip(i + 1));
        match write_section(document[i].0.as_str(), &document[i].1, out) {
            Err(error) => {
                return Err(error);
            },
            Ok(next) => {
                out = next;
            },
        }
        i += 1;
    }
    Ok(out)
}

} // verus!
