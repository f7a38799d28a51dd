use rootbeer_core::error::Error;
use rootbeer_core::lua::serializer::{
    lua_to_ini, write_ini_section, write_ini_subsection, Atom, Member, Nested, Section,
};
use rootbeer_core::text::format_integer;

fn text(value: &str) -> Atom {
    Atom::Text(value.to_string())
}

fn section(members: Vec<(&str, Member)>) -> Section {
    Section::Table(members.into_iter().map(|(key, member)| (key.to_string(), member)).collect())
}

fn subsection(entries: Vec<(&str, Nested)>) -> Member {
    Member::Table(entries.into_iter().map(|(key, value)| (key.to_string(), value)).collect())
}

#[test]
fn section_with_entries() {
    let document = vec![(
        "user".to_string(),
        section(vec![
            ("name", Member::Atom(text("Ada"))),
            ("email", Member::Atom(text("ada@example.org"))),
        ]),
    )];
    assert_eq!(
        lua_to_ini(&document),
        Ok("[user]\n\tname = Ada\n\temail = ada@example.org\n".to_string())
    );
}

#[test]
fn every_kind_of_scalar() {
    let document = vec![(
        "core".to_string(),
        section(vec![
            ("bare", Member::Atom(Atom::Boolean(false))),
            ("autocrlf", Member::Atom(Atom::Boolean(true))),
            ("abbrev", Member::Atom(Atom::Integer(12))),
            ("offset", Member::Atom(Atom::Integer(-7))),
            ("ratio", Member::Atom(Atom::Number("0.5".to_string()))),
            ("editor", Member::Atom(text("nvim -f"))),
        ]),
    )];
    assert_eq!(
        lua_to_ini(&document),
        Ok("[core]\n\tbare = false\n\tautocrlf = true\n\tabbrev = 12\n\toffset = -7\n\tratio = 0.5\n\teditor = nvim -f\n"
            .to_string())
    );
}

#[test]
fn subsections_come_before_the_sections_own_entries() {
    let document = vec![(
        "remote".to_string(),
        section(vec![
            ("pushDefault", Member::Atom(text("origin"))),
            ("origin", subsection(vec![("url", Nested::Atom(text("git@host:repo")))])),
            ("backup", subsection(vec![("url", Nested::Atom(text("/mnt/b")))])),
        ]),
    )];
    assert_eq!(
        lua_to_ini(&document),
        Ok("[remote \"origin\"]\n\turl = git@host:repo\n\n[remote \"backup\"]\n\turl = /mnt/b\n\n[remote]\n\tpushDefault = origin\n"
            .to_string())
    );
}

#[test]
fn sections_are_set_apart_by_an_empty_line() {
    let document = vec![
        ("a".to_string(), section(vec![("x", Member::Atom(Atom::Integer(1)))])),
        ("b".to_string(), section(vec![("y", Member::Atom(Atom::Integer(2)))])),
    ];
    assert_eq!(lua_to_ini(&document), Ok("[a]\n\tx = 1\n\n[b]\n\ty = 2\n".to_string()));
}

#[test]
fn empty_document_and_empty_sections_write_nothing() {
    assert_eq!(lua_to_ini(&vec![]), Ok(String::new()));
    let document = vec![("empty".to_string(), section(vec![]))];
    assert_eq!(lua_to_ini(&document), Ok(String::new()));
    let document = vec![("only".to_string(), section(vec![("sub", subsection(vec![]))]))];
    assert_eq!(lua_to_ini(&document), Ok("[only \"sub\"]\n".to_string()));
}

#[test]
fn top_level_value_must_be_a_table() {
    let document = vec![
        ("ok".to_string(), section(vec![("x", Member::Atom(Atom::Integer(1)))])),
        ("name".to_string(), Section::Other),
    ];
    assert_eq!(
        lua_to_ini(&document),
        Err(Error::Lua("INI top-level key 'name' must be a table".to_string()))
    );
}

#[test]
fn third_level_of_nesting_is_refused() {
    let document = vec![(
        "a".to_string(),
        section(vec![("b", subsection(vec![("x", Nested::Atom(Atom::Integer(1))), ("c", Nested::Table)]))]),
    )];
    assert_eq!(lua_to_ini(&document), Err(Error::Lua("cannot serialize table to INI value".to_string())));
}

#[test]
fn unsupported_kinds_are_refused_by_name() {
    let document = vec![(
        "a".to_string(),
        section(vec![("f", Member::Atom(Atom::Opaque("function".to_string())))]),
    )];
    assert_eq!(
        lua_to_ini(&document),
        Err(Error::Lua("cannot serialize function to INI value".to_string()))
    );
    let document = vec![(
        "a".to_string(),
        section(vec![("b", subsection(vec![("u", Nested::Atom(Atom::Opaque("userdata".to_string())))]))]),
    )];
    assert_eq!(
        lua_to_ini(&document),
        Err(Error::Lua("cannot serialize userdata to INI value".to_string()))
    );
}

#[test]
fn first_error_wins() {
    let document = vec![
        ("first".to_string(), Section::Other),
        ("second".to_string(), section(vec![("f", Member::Atom(Atom::Opaque("nil".to_string())))])),
    ];
    assert_eq!(
        lua_to_ini(&document),
        Err(Error::Lua("INI top-level key 'first' must be a table".to_string()))
    );
}

#[test]
fn what_could_not_be_read_is_an_error_where_it_stands() {
    let why = "error converting Lua table to String".to_string();
    let document = vec![
        ("a".to_string(), section(vec![("x", Member::Atom(Atom::Integer(1)))])),
        (String::new(), Section::Broken(why.clone())),
        ("late".to_string(), Section::Other),
    ];
    assert_eq!(lua_to_ini(&document), Err(Error::Lua(why.clone())));

    let document = vec![(
        "a".to_string(),
        section(vec![
            ("sub", subsection(vec![("x", Nested::Atom(Atom::Integer(1)))])),
            ("", Member::Broken(why.clone())),
            ("f", Member::Atom(Atom::Opaque("function".to_string()))),
        ]),
    )];
    assert_eq!(lua_to_ini(&document), Err(Error::Lua(why.clone())));

    let document = vec![(
        "a".to_string(),
        section(vec![("sub", subsection(vec![("", Nested::Broken(why.clone())), ("t", Nested::Table)]))]),
    )];
    assert_eq!(lua_to_ini(&document), Err(Error::Lua(why.clone())));

    let document = vec![(
        "a".to_string(),
        section(vec![("s", Member::Atom(Atom::Unreadable("invalid utf-8".to_string())))]),
    )];
    assert_eq!(lua_to_ini(&document), Err(Error::Lua("invalid utf-8".to_string())));
}

#[test]
fn earlier_error_comes_before_a_later_unreadable_entry() {
    let document = vec![
        (
            "first".to_string(),
            section(vec![("f", Member::Atom(Atom::Opaque("function".to_string())))]),
        ),
        (String::new(), Section::Broken("bad key".to_string())),
    ];
    assert_eq!(
        lua_to_ini(&document),
        Err(Error::Lua("cannot serialize function to INI value".to_string()))
    );
    let members = vec![
        ("a".to_string(), Member::Atom(Atom::Integer(1))),
        (String::new(), Member::Broken("bad key".to_string())),
    ];
    assert_eq!(write_ini_section(&members, String::new()), Err(Error::Lua("bad key".to_string())));
}

#[test]
fn section_writer_skips_tables_and_appends() {
    let members = vec![
        ("a".to_string(), Member::Atom(Atom::Integer(1))),
        ("t".to_string(), subsection(vec![("x", Nested::Table)])),
        ("b".to_string(), Member::Atom(text("two"))),
    ];
    assert_eq!(
        write_ini_section(&members, "[s]\n".to_string()),
        Ok("[s]\n\ta = 1\n\tb = two\n".to_string())
    );
}

#[test]
fn subsection_writer_appends_in_order() {
    let entries = vec![
        ("z".to_string(), Nested::Atom(Atom::Boolean(true))),
        ("a".to_string(), Nested::Atom(Atom::Integer(0))),
    ];
    assert_eq!(
        write_ini_subsection(&entries, "head\n".to_string()),
        Ok("head\n\tz = true\n\ta = 0\n".to_string())
    );
    assert_eq!(write_ini_subsection(&vec![], "head".to_string()), Ok("head".to_string()));
}

#[test]
fn integers_are_written_in_base_ten() {
    assert_eq!(format_integer(0), "0");
    assert_eq!(format_integer(7), "7");
    assert_eq!(format_integer(10), "10");
    assert_eq!(format_integer(-1), "-1");
    assert_eq!(format_integer(1234567890), "1234567890");
    assert_eq!(format_integer(i64::MAX), "9223372036854775807");
    assert_eq!(format_integer(i64::MIN), "-9223372036854775808");
    for n in [-1000i64, -999, -10, -9, 9, 99, 100, 101, 65535, 4294967296] {
        assert_eq!(format_integer(n), n.to_string());
    }
}
