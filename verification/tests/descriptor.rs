use code_docs::DocumentedStruct;
use code_docs::FormatError;
use code_docs::TypeDescriptor;
use code_docs::commented_fields_from;

fn strings(items: &[&str]) -> Vec<String> {
    items.iter().map(|s| s.to_string()).collect()
}

fn two_field_descriptor() -> TypeDescriptor {
    TypeDescriptor::build(
        &strings(&[
            "doc = r\" This is a testing struct\"",
            "doc = r\" With two lines of docstring\"",
            "derive(PartialEq, Eq, Debug)",
        ]),
        &strings(&["field_a", "field_b"]),
        &strings(&["u8", "String"]),
        &vec![
            strings(&["doc = r\" This field is u8\""]),
            strings(&[
                "doc = r\" This field is a String\"",
                "doc = r\" Also two lines of comments\"",
                "allow(unused)",
            ]),
        ],
    )
}

#[test]
fn empty_type_yields_empty_everything() {
    let no_fields: Vec<Vec<String>> = vec![];
    let d = TypeDescriptor::build(&strings(&[]), &strings(&[]), &strings(&[]), &no_fields);
    assert!(d.struct_docs().is_empty());
    assert!(d.field_names().is_empty());
    assert!(d.field_types().is_empty());
    assert!(d.field_docs().is_empty());
    assert_eq!(d.render(), Ok(String::new()));
}

#[test]
fn two_field_scenario() {
    let d = two_field_descriptor();
    assert_eq!(d.field_names(), vec!["field_a", "field_b"]);
    assert_eq!(d.field_types(), vec!["u8", "String"]);
    assert_eq!(
        d.field_docs(),
        vec![
            vec![" This field is u8"],
            vec![" This field is a String", " Also two lines of comments"],
        ]
    );
    assert_eq!(
        d.render(),
        Ok(
            "/// This field is u8\nfield_a: u8\n\n/// This field is a String\n/// Also two lines of comments\nfield_b: String\n".to_string()
        )
    );
}

#[test]
fn type_level_docs_survive_interleaving() {
    let expected = strings(&[" This is a testing struct", " With two lines of docstring"]);
    let placements: Vec<Vec<String>> = vec![
        strings(&[
            "derive(PartialEq, Eq, Debug)",
            "doc = r\" This is a testing struct\"",
            "doc = r\" With two lines of docstring\"",
        ]),
        strings(&[
            "doc = r\" This is a testing struct\"",
            "derive(PartialEq, Eq, Debug)",
            "doc = r\" With two lines of docstring\"",
        ]),
        strings(&[
            "doc = r\" This is a testing struct\"",
            "doc = r\" With two lines of docstring\"",
            "derive(PartialEq, Eq, Debug)",
        ]),
    ];
    for type_tokens in placements {
        let no_fields: Vec<Vec<String>> = vec![];
        let d = TypeDescriptor::build(&type_tokens, &strings(&[]), &strings(&[]), &no_fields);
        assert_eq!(d.struct_docs(), &expected);
    }
}

#[test]
fn permuting_doc_tokens_only_reorders_that_field() {
    let build = |first: &str, second: &str| {
        TypeDescriptor::build(
            &strings(&[]),
            &strings(&["field_a", "field_b"]),
            &strings(&["u8", "String"]),
            &vec![strings(&[first, second]), strings(&["doc = r\" other\""])],
        )
    };
    let d1 = build("doc = r\" one\"", "doc = r\" two\"");
    let d2 = build("doc = r\" two\"", "doc = r\" one\"");
    assert_eq!(d1.field_docs()[0], vec![" one", " two"]);
    assert_eq!(d2.field_docs()[0], vec![" two", " one"]);
    // Same lines either way, and the other field is untouched.
    assert_eq!(d1.field_docs()[1], d2.field_docs()[1]);
    assert_eq!(d1.field_names(), d2.field_names());
    assert_eq!(d1.field_types(), d2.field_types());
}

#[test]
fn parallel_sequences_have_equal_lengths() {
    let d = two_field_descriptor();
    assert_eq!(d.field_names().len(), d.field_types().len());
    assert_eq!(d.field_names().len(), d.field_docs().len());
}

#[test]
fn building_twice_gives_identical_results() {
    let d1 = two_field_descriptor();
    let d2 = two_field_descriptor();
    assert_eq!(d1.struct_docs(), d2.struct_docs());
    assert_eq!(d1.field_names(), d2.field_names());
    assert_eq!(d1.field_types(), d2.field_types());
    assert_eq!(d1.field_docs(), d2.field_docs());
    assert_eq!(d1.render(), d2.render());
}

#[test]
fn field_without_docs_renders_bare() {
    let d = TypeDescriptor::build(
        &strings(&[]),
        &strings(&["plain"]),
        &strings(&["bool"]),
        &vec![strings(&["allow(unused)"])],
    );
    assert_eq!(d.field_docs(), vec![Vec::<&str>::new()]);
    assert_eq!(d.render(), Ok("plain: bool\n".to_string()));
}

#[test]
fn mismatched_lengths_fail_to_render() {
    let names: Vec<&str> = vec!["field_a"];
    let types: Vec<&str> = vec![];
    let docs: Vec<Vec<&str>> = vec![];
    assert_eq!(
        commented_fields_from(&names, &types, &docs),
        Err(FormatError::DescriptorLengthMismatch)
    );
}

// A deliberately inconsistent hand-written query interface: the renderer
// must report the length mismatch rather than produce text.
struct LopsidedStruct;

impl DocumentedStruct for LopsidedStruct {
    fn struct_docs() -> Vec<&'static str> {
        vec![]
    }

    fn field_types() -> Vec<&'static str> {
        vec!["u8"]
    }

    fn field_names() -> Vec<&'static str> {
        vec!["field_a", "field_b"]
    }

    fn field_docs() -> Vec<Vec<&'static str>> {
        vec![]
    }
}

#[test]
fn lopsided_interface_reports_mismatch() {
    assert_eq!(
        LopsidedStruct::commented_fields(),
        Err(FormatError::DescriptorLengthMismatch)
    );
}
