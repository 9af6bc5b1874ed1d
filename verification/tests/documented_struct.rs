use code_docs::DocumentedStruct;
use code_docs::filter_docs;

// A documented struct together with the metadata that its declaration
// carries: the attribute tokens below are the textual form in which the
// host declaration mechanism hands the annotations over, documentation
// lines and other attributes mixed in source order.
#[allow(dead_code)]
struct TestStruct {
    pub field_a: u8,
    field_b: String,
}

impl DocumentedStruct for TestStruct {
    fn struct_docs() -> Vec<&'static str> {
        vec![
            "doc = r\" This is a testing struct\"",
            "doc = r\" With two lines of docstring\"",
            "derive(PartialEq, Eq, Debug)",
        ]
        .into_iter()
        .filter_map(filter_docs)
        .collect::<Vec<_>>()
    }

    fn field_types() -> Vec<&'static str> {
        vec!["u8", "String"]
    }

    fn field_names() -> Vec<&'static str> {
        vec!["field_a", "field_b"]
    }

    fn field_docs() -> Vec<Vec<&'static str>> {
        vec![
            vec!["doc = r\" This field is u8\""],
            vec![
                "doc = r\" This field is a String\"",
                "doc = r\" Also two lines of comments\"",
                "allow(unused)",
            ],
        ]
        .into_iter()
        .map(|x| x.into_iter().filter_map(filter_docs).collect::<Vec<_>>())
        .collect::<Vec<_>>()
    }
}

#[test]
fn test_struct_docs() {
    let docs = TestStruct::struct_docs();
    let docs_raw: Vec<&'static str> = vec![
        " This is a testing struct",
        " With two lines of docstring",
    ];

    assert_eq!(docs, docs_raw);
}

#[test]
fn test_field_names() {
    let names = TestStruct::field_names();
    let names_raw: Vec<&'static str> = vec![
        "field_a",
        "field_b",
    ];

    assert_eq!(names, names_raw);
}

#[test]
fn test_field_types() {
    let types = TestStruct::field_types();
    let types_raw: Vec<&'static str> = vec![
        "u8",
        "String",
    ];

    assert_eq!(types, types_raw);
}

#[test]
fn test_field_docs() {
    let docs = TestStruct::field_docs();
    let docs_raw: Vec<Vec<&'static str>> = vec![
        vec![" This field is u8"],
        vec![
            " This field is a String",
            " Also two lines of comments",
        ],
    ];

    assert_eq!(docs, docs_raw);
}

#[test]
fn test_commented_fields() {
    let output = TestStruct::commented_fields();
    assert!(output.is_ok());

    assert_eq!(
        output.unwrap(),
        "/// This field is u8\nfield_a: u8\n\n/// This field is a String\n/// Also two lines of comments\nfield_b: String\n"
    );
}
