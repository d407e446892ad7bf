use templater::descriptor::{
    parse_kind, read_entry, read_field, Descriptor, DescriptorParseError, RawField, Variable,
    VariableEntry, VariableType,
};

fn table(text: &str) -> toml::Table {
    toml::from_str::<toml::Table>(text).expect("a TOML document")
}

#[test]
fn literal_declaration_is_read() {
    let d = Descriptor::parse("[variables]\nproject_type = \"app\"\n").unwrap();
    assert_eq!(d.len(), 1);
    assert_eq!(d.name(0), "project_type");
    match d.entry(0) {
        VariableEntry::Literal(value) => assert_eq!(value, "app"),
        other => panic!("unexpected: {:?}", other),
    }
    assert!(d.declares("project_type"));
    assert!(!d.declares("project_name"));
}

#[test]
fn specification_is_read_with_all_its_fields() {
    let text = "[variables]\nname = { default = \"x\", type = \"boolean\", prompt = \"Name?\" }\n";
    let d = Descriptor::parse(text).unwrap();
    assert_eq!(d.len(), 1);
    match d.entry(0) {
        VariableEntry::Spec(variable) => {
            assert_eq!(variable.default, Some("x".to_string()));
            assert_eq!(variable.kind, Some(VariableType::Bool));
            assert_eq!(variable.prompt, Some("Name?".to_string()));
        }
        other => panic!("unexpected: {:?}", other),
    }
}

#[test]
fn specification_may_leave_every_field_out() {
    let d = Descriptor::parse("[variables.name]\n").unwrap();
    match d.entry(0) {
        VariableEntry::Spec(variable) => {
            assert_eq!(variable.default, None);
            assert_eq!(variable.kind, None);
            assert_eq!(variable.prompt, None);
        }
        other => panic!("unexpected: {:?}", other),
    }
}

#[test]
fn unknown_keys_of_a_specification_are_ignored() {
    let d = Descriptor::parse("[variables]\nname = { type = \"string\", colour = 3 }\n").unwrap();
    match d.entry(0) {
        VariableEntry::Spec(variable) => assert_eq!(variable.kind, Some(VariableType::Str)),
        other => panic!("unexpected: {:?}", other),
    }
}

#[test]
fn declarations_keep_the_order_of_the_table() {
    let d = Descriptor::parse("[variables]\nb = \"2\"\na = \"1\"\nc = { default = \"3\" }\n").unwrap();
    assert_eq!(d.len(), 3);
    let names: Vec<&str> = (0..d.len()).map(|i| d.name(i).as_str()).collect();
    assert_eq!(names, vec!["a", "b", "c"]);
}

#[test]
fn empty_variables_table_declares_nothing() {
    let d = Descriptor::parse("[variables]\n").unwrap();
    assert_eq!(d.len(), 0);
}

#[test]
fn text_that_is_no_document_is_a_syntax_error() {
    match Descriptor::parse("[variables\nx = ") {
        Err(DescriptorParseError::Syntax(message)) => assert!(!message.is_empty()),
        other => panic!("unexpected: {:?}", other),
    }
}

#[test]
fn document_without_variables_is_refused() {
    assert!(matches!(Descriptor::parse(""), Err(DescriptorParseError::MissingVariables)));
    assert!(matches!(
        Descriptor::parse("title = \"x\"\n"),
        Err(DescriptorParseError::MissingVariables)
    ));
    assert!(matches!(
        Descriptor::parse("variables = \"x\"\n"),
        Err(DescriptorParseError::MissingVariables)
    ));
}

#[test]
fn malformed_declaration_is_reported_by_name() {
    let cases = [
        "[variables]\nbad = 3\n",
        "[variables]\nbad = [\"a\"]\n",
        "[variables]\nbad = { default = 3 }\n",
        "[variables]\nbad = { type = \"number\" }\n",
        "[variables]\nbad = { type = true }\n",
        "[variables]\nbad = { prompt = 1.5 }\n",
        "[variables]\na = \"fine\"\nbad = false\nz = \"fine\"\n",
    ];
    for text in cases {
        match Descriptor::parse(text) {
            Err(DescriptorParseError::Entry(name)) => assert_eq!(name, "bad", "{}", text),
            other => panic!("unexpected for {:?}: {:?}", text, other),
        }
    }
}

#[test]
fn first_malformed_declaration_is_the_one_reported() {
    match Descriptor::parse("[variables]\nn = 1\nm = 2\n") {
        Err(DescriptorParseError::Entry(name)) => assert_eq!(name, "m"),
        other => panic!("unexpected: {:?}", other),
    }
}

#[test]
fn template_without_descriptor_file_declares_nothing() {
    let d = Descriptor::load(None).unwrap();
    assert_eq!(d.len(), 0);
    let d = Descriptor::load(Some("[variables]\na = \"1\"\n")).unwrap();
    assert_eq!(d.len(), 1);
    assert!(Descriptor::load(Some("nonsense")).is_err());
}

#[test]
fn kind_names() {
    assert_eq!(parse_kind("string"), Some(VariableType::Str));
    assert_eq!(parse_kind("boolean"), Some(VariableType::Bool));
    assert_eq!(parse_kind("String"), None);
    assert_eq!(parse_kind(""), None);
    assert_eq!(parse_kind("bool"), None);
}

#[test]
fn variable_from_fields() {
    let v = Variable::from_fields(RawField::Absent, RawField::Absent, RawField::Absent).unwrap();
    assert_eq!((v.default, v.kind, v.prompt), (None, None, None));
    let v = Variable::from_fields(
        RawField::Text("d".to_string()),
        RawField::Text("string".to_string()),
        RawField::Text("p".to_string()),
    )
    .unwrap();
    assert_eq!(v.default, Some("d".to_string()));
    assert_eq!(v.kind, Some(VariableType::Str));
    assert_eq!(v.prompt, Some("p".to_string()));
    assert!(Variable::from_fields(RawField::Other, RawField::Absent, RawField::Absent).is_none());
    assert!(Variable::from_fields(RawField::Absent, RawField::Other, RawField::Absent).is_none());
    assert!(Variable::from_fields(RawField::Absent, RawField::Absent, RawField::Other).is_none());
    assert!(Variable::from_fields(
        RawField::Absent,
        RawField::Text("text".to_string()),
        RawField::Absent
    )
    .is_none());
}

#[test]
fn fields_are_read_from_a_table() {
    let t = table("a = \"x\"\nb = 3\n[c]\nd = \"y\"\n");
    assert!(matches!(read_field(&t, "a"), RawField::Text(ref s) if s == "x"));
    assert!(matches!(read_field(&t, "b"), RawField::Other));
    assert!(matches!(read_field(&t, "c"), RawField::Other));
    assert!(matches!(read_field(&t, "z"), RawField::Absent));
}

#[test]
fn entries_are_read_from_a_table() {
    let t = table("a = \"x\"\nb = 3\n[c]\ndefault = \"y\"\n[e]\ndefault = 1\n");
    assert!(matches!(read_entry(&t, "a"), Some(VariableEntry::Literal(ref s)) if s == "x"));
    assert!(read_entry(&t, "b").is_none());
    match read_entry(&t, "c") {
        Some(VariableEntry::Spec(v)) => assert_eq!(v.default, Some("y".to_string())),
        other => panic!("unexpected: {:?}", other),
    }
    assert!(read_entry(&t, "e").is_none());
    assert!(read_entry(&t, "missing").is_none());
}

#[test]
fn root_table_is_read_as_a_descriptor() {
    let d = Descriptor::from_table(&table("[variables]\nx = \"1\"\n")).unwrap();
    assert_eq!(d.len(), 1);
    assert!(matches!(
        Descriptor::from_table(&table("other = 1\n")),
        Err(DescriptorParseError::MissingVariables)
    ));
}

#[test]
fn a_name_is_declared_once() {
    let mut d = Descriptor::new();
    assert!(d.declare("a".to_string(), VariableEntry::Literal("1".to_string())));
    assert!(!d.declare("a".to_string(), VariableEntry::Literal("2".to_string())));
    assert!(d.declare("b".to_string(), VariableEntry::Literal("3".to_string())));
    assert_eq!(d.len(), 2);
    assert!(matches!(d.entry(0), VariableEntry::Literal(v) if v == "1"));
    assert_eq!(d.name(1), "b");
}
