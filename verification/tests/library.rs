use envconfig::binder::{
    bind, bind_field, join_key, load_optional_var, load_var, load_var_with_default,
};
use envconfig::declare::{
    check_field, check_struct, describe_field, describe_struct, fetch_envconfig_attr,
    field_to_env_var_name, Attribute, FieldDecl, FieldType, RootSchema, StructDecl,
};
use envconfig::options::{can_find, find_item_in_list, MatchingItem, MetaItem, MetaKind};
use envconfig::parse::parse_value;
use envconfig::schema::{FieldDescriptor, Resolution, Schema};
use envconfig::value::{ScalarType, Value};
use envconfig::{Config, Envconfig, Error, Source};

fn source_of(pairs: &[(&str, &str)]) -> Source {
    let mut source = Source::new();
    for (key, value) in pairs {
        source.insert(key, value);
    }
    source
}

fn text(s: &str) -> Value {
    Value::Text(s.to_string())
}

fn missing(name: &str) -> Error {
    Error::EnvVarMissing { name: name.to_string() }
}

fn unparsed(name: &str) -> Error {
    Error::ParseError { name: name.to_string() }
}

fn host_and_port() -> Schema {
    Schema::new(vec![
        FieldDescriptor::plain("host", "HOST", ScalarType::Text),
        FieldDescriptor::with_default("port", "PORT", ScalarType::U16, "5432"),
    ])
}

fn options(text: &str) -> Vec<Attribute> {
    vec![Attribute::parse("envconfig", text).unwrap()]
}

fn declared(ident: &str, ty: &str, attrs: Vec<Attribute>) -> FieldDecl {
    FieldDecl { ident: ident.to_string(), ty: FieldType::from_tokens(ty), attrs }
}

// The source.

#[test]
fn source_lookup_finds_what_was_inserted() {
    let mut source = Source::new();
    assert_eq!(source.lookup("A"), None);
    assert!(!source.contains_key("A"));
    source.insert("A", "1");
    source.insert("B", "2");
    source.insert("A", "3");
    assert_eq!(source.lookup("A"), Some("3"));
    assert_eq!(source.lookup("B"), Some("2"));
    assert!(source.contains_key("B"));
    source.remove("A");
    assert_eq!(source.lookup("A"), None);
    assert_eq!(source.lookup("B"), Some("2"));
}

// The parser boundary.

#[test]
fn parse_text_takes_any_string() {
    assert_eq!(parse_value(ScalarType::Text, ""), Some(text("")));
    assert_eq!(parse_value(ScalarType::Text, " a b "), Some(text(" a b ")));
}

#[test]
fn parse_bool_takes_true_and_false_only() {
    assert_eq!(parse_value(ScalarType::Bool, "true"), Some(Value::Bool(true)));
    assert_eq!(parse_value(ScalarType::Bool, "false"), Some(Value::Bool(false)));
    assert_eq!(parse_value(ScalarType::Bool, "True"), None);
    assert_eq!(parse_value(ScalarType::Bool, "1"), None);
    assert_eq!(parse_value(ScalarType::Bool, ""), None);
}

#[test]
fn parse_u16_takes_digits_behind_an_optional_plus() {
    assert_eq!(parse_value(ScalarType::U16, "0"), Some(Value::U16(0)));
    assert_eq!(parse_value(ScalarType::U16, "5432"), Some(Value::U16(5432)));
    assert_eq!(parse_value(ScalarType::U16, "+7"), Some(Value::U16(7)));
    assert_eq!(parse_value(ScalarType::U16, "00012"), Some(Value::U16(12)));
    assert_eq!(parse_value(ScalarType::U16, "65535"), Some(Value::U16(65535)));
    assert_eq!(parse_value(ScalarType::U16, "65536"), None);
    assert_eq!(parse_value(ScalarType::U16, "67000"), None);
    assert_eq!(parse_value(ScalarType::U16, "-1"), None);
    assert_eq!(parse_value(ScalarType::U16, "-0"), None);
    assert_eq!(parse_value(ScalarType::U16, "+"), None);
    assert_eq!(parse_value(ScalarType::U16, ""), None);
    assert_eq!(parse_value(ScalarType::U16, " 1"), None);
    assert_eq!(parse_value(ScalarType::U16, "1 "), None);
    assert_eq!(parse_value(ScalarType::U16, "1_000"), None);
    assert_eq!(parse_value(ScalarType::U16, "++1"), None);
    assert_eq!(parse_value(ScalarType::U16, "xyz"), None);
}

#[test]
fn parse_u64_rejects_what_does_not_fit() {
    assert_eq!(parse_value(ScalarType::U64, "4"), Some(Value::U64(4)));
    assert_eq!(
        parse_value(ScalarType::U64, "18446744073709551615"),
        Some(Value::U64(u64::MAX))
    );
    assert_eq!(parse_value(ScalarType::U64, "18446744073709551616"), None);
    assert_eq!(
        parse_value(ScalarType::U64, "000000000000000000000000000001"),
        Some(Value::U64(1))
    );
    assert_eq!(parse_value(ScalarType::U64, "-4"), None);
}

#[test]
fn parse_i64_takes_either_sign() {
    assert_eq!(parse_value(ScalarType::I64, "-12"), Some(Value::I64(-12)));
    assert_eq!(parse_value(ScalarType::I64, "+12"), Some(Value::I64(12)));
    assert_eq!(parse_value(ScalarType::I64, "-0"), Some(Value::I64(0)));
    assert_eq!(
        parse_value(ScalarType::I64, "-9223372036854775808"),
        Some(Value::I64(i64::MIN))
    );
    assert_eq!(parse_value(ScalarType::I64, "9223372036854775807"), Some(Value::I64(i64::MAX)));
    assert_eq!(parse_value(ScalarType::I64, "9223372036854775808"), None);
    assert_eq!(parse_value(ScalarType::I64, "-9223372036854775809"), None);
    assert_eq!(parse_value(ScalarType::I64, "-"), None);
    assert_eq!(parse_value(ScalarType::I64, "+-1"), None);
    assert_eq!(parse_value(ScalarType::I64, "--1"), None);
}

#[test]
fn scalar_types_are_named_as_rust_names_them() {
    assert_eq!(ScalarType::from_type_name("String"), Some(ScalarType::Text));
    assert_eq!(ScalarType::from_type_name("bool"), Some(ScalarType::Bool));
    assert_eq!(ScalarType::from_type_name("u16"), Some(ScalarType::U16));
    assert_eq!(ScalarType::from_type_name("u64"), Some(ScalarType::U64));
    assert_eq!(ScalarType::from_type_name("i64"), Some(ScalarType::I64));
    assert_eq!(ScalarType::from_type_name("Point"), None);
}

// Single keys.

#[test]
fn load_var_reads_parses_and_reports() {
    let source = source_of(&[("PORT", "80"), ("BAD", "eighty")]);
    assert_eq!(load_var(ScalarType::U16, "PORT", &source), Ok(Value::U16(80)));
    assert_eq!(load_var(ScalarType::U16, "BAD", &source), Err(unparsed("BAD")));
    assert_eq!(load_var(ScalarType::U16, "NONE", &source), Err(missing("NONE")));
}

#[test]
fn load_var_with_default_prefers_the_source() {
    let source = source_of(&[("PORT", "80"), ("BAD", "eighty")]);
    assert_eq!(load_var_with_default(ScalarType::U16, "PORT", &source, "1"), Ok(Value::U16(80)));
    assert_eq!(load_var_with_default(ScalarType::U16, "NONE", &source, "1"), Ok(Value::U16(1)));
    assert_eq!(
        load_var_with_default(ScalarType::U16, "BAD", &source, "1"),
        Err(unparsed("BAD"))
    );
    assert_eq!(
        load_var_with_default(ScalarType::U16, "PORT", &source, "no number"),
        Ok(Value::U16(80))
    );
}

#[test]
fn default_literal_that_does_not_parse_is_a_parse_error() {
    let source = Source::new();
    assert_eq!(
        load_var_with_default(ScalarType::U16, "PORT", &source, "no number"),
        Err(unparsed("PORT"))
    );
}

#[test]
fn load_optional_var_gives_none_for_an_absent_key() {
    let source = source_of(&[("PORT", "80"), ("BAD", "eighty")]);
    assert_eq!(load_optional_var(ScalarType::U16, "PORT", &source), Ok(Some(Value::U16(80))));
    assert_eq!(load_optional_var(ScalarType::U16, "NONE", &source), Ok(None));
    assert_eq!(load_optional_var(ScalarType::U16, "BAD", &source), Err(unparsed("BAD")));
}

#[test]
fn join_key_inserts_no_separator() {
    assert_eq!(join_key("DB", "HOST"), "DBHOST");
    assert_eq!(join_key("DB_", "HOST"), "DB_HOST");
    assert_eq!(join_key("", "HOST"), "HOST");
    assert_eq!(join_key("DB_", ""), "DB_");
}

// Binding.

#[test]
fn host_and_defaulted_port_bind() {
    let source = source_of(&[("HOST", "db.local")]);
    let values = bind(&host_and_port(), &source, "").unwrap();
    assert_eq!(values, vec![text("db.local"), Value::U16(5432)]);
}

#[test]
fn empty_source_reports_the_missing_host() {
    let err = bind(&host_and_port(), &Source::new(), "").err().unwrap();
    assert_eq!(err, missing("HOST"));
}

#[test]
fn nested_fragment_qualifies_the_child_keys() {
    let child = Schema::new(vec![
        FieldDescriptor::plain("host", "HOST", ScalarType::Text),
        FieldDescriptor::plain("port", "PORT", ScalarType::U16),
    ]);
    let schema = Schema::new(vec![FieldDescriptor::nested("db", "DB_", child)]);
    let source = source_of(&[("DB_HOST", "x"), ("DB_PORT", "1")]);
    let values = bind(&schema, &source, "").unwrap();
    assert_eq!(values, vec![Value::Record(vec![text("x"), Value::U16(1)])]);
}

#[test]
fn empty_schema_binds_to_an_empty_record() {
    let values = bind(&Schema::new(vec![]), &Source::new(), "P_").unwrap();
    assert_eq!(values, Vec::<Value>::new());
}

#[test]
fn every_resolvable_field_holds_its_parsed_value() {
    let schema = Schema::new(vec![
        FieldDescriptor::plain("a", "A", ScalarType::I64),
        FieldDescriptor::optional("b", "B", ScalarType::Bool),
        FieldDescriptor::optional("c", "C", ScalarType::Bool),
        FieldDescriptor::with_default("d", "D", ScalarType::U64, "9"),
        FieldDescriptor::with_default("e", "E", ScalarType::U64, "9"),
    ]);
    let source = source_of(&[("X_A", "-3"), ("X_B", "true"), ("X_D", "10")]);
    let values = bind(&schema, &source, "X_").unwrap();
    assert_eq!(
        values,
        vec![Value::I64(-3), Value::Bool(true), Value::Absent, Value::U64(10), Value::U64(9)]
    );
}

#[test]
fn only_the_first_failure_is_reported() {
    let schema = Schema::new(vec![
        FieldDescriptor::plain("a", "A", ScalarType::U16),
        FieldDescriptor::plain("b", "B", ScalarType::U16),
        FieldDescriptor::plain("c", "C", ScalarType::U16),
    ]);
    let source = source_of(&[("A", "1"), ("B", "two")]);
    assert_eq!(bind(&schema, &source, ""), Err(unparsed("B")));
    let source = source_of(&[("A", "1"), ("C", "three")]);
    assert_eq!(bind(&schema, &source, ""), Err(missing("B")));
}

#[test]
fn failure_inside_a_nested_schema_comes_before_later_siblings() {
    let child = Schema::new(vec![FieldDescriptor::plain("k", "K", ScalarType::U16)]);
    let schema = Schema::new(vec![
        FieldDescriptor::nested("n", "N_", child),
        FieldDescriptor::plain("z", "Z", ScalarType::U16),
    ]);
    assert_eq!(bind(&schema, &Source::new(), "R_"), Err(missing("R_N_K")));
    let source = source_of(&[("R_N_K", "k")]);
    assert_eq!(bind(&schema, &source, "R_"), Err(unparsed("R_N_K")));
    let source = source_of(&[("R_N_K", "1")]);
    assert_eq!(bind(&schema, &source, "R_"), Err(missing("R_Z")));
}

#[test]
fn absent_optional_never_fails() {
    let schema = Schema::new(vec![
        FieldDescriptor::optional("a", "A", ScalarType::U16),
        FieldDescriptor::plain("b", "B", ScalarType::U16),
    ]);
    assert_eq!(bind(&schema, &Source::new(), ""), Err(missing("B")));
    let source = source_of(&[("B", "2")]);
    assert_eq!(bind(&schema, &source, ""), Ok(vec![Value::Absent, Value::U16(2)]));
}

#[test]
fn sibling_fragments_do_not_collide() {
    let child = || Schema::new(vec![FieldDescriptor::plain("k", "K", ScalarType::Text)]);
    let schema = Schema::new(vec![
        FieldDescriptor::nested("a", "A_", child()),
        FieldDescriptor::nested("b", "B_", child()),
    ]);
    let source = source_of(&[("P_A_K", "first"), ("P_B_K", "second")]);
    assert_eq!(
        bind(&schema, &source, "P_"),
        Ok(vec![Value::Record(vec![text("first")]), Value::Record(vec![text("second")])])
    );
}

#[test]
fn nested_fragments_accumulate_over_levels() {
    let leaf = Schema::new(vec![FieldDescriptor::plain("k", "K", ScalarType::Text)]);
    let middle = Schema::new(vec![FieldDescriptor::nested("leaf", "L_", leaf)]);
    let schema = Schema::new(vec![
        FieldDescriptor::nested("middle", "M_", middle),
        FieldDescriptor::plain("k", "K", ScalarType::Text),
    ]);
    let source = source_of(&[("R_M_L_K", "deep"), ("R_K", "flat")]);
    assert_eq!(
        bind(&schema, &source, "R_"),
        Ok(vec![Value::Record(vec![Value::Record(vec![text("deep")])]), text("flat")])
    );
}

#[test]
fn binding_twice_gives_equal_values() {
    let source = source_of(&[("HOST", "db.local"), ("PORT", "1")]);
    let schema = host_and_port();
    assert_eq!(bind(&schema, &source, ""), bind(&schema, &source, ""));
    let empty = Source::new();
    assert_eq!(bind(&schema, &empty, ""), bind(&schema, &empty, ""));
}

#[test]
fn bind_field_resolves_one_field() {
    let field = FieldDescriptor::optional("port", "PORT", ScalarType::U16);
    assert_eq!(bind_field(&field, &Source::new(), "A_"), Ok(Value::Absent));
    let source = source_of(&[("A_PORT", "1")]);
    assert_eq!(bind_field(&field, &source, "A_"), Ok(Value::U16(1)));
}

// Errors.

#[test]
fn error_messages_name_the_key() {
    assert_eq!(missing("DB_PORT").message(), "Environment variable DB_PORT is missing");
    assert_eq!(unparsed("DB_PORT").message(), "Failed to parse environment variable DB_PORT");
    assert_eq!(missing("DB_PORT").name(), "DB_PORT");
    assert_eq!(unparsed("X").name(), "X");
}

// The sample configuration.

#[test]
fn config_reports_a_port_that_does_not_parse() {
    let source = source_of(&[("PORT", "http"), ("HOST", "h")]);
    assert_eq!(Config::init_from_hashmap(&source), Err(unparsed("PORT")));
}

#[test]
fn config_schema_has_port_then_host() {
    let schema = Config::schema();
    assert_eq!(schema.fields.len(), 2);
    assert_eq!(schema.fields[0], FieldDescriptor::plain("port", "PORT", ScalarType::U16));
    assert_eq!(schema.fields[1], FieldDescriptor::plain("host", "HOST", ScalarType::Text));
    let config = Config::from_record(vec![Value::U16(7), text("h")]);
    assert_eq!(config, Config { port: 7, host: "h".to_string() });
}

// Option lists.

#[test]
fn option_text_is_read_entry_by_entry() {
    let attr = Attribute::parse("envconfig", r#"from = "DB_HOST", default = "x y", nested"#);
    let attr = attr.unwrap();
    assert_eq!(attr.path, "envconfig");
    assert_eq!(
        attr.args,
        vec![
            MetaItem { name: "from".to_string(), kind: MetaKind::Literal("DB_HOST".to_string()) },
            MetaItem { name: "default".to_string(), kind: MetaKind::Literal("x y".to_string()) },
            MetaItem { name: "nested".to_string(), kind: MetaKind::Path },
        ]
    );
}

#[test]
fn option_text_with_other_forms() {
    let attr = Attribute::parse("envconfig", r#"nested = true, skip(all), from = "A","#).unwrap();
    assert_eq!(
        attr.args,
        vec![
            MetaItem { name: "nested".to_string(), kind: MetaKind::Other },
            MetaItem { name: "skip".to_string(), kind: MetaKind::Other },
            MetaItem { name: "from".to_string(), kind: MetaKind::Literal("A".to_string()) },
        ]
    );
    assert_eq!(Attribute::parse("envconfig", "").unwrap().args, vec![]);
}

#[test]
fn option_text_that_is_no_list_is_refused() {
    assert_eq!(Attribute::parse("envconfig", "from ="), None);
    assert_eq!(Attribute::parse("envconfig", r#"from = "A" default = "B""#), None);
    assert_eq!(Attribute::parse("envconfig", "= 3"), None);
}

#[test]
fn find_item_tells_values_from_bare_names() {
    let list = Attribute::parse("envconfig", r#"nested, prefix = "DB_""#).unwrap().args;
    assert!(can_find(&list, "nested"));
    assert_eq!(find_item_in_list(&list, "nested"), Some(MatchingItem::NoValue));
    assert_eq!(find_item_in_list(&list, "prefix"), Some(MatchingItem::WithValue("DB_")));
    assert_eq!(find_item_in_list(&list, "from"), None);
    assert!(can_find(&list, "from"));
}

#[test]
fn repeated_or_malformed_entries_cannot_be_searched() {
    let list = Attribute::parse("envconfig", r#"from = "A", from = "B""#).unwrap().args;
    assert!(!can_find(&list, "from"));
    assert!(can_find(&list, "default"));
    let list = Attribute::parse("envconfig", "from(A)").unwrap().args;
    assert!(!can_find(&list, "from"));
    let list = Attribute::parse("envconfig", "default = 5432").unwrap().args;
    assert!(!can_find(&list, "default"));
}

#[test]
fn first_envconfig_attribute_is_taken() {
    let attrs = vec![
        Attribute::parse("doc", r#"hidden"#).unwrap(),
        Attribute::parse("envconfig", r#"from = "A""#).unwrap(),
        Attribute::parse("envconfig", r#"from = "B""#).unwrap(),
    ];
    let list = fetch_envconfig_attr(&attrs).unwrap();
    assert_eq!(find_item_in_list(list, "from"), Some(MatchingItem::WithValue("A")));
    assert_eq!(fetch_envconfig_attr(&vec![Attribute::parse("doc", "hidden").unwrap()]), None);
}

// Declarations.

#[test]
fn key_defaults_to_the_identifier_in_upper_case() {
    assert_eq!(field_to_env_var_name("db_host"), "DB_HOST");
    assert_eq!(field_to_env_var_name("worker_count"), "WORKER_COUNT");
    assert_eq!(field_to_env_var_name("PORT"), "PORT");
    let field = describe_field(declared("db_host", "String", vec![]));
    assert_eq!(field, FieldDescriptor::plain("db_host", "DB_HOST", ScalarType::Text));
}

#[test]
fn printed_types_are_told_apart() {
    assert_eq!(FieldType::from_tokens("u16"), FieldType::Scalar(ScalarType::U16));
    assert_eq!(FieldType::from_tokens("String"), FieldType::Scalar(ScalarType::Text));
    assert_eq!(FieldType::from_tokens("Option < u16 >"), FieldType::Optional(ScalarType::U16));
    assert_eq!(FieldType::from_tokens("Option < bool >"), FieldType::Optional(ScalarType::Bool));
    assert_eq!(FieldType::from_tokens("Option < Point >"), FieldType::Optional(ScalarType::Text));
    assert_eq!(FieldType::from_tokens("Point"), FieldType::Scalar(ScalarType::Text));
    assert_eq!(FieldType::from_tokens("Optional"), FieldType::Scalar(ScalarType::Text));
    assert_eq!(FieldType::from_tokens("Option < u16"), FieldType::Optional(ScalarType::Text));
}

#[test]
fn options_decide_the_resolution() {
    let field = describe_field(declared("port", "u16", options(r#"from = "PORT""#)));
    assert_eq!(field, FieldDescriptor::plain("port", "PORT", ScalarType::U16));

    let field =
        describe_field(declared("port", "u16", options(r#"from = "PORT", default = "80""#)));
    assert_eq!(field, FieldDescriptor::with_default("port", "PORT", ScalarType::U16, "80"));

    let field = describe_field(declared("port", "u16", options(r#"default = "80""#)));
    assert_eq!(field, FieldDescriptor::with_default("port", "PORT", ScalarType::U16, "80"));

    let field = describe_field(declared("port", "Option < u16 >", options(r#"from = "P""#)));
    assert_eq!(field, FieldDescriptor::optional("port", "P", ScalarType::U16));
}

#[test]
fn nested_field_takes_fragment_and_inner_prefix() {
    let child = || {
        let decl = StructDecl {
            name: "Db".to_string(),
            attrs: options(r#"env_prefix = "IN_""#),
            fields: vec![declared("host", "String", vec![])],
        };
        assert!(check_struct(&decl));
        describe_struct(decl)
    };
    assert_eq!(child().env_prefix, "IN_");

    let field = FieldDecl {
        ident: "db".to_string(),
        ty: FieldType::Struct(child()),
        attrs: options(r#"nested, prefix = "DB_""#),
    };
    assert!(check_field(&field));
    let field = describe_field(field);
    match &field.resolution {
        Resolution::Nested { prefix, schema } => {
            assert_eq!(prefix, "DB_IN_");
            assert_eq!(*schema, child().schema);
        }
        other => panic!("not nested: {:?}", other),
    }

    let field = FieldDecl {
        ident: "db".to_string(),
        ty: FieldType::Struct(child()),
        attrs: options("nested"),
    };
    let schema = Schema::new(vec![describe_field(field)]);
    let source = source_of(&[("IN_HOST", "h")]);
    assert_eq!(bind(&schema, &source, ""), Ok(vec![Value::Record(vec![text("h")])]));
}

#[test]
fn invalid_declarations_are_recognised() {
    let child = || RootSchema { env_prefix: String::new(), schema: Schema::new(vec![]) };
    let scalar = |attrs: &str| declared("f", "u16", options(attrs));
    let optional = |attrs: &str| declared("f", "Option < u16 >", options(attrs));
    let structured = |attrs: Vec<Attribute>| FieldDecl {
        ident: "f".to_string(),
        ty: FieldType::Struct(child()),
        attrs,
    };

    assert!(check_field(&scalar(r#"from = "A""#)));
    assert!(check_field(&optional(r#"from = "A""#)));
    assert!(check_field(&structured(options("nested"))));
    assert!(check_field(&structured(options(r#"prefix = """#))));
    assert!(check_field(&declared("f", "u16", vec![])));

    assert!(!check_field(&optional(r#"default = "1""#)));
    assert!(!check_field(&scalar("from")));
    assert!(!check_field(&scalar("default")));
    assert!(!check_field(&scalar(r#"from = "A", from = "B""#)));
    assert!(!check_field(&scalar(r#"default = "1", default = "2""#)));
    assert!(!check_field(&scalar("from = 3")));
    assert!(!check_field(&scalar("nested")));
    assert!(!check_field(&structured(vec![])));
    assert!(!check_field(&structured(options(r#"from = "A""#))));
    assert!(!check_field(&structured(options(r#"nested = "yes""#))));
    assert!(!check_field(&structured(options("nested = true"))));
    assert!(!check_field(&structured(options("nested, nested"))));
    assert!(!check_field(&structured(options("prefix"))));

    // `default` and `from` are not looked at on a nested field.
    assert!(check_field(&structured(options("nested, from, default"))));
}

#[test]
fn invalid_structures_are_recognised() {
    let decl = |attrs: Vec<Attribute>, fields: Vec<FieldDecl>| StructDecl {
        name: "S".to_string(),
        attrs,
        fields,
    };
    assert!(check_struct(&decl(vec![], vec![])));
    assert!(check_struct(&decl(options(r#"env_prefix = "A_""#), vec![])));
    assert!(!check_struct(&decl(options("env_prefix"), vec![])));
    assert!(!check_struct(&decl(options(r#"env_prefix = "A", env_prefix = "B""#), vec![])));
    assert!(!check_struct(&decl(
        vec![],
        vec![declared("ok", "u16", vec![]), declared("bad", "u16", options("from"))]
    )));
}

#[test]
fn structure_is_described_in_declaration_order() {
    let decl = StructDecl {
        name: "Config".to_string(),
        attrs: vec![],
        fields: vec![
            declared("a", "u16", vec![]),
            declared("b", "Option < String >", vec![]),
            declared("c", "bool", options(r#"default = "true""#)),
        ],
    };
    let root = describe_struct(decl);
    assert_eq!(root.env_prefix, "");
    assert_eq!(
        root.schema,
        Schema::new(vec![
            FieldDescriptor::plain("a", "A", ScalarType::U16),
            FieldDescriptor::optional("b", "B", ScalarType::Text),
            FieldDescriptor::with_default("c", "C", ScalarType::Bool, "true"),
        ])
    );
    let source = source_of(&[("A", "1")]);
    assert_eq!(root.bind(&source), Ok(vec![Value::U16(1), Value::Absent, Value::Bool(true)]));
}

#[test]
fn config_schema_is_what_its_declaration_describes() {
    let decl = StructDecl {
        name: "Config".to_string(),
        attrs: vec![],
        fields: vec![
            declared("port", "u16", options(r#"from = "PORT""#)),
            declared("host", "String", options(r#"from = "HOST""#)),
        ],
    };
    assert!(check_struct(&decl));
    let root = describe_struct(decl);
    assert_eq!(root.env_prefix, "");
    assert_eq!(root.schema, Config::schema());
}

#[test]
fn descriptors_tell_their_resolution() {
    let plain = FieldDescriptor::plain("a", "A", ScalarType::U16);
    let optional = FieldDescriptor::optional("a", "A", ScalarType::U16);
    let defaulted = FieldDescriptor::with_default("a", "A", ScalarType::U16, "1");
    let nested = FieldDescriptor::nested("a", "A_", Schema::new(vec![]));
    assert!(!plain.is_optional() && !plain.is_nested() && plain.default_literal().is_none());
    assert!(optional.is_optional() && !optional.is_nested());
    assert_eq!(optional.default_literal(), None);
    assert_eq!(defaulted.default_literal(), Some("1"));
    assert!(!defaulted.is_optional() && !defaulted.is_nested());
    assert!(nested.is_nested() && !nested.is_optional());
    assert_eq!(nested.default_literal(), None);
}
