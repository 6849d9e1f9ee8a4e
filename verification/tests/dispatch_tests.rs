use sensor_tools::dispatch::{conclude, dispatch, plan, ContentBlock, ContentKind, ErrorKind, Plan, ToolOutcome};
use sensor_tools::registry::{DescriptorError, Registry, RegistryError, ToolDescriptor};
use sensor_tools::schema::{
    check_value, validate, Arguments, FieldSpec, Primitive, RawArguments, RawValue, Reason, Schema,
    SchemaError, Value,
};

type Handler = fn(&Arguments) -> Result<String, String>;

fn echo(args: &Arguments) -> Result<String, String> {
    match args.text("msg") {
        Some(t) => Ok(t.clone()),
        None => Err(String::from("no message")),
    }
}

fn failing(_args: &Arguments) -> Result<String, String> {
    Err(String::from("disk on fire"))
}

fn run(handler: &Handler, args: &Arguments) -> Result<String, String> {
    handler(args)
}

fn echo_registry() -> Registry<Handler> {
    let schema = Schema::single(FieldSpec::required("msg", Primitive::Text, "what to say back"));
    let descriptor =
        ToolDescriptor::new(String::from("echo"), String::from("Says it back"), schema).unwrap();
    let mut registry: Registry<Handler> = Registry::new();
    assert_eq!(registry.register(descriptor, echo as Handler), Ok(()));
    registry
}

fn raw_of(pairs: Vec<(&str, RawValue)>) -> RawArguments {
    let mut raw = RawArguments::new();
    for (k, v) in pairs {
        raw.insert(String::from(k), v);
    }
    raw
}

#[test]
fn echo_call_succeeds_with_one_text_block() {
    let registry = echo_registry();
    let raw = raw_of(vec![("msg", RawValue::Text(String::from("hi")))]);
    let outcome = dispatch(&registry, &run, "echo", &raw);
    assert_eq!(
        outcome,
        ToolOutcome::Success(vec![ContentBlock { kind: ContentKind::Text, value: String::from("hi") }])
    );
}

#[test]
fn echo_call_without_message_names_the_missing_field() {
    let registry = echo_registry();
    let raw = RawArguments::new();
    let outcome = dispatch(&registry, &run, "echo", &raw);
    assert_eq!(
        outcome,
        ToolOutcome::Failure(ErrorKind::InvalidArgument, String::from("missing field: msg"))
    );
}

#[test]
fn unknown_tool_is_not_found() {
    let registry = echo_registry();
    let raw = RawArguments::new();
    let outcome = dispatch(&registry, &run, "nonexistent", &raw);
    assert_eq!(
        outcome,
        ToolOutcome::Failure(ErrorKind::NotFound, String::from("unknown tool: nonexistent"))
    );
}

#[test]
fn unknown_tool_is_not_found_in_an_empty_registry() {
    let registry: Registry<Handler> = Registry::new();
    let raw = raw_of(vec![("msg", RawValue::Text(String::from("hi")))]);
    let outcome = dispatch(&registry, &run, "echo", &raw);
    assert_eq!(
        outcome,
        ToolOutcome::Failure(ErrorKind::NotFound, String::from("unknown tool: echo"))
    );
}

#[test]
fn tool_failure_becomes_internal_error() {
    let mut registry = echo_registry();
    let descriptor =
        ToolDescriptor::new(String::from("burn"), String::from("Always fails"), Schema::new())
            .unwrap();
    assert_eq!(registry.register(descriptor, failing as Handler), Ok(()));
    let outcome = dispatch(&registry, &run, "burn", &RawArguments::new());
    assert_eq!(outcome, ToolOutcome::Failure(ErrorKind::Internal, String::from("disk on fire")));
}

#[test]
fn wrong_type_is_an_invalid_argument() {
    let registry = echo_registry();
    let raw = raw_of(vec![("msg", RawValue::Integer(7))]);
    let outcome = dispatch(&registry, &run, "echo", &raw);
    assert_eq!(
        outcome,
        ToolOutcome::Failure(ErrorKind::InvalidArgument, String::from("wrong type for field: msg"))
    );
}

#[test]
fn extra_fields_are_ignored_by_dispatch() {
    let registry = echo_registry();
    let raw = raw_of(vec![
        ("volume", RawValue::Integer(11)),
        ("msg", RawValue::Text(String::from("hi"))),
        ("other", RawValue::Other),
    ]);
    let outcome = dispatch(&registry, &run, "echo", &raw);
    assert_eq!(
        outcome,
        ToolOutcome::Success(vec![ContentBlock { kind: ContentKind::Text, value: String::from("hi") }])
    );
}

#[test]
fn plan_names_the_handler_and_the_typed_arguments() {
    let registry = echo_registry();
    let raw = raw_of(vec![("msg", RawValue::Text(String::from("hello")))]);
    match plan(&registry, "echo", &raw) {
        Plan::Invoke(handler, args) => {
            assert_eq!(args.len(), 1);
            assert_eq!(args.text("msg"), Some(&String::from("hello")));
            assert_eq!(handler(&args), Ok(String::from("hello")));
        }
        Plan::Reject(_) => panic!("the call should go through"),
    }
}

#[test]
fn plan_rejects_an_unknown_name() {
    let registry = echo_registry();
    match plan(&registry, "ecko", &RawArguments::new()) {
        Plan::Reject(outcome) => assert_eq!(
            outcome,
            ToolOutcome::Failure(ErrorKind::NotFound, String::from("unknown tool: ecko"))
        ),
        Plan::Invoke(_, _) => panic!("there is no such tool"),
    }
}

#[test]
fn conclude_wraps_text_and_errors() {
    assert_eq!(
        conclude(Ok(String::from("42"))),
        ToolOutcome::Success(vec![ContentBlock { kind: ContentKind::Text, value: String::from("42") }])
    );
    assert_eq!(
        conclude(Err(String::from("no"))),
        ToolOutcome::Failure(ErrorKind::Internal, String::from("no"))
    );
}

#[test]
fn registry_refuses_a_second_tool_of_the_same_name() {
    let mut registry = echo_registry();
    let again =
        ToolDescriptor::new(String::from("echo"), String::from("Another echo"), Schema::new())
            .unwrap();
    assert_eq!(
        registry.register(again, failing as Handler),
        Err(RegistryError::DuplicateName(String::from("echo")))
    );
    assert_eq!(registry.len(), 1);
    let listed = registry.list();
    assert_eq!(listed.len(), 1);
    assert_eq!(listed[0].description(), "Says it back");
}

#[test]
fn registry_lists_in_registration_order_each_name_once() {
    let mut registry: Registry<u8> = Registry::new();
    for (i, name) in ["gamma", "alpha", "beta"].iter().enumerate() {
        let d = ToolDescriptor::new(String::from(*name), String::from("a tool"), Schema::new())
            .unwrap();
        assert_eq!(registry.register(d, i as u8), Ok(()));
    }
    let names: Vec<String> = registry.list().iter().map(|d| d.name().clone()).collect();
    assert_eq!(names, vec!["gamma", "alpha", "beta"]);
    for name in ["gamma", "alpha", "beta"] {
        assert_eq!(names.iter().filter(|n| n.as_str() == name).count(), 1);
        assert!(registry.contains(name));
    }
    assert!(!registry.contains("delta"));
}

#[test]
fn registry_get_finds_descriptor_and_handler() {
    let mut registry: Registry<u8> = Registry::new();
    for (i, name) in ["gamma", "alpha", "beta"].iter().enumerate() {
        let d = ToolDescriptor::new(String::from(*name), String::from("a tool"), Schema::new())
            .unwrap();
        assert_eq!(registry.register(d, i as u8), Ok(()));
    }
    match registry.get("alpha") {
        Ok((d, h)) => {
            assert_eq!(d.name(), "alpha");
            assert_eq!(*h, 1);
            assert_eq!(d.parameter_schema().len(), 0);
        }
        Err(_) => panic!("alpha is registered"),
    }
    match registry.get("delta") {
        Err(e) => assert_eq!(e, RegistryError::NotFound(String::from("delta"))),
        Ok(_) => panic!("delta is not registered"),
    }
}

#[test]
fn descriptor_needs_a_description() {
    match ToolDescriptor::new(String::from("mute"), String::new(), Schema::new()) {
        Err(e) => assert_eq!(e, DescriptorError::EmptyDescription),
        Ok(_) => panic!("an empty description must be refused"),
    }
}

#[test]
fn schema_refuses_a_second_field_of_the_same_name() {
    let mut schema = Schema::new();
    assert_eq!(schema.add_field(FieldSpec::required("a", Primitive::Text, "first")), Ok(()));
    assert_eq!(schema.add_field(FieldSpec::optional("b", Primitive::Boolean, "second")), Ok(()));
    assert_eq!(
        schema.add_field(FieldSpec::optional("a", Primitive::Boolean, "again")),
        Err(SchemaError::DuplicateField)
    );
    assert_eq!(schema.len(), 2);
    assert!(schema.contains("a"));
    assert!(schema.contains("b"));
    assert!(!schema.contains("c"));
    assert_eq!(schema.field(1).name, "b");
    match Schema::pair(
        FieldSpec::required("x", Primitive::Text, ""),
        FieldSpec::required("x", Primitive::Text, ""),
    ) {
        Err(e) => assert_eq!(e, SchemaError::DuplicateField),
        Ok(_) => panic!("two fields of one name"),
    }
}

fn sample_schema() -> Schema {
    let mut schema = Schema::new();
    schema.add_field(FieldSpec::required("name", Primitive::Text, "a name")).unwrap();
    schema
        .add_field(FieldSpec::optional("count", Primitive::Unsigned { max: 100 }, "how many"))
        .unwrap();
    schema
        .add_field(FieldSpec {
            name: String::from("loud"),
            primitive: Primitive::Boolean,
            optional: true,
            default: Some(RawValue::Bool(true)),
            doc: String::from("whether to shout"),
        })
        .unwrap();
    schema
}

#[test]
fn validation_applies_defaults_and_keeps_schema_order() {
    let raw = raw_of(vec![("name", RawValue::Text(String::from("x")))]);
    let args = validate(&sample_schema(), &raw).unwrap();
    assert_eq!(args.len(), 3);
    assert_eq!(args.get("name"), Some(&Value::Text(String::from("x"))));
    assert_eq!(args.get("count"), None);
    assert_eq!(args.unsigned("count"), None);
    assert_eq!(args.boolean("loud"), Some(true));
    assert_eq!(args.get("absent"), None);
}

#[test]
fn validation_reads_given_values_over_defaults() {
    let raw = raw_of(vec![
        ("loud", RawValue::Bool(false)),
        ("count", RawValue::Integer(100)),
        ("name", RawValue::Text(String::from("x"))),
    ]);
    let args = validate(&sample_schema(), &raw).unwrap();
    assert_eq!(args.unsigned("count"), Some(100));
    assert_eq!(args.boolean("loud"), Some(false));
    assert_eq!(args.text("name"), Some(&String::from("x")));
    assert_eq!(args.text("count"), None);
}

#[test]
fn validation_reports_each_reason() {
    let schema = sample_schema();
    let missing = validate(&schema, &RawArguments::new()).unwrap_err();
    assert_eq!(missing.field, "name");
    assert_eq!(missing.reason, Reason::Missing);
    assert_eq!(missing.message(), "missing field: name");

    let raw = raw_of(vec![
        ("name", RawValue::Text(String::from("x"))),
        ("count", RawValue::Integer(101)),
    ]);
    let range = validate(&schema, &raw).unwrap_err();
    assert_eq!(range.field, "count");
    assert_eq!(range.reason, Reason::OutOfRange);
    assert_eq!(range.message(), "value out of range for field: count");

    let raw = raw_of(vec![
        ("name", RawValue::Text(String::from("x"))),
        ("count", RawValue::Integer(-1)),
    ]);
    assert_eq!(validate(&schema, &raw).unwrap_err().reason, Reason::OutOfRange);

    let raw = raw_of(vec![
        ("name", RawValue::Text(String::from("x"))),
        ("loud", RawValue::Text(String::from("yes"))),
    ]);
    let wrong = validate(&schema, &raw).unwrap_err();
    assert_eq!(wrong.field, "loud");
    assert_eq!(wrong.reason, Reason::WrongType);
    assert_eq!(wrong.message(), "wrong type for field: loud");
}

#[test]
fn validation_names_the_first_field_at_fault() {
    let raw = raw_of(vec![("count", RawValue::Other), ("loud", RawValue::Integer(1))]);
    let e = validate(&sample_schema(), &raw).unwrap_err();
    assert_eq!(e.field, "name");
    assert_eq!(e.reason, Reason::Missing);
}

#[test]
fn validation_treats_null_as_absent_only_for_optional_fields() {
    let schema = sample_schema();
    let raw = raw_of(vec![
        ("name", RawValue::Text(String::from("x"))),
        ("count", RawValue::Null),
        ("loud", RawValue::Null),
    ]);
    let args = validate(&schema, &raw).unwrap();
    assert_eq!(args.get("count"), None);
    assert_eq!(args.get("loud"), None);
    let raw = raw_of(vec![("name", RawValue::Null)]);
    let e = validate(&schema, &raw).unwrap_err();
    assert_eq!(e.field, "name");
    assert_eq!(e.reason, Reason::WrongType);
}

#[test]
fn validation_ignores_unknown_keys() {
    let schema = sample_schema();
    let plain = raw_of(vec![("name", RawValue::Text(String::from("x")))]);
    let more = raw_of(vec![
        ("name", RawValue::Text(String::from("x"))),
        ("zzz", RawValue::Other),
        ("", RawValue::Null),
    ]);
    let a = validate(&schema, &plain).unwrap();
    let b = validate(&schema, &more).unwrap();
    assert_eq!(a.len(), b.len());
    for key in ["name", "count", "loud"] {
        assert_eq!(a.get(key), b.get(key));
    }
}

#[test]
fn raw_arguments_keep_the_last_value_of_a_key() {
    let mut raw = RawArguments::new();
    assert_eq!(raw.get("k"), None);
    raw.insert(String::from("k"), RawValue::Integer(1));
    raw.insert(String::from("j"), RawValue::Bool(true));
    raw.insert(String::from("k"), RawValue::Integer(2));
    assert_eq!(raw.get("k"), Some(&RawValue::Integer(2)));
    assert_eq!(raw.get("j"), Some(&RawValue::Bool(true)));
    assert_eq!(raw.get("K"), None);
}

#[test]
fn check_value_by_primitive() {
    assert_eq!(
        check_value(Primitive::Text, &RawValue::Text(String::from("a"))),
        Ok(Value::Text(String::from("a")))
    );
    assert_eq!(check_value(Primitive::Text, &RawValue::Bool(true)), Err(Reason::WrongType));
    assert_eq!(check_value(Primitive::Boolean, &RawValue::Bool(true)), Ok(Value::Boolean(true)));
    assert_eq!(check_value(Primitive::Boolean, &RawValue::Null), Err(Reason::WrongType));
    assert_eq!(
        check_value(Primitive::Unsigned { max: u64::MAX }, &RawValue::Integer(u64::MAX as i128)),
        Ok(Value::Unsigned(u64::MAX))
    );
    assert_eq!(
        check_value(Primitive::Unsigned { max: u64::MAX }, &RawValue::Integer(u64::MAX as i128 + 1)),
        Err(Reason::OutOfRange)
    );
    assert_eq!(check_value(Primitive::Unsigned { max: 5 }, &RawValue::Integer(0)), Ok(Value::Unsigned(0)));
    assert_eq!(check_value(Primitive::Unsigned { max: 5 }, &RawValue::Other), Err(Reason::WrongType));
}
