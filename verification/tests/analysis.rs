use builder::classify::{
    analyze, analyze_field, analyze_field_with, analyze_with, classify, optional_inner_of,
    read_literals, sole_argument_of, Classification, FieldDescriptor,
};
use builder::diagnostic::Diagnostic;
use builder::directive::{
    deciding_annotation, directive_from, directive_literal_of, directive_with, is_recognized,
    parse_directive, pending_literal_of, read_directive, read_literal,
};
use builder::schema::{
    Annotation, DeclaredType, FieldDefinition, Operand, Payload, TypeArgument, TypeDefinition,
    TypeForm, TypeShape,
};

fn text(s: &str) -> String {
    s.to_string()
}

fn plain(name: &str) -> DeclaredType {
    DeclaredType {
        written: text(name),
        form: TypeForm::Named { name: text(name), arguments: vec![] },
    }
}

fn generic(name: &str, argument: &str) -> DeclaredType {
    DeclaredType {
        written: format!("{}<{}>", name, argument),
        form: TypeForm::Named {
            name: text(name),
            arguments: vec![TypeArgument { written: text(argument), is_type: true }],
        },
    }
}

fn assignment(namespace: &str, target: &str, literal: &str) -> Annotation {
    Annotation {
        namespace: text(namespace),
        written: format!("{} = \"{}\"", target, literal),
        payload: Payload::Assignment {
            target: Operand::Name(text(target)),
            value: Operand::Text(text(literal)),
        },
    }
}

fn each(alias: &str) -> Annotation {
    assignment("builder", "each", alias)
}

fn field(name: &str, declared: DeclaredType, annotations: Vec<Annotation>) -> FieldDefinition {
    FieldDefinition { name: text(name), declared, annotations }
}

fn command() -> TypeDefinition {
    TypeDefinition {
        name: text("Command"),
        shape: TypeShape::Struct,
        fields: vec![
            field("executable", plain("String"), vec![]),
            field("args", generic("Vec", "String"), vec![each("arg")]),
            field("current_dir", generic("Option", "String"), vec![]),
        ],
    }
}

fn malformed(outcome: Result<String, Diagnostic>) -> (String, String) {
    match outcome {
        Err(Diagnostic::MalformedDirective { field, payload }) => (field, payload),
        Err(_) => panic!("another diagnostic"),
        Ok(alias) => panic!("accepted with alias {}", alias),
    }
}

fn class_of(outcome: Result<FieldDescriptor, Diagnostic>) -> Classification {
    match outcome {
        Ok(descriptor) => descriptor.class,
        Err(diagnostic) => panic!("{}", diagnostic.message()),
    }
}

#[test]
fn recognizes_only_the_builder_namespace() {
    assert!(is_recognized(&each("arg")));
    assert!(!is_recognized(&assignment("serde", "each", "arg")));
    assert!(!is_recognized(&assignment("Builder", "each", "arg")));
    assert!(!is_recognized(&assignment("", "each", "arg")));
}

#[test]
fn literal_is_found_only_in_the_exact_shape() {
    let good = each("arg");
    assert_eq!(directive_literal_of(&good.payload), Some(&text("arg")));
    let wrong_target = assignment("builder", "eac", "arg");
    assert_eq!(directive_literal_of(&wrong_target.payload), None);
    assert_eq!(directive_literal_of(&Payload::Other), None);
    let not_a_literal = Payload::Assignment {
        target: Operand::Name(text("each")),
        value: Operand::Name(text("arg")),
    };
    assert_eq!(directive_literal_of(&not_a_literal), None);
    let not_a_name = Payload::Assignment {
        target: Operand::Text(text("each")),
        value: Operand::Text(text("arg")),
    };
    assert_eq!(directive_literal_of(&not_a_name), None);
    let other_value =
        Payload::Assignment { target: Operand::Name(text("each")), value: Operand::Other };
    assert_eq!(directive_literal_of(&other_value), None);
}

#[test]
fn directive_from_takes_the_reading_as_alias() {
    let outcome = directive_from("args", &each("anything"), Some(text("arg")));
    assert_eq!(outcome.ok(), Some(text("arg")));
}

#[test]
fn directive_from_rejects_when_nothing_was_read() {
    let (field, payload) = malformed(directive_from("args", &each("1x"), None));
    assert_eq!(field, "args");
    assert_eq!(payload, "each = \"1x\"");
}

#[test]
fn directive_from_rejects_a_payload_of_another_shape() {
    let annotation = assignment("builder", "eac", "arg");
    let (field, payload) = malformed(directive_from("args", &annotation, Some(text("arg"))));
    assert_eq!(field, "args");
    assert_eq!(payload, "eac = \"arg\"");
}

#[test]
fn reads_the_alias_of_a_directive() {
    assert_eq!(read_directive("args", &each("arg")).ok(), Some(text("arg")));
    assert_eq!(read_directive("env", &each("env_var")).ok(), Some(text("env_var")));
}

#[test]
fn alias_is_the_identifier_not_the_literal_as_written() {
    assert_eq!(read_directive("args", &each("  arg ")).ok(), Some(text("arg")));
    assert_eq!(read_directive("args", &each("/* one */ arg")).ok(), Some(text("arg")));
}

#[test]
fn literal_that_is_no_single_identifier_is_malformed() {
    for literal in ["", "1abc", "a b", "a::b", "a-b", "fn", "self", "Vec<u8>", "\"arg\"", "arg,"] {
        let (field, payload) = malformed(read_directive("args", &each(literal)));
        assert_eq!(field, "args");
        assert_eq!(payload, format!("each = \"{}\"", literal));
    }
}

#[test]
fn malformed_payload_names_field_and_payload() {
    let annotation =
        Annotation { namespace: text("builder"), written: text("each"), payload: Payload::Other };
    let (field, payload) = malformed(read_directive("args", &annotation));
    assert_eq!(field, "args");
    assert_eq!(payload, "each");
    let wrong = assignment("builder", "eac", "arg");
    let (field, payload) = malformed(read_directive("env", &wrong));
    assert_eq!(field, "env");
    assert_eq!(payload, "eac = \"arg\"");
}

#[test]
fn field_without_annotations_has_no_directive() {
    let f = field("executable", plain("String"), vec![]);
    assert_eq!(parse_directive(&f).ok(), Some(None));
}

#[test]
fn annotations_of_other_namespaces_are_skipped() {
    let f = field(
        "args",
        generic("Vec", "String"),
        vec![
            assignment("serde", "rename", "a"),
            Annotation { namespace: text("doc"), written: text(""), payload: Payload::Other },
            each("arg"),
        ],
    );
    assert_eq!(parse_directive(&f).ok(), Some(Some(text("arg"))));
    let g = field("args", generic("Vec", "String"), vec![assignment("serde", "each", "arg")]);
    assert_eq!(parse_directive(&g).ok(), Some(None));
}

#[test]
fn first_directive_wins_and_the_rest_is_ignored() {
    let f = field("args", generic("Vec", "String"), vec![each("arg"), each("other")]);
    assert_eq!(parse_directive(&f).ok(), Some(Some(text("arg"))));
    let g = field(
        "args",
        generic("Vec", "String"),
        vec![each("arg"), assignment("builder", "eac", "x")],
    );
    assert_eq!(parse_directive(&g).ok(), Some(Some(text("arg"))));
}

#[test]
fn first_recognized_annotation_decides_even_if_malformed() {
    let f = field(
        "args",
        generic("Vec", "String"),
        vec![assignment("builder", "eac", "arg"), each("arg")],
    );
    match parse_directive(&f) {
        Err(Diagnostic::MalformedDirective { field, payload }) => {
            assert_eq!(field, "args");
            assert_eq!(payload, "eac = \"arg\"");
        }
        _ => panic!("expected a malformed directive"),
    }
}

#[test]
fn deciding_annotation_is_the_first_recognized() {
    let f = field(
        "args",
        generic("Vec", "String"),
        vec![assignment("serde", "rename", "a"), assignment("builder", "eac", "x"), each("arg")],
    );
    assert_eq!(deciding_annotation(&f), Some(&assignment("builder", "eac", "x")));
    let g = field("args", generic("Vec", "String"), vec![assignment("serde", "each", "arg")]);
    assert_eq!(deciding_annotation(&g), None);
    assert_eq!(deciding_annotation(&field("x", plain("u8"), vec![])), None);
}

#[test]
fn pending_literal_is_that_of_the_deciding_annotation() {
    let f = field("args", generic("Vec", "String"), vec![each("arg"), each("other")]);
    assert_eq!(pending_literal_of(&f), Some(&text("arg")));
    let g = field(
        "args",
        generic("Vec", "String"),
        vec![assignment("builder", "eac", "x"), each("arg")],
    );
    assert_eq!(pending_literal_of(&g), None);
    let h = field("args", generic("Vec", "String"), vec![assignment("serde", "each", "arg")]);
    assert_eq!(pending_literal_of(&h), None);
    assert_eq!(pending_literal_of(&field("x", plain("u8"), vec![])), None);
}

#[test]
fn read_literal_reads_the_pending_literal_only() {
    let f = field("args", generic("Vec", "String"), vec![each(" arg "), each("other")]);
    assert_eq!(read_literal(&f), Some(text("arg")));
    let g = field("args", generic("Vec", "String"), vec![each("not one")]);
    assert_eq!(read_literal(&g), None);
    let h = field(
        "args",
        generic("Vec", "String"),
        vec![assignment("builder", "eac", "x"), each("arg")],
    );
    assert_eq!(read_literal(&h), None);
    assert_eq!(read_literal(&field("x", plain("u8"), vec![])), None);
}

#[test]
fn directive_with_decides_from_the_reading() {
    let f = field("args", generic("Vec", "String"), vec![each("anything")]);
    assert_eq!(directive_with(&f, Some(text("arg"))), Ok(Some(text("arg"))));
    assert_eq!(
        directive_with(&f, None),
        Err(Diagnostic::MalformedDirective {
            field: text("args"),
            payload: text("each = \"anything\""),
        })
    );
    let plain_field = field("executable", plain("String"), vec![]);
    assert_eq!(directive_with(&plain_field, None), Ok(None));
    assert_eq!(directive_with(&plain_field, Some(text("ignored"))), Ok(None));
    let wrong = field("args", generic("Vec", "String"), vec![assignment("builder", "eac", "x")]);
    assert_eq!(
        directive_with(&wrong, Some(text("x"))),
        Err(Diagnostic::MalformedDirective { field: text("args"), payload: text("eac = \"x\"") })
    );
}

#[test]
fn analyze_field_with_classifies_from_the_reading() {
    let f = field("args", generic("Vec", "String"), vec![each("anything")]);
    assert_eq!(
        analyze_field_with(&f, Some(text("arg"))),
        Ok(FieldDescriptor {
            name: text("args"),
            declared: text("Vec<String>"),
            class: Classification::Repeated { element: text("String"), alias: text("arg") },
        })
    );
    assert!(matches!(
        analyze_field_with(&f, None),
        Err(Diagnostic::MalformedDirective { .. })
    ));
    let g = field("executable", plain("String"), vec![each("anything")]);
    assert_eq!(
        analyze_field_with(&g, Some(text("arg"))),
        Err(Diagnostic::NotAContainer { field: text("executable") })
    );
    let h = field("current_dir", generic("Option", "String"), vec![]);
    assert_eq!(
        analyze_field_with(&h, None),
        Ok(FieldDescriptor {
            name: text("current_dir"),
            declared: text("Option<String>"),
            class: Classification::Optional { inner: text("String") },
        })
    );
}

#[test]
fn read_literals_gives_one_reading_per_field() {
    assert_eq!(read_literals(&command()), vec![None, Some(text("arg")), None]);
    let unit = TypeDefinition { name: text("Unit"), shape: TypeShape::Enum, fields: vec![] };
    assert_eq!(read_literals(&unit), Vec::<Option<String>>::new());
}

#[test]
fn analyze_with_takes_the_readings_as_given() {
    let descriptor = analyze_with(&command(), &vec![None, Some(text("one")), None]).unwrap();
    assert_eq!(descriptor.name, "Command");
    assert_eq!(
        descriptor.fields[1].class,
        Classification::Repeated { element: text("String"), alias: text("one") }
    );
    assert_eq!(descriptor.fields[0].class, Classification::Required);
    assert_eq!(descriptor.fields[2].class, Classification::Optional { inner: text("String") });
    assert_eq!(analyze_with(&command(), &read_literals(&command())), analyze(&command()));
}

#[test]
fn analyze_with_counts_a_missing_reading_as_nothing_read() {
    let expected = Err(Diagnostic::MalformedDirective {
        field: text("args"),
        payload: text("each = \"arg\""),
    });
    assert_eq!(analyze_with(&command(), &vec![]), expected);
    assert_eq!(analyze_with(&command(), &vec![Some(text("x"))]), expected);
    assert_eq!(analyze_with(&command(), &vec![None, None, None]), expected);
    let longer = vec![None, Some(text("arg")), None, Some(text("more"))];
    assert_eq!(analyze_with(&command(), &longer), analyze(&command()));
}

#[test]
fn analyze_with_rejects_other_shapes_whatever_was_read() {
    let mut choice = command();
    choice.shape = TypeShape::Enum;
    assert_eq!(
        analyze_with(&choice, &vec![None, Some(text("arg")), None]),
        Err(Diagnostic::UnsupportedShape { subject: text("Command") })
    );
}

#[test]
fn sole_argument_needs_exactly_one_type() {
    assert_eq!(sole_argument_of(&generic("Vec", "String")), Some(&text("String")));
    assert_eq!(sole_argument_of(&generic("Option", "Vec<u8>")), Some(&text("Vec<u8>")));
    assert_eq!(sole_argument_of(&plain("String")), None);
    let two = DeclaredType {
        written: text("HashMap<String, u8>"),
        form: TypeForm::Named {
            name: text("HashMap"),
            arguments: vec![
                TypeArgument { written: text("String"), is_type: true },
                TypeArgument { written: text("u8"), is_type: true },
            ],
        },
    };
    assert_eq!(sole_argument_of(&two), None);
    let lifetime = DeclaredType {
        written: text("Cow<'a>"),
        form: TypeForm::Named {
            name: text("Cow"),
            arguments: vec![TypeArgument { written: text("'a"), is_type: false }],
        },
    };
    assert_eq!(sole_argument_of(&lifetime), None);
    let other = DeclaredType { written: text("&'a str"), form: TypeForm::Other };
    assert_eq!(sole_argument_of(&other), None);
}

#[test]
fn optional_inner_needs_the_name_option() {
    assert_eq!(optional_inner_of(&generic("Option", "String")), Some(&text("String")));
    assert_eq!(optional_inner_of(&generic("Vec", "String")), None);
    assert_eq!(optional_inner_of(&plain("Option")), None);
    assert_eq!(optional_inner_of(&generic("option", "String")), None);
    let other = DeclaredType { written: text("std::option::Option<u8>"), form: TypeForm::Other };
    assert_eq!(optional_inner_of(&other), None);
}

#[test]
fn classifies_by_directive_then_by_type() {
    let required = class_of(classify(&field("executable", plain("String"), vec![]), None));
    assert!(matches!(required, Classification::Required));

    let optional =
        class_of(classify(&field("current_dir", generic("Option", "String"), vec![]), None));
    match optional {
        Classification::Optional { inner } => assert_eq!(inner, "String"),
        _ => panic!("expected optional"),
    }

    let repeated = class_of(classify(
        &field("args", generic("Vec", "String"), vec![]),
        Some(text("arg")),
    ));
    match repeated {
        Classification::Repeated { element, alias } => {
            assert_eq!(element, "String");
            assert_eq!(alias, "arg");
        }
        _ => panic!("expected repeated"),
    }

    let vec_without_directive =
        class_of(classify(&field("args", generic("Vec", "String"), vec![]), None));
    assert!(matches!(vec_without_directive, Classification::Required));
}

#[test]
fn directive_comes_before_the_optional_rule() {
    let class = class_of(classify(
        &field("maybe", generic("Option", "String"), vec![]),
        Some(text("one")),
    ));
    match class {
        Classification::Repeated { element, alias } => {
            assert_eq!(element, "String");
            assert_eq!(alias, "one");
        }
        _ => panic!("expected repeated"),
    }
}

#[test]
fn descriptor_keeps_name_and_declared_type() {
    let descriptor = classify(&field("args", generic("Vec", "String"), vec![]), Some(text("arg")))
        .ok()
        .unwrap();
    assert_eq!(descriptor.name, "args");
    assert_eq!(descriptor.declared, "Vec<String>");
}

#[test]
fn directive_on_a_field_that_is_no_container_is_rejected() {
    match classify(&field("executable", plain("String"), vec![]), Some(text("arg"))) {
        Err(Diagnostic::NotAContainer { field }) => assert_eq!(field, "executable"),
        _ => panic!("expected a diagnostic"),
    }
    let other = DeclaredType { written: text("&[u8]"), form: TypeForm::Other };
    match classify(&field("bytes", other, vec![]), Some(text("byte"))) {
        Err(Diagnostic::NotAContainer { field }) => assert_eq!(field, "bytes"),
        _ => panic!("expected a diagnostic"),
    }
}

#[test]
fn analyze_field_reads_then_classifies() {
    let f = field("args", generic("Vec", "String"), vec![each("arg")]);
    match class_of(analyze_field(&f)) {
        Classification::Repeated { element, alias } => {
            assert_eq!(element, "String");
            assert_eq!(alias, "arg");
        }
        _ => panic!("expected repeated"),
    }
    let g = field("executable", plain("String"), vec![each("arg")]);
    assert!(matches!(analyze_field(&g), Err(Diagnostic::NotAContainer { .. })));
    let h = field("args", generic("Vec", "String"), vec![each("not an identifier")]);
    assert!(matches!(analyze_field(&h), Err(Diagnostic::MalformedDirective { .. })));
}

#[test]
fn analyzes_the_command_type() {
    let descriptor = analyze(&command()).ok().unwrap();
    assert_eq!(descriptor.name, "Command");
    assert_eq!(descriptor.fields.len(), 3);
    assert_eq!(descriptor.fields[0].name, "executable");
    assert!(matches!(descriptor.fields[0].class, Classification::Required));
    assert_eq!(descriptor.fields[1].name, "args");
    assert!(matches!(descriptor.fields[1].class, Classification::Repeated { .. }));
    assert_eq!(descriptor.fields[2].name, "current_dir");
    assert!(matches!(descriptor.fields[2].class, Classification::Optional { .. }));
}

#[test]
fn analyzes_a_struct_without_fields() {
    let unit = TypeDefinition { name: text("Unit"), shape: TypeShape::Struct, fields: vec![] };
    let descriptor = analyze(&unit).ok().unwrap();
    assert_eq!(descriptor.name, "Unit");
    assert!(descriptor.fields.is_empty());
}

#[test]
fn only_a_struct_is_supported() {
    for shape in [TypeShape::Enum, TypeShape::Union, TypeShape::TupleStruct] {
        let definition = TypeDefinition { name: text("Shape"), shape, fields: vec![] };
        match analyze(&definition) {
            Err(Diagnostic::UnsupportedShape { subject }) => assert_eq!(subject, "Shape"),
            _ => panic!("expected a diagnostic"),
        }
    }
}

#[test]
fn shape_is_checked_before_the_fields() {
    let definition = TypeDefinition {
        name: text("Choice"),
        shape: TypeShape::Enum,
        fields: vec![field("x", plain("u8"), vec![each("not valid")])],
    };
    assert!(matches!(analyze(&definition), Err(Diagnostic::UnsupportedShape { .. })));
}

#[test]
fn first_failing_field_gives_the_diagnostic() {
    let definition = TypeDefinition {
        name: text("Broken"),
        shape: TypeShape::Struct,
        fields: vec![
            field("fine", plain("String"), vec![]),
            field("first", plain("String"), vec![each("one")]),
            field("second", generic("Vec", "u8"), vec![assignment("builder", "eac", "x")]),
        ],
    };
    match analyze(&definition) {
        Err(Diagnostic::NotAContainer { field }) => assert_eq!(field, "first"),
        _ => panic!("expected the diagnostic of the first failing field"),
    }
}

#[test]
fn diagnostic_messages() {
    assert_eq!(
        Diagnostic::UnsupportedShape { subject: text("Shape") }.message(),
        "only supports struct: Shape"
    );
    assert_eq!(
        Diagnostic::MalformedDirective { field: text("args"), payload: text("eac = \"arg\"") }
            .message(),
        "malformed directive on field args: expected each = \"<identifier>\", found eac = \"arg\""
    );
    assert_eq!(
        Diagnostic::NotAContainer { field: text("executable") }.message(),
        "directive on field executable: its type is not a container of one type argument"
    );
}
