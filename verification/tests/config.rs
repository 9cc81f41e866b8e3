use windns_sd::settings::{parse_config, ConfigError, FieldKind, RawValue};

fn table(fields: Vec<(&str, RawValue)>) -> RawValue {
    RawValue::Table(fields.into_iter().map(|(k, v)| (k.to_string(), v)).collect())
}

fn good_entry(name: &str, service_type: &str, port: i64) -> RawValue {
    table(vec![
        ("name", RawValue::Str(name.to_string())),
        ("type", RawValue::Str(service_type.to_string())),
        ("port", RawValue::Int(port)),
    ])
}

#[test]
fn parses_two_entries_in_order() {
    let raw = table(vec![
        ("svcA", good_entry("Printer", "_http._tcp", 0)),
        ("svcB", good_entry("Web", "_ipp._tcp", 631)),
    ]);
    let parsed = parse_config(&raw).unwrap();
    assert_eq!(parsed.entries.len(), 2);
    assert_eq!(parsed.entries[0].key, "svcA");
    assert_eq!(parsed.entries[0].svc.name, "Printer");
    assert_eq!(parsed.entries[0].svc.service_type, "_http._tcp");
    assert_eq!(parsed.entries[0].svc.port, 0);
    assert!(parsed.entries[0].svc.text.is_empty());
    assert_eq!(parsed.entries[1].key, "svcB");
    assert_eq!(parsed.entries[1].svc.port, 631);
}

#[test]
fn parses_text_attributes_in_order() {
    let raw = table(vec![(
        "svc",
        table(vec![
            ("name", RawValue::Str("Printer".to_string())),
            ("type", RawValue::Str("_ipp._tcp".to_string())),
            ("port", RawValue::Int(631)),
            (
                "text",
                table(vec![
                    ("paper", RawValue::Str("a4".to_string())),
                    ("duplex", RawValue::Str("yes".to_string())),
                ]),
            ),
        ]),
    )]);
    let parsed = parse_config(&raw).unwrap();
    let text = &parsed.entries[0].svc.text;
    assert_eq!(text.len(), 2);
    assert_eq!(text[0], ("paper".to_string(), "a4".to_string()));
    assert_eq!(text[1], ("duplex".to_string(), "yes".to_string()));
}

#[test]
fn rejects_root_that_is_no_table() {
    assert_eq!(
        parse_config(&RawValue::Int(3)),
        Err(ConfigError::RootNotTable)
    );
    assert_eq!(
        parse_config(&RawValue::Str("services".to_string())),
        Err(ConfigError::RootNotTable)
    );
}

#[test]
fn rejects_port_given_as_string() {
    let raw = table(vec![(
        "svcA",
        table(vec![
            ("name", RawValue::Str("Printer".to_string())),
            ("type", RawValue::Str("_http._tcp".to_string())),
            ("port", RawValue::Str("631".to_string())),
        ]),
    )]);
    assert_eq!(
        parse_config(&raw),
        Err(ConfigError::WrongType {
            key: "svcA".to_string(),
            field: "port".to_string(),
            expected: FieldKind::Int,
        })
    );
}

#[test]
fn rejects_name_given_as_integer() {
    let raw = table(vec![(
        "svc",
        table(vec![
            ("name", RawValue::Int(7)),
            ("type", RawValue::Str("_http._tcp".to_string())),
            ("port", RawValue::Int(631)),
        ]),
    )]);
    assert_eq!(
        parse_config(&raw),
        Err(ConfigError::WrongType {
            key: "svc".to_string(),
            field: "name".to_string(),
            expected: FieldKind::Str,
        })
    );
}

#[test]
fn table_length_counts_entries() {
    let raw = table(vec![
        ("svcA", good_entry("A", "_http._tcp", 1)),
        ("svcB", good_entry("B", "_ipp._tcp", 2)),
    ]);
    let parsed = parse_config(&raw).unwrap();
    assert_eq!(parsed.len(), 2);
}

#[test]
fn rejects_missing_required_fields() {
    let raw = table(vec![(
        "svc",
        table(vec![("type", RawValue::Str("_http._tcp".to_string()))]),
    )]);
    assert_eq!(
        parse_config(&raw),
        Err(ConfigError::MissingField {
            key: "svc".to_string(),
            field: "name".to_string(),
        })
    );

    let raw = table(vec![(
        "svc",
        table(vec![("name", RawValue::Str("Printer".to_string()))]),
    )]);
    assert_eq!(
        parse_config(&raw),
        Err(ConfigError::MissingField {
            key: "svc".to_string(),
            field: "type".to_string(),
        })
    );

    let raw = table(vec![(
        "svc",
        table(vec![
            ("name", RawValue::Str("Printer".to_string())),
            ("type", RawValue::Str("_http._tcp".to_string())),
        ]),
    )]);
    assert_eq!(
        parse_config(&raw),
        Err(ConfigError::MissingField {
            key: "svc".to_string(),
            field: "port".to_string(),
        })
    );
}

#[test]
fn rejects_port_out_of_range() {
    let raw = table(vec![("svc", good_entry("Printer", "_http._tcp", 70000))]);
    assert_eq!(
        parse_config(&raw),
        Err(ConfigError::PortOutOfRange {
            key: "svc".to_string(),
            value: 70000,
        })
    );
    let raw = table(vec![("svc", good_entry("Printer", "_http._tcp", -1))]);
    assert_eq!(
        parse_config(&raw),
        Err(ConfigError::PortOutOfRange {
            key: "svc".to_string(),
            value: -1,
        })
    );
}

#[test]
fn accepts_boundary_ports() {
    let raw = table(vec![
        ("low", good_entry("A", "_http._tcp", 0)),
        ("high", good_entry("B", "_http._tcp", 65535)),
    ]);
    let parsed = parse_config(&raw).unwrap();
    assert_eq!(parsed.entries[0].svc.port, 0);
    assert_eq!(parsed.entries[1].svc.port, 65535);
}

#[test]
fn rejects_duplicate_service_key() {
    let raw = table(vec![
        ("svc", good_entry("A", "_http._tcp", 1)),
        ("svc", good_entry("B", "_ipp._tcp", 2)),
    ]);
    assert_eq!(
        parse_config(&raw),
        Err(ConfigError::DuplicateService {
            key: "svc".to_string(),
        })
    );
}

#[test]
fn rejects_entry_that_is_no_table() {
    let raw = table(vec![("svc", RawValue::Int(5))]);
    assert_eq!(
        parse_config(&raw),
        Err(ConfigError::ServiceNotTable {
            key: "svc".to_string(),
        })
    );
}

#[test]
fn rejects_text_that_is_no_table() {
    let raw = table(vec![(
        "svc",
        table(vec![
            ("name", RawValue::Str("Printer".to_string())),
            ("type", RawValue::Str("_http._tcp".to_string())),
            ("port", RawValue::Int(631)),
            ("text", RawValue::Str("paper=a4".to_string())),
        ]),
    )]);
    assert_eq!(
        parse_config(&raw),
        Err(ConfigError::WrongType {
            key: "svc".to_string(),
            field: "text".to_string(),
            expected: FieldKind::Table,
        })
    );
}

#[test]
fn rejects_text_value_that_is_no_string() {
    let raw = table(vec![(
        "svc",
        table(vec![
            ("name", RawValue::Str("Printer".to_string())),
            ("type", RawValue::Str("_http._tcp".to_string())),
            ("port", RawValue::Int(631)),
            ("text", table(vec![("paper", RawValue::Int(4))])),
        ]),
    )]);
    assert_eq!(
        parse_config(&raw),
        Err(ConfigError::WrongType {
            key: "svc".to_string(),
            field: "paper".to_string(),
            expected: FieldKind::Str,
        })
    );
}

#[test]
fn rejects_duplicate_text_attribute() {
    let raw = table(vec![(
        "svc",
        table(vec![
            ("name", RawValue::Str("Printer".to_string())),
            ("type", RawValue::Str("_http._tcp".to_string())),
            ("port", RawValue::Int(631)),
            (
                "text",
                table(vec![
                    ("paper", RawValue::Str("a4".to_string())),
                    ("paper", RawValue::Str("letter".to_string())),
                ]),
            ),
        ]),
    )]);
    assert_eq!(
        parse_config(&raw),
        Err(ConfigError::DuplicateAttribute {
            key: "svc".to_string(),
            attribute: "paper".to_string(),
        })
    );
}

#[test]
fn reports_first_violation_in_document_order() {
    let raw = table(vec![
        ("bad1", RawValue::Int(1)),
        ("bad2", RawValue::Str("x".to_string())),
    ]);
    assert_eq!(
        parse_config(&raw),
        Err(ConfigError::ServiceNotTable {
            key: "bad1".to_string(),
        })
    );
}

#[test]
fn first_occurrence_of_a_field_wins() {
    let raw = table(vec![(
        "svc",
        table(vec![
            ("name", RawValue::Str("Printer".to_string())),
            ("type", RawValue::Str("_http._tcp".to_string())),
            ("port", RawValue::Int(9100)),
            ("port", RawValue::Str("shadowed".to_string())),
        ]),
    )]);
    let parsed = parse_config(&raw).unwrap();
    assert_eq!(parsed.entries[0].svc.port, 9100);
}
