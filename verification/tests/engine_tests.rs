use typed_store::codec::{row_to_structured_value, Column, SqlStatement};
use typed_store::engine::QueryEngine;
use typed_store::error::QueryError;
use typed_store::stream::{check_row_aligned, QueryStream, Relation, StreamEvent, StreamState};
use typed_store::types::{
    supports_add_column, supports_drop_column, supports_modify_column, Field, FieldType, Kind,
    ObjectDelta, ObjectType,
};
use typed_store::value::{Entry, StructuredValue, Value};

fn field(name: &str, type_: FieldType, default_value: Option<&str>) -> Field {
    let is_unique = matches!(type_, FieldType::Id);
    Field {
        name: name.to_string(),
        type_,
        is_unique,
        is_optional: false,
        labels: Vec::new(),
        default_value: default_value.map(|d| d.to_string()),
    }
}

fn person() -> ObjectType {
    ObjectType::new(
        "Person".to_string(),
        vec![
            field("id", FieldType::Id, Some("p-0001")),
            field("name", FieldType::Str, None),
            field("age", FieldType::Int, None),
        ],
    )
}

fn sv(entries: &[(&str, Value)]) -> StructuredValue {
    let mut v = StructuredValue::new();
    for (name, value) in entries {
        v.insert(name.to_string(), value.clone());
    }
    v
}

#[test]
fn parse_version_accepts_nonempty() {
    assert_eq!(
        typed_store::parse_version("dev").unwrap(),
        "dev".to_string()
    );
}

#[test]
fn parse_version_rejects_empty() {
    assert!(typed_store::parse_version("").is_err());
}

#[test]
fn create_table_text_for_person() {
    let engine = QueryEngine::new(Kind::Sqlite);
    let sql = engine.create_table(&person()).unwrap();
    assert_eq!(
        sql,
        "CREATE TABLE IF NOT EXISTS ty_Person (id text UNIQUE PRIMARY KEY, name text, age integer)"
    );
}

#[test]
fn create_table_covers_every_scalar_type() {
    let engine = QueryEngine::new(Kind::Postgres);
    let ty = ObjectType::new(
        "Sample".to_string(),
        vec![
            field("id", FieldType::Id, None),
            field("ratio", FieldType::Float, None),
            field("active", FieldType::Boolean, None),
        ],
    );
    let sql = engine.create_table(&ty).unwrap();
    assert_eq!(
        sql,
        "CREATE TABLE IF NOT EXISTS ty_Sample (id text UNIQUE PRIMARY KEY, ratio double, active boolean)"
    );
}

#[test]
fn create_table_rejects_object_field() {
    let engine = QueryEngine::new(Kind::Sqlite);
    let inner = person();
    let ty = ObjectType::new(
        "Holder".to_string(),
        vec![
            field("id", FieldType::Id, None),
            field("friend", FieldType::Object(Box::new(inner)), None),
        ],
    );
    let err = engine.create_table(&ty).unwrap_err();
    assert_eq!(
        err,
        QueryError::NotImplemented("support for type Object".to_string())
    );
}

#[test]
fn drop_table_text() {
    let engine = QueryEngine::new(Kind::Sqlite);
    assert_eq!(engine.drop_table(&person()), "DROP TABLE ty_Person");
}

#[test]
fn alter_table_empty_delta_is_a_no_op() {
    let engine = QueryEngine::new(Kind::Sqlite);
    let delta = ObjectDelta {
        added_fields: Vec::new(),
        removed_fields: Vec::new(),
        modified_fields: vec![field("age", FieldType::Int, Some("1"))],
    };
    // success, and no statement at all is issued for an empty delta
    let stmt = engine.alter_table(&person(), &delta).unwrap();
    assert_eq!(stmt, None);
}

#[test]
fn alter_table_add_only_delta() {
    let engine = QueryEngine::new(Kind::Sqlite);
    let delta = ObjectDelta {
        added_fields: vec![field("email", FieldType::Str, Some("none"))],
        removed_fields: Vec::new(),
        modified_fields: Vec::new(),
    };
    let stmt = engine.alter_table(&person(), &delta).unwrap().unwrap();
    assert_eq!(stmt, "ALTER TABLE ty_Person ADD COLUMN email text");
}

#[test]
fn alter_table_remove_only_delta() {
    let engine = QueryEngine::new(Kind::Postgres);
    let delta = ObjectDelta {
        added_fields: Vec::new(),
        removed_fields: vec![field("age", FieldType::Int, None)],
        modified_fields: Vec::new(),
    };
    let stmt = engine.alter_table(&person(), &delta).unwrap().unwrap();
    assert_eq!(stmt, "ALTER TABLE ty_Person DROP COLUMN age");
}

#[test]
fn alter_table_mixed_delta() {
    let engine = QueryEngine::new(Kind::Sqlite);
    let delta = ObjectDelta {
        added_fields: vec![
            field("email", FieldType::Str, None),
            field("score", FieldType::Float, None),
        ],
        removed_fields: vec![field("age", FieldType::Int, None)],
        modified_fields: Vec::new(),
    };
    let stmt = engine.alter_table(&person(), &delta).unwrap().unwrap();
    assert_eq!(
        stmt,
        "ALTER TABLE ty_Person ADD COLUMN email text, ADD COLUMN score double, DROP COLUMN age"
    );
}

#[test]
fn alter_table_rejects_added_object_field() {
    let engine = QueryEngine::new(Kind::Sqlite);
    let delta = ObjectDelta {
        added_fields: vec![field("friend", FieldType::Object(Box::new(person())), None)],
        removed_fields: Vec::new(),
        modified_fields: Vec::new(),
    };
    let err = engine.alter_table(&person(), &delta).unwrap_err();
    assert_eq!(
        err,
        QueryError::NotImplemented("support for type Object".to_string())
    );
}

#[test]
fn add_row_binds_fields_in_order_and_generates_id() {
    let engine = QueryEngine::new(Kind::Sqlite);
    let value = sv(&[
        ("name", Value::Str("Ann".to_string())),
        ("age", Value::Int(30)),
    ]);
    let stmt = engine.add_row(&person(), &value).unwrap();
    assert_eq!(stmt.sql, "INSERT INTO ty_Person (id,name,age) VALUES (?,?,?)");
    assert_eq!(
        stmt.params,
        vec![
            Value::Str("p-0001".to_string()),
            Value::Str("Ann".to_string()),
            Value::Int(30),
        ]
    );
}

#[test]
fn add_row_missing_required_field_names_it() {
    let engine = QueryEngine::new(Kind::Sqlite);
    let value = sv(&[("name", Value::Str("Ann".to_string()))]);
    let err = engine.add_row(&person(), &value).unwrap_err();
    assert_eq!(
        err,
        QueryError::IncompatibleData("age".to_string(), "Person".to_string())
    );
}

#[test]
fn add_row_type_mismatch_names_field_and_type() {
    let engine = QueryEngine::new(Kind::Sqlite);
    let value = sv(&[
        ("name", Value::Str("Ann".to_string())),
        ("age", Value::Str("thirty".to_string())),
    ]);
    let err = engine.add_row(&person(), &value).unwrap_err();
    assert_eq!(
        err,
        QueryError::IncompatibleData("age".to_string(), "Person".to_string())
    );
}

#[test]
fn add_row_rejects_object_field() {
    let engine = QueryEngine::new(Kind::Sqlite);
    let ty = ObjectType::new(
        "Holder".to_string(),
        vec![
            field("id", FieldType::Id, Some("h-1")),
            field("friend", FieldType::Object(Box::new(person())), None),
        ],
    );
    let value = sv(&[("friend", Value::Str("nobody".to_string()))]);
    let err = engine.add_row(&ty, &value).unwrap_err();
    assert_eq!(
        err,
        QueryError::NotImplemented("support for type Object".to_string())
    );
}

#[test]
fn add_row_generates_typed_defaults() {
    let engine = QueryEngine::new(Kind::Sqlite);
    let ty = ObjectType::new(
        "Gauge".to_string(),
        vec![
            field("id", FieldType::Id, Some("g-1")),
            field("count", FieldType::Int, Some("42")),
            field("ratio", FieldType::Float, Some("3.25")),
            field("active", FieldType::Boolean, Some("true")),
        ],
    );
    let stmt = engine.add_row(&ty, &sv(&[])).unwrap();
    assert_eq!(
        stmt.params,
        vec![
            Value::Str("g-1".to_string()),
            Value::Int(42),
            Value::Float("3.25".to_string()),
            Value::Bool(true),
        ]
    );
}

#[test]
fn add_row_rejects_unreadable_default() {
    let engine = QueryEngine::new(Kind::Sqlite);
    let ty = ObjectType::new(
        "Gauge".to_string(),
        vec![field("count", FieldType::Int, Some("4x"))],
    );
    let err = engine.add_row(&ty, &sv(&[])).unwrap_err();
    assert_eq!(
        err,
        QueryError::IncompatibleData("count".to_string(), "4x".to_string())
    );
}

#[test]
fn add_row_accepts_whole_number_for_float_field() {
    let engine = QueryEngine::new(Kind::Sqlite);
    let ty = ObjectType::new(
        "Gauge".to_string(),
        vec![field("ratio", FieldType::Float, None)],
    );
    let stmt = engine.add_row(&ty, &sv(&[("ratio", Value::Int(30))])).unwrap();
    assert_eq!(stmt.params, vec![Value::Int(30)]);
}

#[test]
fn query_relation_compiles_select_with_filters() {
    let engine = QueryEngine::new(Kind::Sqlite);
    let rel = Relation {
        target: person(),
        columns: vec![
            Column { name: "id".to_string(), ctype: FieldType::Id },
            Column { name: "name".to_string(), ctype: FieldType::Str },
            Column { name: "age".to_string(), ctype: FieldType::Int },
        ],
        filters: vec![Entry {
            name: "name".to_string(),
            value: Value::Str("Ann".to_string()),
        }],
    };
    let (stmt, stream) = engine.query_relation(rel);
    assert_eq!(
        stmt.sql,
        "SELECT id,name,age FROM ty_Person WHERE name = ?"
    );
    assert_eq!(stmt.params, vec![Value::Str("Ann".to_string())]);
    assert_eq!(stream.state, StreamState::Bound);
}

#[test]
fn query_relation_without_filters_has_no_where() {
    let engine = QueryEngine::new(Kind::Sqlite);
    let rel = Relation {
        target: person(),
        columns: vec![Column { name: "name".to_string(), ctype: FieldType::Str }],
        filters: Vec::new(),
    };
    let (stmt, _) = engine.query_relation(rel);
    assert_eq!(stmt.sql, "SELECT name FROM ty_Person");
    assert_eq!(stmt.params, Vec::<Value>::new());
}

#[test]
fn written_row_reads_back_as_the_input() {
    // the round-trip scenario: create, insert, select, decode
    let engine = QueryEngine::new(Kind::Sqlite);
    let ty = person();
    engine.create_table(&ty).unwrap();
    let input = sv(&[
        ("name", Value::Str("Ann".to_string())),
        ("age", Value::Int(30)),
    ]);
    let stmt: SqlStatement = engine.add_row(&ty, &input).unwrap();
    // the store echoes the bound parameters back under the column names
    let columns = vec![
        Column { name: "id".to_string(), ctype: FieldType::Id },
        Column { name: "name".to_string(), ctype: FieldType::Str },
        Column { name: "age".to_string(), ctype: FieldType::Int },
    ];
    let row = vec![
        Entry { name: "id".to_string(), value: stmt.params[0].clone() },
        Entry { name: "name".to_string(), value: stmt.params[1].clone() },
        Entry { name: "age".to_string(), value: stmt.params[2].clone() },
    ];
    assert!(check_row_aligned(&columns, &row));
    let read_back = row_to_structured_value(&columns, &row);
    let expected = sv(&[
        ("id", Value::Str("p-0001".to_string())),
        ("name", Value::Str("Ann".to_string())),
        ("age", Value::Int(30)),
    ]);
    assert_eq!(read_back, expected);
}

#[test]
fn stream_yields_rows_then_exhausts() {
    let columns = vec![Column { name: "name".to_string(), ctype: FieldType::Str }];
    let mut stream = QueryStream::new(columns);
    let row = vec![Entry { name: "name".to_string(), value: Value::Str("Ann".to_string()) }];
    let item = stream.step(StreamEvent::Row(row)).unwrap().unwrap();
    assert_eq!(item.get(&"name".to_string()), Some(&Value::Str("Ann".to_string())));
    assert_eq!(stream.state, StreamState::Bound);
    assert!(stream.step(StreamEvent::End).is_none());
    assert_eq!(stream.state, StreamState::Exhausted);
    // an exhausted stream never yields again
    let late = vec![Entry { name: "name".to_string(), value: Value::Str("Bob".to_string()) }];
    assert!(stream.step(StreamEvent::Row(late)).is_none());
}

#[test]
fn stream_failure_is_terminal() {
    let columns = vec![Column { name: "name".to_string(), ctype: FieldType::Str }];
    let mut stream = QueryStream::new(columns);
    let item = stream.step(StreamEvent::Failure("disk gone".to_string())).unwrap();
    assert_eq!(
        item.unwrap_err(),
        QueryError::ExecuteFailed("disk gone".to_string())
    );
    assert_eq!(stream.state, StreamState::Failed);
    // once failed, no further items, whatever is fed in
    let row = vec![Entry { name: "name".to_string(), value: Value::Str("Ann".to_string()) }];
    assert!(stream.step(StreamEvent::Row(row)).is_none());
    assert!(stream.step(StreamEvent::End).is_none());
    assert_eq!(stream.state, StreamState::Failed);
}

#[test]
fn check_row_aligned_rejects_mismatches() {
    let columns = vec![Column { name: "age".to_string(), ctype: FieldType::Int }];
    let wrong_type = vec![Entry { name: "age".to_string(), value: Value::Str("30".to_string()) }];
    assert!(!check_row_aligned(&columns, &wrong_type));
    let wrong_len: Vec<Entry> = Vec::new();
    assert!(!check_row_aligned(&columns, &wrong_len));
}

#[test]
fn old_rows_do_not_gain_added_fields_on_read() {
    // After a delta adds `email` with default "none", a pre-existing row
    // reads back without the field: defaults apply at write time only.
    let engine = QueryEngine::new(Kind::Sqlite);
    let delta = ObjectDelta {
        added_fields: vec![field("email", FieldType::Str, Some("none"))],
        removed_fields: Vec::new(),
        modified_fields: Vec::new(),
    };
    engine.alter_table(&person(), &delta).unwrap().unwrap();
    let columns = vec![
        Column { name: "id".to_string(), ctype: FieldType::Id },
        Column { name: "name".to_string(), ctype: FieldType::Str },
    ];
    let old_row = vec![
        Entry { name: "id".to_string(), value: Value::Str("p-0001".to_string()) },
        Entry { name: "name".to_string(), value: Value::Str("Ann".to_string()) },
    ];
    let read_back = row_to_structured_value(&columns, &old_row);
    assert_eq!(read_back.get(&"email".to_string()), None);
    // a row written after the change generates the default
    let mut extended_fields = person().fields;
    extended_fields.push(field("email", FieldType::Str, Some("none")));
    let new_ty = ObjectType::new("Person".to_string(), extended_fields);
    let stmt = engine
        .add_row(
            &new_ty,
            &sv(&[
                ("name", Value::Str("Bob".to_string())),
                ("age", Value::Int(41)),
            ]),
        )
        .unwrap();
    assert_eq!(stmt.params[3], Value::Str("none".to_string()));
}

#[test]
fn structured_value_lookup_is_first_match() {
    let mut v = StructuredValue::new();
    v.insert("a".to_string(), Value::Int(1));
    v.insert("a".to_string(), Value::Int(2));
    assert_eq!(v.get(&"a".to_string()), Some(&Value::Int(1)));
    assert_eq!(v.get(&"b".to_string()), None);
    assert_eq!(v.len(), 2);
}

#[test]
fn capability_table_matches_dialect_limits() {
    assert!(supports_add_column(Kind::Sqlite));
    assert!(supports_add_column(Kind::Postgres));
    assert!(supports_drop_column(Kind::Sqlite));
    assert!(supports_drop_column(Kind::Postgres));
    assert!(!supports_modify_column(Kind::Sqlite));
    assert!(supports_modify_column(Kind::Postgres));
}

#[test]
fn error_descriptions_name_their_parts() {
    let e = QueryError::IncompatibleData("age".to_string(), "Person".to_string());
    assert_eq!(e.describe(), "incompatible data for field age: Person");
    let c = QueryError::ConnectionFailed("pool exhausted".to_string());
    assert_eq!(c.describe(), "connection failed: pool exhausted");
}
