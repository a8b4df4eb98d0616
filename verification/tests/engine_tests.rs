use almacen::adapter::{
    NuevoRegistro, consulta_tabla, crear_registro_con_auto_incremento,
    crear_registro_con_auto_incremento_no, delete_table_row, get_record_details, resolve_db_file,
    update_table_row,
};
use almacen::coerce::MissingFieldPolicy;
use almacen::errors::DbError;
use almacen::tables::{
    ColumnType, ExecuteSqlParams, add_date_column, add_new_column, check_column_exists,
    check_table_exists, create_table, delete_column, delete_table, execute_sql, list_tables,
};
use almacen::values::JsonVal;
use base64::Engine;

fn open_mem() -> rusqlite::Connection {
    rusqlite::Connection::open_in_memory().unwrap()
}

fn assets_table(conn: &rusqlite::Connection) {
    conn.execute("CREATE TABLE assets (\"No.\" TEXT, name TEXT)", [])
        .unwrap();
}

fn record_value(record: &Vec<(String, JsonVal)>, key: &str) -> JsonVal {
    for (k, v) in record.iter() {
        if k == key {
            return v.clone();
        }
    }
    panic!("missing key {}", key);
}

#[test]
fn quoted_identifier_is_usable_in_statements() {
    let conn = open_mem();
    // Unquoted, the dotted name cannot be parsed; quoted, it works.
    assert!(conn.execute("CREATE TABLE t (No. TEXT)", []).is_err());
    let quoted = almacen::quoting::quote_identifier("No.");
    let sql = format!("CREATE TABLE t ({} TEXT)", quoted);
    conn.execute(&sql, []).unwrap();
}

#[test]
fn create_on_empty_table_assigns_one_then_two() {
    let conn = open_mem();
    assets_table(&conn);
    let registro = NuevoRegistro {
        db_name: String::from("db"),
        table_name: String::from("assets"),
        id_column: String::from("No."),
        data: vec![(String::from("name"), JsonVal::Str(String::from("laptop")))],
    };
    let msg = crear_registro_con_auto_incremento(&conn, &registro, MissingFieldPolicy::EmptyString)
        .unwrap();
    assert_eq!(msg, "Registro creado exitosamente");

    let details = get_record_details(
        &conn,
        "assets",
        "No.",
        &JsonVal::Str(String::from("1")),
    )
    .unwrap();
    assert_eq!(record_value(&details.record, "No."), JsonVal::Str(String::from("1")));
    assert_eq!(record_value(&details.record, "name"), JsonVal::Str(String::from("laptop")));

    let registro2 = NuevoRegistro {
        db_name: String::from("db"),
        table_name: String::from("assets"),
        id_column: String::from("No."),
        data: vec![(String::from("name"), JsonVal::Str(String::from("monitor")))],
    };
    crear_registro_con_auto_incremento(&conn, &registro2, MissingFieldPolicy::EmptyString).unwrap();
    let details2 = get_record_details(
        &conn,
        "assets",
        "No.",
        &JsonVal::Str(String::from("2")),
    )
    .unwrap();
    assert_eq!(record_value(&details2.record, "No."), JsonVal::Str(String::from("2")));
    assert_eq!(record_value(&details2.record, "name"), JsonVal::Str(String::from("monitor")));
}

#[test]
fn sequential_creates_yield_distinct_identifiers() {
    let conn = open_mem();
    assets_table(&conn);
    for i in 0..5 {
        let registro = NuevoRegistro {
            db_name: String::from("db"),
            table_name: String::from("assets"),
            id_column: String::from("No."),
            data: vec![(String::from("name"), JsonVal::Str(format!("item{}", i)))],
        };
        crear_registro_con_auto_incremento(&conn, &registro, MissingFieldPolicy::EmptyString)
            .unwrap();
    }
    let table = consulta_tabla(&conn, "assets").unwrap();
    let mut seen: Vec<String> = Vec::new();
    for row in table.rows.iter() {
        match record_value(row, "No.") {
            JsonVal::Str(s) => {
                assert!(!seen.contains(&s));
                seen.push(s);
            }
            other => panic!("unexpected identifier value {:?}", other),
        }
    }
    assert_eq!(seen.len(), 5);
}

#[test]
fn create_read_round_trip_returns_superset_with_identical_values() {
    let conn = open_mem();
    assets_table(&conn);
    conn.execute("ALTER TABLE assets ADD COLUMN detalle TEXT", []).unwrap();
    let registro = NuevoRegistro {
        db_name: String::from("db"),
        table_name: String::from("assets"),
        id_column: String::from("No."),
        data: vec![(String::from("name"), JsonVal::Str(String::from("laptop")))],
    };
    crear_registro_con_auto_incremento(&conn, &registro, MissingFieldPolicy::EmptyString).unwrap();
    let details = get_record_details(
        &conn,
        "assets",
        "No.",
        &JsonVal::Str(String::from("1")),
    )
    .unwrap();
    // Every payload key present in the table comes back with its value; the
    // unset column carries the documented default.
    assert_eq!(record_value(&details.record, "name"), JsonVal::Str(String::from("laptop")));
    assert_eq!(record_value(&details.record, "detalle"), JsonVal::Str(String::new()));
    assert_eq!(details.record.len(), 3);
}

#[test]
fn empty_update_is_rejected_without_touching_the_engine() {
    let conn = open_mem();
    // No table exists at all: the empty-update error must still come first.
    let r = update_table_row(
        &conn,
        "assets",
        "No.",
        &JsonVal::Str(String::from("1")),
        &vec![],
        &None,
    );
    assert!(matches!(r, Err(DbError::NoUpdatesProvided)));
}

#[test]
fn missing_records_are_reported_symmetrically() {
    let conn = open_mem();
    assets_table(&conn);
    conn.execute("INSERT INTO assets VALUES ('1', 'laptop')", []).unwrap();

    let upd = update_table_row(
        &conn,
        "assets",
        "No.",
        &JsonVal::Str(String::from("99")),
        &vec![(String::from("name"), JsonVal::Str(String::from("x")))],
        &None,
    );
    assert!(matches!(upd, Err(DbError::RecordNotFound(_))));

    let del = delete_table_row(&conn, "assets", "No.", &JsonVal::Str(String::from("99")));
    assert!(matches!(del, Err(DbError::RecordNotFound(_))));

    let read = get_record_details(&conn, "assets", "No.", &JsonVal::Str(String::from("99")));
    assert!(matches!(read, Err(DbError::RecordNotFound(_))));

    // A key matching one row never fails on that ground.
    let upd_ok = update_table_row(
        &conn,
        "assets",
        "No.",
        &JsonVal::Str(String::from("1")),
        &vec![(String::from("name"), JsonVal::Str(String::from("laptop pro")))],
        &None,
    );
    assert_eq!(upd_ok.unwrap(), true);
    let read_ok = get_record_details(&conn, "assets", "No.", &JsonVal::Str(String::from("1")));
    assert!(read_ok.is_ok());
    let del_ok = delete_table_row(&conn, "assets", "No.", &JsonVal::Str(String::from("1")));
    assert_eq!(del_ok.unwrap(), true);
}

#[test]
fn blob_round_trip_preserves_bytes() {
    let conn = open_mem();
    assets_table(&conn);
    add_new_column(&conn, "assets", "photo", ColumnType::Image).unwrap();
    conn.execute("INSERT INTO assets (\"No.\", name) VALUES ('1', 'cam')", []).unwrap();

    let bytes: Vec<u8> = vec![137, 80, 78, 71, 13, 10, 26, 10, 0, 255, 3];
    let encoded = base64::engine::general_purpose::STANDARD.encode(&bytes);
    let types = vec![(String::from("photo"), String::from("BLOB"))];
    update_table_row(
        &conn,
        "assets",
        "No.",
        &JsonVal::Str(String::from("1")),
        &vec![(String::from("photo"), JsonVal::Str(encoded))],
        &Some(types),
    )
    .unwrap();

    // Stored as a real blob, not as text.
    let stored_type: String = conn
        .query_row("SELECT typeof(photo) FROM assets WHERE \"No.\" = '1'", [], |r| r.get(0))
        .unwrap();
    assert_eq!(stored_type, "blob");

    let details = get_record_details(
        &conn,
        "assets",
        "No.",
        &JsonVal::Str(String::from("1")),
    )
    .unwrap();
    match record_value(&details.record, "photo") {
        JsonVal::Str(b64) => {
            let decoded = base64::engine::general_purpose::STANDARD.decode(&b64).unwrap();
            assert_eq!(decoded, bytes);
        }
        other => panic!("expected base64 text, got {:?}", other),
    }
}

#[test]
fn protected_columns_are_refused_case_insensitively() {
    let conn = open_mem();
    assets_table(&conn);
    for name in ["ID", "id", "Zona", "ZONA", "campus", "Campus"] {
        for kind in [ColumnType::Text, ColumnType::Image, ColumnType::DateTime] {
            let added = add_new_column(&conn, "assets", name, kind);
            assert!(matches!(added, Err(DbError::ProtectedColumn(_))));
        }
        let dropped = delete_column(&conn, "assets", name);
        assert!(matches!(dropped, Err(DbError::ProtectedColumn(_))));
    }
}

#[test]
fn duplicate_columns_are_refused_case_insensitively() {
    let conn = open_mem();
    assets_table(&conn);
    let added = add_new_column(&conn, "assets", "NAME", ColumnType::Text);
    assert!(matches!(added, Err(DbError::DuplicateColumn(_))));
    let dated = add_date_column(&conn, "assets", "Name");
    assert!(matches!(dated, Err(DbError::DuplicateColumn(_))));
}

#[test]
fn date_columns_are_added_and_defaulted() {
    let conn = open_mem();
    assets_table(&conn);
    add_new_column(&conn, "assets", "alta", ColumnType::DateTime).unwrap();
    assert!(check_column_exists(&conn, "assets", "alta").unwrap());

    let registro = NuevoRegistro {
        db_name: String::from("db"),
        table_name: String::from("assets"),
        id_column: String::from("No."),
        data: vec![(String::from("name"), JsonVal::Str(String::from("laptop")))],
    };
    crear_registro_con_auto_incremento(&conn, &registro, MissingFieldPolicy::EmptyString).unwrap();
    let details = get_record_details(
        &conn,
        "assets",
        "No.",
        &JsonVal::Str(String::from("1")),
    )
    .unwrap();
    match record_value(&details.record, "alta") {
        JsonVal::Str(ts) => assert!(!ts.is_empty()),
        other => panic!("expected a timestamp, got {:?}", other),
    }
}

#[test]
fn dropping_a_plain_column_works() {
    let conn = open_mem();
    assets_table(&conn);
    conn.execute("ALTER TABLE assets ADD COLUMN extra TEXT", []).unwrap();
    delete_column(&conn, "assets", "extra").unwrap();
    assert!(!check_column_exists(&conn, "assets", "extra").unwrap());
}

#[test]
fn table_management_round_trip() {
    let conn = open_mem();
    create_table(&conn, "inventario").unwrap();
    assert!(check_table_exists(&conn, "inventario").unwrap());
    let again = create_table(&conn, "inventario");
    assert!(matches!(again, Err(DbError::DuplicateTable(_))));

    let tables = list_tables(&conn).unwrap();
    assert_eq!(tables.len(), 1);
    assert_eq!(tables[0].name, "inventario");
    assert!(tables[0].image_path.is_none());

    delete_table(&conn, "inventario").unwrap();
    assert!(!check_table_exists(&conn, "inventario").unwrap());
}

#[test]
fn raw_sql_runs_with_text_parameters() {
    let conn = open_mem();
    assets_table(&conn);
    let params = ExecuteSqlParams {
        db_name: String::from("db"),
        sql: String::from("INSERT INTO assets (\"No.\", name) VALUES (?, ?)"),
        params: vec![String::from("9"), String::from("router")],
    };
    assert_eq!(execute_sql(&conn, &params).unwrap(), true);
    let details = get_record_details(&conn, "assets", "No.", &JsonVal::Str(String::from("9")))
        .unwrap();
    assert_eq!(record_value(&details.record, "name"), JsonVal::Str(String::from("router")));
}

#[test]
fn listing_orders_by_numeric_identifier() {
    let conn = open_mem();
    assets_table(&conn);
    conn.execute("INSERT INTO assets VALUES ('10', 'j')", []).unwrap();
    conn.execute("INSERT INTO assets VALUES ('2', 'b')", []).unwrap();
    conn.execute("INSERT INTO assets VALUES ('1', 'a')", []).unwrap();
    let table = consulta_tabla(&conn, "assets").unwrap();
    let ids: Vec<JsonVal> = table.rows.iter().map(|r| record_value(r, "No.")).collect();
    assert_eq!(
        ids,
        vec![
            JsonVal::Str(String::from("1")),
            JsonVal::Str(String::from("2")),
            JsonVal::Str(String::from("10"))
        ]
    );
    assert_eq!(table.columns, vec![String::from("No."), String::from("name")]);
}

#[test]
fn fixed_identifier_create_inserts_payload_columns_only() {
    let conn = open_mem();
    assets_table(&conn);
    conn.execute("ALTER TABLE assets ADD COLUMN extra TEXT", []).unwrap();
    let data = vec![(String::from("name"), JsonVal::Str(String::from("laptop")))];
    assert_eq!(
        crear_registro_con_auto_incremento_no(&conn, "assets", &data, &None).unwrap(),
        true
    );
    let details = get_record_details(&conn, "assets", "No.", &JsonVal::Str(String::from("1")))
        .unwrap();
    assert_eq!(record_value(&details.record, "name"), JsonVal::Str(String::from("laptop")));
    // The untouched column keeps the engine's own default, not the empty string.
    assert_eq!(record_value(&details.record, "extra"), JsonVal::Null);
}

#[test]
fn database_file_resolution_prefers_db_extension() {
    assert_eq!(resolve_db_file("/data", "alma", true, true).unwrap(), "/data/alma.db");
    assert_eq!(resolve_db_file("/data", "alma", false, true).unwrap(), "/data/alma.sqlite");
    let missing = resolve_db_file("/data", "alma", false, false);
    assert!(matches!(missing, Err(DbError::DatabaseNotFound(_))));
    match missing {
        Err(e) => assert_eq!(e.message(), "Base de datos no encontrada: alma"),
        Ok(_) => unreachable!(),
    }
}

#[test]
fn unusable_record_keys_are_rejected() {
    let conn = open_mem();
    assets_table(&conn);
    let r = get_record_details(&conn, "assets", "No.", &JsonVal::Null);
    assert!(matches!(r, Err(DbError::UnsupportedValue(_))));
    let r2 = get_record_details(&conn, "assets", "No.", &JsonVal::Bool(true));
    assert!(matches!(r2, Err(DbError::UnsupportedValue(_))));
}

#[test]
fn dropping_a_missing_column_reports_engine_feature_error() {
    let conn = open_mem();
    assets_table(&conn);
    let r = delete_column(&conn, "assets", "nada");
    assert!(matches!(r, Err(DbError::UnsupportedEngineFeature(_))));
}

#[test]
fn malformed_raw_sql_is_an_execution_error() {
    let conn = open_mem();
    let params = ExecuteSqlParams {
        db_name: String::from("db"),
        sql: String::from("INSERT INTO missing_table VALUES (?)"),
        params: vec![String::from("x")],
    };
    let r = execute_sql(&conn, &params);
    assert!(matches!(r, Err(DbError::SqlExecution(_))));
}

#[test]
fn real_values_are_stored_as_machine_reals() {
    let conn = open_mem();
    conn.execute("CREATE TABLE medidas (id TEXT, valor REAL)", []).unwrap();
    conn.execute("INSERT INTO medidas (id) VALUES ('1')", []).unwrap();
    update_table_row(
        &conn,
        "medidas",
        "id",
        &JsonVal::Str(String::from("1")),
        &vec![(String::from("valor"), JsonVal::Real(String::from("1.5")))],
        &None,
    )
    .unwrap();
    let stored_type: String = conn
        .query_row("SELECT typeof(valor) FROM medidas WHERE id = '1'", [], |r| r.get(0))
        .unwrap();
    assert_eq!(stored_type, "real");
    let details = get_record_details(&conn, "medidas", "id", &JsonVal::Str(String::from("1")))
        .unwrap();
    assert_eq!(record_value(&details.record, "valor"), JsonVal::Real(String::from("1.5")));
}

#[test]
fn allocator_handles_values_near_the_integer_bound() {
    assert_eq!(almacen::allocator::next_candidate(&vec![i64::MAX - 1]), i64::MAX);
}

#[test]
fn listing_a_missing_table_is_a_schema_error() {
    let conn = open_mem();
    let r = consulta_tabla(&conn, "nada");
    assert!(matches!(r, Err(DbError::Schema(_))));
}

#[test]
fn column_check_on_missing_table_is_a_schema_error() {
    let conn = open_mem();
    let r = check_column_exists(&conn, "nada", "x");
    assert!(matches!(r, Err(DbError::Schema(_))));
}
