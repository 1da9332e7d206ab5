use rovs::ovsdb::client::{
    database_names, monitor_cancel_params, monitor_reply_data_of, process_notification,
    run_notification, transact_params, wait_step, ClientConfig, MonitorVersion, WaitAction,
};
use rovs::ovsdb::error::Error as OvsdbError;
use rovs::ovsdb::idl::{Idl, IdlState};
use rovs::ovsdb::json::Json;
use rovs::ovsdb::row::Row;
use rovs::ovsdb::schema::{ColumnSchema, ColumnType, DbSchema, TableSchema};
use rovs::ovsdb::uuid::Uuid;

fn s(x: &str) -> Json {
    Json::Str(x.to_owned())
}

fn obj(members: Vec<(&str, Json)>) -> Json {
    Json::Object(members.into_iter().map(|(k, v)| (k.to_owned(), v)).collect())
}

fn arr(items: Vec<Json>) -> Json {
    Json::Array(items)
}

fn random_uuid() -> Uuid {
    Uuid::from_u128(uuid::Uuid::new_v4().as_u128())
}

const U1: &str = "11111111-1111-1111-1111-111111111111";
const U2: &str = "22222222-2222-2222-2222-222222222222";

#[test]
fn new_row_has_uuid() {
    let uuid = random_uuid();
    let row = Row::new(uuid);
    assert_eq!(row.uuid, uuid);
    assert!(!row.modified);
    assert!(row.columns().is_empty());
}

#[test]
fn get_string() {
    let mut row = Row::new(random_uuid());
    row.set("name", s("br0"));
    assert_eq!(row.get_string("name"), Some("br0"));
    assert_eq!(row.get_string("missing"), None);
    row.set("tag", Json::UInt(100));
    assert_eq!(row.get_string("tag"), None);
}

#[test]
fn get_i64() {
    let mut row = Row::new(random_uuid());
    row.set("tag", Json::UInt(100));
    row.set("ofport", Json::Int(-1));
    assert_eq!(row.get_i64("tag"), Some(100));
    assert_eq!(row.get_i64("ofport"), Some(-1));
    assert_eq!(row.get_i64("missing"), None);
}

#[test]
fn get_bool() {
    let mut row = Row::new(random_uuid());
    row.set("enabled", Json::Bool(true));
    row.set("disabled", Json::Bool(false));
    assert_eq!(row.get_bool("enabled"), Some(true));
    assert_eq!(row.get_bool("disabled"), Some(false));
    assert_eq!(row.get_bool("missing"), None);
}

#[test]
fn set_marks_modified() {
    let mut row = Row::new(random_uuid());
    assert!(!row.modified);
    row.set("name", s("br0"));
    assert!(row.modified);
    assert_eq!(row.get_string("name"), Some("br0"));
}

#[test]
fn update_merges_columns() {
    let mut row = Row::new(random_uuid());
    row.set("name", s("br0"));
    row.set("fail_mode", s("standalone"));
    row.modified = false;
    let updates = vec![("fail_mode".to_owned(), s("secure")), ("new_field".to_owned(), s("value"))];
    row.update(&updates);
    assert!(row.modified);
    assert_eq!(row.get_string("name"), Some("br0"));
    assert_eq!(row.get_string("fail_mode"), Some("secure"));
    assert_eq!(row.get_string("new_field"), Some("value"));
}

#[test]
fn get_returns_raw_value() {
    let mut row = Row::new(random_uuid());
    row.set("complex", obj(vec![("nested", s("value"))]));
    let val = row.get("complex");
    assert!(val.is_some());
    assert_eq!(val.unwrap().get("nested"), Some(&s("value")));
}

#[test]
fn set_replaces_existing_column() {
    let mut row = Row::new(random_uuid());
    row.set("name", s("a"));
    row.set("name", s("b"));
    assert_eq!(row.columns().len(), 1);
    assert_eq!(row.get_string("name"), Some("b"));
}

#[test]
fn new_idl_has_initial_state() {
    let idl = Idl::new();
    assert_eq!(idl.state(), IdlState::Initial);
    assert_eq!(idl.change_seqno(), 0);
    assert!(idl.schema().is_none());
}

#[test]
fn process_update_insert() {
    let mut idl = Idl::new();
    idl.add_table("Bridge");
    let update = obj(vec![(
        "Bridge",
        obj(vec![(U1, obj(vec![("new", obj(vec![("name", s("br0")), ("ports", arr(vec![s("set"), arr(vec![])]))]))]))]),
    )]);
    idl.process_update(&update);
    assert_eq!(idl.change_seqno(), 1);
    let rows = idl.rows("Bridge");
    assert_eq!(rows.len(), 1);
    assert_eq!(rows[0].get_string("name"), Some("br0"));
}

#[test]
fn process_update_delete() {
    let mut idl = Idl::new();
    idl.add_table("Bridge");
    let insert = obj(vec![("Bridge", obj(vec![(U1, obj(vec![("new", obj(vec![("name", s("br0"))]))]))]))]);
    idl.process_update(&insert);
    assert_eq!(idl.rows("Bridge").len(), 1);
    let delete = obj(vec![("Bridge", obj(vec![(U1, obj(vec![("old", obj(vec![("name", s("br0"))]))]))]))]);
    idl.process_update(&delete);
    assert_eq!(idl.rows("Bridge").len(), 0);
    assert_eq!(idl.change_seqno(), 2);
}

#[test]
fn process_update_modify() {
    let mut idl = Idl::new();
    idl.add_table("Bridge");
    let insert = obj(vec![(
        "Bridge",
        obj(vec![(U1, obj(vec![("new", obj(vec![("name", s("br0")), ("fail_mode", s("standalone"))]))]))]),
    )]);
    idl.process_update(&insert);
    let modify = obj(vec![(
        "Bridge",
        obj(vec![(
            U1,
            obj(vec![
                ("old", obj(vec![("fail_mode", s("standalone"))])),
                ("new", obj(vec![("name", s("br0")), ("fail_mode", s("secure"))])),
            ]),
        )]),
    )]);
    idl.process_update(&modify);
    let rows = idl.rows("Bridge");
    assert_eq!(rows.len(), 1);
    assert_eq!(rows[0].get_string("fail_mode"), Some("secure"));
}

#[test]
fn process_multiple_tables() {
    let mut idl = Idl::new();
    idl.add_table("Bridge");
    idl.add_table("Port");
    let update = obj(vec![
        ("Bridge", obj(vec![(U1, obj(vec![("new", obj(vec![("name", s("br0"))]))]))])),
        ("Port", obj(vec![(U2, obj(vec![("new", obj(vec![("name", s("br0"))]))]))])),
    ]);
    idl.process_update(&update);
    assert_eq!(idl.rows("Bridge").len(), 1);
    assert_eq!(idl.rows("Port").len(), 1);
    assert_eq!(idl.change_seqno(), 1);
}

#[test]
fn row_lookup_by_uuid() {
    let mut idl = Idl::new();
    idl.add_table("Bridge");
    let uuid = Uuid::parse(U1).unwrap();
    let update = obj(vec![("Bridge", obj(vec![(U1, obj(vec![("new", obj(vec![("name", s("br0"))]))]))]))]);
    idl.process_update(&update);
    let row = idl.row("Bridge", &uuid);
    assert!(row.is_some());
    assert_eq!(row.unwrap().get_string("name"), Some("br0"));
    let missing_uuid = Uuid::parse("99999999-9999-9999-9999-999999999999").unwrap();
    assert!(idl.row("Bridge", &missing_uuid).is_none());
}

#[test]
fn state_transitions() {
    let mut idl = Idl::new();
    assert_eq!(idl.state(), IdlState::Initial);
    let schema = DbSchema { name: "Open_vSwitch".to_string(), version: "8.0.0".to_string(), tables: Vec::new() };
    idl.set_schema(schema);
    assert_eq!(idl.state(), IdlState::MonitorRequested);
    idl.set_monitoring();
    assert_eq!(idl.state(), IdlState::Monitoring);
    assert!(idl.is_monitoring());
}

#[test]
fn rows_empty_table() {
    let idl = Idl::new();
    assert_eq!(idl.rows("NonExistent").len(), 0);
}

#[test]
fn update_creates_missing_table_and_skips_bad_uuids() {
    let mut idl = Idl::new();
    let update = obj(vec![(
        "Interface",
        obj(vec![
            ("not-a-uuid", obj(vec![("new", obj(vec![("name", s("x"))]))])),
            (U2, obj(vec![("new", obj(vec![("name", s("eth0"))]))])),
        ]),
    )]);
    idl.process_update(&update);
    let rows = idl.rows("Interface");
    assert_eq!(rows.len(), 1);
    assert!(rows[0].modified);
    assert_eq!(rows[0].uuid, Uuid::parse(U2).unwrap());
}

#[test]
fn non_object_update_only_advances_seqno() {
    let mut idl = Idl::new();
    idl.process_update(&arr(vec![]));
    assert_eq!(idl.change_seqno(), 1);
    assert_eq!(idl.rows("Bridge").len(), 0);
}

#[test]
fn set_schema_empties_schema_tables() {
    let mut idl = Idl::new();
    idl.process_update(&obj(vec![("Bridge", obj(vec![(U1, obj(vec![("new", obj(vec![]))]))]))]));
    assert_eq!(idl.rows("Bridge").len(), 1);
    let table = TableSchema { columns: Vec::new(), max_rows: None, is_root: true, indexes: Vec::new() };
    let schema = DbSchema { name: "db".to_owned(), version: "1".to_owned(), tables: vec![("Bridge".to_owned(), table)] };
    idl.set_schema(schema);
    assert_eq!(idl.rows("Bridge").len(), 0);
    assert!(idl.schema().is_some());
}

fn sample_schema() -> DbSchema {
    let column = ColumnSchema { col_type: ColumnType::Atomic("string".to_owned()), mutable: true, ephemeral: false };
    let bridge = TableSchema {
        columns: vec![("name".to_owned(), column)],
        max_rows: None,
        is_root: true,
        indexes: Vec::new(),
    };
    DbSchema { name: "Open_vSwitch".to_owned(), version: "8.0.0".to_owned(), tables: vec![("Bridge".to_owned(), bridge)] }
}

#[test]
fn schema_table_and_column_lookup() {
    let schema = sample_schema();
    let table = schema.table("Bridge").unwrap();
    assert!(table.column("name").unwrap().mutable);
    assert!(table.column("missing").is_none());
    assert!(schema.table("Port").is_none());
}

#[test]
fn client_config_builders() {
    let c = ClientConfig::open_vswitch();
    assert_eq!(c.database, "Open_vSwitch");
    assert!(c.tables.is_none());
    assert_eq!(c.monitor_version, MonitorVersion::V1);
    assert!(!c.leader_only);
    let c = c.database("OVN").tables(vec!["Bridge".to_owned()]).monitor_version(MonitorVersion::V3);
    assert_eq!(c.database, "OVN");
    assert_eq!(c.tables, Some(vec!["Bridge".to_owned()]));
    assert_eq!(c.monitor_version, MonitorVersion::V3);
}

#[test]
fn monitor_request_by_version() {
    let schema = sample_schema();
    let id = Uuid::from_u128(1);
    let (method, params) = ClientConfig::open_vswitch().monitor_request(&schema, id);
    assert_eq!(method, "monitor");
    assert_eq!(
        params,
        arr(vec![
            s("Open_vSwitch"),
            s("00000000-0000-0000-0000-000000000001"),
            obj(vec![("Bridge", obj(vec![("columns", arr(vec![s("name")]))]))]),
        ])
    );
    let (method, params) = ClientConfig::open_vswitch()
        .monitor_version(MonitorVersion::V3)
        .tables(vec!["Port".to_owned(), "Bridge".to_owned()])
        .monitor_request(&schema, id);
    assert_eq!(method, "monitor_cond_since");
    assert_eq!(params.at(2), Some(&obj(vec![("Bridge", obj(vec![("columns", arr(vec![s("name")]))]))])));
    assert_eq!(params.at(3), Some(&s("00000000-0000-0000-0000-000000000000")));
    let (method, _) = ClientConfig::open_vswitch().monitor_version(MonitorVersion::V2).monitor_request(&schema, id);
    assert_eq!(method, "monitor_cond");
}

#[test]
fn monitor_reply_part_by_version() {
    let data = obj(vec![("Bridge", obj(vec![]))]);
    let v3 = arr(vec![Json::Bool(false), s(U1), data.clone()]);
    assert_eq!(monitor_reply_data_of(MonitorVersion::V3, &v3), &data);
    assert_eq!(monitor_reply_data_of(MonitorVersion::V1, &v3), &v3);
    assert_eq!(monitor_reply_data_of(MonitorVersion::V2, &data), &data);
}

#[test]
fn notifications_apply_updates() {
    let mut idl = Idl::new();
    let params = arr(vec![s("id"), obj(vec![("Bridge", obj(vec![(U1, obj(vec![("new", obj(vec![]))]))]))])]);
    assert_eq!(process_notification(&mut idl, "update2", &params), Some(true));
    assert_eq!(idl.change_seqno(), 1);
    assert_eq!(process_notification(&mut idl, "update", &arr(vec![s("id")])), Some(false));
    assert_eq!(process_notification(&mut idl, "echo", &arr(vec![])), Some(false));
    assert_eq!(process_notification(&mut idl, "locked", &arr(vec![])), None);
    assert_eq!(idl.change_seqno(), 1);
    assert!(run_notification(&mut idl, "update3", &params));
    assert!(!run_notification(&mut idl, "echo", &params));
    assert_eq!(idl.change_seqno(), 2);
    assert_eq!(wait_step(&mut idl, "echo", &params), WaitAction::EchoReply);
    assert_eq!(wait_step(&mut idl, "update", &params), WaitAction::Updated);
    assert_eq!(wait_step(&mut idl, "other", &params), WaitAction::Continue);
    assert_eq!(idl.change_seqno(), 3);
}

#[test]
fn request_parameters() {
    assert_eq!(transact_params("db", arr(vec![s("op")])), arr(vec![s("db"), s("op")]));
    assert_eq!(transact_params("db", obj(vec![])), arr(vec![s("db"), obj(vec![])]));
    assert_eq!(ClientConfig::open_vswitch().schema_params(), arr(vec![s("Open_vSwitch")]));
    assert_eq!(monitor_cancel_params(Uuid::from_u128(2)), arr(vec![s("00000000-0000-0000-0000-000000000002")]));
    assert_eq!(database_names(&arr(vec![s("a"), Json::UInt(1), s("b")])), vec!["a".to_owned(), "b".to_owned()]);
    assert!(database_names(&obj(vec![])).is_empty());
}

#[test]
fn monitor_request_for_needs_a_loaded_schema() {
    let config = ClientConfig::open_vswitch();
    let id = Uuid::from_u128(1);
    let mut idl = Idl::new();
    match config.monitor_request_for(&idl, id) {
        Err(OvsdbError::Schema(m)) => assert_eq!(m, "schema not loaded"),
        _ => panic!("expected a schema error"),
    }
    idl.set_schema(sample_schema());
    let (method, params) = config.monitor_request_for(&idl, id).unwrap();
    let (method2, params2) = config.monitor_request(&sample_schema(), id);
    assert_eq!(method, method2);
    assert_eq!(params, params2);
}
