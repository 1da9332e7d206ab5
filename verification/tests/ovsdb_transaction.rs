use rovs::ovsdb::client::commit_params;
use rovs::ovsdb::json::Json;
use rovs::ovsdb::transaction::{RowRef, Transaction, TransactionStatus};
use rovs::ovsdb::uuid::Uuid;

fn s(x: &str) -> Json {
    Json::Str(x.to_owned())
}

fn obj(members: Vec<(&str, Json)>) -> Json {
    Json::Object(members.into_iter().map(|(k, v)| (k.to_owned(), v)).collect())
}

fn arr(items: Vec<Json>) -> Json {
    Json::Array(items)
}

fn random_uuid() -> Uuid {
    Uuid::from_u128(uuid::Uuid::new_v4().as_u128())
}

fn field<'a>(j: &'a Json, key: &str) -> &'a Json {
    j.get(key).unwrap()
}

fn item(j: &Json, i: usize) -> &Json {
    j.at(i).unwrap()
}

fn is_named(r: &RowRef, name: &str) -> bool {
    matches!(r, RowRef::Named(n) if n == name)
}

#[test]
fn insert_generates_correct_json() {
    let mut txn = Transaction::new("Open_vSwitch");
    let row_ref = txn.insert("Bridge", obj(vec![("name", s("br0"))]));
    assert!(is_named(&row_ref, "row0"));
    assert_eq!(txn.operations().len(), 1);
    let op = &txn.operations()[0];
    assert_eq!(field(op, "op"), &s("insert"));
    assert_eq!(field(op, "table"), &s("Bridge"));
    assert_eq!(field(op, "uuid-name"), &s("row0"));
    assert_eq!(field(field(op, "row"), "name"), &s("br0"));
}

#[test]
fn insert_increments_uuid_counter() {
    let mut txn = Transaction::new("Open_vSwitch");
    let ref1 = txn.insert("Interface", obj(vec![("name", s("eth0"))]));
    let ref2 = txn.insert("Port", obj(vec![("name", s("eth0"))]));
    let ref3 = txn.insert("Bridge", obj(vec![("name", s("br0"))]));
    assert!(is_named(&ref1, "row0"));
    assert!(is_named(&ref2, "row1"));
    assert!(is_named(&ref3, "row2"));
}

#[test]
fn update_generates_correct_where_clause() {
    let mut txn = Transaction::new("Open_vSwitch");
    let uuid = random_uuid();
    txn.update("Bridge", uuid, obj(vec![("fail_mode", s("secure"))]));
    let op = &txn.operations()[0];
    assert_eq!(field(op, "op"), &s("update"));
    assert_eq!(field(op, "table"), &s("Bridge"));
    assert_eq!(item(item(field(op, "where"), 0), 0), &s("_uuid"));
    assert_eq!(item(item(field(op, "where"), 0), 1), &s("=="));
    assert_eq!(field(field(op, "row"), "fail_mode"), &s("secure"));
}

#[test]
fn delete_generates_correct_json() {
    let mut txn = Transaction::new("Open_vSwitch");
    let uuid = random_uuid();
    txn.delete("Bridge", uuid);
    let op = &txn.operations()[0];
    assert_eq!(field(op, "op"), &s("delete"));
    assert_eq!(field(op, "table"), &s("Bridge"));
    assert_eq!(item(item(field(op, "where"), 0), 0), &s("_uuid"));
}

#[test]
fn delete_by_name_uses_name_condition() {
    let mut txn = Transaction::new("Open_vSwitch");
    txn.delete_by_name("Bridge", "br0");
    let op = &txn.operations()[0];
    assert_eq!(field(op, "op"), &s("delete"));
    assert_eq!(item(item(field(op, "where"), 0), 0), &s("name"));
    assert_eq!(item(item(field(op, "where"), 0), 1), &s("=="));
    assert_eq!(item(item(field(op, "where"), 0), 2), &s("br0"));
}

#[test]
fn mutate_generates_correct_mutations() {
    let mut txn = Transaction::new("Open_vSwitch");
    let uuid = random_uuid();
    txn.mutate("Bridge", uuid, vec![arr(vec![s("ports"), s("insert"), arr(vec![s("named-uuid"), s("row0")])])]);
    let op = &txn.operations()[0];
    assert_eq!(field(op, "op"), &s("mutate"));
    assert_eq!(field(op, "table"), &s("Bridge"));
    assert_eq!(item(item(field(op, "mutations"), 0), 0), &s("ports"));
    assert_eq!(item(item(field(op, "mutations"), 0), 1), &s("insert"));
}

#[test]
fn mutate_where_with_empty_condition() {
    let mut txn = Transaction::new("Open_vSwitch");
    txn.mutate_where(
        "Open_vSwitch",
        arr(vec![]),
        vec![arr(vec![s("bridges"), s("insert"), arr(vec![s("named-uuid"), s("row0")])])],
    );
    let op = &txn.operations()[0];
    assert_eq!(field(op, "where"), &arr(vec![]));
}

#[test]
fn build_prepends_database_name() {
    let mut txn = Transaction::new("Open_vSwitch");
    txn.insert("Bridge", obj(vec![("name", s("br0"))]));
    let params = txn.build();
    let list = params.as_array().unwrap();
    assert_eq!(list[0], s("Open_vSwitch"));
    assert_eq!(field(&list[1], "op"), &s("insert"));
}

#[test]
fn row_ref_to_json() {
    let named = RowRef::Named("row0".to_string());
    assert_eq!(named.to_json(), arr(vec![s("named-uuid"), s("row0")]));
    let uuid = Uuid::nil();
    let uuid_ref = RowRef::Uuid(uuid);
    assert_eq!(uuid_ref.to_json(), arr(vec![s("uuid"), Json::Str(uuid.to_string())]));
}

#[test]
fn process_result_extracts_uuids() {
    let mut txn = Transaction::new("Open_vSwitch");
    txn.insert("Interface", obj(vec![("name", s("eth0"))]));
    txn.insert("Port", obj(vec![("name", s("eth0"))]));
    let result = arr(vec![
        obj(vec![("uuid", arr(vec![s("uuid"), s("11111111-1111-1111-1111-111111111111")]))]),
        obj(vec![("uuid", arr(vec![s("uuid"), s("22222222-2222-2222-2222-222222222222")]))]),
    ]);
    let success = txn.process_result(&result);
    assert!(success);
    assert_eq!(txn.status(), TransactionStatus::Success);
    assert!(txn.get_uuid("row0").is_some());
    assert!(txn.get_uuid("row1").is_some());
}

#[test]
fn process_result_detects_errors() {
    let mut txn = Transaction::new("Open_vSwitch");
    txn.insert("Bridge", obj(vec![("name", s("br0"))]));
    let result = arr(vec![obj(vec![("error", s("constraint violation")), ("details", s("duplicate key"))])]);
    let success = txn.process_result(&result);
    assert!(!success);
    assert_eq!(txn.status(), TransactionStatus::Error);
}

#[test]
fn create_bridge_generates_four_operations() {
    let mut txn = Transaction::new("Open_vSwitch");
    let (bridge_ref, port_ref, iface_ref) = txn.create_bridge("br0");
    assert_eq!(txn.operations().len(), 4);
    assert!(is_named(&iface_ref, "row0"));
    assert!(is_named(&port_ref, "row1"));
    assert!(is_named(&bridge_ref, "row2"));
    let ops = txn.operations();
    assert_eq!(field(&ops[0], "table"), &s("Interface"));
    assert_eq!(field(field(&ops[0], "row"), "name"), &s("br0"));
    assert_eq!(field(field(&ops[0], "row"), "type"), &s("internal"));
    assert_eq!(field(&ops[1], "table"), &s("Port"));
    assert_eq!(field(field(&ops[1], "row"), "interfaces"), &arr(vec![s("named-uuid"), s("row0")]));
    assert_eq!(field(&ops[2], "table"), &s("Bridge"));
    assert_eq!(field(field(&ops[2], "row"), "ports"), &arr(vec![s("named-uuid"), s("row1")]));
    assert_eq!(field(&ops[3], "op"), &s("mutate"));
    assert_eq!(field(&ops[3], "table"), &s("Open_vSwitch"));
}

#[test]
fn add_vlan_port_sets_tag() {
    let mut txn = Transaction::new("Open_vSwitch");
    txn.add_vlan_port("br0", "vlan100", 100);
    assert_eq!(txn.operations().len(), 3);
    let port_op = &txn.operations()[1];
    assert_eq!(field(field(port_op, "row"), "tag"), &Json::UInt(100));
}

#[test]
fn add_patch_ports_creates_peer_options() {
    let mut txn = Transaction::new("Open_vSwitch");
    txn.add_patch_ports("br-int", "br-ext", None, None);
    assert_eq!(txn.operations().len(), 6);
    let iface1 = &txn.operations()[0];
    assert_eq!(field(field(iface1, "row"), "type"), &s("patch"));
    assert_eq!(
        field(field(iface1, "row"), "options"),
        &arr(vec![s("map"), arr(vec![arr(vec![s("peer"), s("patch-br-ext-to-br-int")])])])
    );
    let iface2 = &txn.operations()[3];
    assert_eq!(
        field(field(iface2, "row"), "options"),
        &arr(vec![s("map"), arr(vec![arr(vec![s("peer"), s("patch-br-int-to-br-ext")])])])
    );
}

#[test]
fn is_empty_reflects_operations() {
    let mut txn = Transaction::new("Open_vSwitch");
    assert!(txn.is_empty());
    txn.insert("Bridge", obj(vec![("name", s("br0"))]));
    assert!(!txn.is_empty());
}

#[test]
fn comment_adds_comment_operation() {
    let mut txn = Transaction::new("Open_vSwitch");
    txn.comment("Test transaction");
    assert_eq!(field(&txn.operations()[0], "op"), &s("comment"));
    assert_eq!(field(&txn.operations()[0], "comment"), &s("Test transaction"));
}

#[test]
fn add_system_port_uses_system_type() {
    let mut txn = Transaction::new("Open_vSwitch");
    txn.add_system_port("br0", "eth0");
    assert_eq!(txn.operations().len(), 3);
    let iface_op = &txn.operations()[0];
    assert_eq!(field(field(iface_op, "row"), "type"), &s("system"));
    assert_eq!(field(field(iface_op, "row"), "name"), &s("eth0"));
}

#[test]
fn add_trunk_patch_ports_single_vlan() {
    let mut txn = Transaction::new("Open_vSwitch");
    txn.add_trunk_patch_ports("br-int", "br-ext", &[100], None, None);
    assert_eq!(txn.operations().len(), 6);
    let port1 = &txn.operations()[1];
    assert_eq!(field(field(port1, "row"), "vlan_mode"), &s("trunk"));
    assert_eq!(field(field(port1, "row"), "trunks"), &Json::UInt(100));
    let port2 = &txn.operations()[4];
    assert_eq!(field(field(port2, "row"), "vlan_mode"), &s("trunk"));
    assert_eq!(field(field(port2, "row"), "trunks"), &Json::UInt(100));
}

#[test]
fn add_trunk_patch_ports_multiple_vlans() {
    let mut txn = Transaction::new("Open_vSwitch");
    txn.add_trunk_patch_ports("br-int", "br-ext", &[100, 200, 300], None, None);
    let port1 = &txn.operations()[1];
    assert_eq!(field(field(port1, "row"), "vlan_mode"), &s("trunk"));
    assert_eq!(
        field(field(port1, "row"), "trunks"),
        &arr(vec![s("set"), arr(vec![Json::UInt(100), Json::UInt(200), Json::UInt(300)])])
    );
}

#[test]
fn process_result_maps_each_insert_to_its_uuid() {
    let mut txn = Transaction::new("Open_vSwitch");
    txn.insert("Interface", obj(vec![("name", s("eth0"))]));
    txn.comment("between");
    txn.insert("Port", obj(vec![("name", s("eth0"))]));
    let result = arr(vec![
        obj(vec![("uuid", arr(vec![s("uuid"), s("11111111-1111-1111-1111-111111111111")]))]),
        obj(vec![]),
        obj(vec![("uuid", arr(vec![s("uuid"), s("22222222-2222-2222-2222-222222222222")]))]),
    ]);
    assert!(txn.process_result(&result));
    assert_eq!(txn.get_uuid("row0"), Some(Uuid::from_u128(0x11111111_1111_1111_1111_111111111111)));
    assert_eq!(txn.get_uuid("row1"), Some(Uuid::from_u128(0x22222222_2222_2222_2222_222222222222)));
    assert_eq!(txn.get_uuid("row2"), None);
    assert_eq!(txn.uuid_map().len(), 2);
}

#[test]
fn process_result_keys_insert_after_mutate_by_its_own_name() {
    let mut txn = Transaction::new("Open_vSwitch");
    txn.mutate_where("Open_vSwitch", arr(vec![]), vec![]);
    let r = txn.insert("Bridge", obj(vec![("name", s("br0"))]));
    assert!(is_named(&r, "row0"));
    let result = arr(vec![
        obj(vec![("count", Json::UInt(1))]),
        obj(vec![("uuid", arr(vec![s("uuid"), s("11111111-1111-1111-1111-111111111111")]))]),
    ]);
    assert!(txn.process_result(&result));
    assert_eq!(txn.get_uuid("row0"), Some(Uuid::from_u128(0x11111111_1111_1111_1111_111111111111)));
    assert_eq!(txn.get_uuid("row1"), None);
}

#[test]
fn process_result_ignores_uuid_answering_no_insert() {
    let mut txn = Transaction::new("Open_vSwitch");
    txn.comment("only a comment");
    let result = arr(vec![
        obj(vec![("uuid", arr(vec![s("uuid"), s("11111111-1111-1111-1111-111111111111")]))]),
        obj(vec![("uuid", arr(vec![s("uuid"), s("22222222-2222-2222-2222-222222222222")]))]),
    ]);
    assert!(txn.process_result(&result));
    assert_eq!(txn.uuid_map().len(), 0);
    assert_eq!(txn.get_uuid("row0"), None);
}

#[test]
fn process_result_stops_at_first_error() {
    let mut txn = Transaction::new("Open_vSwitch");
    txn.insert("Interface", obj(vec![("name", s("a"))]));
    txn.insert("Interface", obj(vec![("name", s("b"))]));
    txn.insert("Interface", obj(vec![("name", s("c"))]));
    let result = arr(vec![
        obj(vec![("uuid", arr(vec![s("uuid"), s("11111111-1111-1111-1111-111111111111")]))]),
        obj(vec![("error", s("constraint violation"))]),
        obj(vec![("uuid", arr(vec![s("uuid"), s("22222222-2222-2222-2222-222222222222")]))]),
    ]);
    assert!(!txn.process_result(&result));
    assert_eq!(txn.status(), TransactionStatus::Error);
    assert_eq!(txn.get_uuid("row0"), Some(Uuid::from_u128(0x11111111_1111_1111_1111_111111111111)));
    assert!(txn.get_uuid("row1").is_none());
    assert!(txn.get_uuid("row2").is_none());
}

#[test]
fn process_result_null_error_is_success_and_non_array_fails() {
    let mut txn = Transaction::new("Open_vSwitch");
    assert!(txn.process_result(&arr(vec![obj(vec![("error", Json::Null)])])));
    assert_eq!(txn.status(), TransactionStatus::Success);
    let mut txn2 = Transaction::new("Open_vSwitch");
    assert!(!txn2.process_result(&obj(vec![])));
    assert_eq!(txn2.status(), TransactionStatus::Error);
}

#[test]
fn process_result_skips_unparsable_uuid() {
    let mut txn = Transaction::new("Open_vSwitch");
    txn.insert("Bridge", obj(vec![("name", s("br0"))]));
    let result = arr(vec![obj(vec![("uuid", arr(vec![s("uuid"), s("not-a-uuid")]))])]);
    assert!(txn.process_result(&result));
    assert!(txn.get_uuid("row0").is_none());
}

#[test]
fn status_setters() {
    let mut txn = Transaction::new("db");
    assert_eq!(txn.status(), TransactionStatus::Uncommitted);
    assert_eq!(txn.db_name(), "db");
    txn.set_try_again();
    assert_eq!(txn.status(), TransactionStatus::TryAgain);
    txn.abort();
    assert_eq!(txn.status(), TransactionStatus::Aborted);
    txn.set_error();
    assert_eq!(txn.status(), TransactionStatus::Error);
    txn.set_success();
    assert_eq!(txn.status(), TransactionStatus::Success);
}

#[test]
fn delete_bridge_uuid_orders_operations() {
    let mut txn = Transaction::new("Open_vSwitch");
    let bridge = Uuid::from_u128(1);
    let ports = [Uuid::from_u128(2), Uuid::from_u128(3)];
    let ifaces = [Uuid::from_u128(4)];
    txn.delete_bridge_uuid(bridge, &ports, &ifaces);
    let ops = txn.operations();
    assert_eq!(ops.len(), 5);
    assert_eq!(field(&ops[0], "op"), &s("mutate"));
    assert_eq!(
        item(item(field(&ops[0], "mutations"), 0), 2),
        &arr(vec![s("set"), arr(vec![arr(vec![s("uuid"), s("00000000-0000-0000-0000-000000000001")])])])
    );
    assert_eq!(field(&ops[1], "table"), &s("Interface"));
    assert_eq!(field(&ops[2], "table"), &s("Port"));
    assert_eq!(field(&ops[3], "table"), &s("Port"));
    assert_eq!(field(&ops[4], "table"), &s("Bridge"));
}

#[test]
fn delete_port_and_bridge_by_name() {
    let mut txn = Transaction::new("Open_vSwitch");
    txn.delete_port("br0", "p1");
    txn.delete_bridge("br0");
    let ops = txn.operations();
    assert_eq!(ops.len(), 5);
    assert_eq!(field(&ops[0], "table"), &s("Interface"));
    assert_eq!(field(&ops[1], "table"), &s("Port"));
    assert_eq!(field(&ops[4], "table"), &s("Bridge"));
    assert_eq!(item(item(field(&ops[4], "where"), 0), 2), &s("br0"));
}

#[test]
fn delete_port_uuid_operations() {
    let mut txn = Transaction::new("Open_vSwitch");
    txn.delete_port_uuid(Uuid::from_u128(1), Uuid::from_u128(2), Uuid::from_u128(3));
    let ops = txn.operations();
    assert_eq!(ops.len(), 3);
    assert_eq!(field(&ops[0], "table"), &s("Bridge"));
    assert_eq!(item(item(field(&ops[0], "mutations"), 0), 1), &s("delete"));
    assert_eq!(field(&ops[1], "table"), &s("Interface"));
    assert_eq!(field(&ops[2], "table"), &s("Port"));
}

#[test]
fn wait_operation_shape() {
    let mut txn = Transaction::new("Open_vSwitch");
    txn.wait("Bridge", vec!["name".to_owned()], arr(vec![]), arr(vec![obj(vec![("name", s("br0"))])]));
    let op = &txn.operations()[0];
    assert_eq!(field(op, "op"), &s("wait"));
    assert_eq!(field(op, "columns"), &arr(vec![s("name")]));
    assert_eq!(field(op, "until"), &s("=="));
    assert_eq!(field(op, "timeout"), &Json::UInt(0));
}

#[test]
fn add_patch_ports_with_given_names() {
    let mut txn = Transaction::new("Open_vSwitch");
    let (p1, i1, p2, i2) = txn.add_patch_ports("a", "b", Some("x"), Some("y"));
    assert!(is_named(&i1, "row0"));
    assert!(is_named(&p1, "row1"));
    assert!(is_named(&i2, "row2"));
    assert!(is_named(&p2, "row3"));
    let ops = txn.operations();
    assert_eq!(field(field(&ops[0], "row"), "name"), &s("x"));
    assert_eq!(item(field(&ops[2], "where"), 0), &arr(vec![s("name"), s("=="), s("a")]));
    assert_eq!(field(field(&ops[3], "row"), "name"), &s("y"));
}

#[test]
fn uuid_text_is_hyphenated_lowercase() {
    let u = Uuid::from_u128(0x0123_4567_89ab_cdef_0123_4567_89ab_cdef);
    assert_eq!(u.to_string(), "01234567-89ab-cdef-0123-456789abcdef");
    assert_eq!(Uuid::parse("01234567-89AB-CDEF-0123-456789ABCDEF"), Some(u));
    assert_eq!(Uuid::parse("nope"), None);
}

#[test]
fn insert_raw_and_delete_where_and_internal_port() {
    let mut txn = Transaction::new("Open_vSwitch");
    let r = txn.insert_raw("Bridge", vec![("name".to_owned(), s("br9"))]);
    assert!(is_named(&r, "row0"));
    txn.delete_where("Port", arr(vec![arr(vec![s("tag"), s("=="), Json::from_i64(5)])]));
    let (port, iface) = txn.add_internal_port("br9", "p9");
    assert!(is_named(&iface, "row1"));
    assert!(is_named(&port, "row2"));
    let ops = txn.operations();
    assert_eq!(field(field(&ops[0], "row"), "name"), &s("br9"));
    assert_eq!(item(item(field(&ops[1], "where"), 0), 2), &Json::UInt(5));
    assert_eq!(field(field(&ops[2], "row"), "type"), &s("internal"));
    assert_eq!(Json::from_i64(-3), Json::Int(-3));
    assert_eq!(Json::from_u64(3), Json::UInt(3));
}

#[test]
fn uuid_parse_reads_each_form() {
    let u = Uuid::from_u128(0x67e55044_10b1_426f_9247_bb680e5fe0c8);
    assert_eq!(Uuid::parse("67e5504410b1426f9247bb680e5fe0c8"), Some(u));
    assert_eq!(Uuid::parse("{67e55044-10b1-426f-9247-bb680e5fe0c8}"), Some(u));
    assert_eq!(Uuid::parse("urn:uuid:67e55044-10b1-426f-9247-bb680e5fe0c8"), Some(u));
    assert_eq!(Uuid::parse("URN:UUID:67E55044-10B1-426F-9247-BB680E5FE0C8"), Some(u));
    assert_eq!(Uuid::parse("67e55044-10b1-426f-9247-bb680e5fe0c"), None);
    assert_eq!(Uuid::parse("67e55044+10b1-426f-9247-bb680e5fe0c8"), None);
    assert_eq!(Uuid::parse("(67e55044-10b1-426f-9247-bb680e5fe0c8)"), None);
    assert_eq!(Uuid::parse("67e5504410b1426f9247bb680e5fe0cg"), None);
}

#[test]
fn uuid_text_parses_back() {
    for v in [0u128, 1, u128::MAX, 0x0123_4567_89ab_cdef_0123_4567_89ab_cdef] {
        let u = Uuid::from_u128(v);
        assert_eq!(Uuid::parse(&u.to_string()), Some(u));
    }
}

#[test]
fn commit_params_skip_an_empty_transaction() {
    let mut txn = Transaction::new("Open_vSwitch");
    assert_eq!(commit_params(&txn), None);
    txn.comment("c");
    assert_eq!(commit_params(&txn), Some(txn.build()));
    assert_eq!(item(&commit_params(&txn).unwrap(), 0), &s("Open_vSwitch"));
}
