//! What the operations of a transaction say, member by member: which table
//! each one acts on, which rows it selects, and how the rows that one
//! transaction inserts refer to each other.
use vstd::prelude::*;
use crate::ovsdb::assoc::lemma_index_of_key_at;
use crate::ovsdb::json::{jstr, member_keys, object_get, str_of, JsonModel};
use crate::ovsdb::ops::{op_delete, op_insert, op_mutate, op_update};
use crate::ovsdb::transaction::{
    add_port_ops, create_bridge_ops, delete_bridge_named_ops, delete_bridge_ops, delete_port_named_ops,
    delete_port_ops, internal_port_ops, patch_pair_ops, chosen_name, lemma_row_names_distinct, op_name, patch_end_ops, row_name,
    system_port_ops, vlan_port_ops,
};
use crate::ovsdb::uuid::uuid_text;

verus! {

/// The text of member `k` of an object, when it is a string.
pub open spec fn str_member(j: JsonModel, k: Seq<char>) -> Option<Seq<char>> {
    match object_get(j, k) {
        Some(v) => str_of(v),
        None => None,
    }
}

/// Member `k` of the row that an operation carries.
pub open spec fn row_member(op: JsonModel, k: Seq<char>) -> Option<JsonModel> {
    match object_get(op, "row"@) {
        Some(r) => object_get(r, k),
        None => None,
    }
}

/// Whether `op` is operation `kind` on table `table`.
pub open spec fn acts_on(op: JsonModel, kind: Seq<char>, table: Seq<char>) -> bool {
    str_member(op, "op"@) == Some(kind) && str_member(op, "table"@) == Some(table)
}

/// `["named-uuid", NAME]`: the reference to a row inserted in the same
/// transaction.
pub open spec fn ref_to(name: Seq<char>) -> JsonModel {
    JsonModel::Array(seq![jstr("named-uuid"@), jstr(name)])
}

/// `["uuid", TEXT]`: the reference to an existing row.
pub open spec fn ref_uuid(u: u128) -> JsonModel {
    JsonModel::Array(seq![jstr("uuid"@), jstr(uuid_text(u))])
}

/// `[[COLUMN, "==", VALUE]]`: the condition that a column equals a value.
pub open spec fn cond_eq(column: Seq<char>, value: JsonModel) -> JsonModel {
    JsonModel::Array(seq![JsonModel::Array(seq![jstr(column), jstr("=="@), value])])
}

/// A list of one mutation `[COLUMN, MUTATOR, VALUE]`.
pub open spec fn one_mutation(column: Seq<char>, mutator: Seq<char>, value: JsonModel) -> JsonModel {
    JsonModel::Array(seq![JsonModel::Array(seq![jstr(column), jstr(mutator), value])])
}

/// The lengths and first characters that tell the member names apart.
proof fn lemma_keys()
    ensures
        "op"@.len() == 2,
        "table"@.len() == 5 && "table"@[0] == 't',
        "row"@.len() == 3 && "row"@[0] == 'r',
        "uuid-name"@.len() == 9 && "uuid-name"@[0] == 'u',
        "where"@.len() == 5 && "where"@[0] == 'w',
        "mutations"@.len() == 9 && "mutations"@[0] == 'm',
        "name"@.len() == 4 && "name"@[0] == 'n',
        "type"@.len() == 4 && "type"@[0] == 't',
        "interfaces"@.len() == 10,
        "ports"@.len() == 5 && "ports"@[0] == 'p',
        "tag"@.len() == 3 && "tag"@[0] == 't',
        "options"@.len() == 7,
{
    reveal_strlit("op");
    reveal_strlit("table");
    reveal_strlit("row");
    reveal_strlit("uuid-name");
    reveal_strlit("where");
    reveal_strlit("mutations");
    reveal_strlit("name");
    reveal_strlit("type");
    reveal_strlit("interfaces");
    reveal_strlit("ports");
    reveal_strlit("tag");
    reveal_strlit("options");
}

/// The member found under `k` is the first one with that key.
proof fn lemma_get_at(ms: Seq<(Seq<char>, JsonModel)>, k: Seq<char>, i: int)
    requires
        0 <= i < ms.len(),
        ms[i].0 == k,
        forall|j: int| 0 <= j < i ==> ms[j].0 != k,
    ensures
        object_get(JsonModel::Object(ms), k) == Some(ms[i].1),
{
    lemma_index_of_key_at(member_keys(ms), k, i);
}

/// Law: an insert names the operation, its table, the row it inserts and
/// the temporary name it gives that row.
pub proof fn lemma_insert_members(table: Seq<char>, row: JsonModel, name: Seq<char>)
    ensures
        acts_on(op_insert(table, row, name), "insert"@, table),
        object_get(op_insert(table, row, name), "row"@) == Some(row),
        op_name(op_insert(table, row, name)) == Some(name),
{
    lemma_keys();
    let ms = seq![("op"@, jstr("insert"@)), ("table"@, jstr(table)), ("row"@, row), ("uuid-name"@, jstr(name))];
    lemma_get_at(ms, "op"@, 0);
    lemma_get_at(ms, "table"@, 1);
    lemma_get_at(ms, "row"@, 2);
    lemma_get_at(ms, "uuid-name"@, 3);
}

/// Law: an update names the operation, its table, the row it selects by
/// UUID and the columns it sets.
pub proof fn lemma_update_members(table: Seq<char>, u: u128, columns: JsonModel)
    ensures
        acts_on(op_update(table, u, columns), "update"@, table),
        object_get(op_update(table, u, columns), "where"@) == Some(cond_eq("_uuid"@, ref_uuid(u))),
        object_get(op_update(table, u, columns), "row"@) == Some(columns),
{
    lemma_keys();
    let ms = seq![
        ("op"@, jstr("update"@)),
        ("table"@, jstr(table)),
        ("where"@, crate::ovsdb::ops::where_uuid(u)),
        ("row"@, columns),
    ];
    lemma_get_at(ms, "op"@, 0);
    lemma_get_at(ms, "table"@, 1);
    lemma_get_at(ms, "where"@, 2);
    lemma_get_at(ms, "row"@, 3);
}

/// Law: a mutate names the operation, its table, its condition and its
/// mutations.
pub proof fn lemma_mutate_members(table: Seq<char>, condition: JsonModel, mutations: Seq<JsonModel>)
    ensures
        acts_on(op_mutate(table, condition, mutations), "mutate"@, table),
        object_get(op_mutate(table, condition, mutations), "where"@) == Some(condition),
        object_get(op_mutate(table, condition, mutations), "mutations"@) == Some(JsonModel::Array(mutations)),
{
    lemma_keys();
    let ms = seq![
        ("op"@, jstr("mutate"@)),
        ("table"@, jstr(table)),
        ("where"@, condition),
        ("mutations"@, JsonModel::Array(mutations)),
    ];
    lemma_get_at(ms, "op"@, 0);
    lemma_get_at(ms, "table"@, 1);
    lemma_get_at(ms, "where"@, 2);
    lemma_get_at(ms, "mutations"@, 3);
}

/// Law: a delete names the operation, its table and its condition.
pub proof fn lemma_delete_members(table: Seq<char>, condition: JsonModel)
    ensures
        acts_on(op_delete(table, condition), "delete"@, table),
        object_get(op_delete(table, condition), "where"@) == Some(condition),
{
    lemma_keys();
    let ms = seq![("op"@, jstr("delete"@)), ("table"@, jstr(table)), ("where"@, condition)];
    lemma_get_at(ms, "op"@, 0);
    lemma_get_at(ms, "table"@, 1);
    lemma_get_at(ms, "where"@, 2);
}

/// Law: creating a bridge inserts an internal interface, a port that holds
/// it and a bridge that holds the port, all named `name`, and adds the
/// inserted bridge to `Open_vSwitch.bridges`. The three rows get distinct
/// temporary names, the bridge's being `row{c + 2}`.
pub proof fn lemma_create_bridge_links(name: Seq<char>, c: nat)
    ensures
        ({
            let ops = create_bridge_ops(name, c as int);
            &&& ops.len() == 4
            &&& acts_on(ops[0], "insert"@, "Interface"@)
            &&& acts_on(ops[1], "insert"@, "Port"@)
            &&& acts_on(ops[2], "insert"@, "Bridge"@)
            &&& acts_on(ops[3], "mutate"@, "Open_vSwitch"@)
            &&& op_name(ops[0]) == Some(row_name(c as int))
            &&& op_name(ops[1]) == Some(row_name(c + 1int))
            &&& op_name(ops[2]) == Some(row_name(c + 2int))
            &&& op_name(ops[0]) != op_name(ops[1]) && op_name(ops[1]) != op_name(ops[2])
                && op_name(ops[0]) != op_name(ops[2])
            &&& row_member(ops[0], "name"@) == Some(jstr(name))
            &&& row_member(ops[1], "name"@) == Some(jstr(name))
            &&& row_member(ops[2], "name"@) == Some(jstr(name))
            &&& row_member(ops[0], "type"@) == Some(jstr("internal"@))
            &&& row_member(ops[1], "interfaces"@) == Some(ref_to(op_name(ops[0])->0))
            &&& row_member(ops[2], "ports"@) == Some(ref_to(op_name(ops[1])->0))
            &&& object_get(ops[3], "where"@) == Some(JsonModel::Array(Seq::empty()))
            &&& object_get(ops[3], "mutations"@) == Some(one_mutation("bridges"@, "insert"@, ref_to(op_name(ops[2])->0)))
        }),
{
    lemma_keys();
    let ci = c as int;
    let ops = create_bridge_ops(name, ci);
    let iface_row = seq![("name"@, jstr(name)), ("type"@, jstr("internal"@))];
    let port_row = seq![("name"@, jstr(name)), ("interfaces"@, crate::ovsdb::ops::named_ref(row_name(ci)))];
    let bridge_row = seq![("name"@, jstr(name)), ("ports"@, crate::ovsdb::ops::named_ref(row_name(ci + 1)))];
    lemma_insert_members("Interface"@, JsonModel::Object(iface_row), row_name(ci));
    lemma_insert_members("Port"@, JsonModel::Object(port_row), row_name(ci + 1));
    lemma_insert_members("Bridge"@, JsonModel::Object(bridge_row), row_name(ci + 2));
    lemma_mutate_members(
        "Open_vSwitch"@,
        crate::ovsdb::ops::where_all(),
        seq![crate::ovsdb::ops::mutation("bridges"@, "insert"@, crate::ovsdb::ops::named_ref(row_name(ci + 2)))],
    );
    lemma_get_at(iface_row, "name"@, 0);
    lemma_get_at(iface_row, "type"@, 1);
    lemma_get_at(port_row, "name"@, 0);
    lemma_get_at(port_row, "interfaces"@, 1);
    lemma_get_at(bridge_row, "name"@, 0);
    lemma_get_at(bridge_row, "ports"@, 1);
    lemma_row_names_distinct(c, c + 1);
    lemma_row_names_distinct(c + 1, c + 2);
    lemma_row_names_distinct(c, c + 2);
}

/// Law: adding a port inserts an interface of type `kind` and a port that
/// holds it, both named `port`, the port tagged with `tag` when one is
/// given, and adds the inserted port (never the interface) to the `ports`
/// of the bridge named `bridge`. The port's temporary name is `row{c + 1}`,
/// the interface's `row{c}`.
pub proof fn lemma_add_port_links(bridge: Seq<char>, port: Seq<char>, kind: Seq<char>, tag: Option<u16>, c: nat)
    ensures
        ({
            let ops = add_port_ops(bridge, port, kind, tag, c as int);
            &&& ops.len() == 3
            &&& acts_on(ops[0], "insert"@, "Interface"@)
            &&& acts_on(ops[1], "insert"@, "Port"@)
            &&& acts_on(ops[2], "mutate"@, "Bridge"@)
            &&& op_name(ops[0]) == Some(row_name(c as int))
            &&& op_name(ops[1]) == Some(row_name(c + 1int))
            &&& op_name(ops[0]) != op_name(ops[1])
            &&& row_member(ops[0], "name"@) == Some(jstr(port))
            &&& row_member(ops[0], "type"@) == Some(jstr(kind))
            &&& row_member(ops[1], "name"@) == Some(jstr(port))
            &&& row_member(ops[1], "interfaces"@) == Some(ref_to(op_name(ops[0])->0))
            &&& row_member(ops[1], "tag"@) == match tag {
                Some(t) => Some(JsonModel::UInt(t as u64)),
                None => None,
            }
            &&& object_get(ops[2], "where"@) == Some(cond_eq("name"@, jstr(bridge)))
            &&& object_get(ops[2], "mutations"@) == Some(one_mutation("ports"@, "insert"@, ref_to(op_name(ops[1])->0)))
        }),
{
    lemma_keys();
    let ci = c as int;
    let iface_row = seq![("name"@, jstr(port)), ("type"@, jstr(kind))];
    let base = seq![("name"@, jstr(port)), ("interfaces"@, crate::ovsdb::ops::named_ref(row_name(ci)))];
    let port_row = match tag {
        None => base,
        Some(t) => base.push(("tag"@, JsonModel::UInt(t as u64))),
    };
    lemma_insert_members("Interface"@, JsonModel::Object(iface_row), row_name(ci));
    lemma_insert_members("Port"@, JsonModel::Object(port_row), row_name(ci + 1));
    lemma_mutate_members(
        "Bridge"@,
        crate::ovsdb::ops::where_name(bridge),
        seq![crate::ovsdb::ops::mutation("ports"@, "insert"@, crate::ovsdb::ops::named_ref(row_name(ci + 1)))],
    );
    lemma_get_at(iface_row, "name"@, 0);
    lemma_get_at(iface_row, "type"@, 1);
    lemma_get_at(port_row, "name"@, 0);
    lemma_get_at(port_row, "interfaces"@, 1);
    match tag {
        Some(t) => {
            assert(port_row =~= seq![
                ("name"@, jstr(port)),
                ("interfaces"@, crate::ovsdb::ops::named_ref(row_name(ci))),
                ("tag"@, JsonModel::UInt(t as u64)),
            ]);
            lemma_get_at(port_row, "tag"@, 2);
        },
        None => {
            crate::ovsdb::assoc::lemma_index_of_key_absent(member_keys(port_row), "tag"@);
        },
    }
    lemma_row_names_distinct(c, c + 1);
}

/// Law: one end of a patch-port pair inserts a patch interface named
/// `name` whose `peer` option is `peer`, a port named `name` that holds
/// that interface (its first columns; `extra` follows them), and adds the
/// inserted port to the `ports` of the bridge named `bridge`.
pub proof fn lemma_patch_end_links(
    bridge: Seq<char>,
    name: Seq<char>,
    peer: Seq<char>,
    extra: Seq<(Seq<char>, JsonModel)>,
    c: nat,
)
    ensures
        ({
            let ops = patch_end_ops(bridge, name, peer, extra, c as int);
            &&& ops.len() == 3
            &&& acts_on(ops[0], "insert"@, "Interface"@)
            &&& acts_on(ops[1], "insert"@, "Port"@)
            &&& acts_on(ops[2], "mutate"@, "Bridge"@)
            &&& op_name(ops[0]) == Some(row_name(c as int))
            &&& op_name(ops[1]) == Some(row_name(c + 1int))
            &&& op_name(ops[0]) != op_name(ops[1])
            &&& row_member(ops[0], "name"@) == Some(jstr(name))
            &&& row_member(ops[0], "type"@) == Some(jstr("patch"@))
            &&& row_member(ops[0], "options"@) == Some(
                JsonModel::Array(
                    seq![jstr("map"@), JsonModel::Array(seq![JsonModel::Array(seq![jstr("peer"@), jstr(peer)])])],
                ),
            )
            &&& row_member(ops[1], "name"@) == Some(jstr(name))
            &&& row_member(ops[1], "interfaces"@) == Some(ref_to(op_name(ops[0])->0))
            &&& object_get(ops[2], "where"@) == Some(cond_eq("name"@, jstr(bridge)))
            &&& object_get(ops[2], "mutations"@) == Some(one_mutation("ports"@, "insert"@, ref_to(op_name(ops[1])->0)))
        }),
{
    lemma_keys();
    let ci = c as int;
    let options = JsonModel::Array(
        seq![jstr("map"@), JsonModel::Array(seq![JsonModel::Array(seq![jstr("peer"@), jstr(peer)])])],
    );
    let iface_row = seq![("name"@, jstr(name)), ("type"@, jstr("patch"@)), ("options"@, options)];
    let port_row = seq![("name"@, jstr(name)), ("interfaces"@, crate::ovsdb::ops::named_ref(row_name(ci)))]
        + extra;
    lemma_insert_members("Interface"@, JsonModel::Object(iface_row), row_name(ci));
    lemma_insert_members("Port"@, JsonModel::Object(port_row), row_name(ci + 1));
    lemma_mutate_members(
        "Bridge"@,
        crate::ovsdb::ops::where_name(bridge),
        seq![crate::ovsdb::ops::mutation("ports"@, "insert"@, crate::ovsdb::ops::named_ref(row_name(ci + 1)))],
    );
    lemma_get_at(iface_row, "name"@, 0);
    lemma_get_at(iface_row, "type"@, 1);
    lemma_get_at(iface_row, "options"@, 2);
    lemma_get_at(port_row, "name"@, 0);
    lemma_get_at(port_row, "interfaces"@, 1);
    lemma_row_names_distinct(c, c + 1);
}

/// Law: deleting a port by UUID removes `port` from the `ports` of the
/// bridge with UUID `bridge`, deletes the interface row with UUID `iface`
/// and the port row with UUID `port`.
pub proof fn lemma_delete_port_targets(bridge: u128, port: u128, iface: u128)
    ensures
        ({
            let ops = delete_port_ops(bridge, port, iface);
            &&& ops.len() == 3
            &&& acts_on(ops[0], "mutate"@, "Bridge"@)
            &&& object_get(ops[0], "where"@) == Some(cond_eq("_uuid"@, ref_uuid(bridge)))
            &&& object_get(ops[0], "mutations"@) == Some(
                one_mutation(
                    "ports"@,
                    "delete"@,
                    JsonModel::Array(seq![jstr("set"@), JsonModel::Array(seq![ref_uuid(port)])]),
                ),
            )
            &&& acts_on(ops[1], "delete"@, "Interface"@)
            &&& object_get(ops[1], "where"@) == Some(cond_eq("_uuid"@, ref_uuid(iface)))
            &&& acts_on(ops[2], "delete"@, "Port"@)
            &&& object_get(ops[2], "where"@) == Some(cond_eq("_uuid"@, ref_uuid(port)))
        }),
{
    lemma_mutate_members(
        "Bridge"@,
        crate::ovsdb::ops::where_uuid(bridge),
        seq![crate::ovsdb::ops::mutation("ports"@, "delete"@, crate::ovsdb::ops::uuid_set(port))],
    );
    lemma_delete_members("Interface"@, crate::ovsdb::ops::where_uuid(iface));
    lemma_delete_members("Port"@, crate::ovsdb::ops::where_uuid(port));
}

/// Law: deleting a bridge by UUID first removes `bridge` from
/// `Open_vSwitch.bridges`, then deletes each interface row of `ifaces`, each
/// port row of `ports`, in order, and last the bridge row, each selected by
/// its own UUID.
pub proof fn lemma_delete_bridge_targets(bridge: u128, ports: Seq<u128>, ifaces: Seq<u128>)
    ensures
        ({
            let ops = delete_bridge_ops(bridge, ports, ifaces);
            let n = ifaces.len() as int;
            let m = ports.len() as int;
            &&& ops.len() == n + m + 2
            &&& acts_on(ops[0], "mutate"@, "Open_vSwitch"@)
            &&& object_get(ops[0], "where"@) == Some(JsonModel::Array(Seq::empty()))
            &&& object_get(ops[0], "mutations"@) == Some(
                one_mutation(
                    "bridges"@,
                    "delete"@,
                    JsonModel::Array(seq![jstr("set"@), JsonModel::Array(seq![ref_uuid(bridge)])]),
                ),
            )
            &&& forall|i: int| 0 <= i < n ==> acts_on(#[trigger] ops[1 + i], "delete"@, "Interface"@)
                && object_get(ops[1 + i], "where"@) == Some(cond_eq("_uuid"@, ref_uuid(ifaces[i])))
            &&& forall|j: int| 0 <= j < m ==> acts_on(#[trigger] ops[1 + n + j], "delete"@, "Port"@)
                && object_get(ops[1 + n + j], "where"@) == Some(cond_eq("_uuid"@, ref_uuid(ports[j])))
            &&& acts_on(ops[n + m + 1], "delete"@, "Bridge"@)
            &&& object_get(ops[n + m + 1], "where"@) == Some(cond_eq("_uuid"@, ref_uuid(bridge)))
        }),
{
    let ops = delete_bridge_ops(bridge, ports, ifaces);
    let n = ifaces.len() as int;
    let m = ports.len() as int;
    lemma_mutate_members(
        "Open_vSwitch"@,
        crate::ovsdb::ops::where_all(),
        seq![crate::ovsdb::ops::mutation("bridges"@, "delete"@, crate::ovsdb::ops::uuid_set(bridge))],
    );
    assert forall|i: int| 0 <= i < n implies acts_on(#[trigger] ops[1 + i], "delete"@, "Interface"@)
        && object_get(ops[1 + i], "where"@) == Some(cond_eq("_uuid"@, ref_uuid(ifaces[i]))) by {
        lemma_delete_members("Interface"@, crate::ovsdb::ops::where_uuid(ifaces[i]));
    }
    assert forall|j: int| 0 <= j < m implies acts_on(#[trigger] ops[1 + n + j], "delete"@, "Port"@)
        && object_get(ops[1 + n + j], "where"@) == Some(cond_eq("_uuid"@, ref_uuid(ports[j]))) by {
        lemma_delete_members("Port"@, crate::ovsdb::ops::where_uuid(ports[j]));
    }
    lemma_delete_members("Bridge"@, crate::ovsdb::ops::where_uuid(bridge));
}

/// Law: an internal port's interface has type `internal` and its port no
/// tag; a system port's interface has type `system`; a VLAN port's
/// interface has type `internal` and its port carries the VLAN as its tag.
/// Each is added to the bridge as `add_port` adds one.
pub proof fn lemma_port_kinds(bridge: Seq<char>, port: Seq<char>, vlan: u16, c: nat)
    ensures
        internal_port_ops(bridge, port, c as int) == add_port_ops(bridge, port, "internal"@, None, c as int),
        row_member(internal_port_ops(bridge, port, c as int)[0], "type"@) == Some(jstr("internal"@)),
        row_member(internal_port_ops(bridge, port, c as int)[1], "tag"@) is None,
        system_port_ops(bridge, port, c as int) == add_port_ops(bridge, port, "system"@, None, c as int),
        row_member(system_port_ops(bridge, port, c as int)[0], "type"@) == Some(jstr("system"@)),
        row_member(system_port_ops(bridge, port, c as int)[1], "tag"@) is None,
        vlan_port_ops(bridge, port, vlan, c as int) == add_port_ops(bridge, port, "internal"@, Some(vlan), c as int),
        row_member(vlan_port_ops(bridge, port, vlan, c as int)[0], "type"@) == Some(jstr("internal"@)),
        row_member(vlan_port_ops(bridge, port, vlan, c as int)[1], "tag"@) == Some(JsonModel::UInt(vlan as u64)),
{
    lemma_add_port_links(bridge, port, "internal"@, None, c);
    lemma_add_port_links(bridge, port, "system"@, None, c);
    lemma_add_port_links(bridge, port, "internal"@, Some(vlan), c);
}

/// Law: deleting a port by name deletes the interface and then the port
/// whose `name` is `port`; deleting a bridge by name deletes the interface,
/// the port and the bridge whose `name` is `name`.
pub proof fn lemma_named_deletes(port: Seq<char>, name: Seq<char>)
    ensures
        delete_port_named_ops(port).len() == 2,
        acts_on(delete_port_named_ops(port)[0], "delete"@, "Interface"@),
        acts_on(delete_port_named_ops(port)[1], "delete"@, "Port"@),
        forall|i: int| 0 <= i < 2 ==> object_get(#[trigger] delete_port_named_ops(port)[i], "where"@) == Some(
            cond_eq("name"@, jstr(port)),
        ),
        delete_bridge_named_ops(name).len() == 3,
        acts_on(delete_bridge_named_ops(name)[0], "delete"@, "Interface"@),
        acts_on(delete_bridge_named_ops(name)[1], "delete"@, "Port"@),
        acts_on(delete_bridge_named_ops(name)[2], "delete"@, "Bridge"@),
        forall|i: int| 0 <= i < 3 ==> object_get(#[trigger] delete_bridge_named_ops(name)[i], "where"@) == Some(
            cond_eq("name"@, jstr(name)),
        ),
{
    let w = crate::ovsdb::ops::where_name(port);
    let v = crate::ovsdb::ops::where_name(name);
    lemma_delete_members("Interface"@, w);
    lemma_delete_members("Port"@, w);
    lemma_delete_members("Interface"@, v);
    lemma_delete_members("Port"@, v);
    lemma_delete_members("Bridge"@, v);
    assert forall|i: int| 0 <= i < 2 implies object_get(#[trigger] delete_port_named_ops(port)[i], "where"@)
        == Some(cond_eq("name"@, jstr(port))) by {
        if i == 0 {
        } else {
        }
    }
    assert forall|i: int| 0 <= i < 3 implies object_get(#[trigger] delete_bridge_named_ops(name)[i], "where"@)
        == Some(cond_eq("name"@, jstr(name))) by {
        if i == 0 {
        } else if i == 1 {
        } else {
        }
    }
}

/// Law: a pair of patch ports inserts, on each bridge, a patch interface
/// and a port that holds it, both named after that end, whose `peer` is the
/// name of the other end's interface; each bridge gets its own end's port.
/// The four rows get distinct temporary names.
pub proof fn lemma_patch_pair_links(
    bridge1: Seq<char>,
    bridge2: Seq<char>,
    name1: Seq<char>,
    name2: Seq<char>,
    extra: Seq<(Seq<char>, JsonModel)>,
    c: nat,
)
    ensures
        ({
            let ops = patch_pair_ops(bridge1, bridge2, name1, name2, extra, c as int);
            let peer = |i: int| row_member(ops[i], "options"@);
            &&& ops.len() == 6
            &&& acts_on(ops[0], "insert"@, "Interface"@) && acts_on(ops[3], "insert"@, "Interface"@)
            &&& acts_on(ops[1], "insert"@, "Port"@) && acts_on(ops[4], "insert"@, "Port"@)
            &&& acts_on(ops[2], "mutate"@, "Bridge"@) && acts_on(ops[5], "mutate"@, "Bridge"@)
            &&& row_member(ops[0], "name"@) == Some(jstr(name1)) && row_member(ops[1], "name"@) == Some(jstr(name1))
            &&& row_member(ops[3], "name"@) == Some(jstr(name2)) && row_member(ops[4], "name"@) == Some(jstr(name2))
            &&& peer(0) == Some(
                JsonModel::Array(
                    seq![jstr("map"@), JsonModel::Array(seq![JsonModel::Array(seq![jstr("peer"@), row_member(ops[3], "name"@)->0])])],
                ),
            )
            &&& peer(3) == Some(
                JsonModel::Array(
                    seq![jstr("map"@), JsonModel::Array(seq![JsonModel::Array(seq![jstr("peer"@), row_member(ops[0], "name"@)->0])])],
                ),
            )
            &&& row_member(ops[1], "interfaces"@) == Some(ref_to(op_name(ops[0])->0))
            &&& row_member(ops[4], "interfaces"@) == Some(ref_to(op_name(ops[3])->0))
            &&& object_get(ops[2], "where"@) == Some(cond_eq("name"@, jstr(bridge1)))
            &&& object_get(ops[2], "mutations"@) == Some(one_mutation("ports"@, "insert"@, ref_to(op_name(ops[1])->0)))
            &&& object_get(ops[5], "where"@) == Some(cond_eq("name"@, jstr(bridge2)))
            &&& object_get(ops[5], "mutations"@) == Some(one_mutation("ports"@, "insert"@, ref_to(op_name(ops[4])->0)))
            &&& forall|i: int, j: int|
                0 <= i < j < 6 && i % 3 != 2 && j % 3 != 2 ==> #[trigger] op_name(ops[i]) != #[trigger] op_name(ops[j])
            &&& forall|i: int| 0 <= i < 6 && i % 3 != 2 ==> (#[trigger] op_name(ops[i])) is Some
        }),
{
    let ops = patch_pair_ops(bridge1, bridge2, name1, name2, extra, c as int);
    let e1 = patch_end_ops(bridge1, name1, name2, extra, c as int);
    let e2 = patch_end_ops(bridge2, name2, name1, extra, c + 2int);
    lemma_patch_end_links(bridge1, name1, name2, extra, c);
    lemma_patch_end_links(bridge2, name2, name1, extra, c + 2);
    assert(ops[0] == e1[0] && ops[1] == e1[1] && ops[2] == e1[2]);
    assert(ops[3] == e2[0] && ops[4] == e2[1] && ops[5] == e2[2]);
    lemma_row_names_distinct(c, c + 1);
    lemma_row_names_distinct(c, c + 2);
    lemma_row_names_distinct(c, c + 3);
    lemma_row_names_distinct(c + 1, c + 2);
    lemma_row_names_distinct(c + 1, c + 3);
    lemma_row_names_distinct(c + 2, c + 3);
    assert(op_name(ops[0]) == Some(row_name(c as int)));
    assert(op_name(ops[1]) == Some(row_name(c + 1int)));
    assert(op_name(ops[3]) == Some(row_name(c + 2int)));
    assert(op_name(ops[4]) == Some(row_name(c + 3int)));
}

/// Law: a patch port given no name is named `patch-{from}-to-{to}`, after
/// the bridge it is on and the bridge it leads to; a given name is kept.
pub proof fn lemma_patch_default_name(given: Option<&str>, from: Seq<char>, to: Seq<char>)
    ensures
        given is None ==> chosen_name(given, from, to) == "patch-"@ + from + "-to-"@ + to,
        given matches Some(n) ==> chosen_name(given, from, to) == n@,
{
}

} // verus!
