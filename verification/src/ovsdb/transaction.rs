//! OVSDB transaction handling.
use vstd::prelude::*;
use crate::ovsdb::assoc::{
    find_key, index_of_key, keys_of, lemma_index_after_set, lemma_index_of_key, lemma_index_of_key_absent,
    lemma_index_of_key_at,
};
use crate::ovsdb::json::{
    items_model, jstr, lemma_items_model_index, lemma_items_model_len, lemma_items_model_push,
    member_keys, object_get, str_of, Json, JsonModel,
};
use crate::ovsdb::ops::{
    comment_op, delete_op, insert_op, mutate_op, named_ref, op_comment, op_delete, op_insert,
    op_mutate, op_update, op_wait, update_op, uuid_ref, uuid_ref_json, wait_op, where_name,
    where_name_json, where_uuid, where_uuid_json,
};
use crate::ovsdb::uuid::{uuid_parsed, Uuid};
use crate::text::{decimal, decimal_string};

verus! {

/// Transaction status.
#[derive(Debug, Clone, Copy, PartialEq, Eq, Structural)]
pub enum TransactionStatus {
    /// Not yet committed
    Uncommitted,
    /// No actual changes to commit
    Unchanged,
    /// Commit in progress
    Incomplete,
    /// Explicitly aborted
    Aborted,
    /// Successfully committed
    Success,
    /// Conflict, should retry
    TryAgain,
    /// Need lock before committing
    NotLocked,
    /// Hard failure
    Error,
}

/// Reference to a row - either an existing UUID or a named-uuid for new rows.
#[derive(Debug, Clone, PartialEq, Eq)]
pub enum RowRef {
    /// Reference to existing row by UUID
    Uuid(Uuid),
    /// Reference to a row being inserted in this transaction
    Named(String),
}

/// The abstract value of a row reference.
pub enum RowRefModel {
    Uuid(u128),
    Named(Seq<char>),
}

impl View for RowRef {
    type V = RowRefModel;

    open spec fn view(&self) -> RowRefModel {
        match self {
            RowRef::Uuid(u) => RowRefModel::Uuid(u.value),
            RowRef::Named(n) => RowRefModel::Named(n@),
        }
    }
}

/// The JSON form of a row reference.
pub open spec fn row_ref_json(r: RowRefModel) -> JsonModel {
    match r {
        RowRefModel::Uuid(u) => uuid_ref(u),
        RowRefModel::Named(n) => named_ref(n),
    }
}

impl RowRef {
    /// A reference to the row inserted in this transaction under `name`.
    pub fn named(name: &str) -> (r: RowRef)
        ensures
            r@ == RowRefModel::Named(name@),
    {
        RowRef::Named(name.to_owned())
    }

    /// Convert to JSON value for OVSDB protocol.
    pub fn to_json(&self) -> (r: Json)
        ensures
            r@ == row_ref_json(self@),
    {
        match self {
            RowRef::Uuid(u) => uuid_ref_json(*u),
            RowRef::Named(name) => crate::ovsdb::ops::named_ref_json(name.as_str()),
        }
    }
}

impl From<Uuid> for RowRef {
    fn from(uuid: Uuid) -> (r: RowRef) {
        RowRef::Uuid(uuid)
    }
}

impl vstd::std_specs::convert::FromSpecImpl<Uuid> for RowRef {
    open spec fn obeys_from_spec() -> bool {
        true
    }

    open spec fn from_spec(v: Uuid) -> RowRef {
        RowRef::Uuid(v)
    }
}

/// An OVSDB transaction.
pub struct Transaction {
    /// Database name
    db_name: String,
    /// Operations to perform
    operations: Vec<Json>,
    /// Status
    status: TransactionStatus,
    /// Mapping from named-uuid to actual UUID after commit
    uuid_map: Vec<(String, Uuid)>,
    /// UUID counter for named-uuid
    uuid_counter: u32,
}

/// The abstract state of a transaction.
pub struct TransactionModel {
    pub db_name: Seq<char>,
    pub operations: Seq<JsonModel>,
    pub status: TransactionStatus,
    /// Named-uuid to UUID value; the first entry for a name counts
    pub uuid_map: Seq<(Seq<char>, u128)>,
    pub uuid_counter: u32,
}

/// The model of a table of UUIDs by name.
pub open spec fn uuid_map_model(entries: Seq<(String, Uuid)>) -> Seq<(Seq<char>, u128)> {
    entries.map_values(|e: (String, Uuid)| (e.0@, e.1.value))
}

impl View for Transaction {
    type V = TransactionModel;

    closed spec fn view(&self) -> TransactionModel {
        TransactionModel {
            db_name: self.db_name@,
            operations: items_model(self.operations@),
            status: self.status,
            uuid_map: uuid_map_model(self.uuid_map@),
            uuid_counter: self.uuid_counter,
        }
    }
}

/// The names in a table of UUIDs by name.
pub open spec fn map_keys(m: Seq<(Seq<char>, u128)>) -> Seq<Seq<char>> {
    m.map_values(|e: (Seq<char>, u128)| e.0)
}

/// The UUID recorded for `name`.
pub open spec fn map_lookup(m: Seq<(Seq<char>, u128)>, name: Seq<char>) -> Option<u128> {
    let i = index_of_key(map_keys(m), name);
    if i >= 0 {
        Some(m[i].1)
    } else {
        None
    }
}

/// Record `value` for `name`, replacing what was recorded for it.
pub open spec fn map_set(m: Seq<(Seq<char>, u128)>, name: Seq<char>, value: u128) -> Seq<(Seq<char>, u128)> {
    let i = index_of_key(map_keys(m), name);
    if i >= 0 {
        m.update(i, (name, value))
    } else {
        m.push((name, value))
    }
}

/// The temporary name of the `n`-th row inserted in a transaction.
pub open spec fn row_name(n: int) -> Seq<char> {
    "row"@ + decimal(n as nat)
}

/// The transaction `t` with `ops` appended, after `inserts` inserts.
pub open spec fn appended(t: TransactionModel, ops: Seq<JsonModel>, inserts: int) -> TransactionModel {
    TransactionModel {
        operations: t.operations + ops,
        uuid_counter: (t.uuid_counter + inserts) as u32,
        ..t
    }
}

/// An object with the given members, in order.
pub open spec fn jobj(members: Seq<(Seq<char>, JsonModel)>) -> JsonModel {
    JsonModel::Object(members)
}

/// The operations that create a bridge named `name`, with its port and
/// internal interface, when the next temporary name is `row{c}`.
pub open spec fn create_bridge_ops(name: Seq<char>, c: int) -> Seq<JsonModel> {
    seq![
        op_insert(
            "Interface"@,
            jobj(seq![("name"@, jstr(name)), ("type"@, jstr("internal"@))]),
            row_name(c),
        ),
        op_insert(
            "Port"@,
            jobj(seq![("name"@, jstr(name)), ("interfaces"@, named_ref(row_name(c)))]),
            row_name(c + 1),
        ),
        op_insert(
            "Bridge"@,
            jobj(seq![("name"@, jstr(name)), ("ports"@, named_ref(row_name(c + 1)))]),
            row_name(c + 2),
        ),
        op_mutate(
            "Open_vSwitch"@,
            crate::ovsdb::ops::where_all(),
            seq![crate::ovsdb::ops::mutation("bridges"@, "insert"@, named_ref(row_name(c + 2)))],
        ),
    ]
}

/// The operations that add port `port` with an interface of type `kind`
/// (and, if given, VLAN tag `tag`) to bridge `bridge`, when the next
/// temporary name is `row{c}`.
pub open spec fn add_port_ops(
    bridge: Seq<char>,
    port: Seq<char>,
    kind: Seq<char>,
    tag: Option<u16>,
    c: int,
) -> Seq<JsonModel> {
    let port_row = match tag {
        None => jobj(seq![("name"@, jstr(port)), ("interfaces"@, named_ref(row_name(c)))]),
        Some(t) => jobj(
            seq![
                ("name"@, jstr(port)),
                ("interfaces"@, named_ref(row_name(c))),
                ("tag"@, JsonModel::UInt(t as u64)),
            ],
        ),
    };
    seq![
        op_insert("Interface"@, jobj(seq![("name"@, jstr(port)), ("type"@, jstr(kind))]), row_name(c)),
        op_insert("Port"@, port_row, row_name(c + 1)),
        op_mutate(
            "Bridge"@,
            where_name(bridge),
            seq![crate::ovsdb::ops::mutation("ports"@, "insert"@, named_ref(row_name(c + 1)))],
        ),
    ]
}

/// The operations that add an internal port `port` to bridge `bridge`.
pub open spec fn internal_port_ops(bridge: Seq<char>, port: Seq<char>, c: int) -> Seq<JsonModel> {
    add_port_ops(bridge, port, "internal"@, None, c)
}

/// The operations that add a system port `port` to bridge `bridge`.
pub open spec fn system_port_ops(bridge: Seq<char>, port: Seq<char>, c: int) -> Seq<JsonModel> {
    add_port_ops(bridge, port, "system"@, None, c)
}

/// The operations that add an internal port `port`, tagged `vlan`, to
/// bridge `bridge`.
pub open spec fn vlan_port_ops(bridge: Seq<char>, port: Seq<char>, vlan: u16, c: int) -> Seq<JsonModel> {
    add_port_ops(bridge, port, "internal"@, Some(vlan), c)
}

/// The operations that delete, by name, the interface and the port named
/// `port`.
pub open spec fn delete_port_named_ops(port: Seq<char>) -> Seq<JsonModel> {
    seq![op_delete("Interface"@, where_name(port)), op_delete("Port"@, where_name(port))]
}

/// The operations that delete, by name, the interface, the port and the
/// bridge named `name`.
pub open spec fn delete_bridge_named_ops(name: Seq<char>) -> Seq<JsonModel> {
    seq![
        op_delete("Interface"@, where_name(name)),
        op_delete("Port"@, where_name(name)),
        op_delete("Bridge"@, where_name(name)),
    ]
}

/// The default name of the patch port on `from` that leads to `to`.
pub open spec fn patch_name(from: Seq<char>, to: Seq<char>) -> Seq<char> {
    "patch-"@ + from + "-to-"@ + to
}

/// The operations for one end of a patch-port pair: the patch interface
/// `name` whose peer is `peer`, its port (with the `extra` port columns),
/// and the port's addition to `bridge`, when the next temporary name is
/// `row{c}`.
pub open spec fn patch_end_ops(
    bridge: Seq<char>,
    name: Seq<char>,
    peer: Seq<char>,
    extra: Seq<(Seq<char>, JsonModel)>,
    c: int,
) -> Seq<JsonModel> {
    seq![
        op_insert(
            "Interface"@,
            jobj(
                seq![
                    ("name"@, jstr(name)),
                    ("type"@, jstr("patch"@)),
                    (
                        "options"@,
                        JsonModel::Array(
                            seq![
                                jstr("map"@),
                                JsonModel::Array(
                                    seq![JsonModel::Array(seq![jstr("peer"@), jstr(peer)])],
                                ),
                            ],
                        ),
                    ),
                ],
            ),
            row_name(c),
        ),
        op_insert(
            "Port"@,
            jobj(seq![("name"@, jstr(name)), ("interfaces"@, named_ref(row_name(c)))] + extra),
            row_name(c + 1),
        ),
        op_mutate(
            "Bridge"@,
            where_name(bridge),
            seq![crate::ovsdb::ops::mutation("ports"@, "insert"@, named_ref(row_name(c + 1)))],
        ),
    ]
}

/// The operations for a pair of patch ports: port `name1` on `bridge1` and
/// port `name2` on `bridge2`, each naming the other as its peer, both with
/// the `extra` port columns, when the next temporary name is `row{c}`.
pub open spec fn patch_pair_ops(
    bridge1: Seq<char>,
    bridge2: Seq<char>,
    name1: Seq<char>,
    name2: Seq<char>,
    extra: Seq<(Seq<char>, JsonModel)>,
    c: int,
) -> Seq<JsonModel> {
    patch_end_ops(bridge1, name1, name2, extra, c) + patch_end_ops(bridge2, name2, name1, extra, c + 2)
}

/// The trunk columns of a patch port that passes `vlans`: one VLAN is
/// given as a number, any other count as a set.
pub open spec fn trunk_columns(vlans: Seq<u16>) -> Seq<(Seq<char>, JsonModel)> {
    let set = if vlans.len() == 1 {
        JsonModel::UInt(vlans[0] as u64)
    } else {
        JsonModel::Array(
            seq![
                jstr("set"@),
                JsonModel::Array(vlans.map_values(|v: u16| JsonModel::UInt(v as u64))),
            ],
        )
    };
    seq![("vlan_mode"@, jstr("trunk"@)), ("trunks"@, set)]
}

/// The operations that delete a bridge, given the UUIDs of the bridge, its
/// ports and their interfaces.
pub open spec fn delete_bridge_ops(bridge: u128, ports: Seq<u128>, ifaces: Seq<u128>) -> Seq<JsonModel> {
    seq![
        op_mutate(
            "Open_vSwitch"@,
            crate::ovsdb::ops::where_all(),
            seq![crate::ovsdb::ops::mutation("bridges"@, "delete"@, crate::ovsdb::ops::uuid_set(bridge))],
        ),
    ] + ifaces.map_values(|u: u128| op_delete("Interface"@, where_uuid(u))) + ports.map_values(
        |u: u128| op_delete("Port"@, where_uuid(u)),
    ) + seq![op_delete("Bridge"@, where_uuid(bridge))]
}

/// Whether the result of one operation reports an error: its `error`
/// member is present and not null.
pub open spec fn result_has_error(r: JsonModel) -> bool {
    match object_get(r, "error"@) {
        Some(e) => !(e is Null),
        None => false,
    }
}

/// The text of the UUID an operation's result names in its `uuid` member,
/// written `["uuid", TEXT]`.
pub open spec fn result_uuid_text(r: JsonModel) -> Option<Seq<char>> {
    match object_get(r, "uuid"@) {
        Some(JsonModel::Array(a)) => if a.len() == 2 && a[0] == jstr("uuid"@) {
            str_of(a[1])
        } else {
            None
        },
        _ => None,
    }
}

/// The UUIDs that the results name, as `uuid::Uuid::parse_str` reads them.
pub open spec fn parsed_uuids(results: Seq<JsonModel>) -> Seq<Option<Uuid>> {
    results.map_values(
        |r: JsonModel|
            match result_uuid_text(r) {
                Some(t) => match uuid_parsed(t) {
                    Some(v) => Some(Uuid { value: v }),
                    None => None,
                },
                None => None,
            },
    )
}

/// The index of the first result that reports an error, or the number of
/// results if none does.
pub open spec fn first_error(results: Seq<JsonModel>) -> int
    decreases results.len(),
{
    if results.len() == 0 {
        0
    } else if result_has_error(results[0]) {
        0
    } else {
        1 + first_error(results.drop_first())
    }
}

/// The temporary name an operation gives the row it inserts: the text of
/// its `uuid-name` member, which only an `insert` carries.
pub open spec fn op_name(op: JsonModel) -> Option<Seq<char>> {
    match object_get(op, "uuid-name"@) {
        Some(v) => str_of(v),
        None => None,
    }
}

/// The temporary name of operation `i`; `None` past the last operation.
pub open spec fn op_name_at(ops: Seq<JsonModel>, i: int) -> Option<Seq<char>> {
    if 0 <= i < ops.len() {
        op_name(ops[i])
    } else {
        None
    }
}

/// No two operations give their rows the same temporary name.
pub open spec fn names_distinct(ops: Seq<JsonModel>) -> bool {
    forall|i: int, j: int|
        0 <= i < j < ops.len() && #[trigger] op_name(ops[i]) is Some && #[trigger] op_name(ops[j]) is Some
            ==> op_name(ops[i]) != op_name(ops[j])
}

/// The number `n` of a temporary name `row{n}`.
pub open spec fn name_number(name: Seq<char>) -> nat {
    crate::text::digits_value(name.subrange(3, name.len() as int))
}

/// The temporary names of `ops` are numbered in increasing order, each
/// below `counter`.
pub open spec fn names_ordered(ops: Seq<JsonModel>, counter: int) -> bool {
    &&& forall|i: int|
        0 <= i < ops.len() && #[trigger] op_name(ops[i]) is Some ==> name_number(op_name(ops[i])->0) < counter
    &&& forall|i: int, j: int|
        0 <= i < j < ops.len() && #[trigger] op_name(ops[i]) is Some && #[trigger] op_name(ops[j]) is Some
            ==> name_number(op_name(ops[i])->0) < name_number(op_name(ops[j])->0)
}

/// The table of UUIDs after recording, for each of the first `n` results,
/// the UUID parsed from it under the temporary name of the operation it
/// answers, where that operation is an insert.
pub open spec fn record_uuids(
    m: Seq<(Seq<char>, u128)>,
    ops: Seq<JsonModel>,
    parsed: Seq<Option<Uuid>>,
    n: int,
) -> Seq<(Seq<char>, u128)>
    decreases n,
{
    if n <= 0 {
        m
    } else {
        let before = record_uuids(m, ops, parsed, n - 1);
        match (op_name_at(ops, n - 1), parsed[n - 1]) {
            (Some(name), Some(u)) => map_set(before, name, u.value),
            _ => before,
        }
    }
}

/// The transaction after the server's `result`, given the UUID parsed from
/// each operation's result: on an array, the UUIDs of the inserts answered
/// before the first error are recorded under their temporary names, and the
/// status is success when no result reports an error; anything else is an
/// error.
pub open spec fn after_result(t: TransactionModel, result: JsonModel, parsed: Seq<Option<Uuid>>) -> TransactionModel {
    match result {
        JsonModel::Array(items) => {
            let n = first_error(items);
            TransactionModel {
                uuid_map: record_uuids(t.uuid_map, t.operations, parsed, n),
                status: if n < items.len() {
                    TransactionStatus::Error
                } else {
                    TransactionStatus::Success
                },
                ..t
            }
        },
        _ => TransactionModel { status: TransactionStatus::Error, ..t },
    }
}

/// Each insert answered before the first error reads back, under its own
/// temporary name, the UUID that its result named.
pub open spec fn inserts_recorded(
    ops: Seq<JsonModel>,
    m: Seq<(Seq<char>, u128)>,
    results: Seq<JsonModel>,
    parsed: Seq<Option<Uuid>>,
) -> bool {
    forall|i: int|
        0 <= i < first_error(results) && #[trigger] op_name_at(ops, i) is Some && parsed[i] is Some
            ==> map_lookup(m, op_name_at(ops, i)->0) == Some(parsed[i]->0.value)
}

/// The names of the entries of a table are the keys of its model.
proof fn lemma_uuid_map_keys(entries: Seq<(String, Uuid)>)
    ensures
        map_keys(uuid_map_model(entries)) == keys_of(entries),
{
    assert(map_keys(uuid_map_model(entries)) =~= keys_of(entries));
}

/// An object with two members.
fn obj2(k1: &str, v1: Json, k2: &str, v2: Json) -> (r: Json)
    ensures
        r@ == jobj(seq![(k1@, v1@), (k2@, v2@)]),
{
    let ghost (g1, g2) = (v1@, v2@);
    let mut ms: Vec<(String, Json)> = Vec::new();
    crate::ovsdb::ops::push_member(&mut ms, k1, v1);
    crate::ovsdb::ops::push_member(&mut ms, k2, v2);
    assert(crate::ovsdb::json::members_model(ms@) =~= seq![(k1@, g1), (k2@, g2)]);
    Json::Object(ms)
}

/// An object with three members.
fn obj3(k1: &str, v1: Json, k2: &str, v2: Json, k3: &str, v3: Json) -> (r: Json)
    ensures
        r@ == jobj(seq![(k1@, v1@), (k2@, v2@), (k3@, v3@)]),
{
    let ghost (g1, g2, g3) = (v1@, v2@, v3@);
    let mut ms: Vec<(String, Json)> = Vec::new();
    crate::ovsdb::ops::push_member(&mut ms, k1, v1);
    crate::ovsdb::ops::push_member(&mut ms, k2, v2);
    crate::ovsdb::ops::push_member(&mut ms, k3, v3);
    assert(crate::ovsdb::json::members_model(ms@) =~= seq![(k1@, g1), (k2@, g2), (k3@, g3)]);
    Json::Object(ms)
}

impl Transaction {
    /// The temporary names of the inserts are numbered in the order they
    /// were made, each below the counter.
    #[verifier::type_invariant]
    spec fn fresh_names(self) -> bool {
        names_ordered(items_model(self.operations@), self.uuid_counter as int)
    }

    /// Create a new transaction for the given database.
    pub fn new(db_name: &str) -> (r: Self)
        ensures
            r@ == (TransactionModel {
                db_name: db_name@,
                operations: Seq::empty(),
                status: TransactionStatus::Uncommitted,
                uuid_map: Seq::empty(),
                uuid_counter: 0,
            }),
    {
        let r = Transaction {
            db_name: db_name.to_owned(),
            operations: Vec::new(),
            status: TransactionStatus::Uncommitted,
            uuid_map: Vec::new(),
            uuid_counter: 0,
        };
        assert(uuid_map_model(r.uuid_map@) =~= Seq::empty());
        assert(items_model(r.operations@) =~= Seq::empty());
        r
    }

    /// Get the transaction status.
    pub fn status(&self) -> (r: TransactionStatus)
        ensures
            r == self@.status,
    {
        self.status
    }

    /// Get the database name.
    pub fn db_name(&self) -> (r: &str)
        ensures
            r@ == self@.db_name,
    {
        self.db_name.as_str()
    }

    /// Generate a temporary UUID name.
    fn next_temp_uuid(&mut self) -> (r: String)
        requires
            old(self)@.uuid_counter < u32::MAX,
        ensures
            r@ == row_name(old(self)@.uuid_counter as int),
            final(self)@ == (TransactionModel { uuid_counter: (old(self)@.uuid_counter + 1) as u32, ..old(self)@ }),
    {
        proof {
            use_type_invariant(&*self);
        }
        let name = "row".to_owned().concat(decimal_string(self.uuid_counter as u64).as_str());
        self.uuid_counter = self.uuid_counter + 1;
        name
    }

    /// Append one operation; the row it inserts, if any, is named after
    /// every earlier insert and below the counter.
    fn push_op(&mut self, op: Json)
        requires
            match op_name(op@) {
                Some(n) => name_number(n) < old(self)@.uuid_counter && forall|i: int|
                    0 <= i < old(self)@.operations.len() && #[trigger] op_name(old(self)@.operations[i]) is Some
                        ==> name_number(op_name(old(self)@.operations[i])->0) < name_number(n),
                None => true,
            },
        ensures
            final(self)@ == appended(old(self)@, seq![op@], 0),
    {
        proof {
            use_type_invariant(&*self);
            lemma_items_model_push(self.operations@, op);
        }
        let ghost before = items_model(self.operations@);
        let ghost g = op@;
        let mut ops: Vec<Json> = Vec::new();
        std::mem::swap(&mut ops, &mut self.operations);
        ops.push(op);
        proof {
            let after = items_model(ops@);
            assert(after =~= before + seq![g]);
            assert forall|i: int, j: int|
                0 <= i < j < after.len() && #[trigger] op_name(after[i]) is Some && #[trigger] op_name(after[j]) is Some
                    implies name_number(op_name(after[i])->0) < name_number(op_name(after[j])->0) by {
                assert(after[i] == before[i]);
                if j < before.len() {
                    assert(after[j] == before[j]);
                }
            }
            assert forall|i: int|
                0 <= i < after.len() && #[trigger] op_name(after[i]) is Some implies name_number(
                    op_name(after[i])->0,
                ) < self.uuid_counter by {
                if i < before.len() {
                    assert(after[i] == before[i]);
                }
            }
        }
        self.operations = ops;
    }

    /// Insert a new row into a table.
    ///
    /// Returns a [`RowRef::Named`] that can be used to reference this row
    /// in subsequent operations within the same transaction. After commit,
    /// use [`get_uuid`](Self::get_uuid) to retrieve the actual UUID.
    pub fn insert(&mut self, table: &str, row: Json) -> (r: RowRef)
        requires
            old(self)@.uuid_counter < u32::MAX,
        ensures
            final(self)@ == appended(
                old(self)@,
                seq![op_insert(table@, row@, row_name(old(self)@.uuid_counter as int))],
                1,
            ),
            r@ == RowRefModel::Named(row_name(old(self)@.uuid_counter as int)),
    {
        proof {
            use_type_invariant(&*self);
            lemma_op_names();
            lemma_name_number(self.uuid_counter as nat);
        }
        let uuid_name = self.next_temp_uuid();
        self.push_op(insert_op(table, row, uuid_name.as_str()));
        RowRef::Named(uuid_name)
    }

    /// Insert a new row given as a list of columns and values.
    pub fn insert_raw(&mut self, table: &str, row: Vec<(String, Json)>) -> (r: RowRef)
        requires
            old(self)@.uuid_counter < u32::MAX,
        ensures
            final(self)@ == appended(
                old(self)@,
                seq![
                    op_insert(
                        table@,
                        JsonModel::Object(crate::ovsdb::json::members_model(row@)),
                        row_name(old(self)@.uuid_counter as int),
                    ),
                ],
                1,
            ),
            r@ == RowRefModel::Named(row_name(old(self)@.uuid_counter as int)),
    {
        self.insert(table, Json::Object(row))
    }

    /// Update columns in an existing row identified by UUID.
    ///
    /// Only the columns specified in `columns` are modified; other columns
    /// retain their current values.
    pub fn update(&mut self, table: &str, uuid: Uuid, columns: Json)
        ensures
            final(self)@ == appended(old(self)@, seq![op_update(table@, uuid.value, columns@)], 0),
    {
        proof {
            lemma_op_names();
        }
        self.push_op(update_op(table, uuid, columns));
    }

    /// Mutate a row by adding/removing elements from sets or maps.
    pub fn mutate(&mut self, table: &str, uuid: Uuid, mutations: Vec<Json>)
        ensures
            final(self)@ == appended(
                old(self)@,
                seq![op_mutate(table@, where_uuid(uuid.value), items_model(mutations@))],
                0,
            ),
    {
        proof {
            lemma_op_names();
        }
        self.push_op(mutate_op(table, where_uuid_json(uuid), mutations));
    }

    /// Mutate rows matching `name == value`.
    pub fn mutate_by_name(&mut self, table: &str, name: &str, mutations: Vec<Json>)
        ensures
            final(self)@ == appended(
                old(self)@,
                seq![op_mutate(table@, where_name(name@), items_model(mutations@))],
                0,
            ),
    {
        proof {
            lemma_op_names();
        }
        self.push_op(mutate_op(table, where_name_json(name), mutations));
    }

    /// Mutate rows matching a custom condition. An empty condition matches
    /// all rows.
    pub fn mutate_where(&mut self, table: &str, condition: Json, mutations: Vec<Json>)
        ensures
            final(self)@ == appended(
                old(self)@,
                seq![op_mutate(table@, condition@, items_model(mutations@))],
                0,
            ),
    {
        proof {
            lemma_op_names();
        }
        self.push_op(mutate_op(table, condition, mutations));
    }

    /// Delete a row by its UUID.
    pub fn delete(&mut self, table: &str, uuid: Uuid)
        ensures
            final(self)@ == appended(old(self)@, seq![op_delete(table@, where_uuid(uuid.value))], 0),
    {
        proof {
            lemma_op_names();
        }
        self.push_op(delete_op(table, where_uuid_json(uuid)));
    }

    /// Delete rows where `name == value`.
    pub fn delete_by_name(&mut self, table: &str, name: &str)
        ensures
            final(self)@ == appended(old(self)@, seq![op_delete(table@, where_name(name@))], 0),
    {
        proof {
            lemma_op_names();
        }
        self.push_op(delete_op(table, where_name_json(name)));
    }

    /// Delete all rows matching a custom condition.
    pub fn delete_where(&mut self, table: &str, condition: Json)
        ensures
            final(self)@ == appended(old(self)@, seq![op_delete(table@, condition@)], 0),
    {
        proof {
            lemma_op_names();
        }
        self.push_op(delete_op(table, condition));
    }

    /// Add a wait operation that blocks until the rows that `condition`
    /// selects have the `expected` values in `columns`.
    pub fn wait(&mut self, table: &str, columns: Vec<String>, condition: Json, expected: Json)
        ensures
            final(self)@ == appended(
                old(self)@,
                seq![op_wait(table@, columns@.map_values(|c: String| c@), condition@, expected@)],
                0,
            ),
    {
        proof {
            lemma_op_names();
        }
        self.push_op(wait_op(table, &columns, condition, expected));
    }

    /// Add a comment to the transaction for debugging/logging.
    pub fn comment(&mut self, comment: &str)
        ensures
            final(self)@ == appended(old(self)@, seq![op_comment(comment@)], 0),
    {
        proof {
            lemma_op_names();
        }
        self.push_op(comment_op(comment));
    }

    /// Build the JSON-RPC parameters for the `transact` method: the database
    /// name followed by all operations.
    pub fn build(&self) -> (r: Json)
        ensures
            r@ == JsonModel::Array(seq![jstr(self@.db_name)] + self@.operations),
    {
        let mut ops: Vec<Json> = Vec::new();
        crate::ovsdb::ops::push_item(&mut ops, Json::Str(self.db_name.clone()));
        let mut i: usize = 0;
        while i < self.operations.len()
            invariant
                i <= self.operations.len(),
                items_model(ops@) == seq![jstr(self.db_name@)] + items_model(self.operations@).take(i as int),
            decreases self.operations.len() - i,
        {
            let c = self.operations[i].clone();
            let ghost before = items_model(ops@);
            crate::ovsdb::ops::push_item(&mut ops, c);
            proof {
                lemma_items_model_index(self.operations@, i as int);
                assert(items_model(self.operations@).take(i + 1) =~= items_model(self.operations@).take(
                    i as int,
                ).push(self.operations@[i as int]@));
            }
            i = i + 1;
        }
        proof {
            lemma_items_model_len(self.operations@);
            assert(items_model(self.operations@).take(self.operations.len() as int) =~= items_model(
                self.operations@,
            ));
        }
        Json::Array(ops)
    }

    /// Get the list of operations for debugging or inspection.
    pub fn operations(&self) -> (r: &Vec<Json>)
        ensures
            items_model(r@) == self@.operations,
    {
        &self.operations
    }

    /// Check if the transaction has no operations.
    pub fn is_empty(&self) -> (r: bool)
        ensures
            r == (self@.operations.len() == 0),
    {
        proof {
            lemma_items_model_len(self.operations@);
        }
        self.operations.len() == 0
    }

    /// Get the mapping from named-uuids to actual UUIDs after commit.
    pub fn uuid_map(&self) -> (r: &Vec<(String, Uuid)>)
        ensures
            uuid_map_model(r@) == self@.uuid_map,
    {
        &self.uuid_map
    }

    /// Look up the actual UUID for a named-uuid after commit.
    pub fn get_uuid(&self, name: &str) -> (r: Option<Uuid>)
        ensures
            match map_lookup(self@.uuid_map, name@) {
                Some(v) => r == Some(Uuid { value: v }),
                None => r is None,
            },
    {
        proof {
            lemma_uuid_map_keys(self.uuid_map@);
            lemma_index_of_key(keys_of(self.uuid_map@), name@);
        }
        match find_key(&self.uuid_map, name) {
            Some(i) => Some(self.uuid_map[i].1),
            None => None,
        }
    }

    /// Record `uuid` as the UUID of the row named `name`.
    fn record(&mut self, name: String, uuid: Uuid)
        ensures
            final(self)@ == (TransactionModel {
                uuid_map: map_set(old(self)@.uuid_map, name@, uuid.value),
                ..old(self)@
            }),
    {
        proof {
            use_type_invariant(&*self);
            lemma_uuid_map_keys(self.uuid_map@);
            lemma_index_of_key(keys_of(self.uuid_map@), name@);
        }
        let mut m: Vec<(String, Uuid)> = Vec::new();
        std::mem::swap(&mut m, &mut self.uuid_map);
        match find_key(&m, name.as_str()) {
            Some(i) => {
                m.set(i, (name, uuid));
                assert(uuid_map_model(m@) =~= old(self)@.uuid_map.update(i as int, (name@, uuid.value)));
            },
            None => {
                m.push((name, uuid));
                assert(uuid_map_model(m@) =~= old(self)@.uuid_map.push((name@, uuid.value)));
            },
        }
        self.uuid_map = m;
    }

    /// Apply the server's result for this transaction, given the UUID parsed
    /// from each operation's result (`None` where there is none): each
    /// inserted row's UUID is recorded under the insert's temporary name.
    ///
    /// Returns `true` if the transaction succeeded, `false` otherwise.
    pub fn apply_result(&mut self, result: &Json, parsed: &Vec<Option<Uuid>>) -> (r: bool)
        requires
            result@ matches JsonModel::Array(items) ==> parsed@.len() == items.len(),
        ensures
            final(self)@ == after_result(old(self)@, result@, parsed@),
            r == (final(self)@.status == TransactionStatus::Success),
            result@ matches JsonModel::Array(items) ==> inserts_recorded(
                old(self)@.operations,
                final(self)@.uuid_map,
                items,
                parsed@,
            ),
    {
        proof {
            use_type_invariant(&*self);
            lemma_ordered_distinct(items_model(self.operations@), self.uuid_counter as int);
        }
        match result {
            Json::Array(items) => {
                proof {
                    lemma_items_model_len(items@);
                    lemma_first_error_bound(items_model(items@));
                    lemma_items_model_len(self.operations@);
                    lemma_inserts_recorded(old(self)@.uuid_map, old(self)@.operations, items_model(items@), parsed@);
                }
                let ghost results = items_model(items@);
                let mut i: usize = 0;
                while i < items.len()
                    invariant
                        i <= items.len(),
                        *result == Json::Array(*items),
                        results == items_model(items@),
                        results.len() == items.len(),
                        parsed@.len() == items.len(),
                        i <= first_error(results) <= results.len(),
                        forall|j: int| 0 <= j < i ==> !result_has_error(#[trigger] results[j]),
                        self@ == (TransactionModel {
                            uuid_map: record_uuids(old(self)@.uuid_map, old(self)@.operations, parsed@, i as int),
                            ..old(self)@
                        }),
                    decreases items.len() - i,
                {
                    proof {
                        lemma_items_model_index(items@, i as int);
                        lemma_first_error(results, i as int);
                        use_type_invariant(&*self);
                        lemma_items_model_len(self.operations@);
                    }
                    let failed = match items[i].get("error") {
                        Some(e) => !e.is_null(),
                        None => false,
                    };
                    if failed {
                        proof {
                            lemma_ordered_distinct(old(self)@.operations, old(self)@.uuid_counter as int);
                            lemma_inserts_recorded(old(self)@.uuid_map, old(self)@.operations, results, parsed@);
                        }
                        self.status = TransactionStatus::Error;
                        return false;
                    }
                    let name: Option<String> = if i < self.operations.len() {
                        proof {
                            lemma_items_model_index(self.operations@, i as int);
                        }
                        match insert_name(&self.operations[i]) {
                            Some(n) => Some(n.to_owned()),
                            None => None,
                        }
                    } else {
                        None
                    };
                    match name {
                        Some(n) => match parsed[i] {
                            Some(u) => {
                                self.record(n, u);
                            },
                            None => {},
                        },
                        None => {},
                    }
                    i = i + 1;
                }
                proof {
                    use_type_invariant(&*self);
                }
                self.status = TransactionStatus::Success;
                true
            },
            _ => {
                self.status = TransactionStatus::Error;
                false
            },
        }
    }

    /// Process the transaction result from the server: record the UUID of
    /// each inserted row under the temporary name its insert was given, and
    /// set the status.
    ///
    /// Returns `true` if the transaction succeeded, `false` otherwise.
    pub fn process_result(&mut self, result: &Json) -> (r: bool)
        ensures
            final(self)@ == after_result(
                old(self)@,
                result@,
                match result@ {
                    JsonModel::Array(items) => parsed_uuids(items),
                    _ => Seq::empty(),
                },
            ),
            r == (final(self)@.status == TransactionStatus::Success),
            result@ matches JsonModel::Array(items) ==> inserts_recorded(
                old(self)@.operations,
                final(self)@.uuid_map,
                items,
                parsed_uuids(items),
            ),
    {
        let mut parsed: Vec<Option<Uuid>> = Vec::new();
        match result {
            Json::Array(items) => {
                proof {
                    lemma_items_model_len(items@);
                }
                let mut i: usize = 0;
                while i < items.len()
                    invariant
                        i <= items.len(),
                        parsed@ == parsed_uuids(items_model(items@)).take(i as int),
                    decreases items.len() - i,
                {
                    proof {
                        lemma_items_model_index(items@, i as int);
                    }
                    let p = match uuid_text_of(&items[i]) {
                        Some(t) => Uuid::parse(t),
                        None => None,
                    };
                    parsed.push(p);
                    assert(parsed@ =~= parsed_uuids(items_model(items@)).take(i + 1));
                    i = i + 1;
                }
                assert(parsed@ =~= parsed_uuids(items_model(items@)));
            },
            _ => {},
        }
        self.apply_result(result, &parsed)
    }

    /// Manually mark the transaction as successful.
    pub fn set_success(&mut self)
        ensures
            final(self)@ == (TransactionModel { status: TransactionStatus::Success, ..old(self)@ }),
    {
        proof {
            use_type_invariant(&*self);
        }
        self.status = TransactionStatus::Success;
    }

    /// Manually mark the transaction as failed with an error.
    pub fn set_error(&mut self)
        ensures
            final(self)@ == (TransactionModel { status: TransactionStatus::Error, ..old(self)@ }),
    {
        proof {
            use_type_invariant(&*self);
        }
        self.status = TransactionStatus::Error;
    }

    /// Mark the transaction as needing retry (e.g., due to a conflict).
    pub fn set_try_again(&mut self)
        ensures
            final(self)@ == (TransactionModel { status: TransactionStatus::TryAgain, ..old(self)@ }),
    {
        proof {
            use_type_invariant(&*self);
        }
        self.status = TransactionStatus::TryAgain;
    }

    /// Mark the transaction as explicitly aborted.
    pub fn abort(&mut self)
        ensures
            final(self)@ == (TransactionModel { status: TransactionStatus::Aborted, ..old(self)@ }),
    {
        proof {
            use_type_invariant(&*self);
        }
        self.status = TransactionStatus::Aborted;
    }
}

/// The temporary name an operation gives the row it inserts.
fn insert_name(op: &Json) -> (r: Option<&str>)
    ensures
        match op_name(op@) {
            Some(n) => r matches Some(x) && x@ == n,
            None => r is None,
        },
{
    match op.get("uuid-name") {
        Some(v) => v.as_str(),
        None => None,
    }
}

/// The text of the UUID that one operation's result names.
fn uuid_text_of(r: &Json) -> (t: Option<&str>)
    ensures
        match result_uuid_text(r@) {
            Some(x) => t matches Some(y) && y@ == x,
            None => t is None,
        },
{
    match r.get("uuid") {
        Some(obj) => match obj.as_array() {
            Some(arr) => {
                proof {
                    lemma_items_model_len(arr@);
                }
                if arr.len() == 2 {
                    proof {
                        lemma_items_model_index(arr@, 0);
                        lemma_items_model_index(arr@, 1);
                    }
                    match arr[0].as_str() {
                        Some(tag) => {
                            if tag.unicode_len() == 4 && tag.get_char(0) == 'u' && tag.get_char(1) == 'u'
                                && tag.get_char(2) == 'i' && tag.get_char(3) == 'd' {
                                proof {
                                    reveal_strlit("uuid");
                                    assert(tag@ =~= "uuid"@);
                                }
                                arr[1].as_str()
                            } else {
                                proof {
                                    reveal_strlit("uuid");
                                    if tag@ == "uuid"@ {
                                        assert(tag@[0] == 'u');
                                    }
                                }
                                None
                            }
                        },
                        None => None,
                    }
                } else {
                    None
                }
            },
            None => None,
        },
        None => None,
    }
}

/// Before the first error, no result reports one; at it, one does.
proof fn lemma_first_error(results: Seq<JsonModel>, i: int)
    requires
        0 <= i < results.len(),
        forall|j: int| 0 <= j < i ==> !result_has_error(#[trigger] results[j]),
    ensures
        i <= first_error(results) <= results.len(),
        result_has_error(results[i]) ==> first_error(results) == i,
        !result_has_error(results[i]) ==> i + 1 <= first_error(results),
    decreases i,
{
    lemma_first_error_bound(results);
    lemma_first_error_bound(results.drop_first());
    if i > 0 {
        assert(!result_has_error(results[0]));
        let rest = results.drop_first();
        assert forall|j: int| 0 <= j < i - 1 implies !result_has_error(#[trigger] rest[j]) by {
            assert(rest[j] == results[j + 1]);
        }
        lemma_first_error(rest, i - 1);
    }
}

proof fn lemma_first_error_bound(results: Seq<JsonModel>)
    ensures
        0 <= first_error(results) <= results.len(),
    decreases results.len(),
{
    if results.len() > 0 {
        lemma_first_error_bound(results.drop_first());
    }
}


/// The name a patch port gets: the one given, or the default name for the
/// port on `from` that leads to `to`.
pub open spec fn chosen_name(given: Option<&str>, from: Seq<char>, to: Seq<char>) -> Seq<char> {
    match given {
        Some(n) => n@,
        None => patch_name(from, to),
    }
}

/// The operations of `delete_port_uuid`.
pub open spec fn delete_port_ops(bridge: u128, port: u128, iface: u128) -> Seq<JsonModel> {
    seq![
        op_mutate(
            "Bridge"@,
            where_uuid(bridge),
            seq![crate::ovsdb::ops::mutation("ports"@, "delete"@, crate::ovsdb::ops::uuid_set(port))],
        ),
        op_delete("Interface"@, where_uuid(iface)),
        op_delete("Port"@, where_uuid(port)),
    ]
}

/// The values of some UUIDs.
pub open spec fn uuid_values(us: Seq<Uuid>) -> Seq<u128> {
    us.map_values(|u: Uuid| u.value)
}

/// The name `name`, or the default patch-port name from `from` to `to`.
fn patch_port_name(given: Option<&str>, from: &str, to: &str) -> (r: String)
    ensures
        r@ == chosen_name(given, from@, to@),
{
    match given {
        Some(n) => n.to_owned(),
        None => "patch-".to_owned().concat(from).concat("-to-").concat(to),
    }
}

/// Append copies of `extra` to the members `ms`.
fn append_members(ms: &mut Vec<(String, Json)>, extra: &Vec<(String, Json)>)
    ensures
        crate::ovsdb::json::members_model(final(ms)@) == crate::ovsdb::json::members_model(old(ms)@)
            + crate::ovsdb::json::members_model(extra@),
{
    let ghost start = crate::ovsdb::json::members_model(ms@);
    let mut i: usize = 0;
    while i < extra.len()
        invariant
            i <= extra.len(),
            crate::ovsdb::json::members_model(ms@) == start + crate::ovsdb::json::members_model(
                extra@,
            ).take(i as int),
        decreases extra.len() - i,
    {
        proof {
            crate::ovsdb::json::lemma_members_model_index(extra@, i as int);
        }
        let k = extra[i].0.clone();
        let v = extra[i].1.clone();
        let ghost before = crate::ovsdb::json::members_model(ms@);
        crate::ovsdb::ops::push_member(ms, k.as_str(), v);
        assert(crate::ovsdb::json::members_model(extra@).take(i + 1) =~= crate::ovsdb::json::members_model(
            extra@,
        ).take(i as int).push((extra@[i as int].0@, extra@[i as int].1@)));
        i = i + 1;
    }
    proof {
        crate::ovsdb::json::lemma_members_model_len(extra@);
        assert(crate::ovsdb::json::members_model(extra@).take(extra.len() as int)
            =~= crate::ovsdb::json::members_model(extra@));
    }
}

impl Transaction {
    /// Create a bridge with a default internal port.
    ///
    /// Creates the interface, the port and the bridge, all with the same
    /// name, and registers the bridge with `Open_vSwitch`.
    ///
    /// Returns `(bridge_ref, port_ref, iface_ref)`.
    pub fn create_bridge(&mut self, name: &str) -> (r: (RowRef, RowRef, RowRef))
        requires
            old(self)@.uuid_counter + 3 <= u32::MAX,
        ensures
            final(self)@ == appended(
                old(self)@,
                create_bridge_ops(name@, old(self)@.uuid_counter as int),
                3,
            ),
            r.0@ == RowRefModel::Named(row_name(old(self)@.uuid_counter + 2)),
            r.1@ == RowRefModel::Named(row_name(old(self)@.uuid_counter + 1)),
            r.2@ == RowRefModel::Named(row_name(old(self)@.uuid_counter as int)),
    {
        let ghost start = self@;
        let iface_ref = self.insert(
            "Interface",
            obj2("name", Json::string(name), "type", Json::string("internal")),
        );
        let port_ref = self.insert(
            "Port",
            obj2("name", Json::string(name), "interfaces", iface_ref.to_json()),
        );
        let bridge_ref = self.insert(
            "Bridge",
            obj2("name", Json::string(name), "ports", bridge_ports(&port_ref)),
        );
        let mut muts: Vec<Json> = Vec::new();
        crate::ovsdb::ops::push_item(
            &mut muts,
            crate::ovsdb::ops::mutation_json("bridges", "insert", bridge_ref.to_json()),
        );
        self.mutate_where("Open_vSwitch", crate::ovsdb::ops::where_all_json(), muts);
        assert(self@.operations =~= start.operations + create_bridge_ops(
            name@,
            start.uuid_counter as int,
        ));
        (bridge_ref, port_ref, iface_ref)
    }

    /// Delete a bridge by UUID: remove it from `Open_vSwitch.bridges`, then
    /// delete its interfaces, its ports and the bridge row.
    pub fn delete_bridge_uuid(&mut self, bridge_uuid: Uuid, port_uuids: &[Uuid], iface_uuids: &[Uuid])
        ensures
            final(self)@ == appended(
                old(self)@,
                delete_bridge_ops(bridge_uuid.value, uuid_values(port_uuids@), uuid_values(iface_uuids@)),
                0,
            ),
    {
        let ghost start = self@;
        let mut muts: Vec<Json> = Vec::new();
        crate::ovsdb::ops::push_item(
            &mut muts,
            crate::ovsdb::ops::mutation_json(
                "bridges",
                "delete",
                crate::ovsdb::ops::uuid_set_json(bridge_uuid),
            ),
        );
        self.mutate_where("Open_vSwitch", crate::ovsdb::ops::where_all_json(), muts);
        let ghost tail = seq![
            op_mutate(
                "Open_vSwitch"@,
                crate::ovsdb::ops::where_all(),
                seq![crate::ovsdb::ops::mutation("bridges"@, "delete"@, crate::ovsdb::ops::uuid_set(bridge_uuid.value))],
            ),
        ];
        let ghost iface_ops = uuid_values(iface_uuids@).map_values(
            |u: u128| op_delete("Interface"@, where_uuid(u)),
        );
        let ghost port_ops = uuid_values(port_uuids@).map_values(
            |u: u128| op_delete("Port"@, where_uuid(u)),
        );
        assert(tail + iface_ops.take(0) =~= tail);
        let mut i: usize = 0;
        while i < iface_uuids.len()
            invariant
                i <= iface_uuids.len(),
                iface_ops == uuid_values(iface_uuids@).map_values(
                    |u: u128| op_delete("Interface"@, where_uuid(u)),
                ),
                self@ == appended(start, tail + iface_ops.take(i as int), 0),
            decreases iface_uuids.len() - i,
        {
            self.delete("Interface", iface_uuids[i]);
            assert(tail + iface_ops.take(i + 1) =~= (tail + iface_ops.take(i as int)) + seq![
                op_delete("Interface"@, where_uuid(iface_uuids@[i as int].value)),
            ]);
            assert(self@.operations =~= start.operations + (tail + iface_ops.take(i + 1)));
            i = i + 1;
        }
        assert(iface_ops.take(iface_uuids.len() as int) =~= iface_ops);
        assert(tail + iface_ops + port_ops.take(0) =~= tail + iface_ops);
        let mut j: usize = 0;
        while j < port_uuids.len()
            invariant
                j <= port_uuids.len(),
                port_ops == uuid_values(port_uuids@).map_values(
                    |u: u128| op_delete("Port"@, where_uuid(u)),
                ),
                self@ == appended(start, tail + iface_ops + port_ops.take(j as int), 0),
            decreases port_uuids.len() - j,
        {
            self.delete("Port", port_uuids[j]);
            assert(tail + iface_ops + port_ops.take(j + 1) =~= (tail + iface_ops + port_ops.take(j as int)) + seq![
                op_delete("Port"@, where_uuid(port_uuids@[j as int].value)),
            ]);
            assert(self@.operations =~= start.operations + (tail + iface_ops + port_ops.take(j + 1)));
            j = j + 1;
        }
        self.delete("Bridge", bridge_uuid);
        assert(port_ops.take(port_uuids.len() as int) =~= port_ops);
        assert(self@.operations =~= start.operations + delete_bridge_ops(
            bridge_uuid.value,
            uuid_values(port_uuids@),
            uuid_values(iface_uuids@),
        ));
    }

    /// Delete a bridge by name: its interface, its port and the bridge row.
    pub fn delete_bridge(&mut self, name: &str)
        ensures
            final(self)@ == appended(old(self)@, delete_bridge_named_ops(name@), 0),
    {
        let ghost start = self@;
        self.delete_by_name("Interface", name);
        self.delete_by_name("Port", name);
        self.delete_by_name("Bridge", name);
        assert(self@.operations =~= start.operations + seq![
            op_delete("Interface"@, where_name(name@)),
            op_delete("Port"@, where_name(name@)),
            op_delete("Bridge"@, where_name(name@)),
        ]);
    }

    /// Add a port with a custom interface type to an existing bridge.
    ///
    /// Returns `(port_ref, iface_ref)`.
    pub fn add_port(&mut self, bridge_name: &str, port_name: &str, iface_type: &str) -> (r: (RowRef, RowRef))
        requires
            old(self)@.uuid_counter + 2 <= u32::MAX,
        ensures
            final(self)@ == appended(
                old(self)@,
                add_port_ops(bridge_name@, port_name@, iface_type@, None, old(self)@.uuid_counter as int),
                2,
            ),
            r.0@ == RowRefModel::Named(row_name(old(self)@.uuid_counter + 1)),
            r.1@ == RowRefModel::Named(row_name(old(self)@.uuid_counter as int)),
    {
        let ghost start = self@;
        let iface_ref = self.insert(
            "Interface",
            obj2("name", Json::string(port_name), "type", Json::string(iface_type)),
        );
        let port_ref = self.insert(
            "Port",
            obj2("name", Json::string(port_name), "interfaces", iface_ref.to_json()),
        );
        self.add_to_bridge(bridge_name, &port_ref);
        assert(self@.operations =~= start.operations + add_port_ops(
            bridge_name@,
            port_name@,
            iface_type@,
            None,
            start.uuid_counter as int,
        ));
        (port_ref, iface_ref)
    }

    /// Add `port_ref` to the ports of the bridge named `bridge_name`.
    fn add_to_bridge(&mut self, bridge_name: &str, port_ref: &RowRef)
        ensures
            final(self)@ == appended(
                old(self)@,
                seq![
                    op_mutate(
                        "Bridge"@,
                        where_name(bridge_name@),
                        seq![crate::ovsdb::ops::mutation("ports"@, "insert"@, row_ref_json(port_ref@))],
                    ),
                ],
                0,
            ),
    {
        let mut muts: Vec<Json> = Vec::new();
        crate::ovsdb::ops::push_item(
            &mut muts,
            crate::ovsdb::ops::mutation_json("ports", "insert", port_ref.to_json()),
        );
        self.mutate_by_name("Bridge", bridge_name, muts);
    }

    /// Add an internal port to a bridge.
    pub fn add_internal_port(&mut self, bridge_name: &str, port_name: &str) -> (r: (RowRef, RowRef))
        requires
            old(self)@.uuid_counter + 2 <= u32::MAX,
        ensures
            final(self)@ == appended(
                old(self)@,
                internal_port_ops(bridge_name@, port_name@, old(self)@.uuid_counter as int),
                2,
            ),
            r.0@ == RowRefModel::Named(row_name(old(self)@.uuid_counter + 1)),
            r.1@ == RowRefModel::Named(row_name(old(self)@.uuid_counter as int)),
    {
        self.add_port(bridge_name, port_name, "internal")
    }

    /// Add a system port (an interface that already exists in the kernel) to
    /// a bridge.
    pub fn add_system_port(&mut self, bridge_name: &str, port_name: &str) -> (r: (RowRef, RowRef))
        requires
            old(self)@.uuid_counter + 2 <= u32::MAX,
        ensures
            final(self)@ == appended(
                old(self)@,
                system_port_ops(bridge_name@, port_name@, old(self)@.uuid_counter as int),
                2,
            ),
            r.0@ == RowRefModel::Named(row_name(old(self)@.uuid_counter + 1)),
            r.1@ == RowRefModel::Named(row_name(old(self)@.uuid_counter as int)),
    {
        self.add_port(bridge_name, port_name, "system")
    }

    /// Add a VLAN access port: an internal port tagged with `vlan_id`.
    pub fn add_vlan_port(&mut self, bridge_name: &str, port_name: &str, vlan_id: u16) -> (r: (RowRef, RowRef))
        requires
            old(self)@.uuid_counter + 2 <= u32::MAX,
        ensures
            final(self)@ == appended(
                old(self)@,
                vlan_port_ops(bridge_name@, port_name@, vlan_id, old(self)@.uuid_counter as int),
                2,
            ),
            r.0@ == RowRefModel::Named(row_name(old(self)@.uuid_counter + 1)),
            r.1@ == RowRefModel::Named(row_name(old(self)@.uuid_counter as int)),
    {
        let ghost start = self@;
        let iface_ref = self.insert(
            "Interface",
            obj2("name", Json::string(port_name), "type", Json::string("internal")),
        );
        let port_ref = self.insert(
            "Port",
            obj3(
                "name",
                Json::string(port_name),
                "interfaces",
                iface_ref.to_json(),
                "tag",
                Json::UInt(vlan_id as u64),
            ),
        );
        self.add_to_bridge(bridge_name, &port_ref);
        assert(self@.operations =~= start.operations + add_port_ops(
            bridge_name@,
            port_name@,
            "internal"@,
            Some(vlan_id),
            start.uuid_counter as int,
        ));
        (port_ref, iface_ref)
    }

    /// One end of a patch-port pair: the patch interface `name` whose peer
    /// is `peer`, its port with the `extra` columns, and its addition to
    /// `bridge`. Returns `(port_ref, iface_ref)`.
    fn patch_end(&mut self, bridge: &str, name: &str, peer: &str, extra: &Vec<(String, Json)>) -> (r: (RowRef, RowRef))
        requires
            old(self)@.uuid_counter + 2 <= u32::MAX,
        ensures
            final(self)@ == appended(
                old(self)@,
                patch_end_ops(
                    bridge@,
                    name@,
                    peer@,
                    crate::ovsdb::json::members_model(extra@),
                    old(self)@.uuid_counter as int,
                ),
                2,
            ),
            r.0@ == RowRefModel::Named(row_name(old(self)@.uuid_counter + 1)),
            r.1@ == RowRefModel::Named(row_name(old(self)@.uuid_counter as int)),
    {
        let ghost start = self@;
        let options = crate::ovsdb::ops::pair(
            Json::string("map"),
            crate::ovsdb::ops::single(
                crate::ovsdb::ops::pair(Json::string("peer"), Json::string(peer)),
            ),
        );
        let iface_ref = self.insert(
            "Interface",
            obj3("name", Json::string(name), "type", Json::string("patch"), "options", options),
        );
        let mut port_row: Vec<(String, Json)> = Vec::new();
        crate::ovsdb::ops::push_member(&mut port_row, "name", Json::string(name));
        crate::ovsdb::ops::push_member(&mut port_row, "interfaces", iface_ref.to_json());
        let ghost head = crate::ovsdb::json::members_model(port_row@);
        append_members(&mut port_row, extra);
        assert(head =~= seq![
            ("name"@, jstr(name@)),
            ("interfaces"@, named_ref(row_name(start.uuid_counter as int))),
        ]);
        let port_ref = self.insert("Port", Json::Object(port_row));
        self.add_to_bridge(bridge, &port_ref);
        assert(self@.operations =~= start.operations + patch_end_ops(
            bridge@,
            name@,
            peer@,
            crate::ovsdb::json::members_model(extra@),
            start.uuid_counter as int,
        ));
        (port_ref, iface_ref)
    }

    /// Create a patch port pair connecting two bridges; each end names the
    /// other as its peer. Default port names are `patch-{bridge1}-to-{bridge2}`
    /// and `patch-{bridge2}-to-{bridge1}`.
    ///
    /// Returns `(port1_ref, iface1_ref, port2_ref, iface2_ref)`.
    pub fn add_patch_ports(
        &mut self,
        bridge1: &str,
        bridge2: &str,
        port1_name: Option<&str>,
        port2_name: Option<&str>,
    ) -> (r: (RowRef, RowRef, RowRef, RowRef))
        requires
            old(self)@.uuid_counter + 4 <= u32::MAX,
        ensures
            final(self)@ == appended(
                old(self)@,
                patch_pair_ops(
                    bridge1@,
                    bridge2@,
                    chosen_name(port1_name, bridge1@, bridge2@),
                    chosen_name(port2_name, bridge2@, bridge1@),
                    Seq::empty(),
                    old(self)@.uuid_counter as int,
                ),
                4,
            ),
            r.0@ == RowRefModel::Named(row_name(old(self)@.uuid_counter + 1)),
            r.1@ == RowRefModel::Named(row_name(old(self)@.uuid_counter as int)),
            r.2@ == RowRefModel::Named(row_name(old(self)@.uuid_counter + 3)),
            r.3@ == RowRefModel::Named(row_name(old(self)@.uuid_counter + 2)),
    {
        let p1_name = patch_port_name(port1_name, bridge1, bridge2);
        let p2_name = patch_port_name(port2_name, bridge2, bridge1);
        let none: Vec<(String, Json)> = Vec::new();
        assert(crate::ovsdb::json::members_model(none@) =~= Seq::empty());
        let ghost start = self@;
        let (port1_ref, iface1_ref) = self.patch_end(bridge1, p1_name.as_str(), p2_name.as_str(), &none);
        let ghost mid = self@;
        let (port2_ref, iface2_ref) = self.patch_end(bridge2, p2_name.as_str(), p1_name.as_str(), &none);
        assert(self@.operations =~= start.operations + (patch_end_ops(
            bridge1@,
            p1_name@,
            p2_name@,
            Seq::empty(),
            start.uuid_counter as int,
        ) + patch_end_ops(bridge2@, p2_name@, p1_name@, Seq::empty(), start.uuid_counter + 2)));
        (port1_ref, iface1_ref, port2_ref, iface2_ref)
    }

    /// Create a patch port pair configured as VLAN trunks that pass only
    /// `vlans`.
    ///
    /// Returns `(port1_ref, iface1_ref, port2_ref, iface2_ref)`.
    pub fn add_trunk_patch_ports(
        &mut self,
        bridge1: &str,
        bridge2: &str,
        vlans: &[u16],
        port1_name: Option<&str>,
        port2_name: Option<&str>,
    ) -> (r: (RowRef, RowRef, RowRef, RowRef))
        requires
            old(self)@.uuid_counter + 4 <= u32::MAX,
        ensures
            final(self)@ == appended(
                old(self)@,
                patch_pair_ops(
                    bridge1@,
                    bridge2@,
                    chosen_name(port1_name, bridge1@, bridge2@),
                    chosen_name(port2_name, bridge2@, bridge1@),
                    trunk_columns(vlans@),
                    old(self)@.uuid_counter as int,
                ),
                4,
            ),
            r.0@ == RowRefModel::Named(row_name(old(self)@.uuid_counter + 1)),
            r.1@ == RowRefModel::Named(row_name(old(self)@.uuid_counter as int)),
            r.2@ == RowRefModel::Named(row_name(old(self)@.uuid_counter + 3)),
            r.3@ == RowRefModel::Named(row_name(old(self)@.uuid_counter + 2)),
    {
        let p1_name = patch_port_name(port1_name, bridge1, bridge2);
        let p2_name = patch_port_name(port2_name, bridge2, bridge1);
        let extra = trunk_members(vlans);
        let ghost start = self@;
        let (port1_ref, iface1_ref) = self.patch_end(bridge1, p1_name.as_str(), p2_name.as_str(), &extra);
        let (port2_ref, iface2_ref) = self.patch_end(bridge2, p2_name.as_str(), p1_name.as_str(), &extra);
        assert(self@.operations =~= start.operations + (patch_end_ops(
            bridge1@,
            p1_name@,
            p2_name@,
            trunk_columns(vlans@),
            start.uuid_counter as int,
        ) + patch_end_ops(bridge2@, p2_name@, p1_name@, trunk_columns(vlans@), start.uuid_counter + 2)));
        (port1_ref, iface1_ref, port2_ref, iface2_ref)
    }

    /// Delete a port by UUID: remove it from the bridge's `ports` set, then
    /// delete the interface and port rows.
    pub fn delete_port_uuid(&mut self, bridge_uuid: Uuid, port_uuid: Uuid, iface_uuid: Uuid)
        ensures
            final(self)@ == appended(
                old(self)@,
                delete_port_ops(bridge_uuid.value, port_uuid.value, iface_uuid.value),
                0,
            ),
    {
        let ghost start = self@;
        let mut muts: Vec<Json> = Vec::new();
        crate::ovsdb::ops::push_item(
            &mut muts,
            crate::ovsdb::ops::mutation_json(
                "ports",
                "delete",
                crate::ovsdb::ops::uuid_set_json(port_uuid),
            ),
        );
        self.mutate("Bridge", bridge_uuid, muts);
        self.delete("Interface", iface_uuid);
        self.delete("Port", port_uuid);
        assert(self@.operations =~= start.operations + delete_port_ops(
            bridge_uuid.value,
            port_uuid.value,
            iface_uuid.value,
        ));
    }

    /// Delete a port by name: its interface, then the port row. The bridge
    /// is not touched.
    pub fn delete_port(&mut self, bridge_name: &str, port_name: &str)
        ensures
            final(self)@ == appended(old(self)@, delete_port_named_ops(port_name@), 0),
    {
        let ghost start = self@;
        self.delete_by_name("Interface", port_name);
        self.delete_by_name("Port", port_name);
        assert(self@.operations =~= start.operations + seq![
            op_delete("Interface"@, where_name(port_name@)),
            op_delete("Port"@, where_name(port_name@)),
        ]);
    }
}

/// The `ports` value of a new bridge: a reference to its port.
fn bridge_ports(port_ref: &RowRef) -> (r: Json)
    ensures
        r@ == row_ref_json(port_ref@),
{
    port_ref.to_json()
}

/// The trunk columns for `vlans`.
fn trunk_members(vlans: &[u16]) -> (r: Vec<(String, Json)>)
    ensures
        crate::ovsdb::json::members_model(r@) == trunk_columns(vlans@),
{
    let set = if vlans.len() == 1 {
        Json::UInt(vlans[0] as u64)
    } else {
        let mut items: Vec<Json> = Vec::new();
        let mut i: usize = 0;
        while i < vlans.len()
            invariant
                i <= vlans.len(),
                items_model(items@) == vlans@.map_values(|v: u16| JsonModel::UInt(v as u64)).take(i as int),
            decreases vlans.len() - i,
        {
            crate::ovsdb::ops::push_item(&mut items, Json::UInt(vlans[i] as u64));
            assert(vlans@.map_values(|v: u16| JsonModel::UInt(v as u64)).take(i + 1) =~= vlans@.map_values(
                |v: u16| JsonModel::UInt(v as u64),
            ).take(i as int).push(JsonModel::UInt(vlans@[i as int] as u64)));
            i = i + 1;
        }
        assert(vlans@.map_values(|v: u16| JsonModel::UInt(v as u64)).take(vlans.len() as int) =~= vlans@.map_values(
            |v: u16| JsonModel::UInt(v as u64),
        ));
        crate::ovsdb::ops::pair(Json::string("set"), Json::Array(items))
    };
    let ghost gset = set@;
    let mut ms: Vec<(String, Json)> = Vec::new();
    crate::ovsdb::ops::push_member(&mut ms, "vlan_mode", Json::string("trunk"));
    crate::ovsdb::ops::push_member(&mut ms, "trunks", set);
    assert(crate::ovsdb::json::members_model(ms@) =~= seq![
        ("vlan_mode"@, jstr("trunk"@)),
        ("trunks"@, gset),
    ]);
    ms
}


/// Law: distinct insert counts give distinct temporary names, so every
/// insert of a transaction is referred to by a name of its own.
pub proof fn lemma_row_names_distinct(a: nat, b: nat)
    ensures
        row_name(a as int) == row_name(b as int) ==> a == b,
{
    if row_name(a as int) == row_name(b as int) {
        reveal_strlit("row");
        let p = "row"@;
        assert(row_name(a as int).subrange(3, row_name(a as int).len() as int) =~= decimal(a));
        assert(row_name(b as int).subrange(3, row_name(b as int).len() as int) =~= decimal(b));
        crate::text::lemma_decimal_digits(a);
        crate::text::lemma_decimal_digits(b);
    }
}

/// Law: after recording a UUID for a name, the name reads back that UUID,
/// and every other name reads back what it did before.
pub proof fn lemma_map_set_lookup(m: Seq<(Seq<char>, u128)>, name: Seq<char>, value: u128, other: Seq<char>)
    ensures
        map_lookup(map_set(m, name, value), name) == Some(value),
        other != name ==> map_lookup(map_set(m, name, value), other) == map_lookup(m, other),
{
    let keys = map_keys(m);
    lemma_index_of_key(keys, name);
    lemma_index_after_set(keys, name, other);
    let i = index_of_key(keys, name);
    if i >= 0 {
        assert(map_keys(map_set(m, name, value)) =~= keys.update(i, name));
        lemma_index_after_set(keys, name, name);
    } else {
        assert(map_keys(map_set(m, name, value)) =~= keys.push(name));
    }
    lemma_index_of_key(map_keys(map_set(m, name, value)), other);
    lemma_index_of_key(keys, other);
}

/// Law: once the results before the `n`-th are applied, the temporary name
/// of each insert among them reads back the UUID its result named, provided
/// no two operations share a temporary name.
pub proof fn lemma_recorded_uuid(
    m: Seq<(Seq<char>, u128)>,
    ops: Seq<JsonModel>,
    parsed: Seq<Option<Uuid>>,
    n: int,
    i: int,
)
    requires
        names_distinct(ops),
        0 <= i < n <= parsed.len(),
        op_name_at(ops, i) is Some,
        parsed[i] is Some,
    ensures
        map_lookup(record_uuids(m, ops, parsed, n), op_name_at(ops, i)->0) == Some(parsed[i]->0.value),
    decreases n,
{
    let name = op_name_at(ops, i)->0;
    let before = record_uuids(m, ops, parsed, n - 1);
    if i == n - 1 {
        lemma_map_set_lookup(before, name, parsed[i]->0.value, name);
    } else {
        lemma_recorded_uuid(m, ops, parsed, n - 1, i);
        match (op_name_at(ops, n - 1), parsed[n - 1]) {
            (Some(other), Some(u)) => {
                assert(op_name(ops[i]) is Some && op_name(ops[n - 1]) is Some);
                lemma_map_set_lookup(before, other, u.value, name);
            },
            _ => {},
        }
    }
}

/// Every insert answered before the first error is recorded under its name.
proof fn lemma_inserts_recorded(
    m: Seq<(Seq<char>, u128)>,
    ops: Seq<JsonModel>,
    results: Seq<JsonModel>,
    parsed: Seq<Option<Uuid>>,
)
    requires
        names_distinct(ops),
        first_error(results) <= parsed.len(),
    ensures
        inserts_recorded(ops, record_uuids(m, ops, parsed, first_error(results)), results, parsed),
{
    assert forall|i: int|
        0 <= i < first_error(results) && #[trigger] op_name_at(ops, i) is Some && parsed[i] is Some implies map_lookup(
            record_uuids(m, ops, parsed, first_error(results)),
            op_name_at(ops, i)->0,
        ) == Some(parsed[i]->0.value) by {
        lemma_recorded_uuid(m, ops, parsed, first_error(results), i);
    }
}

/// Names numbered in increasing order are distinct.
proof fn lemma_ordered_distinct(ops: Seq<JsonModel>, counter: int)
    requires
        names_ordered(ops, counter),
    ensures
        names_distinct(ops),
{
    assert forall|i: int, j: int|
        0 <= i < j < ops.len() && #[trigger] op_name(ops[i]) is Some && #[trigger] op_name(ops[j]) is Some
            implies op_name(ops[i]) != op_name(ops[j]) by {
        assert(name_number(op_name(ops[i])->0) < name_number(op_name(ops[j])->0));
    }
}

/// The temporary name `row{n}` carries the number `n`.
proof fn lemma_name_number(n: nat)
    ensures
        name_number(row_name(n as int)) == n,
{
    reveal_strlit("row");
    assert(row_name(n as int).subrange(3, row_name(n as int).len() as int) =~= decimal(n));
    crate::text::lemma_decimal_digits(n);
}

/// Of the operations built here, only an insert names its row.
proof fn lemma_op_names()
    ensures
        forall|t: Seq<char>, r: JsonModel, n: Seq<char>| op_name(#[trigger] op_insert(t, r, n)) == Some(n),
        forall|t: Seq<char>, u: u128, c: JsonModel| op_name(#[trigger] op_update(t, u, c)) is None,
        forall|t: Seq<char>, c: JsonModel, ms: Seq<JsonModel>| op_name(#[trigger] op_mutate(t, c, ms)) is None,
        forall|t: Seq<char>, c: JsonModel| op_name(#[trigger] op_delete(t, c)) is None,
        forall|t: Seq<char>, cs: Seq<Seq<char>>, c: JsonModel, e: JsonModel|
            op_name(#[trigger] op_wait(t, cs, c, e)) is None,
        forall|c: Seq<char>| op_name(#[trigger] op_comment(c)) is None,
{
    reveal_strlit("uuid-name");
    reveal_strlit("op");
    reveal_strlit("table");
    reveal_strlit("row");
    reveal_strlit("where");
    reveal_strlit("mutations");
    reveal_strlit("columns");
    reveal_strlit("rows");
    reveal_strlit("until");
    reveal_strlit("timeout");
    reveal_strlit("comment");
    let k = "uuid-name"@;
    assert(k.len() == 9 && "op"@.len() == 2 && "table"@.len() == 5 && "row"@.len() == 3 && "where"@.len() == 5);
    assert("op"@ != k && "table"@ != k && "row"@ != k && "where"@ != k);
    assert("mutations"@[0] != k[0]);
    assert("mutations"@ != k);
    assert("columns"@.len() == 7 && "rows"@.len() == 4 && "until"@.len() == 5 && "timeout"@.len() == 7
        && "comment"@.len() == 7);
    assert("columns"@ != k && "rows"@ != k && "until"@ != k && "timeout"@ != k && "comment"@ != k);
    assert forall|t: Seq<char>, r: JsonModel, n: Seq<char>| op_name(#[trigger] op_insert(t, r, n)) == Some(n) by {
        let ms = seq![("op"@, jstr("insert"@)), ("table"@, jstr(t)), ("row"@, r), (k, jstr(n))];
        lemma_index_of_key_at(member_keys(ms), k, 3);
    }
    assert forall|t: Seq<char>, u: u128, c: JsonModel| op_name(#[trigger] op_update(t, u, c)) is None by {
        let ms = seq![("op"@, jstr("update"@)), ("table"@, jstr(t)), ("where"@, where_uuid(u)), ("row"@, c)];
        lemma_index_of_key_absent(member_keys(ms), k);
    }
    assert forall|t: Seq<char>, c: JsonModel, mu: Seq<JsonModel>| op_name(#[trigger] op_mutate(t, c, mu)) is None by {
        let ms = seq![
            ("op"@, jstr("mutate"@)),
            ("table"@, jstr(t)),
            ("where"@, c),
            ("mutations"@, JsonModel::Array(mu)),
        ];
        lemma_index_of_key_absent(member_keys(ms), k);
    }
    assert forall|t: Seq<char>, c: JsonModel| op_name(#[trigger] op_delete(t, c)) is None by {
        let ms = seq![("op"@, jstr("delete"@)), ("table"@, jstr(t)), ("where"@, c)];
        lemma_index_of_key_absent(member_keys(ms), k);
    }
    assert forall|t: Seq<char>, cs: Seq<Seq<char>>, c: JsonModel, e: JsonModel|
        op_name(#[trigger] op_wait(t, cs, c, e)) is None by {
        let ms = seq![
            ("op"@, jstr("wait"@)),
            ("table"@, jstr(t)),
            ("columns"@, JsonModel::Array(crate::ovsdb::ops::column_names(cs))),
            ("where"@, c),
            ("rows"@, e),
            ("until"@, jstr("=="@)),
            ("timeout"@, JsonModel::UInt(0)),
        ];
        lemma_index_of_key_absent(member_keys(ms), k);
    }
    assert forall|c: Seq<char>| op_name(#[trigger] op_comment(c)) is None by {
        let ms = seq![("op"@, jstr("comment"@)), ("comment"@, jstr(c))];
        lemma_index_of_key_absent(member_keys(ms), k);
    }
}

} // verus!
