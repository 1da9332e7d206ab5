//! OVSDB client logic: configuration, the requests the client sends, and
//! what it does with each reply and notification. The connection itself is
//! driven by the caller, which hands every message to these functions.
use vstd::prelude::*;
use crate::ovsdb::assoc::{index_of_key, keys_of, lemma_index_of_key};
use crate::ovsdb::idl::{database_update, Idl, IdlModel};
use crate::ovsdb::json::{
    items_model, jstr, lemma_items_model_index, str_of, lemma_items_model_len, lemma_members_model_len,
    members_model, Json, JsonModel,
};
use crate::ovsdb::ops::{column_names, column_names_json, pair, push_item, push_member, single};
use crate::ovsdb::row::{set_column, set_member};
use crate::ovsdb::error::Error;
use crate::ovsdb::schema::DbSchema;
use crate::ovsdb::transaction::Transaction;
use crate::ovsdb::uuid::{uuid_text, Uuid};
use crate::text::str_eq;

verus! {

/// Monitor protocol version.
#[derive(Debug, Clone, Copy, PartialEq, Eq, Structural)]
pub enum MonitorVersion {
    /// Plain monitor (OVSDB_UPDATE)
    V1,
    /// monitor_cond (OVSDB_UPDATE2)
    V2,
    /// monitor_cond_since (OVSDB_UPDATE3)
    V3,
}

/// OVSDB client configuration.
#[derive(Debug, Clone)]
pub struct ClientConfig {
    /// Database name to connect to
    pub database: String,
    /// Tables to monitor (None = all tables)
    pub tables: Option<Vec<String>>,
    /// Monitor protocol version to use
    pub monitor_version: MonitorVersion,
    /// Leader-only mode for clustered OVSDB
    pub leader_only: bool,
}

/// The abstract value of a configuration.
pub struct ClientConfigModel {
    pub database: Seq<char>,
    pub tables: Option<Seq<Seq<char>>>,
    pub monitor_version: MonitorVersion,
    pub leader_only: bool,
}

/// The texts of some strings.
pub open spec fn texts(v: Seq<String>) -> Seq<Seq<char>> {
    v.map_values(|s: String| s@)
}

/// Appending a string appends its text.
proof fn lemma_texts_push(v: Seq<String>, s: String)
    ensures
        texts(v.push(s)) == texts(v).push(s@),
{
    assert(texts(v.push(s)) =~= texts(v).push(s@));
}

impl View for ClientConfig {
    type V = ClientConfigModel;

    open spec fn view(&self) -> ClientConfigModel {
        ClientConfigModel {
            database: self.database@,
            tables: match self.tables {
                Some(t) => Some(texts(t@)),
                None => None,
            },
            monitor_version: self.monitor_version,
            leader_only: self.leader_only,
        }
    }
}

/// The default configuration: the `Open_vSwitch` database, all tables, the
/// plain monitor protocol.
pub open spec fn default_config() -> ClientConfigModel {
    ClientConfigModel {
        database: "Open_vSwitch"@,
        tables: None,
        monitor_version: MonitorVersion::V1,
        leader_only: false,
    }
}

impl Default for ClientConfig {
    fn default() -> (r: Self)
        ensures
            r@ == default_config(),
    {
        ClientConfig {
            database: "Open_vSwitch".to_owned(),
            tables: None,
            monitor_version: MonitorVersion::V1,
            leader_only: false,
        }
    }
}

impl ClientConfig {
    /// Create config for Open_vSwitch database.
    pub fn open_vswitch() -> (r: Self)
        ensures
            r@ == default_config(),
    {
        Self::default()
    }

    /// Set the database name.
    pub fn database(self, name: &str) -> (r: Self)
        ensures
            r@ == (ClientConfigModel { database: name@, ..self@ }),
    {
        let mut s = self;
        s.database = name.to_owned();
        s
    }

    /// Set specific tables to monitor.
    pub fn tables(self, tables: Vec<String>) -> (r: Self)
        ensures
            r@ == (ClientConfigModel { tables: Some(texts(tables@)), ..self@ }),
    {
        let mut s = self;
        s.tables = Some(tables);
        s
    }

    /// Set monitor version.
    pub fn monitor_version(self, version: MonitorVersion) -> (r: Self)
        ensures
            r@ == (ClientConfigModel { monitor_version: version, ..self@ }),
    {
        let mut s = self;
        s.monitor_version = version;
        s
    }

    /// The parameters of the `get_schema` request: `[DATABASE]`.
    pub fn schema_params(&self) -> (r: Json)
        ensures
            r@ == JsonModel::Array(seq![jstr(self@.database)]),
    {
        single(Json::Str(self.database.clone()))
    }
}

/// The monitor request for table `name`: all its columns, if the schema
/// has the table.
pub open spec fn table_monitor(schema: DbSchema, name: Seq<char>) -> Option<JsonModel> {
    let i = index_of_key(schema.table_names(), name);
    if i >= 0 {
        Some(
            JsonModel::Object(
                seq![("columns"@, JsonModel::Array(column_names(schema.tables@[i].1.column_names())))],
            ),
        )
    } else {
        None
    }
}

/// The monitor requests for the tables `names`, by table name; tables the
/// schema lacks are left out.
pub open spec fn monitor_requests(schema: DbSchema, names: Seq<Seq<char>>) -> Seq<(Seq<char>, JsonModel)>
    decreases names.len(),
{
    if names.len() == 0 {
        Seq::empty()
    } else {
        let before = monitor_requests(schema, names.drop_last());
        match table_monitor(schema, names.last()) {
            Some(m) => set_column(before, names.last(), m),
            None => before,
        }
    }
}

/// The tables a configuration monitors: those it names, or all the
/// schema's tables.
pub open spec fn monitored_tables(config: ClientConfigModel, schema: DbSchema) -> Seq<Seq<char>> {
    match config.tables {
        Some(t) => t,
        None => schema.table_names(),
    }
}

/// The method of the monitor request for each protocol version.
pub open spec fn monitor_method(v: MonitorVersion) -> Seq<char> {
    match v {
        MonitorVersion::V1 => "monitor"@,
        MonitorVersion::V2 => "monitor_cond"@,
        MonitorVersion::V3 => "monitor_cond_since"@,
    }
}

/// The transaction id that asks `monitor_cond_since` for all the data.
pub open spec fn zero_txn_id() -> Seq<char> {
    "00000000-0000-0000-0000-000000000000"@
}

/// The parameters of the monitor request: database, monitor id and the
/// requests, and for `monitor_cond_since` the zero transaction id.
pub open spec fn monitor_params(config: ClientConfigModel, schema: DbSchema, id: u128) -> JsonModel {
    let requests = JsonModel::Object(monitor_requests(schema, monitored_tables(config, schema)));
    match config.monitor_version {
        MonitorVersion::V3 => JsonModel::Array(
            seq![jstr(config.database), jstr(uuid_text(id)), requests, jstr(zero_txn_id())],
        ),
        _ => JsonModel::Array(seq![jstr(config.database), jstr(uuid_text(id)), requests]),
    }
}

/// The part of a monitor reply that holds the initial data: the reply
/// itself for the plain monitor; for the others, the third element of
/// an array of at least three, or else the reply itself.
pub open spec fn monitor_reply_data(v: MonitorVersion, reply: JsonModel) -> JsonModel {
    match v {
        MonitorVersion::V1 => reply,
        _ => match reply {
            JsonModel::Array(items) => if items.len() >= 3 {
                items[2]
            } else {
                reply
            },
            _ => reply,
        },
    }
}

/// Whether a notification method carries table updates.
pub open spec fn is_update_method(method: Seq<char>) -> bool {
    method == "update"@ || method == "update2"@ || method == "update3"@
}

/// The updates a notification carries: the second of its parameters, when
/// they are an array of at least two.
pub open spec fn notification_updates(params: JsonModel) -> Option<JsonModel> {
    match params {
        JsonModel::Array(items) => if items.len() >= 2 {
            Some(items[1])
        } else {
            None
        },
        _ => None,
    }
}

/// What waiting for an update does with one message from the server.
#[derive(Debug, Clone, Copy, PartialEq, Eq, Structural)]
pub enum WaitAction {
    /// Answer the server's echo request with its own parameters
    EchoReply,
    /// An update was applied: the wait is over
    Updated,
    /// Keep waiting
    Continue,
}

/// The table requests of a monitor request.
fn build_monitor_requests(config: &ClientConfig, schema: &DbSchema) -> (r: Json)
    ensures
        r@ == JsonModel::Object(monitor_requests(*schema, monitored_tables(config@, *schema))),
{
    let names: Vec<String> = match &config.tables {
        Some(t) => t.clone(),
        None => {
            let mut v: Vec<String> = Vec::new();
            let mut k: usize = 0;
            while k < schema.tables.len()
                invariant
                    k <= schema.tables.len(),
                    texts(v@) == schema.table_names().take(k as int),
                decreases schema.tables.len() - k,
            {
                let name = schema.tables[k].0.clone();
                assert(name@ == schema.table_names()[k as int]);
                let ghost before = v@;
                v.push(name);
                assert(v@ == before.push(name));
                proof {
                    lemma_texts_push(before, name);
                    assert(schema.table_names().take(k + 1) =~= schema.table_names().take(k as int).push(
                        schema.table_names()[k as int],
                    ));
                }
                k = k + 1;
            }
            assert(schema.table_names().take(schema.tables.len() as int) =~= schema.table_names());
            v
        },
    };
    let ghost wanted = monitored_tables(config@, *schema);
    assert(texts(names@) == wanted);
    let mut members: Vec<(String, Json)> = Vec::new();
    let mut i: usize = 0;
    assert(wanted.take(0) =~= Seq::<Seq<char>>::empty());
    while i < names.len()
        invariant
            i <= names.len(),
            texts(names@) == wanted,
            members_model(members@) == monitor_requests(*schema, wanted.take(i as int)),
        decreases names.len() - i,
    {
        assert(wanted.take(i + 1).drop_last() =~= wanted.take(i as int));
        match schema.table(names[i].as_str()) {
            Some(table) => {
                let mut cols: Vec<String> = Vec::new();
                let mut c: usize = 0;
                while c < table.columns.len()
                    invariant
                        c <= table.columns.len(),
                        texts(cols@) == table.column_names().take(c as int),
                    decreases table.columns.len() - c,
                {
                    let col = table.columns[c].0.clone();
                    assert(col@ == table.column_names()[c as int]);
                    let ghost before = cols@;
                    cols.push(col);
                    proof {
                        lemma_texts_push(before, col);
                        assert(table.column_names().take(c + 1) =~= table.column_names().take(c as int).push(
                            table.column_names()[c as int],
                        ));
                    }
                    c = c + 1;
                }
                assert(table.column_names().take(table.columns.len() as int) =~= table.column_names());
                let mut m: Vec<(String, Json)> = Vec::new();
                let listed = column_names_json(&cols);
                assert(cols@.map_values(|s: String| s@) =~= texts(cols@));
                push_member(&mut m, "columns", listed);
                let monitor = Json::Object(m);
                set_member(&mut members, names[i].as_str(), monitor);
            },
            None => {},
        }
        i = i + 1;
    }
    assert(wanted.take(names.len() as int) =~= wanted);
    Json::Object(members)
}

impl ClientConfig {
    /// The monitor request for `schema` under monitor id `monitor_id`: its
    /// method and parameters.
    pub fn monitor_request(&self, schema: &DbSchema, monitor_id: Uuid) -> (r: (String, Json))
        ensures
            r.0@ == monitor_method(self@.monitor_version),
            r.1@ == monitor_params(self@, *schema, monitor_id.value),
    {
        let requests = build_monitor_requests(self, schema);
        let id = Json::Str(monitor_id.to_string());
        let db = Json::Str(self.database.clone());
        let ghost (gdb, gid, greq) = (db@, id@, requests@);
        let mut params: Vec<Json> = Vec::new();
        push_item(&mut params, db);
        push_item(&mut params, id);
        push_item(&mut params, requests);
        match self.monitor_version {
            MonitorVersion::V1 => {
                assert(items_model(params@) =~= seq![gdb, gid, greq]);
                ("monitor".to_owned(), Json::Array(params))
            },
            MonitorVersion::V2 => {
                assert(items_model(params@) =~= seq![gdb, gid, greq]);
                ("monitor_cond".to_owned(), Json::Array(params))
            },
            MonitorVersion::V3 => {
                push_item(&mut params, Json::string("00000000-0000-0000-0000-000000000000"));
                assert(items_model(params@) =~= seq![gdb, gid, greq, jstr(zero_txn_id())]);
                ("monitor_cond_since".to_owned(), Json::Array(params))
            },
        }
    }
}

impl ClientConfig {
    /// The monitor request for the schema that `idl` holds, as
    /// [`monitor_request`](Self::monitor_request) builds it; a schema error
    /// when no schema has been loaded yet.
    pub fn monitor_request_for(&self, idl: &Idl, monitor_id: Uuid) -> (r: Result<(String, Json), Error>)
        ensures
            match idl@.schema {
                Some(schema) => r matches Ok(p) && p.0@ == monitor_method(self@.monitor_version) && p.1@
                    == monitor_params(self@, schema, monitor_id.value),
                None => r matches Err(Error::Schema(m)) && m@ == "schema not loaded"@,
            },
    {
        match idl.schema() {
            Some(schema) => Ok(self.monitor_request(schema, monitor_id)),
            None => Err(Error::Schema("schema not loaded".to_owned())),
        }
    }
}

/// The parameters of the `transact` request that commits `txn`: the
/// database name followed by its operations; `None` for an empty
/// transaction, which counts as committed without being sent.
pub fn commit_params(txn: &Transaction) -> (r: Option<Json>)
    ensures
        match r {
            Some(p) => txn@.operations.len() > 0 && p@ == JsonModel::Array(
                seq![jstr(txn@.db_name)] + txn@.operations,
            ),
            None => txn@.operations.len() == 0,
        },
{
    if txn.is_empty() {
        None
    } else {
        Some(txn.build())
    }
}

/// The part of a monitor reply that holds the initial data.
pub fn monitor_reply_data_of(version: MonitorVersion, reply: &Json) -> (r: &Json)
    ensures
        r@ == monitor_reply_data(version, reply@),
{
    match version {
        MonitorVersion::V1 => reply,
        _ => match reply.as_array() {
            Some(items) => {
                proof {
                    lemma_items_model_len(items@);
                }
                if items.len() >= 3 {
                    proof {
                        lemma_items_model_index(items@, 2);
                    }
                    &items[2]
                } else {
                    reply
                }
            },
            None => reply,
        },
    }
}

/// Apply the initial monitor reply to the replica.
pub fn process_monitor_reply(idl: &mut Idl, version: MonitorVersion, reply: &Json)
    requires
        old(idl)@.change_seqno < u64::MAX,
    ensures
        final(idl)@ == (IdlModel {
            tables: database_update(old(idl)@.tables, monitor_reply_data(version, reply@)),
            change_seqno: (old(idl)@.change_seqno + 1) as u64,
            ..old(idl)@
        }),
{
    idl.process_update(monitor_reply_data_of(version, reply));
}

/// The updates a notification's parameters carry.
fn notification_updates_of(params: &Json) -> (r: Option<&Json>)
    ensures
        match notification_updates(params@) {
            Some(u) => r matches Some(x) && x@ == u,
            None => r is None,
        },
{
    match params.as_array() {
        Some(items) => {
            proof {
                lemma_items_model_len(items@);
            }
            if items.len() >= 2 {
                proof {
                    lemma_items_model_index(items@, 1);
                }
                Some(&items[1])
            } else {
                None
            }
        },
        None => None,
    }
}

/// Whether `method` names an update notification.
fn is_update(method: &str) -> (r: bool)
    ensures
        r == is_update_method(method@),
{
    str_eq(method, "update") || str_eq(method, "update2") || str_eq(method, "update3")
}

/// Process a notification from the server: an update notification with
/// its updates is applied (`Some(true)`); any other update notification, or
/// an echo request, is handled without change (`Some(false)`); any other
/// method is not handled (`None`).
pub fn process_notification(idl: &mut Idl, method: &str, params: &Json) -> (r: Option<bool>)
    requires
        old(idl)@.change_seqno < u64::MAX,
    ensures
        is_update_method(method@) && notification_updates(params@) is Some ==> r == Some(true)
            && final(idl)@ == (IdlModel {
            tables: database_update(old(idl)@.tables, notification_updates(params@)->0),
            change_seqno: (old(idl)@.change_seqno + 1) as u64,
            ..old(idl)@
        }),
        !(is_update_method(method@) && notification_updates(params@) is Some) ==> final(idl)@ == old(
            idl,
        )@,
        is_update_method(method@) && notification_updates(params@) is None ==> r == Some(false),
        !is_update_method(method@) ==> r == (if method@ == "echo"@ {
            Some(false)
        } else {
            None
        }),
{
    if is_update(method) {
        match notification_updates_of(params) {
            Some(updates) => {
                idl.process_update(updates);
                Some(true)
            },
            None => Some(false),
        }
    } else if str_eq(method, "echo") {
        Some(false)
    } else {
        None
    }
}

/// Process one buffered notification while draining them without waiting:
/// returns whether it applied an update.
pub fn run_notification(idl: &mut Idl, method: &str, params: &Json) -> (r: bool)
    requires
        old(idl)@.change_seqno < u64::MAX,
    ensures
        r == (is_update_method(method@) && notification_updates(params@) is Some),
        r ==> final(idl)@ == (IdlModel {
            tables: database_update(old(idl)@.tables, notification_updates(params@)->0),
            change_seqno: (old(idl)@.change_seqno + 1) as u64,
            ..old(idl)@
        }),
        !r ==> final(idl)@ == old(idl)@,
{
    if is_update(method) {
        match notification_updates_of(params) {
            Some(updates) => {
                idl.process_update(updates);
                true
            },
            None => false,
        }
    } else {
        false
    }
}

/// What waiting for an update does with a request or notification from
/// the server: echo requests are answered, an applied update ends the
/// wait, anything else is passed over.
pub fn wait_step(idl: &mut Idl, method: &str, params: &Json) -> (r: WaitAction)
    requires
        old(idl)@.change_seqno < u64::MAX,
    ensures
        method@ == "echo"@ ==> r == WaitAction::EchoReply && final(idl)@ == old(idl)@,
        method@ != "echo"@ && is_update_method(method@) && notification_updates(params@) is Some
            ==> r == WaitAction::Updated && final(idl)@ == (IdlModel {
            tables: database_update(old(idl)@.tables, notification_updates(params@)->0),
            change_seqno: (old(idl)@.change_seqno + 1) as u64,
            ..old(idl)@
        }),
        method@ != "echo"@ && !(is_update_method(method@) && notification_updates(params@) is Some)
            ==> r == WaitAction::Continue && final(idl)@ == old(idl)@,
{
    if str_eq(method, "echo") {
        return WaitAction::EchoReply;
    }
    match process_notification(idl, method, params) {
        Some(true) => WaitAction::Updated,
        _ => WaitAction::Continue,
    }
}

/// The parameters of a raw `transact`: the database name put before the
/// operations when they are an array, or else `[DATABASE, OPERATIONS]`.
pub fn transact_params(database: &str, operations: Json) -> (r: Json)
    ensures
        r@ == match operations@ {
            JsonModel::Array(ops) => JsonModel::Array(seq![jstr(database@)] + ops),
            other => JsonModel::Array(seq![jstr(database@), other]),
        },
{
    match operations {
        Json::Array(ops) => {
            let ghost gops = items_model(ops@);
            let mut all: Vec<Json> = Vec::new();
            push_item(&mut all, Json::string(database));
            let mut i: usize = 0;
            proof {
                lemma_items_model_len(ops@);
            }
            while i < ops.len()
                invariant
                    i <= ops.len(),
                    gops == items_model(ops@),
                    gops.len() == ops.len(),
                    items_model(all@) == seq![jstr(database@)] + gops.take(i as int),
                decreases ops.len() - i,
            {
                proof {
                    lemma_items_model_index(ops@, i as int);
                }
                push_item(&mut all, ops[i].clone());
                assert(seq![jstr(database@)] + gops.take(i + 1) =~= (seq![jstr(database@)] + gops.take(
                    i as int,
                )).push(gops[i as int]));
                i = i + 1;
            }
            assert(gops.take(ops.len() as int) =~= gops);
            Json::Array(all)
        },
        other => pair(Json::string(database), other),
    }
}

/// The database names in a `list_dbs` reply: its string elements, in order.
pub open spec fn listed_names(reply: JsonModel) -> Seq<Seq<char>> {
    match reply {
        JsonModel::Array(items) => items.filter_map(|j: JsonModel| str_of(j)),
        _ => Seq::empty(),
    }
}

/// The database names in a `list_dbs` reply.
pub fn database_names(reply: &Json) -> (r: Vec<String>)
    ensures
        texts(r@) == listed_names(reply@),
{
    let mut names: Vec<String> = Vec::new();
    match reply.as_array() {
        Some(items) => {
            let ghost all = items_model(items@);
            proof {
                lemma_items_model_len(items@);
            }
            let mut i: usize = 0;
            while i < items.len()
                invariant
                    i <= items.len(),
                    all == items_model(items@),
                    all.len() == items.len(),
                    texts(names@) == all.take(i as int).filter_map(|j: JsonModel| str_of(j)),
                decreases items.len() - i,
            {
                proof {
                    lemma_items_model_index(items@, i as int);
                    assert(all.take(i + 1).drop_last() =~= all.take(i as int));
                }
                match items[i].as_str() {
                    Some(s) => {
                        let ghost before = texts(names@);
                        names.push(s.to_owned());
                        assert(texts(names@) =~= before + seq![s@]);
                    },
                    None => {},
                }
                i = i + 1;
            }
            assert(all.take(items.len() as int) =~= all);
        },
        None => {},
    }
    names
}

/// The parameters of the `monitor_cancel` request: `[MONITOR_ID]`.
pub fn monitor_cancel_params(monitor_id: Uuid) -> (r: Json)
    ensures
        r@ == JsonModel::Array(seq![jstr(uuid_text(monitor_id.value))]),
{
    single(Json::Str(monitor_id.to_string()))
}

} // verus!
