//! OVSDB IDL: an in-memory replica of the database, kept in step with the
//! server's update notifications.
use vstd::prelude::*;
use crate::ovsdb::assoc::{
    find_key, index_of_key, keys_of, lemma_index_after_set, lemma_index_of_key,
    lemma_index_of_key_absent, lemma_index_of_key_at,
};
use crate::ovsdb::json::{
    lemma_member_keys, lemma_members_model_index, lemma_members_model_len, member_keys,
    members_model, object_get, Json, JsonModel,
};
use crate::ovsdb::row::{set_columns, Row, RowModel};
use crate::ovsdb::schema::DbSchema;
use crate::ovsdb::uuid::{uuid_parsed, Uuid};

verus! {

/// IDL connection state.
#[derive(Debug, Clone, Copy, PartialEq, Eq, Structural)]
pub enum IdlState {
    /// Initial state, not connected
    Initial,
    /// Waiting for schema response
    SchemaRequested,
    /// Waiting for monitor response
    MonitorRequested,
    /// Actively monitoring changes
    Monitoring,
}

/// In-memory replica of an OVSDB database.
pub struct Idl {
    /// Current state
    state: IdlState,
    /// Database schema
    schema: Option<DbSchema>,
    /// Tables by name, each with its rows
    tables: Vec<(String, Vec<Row>)>,
    /// Change sequence number (incremented on each update)
    change_seqno: u64,
}

/// The rows of a table, by their models.
pub type RowsModel = Seq<RowModel>;

/// The tables of a replica: each table's name and rows.
pub type TablesModel = Seq<(Seq<char>, Seq<RowModel>)>;

/// The abstract state of a replica.
pub struct IdlModel {
    pub state: IdlState,
    pub schema: Option<DbSchema>,
    pub tables: TablesModel,
    pub change_seqno: u64,
}

/// The models of some rows.
pub open spec fn rows_model(rows: Seq<Row>) -> RowsModel {
    rows.map_values(|r: Row| r@)
}

/// The model of the tables.
pub open spec fn tables_model(tables: Seq<(String, Vec<Row>)>) -> TablesModel {
    tables.map_values(|e: (String, Vec<Row>)| (e.0@, rows_model(e.1@)))
}

impl View for Idl {
    type V = IdlModel;

    closed spec fn view(&self) -> IdlModel {
        IdlModel {
            state: self.state,
            schema: self.schema,
            tables: tables_model(self.tables@),
            change_seqno: self.change_seqno,
        }
    }
}

/// The UUIDs of some rows, in order.
pub open spec fn row_uuids(rows: RowsModel) -> Seq<u128> {
    rows.map_values(|r: RowModel| r.uuid)
}

/// No two rows share a UUID.
pub open spec fn rows_distinct(rows: RowsModel) -> bool {
    forall|i: int, j: int| 0 <= i < j < rows.len() ==> #[trigger] rows[i].uuid != #[trigger] rows[j].uuid
}

/// Within each table, no two rows share a UUID.
pub open spec fn tables_distinct(tables: TablesModel) -> bool {
    forall|i: int| 0 <= i < tables.len() ==> rows_distinct(#[trigger] tables[i].1)
}

/// The names of the tables, in order.
pub open spec fn table_names(tables: TablesModel) -> Seq<Seq<char>> {
    tables.map_values(|e: (Seq<char>, RowsModel)| e.0)
}

/// The rows of table `name`, if the replica has it.
pub open spec fn table_rows(tables: TablesModel, name: Seq<char>) -> Option<RowsModel> {
    let i = index_of_key(table_names(tables), name);
    if i >= 0 {
        Some(tables[i].1)
    } else {
        None
    }
}

/// The row with UUID `u`.
pub open spec fn find_row(rows: RowsModel, u: u128) -> Option<RowModel> {
    let i = index_of_key(row_uuids(rows), u);
    if i >= 0 {
        Some(rows[i])
    } else {
        None
    }
}

/// The row with UUID `u` in table `name`.
pub open spec fn lookup_row(tables: TablesModel, name: Seq<char>, u: u128) -> Option<RowModel> {
    match table_rows(tables, name) {
        Some(rows) => find_row(rows, u),
        None => None,
    }
}

/// The tables with table `name` present: added, empty, at the end when it
/// is missing.
pub open spec fn with_table(tables: TablesModel, name: Seq<char>) -> TablesModel {
    if index_of_key(table_names(tables), name) >= 0 {
        tables
    } else {
        tables.push((name, Seq::empty()))
    }
}

/// The tables with the rows of table `name` replaced (or the table added).
pub open spec fn put_rows(tables: TablesModel, name: Seq<char>, rows: RowsModel) -> TablesModel {
    let i = index_of_key(table_names(tables), name);
    if i >= 0 {
        tables.update(i, (name, rows))
    } else {
        tables.push((name, rows))
    }
}

/// The rows after applying the `new` value of a row update to the row with
/// UUID `u`: the row is created if missing, and when `new` is an object
/// its members are set as columns and the row is marked modified.
pub open spec fn apply_new(rows: RowsModel, u: u128, new: JsonModel) -> RowsModel {
    let i = index_of_key(row_uuids(rows), u);
    let rows1 = if i >= 0 {
        rows
    } else {
        rows.push(RowModel { uuid: u, columns: Seq::empty(), modified: false })
    };
    let j = if i >= 0 {
        i
    } else {
        rows.len() as int
    };
    match new {
        JsonModel::Object(values) => rows1.update(
            j,
            RowModel { columns: set_columns(rows1[j].columns, values), modified: true, ..rows1[j] },
        ),
        _ => rows1,
    }
}

/// The rows after the update `upd` of the row with UUID `u`: an object
/// with `old` and no `new` deletes the row; an object with `new` creates or
/// updates it; anything else changes nothing.
pub open spec fn rows_after(rows: RowsModel, u: u128, upd: JsonModel) -> RowsModel {
    match upd {
        JsonModel::Object(ms) => {
            let has_old = index_of_key(member_keys(ms), "old"@) >= 0;
            match object_get(upd, "new"@) {
                None => if has_old {
                    let i = index_of_key(row_uuids(rows), u);
                    if i >= 0 {
                        rows.remove(i)
                    } else {
                        rows
                    }
                } else {
                    rows
                },
                Some(new) => apply_new(rows, u, new),
            }
        },
        _ => rows,
    }
}

/// The tables after the update `upd` of the row with UUID `u` in table
/// `name`; the table is created first if missing.
pub open spec fn row_update(tables: TablesModel, name: Seq<char>, u: u128, upd: JsonModel) -> TablesModel {
    let t = with_table(tables, name);
    put_rows(t, name, rows_after(table_rows(t, name)->0, u, upd))
}

/// The tables after the updates of the rows of table `name`, each keyed by
/// the text of its UUID; keys that are not UUIDs are skipped.
pub open spec fn apply_rows(tables: TablesModel, name: Seq<char>, updates: Seq<(Seq<char>, JsonModel)>) -> TablesModel
    decreases updates.len(),
{
    if updates.len() == 0 {
        tables
    } else {
        let before = apply_rows(tables, name, updates.drop_last());
        match uuid_parsed(updates.last().0) {
            Some(u) => row_update(before, name, u, updates.last().1),
            None => before,
        }
    }
}

/// The tables after the update of one table: an object of row updates.
pub open spec fn table_update(tables: TablesModel, name: Seq<char>, upd: JsonModel) -> TablesModel {
    match upd {
        JsonModel::Object(ms) => apply_rows(tables, name, ms),
        _ => tables,
    }
}

/// The tables after the updates of several tables, in order.
pub open spec fn apply_tables(tables: TablesModel, updates: Seq<(Seq<char>, JsonModel)>) -> TablesModel
    decreases updates.len(),
{
    if updates.len() == 0 {
        tables
    } else {
        let before = apply_tables(tables, updates.drop_last());
        table_update(before, updates.last().0, updates.last().1)
    }
}

/// The tables after an update notification: an object of table updates.
pub open spec fn database_update(tables: TablesModel, upd: JsonModel) -> TablesModel {
    match upd {
        JsonModel::Object(ms) => apply_tables(tables, ms),
        _ => tables,
    }
}

/// The tables after emptying each of `names`.
pub open spec fn reset_tables(tables: TablesModel, names: Seq<Seq<char>>) -> TablesModel
    decreases names.len(),
{
    if names.len() == 0 {
        tables
    } else {
        put_rows(reset_tables(tables, names.drop_last()), names.last(), Seq::empty())
    }
}


/// The names of the modelled tables are the keys of the tables.
proof fn lemma_table_names(tables: Seq<(String, Vec<Row>)>)
    ensures
        table_names(tables_model(tables)) == keys_of(tables),
{
    assert(table_names(tables_model(tables)) =~= keys_of(tables));
}

/// The position of the row with UUID `u`, if any.
fn find_row_index(rows: &Vec<Row>, u: Uuid) -> (r: Option<usize>)
    ensures
        match r {
            Some(i) => i as int == index_of_key(row_uuids(rows_model(rows@)), u.value),
            None => index_of_key(row_uuids(rows_model(rows@)), u.value) < 0,
        },
{
    let mut j: usize = 0;
    while j < rows.len()
        invariant
            j <= rows.len(),
            forall|l: int| 0 <= l < j ==> row_uuids(rows_model(rows@))[l] != u.value,
        decreases rows.len() - j,
    {
        if rows[j].row_uuid().value == u.value {
            proof {
                lemma_index_of_key_at(row_uuids(rows_model(rows@)), u.value, j as int);
            }
            return Some(j);
        }
        j = j + 1;
    }
    proof {
        lemma_index_of_key_absent(row_uuids(rows_model(rows@)), u.value);
    }
    None
}

impl Idl {
    /// Within each table, no two rows share a UUID.
    #[verifier::type_invariant]
    spec fn distinct_rows(self) -> bool {
        tables_distinct(tables_model(self.tables@))
    }
}

impl Default for Idl {
    fn default() -> (r: Self)
        ensures
            r@ == (IdlModel { state: IdlState::Initial, schema: None, tables: Seq::empty(), change_seqno: 0 }),
    {
        Self::new()
    }
}

impl Idl {
    /// Create a new IDL instance.
    pub fn new() -> (r: Self)
        ensures
            r@ == (IdlModel { state: IdlState::Initial, schema: None, tables: Seq::empty(), change_seqno: 0 }),
    {
        let r = Idl { state: IdlState::Initial, schema: None, tables: Vec::new(), change_seqno: 0 };
        assert(tables_model(r.tables@) =~= Seq::empty());
        r
    }

    /// Get the current state.
    pub fn state(&self) -> (r: IdlState)
        ensures
            r == self@.state,
    {
        self.state
    }

    /// Get the schema (if loaded).
    pub fn schema(&self) -> (r: Option<&DbSchema>)
        ensures
            r is Some == self@.schema is Some,
            r matches Some(x) ==> *x == self@.schema->0,
    {
        self.schema.as_ref()
    }

    /// Get the current change sequence number.
    pub fn change_seqno(&self) -> (r: u64)
        ensures
            r == self@.change_seqno,
    {
        self.change_seqno
    }

    /// Check if the IDL is connected and monitoring.
    pub fn is_monitoring(&self) -> (r: bool)
        ensures
            r == (self@.state == IdlState::Monitoring),
    {
        self.state == IdlState::Monitoring
    }

    /// Get all rows in a table; none for a table the replica does not have.
    pub fn rows(&self, table: &str) -> (r: Vec<&Row>)
        ensures
            r@.map_values(|x: &Row| x@) == match table_rows(self@.tables, table@) {
                Some(rows) => rows,
                None => Seq::empty(),
            },
    {
        proof {
            lemma_table_names(self.tables@);
            lemma_index_of_key(keys_of(self.tables@), table@);
        }
        let mut out: Vec<&Row> = Vec::new();
        match find_key(&self.tables, table) {
            Some(ti) => {
                let rows = &self.tables[ti].1;
                let mut i: usize = 0;
                while i < rows.len()
                    invariant
                        i <= rows.len(),
                        out@.len() == i,
                        out@.map_values(|x: &Row| x@) == rows_model(rows@).take(i as int),
                    decreases rows.len() - i,
                {
                    let ghost prev = out@;
                    out.push(&rows[i]);
                    assert forall|k: int| 0 <= k < i + 1 implies out@[k]@ == rows_model(rows@)[k] by {
                        if k < i {
                            assert(prev.map_values(|x: &Row| x@)[k] == rows_model(rows@).take(i as int)[k]);
                            assert(out@[k] == prev[k]);
                        } else {
                            assert(out@[k] == &rows@[k]);
                        }
                    }
                    assert(out@.map_values(|x: &Row| x@) =~= rows_model(rows@).take(i + 1));
                    i = i + 1;
                }
                assert(rows_model(rows@).take(rows.len() as int) =~= rows_model(rows@));
            },
            None => {
                assert(out@.map_values(|x: &Row| x@) =~= Seq::empty());
            },
        }
        out
    }

    /// Get a row by UUID.
    pub fn row(&self, table: &str, uuid: &Uuid) -> (r: Option<&Row>)
        ensures
            match lookup_row(self@.tables, table@, uuid.value) {
                Some(m) => r matches Some(x) && x@ == m,
                None => r is None,
            },
    {
        proof {
            lemma_table_names(self.tables@);
            lemma_index_of_key(keys_of(self.tables@), table@);
        }
        match find_key(&self.tables, table) {
            Some(ti) => {
                let rows = &self.tables[ti].1;
                proof {
                    lemma_index_of_key(row_uuids(rows_model(rows@)), uuid.value);
                }
                match find_row_index(rows, *uuid) {
                    Some(ri) => Some(&rows[ri]),
                    None => None,
                }
            },
            None => None,
        }
    }

    /// The position of table `name`, which is added, empty, if missing.
    fn table_index(&mut self, name: &str) -> (r: usize)
        ensures
            final(self)@ == (IdlModel { tables: with_table(old(self)@.tables, name@), ..old(self)@ }),
            r as int == index_of_key(table_names(final(self)@.tables), name@),
            r < final(self)@.tables.len(),
    {
        proof {
            use_type_invariant(&*self);
            lemma_table_names(self.tables@);
            lemma_index_of_key(keys_of(self.tables@), name@);
        }
        match find_key(&self.tables, name) {
            Some(ti) => ti,
            None => {
                let rows: Vec<Row> = Vec::new();
                let ghost before = tables_model(self.tables@);
                let ghost old_tables = self.tables@;
                let mut tables: Vec<(String, Vec<Row>)> = Vec::new();
                std::mem::swap(&mut tables, &mut self.tables);
                tables.push((name.to_owned(), rows));
                proof {
                    assert(rows_model(rows@) =~= Seq::empty());
                    assert(tables_model(tables@) =~= before.push((name@, Seq::empty())));
                    lemma_table_names(tables@);
                    assert forall|j: int| 0 <= j < before.len() implies table_names(tables_model(tables@))[j]
                        != name@ by {
                        assert(table_names(tables_model(tables@))[j] == keys_of(old_tables)[j]);
                    }
                    lemma_index_of_key_at(table_names(tables_model(tables@)), name@, before.len() as int);
                    assert(tables_distinct(tables_model(tables@))) by {
                        assert forall|i: int| 0 <= i < tables@.len() implies rows_distinct(
                            #[trigger] tables_model(tables@)[i].1,
                        ) by {
                            if i < before.len() {
                                assert(tables_model(tables@)[i] == before[i]);
                            }
                        }
                    }
                }
                let n = tables.len();
                self.tables = tables;
                n - 1
            },
        }
    }

    /// Add table `name`, empty, unless the replica already has it.
    pub fn add_table(&mut self, name: &str)
        ensures
            final(self)@ == (IdlModel { tables: with_table(old(self)@.tables, name@), ..old(self)@ }),
    {
        let _ = self.table_index(name);
    }
}

/// Apply the update `update` of the row with UUID `uuid` to `rows`.
fn update_rows(rows: &mut Vec<Row>, uuid: Uuid, update: &Json)
    requires
        rows_distinct(rows_model(old(rows)@)),
    ensures
        rows_model(final(rows)@) == rows_after(rows_model(old(rows)@), uuid.value, update@),
        rows_distinct(rows_model(final(rows)@)),
{
    let ghost start = rows_model(rows@);
    proof {
        lemma_index_of_key(row_uuids(start), uuid.value);
    }
    match update.as_object() {
        None => {},
        Some(ms) => {
            proof {
                lemma_member_keys(ms@);
            }
            let has_old = find_key(ms, "old").is_some();
            match update.get("new") {
                None => {
                    if has_old {
                        match find_row_index(rows, uuid) {
                            Some(ri) => {
                                rows.remove(ri);
                                assert(rows_model(rows@) =~= start.remove(ri as int));
                                assert(rows_distinct(rows_model(rows@))) by {
                                    assert forall|i: int, j: int| 0 <= i < j < rows_model(rows@).len() implies #[trigger] rows_model(
                                        rows@,
                                    )[i].uuid != #[trigger] rows_model(rows@)[j].uuid by {
                                        let a = if i < ri { i } else { i + 1 };
                                        let b = if j < ri { j } else { j + 1 };
                                        assert(rows_model(rows@)[i] == start[a]);
                                        assert(rows_model(rows@)[j] == start[b]);
                                    }
                                }
                            },
                            None => {},
                        }
                    }
                },
                Some(new) => {
                    let j = match find_row_index(rows, uuid) {
                        Some(ri) => ri,
                        None => {
                            let fresh = Row::new(uuid);
                            rows.push(fresh);
                            assert(rows_model(rows@) =~= start.push(fresh@));
                            assert(rows_distinct(rows_model(rows@))) by {
                                assert forall|i: int, k: int| 0 <= i < k < rows_model(rows@).len() implies #[trigger] rows_model(
                                    rows@,
                                )[i].uuid != #[trigger] rows_model(rows@)[k].uuid by {
                                    if k == start.len() {
                                        assert(row_uuids(start)[i] != uuid.value);
                                    } else {
                                        assert(rows_model(rows@)[i] == start[i]);
                                        assert(rows_model(rows@)[k] == start[k]);
                                    }
                                }
                            }
                            rows.len() - 1
                        },
                    };
                    let ghost mid = rows_model(rows@);
                    match new.as_object() {
                        Some(nms) => {
                            let mut row = rows.remove(j);
                            row.update(nms);
                            rows.insert(j, row);
                            assert(rows_model(rows@) =~= mid.update(
                                j as int,
                                RowModel {
                                    columns: set_columns(mid[j as int].columns, members_model(nms@)),
                                    modified: true,
                                    ..mid[j as int]
                                },
                            ));
                            assert(rows_distinct(rows_model(rows@))) by {
                                assert forall|i: int, k: int| 0 <= i < k < rows_model(rows@).len() implies #[trigger] rows_model(
                                    rows@,
                                )[i].uuid != #[trigger] rows_model(rows@)[k].uuid by {
                                    assert(rows_model(rows@)[i].uuid == mid[i].uuid);
                                    assert(rows_model(rows@)[k].uuid == mid[k].uuid);
                                }
                            }
                        },
                        None => {},
                    }
                },
            }
        },
    }
}

impl Idl {
    /// Apply the update of one row, the one with UUID `uuid` in table
    /// `table`; the table is created if missing.
    pub fn apply_row_update(&mut self, table: &str, uuid: Uuid, update: &Json)
        ensures
            final(self)@ == (IdlModel {
                tables: row_update(old(self)@.tables, table@, uuid.value, update@),
                ..old(self)@
            }),
    {
        let ti = self.table_index(table);
        proof {
            use_type_invariant(&*self);
            lemma_index_of_key(table_names(self@.tables), table@);
        }
        let ghost t = self@.tables;
        let ghost old_tables = self.tables@;
        let mut tables: Vec<(String, Vec<Row>)> = Vec::new();
        std::mem::swap(&mut tables, &mut self.tables);
        let (name, mut rows) = tables.remove(ti);
        assert(rows_model(rows@) == t[ti as int].1);
        update_rows(&mut rows, uuid, update);
        let ghost new_rows = rows_model(rows@);
        tables.insert(ti, (name, rows));
        proof {
            assert(name@ == table@);
            assert(tables_model(tables@) =~= t.update(ti as int, (table@, new_rows)));
            assert(tables_distinct(tables_model(tables@))) by {
                assert forall|i: int| 0 <= i < tables@.len() implies rows_distinct(
                    #[trigger] tables_model(tables@)[i].1,
                ) by {
                    if i != ti {
                        assert(tables_model(tables@)[i] == t[i]);
                    }
                }
            }
        }
        self.tables = tables;
    }

    /// Process updates for a single table: an object of row updates keyed
    /// by the text of each row's UUID.
    fn process_table_update(&mut self, table_name: &str, update: &Json)
        ensures
            final(self)@ == (IdlModel {
                tables: table_update(old(self)@.tables, table_name@, update@),
                ..old(self)@
            }),
    {
        match update.as_object() {
            Some(ms) => {
                let ghost start = self@;
                let mut i: usize = 0;
                proof {
                    lemma_members_model_len(ms@);
                    assert(members_model(ms@).take(0) =~= Seq::<(Seq<char>, JsonModel)>::empty());
                }
                while i < ms.len()
                    invariant
                        i <= ms.len(),
                        members_model(ms@).len() == ms.len(),
                        self@ == (IdlModel {
                            tables: apply_rows(start.tables, table_name@, members_model(ms@).take(i as int)),
                            ..start
                        }),
                    decreases ms.len() - i,
                {
                    proof {
                        lemma_members_model_index(ms@, i as int);
                        assert(members_model(ms@).take(i + 1).drop_last() =~= members_model(ms@).take(
                            i as int,
                        ));
                    }
                    match Uuid::parse(ms[i].0.as_str()) {
                        Some(u) => self.apply_row_update(table_name, u, &ms[i].1),
                        None => {},
                    }
                    i = i + 1;
                }
                assert(members_model(ms@).take(ms.len() as int) =~= members_model(ms@));
            },
            None => {},
        }
    }

    /// Process an update from the server: an object of table updates keyed
    /// by table name. The change sequence number advances by one.
    pub fn process_update(&mut self, update: &Json)
        requires
            old(self)@.change_seqno < u64::MAX,
        ensures
            final(self)@ == (IdlModel {
                tables: database_update(old(self)@.tables, update@),
                change_seqno: (old(self)@.change_seqno + 1) as u64,
                ..old(self)@
            }),
    {
        match update.as_object() {
            Some(ms) => {
                let ghost start = self@;
                let mut i: usize = 0;
                proof {
                    lemma_members_model_len(ms@);
                    assert(members_model(ms@).take(0) =~= Seq::<(Seq<char>, JsonModel)>::empty());
                }
                while i < ms.len()
                    invariant
                        i <= ms.len(),
                        members_model(ms@).len() == ms.len(),
                        self@ == (IdlModel {
                            tables: apply_tables(start.tables, members_model(ms@).take(i as int)),
                            ..start
                        }),
                    decreases ms.len() - i,
                {
                    proof {
                        lemma_members_model_index(ms@, i as int);
                        assert(members_model(ms@).take(i + 1).drop_last() =~= members_model(ms@).take(
                            i as int,
                        ));
                    }
                    self.process_table_update(ms[i].0.as_str(), &ms[i].1);
                    i = i + 1;
                }
                assert(members_model(ms@).take(ms.len() as int) =~= members_model(ms@));
            },
            None => {},
        }
        proof {
            use_type_invariant(&*self);
        }
        self.change_seqno = self.change_seqno + 1;
    }

    /// Set the schema (called after the schema reply): every table of the
    /// schema starts out empty, and the replica waits for the monitor reply.
    pub fn set_schema(&mut self, schema: DbSchema)
        ensures
            final(self)@ == (IdlModel {
                state: IdlState::MonitorRequested,
                schema: Some(schema),
                tables: reset_tables(old(self)@.tables, schema.table_names()),
                ..old(self)@
            }),
    {
        let ghost start = self@;
        let mut i: usize = 0;
        assert(schema.table_names().take(0) =~= Seq::<Seq<char>>::empty());
        while i < schema.tables.len()
            invariant
                i <= schema.tables.len(),
                self@ == (IdlModel {
                    tables: reset_tables(start.tables, schema.table_names().take(i as int)),
                    ..start
                }),
            decreases schema.tables.len() - i,
        {
            assert(schema.table_names().take(i + 1).drop_last() =~= schema.table_names().take(i as int));
            self.clear_table(schema.tables[i].0.as_str());
            i = i + 1;
        }
        assert(schema.table_names().take(schema.tables.len() as int) =~= schema.table_names());
        proof {
            use_type_invariant(&*self);
        }
        self.schema = Some(schema);
        self.state = IdlState::MonitorRequested;
    }

    /// Make table `name` present and empty.
    fn clear_table(&mut self, name: &str)
        ensures
            final(self)@ == (IdlModel { tables: put_rows(old(self)@.tables, name@, Seq::empty()), ..old(self)@ }),
    {
        let ti = self.table_index(name);
        proof {
            use_type_invariant(&*self);
        }
        let ghost t = self@.tables;
        let ghost base = old(self)@.tables;
        let mut tables: Vec<(String, Vec<Row>)> = Vec::new();
        std::mem::swap(&mut tables, &mut self.tables);
        let empty: Vec<Row> = Vec::new();
        tables.set(ti, (name.to_owned(), empty));
        proof {
            lemma_index_of_key(table_names(base), name@);
            assert(rows_model(empty@) =~= Seq::empty());
            assert(tables_model(tables@) =~= t.update(ti as int, (name@, Seq::empty())));
            lemma_index_of_key(table_names(t), name@);
            if index_of_key(table_names(base), name@) < 0 {
                if ti < base.len() {
                    assert(table_names(t)[ti as int] == table_names(base)[ti as int]);
                }
                assert(ti == base.len());
                assert(t.update(ti as int, (name@, Seq::<RowModel>::empty())) =~= base.push((name@, Seq::empty())));
            }
            assert(tables_distinct(tables_model(tables@))) by {
                assert forall|i: int| 0 <= i < tables@.len() implies rows_distinct(
                    #[trigger] tables_model(tables@)[i].1,
                ) by {
                    if i != ti {
                        assert(tables_model(tables@)[i] == t[i]);
                    }
                }
            }
        }
        self.tables = tables;
    }

    /// Mark as monitoring (called after successful monitor request).
    pub fn set_monitoring(&mut self)
        ensures
            final(self)@ == (IdlModel { state: IdlState::Monitoring, ..old(self)@ }),
    {
        proof {
            use_type_invariant(&*self);
        }
        self.state = IdlState::Monitoring;
    }
}

/// The table that `with_table` makes present is found, with its rows.
proof fn lemma_with_table(tables: TablesModel, name: Seq<char>)
    ensures
        table_rows(with_table(tables, name), name) == Some(
            match table_rows(tables, name) {
                Some(rows) => rows,
                None => Seq::<RowModel>::empty(),
            },
        ),
        forall|other: Seq<char>| other != name ==> table_rows(with_table(tables, name), other)
            == #[trigger] table_rows(tables, other),
{
    let keys = table_names(tables);
    lemma_index_of_key(keys, name);
    if index_of_key(keys, name) < 0 {
        assert(table_names(with_table(tables, name)) =~= keys.push(name));
        lemma_index_after_set(keys, name, name);
        assert forall|other: Seq<char>| other != name implies table_rows(with_table(tables, name), other)
            == #[trigger] table_rows(tables, other) by {
            lemma_index_after_set(keys, name, other);
            lemma_index_of_key(keys, other);
        }
    }
}

/// Putting rows into a present table makes them its rows, and leaves the
/// other tables alone.
proof fn lemma_put_rows(tables: TablesModel, name: Seq<char>, rows: RowsModel, other: Seq<char>)
    requires
        index_of_key(table_names(tables), name) >= 0,
    ensures
        table_rows(put_rows(tables, name, rows), name) == Some(rows),
        other != name ==> table_rows(put_rows(tables, name, rows), other) == table_rows(tables, other),
{
    let keys = table_names(tables);
    let i = index_of_key(keys, name);
    lemma_index_of_key(keys, name);
    assert(table_names(put_rows(tables, name, rows)) =~= keys.update(i, name));
    lemma_index_after_set(keys, name, name);
    lemma_index_after_set(keys, name, other);
    lemma_index_of_key(keys, other);
}

/// Law: after an update whose `new` value is an object, the row exists and
/// holds the columns it had (none for a new row) with that object's members
/// set, and it is marked modified.
pub proof fn lemma_row_update_sets_columns(
    tables: TablesModel,
    name: Seq<char>,
    u: u128,
    upd: JsonModel,
    values: Seq<(Seq<char>, JsonModel)>,
)
    requires
        object_get(upd, "new"@) == Some(JsonModel::Object(values)),
    ensures
        lookup_row(row_update(tables, name, u, upd), name, u) == Some(
            RowModel {
                uuid: u,
                columns: set_columns(
                    match lookup_row(tables, name, u) {
                        Some(r) => r.columns,
                        None => Seq::empty(),
                    },
                    values,
                ),
                modified: true,
            },
        ),
{
    let t = with_table(tables, name);
    lemma_with_table(tables, name);
    let rows = table_rows(t, name)->0;
    lemma_index_of_key(table_names(tables), name);
    lemma_index_of_key(table_names(t), name);
    let new_rows = rows_after(rows, u, upd);
    lemma_put_rows(t, name, new_rows, name);
    let keys = row_uuids(rows);
    lemma_index_of_key(keys, u);
    let i = index_of_key(keys, u);
    if i >= 0 {
        assert(row_uuids(new_rows) =~= keys);
    } else {
        let pushed = rows.push(RowModel { uuid: u, columns: Seq::empty(), modified: false });
        assert(row_uuids(new_rows) =~= keys.push(u));
        lemma_index_after_set(keys, u, u);
    }
}

/// Law: an update with `old` and no `new` deletes the row: afterwards the
/// table has no row with that UUID.
pub proof fn lemma_row_update_deletes(tables: TablesModel, name: Seq<char>, u: u128, upd: JsonModel)
    requires
        tables_distinct(tables),
        upd matches JsonModel::Object(ms) && index_of_key(member_keys(ms), "old"@) >= 0,
        object_get(upd, "new"@) is None,
    ensures
        lookup_row(row_update(tables, name, u, upd), name, u) is None,
{
    let t = with_table(tables, name);
    lemma_with_table(tables, name);
    let rows = table_rows(t, name)->0;
    lemma_index_of_key(table_names(tables), name);
    lemma_index_of_key(table_names(t), name);
    let new_rows = rows_after(rows, u, upd);
    lemma_put_rows(t, name, new_rows, name);
    let keys = row_uuids(rows);
    lemma_index_of_key(keys, u);
    let i = index_of_key(keys, u);
    assert(rows_distinct(rows)) by {
        let k = index_of_key(table_names(tables), name);
        if k >= 0 {
            assert(rows == tables[k].1);
        } else {
            assert(rows =~= Seq::<RowModel>::empty());
        }
    }
    assert forall|j: int| 0 <= j < new_rows.len() implies row_uuids(new_rows)[j] != u by {
        if i >= 0 {
            let a = if j < i { j } else { j + 1 };
            assert(new_rows[j] == rows[a]);
            assert(rows[a].uuid != rows[i].uuid);
        }
    }
    lemma_index_of_key_absent(row_uuids(new_rows), u);
}

/// Law: the update of a row of one table leaves every other table alone.
pub proof fn lemma_row_update_frame(tables: TablesModel, name: Seq<char>, u: u128, upd: JsonModel, other: Seq<char>)
    requires
        other != name,
    ensures
        table_rows(row_update(tables, name, u, upd), other) == table_rows(tables, other),
{
    let t = with_table(tables, name);
    lemma_with_table(tables, name);
    lemma_index_of_key(table_names(t), name);
    lemma_put_rows(t, name, rows_after(table_rows(t, name)->0, u, upd), other);
}

/// Removing a row with another UUID does not change which row `v` finds.
proof fn lemma_find_row_remove(rows: RowsModel, i: int, v: u128)
    requires
        0 <= i < rows.len(),
        rows[i].uuid != v,
    ensures
        find_row(rows.remove(i), v) == find_row(rows, v),
{
    let keys = row_uuids(rows);
    let after = rows.remove(i);
    let nkeys = row_uuids(after);
    lemma_index_of_key(keys, v);
    let k = index_of_key(keys, v);
    if k >= 0 {
        let k2 = if k < i { k } else { k - 1 };
        assert(after[k2] == rows[k]);
        assert forall|j: int| 0 <= j < k2 implies nkeys[j] != v by {
            let a = if j < i { j } else { j + 1 };
            assert(after[j] == rows[a]);
            assert(nkeys[j] == after[j].uuid);
            assert(keys[a] == rows[a].uuid);
            assert(keys[a] != v);
        }
        assert(nkeys[k2] == after[k2].uuid);
        lemma_index_of_key_at(nkeys, v, k2);
    } else {
        assert forall|j: int| 0 <= j < nkeys.len() implies nkeys[j] != v by {
            let a = if j < i { j } else { j + 1 };
            assert(after[j] == rows[a]);
            assert(nkeys[j] == after[j].uuid);
            assert(keys[a] == rows[a].uuid);
            assert(keys[a] != v);
        }
        lemma_index_of_key_absent(nkeys, v);
    }
}

/// Replacing a row by one with the same UUID, not `v`, does not change
/// which row `v` finds.
proof fn lemma_find_row_update(rows: RowsModel, j: int, row: RowModel, v: u128)
    requires
        0 <= j < rows.len(),
        row.uuid == rows[j].uuid,
        rows[j].uuid != v,
    ensures
        find_row(rows.update(j, row), v) == find_row(rows, v),
{
    let keys = row_uuids(rows);
    assert(row_uuids(rows.update(j, row)) =~= keys);
    lemma_index_of_key(keys, v);
}

/// Adding a row with another UUID does not change which row `v` finds.
proof fn lemma_find_row_push(rows: RowsModel, row: RowModel, v: u128)
    requires
        row.uuid != v,
    ensures
        find_row(rows.push(row), v) == find_row(rows, v),
{
    let keys = row_uuids(rows);
    let pushed = keys.push(row.uuid);
    assert(row_uuids(rows.push(row)) =~= pushed);
    assert(pushed.drop_last() =~= keys);
    assert(index_of_key(pushed, v) == index_of_key(keys, v));
    lemma_index_of_key(keys, v);
}

/// Law: the update of the row with UUID `u` in table `name` (a deletion,
/// a modification or an insertion) leaves every other row of that table as
/// it was: the row with any other UUID `v` reads back unchanged, present or
/// absent.
pub proof fn lemma_row_update_other_rows(tables: TablesModel, name: Seq<char>, u: u128, upd: JsonModel, v: u128)
    requires
        v != u,
    ensures
        lookup_row(row_update(tables, name, u, upd), name, v) == lookup_row(tables, name, v),
{
    let t = with_table(tables, name);
    lemma_with_table(tables, name);
    let rows = table_rows(t, name)->0;
    lemma_index_of_key(table_names(tables), name);
    lemma_index_of_key(table_names(t), name);
    let new_rows = rows_after(rows, u, upd);
    lemma_put_rows(t, name, new_rows, name);
    let keys = row_uuids(rows);
    lemma_index_of_key(keys, u);
    let i = index_of_key(keys, u);
    match upd {
        JsonModel::Object(ms) => {
            match object_get(upd, "new"@) {
                None => {
                    if index_of_key(member_keys(ms), "old"@) >= 0 && i >= 0 {
                        lemma_find_row_remove(rows, i, v);
                    }
                },
                Some(new) => {
                    let fresh = RowModel { uuid: u, columns: Seq::empty(), modified: false };
                    let rows1 = if i >= 0 { rows } else { rows.push(fresh) };
                    let j = if i >= 0 { i } else { rows.len() as int };
                    if i < 0 {
                        lemma_find_row_push(rows, fresh, v);
                    }
                    assert(rows1[j].uuid == u);
                    match new {
                        JsonModel::Object(values) => {
                            lemma_find_row_update(
                                rows1,
                                j,
                                RowModel { columns: set_columns(rows1[j].columns, values), modified: true, ..rows1[j] },
                                v,
                            );
                        },
                        _ => {},
                    }
                },
            }
        },
        _ => {},
    }
    if index_of_key(table_names(tables), name) < 0 {
        assert(find_row(Seq::<RowModel>::empty(), v) is None) by {
            lemma_index_of_key(row_uuids(Seq::<RowModel>::empty()), v);
        }
    }
}

} // verus!
