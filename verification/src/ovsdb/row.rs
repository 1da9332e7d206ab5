//! OVSDB row representation.
use vstd::prelude::*;
use crate::ovsdb::assoc::{
    find_key, index_of_key, keys_of, lemma_index_after_set, lemma_index_of_key,
};
use crate::ovsdb::json::{
    bool_of, i64_of, lemma_member_keys, lemma_members_model_index, lemma_members_model_len,
    lemma_members_model_push, member_keys, members_model, object_get, str_of, Json, JsonModel,
};
use crate::ovsdb::uuid::Uuid;

verus! {

/// A row in an OVSDB table.
#[derive(Debug)]
pub struct Row {
    /// The row's UUID
    pub uuid: Uuid,
    /// Column values; the first entry for a column counts
    columns: Vec<(String, Json)>,
    /// Whether this row has been modified locally
    pub modified: bool,
}

/// The abstract value of a row.
pub struct RowModel {
    pub uuid: u128,
    pub columns: Seq<(Seq<char>, JsonModel)>,
    pub modified: bool,
}

impl View for Row {
    type V = RowModel;

    closed spec fn view(&self) -> RowModel {
        RowModel { uuid: self.uuid.value, columns: members_model(self.columns@), modified: self.modified }
    }
}

/// The value of column `k`.
pub open spec fn column_value(columns: Seq<(Seq<char>, JsonModel)>, k: Seq<char>) -> Option<JsonModel> {
    object_get(JsonModel::Object(columns), k)
}

/// The columns with column `k` set to `v`: its entry is replaced, or added
/// at the end when there is none.
pub open spec fn set_column(columns: Seq<(Seq<char>, JsonModel)>, k: Seq<char>, v: JsonModel) -> Seq<(Seq<char>, JsonModel)> {
    let i = index_of_key(member_keys(columns), k);
    if i >= 0 {
        columns.update(i, (k, v))
    } else {
        columns.push((k, v))
    }
}

/// The columns after setting each of `values`, in order.
pub open spec fn set_columns(columns: Seq<(Seq<char>, JsonModel)>, values: Seq<(Seq<char>, JsonModel)>) -> Seq<(Seq<char>, JsonModel)>
    decreases values.len(),
{
    if values.len() == 0 {
        columns
    } else {
        let before = set_columns(columns, values.drop_last());
        set_column(before, values.last().0, values.last().1)
    }
}

/// Law: after setting a column, it reads back the value set, and every
/// other column reads back what it did before.
pub proof fn lemma_set_column(columns: Seq<(Seq<char>, JsonModel)>, k: Seq<char>, v: JsonModel, other: Seq<char>)
    ensures
        column_value(set_column(columns, k, v), k) == Some(v),
        other != k ==> column_value(set_column(columns, k, v), other) == column_value(columns, other),
{
    let keys = member_keys(columns);
    lemma_index_of_key(keys, k);
    lemma_index_after_set(keys, k, other);
    let i = index_of_key(keys, k);
    if i >= 0 {
        assert(member_keys(set_column(columns, k, v)) =~= keys.update(i, k));
        lemma_index_after_set(keys, k, k);
    } else {
        assert(member_keys(set_column(columns, k, v)) =~= keys.push(k));
    }
    lemma_index_of_key(member_keys(set_column(columns, k, v)), other);
    lemma_index_of_key(keys, other);
}

/// Set member `key` of a member list to `value`: its entry is replaced, or
/// added at the end when there is none.
pub fn set_member(members: &mut Vec<(String, Json)>, key: &str, value: Json)
    ensures
        members_model(final(members)@) == set_column(members_model(old(members)@), key@, value@),
{
    proof {
        lemma_member_keys(members@);
        lemma_index_of_key(keys_of(members@), key@);
        lemma_members_model_len(members@);
    }
    let ghost before = members_model(members@);
    match find_key(members, key) {
        Some(i) => {
            let k = key.to_owned();
            let ghost gv = value@;
            members.set(i, (k, value));
            proof {
                lemma_members_model_len(members@);
                assert forall|j: int| 0 <= j < members@.len() implies members_model(members@)[j]
                    == before.update(i as int, (key@, gv))[j] by {
                    lemma_members_model_index(members@, j);
                    lemma_members_model_index(old(members)@, j);
                }
                assert(members_model(members@) =~= before.update(i as int, (key@, gv)));
            }
        },
        None => {
            let k = key.to_owned();
            proof {
                lemma_members_model_push(members@, (k, value));
            }
            members.push((k, value));
        },
    }
}

impl Row {
    /// Create a new row with the given UUID.
    pub fn new(uuid: Uuid) -> (r: Self)
        ensures
            r@ == (RowModel { uuid: uuid.value, columns: Seq::empty(), modified: false }),
    {
        let r = Row { uuid, columns: Vec::new(), modified: false };
        assert(members_model(r.columns@) =~= Seq::empty());
        r
    }

    /// The row's UUID.
    pub(crate) fn row_uuid(&self) -> (r: Uuid)
        ensures
            r.value == self@.uuid,
    {
        self.uuid
    }

    /// The column values, in order.
    pub fn columns(&self) -> (r: &Vec<(String, Json)>)
        ensures
            members_model(r@) == self@.columns,
    {
        &self.columns
    }

    /// Get a column value.
    pub fn get(&self, column: &str) -> (r: Option<&Json>)
        ensures
            match column_value(self@.columns, column@) {
                Some(v) => r matches Some(x) && x@ == v,
                None => r is None,
            },
    {
        proof {
            lemma_member_keys(self.columns@);
            lemma_index_of_key(keys_of(self.columns@), column@);
        }
        match find_key(&self.columns, column) {
            Some(i) => {
                proof {
                    lemma_members_model_index(self.columns@, i as int);
                }
                Some(&self.columns[i].1)
            },
            None => None,
        }
    }

    /// Get a column value as a string.
    pub fn get_string(&self, column: &str) -> (r: Option<&str>)
        ensures
            match column_value(self@.columns, column@) {
                Some(v) => match str_of(v) {
                    Some(s) => r matches Some(x) && x@ == s,
                    None => r is None,
                },
                None => r is None,
            },
    {
        match self.get(column) {
            Some(v) => v.as_str(),
            None => None,
        }
    }

    /// Get a column value as an integer.
    pub fn get_i64(&self, column: &str) -> (r: Option<i64>)
        ensures
            r == match column_value(self@.columns, column@) {
                Some(v) => i64_of(v),
                None => None,
            },
    {
        match self.get(column) {
            Some(v) => v.as_i64(),
            None => None,
        }
    }

    /// Get a column value as a boolean.
    pub fn get_bool(&self, column: &str) -> (r: Option<bool>)
        ensures
            r == match column_value(self@.columns, column@) {
                Some(v) => bool_of(v),
                None => None,
            },
    {
        match self.get(column) {
            Some(v) => v.as_bool(),
            None => None,
        }
    }

    /// Set column `column` to `value`, without marking the row modified.
    fn put(&mut self, column: &str, value: Json)
        ensures
            final(self)@ == (RowModel {
                columns: set_column(old(self)@.columns, column@, value@),
                ..old(self)@
            }),
    {
        set_member(&mut self.columns, column, value);
    }

    /// Set a column value, and mark the row modified.
    pub fn set(&mut self, column: &str, value: Json)
        ensures
            final(self)@ == (RowModel {
                columns: set_column(old(self)@.columns, column@, value@),
                modified: true,
                ..old(self)@
            }),
    {
        self.put(column, value);
        self.modified = true;
    }

    /// Update columns from the members of a JSON object, in order, and mark
    /// the row modified.
    pub fn update(&mut self, values: &Vec<(String, Json)>)
        ensures
            final(self)@ == (RowModel {
                columns: set_columns(old(self)@.columns, members_model(values@)),
                modified: true,
                ..old(self)@
            }),
    {
        let ghost start = self@;
        let mut i: usize = 0;
        proof {
            lemma_members_model_len(values@);
            assert(members_model(values@).take(0) =~= Seq::<(Seq<char>, JsonModel)>::empty());
        }
        while i < values.len()
            invariant
                i <= values.len(),
                members_model(values@).len() == values.len(),
                self@ == (RowModel {
                    columns: set_columns(start.columns, members_model(values@).take(i as int)),
                    ..start
                }),
            decreases values.len() - i,
        {
            proof {
                lemma_members_model_index(values@, i as int);
                assert(members_model(values@).take(i + 1).drop_last() =~= members_model(values@).take(
                    i as int,
                ));
            }
            let v = values[i].1.clone();
            self.put(values[i].0.as_str(), v);
            i = i + 1;
        }
        proof {
            assert(members_model(values@).take(values.len() as int) =~= members_model(values@));
        }
        self.modified = true;
    }
}

} // verus!
