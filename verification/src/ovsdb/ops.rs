//! The JSON forms of OVSDB transaction operations (RFC 7047, section 5.2),
//! and the pieces they are made of.
use vstd::prelude::*;
use crate::ovsdb::json::{
    items_model, jstr, lemma_items_model_push, lemma_members_model_push, members_model, Json,
    JsonModel,
};
use crate::ovsdb::uuid::{uuid_text, Uuid};

verus! {

/// A reference to a row by its UUID: `["uuid", TEXT]`.
pub open spec fn uuid_ref(u: u128) -> JsonModel {
    JsonModel::Array(seq![jstr("uuid"@), jstr(uuid_text(u))])
}

/// A reference to a row inserted in the same transaction: `["named-uuid", NAME]`.
pub open spec fn named_ref(name: Seq<char>) -> JsonModel {
    JsonModel::Array(seq![jstr("named-uuid"@), jstr(name)])
}

/// The set holding one row reference: `["set", [["uuid", TEXT]]]`.
pub open spec fn uuid_set(u: u128) -> JsonModel {
    JsonModel::Array(seq![jstr("set"@), JsonModel::Array(seq![uuid_ref(u)])])
}

/// A condition `[[COLUMN, "==", VALUE]]`.
pub open spec fn where_eq(column: Seq<char>, value: JsonModel) -> JsonModel {
    JsonModel::Array(seq![JsonModel::Array(seq![jstr(column), jstr("=="@), value])])
}

/// The condition that selects the row with UUID `u`.
pub open spec fn where_uuid(u: u128) -> JsonModel {
    where_eq("_uuid"@, uuid_ref(u))
}

/// The condition that selects the rows named `name`.
pub open spec fn where_name(name: Seq<char>) -> JsonModel {
    where_eq("name"@, jstr(name))
}

/// The condition that selects every row: `[]`.
pub open spec fn where_all() -> JsonModel {
    JsonModel::Array(Seq::empty())
}

/// A mutation `[COLUMN, MUTATOR, VALUE]`.
pub open spec fn mutation(column: Seq<char>, mutator: Seq<char>, value: JsonModel) -> JsonModel {
    JsonModel::Array(seq![jstr(column), jstr(mutator), value])
}

/// An `insert` operation.
pub open spec fn op_insert(table: Seq<char>, row: JsonModel, uuid_name: Seq<char>) -> JsonModel {
    JsonModel::Object(
        seq![
            ("op"@, jstr("insert"@)),
            ("table"@, jstr(table)),
            ("row"@, row),
            ("uuid-name"@, jstr(uuid_name)),
        ],
    )
}

/// An `update` of the row with UUID `u`.
pub open spec fn op_update(table: Seq<char>, u: u128, columns: JsonModel) -> JsonModel {
    JsonModel::Object(
        seq![
            ("op"@, jstr("update"@)),
            ("table"@, jstr(table)),
            ("where"@, where_uuid(u)),
            ("row"@, columns),
        ],
    )
}

/// A `mutate` of the rows that `condition` selects.
pub open spec fn op_mutate(table: Seq<char>, condition: JsonModel, mutations: Seq<JsonModel>) -> JsonModel {
    JsonModel::Object(
        seq![
            ("op"@, jstr("mutate"@)),
            ("table"@, jstr(table)),
            ("where"@, condition),
            ("mutations"@, JsonModel::Array(mutations)),
        ],
    )
}

/// A `delete` of the rows that `condition` selects.
pub open spec fn op_delete(table: Seq<char>, condition: JsonModel) -> JsonModel {
    JsonModel::Object(
        seq![("op"@, jstr("delete"@)), ("table"@, jstr(table)), ("where"@, condition)],
    )
}

/// The names of some columns, as a JSON array of strings.
pub open spec fn column_names(columns: Seq<Seq<char>>) -> Seq<JsonModel> {
    columns.map_values(|c: Seq<char>| jstr(c))
}

/// A `wait` until the selected rows equal `expected`, with no timeout.
pub open spec fn op_wait(
    table: Seq<char>,
    columns: Seq<Seq<char>>,
    condition: JsonModel,
    expected: JsonModel,
) -> JsonModel {
    JsonModel::Object(
        seq![
            ("op"@, jstr("wait"@)),
            ("table"@, jstr(table)),
            ("columns"@, JsonModel::Array(column_names(columns))),
            ("where"@, condition),
            ("rows"@, expected),
            ("until"@, jstr("=="@)),
            ("timeout"@, JsonModel::UInt(0)),
        ],
    )
}

/// A `comment` operation.
pub open spec fn op_comment(comment: Seq<char>) -> JsonModel {
    JsonModel::Object(seq![("op"@, jstr("comment"@)), ("comment"@, jstr(comment))])
}

/// Append a member to an object under construction.
pub fn push_member(members: &mut Vec<(String, Json)>, key: &str, value: Json)
    ensures
        members_model(final(members)@) == members_model(old(members)@).push((key@, value@)),
{
    let k = key.to_owned();
    proof {
        lemma_members_model_push(members@, (k, value));
    }
    members.push((k, value));
}

/// Append an element to an array under construction.
pub fn push_item(items: &mut Vec<Json>, value: Json)
    ensures
        items_model(final(items)@) == items_model(old(items)@).push(value@),
{
    proof {
        lemma_items_model_push(items@, value);
    }
    items.push(value);
}

/// A two-element array.
pub fn pair(a: Json, b: Json) -> (r: Json)
    ensures
        r@ == JsonModel::Array(seq![a@, b@]),
{
    let ghost (ga, gb) = (a@, b@);
    let mut items: Vec<Json> = Vec::new();
    push_item(&mut items, a);
    push_item(&mut items, b);
    assert(items_model(items@) =~= seq![ga, gb]);
    Json::Array(items)
}

/// A three-element array.
pub fn triple(a: Json, b: Json, c: Json) -> (r: Json)
    ensures
        r@ == JsonModel::Array(seq![a@, b@, c@]),
{
    let ghost (ga, gb, gc) = (a@, b@, c@);
    let mut items: Vec<Json> = Vec::new();
    push_item(&mut items, a);
    push_item(&mut items, b);
    push_item(&mut items, c);
    assert(items_model(items@) =~= seq![ga, gb, gc]);
    Json::Array(items)
}

/// A one-element array.
pub fn single(a: Json) -> (r: Json)
    ensures
        r@ == JsonModel::Array(seq![a@]),
{
    let mut items: Vec<Json> = Vec::new();
    push_item(&mut items, a);
    Json::Array(items)
}

/// The reference to the row with UUID `u`.
pub fn uuid_ref_json(u: Uuid) -> (r: Json)
    ensures
        r@ == uuid_ref(u.value),
{
    pair(Json::string("uuid"), Json::Str(u.to_string()))
}

/// The reference to the row named `name` in the same transaction.
pub fn named_ref_json(name: &str) -> (r: Json)
    ensures
        r@ == named_ref(name@),
{
    pair(Json::string("named-uuid"), Json::string(name))
}

/// The set holding one reference to the row with UUID `u`.
pub fn uuid_set_json(u: Uuid) -> (r: Json)
    ensures
        r@ == uuid_set(u.value),
{
    pair(Json::string("set"), single(uuid_ref_json(u)))
}

/// The condition that selects the row with UUID `u`.
pub fn where_uuid_json(u: Uuid) -> (r: Json)
    ensures
        r@ == where_uuid(u.value),
{
    single(triple(Json::string("_uuid"), Json::string("=="), uuid_ref_json(u)))
}

/// The condition that selects the rows named `name`.
pub fn where_name_json(name: &str) -> (r: Json)
    ensures
        r@ == where_name(name@),
{
    single(triple(Json::string("name"), Json::string("=="), Json::string(name)))
}

/// The condition that selects every row.
pub fn where_all_json() -> (r: Json)
    ensures
        r@ == where_all(),
{
    let items: Vec<Json> = Vec::new();
    Json::Array(items)
}

/// The mutation `[column, mutator, value]`.
pub fn mutation_json(column: &str, mutator: &str, value: Json) -> (r: Json)
    ensures
        r@ == mutation(column@, mutator@, value@),
{
    triple(Json::string(column), Json::string(mutator), value)
}

/// An `insert` operation.
pub fn insert_op(table: &str, row: Json, uuid_name: &str) -> (r: Json)
    ensures
        r@ == op_insert(table@, row@, uuid_name@),
{
    let ghost grow = row@;
    let mut ms: Vec<(String, Json)> = Vec::new();
    push_member(&mut ms, "op", Json::string("insert"));
    push_member(&mut ms, "table", Json::string(table));
    push_member(&mut ms, "row", row);
    push_member(&mut ms, "uuid-name", Json::string(uuid_name));
    assert(members_model(ms@) =~= seq![
        ("op"@, jstr("insert"@)),
        ("table"@, jstr(table@)),
        ("row"@, grow),
        ("uuid-name"@, jstr(uuid_name@)),
    ]);
    Json::Object(ms)
}

/// An `update` of the row with UUID `u`.
pub fn update_op(table: &str, u: Uuid, columns: Json) -> (r: Json)
    ensures
        r@ == op_update(table@, u.value, columns@),
{
    let ghost gcolumns = columns@;
    let mut ms: Vec<(String, Json)> = Vec::new();
    push_member(&mut ms, "op", Json::string("update"));
    push_member(&mut ms, "table", Json::string(table));
    push_member(&mut ms, "where", where_uuid_json(u));
    push_member(&mut ms, "row", columns);
    assert(members_model(ms@) =~= seq![
        ("op"@, jstr("update"@)),
        ("table"@, jstr(table@)),
        ("where"@, where_uuid(u.value)),
        ("row"@, gcolumns),
    ]);
    Json::Object(ms)
}

/// A `mutate` of the rows that `condition` selects.
pub fn mutate_op(table: &str, condition: Json, mutations: Vec<Json>) -> (r: Json)
    ensures
        r@ == op_mutate(table@, condition@, items_model(mutations@)),
{
    let ghost gcondition = condition@;
    let ghost gmutations = items_model(mutations@);
    let mut ms: Vec<(String, Json)> = Vec::new();
    push_member(&mut ms, "op", Json::string("mutate"));
    push_member(&mut ms, "table", Json::string(table));
    push_member(&mut ms, "where", condition);
    push_member(&mut ms, "mutations", Json::Array(mutations));
    assert(members_model(ms@) =~= seq![
        ("op"@, jstr("mutate"@)),
        ("table"@, jstr(table@)),
        ("where"@, gcondition),
        ("mutations"@, JsonModel::Array(gmutations)),
    ]);
    Json::Object(ms)
}

/// A `delete` of the rows that `condition` selects.
pub fn delete_op(table: &str, condition: Json) -> (r: Json)
    ensures
        r@ == op_delete(table@, condition@),
{
    let ghost gcondition = condition@;
    let mut ms: Vec<(String, Json)> = Vec::new();
    push_member(&mut ms, "op", Json::string("delete"));
    push_member(&mut ms, "table", Json::string(table));
    push_member(&mut ms, "where", condition);
    assert(members_model(ms@) =~= seq![
        ("op"@, jstr("delete"@)),
        ("table"@, jstr(table@)),
        ("where"@, gcondition),
    ]);
    Json::Object(ms)
}

/// A JSON array of column names.
pub fn column_names_json(columns: &Vec<String>) -> (r: Json)
    ensures
        r@ == JsonModel::Array(column_names(columns@.map_values(|c: String| c@))),
{
    let mut items: Vec<Json> = Vec::new();
    let mut i: usize = 0;
    while i < columns.len()
        invariant
            i <= columns.len(),
            items_model(items@) == column_names(columns@.map_values(|c: String| c@)).take(i as int),
        decreases columns.len() - i,
    {
        let ghost before = items_model(items@);
        push_item(&mut items, Json::Str(columns[i].clone()));
        assert(column_names(columns@.map_values(|c: String| c@)).take(i + 1) =~= before.push(
            jstr(columns@[i as int]@),
        ));
        i = i + 1;
    }
    assert(column_names(columns@.map_values(|c: String| c@)).take(columns.len() as int)
        =~= column_names(columns@.map_values(|c: String| c@)));
    Json::Array(items)
}

/// A `wait` until the selected rows equal `expected`.
pub fn wait_op(table: &str, columns: &Vec<String>, condition: Json, expected: Json) -> (r: Json)
    ensures
        r@ == op_wait(table@, columns@.map_values(|c: String| c@), condition@, expected@),
{
    let ghost gcondition = condition@;
    let ghost gexpected = expected@;
    let mut ms: Vec<(String, Json)> = Vec::new();
    push_member(&mut ms, "op", Json::string("wait"));
    push_member(&mut ms, "table", Json::string(table));
    push_member(&mut ms, "columns", column_names_json(columns));
    push_member(&mut ms, "where", condition);
    push_member(&mut ms, "rows", expected);
    push_member(&mut ms, "until", Json::string("=="));
    push_member(&mut ms, "timeout", Json::UInt(0));
    assert(members_model(ms@) =~= seq![
        ("op"@, jstr("wait"@)),
        ("table"@, jstr(table@)),
        ("columns"@, JsonModel::Array(column_names(columns@.map_values(|c: String| c@)))),
        ("where"@, gcondition),
        ("rows"@, gexpected),
        ("until"@, jstr("=="@)),
        ("timeout"@, JsonModel::UInt(0)),
    ]);
    Json::Object(ms)
}

/// A `comment` operation.
pub fn comment_op(comment: &str) -> (r: Json)
    ensures
        r@ == op_comment(comment@),
{
    let mut ms: Vec<(String, Json)> = Vec::new();
    push_member(&mut ms, "op", Json::string("comment"));
    push_member(&mut ms, "comment", Json::string(comment));
    assert(members_model(ms@) =~= seq![("op"@, jstr("comment"@)), ("comment"@, jstr(comment@))]);
    Json::Object(ms)
}

} // verus!
