//! OVSDB schema: the tables of a database and their columns.
use vstd::prelude::*;
use crate::ovsdb::assoc::{find_key, index_of_key, keys_of, lemma_index_of_key};
use crate::ovsdb::json::Json;

verus! {

/// A complete OVSDB database schema.
#[derive(Debug)]
pub struct DbSchema {
    /// Schema name
    pub name: String,
    /// Schema version
    pub version: String,
    /// Table definitions, by name; the first entry for a name counts
    pub tables: Vec<(String, TableSchema)>,
}

/// Schema for a single table.
#[derive(Debug)]
pub struct TableSchema {
    /// Column definitions, by name; the first entry for a name counts
    pub columns: Vec<(String, ColumnSchema)>,
    /// Maximum number of rows (None = unlimited)
    pub max_rows: Option<u64>,
    /// Whether this table is part of the root set
    pub is_root: bool,
    /// Indexes defined on this table
    pub indexes: Vec<Vec<String>>,
}

/// Schema for a single column.
#[derive(Debug)]
pub struct ColumnSchema {
    /// Column type definition
    pub col_type: ColumnType,
    /// Whether this column is mutable
    pub mutable: bool,
    /// Whether this column is ephemeral
    pub ephemeral: bool,
}

/// Column type definition.
#[derive(Debug)]
pub enum ColumnType {
    /// Simple atomic type (string shorthand)
    Atomic(String),
    /// Complex type definition
    Complex(ComplexType),
}

/// Complex column type with key/value and constraints.
#[derive(Debug)]
pub struct ComplexType {
    /// Key type (for maps) or value type (for sets/scalars)
    pub key: TypeSpec,
    /// Value type (for maps only)
    pub value: Option<TypeSpec>,
    /// Minimum number of elements
    pub min: Option<u64>,
    /// Maximum number of elements
    pub max: Option<MaxValue>,
}

/// Type specification for key or value.
#[derive(Debug)]
pub enum TypeSpec {
    /// Simple type name
    Simple(String),
    /// Type with constraints
    Constrained(ConstrainedType),
}

/// Type with additional constraints.
#[derive(Debug)]
pub struct ConstrainedType {
    /// Base type
    pub base_type: String,
    /// Reference table (for uuid types)
    pub ref_table: Option<String>,
    /// Reference type (strong or weak)
    pub ref_type: Option<String>,
    /// Enum values
    pub enum_values: Option<Json>,
    /// Minimum value
    pub min_integer: Option<i64>,
    /// Maximum value
    pub max_integer: Option<i64>,
    /// Minimum length
    pub min_length: Option<u64>,
    /// Maximum length
    pub max_length: Option<u64>,
}

/// Maximum value (can be "unlimited" or a number).
#[derive(Debug, Clone, PartialEq, Eq)]
pub enum MaxValue {
    /// Unlimited
    Unlimited(String),
    /// Specific limit
    Limit(u64),
}

/// Whether a column is mutable when the schema does not say: it is.
pub fn default_true() -> (r: bool)
    ensures
        r,
{
    true
}

impl DbSchema {
    /// The names of the tables, in order.
    pub open spec fn table_names(&self) -> Seq<Seq<char>> {
        keys_of(self.tables@)
    }

    /// Get a table schema by name.
    pub fn table(&self, name: &str) -> (r: Option<&TableSchema>)
        ensures
            index_of_key(self.table_names(), name@) >= 0 ==> r == Some(
                &self.tables@[index_of_key(self.table_names(), name@)].1,
            ),
            index_of_key(self.table_names(), name@) < 0 ==> r is None,
    {
        proof {
            lemma_index_of_key(keys_of(self.tables@), name@);
        }
        match find_key(&self.tables, name) {
            Some(i) => Some(&self.tables[i].1),
            None => None,
        }
    }
}

impl TableSchema {
    /// The names of the columns, in order.
    pub open spec fn column_names(&self) -> Seq<Seq<char>> {
        keys_of(self.columns@)
    }

    /// Get a column schema by name.
    pub fn column(&self, name: &str) -> (r: Option<&ColumnSchema>)
        ensures
            index_of_key(self.column_names(), name@) >= 0 ==> r == Some(
                &self.columns@[index_of_key(self.column_names(), name@)].1,
            ),
            index_of_key(self.column_names(), name@) < 0 ==> r is None,
    {
        proof {
            lemma_index_of_key(keys_of(self.columns@), name@);
        }
        match find_key(&self.columns, name) {
            Some(i) => Some(&self.columns[i].1),
            None => None,
        }
    }
}

} // verus!
