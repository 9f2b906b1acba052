//! The tables of a database and their columns, as introspection found them.

use vstd::prelude::*;

verus! {

/// One table of the database: its name and the names of its columns, in the
/// order in which the table declares them.
#[derive(Debug, PartialEq, Eq)]
pub struct TableSchema {
    pub name: String,
    pub columns: Vec<String>,
}

/// A `TableSchema` with its names as plain text.
pub struct TableSchemaModel {
    pub name: Seq<char>,
    pub columns: Seq<Seq<char>>,
}

/// The texts of a list of names.
pub open spec fn names(list: Seq<String>) -> Seq<Seq<char>> {
    list.map_values(|name: String| name@)
}

impl View for TableSchema {
    type V = TableSchemaModel;

    open spec fn view(&self) -> TableSchemaModel {
        TableSchemaModel { name: self.name@, columns: names(self.columns@) }
    }
}

/// The models of a list of tables.
pub open spec fn tables(list: Seq<TableSchema>) -> Seq<TableSchemaModel> {
    list.map_values(|table: TableSchema| table@)
}

/// Whether `text` begins with `prefix`.
pub open spec fn starts_with(text: Seq<char>, prefix: Seq<char>) -> bool {
    prefix.len() <= text.len() && text.take(prefix.len() as int) == prefix
}

/// Whether a table of this name belongs to the database engine itself: its
/// catalog, its sequence counters and its statistics all carry the reserved
/// prefix `sqlite_`.
pub open spec fn is_system_table(name: Seq<char>) -> bool {
    starts_with(name, "sqlite_"@)
}

/// Whether the schema has a table called `table`.
pub open spec fn has_table(schema: Seq<TableSchemaModel>, table: Seq<char>) -> bool {
    exists|i: int| 0 <= i < schema.len() && (#[trigger] schema[i]).name == table
}

/// Whether the schema has a table called `table` with a column called
/// `column`.
pub open spec fn has_column(
    schema: Seq<TableSchemaModel>,
    table: Seq<char>,
    column: Seq<char>,
) -> bool {
    exists|i: int|
        0 <= i < schema.len() && (#[trigger] schema[i]).name == table
            && schema[i].columns.contains(column)
}

/// Whether `text` begins with `prefix`.
pub fn text_starts_with(text: &str, prefix: &str) -> (yes: bool)
    ensures
        yes == starts_with(text@, prefix@),
{
    let wanted = prefix.unicode_len();
    if text.unicode_len() < wanted {
        return false;
    }
    let mut i: usize = 0;
    while i < wanted
        invariant
            i <= wanted,
            wanted == prefix@.len(),
            wanted <= text@.len(),
            text@.take(i as int) == prefix@.take(i as int),
        decreases wanted - i,
    {
        if text.get_char(i) != prefix.get_char(i) {
            return false;
        }
        i += 1;
    }
    assert(prefix@.take(wanted as int) =~= prefix@);
    true
}

impl TableSchema {
    /// A table with the given name and columns.
    pub fn new(name: String, columns: Vec<String>) -> (table: Self)
        ensures
            table.name == name,
            table.columns == columns,
    {
        TableSchema { name, columns }
    }

    /// Whether the table belongs to the database engine itself.
    pub fn is_system(&self) -> (yes: bool)
        ensures
            yes == is_system_table(self@.name),
    {
        text_starts_with(self.name.as_str(), "sqlite_")
    }

    /// Whether the table has a column called `column`.
    pub fn declares(&self, column: &str) -> (yes: bool)
        ensures
            yes == self@.columns.contains(column@),
    {
        let wanted = String::from_str(column);
        let mut i: usize = 0;
        while i < self.columns.len()
            invariant
                i <= self.columns.len(),
                wanted@ == column@,
                forall|k: int| 0 <= k < i ==> self@.columns[k] != column@,
            decreases self.columns.len() - i,
        {
            if self.columns[i] == wanted {
                assert(self@.columns[i as int] == column@);
                return true;
            }
            i += 1;
        }
        false
    }
}

/// Looks for a table called `table` that has the column `column`, or, where
/// `column` is `None`, for any table called `table`.
pub fn schema_has(schema: &Vec<TableSchema>, table: &str, column: Option<&str>) -> (yes: bool)
    ensures
        yes == match column {
            Some(name) => has_column(tables(schema@), table@, name@),
            None => has_table(tables(schema@), table@),
        },
{
    let wanted = String::from_str(table);
    let mut i: usize = 0;
    while i < schema.len()
        invariant
            i <= schema.len(),
            wanted@ == table@,
            forall|k: int|
                0 <= k < i ==> !((#[trigger] tables(schema@)[k]).name == table@ && match column {
                    Some(name) => tables(schema@)[k].columns.contains(name@),
                    None => true,
                }),
        decreases schema.len() - i,
    {
        if schema[i].name == wanted {
            let found = match column {
                Some(name) => schema[i].declares(name),
                None => true,
            };
            if found {
                assert(tables(schema@)[i as int].name == table@);
                return true;
            }
        }
        i += 1;
    }
    false
}

} // verus!
