//! The catalog tree: databases, their schemas, and the tables in each.

use vstd::prelude::*;

verus! {

/// One table of a catalog listing. A field the catalog does not expose is
/// `None`.
pub struct Table {
    pub name: String,
    /// Creation time in seconds since the Unix epoch.
    pub create_time: Option<i64>,
    /// Time of the last change in seconds since the Unix epoch.
    pub update_time: Option<i64>,
    /// Label of the storage engine.
    pub engine: Option<String>,
    pub schema: Option<String>,
}

/// What a [`Table`] holds, as plain values.
pub struct TableView {
    pub name: Seq<char>,
    pub create_time: Option<i64>,
    pub update_time: Option<i64>,
    pub engine: Option<Seq<char>>,
    pub schema: Option<Seq<char>>,
}

/// The text of an optional string.
pub open spec fn optional_text(value: Option<String>) -> Option<Seq<char>> {
    match value {
        Some(text) => Some(text@),
        None => None,
    }
}

impl View for Table {
    type V = TableView;

    open spec fn view(&self) -> TableView {
        TableView {
            name: self.name@,
            create_time: self.create_time,
            update_time: self.update_time,
            engine: optional_text(self.engine),
            schema: optional_text(self.schema),
        }
    }
}

/// The views of a sequence of tables, in order.
pub open spec fn table_views(tables: Seq<Table>) -> Seq<TableView> {
    tables.map_values(|table: Table| table@)
}

/// A copy of an optional string.
pub fn clone_optional(value: &Option<String>) -> (copy: Option<String>)
    ensures
        optional_text(copy) == optional_text(*value),
{
    match value {
        Some(text) => Some(text.clone()),
        None => None,
    }
}

impl Clone for Table {
    fn clone(&self) -> (copy: Table)
        ensures
            copy@ == self@,
    {
        Table {
            name: self.name.clone(),
            create_time: self.create_time,
            update_time: self.update_time,
            engine: clone_optional(&self.engine),
            schema: clone_optional(&self.schema),
        }
    }
}

impl Table {
    /// A table known by name and schema alone.
    pub fn new(name: String, schema: Option<String>) -> (table: Table)
        ensures
            table@ == (TableView {
                name: name@,
                create_time: None,
                update_time: None,
                engine: None,
                schema: optional_text(schema),
            }),
    {
        Table { name, create_time: None, update_time: None, engine: None, schema }
    }
}

/// The tables that share one schema name, in catalog order.
pub struct Schema {
    pub name: String,
    pub tables: Vec<Table>,
}

/// What a [`Schema`] holds, as plain values.
pub struct SchemaView {
    pub name: Seq<char>,
    pub tables: Seq<TableView>,
}

impl View for Schema {
    type V = SchemaView;

    open spec fn view(&self) -> SchemaView {
        SchemaView { name: self.name@, tables: table_views(self.tables@) }
    }
}

/// A node directly below a database.
pub enum Child {
    Table(Table),
    Schema(Schema),
}

/// What a [`Child`] holds, as plain values.
pub enum ChildView {
    Table(TableView),
    Schema(SchemaView),
}

impl View for Child {
    type V = ChildView;

    open spec fn view(&self) -> ChildView {
        match self {
            Child::Table(table) => ChildView::Table(table@),
            Child::Schema(schema) => ChildView::Schema(schema@),
        }
    }
}

impl Child {
    /// The node that holds a bare table.
    pub fn from_table(table: Table) -> (child: Child)
        ensures
            child == Child::Table(table),
    {
        Child::Table(table)
    }

    /// The node that holds a schema.
    pub fn from_schema(schema: Schema) -> (child: Child)
        ensures
            child == Child::Schema(schema),
    {
        Child::Schema(schema)
    }
}

/// The views of a sequence of nodes, in order.
pub open spec fn child_views(children: Seq<Child>) -> Seq<ChildView> {
    children.map_values(|child: Child| child@)
}

/// A database and the tree of what it holds.
pub struct Database {
    pub name: String,
    pub children: Vec<Child>,
}

/// What a [`Database`] holds, as plain values.
pub struct DatabaseView {
    pub name: Seq<char>,
    pub children: Seq<ChildView>,
}

impl View for Database {
    type V = DatabaseView;

    open spec fn view(&self) -> DatabaseView {
        DatabaseView { name: self.name@, children: child_views(self.children@) }
    }
}

impl Database {
    /// A database with the given name and children.
    pub fn new(database: String, children: Vec<Child>) -> (db: Database)
        ensures
            db.name == database,
            db.children == children,
    {
        Database { name: database, children }
    }
}

} // verus!
