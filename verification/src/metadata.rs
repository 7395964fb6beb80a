//! Rows of structural metadata: columns, constraints, foreign keys and
//! indexes of a table. Each kind of row names its fields and gives its
//! values as text, one value for each field and in the same order.

use crate::tree::optional_text;
use vstd::prelude::*;
use vstd::string::*;

verus! {

/// A row that can be shown in a table of text.
pub trait TableRow {
    /// The names of the fields of this kind of row.
    spec fn field_names(&self) -> Seq<Seq<char>>;

    /// The values of this row as text, one for each field.
    spec fn values(&self) -> Seq<Seq<char>>;

    /// Each field has its value.
    proof fn lemma_values_match_fields(&self)
        ensures
            self.values().len() == self.field_names().len(),
    ;

    /// The names of the fields of this kind of row.
    fn fields(&self) -> (names: Vec<String>)
        ensures
            names.deep_view() == self.field_names(),
    ;

    /// The values of this row as text, one for each field.
    fn columns(&self) -> (values: Vec<String>)
        ensures
            values.deep_view() == self.values(),
    ;
}

/// The text that stands for an optional value: the value, or nothing.
pub open spec fn text_or_empty(value: Option<Seq<char>>) -> Seq<char> {
    match value {
        Some(text) => text,
        None => Seq::empty(),
    }
}

/// The text that stands for an optional value: the value, or nothing.
pub fn shown(value: &Option<String>) -> (text: String)
    ensures
        text@ == text_or_empty(optional_text(*value)),
{
    match value {
        Some(text) => text.clone(),
        None => String::new(),
    }
}

/// A constraint of a table, other than a foreign key.
pub struct Constraint {
    name: String,
    column_name: String,
}

impl Constraint {
    /// The constraint `name` on the column `column_name`.
    pub fn new(name: String, column_name: String) -> (row: Constraint)
        ensures
            row.values() == seq![name@, column_name@],
    {
        Constraint { name, column_name }
    }
}

impl TableRow for Constraint {
    open spec fn field_names(&self) -> Seq<Seq<char>> {
        seq!["name"@, "column_name"@]
    }

    closed spec fn values(&self) -> Seq<Seq<char>> {
        seq![self.name@, self.column_name@]
    }

    proof fn lemma_values_match_fields(&self) {
    }

    fn fields(&self) -> (names: Vec<String>) {
        let names = vec![String::from_str("name"), String::from_str("column_name")];
        assert(names.deep_view() =~= self.field_names());
        names
    }

    fn columns(&self) -> (values: Vec<String>) {
        let values = vec![self.name.clone(), self.column_name.clone()];
        assert(values.deep_view() =~= self.values());
        values
    }
}

/// A column of a table.
pub struct Column {
    name: Option<String>,
    data_type: Option<String>,
    null: Option<String>,
    default: Option<String>,
    comment: Option<String>,
}

impl Column {
    /// The column with the given name, type, nullability, default and
    /// comment.
    pub fn new(
        name: Option<String>,
        data_type: Option<String>,
        null: Option<String>,
        default: Option<String>,
        comment: Option<String>,
    ) -> (row: Column)
        ensures
            row.values() == seq![
                text_or_empty(optional_text(name)),
                text_or_empty(optional_text(data_type)),
                text_or_empty(optional_text(null)),
                text_or_empty(optional_text(default)),
                text_or_empty(optional_text(comment)),
            ],
    {
        Column { name, data_type, null, default, comment }
    }
}

impl TableRow for Column {
    open spec fn field_names(&self) -> Seq<Seq<char>> {
        seq!["name"@, "type"@, "null"@, "default"@, "comment"@]
    }

    closed spec fn values(&self) -> Seq<Seq<char>> {
        seq![
            text_or_empty(optional_text(self.name)),
            text_or_empty(optional_text(self.data_type)),
            text_or_empty(optional_text(self.null)),
            text_or_empty(optional_text(self.default)),
            text_or_empty(optional_text(self.comment)),
        ]
    }

    proof fn lemma_values_match_fields(&self) {
    }

    fn fields(&self) -> (names: Vec<String>) {
        let names = vec![
            String::from_str("name"),
            String::from_str("type"),
            String::from_str("null"),
            String::from_str("default"),
            String::from_str("comment"),
        ];
        assert(names.deep_view() =~= self.field_names());
        names
    }

    fn columns(&self) -> (values: Vec<String>) {
        let values = vec![
            shown(&self.name),
            shown(&self.data_type),
            shown(&self.null),
            shown(&self.default),
            shown(&self.comment),
        ];
        assert(values.deep_view() =~= self.values());
        values
    }
}

/// A foreign key of a table.
pub struct ForeignKey {
    name: Option<String>,
    column_name: Option<String>,
    ref_table: Option<String>,
    ref_column: Option<String>,
}

impl ForeignKey {
    /// The foreign key `name` from the column `column_name` to the column
    /// `ref_column` of the table `ref_table`.
    pub fn new(
        name: Option<String>,
        column_name: Option<String>,
        ref_table: Option<String>,
        ref_column: Option<String>,
    ) -> (row: ForeignKey)
        ensures
            row.values() == seq![
                text_or_empty(optional_text(name)),
                text_or_empty(optional_text(column_name)),
                text_or_empty(optional_text(ref_table)),
                text_or_empty(optional_text(ref_column)),
            ],
    {
        ForeignKey { name, column_name, ref_table, ref_column }
    }
}

impl TableRow for ForeignKey {
    open spec fn field_names(&self) -> Seq<Seq<char>> {
        seq!["name"@, "column_name"@, "ref_table"@, "ref_column"@]
    }

    closed spec fn values(&self) -> Seq<Seq<char>> {
        seq![
            text_or_empty(optional_text(self.name)),
            text_or_empty(optional_text(self.column_name)),
            text_or_empty(optional_text(self.ref_table)),
            text_or_empty(optional_text(self.ref_column)),
        ]
    }

    proof fn lemma_values_match_fields(&self) {
    }

    fn fields(&self) -> (names: Vec<String>) {
        let names = vec![
            String::from_str("name"),
            String::from_str("column_name"),
            String::from_str("ref_table"),
            String::from_str("ref_column"),
        ];
        assert(names.deep_view() =~= self.field_names());
        names
    }

    fn columns(&self) -> (values: Vec<String>) {
        let values = vec![
            shown(&self.name),
            shown(&self.column_name),
            shown(&self.ref_table),
            shown(&self.ref_column),
        ];
        assert(values.deep_view() =~= self.values());
        values
    }
}

/// An index of a table, once for each column it covers.
pub struct Index {
    name: Option<String>,
    column_name: Option<String>,
    kind: Option<String>,
}

impl Index {
    /// The index `name` of the given kind on the column `column_name`.
    pub fn new(
        name: Option<String>,
        column_name: Option<String>,
        kind: Option<String>,
    ) -> (row: Index)
        ensures
            row.values() == seq![
                text_or_empty(optional_text(name)),
                text_or_empty(optional_text(column_name)),
                text_or_empty(optional_text(kind)),
            ],
    {
        Index { name, column_name, kind }
    }
}

impl TableRow for Index {
    open spec fn field_names(&self) -> Seq<Seq<char>> {
        seq!["name"@, "column_name"@, "type"@]
    }

    closed spec fn values(&self) -> Seq<Seq<char>> {
        seq![
            text_or_empty(optional_text(self.name)),
            text_or_empty(optional_text(self.column_name)),
            text_or_empty(optional_text(self.kind)),
        ]
    }

    proof fn lemma_values_match_fields(&self) {
    }

    fn fields(&self) -> (names: Vec<String>) {
        let names = vec![
            String::from_str("name"),
            String::from_str("column_name"),
            String::from_str("type"),
        ];
        assert(names.deep_view() =~= self.field_names());
        names
    }

    fn columns(&self) -> (values: Vec<String>) {
        let values = vec![shown(&self.name), shown(&self.column_name), shown(&self.kind)];
        assert(values.deep_view() =~= self.values());
        values
    }
}

/// A row of structural metadata of any kind.
pub enum MetadataRow {
    Column(Column),
    Constraint(Constraint),
    ForeignKey(ForeignKey),
    Index(Index),
}

impl TableRow for MetadataRow {
    open spec fn field_names(&self) -> Seq<Seq<char>> {
        match self {
            MetadataRow::Column(row) => row.field_names(),
            MetadataRow::Constraint(row) => row.field_names(),
            MetadataRow::ForeignKey(row) => row.field_names(),
            MetadataRow::Index(row) => row.field_names(),
        }
    }

    open spec fn values(&self) -> Seq<Seq<char>> {
        match self {
            MetadataRow::Column(row) => row.values(),
            MetadataRow::Constraint(row) => row.values(),
            MetadataRow::ForeignKey(row) => row.values(),
            MetadataRow::Index(row) => row.values(),
        }
    }

    proof fn lemma_values_match_fields(&self) {
        match self {
            MetadataRow::Column(row) => row.lemma_values_match_fields(),
            MetadataRow::Constraint(row) => row.lemma_values_match_fields(),
            MetadataRow::ForeignKey(row) => row.lemma_values_match_fields(),
            MetadataRow::Index(row) => row.lemma_values_match_fields(),
        }
    }

    fn fields(&self) -> (names: Vec<String>) {
        match self {
            MetadataRow::Column(row) => row.fields(),
            MetadataRow::Constraint(row) => row.fields(),
            MetadataRow::ForeignKey(row) => row.fields(),
            MetadataRow::Index(row) => row.fields(),
        }
    }

    fn columns(&self) -> (values: Vec<String>) {
        match self {
            MetadataRow::Column(row) => row.columns(),
            MetadataRow::Constraint(row) => row.columns(),
            MetadataRow::ForeignKey(row) => row.columns(),
            MetadataRow::Index(row) => row.columns(),
        }
    }
}

} // verus!
