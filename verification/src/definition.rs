use vstd::prelude::*;

use crate::value::DatabaseType;

verus! {

/// How an entity is stored: its table, its associations and its fields.
pub struct EntityDefinition {
    pub table_name: String,
    pub associations: Vec<AssociationDefinition>,
    pub fields: Vec<FieldDefinition>,
}

/// A field of an entity that refers to another entity.
pub struct AssociationDefinition {
    pub referenced_entity_name: String,
    pub field_name: String,
}

/// A field of an entity and the columns it is stored in.
pub struct FieldDefinition {
    pub name: String,
    pub columns: Vec<ColumnDefinition>,
    pub identity_column: String,
    pub primary_key: bool,
}

/// A column of a table.
pub struct ColumnDefinition {
    pub name: String,
    pub ty: DatabaseType,
    pub optional: bool,
    pub auto_increment: bool,
}

} // verus!
