use vstd::prelude::*;

use core::hash::Hash;

verus! {

/// A type whose values are rows of a table.
pub trait YukinoEntity: 'static {
    /// The name of the table.
    fn table_name() -> &'static str;
}

/// The type of the foreign key of an association.
pub type TypeOfForeignField<A, P, F> = <A as Association<P, F>>::ForeignKeyType;

/// An entity that refers to a `Parent` entity through its field
/// `ForeignField`, which holds the parent's primary key.
pub trait Association<
    Parent: YukinoEntity + WithPrimaryKey<PrimaryKeyType = Self::ForeignKeyType>,
    ForeignField: FieldMarker<Entity = Self, FieldType = Self::ForeignKeyType>,
>: YukinoEntity {
    type ForeignKeyType: 'static + Clone + Ord + Hash;

    /// The key of the referenced parent.
    fn foreign_key(&self) -> &Self::ForeignKeyType;

    /// The name of the foreign key column.
    fn foreign_key_name() -> &'static str where Self: Sized;
}

/// The type of the primary key of an entity.
pub type PrimaryKeyTypeOf<E> = <E as WithPrimaryKey>::PrimaryKeyType;

/// An entity with a primary key.
pub trait WithPrimaryKey: YukinoEntity {
    type PrimaryKeyType: 'static + Clone + Hash + Ord;

    /// The primary key of this row.
    fn primary_key(&self) -> &Self::PrimaryKeyType;

    /// The name of the primary key column.
    fn primary_key_name() -> &'static str where Self: Sized;
}

/// A field of an entity, known by a marker type.
pub trait FieldMarker {
    type Entity: YukinoEntity;
    type FieldType: 'static + Clone;
}

} // verus!
