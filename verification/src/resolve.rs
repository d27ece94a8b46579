use vstd::prelude::*;

use crate::definition::{ColumnDefinition, FieldDefinition};
use crate::fields::{
    datetime_converter_base, datetime_database_type, datetime_path, decimal_path,
    field_converter_base, field_database_type, field_type_name, first_datetime_type,
    first_field_type, is_optional_path_type, is_plain_path_type, match_decimal_ty,
    optional_prefix, plain_path_match, BasicFieldResolver, DateTimeFieldResolver, DateTimeType,
    DecimalFieldResolver, FieldType,
};
use crate::text::texts_of;
use crate::types::{TypeMatchResult, TypeModel};
use crate::value::DatabaseType;

verus! {

/// A named field of an entity struct, as the entity derive reads it.
pub struct FieldModel {
    /// The name of the field.
    pub name: String,
    /// The type of the field.
    pub ty: TypeModel,
    /// The column the field is stored in.
    pub column_name: String,
    /// Whether the field carries `#[auto_increment]`.
    pub auto_increment: bool,
    /// Whether the field carries `#[id]`.
    pub id: bool,
    /// The `#[belongs_to(..)]` attribute of the field, if any.
    pub belongs_to: Option<BelongsToAttr>,
}

/// A `#[belongs_to(..)]` attribute.
pub enum BelongsToAttr {
    /// A list, with its first entry when that entry is a path.
    List(Option<String>),
    /// An attribute that is not a list.
    NotList,
    /// An attribute that does not parse, with the parser's message.
    Malformed(String),
}

/// The `#[name(..)]` attribute of an entity struct.
pub enum TableNameAttr {
    Absent,
    Given(String),
    /// An attribute that does not parse, with the parser's message.
    Malformed(String),
}

/// An entity struct, as the entity derive reads it.
pub struct EntityModel {
    /// The name of the struct.
    pub name: String,
    /// Its `#[name(..)]` attribute.
    pub table_name: TableNameAttr,
    /// Its fields, when they are named.
    pub fields: Option<Vec<FieldModel>>,
}

/// What the entity derive knows of a field once it is resolved.
pub struct ResolvedField {
    pub name: String,
    pub definition: FieldDefinition,
    /// The Rust type of the field.
    pub ty: TypeModel,
    /// The type the views of the field are built on.
    pub value_ty: TypeModel,
    /// The name of the converter of the field.
    pub converter_ty: String,
    pub converter_value_count: usize,
    pub field_marker: String,
}

/// A field that refers to another entity.
pub struct ResolvedAssociation {
    /// The path of the referenced entity.
    pub ref_entity_path: String,
    /// The field holding the key of the referenced entity.
    pub foreign_key: String,
    /// The column of that field.
    pub column_name: String,
    /// The position of that field among the fields.
    pub field_index: usize,
}

/// What the entity derive knows of an entity once it is resolved.
pub struct ResolvedEntity {
    pub table_name: String,
    pub entity_name: String,
    pub view_name: String,
    pub vertical_name: String,
    pub converter_name: String,
    pub marker_mod: String,
    pub fields: Vec<ResolvedField>,
    pub associations: Vec<ResolvedAssociation>,
}

/// The resolvers of fields.
#[derive(Clone, Copy, Debug, Eq, PartialEq, Structural)]
pub enum FieldResolverKind {
    Basic,
    Decimal,
    DateTime,
}

/// Why an entity cannot be resolved. The fields are known by their
/// positions.
#[derive(Debug)]
pub enum EntityResolveError {
    /// An attribute that does not parse, with the parser's message.
    Syntax(String),
    ExpectedNamedFields,
    NoFieldResolver(usize),
    ExpectedReferencedEntityPath(usize),
    NoFieldWithName(usize),
    BelongsToMustBeList(usize),
    MultiplePrimaryKeys,
}

/// The message of an error.
pub open spec fn resolve_error_text(e: EntityResolveError) -> Seq<char> {
    match e {
        EntityResolveError::Syntax(m) => m@,
        EntityResolveError::ExpectedNamedFields => "Expected named fields"@,
        EntityResolveError::NoFieldResolver(_) => "Cannot find a field resolver for this field"@,
        EntityResolveError::ExpectedReferencedEntityPath(_) => "Expected referenced entity path"@,
        EntityResolveError::NoFieldWithName(_) => "Cannot find a field with this name"@,
        EntityResolveError::BelongsToMustBeList(_) => "`belongs_to` attribute must be a list"@,
        EntityResolveError::MultiplePrimaryKeys => "Only one field can be marked as primary key"@,
    }
}

impl EntityResolveError {
    /// The message of the error.
    pub fn to_display_string(&self) -> (s: String)
        ensures
            s@ == resolve_error_text(*self),
    {
        match self {
            EntityResolveError::Syntax(m) => m.clone(),
            EntityResolveError::ExpectedNamedFields => String::from_str("Expected named fields"),
            EntityResolveError::NoFieldResolver(_) => String::from_str(
                "Cannot find a field resolver for this field",
            ),
            EntityResolveError::ExpectedReferencedEntityPath(_) => String::from_str(
                "Expected referenced entity path",
            ),
            EntityResolveError::NoFieldWithName(_) => String::from_str(
                "Cannot find a field with this name",
            ),
            EntityResolveError::BelongsToMustBeList(_) => String::from_str(
                "`belongs_to` attribute must be a list",
            ),
            EntityResolveError::MultiplePrimaryKeys => String::from_str(
                "Only one field can be marked as primary key",
            ),
        }
    }
}

/// Whether a resolver can resolve a field of type `ty`.
pub open spec fn can_resolve_spec(k: FieldResolverKind, ty: TypeModel) -> bool {
    match k {
        FieldResolverKind::Basic => first_field_type(ty, 0) is Some,
        FieldResolverKind::Decimal => plain_path_match(ty, decimal_path())
            != TypeMatchResult::Mismatch,
        FieldResolverKind::DateTime => first_datetime_type(ty, 0) is Some,
    }
}

/// Whether `t` is the path `names`, or `Option` of it when `optional`.
pub open spec fn path_type_shape(t: TypeModel, names: Seq<Seq<char>>, optional: bool) -> bool {
    if optional {
        is_optional_path_type(t, names)
    } else {
        is_plain_path_type(t, names)
    }
}

/// Whether `d` describes one field stored in one column.
pub open spec fn single_column_definition(
    d: FieldDefinition,
    name: Seq<char>,
    column: Seq<char>,
    ty: DatabaseType,
    optional: bool,
    auto_increment: bool,
    primary_key: bool,
) -> bool {
    &&& d.name@ == name
    &&& d.columns@.len() == 1
    &&& d.columns@[0].name@ == column
    &&& d.columns@[0].ty == ty
    &&& d.columns@[0].optional == optional
    &&& d.columns@[0].auto_increment == auto_increment
    &&& d.identity_column@ == column
    &&& d.primary_key == primary_key
}

/// Whether `r` is what resolver `k` makes of field `f`.
pub open spec fn resolved_by(k: FieldResolverKind, f: FieldModel, r: ResolvedField) -> bool {
    &&& r.name@ == f.name@
    &&& r.converter_value_count == 1
    &&& r.field_marker@ == f.column_name@
    &&& match k {
        FieldResolverKind::Basic => {
            let (t, optional) = first_field_type(f.ty, 0)->0;
            &&& single_column_definition(
                r.definition,
                f.name@,
                f.column_name@,
                field_database_type(t),
                optional,
                f.auto_increment,
                f.id,
            )
            &&& path_type_shape(r.ty, seq![field_type_name(t)], optional)
            &&& path_type_shape(r.value_ty, seq![field_type_name(t)], optional)
            &&& r.converter_ty@ == optional_prefix(optional) + field_converter_base(t)
        },
        FieldResolverKind::Decimal => {
            let optional = plain_path_match(f.ty, decimal_path()) == TypeMatchResult::InOption;
            &&& single_column_definition(
                r.definition,
                f.name@,
                f.column_name@,
                DatabaseType::Decimal,
                optional,
                false,
                false,
            )
            &&& r.ty == f.ty
            &&& path_type_shape(r.value_ty, decimal_path(), optional)
            &&& r.converter_ty@ == optional_prefix(optional) + "DecimalConverter"@
        },
        FieldResolverKind::DateTime => {
            let (t, optional) = first_datetime_type(f.ty, 0)->0;
            &&& single_column_definition(
                r.definition,
                f.name@,
                f.column_name@,
                datetime_database_type(t),
                optional,
                false,
                false,
            )
            &&& path_type_shape(r.ty, datetime_path(t), optional)
            &&& path_type_shape(r.value_ty, datetime_path(t), optional)
            &&& r.converter_ty@ == optional_prefix(optional) + datetime_converter_base(t)
        },
    }
}

/// The definition of a field stored in one column.
fn single_column(
    name: &String,
    column: &String,
    ty: DatabaseType,
    optional: bool,
    auto_increment: bool,
    primary_key: bool,
) -> (d: FieldDefinition)
    ensures
        single_column_definition(
            d,
            name@,
            column@,
            ty,
            optional,
            auto_increment,
            primary_key,
        ),
{
    let mut columns: Vec<ColumnDefinition> = Vec::new();
    columns.push(ColumnDefinition { name: column.clone(), ty, optional, auto_increment });
    FieldDefinition { name: name.clone(), columns, identity_column: column.clone(), primary_key }
}

impl BasicFieldResolver {
    /// Whether the field has a primitive type or `Option` of one.
    pub fn can_resolve(&self, field: &FieldModel) -> (r: bool)
        ensures
            r == can_resolve_spec(FieldResolverKind::Basic, field.ty),
    {
        FieldType::from_ty(&field.ty).is_some()
    }

    /// The resolved primitive field.
    pub fn resolve_field(&self, field: FieldModel) -> (r: ResolvedField)
        requires
            can_resolve_spec(FieldResolverKind::Basic, field.ty),
        ensures
            resolved_by(FieldResolverKind::Basic, field, r),
    {
        let (ty, optional) = FieldType::from_ty(&field.ty).unwrap();
        let definition = single_column(
            &field.name,
            &field.column_name,
            DatabaseType::from(&ty),
            optional,
            field.auto_increment,
            field.id,
        );
        ResolvedField {
            name: field.name.clone(),
            definition,
            ty: ty.field_ty(optional),
            value_ty: ty.field_ty(optional),
            converter_ty: ty.converter_ty(optional),
            converter_value_count: 1,
            field_marker: field.column_name,
        }
    }
}

impl DateTimeFieldResolver {
    /// Whether the field has a date or time type or `Option` of one.
    pub fn can_resolve(&self, field: &FieldModel) -> (r: bool)
        ensures
            r == can_resolve_spec(FieldResolverKind::DateTime, field.ty),
    {
        DateTimeType::from_ty(&field.ty).is_some()
    }

    /// The resolved date or time field.
    pub fn resolve_field(&self, field: FieldModel) -> (r: ResolvedField)
        requires
            can_resolve_spec(FieldResolverKind::DateTime, field.ty),
        ensures
            resolved_by(FieldResolverKind::DateTime, field, r),
    {
        let (field_ty, optional) = DateTimeType::from_ty(&field.ty).unwrap();
        let definition = single_column(
            &field.name,
            &field.column_name,
            field_ty.database_ty(),
            optional,
            false,
            false,
        );
        ResolvedField {
            name: field.name.clone(),
            definition,
            ty: field_ty.full_ty(optional),
            value_ty: field_ty.full_ty(optional),
            converter_ty: field_ty.converter_ty(optional),
            converter_value_count: 1,
            field_marker: field.column_name,
        }
    }
}

impl DecimalFieldResolver {
    /// Whether the field has the decimal type or `Option` of it.
    pub fn can_resolve(&self, field: &FieldModel) -> (r: bool)
        ensures
            r == can_resolve_spec(FieldResolverKind::Decimal, field.ty),
    {
        match_decimal_ty(&field.ty).is_some()
    }

    /// The resolved decimal field.
    pub fn resolve_field(&self, field: FieldModel) -> (r: ResolvedField)
        requires
            can_resolve_spec(FieldResolverKind::Decimal, field.ty),
        ensures
            resolved_by(FieldResolverKind::Decimal, field, r),
    {
        let (full_ty, optional) = match_decimal_ty(&field.ty).unwrap();
        let definition = single_column(
            &field.name,
            &field.column_name,
            DatabaseType::Decimal,
            optional,
            false,
            false,
        );
        let converter_ty = if optional {
            String::from_str("OptionalDecimalConverter")
        } else {
            String::from_str("DecimalConverter")
        };
        proof {
            reveal_strlit("Optional");
            reveal_strlit("DecimalConverter");
            reveal_strlit("OptionalDecimalConverter");
            assert(optional_prefix(optional) + "DecimalConverter"@ =~= converter_ty@);
        }
        ResolvedField {
            name: field.name,
            definition,
            ty: field.ty,
            value_ty: full_ty,
            converter_ty,
            converter_value_count: 1,
            field_marker: field.column_name,
        }
    }
}

impl FieldResolverKind {
    /// Whether this resolver can resolve the field.
    pub fn can_resolve(&self, field: &FieldModel) -> (r: bool)
        ensures
            r == can_resolve_spec(*self, field.ty),
    {
        match self {
            FieldResolverKind::Basic => BasicFieldResolver.can_resolve(field),
            FieldResolverKind::Decimal => DecimalFieldResolver.can_resolve(field),
            FieldResolverKind::DateTime => DateTimeFieldResolver.can_resolve(field),
        }
    }

    /// The field as this resolver resolves it.
    pub fn resolve_field(&self, field: FieldModel) -> (r: ResolvedField)
        requires
            can_resolve_spec(*self, field.ty),
        ensures
            resolved_by(*self, field, r),
    {
        match self {
            FieldResolverKind::Basic => BasicFieldResolver.resolve_field(field),
            FieldResolverKind::Decimal => DecimalFieldResolver.resolve_field(field),
            FieldResolverKind::DateTime => DateTimeFieldResolver.resolve_field(field),
        }
    }
}

/// The text in snake case, as `heck` writes it.
pub uninterp spec fn snake_case_text(s: Seq<char>) -> Seq<char>;

/// `heck::SnakeCase::to_snake_case` on a string slice: the contract
/// names its result and says nothing more of it.
#[verifier::external_body]
fn to_snake_case(s: &str) -> (r: String)
    ensures
        r@ == snake_case_text(s@),
{
    heck::SnakeCase::to_snake_case(s)
}

/// The resolver that takes a field: the first of `kinds` that can.
pub open spec fn first_resolver(kinds: Seq<FieldResolverKind>, ty: TypeModel) -> Option<
    FieldResolverKind,
>
    decreases kinds.len(),
{
    if kinds.len() == 0 {
        None
    } else if can_resolve_spec(kinds[0], ty) {
        Some(kinds[0])
    } else {
        first_resolver(kinds.drop_first(), ty)
    }
}

/// The position of the first field that no resolver takes, if any.
pub open spec fn first_unresolved(kinds: Seq<FieldResolverKind>, fields: Seq<FieldModel>) -> Option<
    nat,
>
    decreases fields.len(),
{
    if fields.len() == 0 {
        None
    } else {
        match first_unresolved(kinds, fields.drop_last()) {
            Some(j) => Some(j),
            None => if first_resolver(kinds, fields.last().ty) is None {
                Some((fields.len() - 1) as nat)
            } else {
                None
            },
        }
    }
}

/// The position of the first field named `name`, if any.
pub open spec fn first_named(fields: Seq<FieldModel>, name: Seq<char>) -> Option<nat>
    decreases fields.len(),
{
    if fields.len() == 0 {
        None
    } else {
        match first_named(fields.drop_last(), name) {
            Some(j) => Some(j),
            None => if fields.last().name@ == name {
                Some((fields.len() - 1) as nat)
            } else {
                None
            },
        }
    }
}

/// The error that the `belongs_to` attribute of the field at `i` of
/// `fields` gives, if any.
pub open spec fn association_error(fields: Seq<FieldModel>, i: int) -> Option<EntityResolveError> {
    match fields[i].belongs_to {
        Some(BelongsToAttr::List(Some(_))) => match first_named(fields, fields[i].name@) {
            Some(_) => None,
            None => Some(EntityResolveError::NoFieldWithName(i as usize)),
        },
        Some(BelongsToAttr::List(None)) => Some(
            EntityResolveError::ExpectedReferencedEntityPath(i as usize),
        ),
        Some(BelongsToAttr::NotList) => Some(EntityResolveError::BelongsToMustBeList(i as usize)),
        Some(BelongsToAttr::Malformed(m)) => Some(EntityResolveError::Syntax(m)),
        None => None,
    }
}

/// The error of the first field whose `belongs_to` attribute is wrong,
/// if any.
pub open spec fn first_association_error(fields: Seq<FieldModel>, n: nat) -> Option<
    EntityResolveError,
>
    decreases n,
{
    if n == 0 {
        None
    } else {
        match first_association_error(fields, (n - 1) as nat) {
            Some(e) => Some(e),
            None => association_error(fields, n - 1),
        }
    }
}

/// The associations of the first `n` fields, in order: the referenced
/// path, the foreign key, its column and its position.
pub open spec fn expected_associations(fields: Seq<FieldModel>, n: nat) -> Seq<
    (Seq<char>, Seq<char>, Seq<char>, int),
>
    decreases n,
{
    if n == 0 {
        Seq::empty()
    } else {
        let prev = expected_associations(fields, (n - 1) as nat);
        let f = fields[n - 1];
        match f.belongs_to {
            Some(BelongsToAttr::List(Some(p))) => {
                let j = first_named(fields, f.name@)->0;
                prev.push((p@, f.name@, fields[j as int].column_name@, j as int))
            },
            _ => prev,
        }
    }
}

/// The view of an association.
pub open spec fn association_view(a: ResolvedAssociation) -> (Seq<char>, Seq<char>, Seq<char>, int) {
    (a.ref_entity_path@, a.foreign_key@, a.column_name@, a.field_index as int)
}

/// Whether a field is resolved as the primary key.
pub open spec fn resolved_primary_key(kinds: Seq<FieldResolverKind>, f: FieldModel) -> bool {
    first_resolver(kinds, f.ty) == Some(FieldResolverKind::Basic) && f.id
}

/// The number of the first `n` fields resolved as primary keys.
pub open spec fn primary_key_count(kinds: Seq<FieldResolverKind>, fields: Seq<FieldModel>, n: nat) -> nat
    decreases n,
{
    if n == 0 {
        0
    } else {
        primary_key_count(kinds, fields, (n - 1) as nat) + if resolved_primary_key(
            kinds,
            fields[n - 1],
        ) {
            1nat
        } else {
            0nat
        }
    }
}

/// The table name of an entity whose name in snake case is `snake`: the
/// one its attribute gives, or `snake`.
pub open spec fn table_name_of(e: EntityModel, snake: Seq<char>) -> Seq<char> {
    match e.table_name {
        TableNameAttr::Given(n) => n@,
        _ => snake,
    }
}

/// What resolving an entity with `kinds` gives, when the entity's name in
/// snake case is `snake`: the first error in the order of the checks (the
/// table attribute, named fields, a resolver for every field, the
/// `belongs_to` attributes, at most one primary key), or an entity whose
/// parts are the resolved fields and associations.
pub open spec fn resolve_ok(
    kinds: Seq<FieldResolverKind>,
    e: EntityModel,
    snake: Seq<char>,
    r: Result<ResolvedEntity, EntityResolveError>,
) -> bool {
    match e.table_name {
        TableNameAttr::Malformed(m) => r == Err::<ResolvedEntity, _>(EntityResolveError::Syntax(m)),
        _ => match e.fields {
            None => r == Err::<ResolvedEntity, _>(EntityResolveError::ExpectedNamedFields),
            Some(fs) => {
                let fields = fs@;
                if first_unresolved(kinds, fields) is Some {
                    r == Err::<ResolvedEntity, _>(
                        EntityResolveError::NoFieldResolver(
                            first_unresolved(kinds, fields)->0 as usize,
                        ),
                    )
                } else if first_association_error(fields, fields.len()) is Some {
                    r == Err::<ResolvedEntity, _>(first_association_error(fields, fields.len())->0)
                } else if primary_key_count(kinds, fields, fields.len()) > 1 {
                    r == Err::<ResolvedEntity, _>(EntityResolveError::MultiplePrimaryKeys)
                } else {
                    &&& r is Ok
                    &&& r->Ok_0.table_name@ == table_name_of(e, snake)
                    &&& r->Ok_0.entity_name@ == e.name@
                    &&& r->Ok_0.view_name@ == e.name@ + "View"@
                    &&& r->Ok_0.vertical_name@ == "Vertical"@ + e.name@ + "View"@
                    &&& r->Ok_0.converter_name@ == e.name@ + "Converter"@
                    &&& r->Ok_0.marker_mod@ == snake
                    &&& r->Ok_0.fields@.len() == fields.len()
                    &&& forall|i: int|
                        0 <= i < fields.len() ==> resolved_by(
                            first_resolver(kinds, fields[i].ty)->0,
                            fields[i],
                            #[trigger] r->Ok_0.fields@[i],
                        )
                    &&& r->Ok_0.associations@.map_values(|a: ResolvedAssociation| association_view(a))
                        == expected_associations(fields, fields.len())
                }
            },
        },
    }
}

/// Resolves entities with a list of field resolvers.
pub struct EntityResolver {
    field_resolvers: Vec<FieldResolverKind>,
}

impl EntityResolver {
    /// The field resolvers, in the order they are tried.
    pub closed spec fn spec_field_resolvers(self) -> Seq<FieldResolverKind> {
        self.field_resolvers@
    }

    /// A resolver that tries `field_resolvers` in order.
    pub fn create(field_resolvers: Vec<FieldResolverKind>) -> (r: Self)
        ensures
            r.spec_field_resolvers() == field_resolvers@,
    {
        EntityResolver { field_resolvers }
    }

    /// The resolver that takes a field, if any.
    fn resolver_for(&self, field: &FieldModel) -> (r: Option<FieldResolverKind>)
        ensures
            r == first_resolver(self.field_resolvers@, field.ty),
    {
        let n = self.field_resolvers.len();
        let mut i: usize = 0;
        assert(self.field_resolvers@.skip(0) =~= self.field_resolvers@);
        while i < n
            invariant
                n == self.field_resolvers@.len(),
                0 <= i <= n,
                first_resolver(self.field_resolvers@, field.ty) == first_resolver(
                    self.field_resolvers@.skip(i as int),
                    field.ty,
                ),
            decreases n - i,
        {
            let k = self.field_resolvers[i];
            assert(self.field_resolvers@.skip(i as int)[0] == k);
            assert(self.field_resolvers@.skip(i as int).drop_first() =~= self.field_resolvers@.skip(
                i + 1,
            ));
            if k.can_resolve(field) {
                return Some(k);
            }
            i = i + 1;
        }
        assert(self.field_resolvers@.skip(n as int).len() == 0);
        None
    }

    /// The entity resolved, or the first error in the order of the checks
    /// (see `resolve_ok`); the entity's name in snake case is found with
    /// `heck`.
    pub fn resolve(&self, entity: EntityModel) -> (r: Result<ResolvedEntity, EntityResolveError>)
        ensures
            resolve_ok(self.spec_field_resolvers(), entity, snake_case_text(entity.name@), r),
    {
        let snake = to_snake_case(entity.name.as_str());
        self.resolve_named(entity, snake)
    }

    /// The entity resolved, or the first error in the order of the checks
    /// (see `resolve_ok`), where `snake` is the entity's name in snake case.
    #[verifier::loop_isolation(false)]
    pub fn resolve_named(&self, entity: EntityModel, snake: String) -> (r: Result<
        ResolvedEntity,
        EntityResolveError,
    >)
        ensures
            resolve_ok(self.spec_field_resolvers(), entity, snake@, r),
    {
        let ghost e = entity;
        let ghost kinds = self.field_resolvers@;
        let EntityModel { name: entity_name, table_name, fields } = entity;
        let table_name = match table_name {
            TableNameAttr::Given(n) => n,
            TableNameAttr::Absent => snake.clone(),
            TableNameAttr::Malformed(m) => {
                return Err(EntityResolveError::Syntax(m));
            },
        };
        let fields = match fields {
            Some(f) => f,
            None => {
                return Err(EntityResolveError::ExpectedNamedFields);
            },
        };
        let ghost fs = fields@;
        let n = fields.len();
        // a resolver for every field
        let mut kinds_found: Vec<FieldResolverKind> = Vec::new();
        let mut i: usize = 0;
        while i < n
            invariant
                n == fs.len(),
                fields@ == fs,
                kinds == self.field_resolvers@,
                0 <= i <= n,
                first_unresolved(kinds, fs.take(i as int)) is None,
                kinds_found@.len() == i,
                forall|j: int|
                    0 <= j < i ==> first_resolver(kinds, fs[j].ty) == Some(
                        #[trigger] kinds_found@[j],
                    ),
            decreases n - i,
        {
            let k = self.resolver_for(&fields[i]);
            assert(fs.take(i + 1).drop_last() =~= fs.take(i as int));
            match k {
                Some(k) => {
                    kinds_found.push(k);
                },
                None => {
                    proof {
                        assert(fs.take(i + 1).last() == fs[i as int]);
                        assert(first_unresolved(kinds, fs.take(i + 1)) == Some(i as nat));
                        lemma_first_unresolved_prefix(kinds, fs, (i + 1) as nat);
                    }
                    return Err(EntityResolveError::NoFieldResolver(i));
                },
            }
            i = i + 1;
        }
        assert(fs.take(n as int) =~= fs);
        // the associations
        let mut associations: Vec<ResolvedAssociation> = Vec::new();
        let mut i: usize = 0;
        while i < n
            invariant
                n == fs.len(),
                fields@ == fs,
                0 <= i <= n,
                first_association_error(fs, i as nat) is None,
                associations@.map_values(|a: ResolvedAssociation| association_view(a))
                    == expected_associations(fs, i as nat),
            decreases n - i,
        {
            let f = &fields[i];
            proof {
                lemma_first_named_props(fs, fs[i as int].name@);
                lemma_first_named_found(fs, fs[i as int].name@, i as int);
            }
            match &f.belongs_to {
                Some(BelongsToAttr::List(Some(p))) => {
                    let j = index_of_name(&fields, &f.name);
                    match j {
                        Some(j) => {
                            let a = ResolvedAssociation {
                                ref_entity_path: p.clone(),
                                foreign_key: f.name.clone(),
                                column_name: fields[j].column_name.clone(),
                                field_index: j,
                            };
                            let ghost before = associations@;
                            associations.push(a);
                            assert(associations@.map_values(
                                |a: ResolvedAssociation| association_view(a),
                            ) =~= before.map_values(|a: ResolvedAssociation| association_view(a)).push(
                                association_view(a),
                            ));
                        },
                        None => {
                            return Err(EntityResolveError::NoFieldWithName(i));
                        },
                    }
                },
                Some(BelongsToAttr::List(None)) => {
                    proof {
                        lemma_first_association_error_prefix(fs, (i + 1) as nat, n as nat);
                    }
                    return Err(EntityResolveError::ExpectedReferencedEntityPath(i));
                },
                Some(BelongsToAttr::NotList) => {
                    proof {
                        lemma_first_association_error_prefix(fs, (i + 1) as nat, n as nat);
                    }
                    return Err(EntityResolveError::BelongsToMustBeList(i));
                },
                Some(BelongsToAttr::Malformed(m)) => {
                    proof {
                        lemma_first_association_error_prefix(fs, (i + 1) as nat, n as nat);
                    }
                    return Err(EntityResolveError::Syntax(m.clone()));
                },
                None => {},
            }
            i = i + 1;
        }
        // at most one primary key
        let mut count: usize = 0;
        let mut i: usize = 0;
        while i < n
            invariant
                n == fs.len(),
                fields@ == fs,
                0 <= i <= n,
                kinds_found@.len() == n,
                forall|j: int|
                    0 <= j < n ==> first_resolver(kinds, fs[j].ty) == Some(
                        #[trigger] kinds_found@[j],
                    ),
                count == primary_key_count(kinds, fs, i as nat),
                count <= i,
            decreases n - i,
        {
            assert(first_resolver(kinds, fs[i as int].ty) == Some(kinds_found@[i as int]));
            if kinds_found[i] == FieldResolverKind::Basic && fields[i].id {
                count = count + 1;
            }
            i = i + 1;
        }
        if count > 1 {
            return Err(EntityResolveError::MultiplePrimaryKeys);
        }
        // the fields, resolved
        let mut resolved: Vec<ResolvedField> = Vec::new();
        let mut rest = fields;
        let mut i: usize = 0;
        while rest.len() > 0
            invariant
                n == fs.len(),
                0 <= i <= n,
                n == i + rest@.len(),
                rest@ == fs.skip(i as int),
                kinds_found@.len() == n,
                forall|j: int|
                    0 <= j < n ==> first_resolver(kinds, fs[j].ty) == Some(
                        #[trigger] kinds_found@[j],
                    ),
                resolved@.len() == i,
                forall|j: int|
                    0 <= j < i ==> resolved_by(
                        first_resolver(kinds, fs[j].ty)->0,
                        fs[j],
                        #[trigger] resolved@[j],
                    ),
            decreases rest.len(),
        {
            let f = rest.remove(0);
            assert(f == fs[i as int]);
            let k = kinds_found[i];
            proof {
                lemma_first_resolver_can_resolve(kinds, f.ty);
            }
            let r = k.resolve_field(f);
            resolved.push(r);
            assert(rest@ =~= fs.skip(i + 1));
            i = i + 1;
        }
        let mut view_name = entity_name.clone();
        view_name.append("View");
        let mut vertical_name = String::from_str("Vertical");
        vertical_name.append(entity_name.as_str());
        vertical_name.append("View");
        let mut converter_name = entity_name.clone();
        converter_name.append("Converter");
        let marker_mod = snake;
        Ok(
            ResolvedEntity {
                table_name,
                entity_name,
                view_name,
                vertical_name,
                converter_name,
                marker_mod,
                fields: resolved,
                associations,
            },
        )
    }
}

/// The position of the first field named `name`, if any.
fn index_of_name(fields: &Vec<FieldModel>, name: &String) -> (r: Option<usize>)
    ensures
        r matches Some(j) ==> first_named(fields@, name@) == Some(j as nat),
        r is None ==> first_named(fields@, name@) is None,
{
    let n = fields.len();
    let mut i: usize = 0;
    while i < n
        invariant
            n == fields@.len(),
            0 <= i <= n,
            first_named(fields@.take(i as int), name@) is None,
        decreases n - i,
    {
        assert(fields@.take(i + 1).drop_last() =~= fields@.take(i as int));
        if fields[i].name == *name {
            proof {
                lemma_first_named_prefix(fields@, name@, (i + 1) as nat);
            }
            return Some(i);
        }
        i = i + 1;
    }
    assert(fields@.take(n as int) =~= fields@);
    None
}

/// A field found in a prefix is the first in the whole list.
proof fn lemma_first_named_prefix(fields: Seq<FieldModel>, name: Seq<char>, n: nat)
    requires
        n <= fields.len(),
        first_named(fields.take(n as int), name) is Some,
    ensures
        first_named(fields, name) == first_named(fields.take(n as int), name),
    decreases fields.len() - n,
{
    if n < fields.len() {
        assert(fields.take((n + 1) as int).drop_last() =~= fields.take(n as int));
        lemma_first_named_prefix(fields, name, n + 1);
    } else {
        assert(fields.take(n as int) =~= fields);
    }
}

/// A field without resolver found in a prefix is the first in the whole
/// list.
proof fn lemma_first_unresolved_prefix(
    kinds: Seq<FieldResolverKind>,
    fields: Seq<FieldModel>,
    n: nat,
)
    requires
        n <= fields.len(),
        first_unresolved(kinds, fields.take(n as int)) is Some,
    ensures
        first_unresolved(kinds, fields) == first_unresolved(kinds, fields.take(n as int)),
    decreases fields.len() - n,
{
    if n < fields.len() {
        assert(fields.take((n + 1) as int).drop_last() =~= fields.take(n as int));
        lemma_first_unresolved_prefix(kinds, fields, n + 1);
    } else {
        assert(fields.take(n as int) =~= fields);
    }
}

/// The resolver found for a field can resolve it.
proof fn lemma_first_resolver_can_resolve(kinds: Seq<FieldResolverKind>, ty: TypeModel)
    requires
        first_resolver(kinds, ty) is Some,
    ensures
        can_resolve_spec(first_resolver(kinds, ty)->0, ty),
    decreases kinds.len(),
{
    if kinds.len() > 0 && !can_resolve_spec(kinds[0], ty) {
        lemma_first_resolver_can_resolve(kinds.drop_first(), ty);
    }
}

/// What `first_named` finds is a field of that name, and when it finds
/// nothing no field has that name.
proof fn lemma_first_named_props(fields: Seq<FieldModel>, name: Seq<char>)
    ensures
        first_named(fields, name) matches Some(j) ==> j < fields.len() && fields[j as int].name@
            == name,
        first_named(fields, name) is None ==> forall|k: int|
            0 <= k < fields.len() ==> (#[trigger] fields[k]).name@ != name,
    decreases fields.len(),
{
    if fields.len() > 0 {
        lemma_first_named_props(fields.drop_last(), name);
        assert forall|k: int| 0 <= k < fields.len() - 1 implies (#[trigger] fields[k]) == fields.drop_last()[k] by {}
    }
}

/// A list with a field named `name` at `i` has a first such field, no
/// later than `i`.
proof fn lemma_first_named_found(fields: Seq<FieldModel>, name: Seq<char>, i: int)
    requires
        0 <= i < fields.len(),
        fields[i].name@ == name,
    ensures
        first_named(fields, name) is Some,
{
    lemma_first_named_props(fields, name);
}

/// An error found in the first `m` fields is the first among the first
/// `n >= m`.
proof fn lemma_first_association_error_prefix(fields: Seq<FieldModel>, m: nat, n: nat)
    requires
        m <= n,
        first_association_error(fields, m) is Some,
    ensures
        first_association_error(fields, n) == first_association_error(fields, m),
    decreases n - m,
{
    if m < n {
        lemma_first_association_error_prefix(fields, m, (n - 1) as nat);
    }
}

/// The number of the first `n` resolved fields that are primary keys.
pub open spec fn resolved_primary_key_count(fields: Seq<ResolvedField>, n: nat) -> nat
    decreases n,
{
    if n == 0 {
        0
    } else {
        resolved_primary_key_count(fields, (n - 1) as nat) + if fields[n - 1].definition.primary_key {
            1nat
        } else {
            0nat
        }
    }
}

proof fn lemma_primary_key_counts_agree(
    kinds: Seq<FieldResolverKind>,
    fields: Seq<FieldModel>,
    resolved: Seq<ResolvedField>,
    n: nat,
)
    requires
        n <= fields.len(),
        resolved.len() == fields.len(),
        forall|i: int|
            0 <= i < fields.len() ==> (#[trigger] resolved[i]).definition.primary_key
                == resolved_primary_key(kinds, fields[i]),
    ensures
        resolved_primary_key_count(resolved, n) == primary_key_count(kinds, fields, n),
    decreases n,
{
    if n > 0 {
        lemma_primary_key_counts_agree(kinds, fields, resolved, (n - 1) as nat);
        let i = n - 1;
        assert(resolved[i].definition.primary_key == resolved_primary_key(kinds, fields[i]));
    }
}

/// A resolved entity has at most one field marked as its primary key.
pub proof fn law_resolved_entity_has_at_most_one_primary_key(
    kinds: Seq<FieldResolverKind>,
    e: EntityModel,
    snake: Seq<char>,
    r: Result<ResolvedEntity, EntityResolveError>,
)
    requires
        resolve_ok(kinds, e, snake, r),
        r is Ok,
    ensures
        resolved_primary_key_count(r->Ok_0.fields@, r->Ok_0.fields@.len()) <= 1,
{
    match e.fields {
        Some(fs) => {
            let fields = fs@;
            let resolved = r->Ok_0.fields@;
            assert(!(e.table_name is Malformed));
            assert(first_unresolved(kinds, fields) is None);
            assert(resolved.len() == fields.len());
            assert forall|i: int| 0 <= i < fields.len() implies (#[trigger] resolved[i]).definition.primary_key
                == resolved_primary_key(kinds, fields[i]) by {
                if first_resolver(kinds, fields[i].ty) is None {
                    lemma_first_unresolved_found(kinds, fields, i);
                }
                assert(resolved_by(first_resolver(kinds, fields[i].ty)->0, fields[i], resolved[i]));
            }
            lemma_primary_key_counts_agree(kinds, fields, resolved, fields.len());
        },
        None => {},
    }
}

/// A list with a field that no resolver takes has a first such field.
proof fn lemma_first_unresolved_found(kinds: Seq<FieldResolverKind>, fields: Seq<FieldModel>, i: int)
    requires
        0 <= i < fields.len(),
        first_resolver(kinds, fields[i].ty) is None,
    ensures
        first_unresolved(kinds, fields) is Some,
    decreases fields.len(),
{
    if i < fields.len() - 1 {
        assert(fields.drop_last()[i] == fields[i]);
        lemma_first_unresolved_found(kinds, fields.drop_last(), i);
    }
}


/// The number of values the converters of the first `n` fields read and
/// write, in all.
pub open spec fn value_count_of(fields: Seq<ResolvedField>, n: nat) -> nat
    decreases n,
{
    if n == 0 {
        0
    } else {
        value_count_of(fields, (n - 1) as nat) + fields[n - 1].converter_value_count as nat
    }
}

/// The number of columns of the first `n` fields, in all.
pub open spec fn column_count_of(fields: Seq<ResolvedField>, n: nat) -> nat
    decreases n,
{
    if n == 0 {
        0
    } else {
        column_count_of(fields, (n - 1) as nat) + fields[n - 1].definition.columns@.len()
    }
}

/// The names of the columns of the first `n` fields that are not primary
/// keys, field after field.
pub open spec fn insert_column_names_of(fields: Seq<ResolvedField>, n: nat) -> Seq<Seq<char>>
    decreases n,
{
    if n == 0 {
        Seq::empty()
    } else {
        insert_column_names_of(fields, (n - 1) as nat) + if fields[n
            - 1].definition.primary_key {
            Seq::empty()
        } else {
            fields[n - 1].definition.columns@.map_values(|c: ColumnDefinition| c.name@)
        }
    }
}

/// The first of the first `n` fields that is a primary key.
pub open spec fn first_primary_key_of(fields: Seq<ResolvedField>, n: nat) -> Option<nat>
    decreases n,
{
    if n == 0 {
        None
    } else {
        match first_primary_key_of(fields, (n - 1) as nat) {
            Some(i) => Some(i),
            None => if fields[n - 1].definition.primary_key {
                Some((n - 1) as nat)
            } else {
                None
            },
        }
    }
}

impl ResolvedEntity {
    /// The number of values the converters of all fields read and write,
    /// in all; `None` when it does not fit in a `usize`.
    pub fn value_count(&self) -> (r: Option<usize>)
        ensures
            value_count_of(self.fields@, self.fields@.len()) <= usize::MAX ==> r == Some(
                value_count_of(self.fields@, self.fields@.len()) as usize,
            ),
            value_count_of(self.fields@, self.fields@.len()) > usize::MAX ==> r is None,
    {
        let n = self.fields.len();
        let mut total: usize = 0;
        let mut i: usize = 0;
        while i < n
            invariant
                n == self.fields@.len(),
                0 <= i <= n,
                total == value_count_of(self.fields@, i as nat),
            decreases n - i,
        {
            proof {
                lemma_value_count_grows(self.fields@, (i + 1) as nat, n as nat);
            }
            match total.checked_add(self.fields[i].converter_value_count) {
                Some(t) => total = t,
                None => return None,
            }
            i = i + 1;
        }
        Some(total)
    }

    /// The offset of every field among the columns: the number of
    /// columns of the fields before it; with the number of columns in
    /// all. `None` when that number does not fit in a `usize`.
    pub fn column_offsets(&self) -> (r: Option<(Vec<usize>, usize)>)
        ensures
            column_count_of(self.fields@, self.fields@.len()) <= usize::MAX ==> (r matches Some(
                (offsets, total),
            ) && total == column_count_of(self.fields@, self.fields@.len()) && offsets@.len()
                == self.fields@.len() && forall|i: int|
                0 <= i < offsets@.len() ==> #[trigger] offsets@[i] == column_count_of(
                    self.fields@,
                    i as nat,
                )),
            column_count_of(self.fields@, self.fields@.len()) > usize::MAX ==> r is None,
    {
        let n = self.fields.len();
        let mut offsets: Vec<usize> = Vec::new();
        let mut total: usize = 0;
        let mut i: usize = 0;
        while i < n
            invariant
                n == self.fields@.len(),
                0 <= i <= n,
                total == column_count_of(self.fields@, i as nat),
                offsets@.len() == i,
                forall|j: int| 0 <= j < i ==> #[trigger] offsets@[j] == column_count_of(
                    self.fields@,
                    j as nat,
                ),
            decreases n - i,
        {
            proof {
                lemma_column_count_grows(self.fields@, (i + 1) as nat, n as nat);
            }
            offsets.push(total);
            match total.checked_add(self.fields[i].definition.columns.len()) {
                Some(t) => total = t,
                None => return None,
            }
            i = i + 1;
        }
        Some((offsets, total))
    }

    /// The columns an `INSERT` of a new entity fills: those of the fields
    /// that are not primary keys, in order.
    pub fn insert_columns(&self) -> (r: Vec<String>)
        ensures
            texts_of(r@) == insert_column_names_of(self.fields@, self.fields@.len()),
    {
        let n = self.fields.len();
        let mut out: Vec<String> = Vec::new();
        let mut i: usize = 0;
        while i < n
            invariant
                n == self.fields@.len(),
                0 <= i <= n,
                texts_of(out@) == insert_column_names_of(self.fields@, i as nat),
            decreases n - i,
        {
            if !self.fields[i].definition.primary_key {
                let columns = &self.fields[i].definition.columns;
                let m = columns.len();
                let ghost before = texts_of(out@);
                let mut k: usize = 0;
                while k < m
                    invariant
                        m == columns@.len(),
                        0 <= k <= m,
                        texts_of(out@) == before + columns@.take(k as int).map_values(
                            |c: ColumnDefinition| c.name@,
                        ),
                    decreases m - k,
                {
                    let ghost prior = texts_of(out@);
                    out.push(columns[k].name.clone());
                    assert(texts_of(out@) =~= prior.push(columns@[k as int].name@));
                    assert(columns@.take(k + 1).map_values(|c: ColumnDefinition| c.name@)
                        =~= columns@.take(k as int).map_values(|c: ColumnDefinition| c.name@).push(
                        columns@[k as int].name@,
                    ));
                    assert(texts_of(out@) =~= before + columns@.take(k + 1).map_values(
                        |c: ColumnDefinition| c.name@,
                    ));
                    k = k + 1;
                }
                assert(columns@.take(m as int) =~= columns@);
            } else {
                assert(texts_of(out@) =~= insert_column_names_of(self.fields@, i as nat)
                    + Seq::<Seq<char>>::empty());
            }
            i = i + 1;
        }
        out
    }

    /// The position of the first field that is a primary key.
    pub fn primary_key_index(&self) -> (r: Option<usize>)
        ensures
            r matches Some(i) ==> first_primary_key_of(self.fields@, self.fields@.len()) == Some(
                i as nat,
            ),
            r is None ==> first_primary_key_of(self.fields@, self.fields@.len()) is None,
    {
        let n = self.fields.len();
        let mut i: usize = 0;
        while i < n
            invariant
                n == self.fields@.len(),
                0 <= i <= n,
                first_primary_key_of(self.fields@, i as nat) is None,
            decreases n - i,
        {
            if self.fields[i].definition.primary_key {
                proof {
                    lemma_first_primary_key_stays(self.fields@, (i + 1) as nat, n as nat);
                }
                return Some(i);
            }
            i = i + 1;
        }
        None
    }
}

/// The value counts of longer prefixes are no smaller.
proof fn lemma_value_count_grows(fields: Seq<ResolvedField>, m: nat, n: nat)
    requires
        m <= n,
    ensures
        value_count_of(fields, m) <= value_count_of(fields, n),
    decreases n - m,
{
    if m < n {
        lemma_value_count_grows(fields, m, (n - 1) as nat);
    }
}

/// The column counts of longer prefixes are no smaller.
proof fn lemma_column_count_grows(fields: Seq<ResolvedField>, m: nat, n: nat)
    requires
        m <= n,
    ensures
        column_count_of(fields, m) <= column_count_of(fields, n),
    decreases n - m,
{
    if m < n {
        lemma_column_count_grows(fields, m, (n - 1) as nat);
    }
}


/// Once a prefix holds a primary key, longer prefixes find the same one.
proof fn lemma_first_primary_key_stays(fields: Seq<ResolvedField>, m: nat, n: nat)
    requires
        m <= n,
        first_primary_key_of(fields, m) is Some,
    ensures
        first_primary_key_of(fields, n) == first_primary_key_of(fields, m),
    decreases n - m,
{
    if m < n {
        lemma_first_primary_key_stays(fields, m, (n - 1) as nat);
    }
}

} // verus!
