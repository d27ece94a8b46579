use yukino::fields::{
    match_decimal_ty, match_optional_ty_by_param, match_plain_path, BasicFieldResolver,
    DateTimeFieldResolver, DateTimeType, DecimalFieldResolver, FieldType,
};
use yukino::resolve::{
    BelongsToAttr, EntityModel, EntityResolveError, EntityResolver, FieldModel,
    FieldResolverKind, TableNameAttr,
};
use yukino::types::{
    match_ty, GenericArgumentModel, PathArgumentsModel, PathSegmentModel, ReturnTypeModel,
    TypeMatchResult, TypeModel,
};
use yukino::value::DatabaseType;

fn segment(name: &str, arguments: PathArgumentsModel) -> PathSegmentModel {
    PathSegmentModel { ident: name.to_string(), arguments }
}

fn path(text: &str, segments: Vec<PathSegmentModel>) -> TypeModel {
    TypeModel::Path { text: text.to_string(), segments }
}

fn plain(names: &[&str]) -> TypeModel {
    path(
        &names.join(" :: "),
        names.iter().map(|n| segment(n, PathArgumentsModel::NoArguments)).collect(),
    )
}

fn option_of(inner: TypeModel, text: &str) -> TypeModel {
    path(
        text,
        vec![segment(
            "Option",
            PathArgumentsModel::AngleBracketed(vec![GenericArgumentModel::Type(inner)]),
        )],
    )
}

fn names(ns: &[&str]) -> Vec<String> {
    ns.iter().map(|n| n.to_string()).collect()
}

#[test]
fn test_ty_match() {
    let ty1 = plain(&["u64"]);
    assert_eq!(match_plain_path(names(&["u64"]), &ty1), TypeMatchResult::Match);
    let ty2 = option_of(plain(&["u64"]), "Option < u64 >");
    assert_eq!(match_plain_path(names(&["u64"]), &ty2), TypeMatchResult::InOption);
    let ty2_again = option_of(plain(&["u64"]), "Option < u64 >");
    assert_eq!(match_optional_ty_by_param(ty2_again, &ty2), TypeMatchResult::Match);
    assert_eq!(match_plain_path(names(&["u32"]), &ty2), TypeMatchResult::Mismatch);
    let option_u32 = path(
        "core :: option :: Option < u32 >",
        vec![
            segment("core", PathArgumentsModel::NoArguments),
            segment("option", PathArgumentsModel::NoArguments),
            segment(
                "Option",
                PathArgumentsModel::AngleBracketed(vec![GenericArgumentModel::Type(plain(&["u32"]))]),
            ),
        ],
    );
    assert_eq!(match_optional_ty_by_param(option_u32, &ty2), TypeMatchResult::Mismatch);
}

#[test]
fn match_ty_compares_paths_segment_by_segment() {
    let a = plain(&["sqlx", "types", "Decimal"]);
    let b = path("different text", vec![
        segment("sqlx", PathArgumentsModel::NoArguments),
        segment("types", PathArgumentsModel::NoArguments),
        segment("Decimal", PathArgumentsModel::NoArguments),
    ]);
    assert!(match_ty(&a, &b));
    assert!(match_ty(&b, &a));
    assert!(!match_ty(&a, &plain(&["types", "Decimal"])));
    let r1 = TypeModel::Other { text: "& u8".to_string() };
    let r2 = TypeModel::Other { text: "& u8".to_string() };
    assert!(match_ty(&r1, &r2));
    assert!(!match_ty(&r1, &a));
    // arguments of different lengths are compared on the shorter
    let short = path("HashMap < u8 >", vec![segment(
        "HashMap",
        PathArgumentsModel::AngleBracketed(vec![GenericArgumentModel::Type(plain(&["u8"]))]),
    )]);
    let long = path("HashMap < u8 , u16 >", vec![segment(
        "HashMap",
        PathArgumentsModel::AngleBracketed(vec![
            GenericArgumentModel::Type(plain(&["u8"])),
            GenericArgumentModel::Type(plain(&["u16"])),
        ]),
    )]);
    assert!(match_ty(&short, &long));
    let f1 = path("Fn (u8) -> u16", vec![segment(
        "Fn",
        PathArgumentsModel::Parenthesized(vec![plain(&["u8"])], ReturnTypeModel::Type(Box::new(plain(&["u16"])))),
    )]);
    let f2 = path("Fn (u8)", vec![segment(
        "Fn",
        PathArgumentsModel::Parenthesized(vec![plain(&["u8"])], ReturnTypeModel::Default),
    )]);
    assert!(match_ty(&f1, &f1));
    assert!(!match_ty(&f1, &f2));
    let lifetime = path("Cow < 'a , str >", vec![segment(
        "Cow",
        PathArgumentsModel::AngleBracketed(vec![GenericArgumentModel::Other("'a".to_string())]),
    )]);
    let other_lifetime = path("Cow < 'b , str >", vec![segment(
        "Cow",
        PathArgumentsModel::AngleBracketed(vec![GenericArgumentModel::Other("'b".to_string())]),
    )]);
    assert!(!match_ty(&lifetime, &other_lifetime));
}

#[test]
fn field_types_from_rust_types() {
    assert_eq!(FieldType::from_ty(&plain(&["bool"])), Some((FieldType::Bool, false)));
    assert_eq!(
        FieldType::from_ty(&option_of(plain(&["String"]), "Option < String >")),
        Some((FieldType::String, true))
    );
    assert_eq!(FieldType::from_ty(&plain(&["f64"])), Some((FieldType::Double, false)));
    assert_eq!(FieldType::from_ty(&plain(&["usize"])), None);
    assert_eq!(FieldType::UnsignedShort.converter_ty(true), "OptionalUnsignedShortConverter");
    assert_eq!(FieldType::Long.converter_ty(false), "LongConverter");
    assert_eq!(DatabaseType::from(&FieldType::Int), DatabaseType::Integer);
    assert_eq!(DatabaseType::from(&FieldType::Short), DatabaseType::SmallInteger);
    match FieldType::Int.field_ty(true) {
        TypeModel::Path { text, segments } => {
            assert_eq!(text, "Option < i32 >");
            assert_eq!(segments.len(), 1);
            assert_eq!(segments[0].ident, "Option");
        },
        TypeModel::Other { .. } => panic!("a path was expected"),
    }
}

#[test]
fn datetime_and_decimal_types() {
    let date = plain(&["sqlx", "types", "time", "Date"]);
    assert_eq!(DateTimeType::from_ty(&date), Some((DateTimeType::Date, false)));
    let dt = option_of(plain(&["sqlx", "types", "time", "PrimitiveDateTime"]), "Option < sqlx :: types :: time :: PrimitiveDateTime >");
    assert_eq!(DateTimeType::from_ty(&dt), Some((DateTimeType::DateTime, true)));
    assert_eq!(DateTimeType::from_ty(&plain(&["Date"])), None);
    assert_eq!(DateTimeType::Time.database_ty(), DatabaseType::Time);
    assert_eq!(DateTimeType::DateTime.database_ty(), DatabaseType::DateTime);
    assert_eq!(DateTimeType::Date.converter_ty(true), "OptionalDateConverter");
    match DateTimeType::Time.ty() {
        TypeModel::Path { text, .. } => assert_eq!(text, "sqlx :: types :: time :: Time"),
        TypeModel::Other { .. } => panic!("a path was expected"),
    }
    let decimal = plain(&["sqlx", "types", "Decimal"]);
    assert!(matches!(match_decimal_ty(&decimal), Some((_, false))));
    let optional = option_of(plain(&["sqlx", "types", "Decimal"]), "Option < sqlx :: types :: Decimal >");
    assert!(matches!(match_decimal_ty(&optional), Some((_, true))));
    assert!(match_decimal_ty(&plain(&["Decimal"])).is_none());
}

fn field(name: &str, ty: TypeModel) -> FieldModel {
    FieldModel {
        name: name.to_string(),
        ty,
        column_name: name.to_string(),
        auto_increment: false,
        id: false,
        belongs_to: None,
    }
}

#[test]
fn field_resolvers() {
    let mut id = field("id", plain(&["u32"]));
    id.id = true;
    id.auto_increment = true;
    assert!(BasicFieldResolver.can_resolve(&id));
    let r = BasicFieldResolver.resolve_field(id);
    assert_eq!(r.definition.name, "id");
    assert_eq!(r.definition.identity_column, "id");
    assert!(r.definition.primary_key);
    assert_eq!(r.definition.columns.len(), 1);
    assert_eq!(r.definition.columns[0].ty, DatabaseType::UnsignedInteger);
    assert!(r.definition.columns[0].auto_increment);
    assert!(!r.definition.columns[0].optional);
    assert_eq!(r.converter_ty, "UnsignedIntConverter");
    assert_eq!(r.converter_value_count, 1);

    let mut price = field("price", option_of(plain(&["sqlx", "types", "Decimal"]), "Option < sqlx :: types :: Decimal >"));
    price.id = true;
    assert!(DecimalFieldResolver.can_resolve(&price));
    assert!(!BasicFieldResolver.can_resolve(&price));
    let r = DecimalFieldResolver.resolve_field(price);
    assert!(!r.definition.primary_key);
    assert!(r.definition.columns[0].optional);
    assert_eq!(r.definition.columns[0].ty, DatabaseType::Decimal);
    assert_eq!(r.converter_ty, "OptionalDecimalConverter");

    let at = field("at", plain(&["sqlx", "types", "time", "Time"]));
    assert!(DateTimeFieldResolver.can_resolve(&at));
    let r = DateTimeFieldResolver.resolve_field(at);
    assert_eq!(r.definition.columns[0].ty, DatabaseType::Time);
    assert_eq!(r.converter_ty, "TimeConverter");
}

fn resolver() -> EntityResolver {
    EntityResolver::create(vec![
        FieldResolverKind::Basic,
        FieldResolverKind::Decimal,
        FieldResolverKind::DateTime,
    ])
}

#[test]
fn entity_resolution_names_and_fields() {
    let mut id = field("id", plain(&["u32"]));
    id.id = true;
    let mut owner = field("owner_id", plain(&["u64"]));
    owner.belongs_to = Some(BelongsToAttr::List(Some("crate::User".to_string())));
    let entity = EntityModel {
        name: "MeetingRoom".to_string(),
        table_name: TableNameAttr::Absent,
        fields: Some(vec![id, owner]),
    };
    let r = resolver().resolve(entity).unwrap();
    assert_eq!(r.table_name, "meeting_room");
    assert_eq!(r.entity_name, "MeetingRoom");
    assert_eq!(r.view_name, "MeetingRoomView");
    assert_eq!(r.vertical_name, "VerticalMeetingRoomView");
    assert_eq!(r.converter_name, "MeetingRoomConverter");
    assert_eq!(r.marker_mod, "meeting_room");
    assert_eq!(r.fields.len(), 2);
    assert_eq!(r.associations.len(), 1);
    assert_eq!(r.associations[0].ref_entity_path, "crate::User");
    assert_eq!(r.associations[0].foreign_key, "owner_id");
    assert_eq!(r.associations[0].column_name, "owner_id");
    assert_eq!(r.associations[0].field_index, 1);
}

#[test]
fn entity_resolution_errors() {
    let given = EntityModel {
        name: "X".to_string(),
        table_name: TableNameAttr::Given("xs".to_string()),
        fields: Some(vec![]),
    };
    assert_eq!(resolver().resolve(given).unwrap().table_name, "xs");
    let unnamed = EntityModel { name: "X".to_string(), table_name: TableNameAttr::Absent, fields: None };
    assert!(matches!(resolver().resolve(unnamed), Err(EntityResolveError::ExpectedNamedFields)));
    let malformed = EntityModel {
        name: "X".to_string(),
        table_name: TableNameAttr::Malformed("expected string literal".to_string()),
        fields: None,
    };
    match resolver().resolve(malformed) {
        Err(e) => assert_eq!(e.to_display_string(), "expected string literal"),
        Ok(_) => panic!("an error was expected"),
    }
    let unknown = EntityModel {
        name: "X".to_string(),
        table_name: TableNameAttr::Absent,
        fields: Some(vec![field("a", plain(&["u8"])), field("b", plain(&["u8"]))]),
    };
    assert!(matches!(resolver().resolve(unknown), Err(EntityResolveError::NoFieldResolver(0))));
    let mut not_list = field("b", plain(&["u32"]));
    not_list.belongs_to = Some(BelongsToAttr::NotList);
    let mut no_path = field("c", plain(&["u32"]));
    no_path.belongs_to = Some(BelongsToAttr::List(None));
    let bad = EntityModel {
        name: "X".to_string(),
        table_name: TableNameAttr::Absent,
        fields: Some(vec![field("a", plain(&["u32"])), not_list, no_path]),
    };
    match resolver().resolve(bad) {
        Err(e) => {
            assert!(matches!(e, EntityResolveError::BelongsToMustBeList(1)));
            assert_eq!(e.to_display_string(), "`belongs_to` attribute must be a list");
        },
        Ok(_) => panic!("an error was expected"),
    }
    let mut a = field("a", plain(&["u32"]));
    a.id = true;
    let mut b = field("b", plain(&["u32"]));
    b.id = true;
    let two_keys = EntityModel {
        name: "X".to_string(),
        table_name: TableNameAttr::Absent,
        fields: Some(vec![a, b]),
    };
    match resolver().resolve(two_keys) {
        Err(e) => assert_eq!(e.to_display_string(), "Only one field can be marked as primary key"),
        Ok(_) => panic!("an error was expected"),
    }
}

#[test]
fn belongs_to_errors() {
    let mut no_path = field("c", plain(&["u32"]));
    no_path.belongs_to = Some(BelongsToAttr::List(None));
    let entity = EntityModel {
        name: "X".to_string(),
        table_name: TableNameAttr::Absent,
        fields: Some(vec![field("a", plain(&["u32"])), no_path]),
    };
    match resolver().resolve(entity) {
        Err(e) => {
            assert!(matches!(e, EntityResolveError::ExpectedReferencedEntityPath(1)));
            assert_eq!(e.to_display_string(), "Expected referenced entity path");
        },
        Ok(_) => panic!("an error was expected"),
    }
    let mut malformed = field("c", plain(&["u32"]));
    malformed.belongs_to = Some(BelongsToAttr::Malformed("expected `,`".to_string()));
    let entity = EntityModel {
        name: "X".to_string(),
        table_name: TableNameAttr::Absent,
        fields: Some(vec![malformed]),
    };
    match resolver().resolve(entity) {
        Err(e) => assert_eq!(e.to_display_string(), "expected `,`"),
        Ok(_) => panic!("an error was expected"),
    }
    // field resolution comes first: an unresolvable later field wins over an earlier bad attribute
    let mut not_list = field("b", plain(&["u32"]));
    not_list.belongs_to = Some(BelongsToAttr::NotList);
    let entity = EntityModel {
        name: "X".to_string(),
        table_name: TableNameAttr::Absent,
        fields: Some(vec![not_list, field("z", plain(&["char"]))]),
    };
    assert!(matches!(resolver().resolve(entity), Err(EntityResolveError::NoFieldResolver(1))));
}


#[test]
fn field_type_from_ty_inverts_field_ty() {
    let all = [
        FieldType::Bool,
        FieldType::Short,
        FieldType::UnsignedShort,
        FieldType::Int,
        FieldType::UnsignedInt,
        FieldType::Long,
        FieldType::UnsignedLong,
        FieldType::Float,
        FieldType::Double,
        FieldType::String,
    ];
    for ft in all {
        for optional in [false, true] {
            assert_eq!(FieldType::from_ty(&ft.field_ty(optional)), Some((ft, optional)));
        }
    }
}

#[test]
fn datetime_from_ty_inverts_full_ty() {
    for d in [DateTimeType::Date, DateTimeType::Time, DateTimeType::DateTime] {
        for optional in [false, true] {
            assert_eq!(DateTimeType::from_ty(&d.full_ty(optional)), Some((d, optional)));
        }
    }
}

#[test]
fn resolved_entity_layout() {
    let name = field("name", plain(&["String"]));
    let mut id = field("id", plain(&["u32"]));
    id.id = true;
    let at = field("at", option_of(plain(&["sqlx", "types", "time", "Date"]), "Option < sqlx :: types :: time :: Date >"));
    let entity = EntityModel {
        name: "Note".to_string(),
        table_name: TableNameAttr::Absent,
        fields: Some(vec![name, id, at]),
    };
    let r = resolver().resolve(entity).unwrap();
    assert_eq!(r.value_count(), Some(3));
    assert_eq!(r.column_offsets(), Some((vec![0, 1, 2], 3)));
    assert_eq!(r.insert_columns(), vec!["name".to_string(), "at".to_string()]);
    assert_eq!(r.primary_key_index(), Some(1));
    let empty = EntityModel {
        name: "Empty".to_string(),
        table_name: TableNameAttr::Absent,
        fields: Some(vec![]),
    };
    let r = resolver().resolve(empty).unwrap();
    assert_eq!(r.value_count(), Some(0));
    assert_eq!(r.column_offsets(), Some((vec![], 0)));
    assert!(r.insert_columns().is_empty());
    assert_eq!(r.primary_key_index(), None);
}

#[test]
fn null_of_bool_is_bound_as_small_integer() {
    assert_eq!(yukino::value::null_binding_type(DatabaseType::Bool), DatabaseType::SmallInteger);
    assert_eq!(yukino::value::null_binding_type(DatabaseType::Json), DatabaseType::Json);
}
