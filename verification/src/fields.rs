use vstd::prelude::*;

use crate::text::{join_strings, join_text, texts_of};
use crate::value::DatabaseType;
use crate::types::{
    arguments_match, generic_argument_match, generic_arguments_match,
    match_ty, segment_match, segments_match, type_text, type_text_of, types_match,
    GenericArgumentModel, PathArgumentsModel, PathSegmentModel, TypeMatchResult, TypeModel,
};

verus! {

/// The text of `Option<t>`, spaced as the tokens of a type are printed.
pub open spec fn option_text(t: Seq<char>) -> Seq<char> {
    "Option < "@ + t + " >"@
}

/// Whether `input` matches `Option<target>`: a path of one segment
/// `Option` whose first angle-bracketed argument (if any) matches
/// `target`, or a type whose tokens read `Option < target >`.
pub open spec fn matches_option_of(input: TypeModel, target: TypeModel) -> bool {
    match input {
        TypeModel::Path { segments, .. } => segments@.len() == 1 && segments@[0].ident@
            == "Option"@ && match segments@[0].arguments {
            PathArgumentsModel::AngleBracketed(l) => l@.len() == 0 || generic_argument_match(
                l@[0],
                GenericArgumentModel::Type(target),
            ),
            _ => false,
        },
        TypeModel::Other { text } => text@ == option_text(type_text(target)),
    }
}

/// How `input` relates to `target`: it is `target`, it is
/// `Option<target>`, or neither.
pub open spec fn optional_match(target: TypeModel, input: TypeModel) -> TypeMatchResult {
    if types_match(input, target) {
        TypeMatchResult::Match
    } else if matches_option_of(input, target) {
        TypeMatchResult::InOption
    } else {
        TypeMatchResult::Mismatch
    }
}

/// Whether `o` is the type `Option<target>`.
pub open spec fn is_option_type_of(o: TypeModel, target: TypeModel) -> bool {
    match o {
        TypeModel::Path { text, segments } => {
            &&& text@ == option_text(type_text(target))
            &&& segments@.len() == 1
            &&& segments@[0].ident@ == "Option"@
            &&& match segments@[0].arguments {
                PathArgumentsModel::AngleBracketed(l) => l@ == seq![
                    GenericArgumentModel::Type(target),
                ],
                _ => false,
            }
        },
        _ => false,
    }
}

/// Matching `Option<target>` is what `matches_option_of` says.
pub proof fn law_option_match(input: TypeModel, target: TypeModel, o: TypeModel)
    requires
        is_option_type_of(o, target),
    ensures
        types_match(input, o) == matches_option_of(input, target),
{
    match (input, o) {
        (TypeModel::Path { segments: sa, .. }, TypeModel::Path { segments: sb, .. }) => {
            if sa@.len() == 1 {
                assert(sa@.drop_last().len() == 0);
                assert(segments_match(sa@.drop_last(), sb@.drop_last()));
                assert(sa@.last() == sa@[0]);
                assert(sb@.last() == sb@[0]);
                assert(segments_match(sa@, sb@) == segment_match(sa@[0], sb@[0]));
                match (sa@[0].arguments, sb@[0].arguments) {
                    (
                        PathArgumentsModel::AngleBracketed(la),
                        PathArgumentsModel::AngleBracketed(lb),
                    ) => {
                        if la@.len() > 0 {
                            assert(la@.take(0) =~= Seq::<GenericArgumentModel>::empty());
                            assert(lb@.take(0) =~= Seq::<GenericArgumentModel>::empty());
                            assert(lb@.len() == 1);
                            assert(crate::types::min_len(la@.len(), lb@.len()) == 1);
                            assert(generic_arguments_match(la@.take(0), lb@.take(0)));
                            assert(generic_arguments_match(la@, lb@) == generic_argument_match(
                                la@[0],
                                lb@[0],
                            ));
                        }
                    },
                    _ => {},
                }
            }
        },
        _ => {},
    }
}

/// The segments and the text of `Option<target>`.
fn option_type_of(target: TypeModel) -> (o: TypeModel)
    ensures
        is_option_type_of(o, target),
{
    let mut text = String::from_str("Option < ");
    text.append(type_text_of(&target).as_str());
    text.append(" >");
    let ghost t = target;
    let mut args: Vec<GenericArgumentModel> = Vec::new();
    args.push(GenericArgumentModel::Type(target));
    let mut segments: Vec<PathSegmentModel> = Vec::new();
    segments.push(
        PathSegmentModel {
            ident: String::from_str("Option"),
            arguments: PathArgumentsModel::AngleBracketed(args),
        },
    );
    assert(args@ =~= seq![GenericArgumentModel::Type(t)]);
    TypeModel::Path { text, segments }
}

/// How `input` relates to `target`: it is `target` (`Match`), it is
/// `Option<target>` (`InOption`), or neither (`Mismatch`).
pub fn match_optional_ty_by_param(target: TypeModel, input: &TypeModel) -> (r: TypeMatchResult)
    ensures
        r == optional_match(target, *input),
{
    if match_ty(input, &target) {
        TypeMatchResult::Match
    } else {
        let ghost t = target;
        let o = option_type_of(target);
        proof {
            law_option_match(*input, t, o);
        }
        if match_ty(input, &o) {
            TypeMatchResult::InOption
        } else {
            TypeMatchResult::Mismatch
        }
    }
}

/// The text of a path: its segment names separated by ` :: `.
pub open spec fn path_text(names: Seq<Seq<char>>) -> Seq<char> {
    join_text(names, " :: "@)
}

/// Whether `t` is the path `names`, with no generic arguments.
pub open spec fn is_plain_path_type(t: TypeModel, names: Seq<Seq<char>>) -> bool {
    match t {
        TypeModel::Path { text, segments } => {
            &&& text@ == path_text(names)
            &&& segments@.len() == names.len()
            &&& forall|i: int|
                0 <= i < names.len() ==> (#[trigger] segments@[i]).ident@ == names[i]
                    && segments@[i].arguments is NoArguments
        },
        _ => false,
    }
}

/// Whether `input` matches the path `names`.
pub open spec fn is_plain_path(input: TypeModel, names: Seq<Seq<char>>) -> bool {
    match input {
        TypeModel::Path { segments, .. } => segments@.len() == names.len() && forall|i: int|
            0 <= i < names.len() ==> (#[trigger] segments@[i]).ident@ == names[i]
                && segments@[i].arguments is NoArguments,
        TypeModel::Other { text } => text@ == path_text(names),
    }
}

/// Whether `input` matches `Option<names>`.
pub open spec fn is_optional_plain_path(input: TypeModel, names: Seq<Seq<char>>) -> bool {
    match input {
        TypeModel::Path { segments, .. } => segments@.len() == 1 && segments@[0].ident@
            == "Option"@ && match segments@[0].arguments {
            PathArgumentsModel::AngleBracketed(l) => l@.len() == 0 || match l@[0] {
                GenericArgumentModel::Type(t) => is_plain_path(t, names),
                GenericArgumentModel::Other(text) => text@ == path_text(names),
            },
            _ => false,
        },
        TypeModel::Other { text } => text@ == option_text(path_text(names)),
    }
}

/// How `input` relates to the path `names`.
pub open spec fn plain_path_match(input: TypeModel, names: Seq<Seq<char>>) -> TypeMatchResult {
    if is_plain_path(input, names) {
        TypeMatchResult::Match
    } else if is_optional_plain_path(input, names) {
        TypeMatchResult::InOption
    } else {
        TypeMatchResult::Mismatch
    }
}

/// Two lists of segments of the same length match exactly when they
/// match at every position.
pub proof fn lemma_segments_match_everywhere(sa: Seq<PathSegmentModel>, sb: Seq<PathSegmentModel>)
    requires
        sa.len() == sb.len(),
    ensures
        segments_match(sa, sb) == (forall|i: int|
            0 <= i < sa.len() ==> segment_match(#[trigger] sa[i], sb[i])),
    decreases sa.len(),
{
    if sa.len() > 0 {
        lemma_segments_match_everywhere(sa.drop_last(), sb.drop_last());
        if segments_match(sa, sb) {
            assert forall|i: int| 0 <= i < sa.len() implies segment_match(
                #[trigger] sa[i],
                sb[i],
            ) by {
                if i < sa.len() - 1 {
                    assert(sa.drop_last()[i] == sa[i]);
                    assert(sb.drop_last()[i] == sb[i]);
                }
            }
        }
        if forall|i: int| 0 <= i < sa.len() ==> segment_match(#[trigger] sa[i], sb[i]) {
            assert forall|i: int| 0 <= i < sa.drop_last().len() implies segment_match(
                #[trigger] sa.drop_last()[i],
                sb.drop_last()[i],
            ) by {
                assert(segment_match(sa[i], sb[i]));
            }
            assert(segment_match(sa[sa.len() - 1], sb[sa.len() - 1]));
        }
    }
}

/// Matching a plain path type is what `is_plain_path` says.
pub proof fn lemma_plain_path_match(input: TypeModel, t: TypeModel, names: Seq<Seq<char>>)
    requires
        is_plain_path_type(t, names),
    ensures
        types_match(input, t) == is_plain_path(input, names),
{
    match (input, t) {
        (TypeModel::Path { segments: sa, .. }, TypeModel::Path { segments: sb, .. }) => {
            if sa@.len() == sb@.len() {
                lemma_segments_match_everywhere(sa@, sb@);
                assert forall|i: int| 0 <= i < names.len() implies segment_match(
                    #[trigger] sa@[i],
                    sb@[i],
                ) == (sa@[i].ident@ == names[i] && sa@[i].arguments is NoArguments) by {
                    assert(sb@[i].ident@ == names[i]);
                    assert(sb@[i].arguments is NoArguments);
                }
            }
        },
        _ => {},
    }
}

/// Matching `Option<names>` against a plain path type is what
/// `is_optional_plain_path` says.
pub proof fn lemma_optional_plain_path_match(input: TypeModel, t: TypeModel, names: Seq<Seq<char>>)
    requires
        is_plain_path_type(t, names),
    ensures
        matches_option_of(input, t) == is_optional_plain_path(input, names),
{
    match input {
        TypeModel::Path { segments, .. } => {
            if segments@.len() == 1 {
                match segments@[0].arguments {
                    PathArgumentsModel::AngleBracketed(l) => {
                        if l@.len() > 0 {
                            match l@[0] {
                                GenericArgumentModel::Type(u) => lemma_plain_path_match(u, t, names),
                                GenericArgumentModel::Other(_) => {},
                            }
                        }
                    },
                    _ => {},
                }
            }
        },
        _ => {},
    }
}


/// A plain path type is, plainly, exactly the path it was made of.
pub proof fn lemma_plain_type_is_plain(t: TypeModel, ns: Seq<Seq<char>>, ms: Seq<Seq<char>>)
    requires
        is_plain_path_type(t, ns),
    ensures
        is_plain_path(t, ms) == (ns == ms),
{
    match t {
        TypeModel::Path { text, segments } => {
            if is_plain_path(t, ms) {
                assert forall|i: int| 0 <= i < ns.len() implies ns[i] == ms[i] by {
                    assert(segments@[i].ident@ == ns[i]);
                }
                assert(ns =~= ms);
            }
        },
        _ => {},
    }
}

/// A plain path type matches the paths equal to its own, and nothing as
/// an `Option` (unless it is the bare name `Option` itself).
pub proof fn lemma_plain_type_matches(t: TypeModel, ns: Seq<Seq<char>>, ms: Seq<Seq<char>>)
    requires
        is_plain_path_type(t, ns),
        !(ns.len() == 1 && ns[0] == "Option"@),
    ensures
        plain_path_match(t, ms) == if ns == ms {
            TypeMatchResult::Match
        } else {
            TypeMatchResult::Mismatch
        },
{
    lemma_plain_type_is_plain(t, ns, ms);
    match t {
        TypeModel::Path { text, segments } => {
            if segments@.len() == 1 && segments@[0].ident@ == "Option"@ {
                assert(ns[0] == segments@[0].ident@);
            }
        },
        _ => {},
    }
}

/// `Option` of a plain path type matches, as an `Option`, the paths
/// equal to the inner one, and nothing plainly (unless the path is the
/// bare name `Option`).
pub proof fn lemma_optional_type_matches(t: TypeModel, ns: Seq<Seq<char>>, ms: Seq<Seq<char>>)
    requires
        is_optional_path_type(t, ns),
        !(ms.len() == 1 && ms[0] == "Option"@),
    ensures
        plain_path_match(t, ms) == if ns == ms {
            TypeMatchResult::InOption
        } else {
            TypeMatchResult::Mismatch
        },
{
    match t {
        TypeModel::Path { text, segments } => {
            if is_plain_path(t, ms) {
                assert(ms[0] == segments@[0].ident@);
            }
            match segments@[0].arguments {
                PathArgumentsModel::AngleBracketed(l) => {
                    match l@[0] {
                        GenericArgumentModel::Type(u) => {
                            lemma_plain_type_is_plain(u, ns, ms);
                        },
                        _ => {},
                    }
                },
                _ => {},
            }
        },
        _ => {},
    }
}

/// The plain path type `names`.
pub fn plain_path_type(names: Vec<String>) -> (t: TypeModel)
    ensures
        is_plain_path_type(t, texts_of(names@)),
{
    let text = join_strings(&names, " :: ");
    let mut segments: Vec<PathSegmentModel> = Vec::new();
    let n = names.len();
    let mut i: usize = 0;
    while i < n
        invariant
            n == names@.len(),
            0 <= i <= n,
            segments@.len() == i,
            forall|j: int|
                0 <= j < i ==> (#[trigger] segments@[j]).ident@ == names@[j]@
                    && segments@[j].arguments is NoArguments,
        decreases n - i,
    {
        segments.push(
            PathSegmentModel {
                ident: names[i].clone(),
                arguments: PathArgumentsModel::NoArguments,
            },
        );
        i = i + 1;
    }
    TypeModel::Path { text, segments }
}

/// The names of a path of one segment.
fn one_segment(name: &str) -> (v: Vec<String>)
    ensures
        texts_of(v@) == seq![name@],
{
    let mut v: Vec<String> = Vec::new();
    v.push(String::from_str(name));
    assert(texts_of(v@) =~= seq![name@]);
    v
}

/// How `input` relates to the path `names`, found by matching `input`
/// against the type `names` and against `Option<names>`.
pub fn match_plain_path(names: Vec<String>, input: &TypeModel) -> (r: TypeMatchResult)
    ensures
        r == plain_path_match(*input, texts_of(names@)),
{
    let ghost ns = texts_of(names@);
    let target = plain_path_type(names);
    proof {
        lemma_plain_path_match(*input, target, ns);
        lemma_optional_plain_path_match(*input, target, ns);
    }
    match_optional_ty_by_param(target, input)
}

/// Whether `t` is `Option<names>`, with `names` a plain path.
pub open spec fn is_optional_path_type(t: TypeModel, names: Seq<Seq<char>>) -> bool {
    match t {
        TypeModel::Path { text, segments } => {
            &&& text@ == option_text(path_text(names))
            &&& segments@.len() == 1
            &&& segments@[0].ident@ == "Option"@
            &&& match segments@[0].arguments {
                PathArgumentsModel::AngleBracketed(l) => l@.len() == 1 && match l@[0] {
                    GenericArgumentModel::Type(u) => is_plain_path_type(u, names),
                    _ => false,
                },
                _ => false,
            }
        },
        _ => false,
    }
}

/// The type of a field: the path `names`, or `Option<names>` when
/// `optional`.
pub fn path_field_type(names: Vec<String>, optional: bool) -> (t: TypeModel)
    ensures
        optional ==> is_optional_path_type(t, texts_of(names@)),
        !optional ==> is_plain_path_type(t, texts_of(names@)),
{
    let inside = plain_path_type(names);
    if optional {
        let ghost u = inside;
        let o = option_type_of(inside);
        assert(type_text(u) == path_text(texts_of(names@)));
        o
    } else {
        inside
    }
}

/// The primitive field types that map to one column each.
#[derive(Copy, Clone, Eq, PartialEq, Debug, Structural)]
pub enum FieldType {
    Bool,
    Short,
    UnsignedShort,
    Int,
    UnsignedInt,
    Long,
    UnsignedLong,
    Float,
    Double,
    String,
}

/// The entity derive's resolver of primitive fields.
pub struct BasicFieldResolver;

/// The name of the Rust type of a field type.
pub open spec fn field_type_name(t: FieldType) -> Seq<char> {
    match t {
        FieldType::Bool => "bool"@,
        FieldType::Short => "i16"@,
        FieldType::UnsignedShort => "u16"@,
        FieldType::Int => "i32"@,
        FieldType::UnsignedInt => "u32"@,
        FieldType::Long => "i64"@,
        FieldType::UnsignedLong => "u64"@,
        FieldType::Float => "f32"@,
        FieldType::Double => "f64"@,
        FieldType::String => "String"@,
    }
}

/// The field types in the order in which a type is tried against them.
pub open spec fn field_type_order() -> Seq<FieldType> {
    seq![
        FieldType::Bool,
        FieldType::Short,
        FieldType::UnsignedShort,
        FieldType::Int,
        FieldType::UnsignedInt,
        FieldType::Long,
        FieldType::UnsignedLong,
        FieldType::Float,
        FieldType::Double,
        FieldType::String,
    ]
}

/// The first field type, from position `i` of `field_type_order` on,
/// that `ty` is or is an `Option` of, with whether it is optional.
pub open spec fn first_field_type(ty: TypeModel, i: nat) -> Option<(FieldType, bool)>
    decreases 10 - i,
{
    if i >= 10 {
        None
    } else {
        let t = field_type_order()[i as int];
        match plain_path_match(ty, seq![field_type_name(t)]) {
            TypeMatchResult::Match => Some((t, false)),
            TypeMatchResult::InOption => Some((t, true)),
            TypeMatchResult::Mismatch => first_field_type(ty, i + 1),
        }
    }
}

/// The converter of a field type, without its `Optional` prefix.
pub open spec fn field_converter_base(t: FieldType) -> Seq<char> {
    match t {
        FieldType::Bool => "BoolConverter"@,
        FieldType::Short => "ShortConverter"@,
        FieldType::UnsignedShort => "UnsignedShortConverter"@,
        FieldType::Int => "IntConverter"@,
        FieldType::UnsignedInt => "UnsignedIntConverter"@,
        FieldType::Long => "LongConverter"@,
        FieldType::UnsignedLong => "UnsignedLongConverter"@,
        FieldType::Float => "FloatConverter"@,
        FieldType::Double => "DoubleConverter"@,
        FieldType::String => "StringConverter"@,
    }
}

/// The column type a field type is stored as.
pub open spec fn field_database_type(t: FieldType) -> DatabaseType {
    match t {
        FieldType::Bool => DatabaseType::Bool,
        FieldType::Short => DatabaseType::SmallInteger,
        FieldType::UnsignedShort => DatabaseType::UnsignedSmallInteger,
        FieldType::Int => DatabaseType::Integer,
        FieldType::UnsignedInt => DatabaseType::UnsignedInteger,
        FieldType::Long => DatabaseType::BigInteger,
        FieldType::UnsignedLong => DatabaseType::UnsignedBigInteger,
        FieldType::Float => DatabaseType::Float,
        FieldType::Double => DatabaseType::Double,
        FieldType::String => DatabaseType::String,
    }
}

/// `Optional` for an optional field, nothing otherwise.
pub open spec fn optional_prefix(optional: bool) -> Seq<char> {
    if optional {
        "Optional"@
    } else {
        Seq::empty()
    }
}

impl FieldType {
    /// The field type at position `i` of `field_type_order`.
    fn at(i: usize) -> (t: FieldType)
        requires
            i < 10,
        ensures
            t == field_type_order()[i as int],
    {
        match i {
            0 => FieldType::Bool,
            1 => FieldType::Short,
            2 => FieldType::UnsignedShort,
            3 => FieldType::Int,
            4 => FieldType::UnsignedInt,
            5 => FieldType::Long,
            6 => FieldType::UnsignedLong,
            7 => FieldType::Float,
            8 => FieldType::Double,
            _ => FieldType::String,
        }
    }

    /// The name of the Rust type.
    pub fn name(&self) -> (s: &'static str)
        ensures
            s@ == field_type_name(*self),
    {
        match self {
            FieldType::Bool => "bool",
            FieldType::Short => "i16",
            FieldType::UnsignedShort => "u16",
            FieldType::Int => "i32",
            FieldType::UnsignedInt => "u32",
            FieldType::Long => "i64",
            FieldType::UnsignedLong => "u64",
            FieldType::Float => "f32",
            FieldType::Double => "f64",
            FieldType::String => "String",
        }
    }

    /// The field type that `ty` is, or is an `Option` of, trying the
    /// types in the order of `field_type_order`; with whether it is
    /// optional.
    pub fn from_ty(ty: &TypeModel) -> (r: Option<(FieldType, bool)>)
        ensures
            r == first_field_type(*ty, 0),
    {
        let mut i: usize = 0;
        while i < 10
            invariant
                0 <= i <= 10,
                first_field_type(*ty, 0) == first_field_type(*ty, i as nat),
            decreases 10 - i,
        {
            let t = FieldType::at(i);
            let r = match_plain_path(one_segment(t.name()), ty);
            match r {
                TypeMatchResult::Match => {
                    return Some((t, false));
                },
                TypeMatchResult::InOption => {
                    return Some((t, true));
                },
                TypeMatchResult::Mismatch => {},
            }
            i = i + 1;
        }
        None
    }

    /// The Rust type of a field: the type, or `Option` of it.
    pub fn field_ty(&self, optional: bool) -> (t: TypeModel)
        ensures
            optional ==> is_optional_path_type(t, seq![field_type_name(*self)]),
            !optional ==> is_plain_path_type(t, seq![field_type_name(*self)]),
    {
        path_field_type(one_segment(self.name()), optional)
    }

    /// The name of the converter of a field: `Optional` for an optional
    /// field, then the converter of the type.
    pub fn converter_ty(&self, optional: bool) -> (s: String)
        ensures
            s@ == optional_prefix(optional) + field_converter_base(*self),
    {
        let mut s = if optional {
            String::from_str("Optional")
        } else {
            String::new()
        };
        let base = match self {
            FieldType::Bool => "BoolConverter",
            FieldType::Short => "ShortConverter",
            FieldType::UnsignedShort => "UnsignedShortConverter",
            FieldType::Int => "IntConverter",
            FieldType::UnsignedInt => "UnsignedIntConverter",
            FieldType::Long => "LongConverter",
            FieldType::UnsignedLong => "UnsignedLongConverter",
            FieldType::Float => "FloatConverter",
            FieldType::Double => "DoubleConverter",
            FieldType::String => "StringConverter",
        };
        s.append(base);
        s
    }
}

impl From<&FieldType> for DatabaseType {
    /// The column type a field type is stored as.
    fn from(ty: &FieldType) -> (t: DatabaseType) {
        match ty {
            FieldType::Bool => DatabaseType::Bool,
            FieldType::Short => DatabaseType::SmallInteger,
            FieldType::UnsignedShort => DatabaseType::UnsignedSmallInteger,
            FieldType::Int => DatabaseType::Integer,
            FieldType::UnsignedInt => DatabaseType::UnsignedInteger,
            FieldType::Long => DatabaseType::BigInteger,
            FieldType::UnsignedLong => DatabaseType::UnsignedBigInteger,
            FieldType::Float => DatabaseType::Float,
            FieldType::Double => DatabaseType::Double,
            FieldType::String => DatabaseType::String,
        }
    }
}

impl vstd::std_specs::convert::FromSpecImpl<&FieldType> for DatabaseType {
    open spec fn obeys_from_spec() -> bool {
        true
    }

    open spec fn from_spec(ty: &FieldType) -> DatabaseType {
        field_database_type(*ty)
    }
}

/// The date and time field types, stored as `sqlx::types::time` values.
#[derive(Copy, Clone, Debug, Eq, PartialEq, Structural)]
pub enum DateTimeType {
    Date,
    Time,
    DateTime,
}

/// The entity derive's resolver of date and time fields.
pub struct DateTimeFieldResolver;

/// The path of the Rust type of a date or time field type.
pub open spec fn datetime_path(t: DateTimeType) -> Seq<Seq<char>> {
    match t {
        DateTimeType::Date => seq!["sqlx"@, "types"@, "time"@, "Date"@],
        DateTimeType::Time => seq!["sqlx"@, "types"@, "time"@, "Time"@],
        DateTimeType::DateTime => seq!["sqlx"@, "types"@, "time"@, "PrimitiveDateTime"@],
    }
}

/// The date and time field types in the order in which a type is tried
/// against them.
pub open spec fn datetime_type_order() -> Seq<DateTimeType> {
    seq![DateTimeType::Date, DateTimeType::Time, DateTimeType::DateTime]
}

/// The first date or time field type, from position `i` on, that `ty` is
/// or is an `Option` of, with whether it is optional.
pub open spec fn first_datetime_type(ty: TypeModel, i: nat) -> Option<(DateTimeType, bool)>
    decreases 3 - i,
{
    if i >= 3 {
        None
    } else {
        let t = datetime_type_order()[i as int];
        match plain_path_match(ty, datetime_path(t)) {
            TypeMatchResult::Match => Some((t, false)),
            TypeMatchResult::InOption => Some((t, true)),
            TypeMatchResult::Mismatch => first_datetime_type(ty, i + 1),
        }
    }
}

/// The column type a date or time field type is stored as.
pub open spec fn datetime_database_type(t: DateTimeType) -> DatabaseType {
    match t {
        DateTimeType::Date => DatabaseType::Date,
        DateTimeType::Time => DatabaseType::Time,
        DateTimeType::DateTime => DatabaseType::DateTime,
    }
}

/// The converter of a date or time field type, without its `Optional`
/// prefix.
pub open spec fn datetime_converter_base(t: DateTimeType) -> Seq<char> {
    match t {
        DateTimeType::Date => "DateConverter"@,
        DateTimeType::Time => "TimeConverter"@,
        DateTimeType::DateTime => "DateTimeConverter"@,
    }
}

/// The segments of a path of four segments.
fn four_segments(a: &str, b: &str, c: &str, d: &str) -> (v: Vec<String>)
    ensures
        texts_of(v@) == seq![a@, b@, c@, d@],
{
    let mut v: Vec<String> = Vec::new();
    v.push(String::from_str(a));
    v.push(String::from_str(b));
    v.push(String::from_str(c));
    v.push(String::from_str(d));
    assert(texts_of(v@) =~= seq![a@, b@, c@, d@]);
    v
}

impl DateTimeType {
    /// The path of the Rust type.
    fn path(&self) -> (v: Vec<String>)
        ensures
            texts_of(v@) == datetime_path(*self),
    {
        match self {
            DateTimeType::Date => four_segments("sqlx", "types", "time", "Date"),
            DateTimeType::Time => four_segments("sqlx", "types", "time", "Time"),
            DateTimeType::DateTime => four_segments("sqlx", "types", "time", "PrimitiveDateTime"),
        }
    }

    /// The Rust type.
    pub fn ty(&self) -> (t: TypeModel)
        ensures
            is_plain_path_type(t, datetime_path(*self)),
    {
        plain_path_type(self.path())
    }

    /// The Rust type of a field: the type, or `Option` of it.
    pub fn full_ty(&self, optional: bool) -> (t: TypeModel)
        ensures
            optional ==> is_optional_path_type(t, datetime_path(*self)),
            !optional ==> is_plain_path_type(t, datetime_path(*self)),
    {
        path_field_type(self.path(), optional)
    }

    /// The column type.
    pub fn database_ty(&self) -> (t: DatabaseType)
        ensures
            t == datetime_database_type(*self),
    {
        match self {
            DateTimeType::Date => DatabaseType::Date,
            DateTimeType::Time => DatabaseType::Time,
            DateTimeType::DateTime => DatabaseType::DateTime,
        }
    }

    /// The date or time field type that `ty` is, or is an `Option` of,
    /// trying the types in the order of `datetime_type_order`; with whether
    /// it is optional.
    pub fn from_ty(ty: &TypeModel) -> (r: Option<(DateTimeType, bool)>)
        ensures
            r == first_datetime_type(*ty, 0),
    {
        let tys: [DateTimeType; 3] = [DateTimeType::Date, DateTimeType::Time, DateTimeType::DateTime];
        let mut i: usize = 0;
        while i < 3
            invariant
                0 <= i <= 3,
                tys@ == datetime_type_order(),
                first_datetime_type(*ty, 0) == first_datetime_type(*ty, i as nat),
            decreases 3 - i,
        {
            let t = tys[i];
            let r = match_plain_path(t.path(), ty);
            match r {
                TypeMatchResult::Match => {
                    return Some((t, false));
                },
                TypeMatchResult::InOption => {
                    return Some((t, true));
                },
                TypeMatchResult::Mismatch => {},
            }
            i = i + 1;
        }
        None
    }

    /// The name of the converter of a field: `Optional` for an optional
    /// field, then the converter of the type.
    pub fn converter_ty(&self, optional: bool) -> (s: String)
        ensures
            s@ == optional_prefix(optional) + datetime_converter_base(*self),
    {
        let mut s = if optional {
            String::from_str("Optional")
        } else {
            String::new()
        };
        let base = match self {
            DateTimeType::Date => "DateConverter",
            DateTimeType::Time => "TimeConverter",
            DateTimeType::DateTime => "DateTimeConverter",
        };
        s.append(base);
        s
    }
}

/// The entity derive's resolver of decimal fields.
pub struct DecimalFieldResolver;

/// The path of the decimal type.
pub open spec fn decimal_path() -> Seq<Seq<char>> {
    seq!["sqlx"@, "types"@, "Decimal"@]
}

/// The decimal type that `ty` is or is an `Option` of, with whether it is
/// optional; `None` when it is neither.
pub fn match_decimal_ty(ty: &TypeModel) -> (r: Option<(TypeModel, bool)>)
    ensures
        plain_path_match(*ty, decimal_path()) == TypeMatchResult::Match ==> (r matches Some(
            (t, optional),
        ) && !optional && is_plain_path_type(t, decimal_path())),
        plain_path_match(*ty, decimal_path()) == TypeMatchResult::InOption ==> (r matches Some(
            (t, optional),
        ) && optional && is_optional_path_type(t, decimal_path())),
        plain_path_match(*ty, decimal_path()) == TypeMatchResult::Mismatch ==> r is None,
{
    match match_plain_path(decimal_segments(), ty) {
        TypeMatchResult::Match => Some((path_field_type(decimal_segments(), false), false)),
        TypeMatchResult::InOption => Some((path_field_type(decimal_segments(), true), true)),
        TypeMatchResult::Mismatch => None,
    }
}

/// The segments of the decimal type.
fn decimal_segments() -> (v: Vec<String>)
    ensures
        texts_of(v@) == decimal_path(),
{
    let mut v: Vec<String> = Vec::new();
    v.push(String::from_str("sqlx"));
    v.push(String::from_str("types"));
    v.push(String::from_str("Decimal"));
    assert(texts_of(v@) =~= decimal_path());
    v
}

/// A type is always a `Match` for itself.
pub proof fn law_optional_match_of_itself(t: TypeModel)
    ensures
        optional_match(t, t) == TypeMatchResult::Match,
{
    crate::types::law_match_ty_reflexive(t);
}


/// The position of a field type in `field_type_order`.
pub open spec fn field_type_index(t: FieldType) -> nat {
    match t {
        FieldType::Bool => 0,
        FieldType::Short => 1,
        FieldType::UnsignedShort => 2,
        FieldType::Int => 3,
        FieldType::UnsignedInt => 4,
        FieldType::Long => 5,
        FieldType::UnsignedLong => 6,
        FieldType::Float => 7,
        FieldType::Double => 8,
        FieldType::String => 9,
    }
}

/// Every field type stands once in `field_type_order`, at its index.
proof fn lemma_field_type_order_index()
    ensures
        forall|i: int| 0 <= i < 10 ==> field_type_index(#[trigger] field_type_order()[i]) == i,
        forall|t: FieldType| #[trigger] field_type_order()[field_type_index(t) as int] == t,
{
    let o = field_type_order();
    assert(field_type_index(o[0]) == 0 && field_type_index(o[1]) == 1 && field_type_index(o[2]) == 2
        && field_type_index(o[3]) == 3 && field_type_index(o[4]) == 4 && field_type_index(o[5]) == 5
        && field_type_index(o[6]) == 6 && field_type_index(o[7]) == 7 && field_type_index(o[8]) == 8
        && field_type_index(o[9]) == 9);
}

/// The names of the field types differ from one another and from
/// `Option`.
proof fn lemma_field_type_names(a: FieldType, b: FieldType)
    ensures
        (field_type_name(a) == field_type_name(b)) == (a == b),
        field_type_name(a) != "Option"@,
{
    reveal_strlit("bool");
    reveal_strlit("i16");
    reveal_strlit("u16");
    reveal_strlit("i32");
    reveal_strlit("u32");
    reveal_strlit("i64");
    reveal_strlit("u64");
    reveal_strlit("f32");
    reveal_strlit("f64");
    reveal_strlit("String");
    reveal_strlit("Option");
    let na = field_type_name(a);
    let nb = field_type_name(b);
    if a != b {
        assert(na.len() != nb.len() || na[0] != nb[0] || na[1] != nb[1] || na[2] != nb[2]);
    }
    assert(na.len() != "Option"@.len() || na[0] != "Option"@[0]);
}

/// Scanning `field_type_order` from a position no later than that of
/// `ft` finds `ft` in a type that `field_ty` made of it.
proof fn lemma_first_field_type_of(t: TypeModel, ft: FieldType, optional: bool, i: nat)
    requires
        i <= field_type_index(ft),
        optional ==> is_optional_path_type(t, seq![field_type_name(ft)]),
        !optional ==> is_plain_path_type(t, seq![field_type_name(ft)]),
    ensures
        first_field_type(t, i) == Some((ft, optional)),
    decreases 10 - i,
{
    lemma_field_type_order_index();
    let u = field_type_order()[i as int];
    assert(field_type_index(u) == i);
    lemma_field_type_names(ft, u);
    lemma_field_type_names(u, u);
    let ns = seq![field_type_name(ft)];
    let ms = seq![field_type_name(u)];
    if ns == ms {
        assert(ns[0] == ms[0]);
    }
    if optional {
        lemma_optional_type_matches(t, ns, ms);
    } else {
        lemma_plain_type_matches(t, ns, ms);
    }
    if u != ft {
        assert(field_type_order()[field_type_index(ft) as int] == ft);
        lemma_first_field_type_of(t, ft, optional, i + 1);
    }
}

/// Reading back the type of a primitive field gives the field type and
/// its optionality: `FieldType::from_ty` inverts `FieldType::field_ty`.
pub proof fn law_field_type_from_ty_inverts_field_ty(ft: FieldType, optional: bool, t: TypeModel)
    requires
        optional ==> is_optional_path_type(t, seq![field_type_name(ft)]),
        !optional ==> is_plain_path_type(t, seq![field_type_name(ft)]),
    ensures
        first_field_type(t, 0) == Some((ft, optional)),
{
    lemma_first_field_type_of(t, ft, optional, 0);
}

/// The position of a date or time field type in `datetime_type_order`.
pub open spec fn datetime_type_index(t: DateTimeType) -> nat {
    match t {
        DateTimeType::Date => 0,
        DateTimeType::Time => 1,
        DateTimeType::DateTime => 2,
    }
}

/// The paths of the date and time field types differ from one another.
proof fn lemma_datetime_paths(a: DateTimeType, b: DateTimeType)
    ensures
        (datetime_path(a) == datetime_path(b)) == (a == b),
        datetime_path(a).len() == 4,
{
    reveal_strlit("Date");
    reveal_strlit("Time");
    reveal_strlit("PrimitiveDateTime");
    let pa = datetime_path(a);
    let pb = datetime_path(b);
    if a != b {
        assert(pa[3].len() != pb[3].len() || pa[3][0] != pb[3][0]);
    }
}

/// Scanning `datetime_type_order` from a position no later than that of
/// `d` finds `d` in a type that `full_ty` made of it.
proof fn lemma_first_datetime_type_of(t: TypeModel, d: DateTimeType, optional: bool, i: nat)
    requires
        i <= datetime_type_index(d),
        optional ==> is_optional_path_type(t, datetime_path(d)),
        !optional ==> is_plain_path_type(t, datetime_path(d)),
    ensures
        first_datetime_type(t, i) == Some((d, optional)),
    decreases 3 - i,
{
    let o = datetime_type_order();
    assert(datetime_type_index(o[0]) == 0 && datetime_type_index(o[1]) == 1
        && datetime_type_index(o[2]) == 2);
    let u = o[i as int];
    lemma_datetime_paths(d, u);
    lemma_datetime_paths(u, u);
    if optional {
        lemma_optional_type_matches(t, datetime_path(d), datetime_path(u));
    } else {
        lemma_plain_type_matches(t, datetime_path(d), datetime_path(u));
    }
    if u != d {
        lemma_first_datetime_type_of(t, d, optional, i + 1);
    }
}

/// Reading back the type of a date or time field gives the field type
/// and its optionality: `DateTimeType::from_ty` inverts
/// `DateTimeType::full_ty`.
pub proof fn law_datetime_from_ty_inverts_full_ty(d: DateTimeType, optional: bool, t: TypeModel)
    requires
        optional ==> is_optional_path_type(t, datetime_path(d)),
        !optional ==> is_plain_path_type(t, datetime_path(d)),
    ensures
        first_datetime_type(t, 0) == Some((d, optional)),
{
    lemma_first_datetime_type_of(t, d, optional, 0);
}


/// The column type of a primitive field has the width and signedness of
/// its Rust type: `bool` Bool, `i16` SmallInteger, `u16`
/// UnsignedSmallInteger, `i32` Integer, `u32` UnsignedInteger, `i64`
/// BigInteger, `u64` UnsignedBigInteger, `f32` Float, `f64` Double,
/// `String` String.
pub proof fn law_field_column_type_follows_rust_type(t: FieldType)
    ensures
        field_type_name(t) == "bool"@ ==> <DatabaseType as vstd::std_specs::convert::FromSpec<&FieldType>>::from_spec(&t) == DatabaseType::Bool,
        field_type_name(t) == "i16"@ ==> <DatabaseType as vstd::std_specs::convert::FromSpec<&FieldType>>::from_spec(&t) == DatabaseType::SmallInteger,
        field_type_name(t) == "u16"@ ==> <DatabaseType as vstd::std_specs::convert::FromSpec<&FieldType>>::from_spec(&t) == DatabaseType::UnsignedSmallInteger,
        field_type_name(t) == "i32"@ ==> <DatabaseType as vstd::std_specs::convert::FromSpec<&FieldType>>::from_spec(&t) == DatabaseType::Integer,
        field_type_name(t) == "u32"@ ==> <DatabaseType as vstd::std_specs::convert::FromSpec<&FieldType>>::from_spec(&t) == DatabaseType::UnsignedInteger,
        field_type_name(t) == "i64"@ ==> <DatabaseType as vstd::std_specs::convert::FromSpec<&FieldType>>::from_spec(&t) == DatabaseType::BigInteger,
        field_type_name(t) == "u64"@ ==> <DatabaseType as vstd::std_specs::convert::FromSpec<&FieldType>>::from_spec(&t) == DatabaseType::UnsignedBigInteger,
        field_type_name(t) == "f32"@ ==> <DatabaseType as vstd::std_specs::convert::FromSpec<&FieldType>>::from_spec(&t) == DatabaseType::Float,
        field_type_name(t) == "f64"@ ==> <DatabaseType as vstd::std_specs::convert::FromSpec<&FieldType>>::from_spec(&t) == DatabaseType::Double,
        field_type_name(t) == "String"@ ==> <DatabaseType as vstd::std_specs::convert::FromSpec<&FieldType>>::from_spec(&t) == DatabaseType::String,
{
    lemma_field_type_names(t, FieldType::Bool);
    lemma_field_type_names(t, FieldType::Short);
    lemma_field_type_names(t, FieldType::UnsignedShort);
    lemma_field_type_names(t, FieldType::Int);
    lemma_field_type_names(t, FieldType::UnsignedInt);
    lemma_field_type_names(t, FieldType::Long);
    lemma_field_type_names(t, FieldType::UnsignedLong);
    lemma_field_type_names(t, FieldType::Float);
    lemma_field_type_names(t, FieldType::Double);
    lemma_field_type_names(t, FieldType::String);
    reveal_strlit("bool");
    reveal_strlit("i16");
    reveal_strlit("u16");
    reveal_strlit("i32");
    reveal_strlit("u32");
    reveal_strlit("i64");
    reveal_strlit("u64");
    reveal_strlit("f32");
    reveal_strlit("f64");
    reveal_strlit("String");
}

/// The column type of a date or time field is that of its Rust type:
/// `Date` Date, `Time` Time, `PrimitiveDateTime` DateTime.
pub proof fn law_datetime_column_type_follows_rust_type(d: DateTimeType)
    ensures
        datetime_path(d).last() == "Date"@ ==> datetime_database_type(d) == DatabaseType::Date,
        datetime_path(d).last() == "Time"@ ==> datetime_database_type(d) == DatabaseType::Time,
        datetime_path(d).last() == "PrimitiveDateTime"@ ==> datetime_database_type(d)
            == DatabaseType::DateTime,
{
    reveal_strlit("Date");
    reveal_strlit("Time");
    reveal_strlit("PrimitiveDateTime");
    lemma_datetime_paths(d, DateTimeType::Date);
    lemma_datetime_paths(d, DateTimeType::Time);
    lemma_datetime_paths(d, DateTimeType::DateTime);
    let p = datetime_path(d);
    if d != DateTimeType::Date {
        assert(p.last() != "Date"@) by {
            assert(p.last().len() != "Date"@.len() || p.last()[0] != "Date"@[0]);
        }
    }
    if d != DateTimeType::Time {
        assert(p.last() != "Time"@) by {
            assert(p.last().len() != "Time"@.len() || p.last()[0] != "Time"@[0]);
        }
    }
    if d != DateTimeType::DateTime {
        assert(p.last() != "PrimitiveDateTime"@) by {
            assert(p.last().len() != "PrimitiveDateTime"@.len());
        }
    }
}


/// The Rust type a primitive field is read as: `bool`, `i16`, `u16`,
/// `i32`, `u32`, `i64`, `u64`, `f32`, `f64`, `String`, or an `Option` of
/// one of them, is the field type of that name.
pub proof fn law_field_type_of_rust_type(ty: TypeModel)
    ensures
        is_plain_path_type(ty, seq!["bool"@]) ==> first_field_type(ty, 0) == Some((FieldType::Bool, false)),
        is_optional_path_type(ty, seq!["bool"@]) ==> first_field_type(ty, 0) == Some((FieldType::Bool, true)),
        is_plain_path_type(ty, seq!["i16"@]) ==> first_field_type(ty, 0) == Some((FieldType::Short, false)),
        is_optional_path_type(ty, seq!["i16"@]) ==> first_field_type(ty, 0) == Some((FieldType::Short, true)),
        is_plain_path_type(ty, seq!["u16"@]) ==> first_field_type(ty, 0) == Some((FieldType::UnsignedShort, false)),
        is_optional_path_type(ty, seq!["u16"@]) ==> first_field_type(ty, 0) == Some((FieldType::UnsignedShort, true)),
        is_plain_path_type(ty, seq!["i32"@]) ==> first_field_type(ty, 0) == Some((FieldType::Int, false)),
        is_optional_path_type(ty, seq!["i32"@]) ==> first_field_type(ty, 0) == Some((FieldType::Int, true)),
        is_plain_path_type(ty, seq!["u32"@]) ==> first_field_type(ty, 0) == Some((FieldType::UnsignedInt, false)),
        is_optional_path_type(ty, seq!["u32"@]) ==> first_field_type(ty, 0) == Some((FieldType::UnsignedInt, true)),
        is_plain_path_type(ty, seq!["i64"@]) ==> first_field_type(ty, 0) == Some((FieldType::Long, false)),
        is_optional_path_type(ty, seq!["i64"@]) ==> first_field_type(ty, 0) == Some((FieldType::Long, true)),
        is_plain_path_type(ty, seq!["u64"@]) ==> first_field_type(ty, 0) == Some((FieldType::UnsignedLong, false)),
        is_optional_path_type(ty, seq!["u64"@]) ==> first_field_type(ty, 0) == Some((FieldType::UnsignedLong, true)),
        is_plain_path_type(ty, seq!["f32"@]) ==> first_field_type(ty, 0) == Some((FieldType::Float, false)),
        is_optional_path_type(ty, seq!["f32"@]) ==> first_field_type(ty, 0) == Some((FieldType::Float, true)),
        is_plain_path_type(ty, seq!["f64"@]) ==> first_field_type(ty, 0) == Some((FieldType::Double, false)),
        is_optional_path_type(ty, seq!["f64"@]) ==> first_field_type(ty, 0) == Some((FieldType::Double, true)),
        is_plain_path_type(ty, seq!["String"@]) ==> first_field_type(ty, 0) == Some((FieldType::String, false)),
        is_optional_path_type(ty, seq!["String"@]) ==> first_field_type(ty, 0) == Some((FieldType::String, true)),
{
    if is_plain_path_type(ty, seq!["bool"@]) || is_optional_path_type(ty, seq!["bool"@]) {
        assert(field_type_name(FieldType::Bool) == "bool"@);
        law_field_type_from_ty_inverts_field_ty(FieldType::Bool, is_optional_path_type(ty, seq!["bool"@]), ty);
    }
    if is_plain_path_type(ty, seq!["i16"@]) || is_optional_path_type(ty, seq!["i16"@]) {
        assert(field_type_name(FieldType::Short) == "i16"@);
        law_field_type_from_ty_inverts_field_ty(FieldType::Short, is_optional_path_type(ty, seq!["i16"@]), ty);
    }
    if is_plain_path_type(ty, seq!["u16"@]) || is_optional_path_type(ty, seq!["u16"@]) {
        assert(field_type_name(FieldType::UnsignedShort) == "u16"@);
        law_field_type_from_ty_inverts_field_ty(FieldType::UnsignedShort, is_optional_path_type(ty, seq!["u16"@]), ty);
    }
    if is_plain_path_type(ty, seq!["i32"@]) || is_optional_path_type(ty, seq!["i32"@]) {
        assert(field_type_name(FieldType::Int) == "i32"@);
        law_field_type_from_ty_inverts_field_ty(FieldType::Int, is_optional_path_type(ty, seq!["i32"@]), ty);
    }
    if is_plain_path_type(ty, seq!["u32"@]) || is_optional_path_type(ty, seq!["u32"@]) {
        assert(field_type_name(FieldType::UnsignedInt) == "u32"@);
        law_field_type_from_ty_inverts_field_ty(FieldType::UnsignedInt, is_optional_path_type(ty, seq!["u32"@]), ty);
    }
    if is_plain_path_type(ty, seq!["i64"@]) || is_optional_path_type(ty, seq!["i64"@]) {
        assert(field_type_name(FieldType::Long) == "i64"@);
        law_field_type_from_ty_inverts_field_ty(FieldType::Long, is_optional_path_type(ty, seq!["i64"@]), ty);
    }
    if is_plain_path_type(ty, seq!["u64"@]) || is_optional_path_type(ty, seq!["u64"@]) {
        assert(field_type_name(FieldType::UnsignedLong) == "u64"@);
        law_field_type_from_ty_inverts_field_ty(FieldType::UnsignedLong, is_optional_path_type(ty, seq!["u64"@]), ty);
    }
    if is_plain_path_type(ty, seq!["f32"@]) || is_optional_path_type(ty, seq!["f32"@]) {
        assert(field_type_name(FieldType::Float) == "f32"@);
        law_field_type_from_ty_inverts_field_ty(FieldType::Float, is_optional_path_type(ty, seq!["f32"@]), ty);
    }
    if is_plain_path_type(ty, seq!["f64"@]) || is_optional_path_type(ty, seq!["f64"@]) {
        assert(field_type_name(FieldType::Double) == "f64"@);
        law_field_type_from_ty_inverts_field_ty(FieldType::Double, is_optional_path_type(ty, seq!["f64"@]), ty);
    }
    if is_plain_path_type(ty, seq!["String"@]) || is_optional_path_type(ty, seq!["String"@]) {
        assert(field_type_name(FieldType::String) == "String"@);
        law_field_type_from_ty_inverts_field_ty(FieldType::String, is_optional_path_type(ty, seq!["String"@]), ty);
    }
}

} // verus!
