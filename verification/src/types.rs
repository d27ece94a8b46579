use vstd::prelude::*;

verus! {

/// A Rust type, as the entity derive reads it from a field.
#[derive(Debug)]
pub enum TypeModel {
    /// A path type such as `u64`, `Option<u64>` or `sqlx::types::Decimal`,
    /// with the text of its tokens and its segments.
    Path { text: String, segments: Vec<PathSegmentModel> },
    /// Any other type, known by the text of its tokens.
    Other { text: String },
}

/// One segment of a path: a name and its arguments.
#[derive(Debug)]
pub struct PathSegmentModel {
    pub ident: String,
    pub arguments: PathArgumentsModel,
}

/// The arguments of a path segment.
#[derive(Debug)]
pub enum PathArgumentsModel {
    NoArguments,
    /// `<A, B>`.
    AngleBracketed(Vec<GenericArgumentModel>),
    /// `(A, B) -> C`.
    Parenthesized(Vec<TypeModel>, ReturnTypeModel),
}

/// One argument between angle brackets.
#[derive(Debug)]
pub enum GenericArgumentModel {
    Type(TypeModel),
    /// A lifetime, a constant or a binding, known by the text of its
    /// tokens.
    Other(String),
}

/// The output of a parenthesized path segment.
#[derive(Debug)]
pub enum ReturnTypeModel {
    Default,
    Type(Box<TypeModel>),
}

/// How a field type relates to a wanted type.
#[derive(Debug, Clone, Copy, Eq, PartialEq, Structural)]
pub enum TypeMatchResult {
    Match,
    Mismatch,
    InOption,
}

/// The text of the tokens of a type.
pub open spec fn type_text(t: TypeModel) -> Seq<char> {
    match t {
        TypeModel::Path { text, .. } => text@,
        TypeModel::Other { text } => text@,
    }
}

/// The text of the tokens of a generic argument.
pub open spec fn generic_argument_text(a: GenericArgumentModel) -> Seq<char> {
    match a {
        GenericArgumentModel::Type(t) => type_text(t),
        GenericArgumentModel::Other(text) => text@,
    }
}

/// Whether two types match: two paths match when they have as many
/// segments and the segments match one by one; any other pair matches
/// when the texts of their tokens are equal.
pub open spec fn types_match(a: TypeModel, b: TypeModel) -> bool
    decreases a,
{
    match (a, b) {
        (
            TypeModel::Path { segments: sa, .. },
            TypeModel::Path { segments: sb, .. },
        ) => sa@.len() == sb@.len() && segments_match(sa@, sb@),
        _ => type_text(a) == type_text(b),
    }
}

/// Whether two lists of segments of the same length match one by one.
pub open spec fn segments_match(sa: Seq<PathSegmentModel>, sb: Seq<PathSegmentModel>) -> bool
    decreases sa,
{
    if sa.len() == 0 || sb.len() != sa.len() {
        true
    } else {
        segments_match(sa.drop_last(), sb.drop_last()) && segment_match(sa.last(), sb.last())
    }
}

/// Whether two segments match: equal names and matching arguments.
pub open spec fn segment_match(a: PathSegmentModel, b: PathSegmentModel) -> bool
    decreases a,
{
    a.ident@ == b.ident@ && arguments_match(a.arguments, b.arguments)
}

/// Whether two argument lists of segments match. Lists of different
/// lengths are compared on the length of the shorter.
pub open spec fn arguments_match(a: PathArgumentsModel, b: PathArgumentsModel) -> bool
    decreases a,
{
    match (a, b) {
        (PathArgumentsModel::NoArguments, PathArgumentsModel::NoArguments) => true,
        (PathArgumentsModel::AngleBracketed(la), PathArgumentsModel::AngleBracketed(lb)) => {
            generic_arguments_match(la@, lb@)
        },
        (
            PathArgumentsModel::Parenthesized(ia, oa),
            PathArgumentsModel::Parenthesized(ib, ob),
        ) => inputs_match(ia@, ib@) && outputs_match(oa, ob),
        _ => false,
    }
}

/// The shorter of two lengths.
pub open spec fn min_len(a: nat, b: nat) -> nat {
    if a <= b {
        a
    } else {
        b
    }
}

/// Whether two lists of generic arguments match pairwise, on the length
/// of the shorter.
pub open spec fn generic_arguments_match(
    la: Seq<GenericArgumentModel>,
    lb: Seq<GenericArgumentModel>,
) -> bool
    decreases la,
{
    if la.len() == 0 || lb.len() == 0 {
        true
    } else {
        let n = min_len(la.len(), lb.len());
        generic_arguments_match(la.take(n - 1), lb.take(n - 1)) && generic_argument_match(
            la[n - 1],
            lb[n - 1],
        )
    }
}

/// Whether two generic arguments match: two types match as types, any
/// other pair by the texts of their tokens.
pub open spec fn generic_argument_match(a: GenericArgumentModel, b: GenericArgumentModel) -> bool
    decreases a,
{
    match (a, b) {
        (GenericArgumentModel::Type(ta), GenericArgumentModel::Type(tb)) => types_match(ta, tb),
        _ => generic_argument_text(a) == generic_argument_text(b),
    }
}

/// Whether two lists of input types match pairwise, on the length of the
/// shorter.
pub open spec fn inputs_match(la: Seq<TypeModel>, lb: Seq<TypeModel>) -> bool
    decreases la,
{
    if la.len() == 0 || lb.len() == 0 {
        true
    } else {
        let n = min_len(la.len(), lb.len());
        inputs_match(la.take(n - 1), lb.take(n - 1)) && types_match(la[n - 1], lb[n - 1])
    }
}

/// Whether two outputs match: both absent, or both types that match.
pub open spec fn outputs_match(a: ReturnTypeModel, b: ReturnTypeModel) -> bool
    decreases a,
{
    match (a, b) {
        (ReturnTypeModel::Default, ReturnTypeModel::Default) => true,
        (ReturnTypeModel::Type(ta), ReturnTypeModel::Type(tb)) => types_match(*ta, *tb),
        _ => false,
    }
}

/// The text of the tokens of a type.
pub fn type_text_of(t: &TypeModel) -> (s: &String)
    ensures
        s@ == type_text(*t),
{
    match t {
        TypeModel::Path { text, .. } => text,
        TypeModel::Other { text } => text,
    }
}

/// The text of the tokens of a generic argument.
pub fn generic_argument_text_of(a: &GenericArgumentModel) -> (s: &String)
    ensures
        s@ == generic_argument_text(*a),
{
    match a {
        GenericArgumentModel::Type(t) => type_text_of(t),
        GenericArgumentModel::Other(text) => text,
    }
}

/// Whether two types match (see `types_match`).
pub fn match_ty(a: &TypeModel, b: &TypeModel) -> (r: bool)
    ensures
        r == types_match(*a, *b),
    decreases a,
{
    match (a, b) {
        (TypeModel::Path { segments: sa, .. }, TypeModel::Path { segments: sb, .. }) => {
            if sa.len() != sb.len() {
                false
            } else {
                match_segments(sa, sb)
            }
        },
        _ => *type_text_of(a) == *type_text_of(b),
    }
}

/// Whether two lists of segments of the same length match one by one.
#[verifier::loop_isolation(false)]
fn match_segments(sa: &Vec<PathSegmentModel>, sb: &Vec<PathSegmentModel>) -> (r: bool)
    requires
        sa@.len() == sb@.len(),
    ensures
        r == segments_match(sa@, sb@),
    decreases sa,
{
    let n = sa.len();
    let mut ok = true;
    let mut i: usize = 0;
    while i < n
        invariant
            n == sa@.len(),
            n == sb@.len(),
            0 <= i <= n,
            ok == segments_match(sa@.take(i as int), sb@.take(i as int)),
        decreases n - i,
    {
        proof {
            assert(decreases_to!(*sa => sa@));
            assert(decreases_to!(sa@ => sa@[i as int]));
        }
        let m = match_segment(&sa[i], &sb[i]);
        proof {
            let ta = sa@.take(i + 1);
            let tb = sb@.take(i + 1);
            assert(ta.drop_last() =~= sa@.take(i as int));
            assert(tb.drop_last() =~= sb@.take(i as int));
            assert(ta.last() == sa@[i as int]);
            assert(tb.last() == sb@[i as int]);
        }
        ok = ok && m;
        i = i + 1;
    }
    assert(sa@.take(n as int) =~= sa@);
    assert(sb@.take(n as int) =~= sb@);
    ok
}

/// Whether two segments match.
fn match_segment(a: &PathSegmentModel, b: &PathSegmentModel) -> (r: bool)
    ensures
        r == segment_match(*a, *b),
    decreases a,
{
    if a.ident != b.ident {
        false
    } else {
        match_arguments(&a.arguments, &b.arguments)
    }
}

/// Whether the arguments of two segments match.
fn match_arguments(a: &PathArgumentsModel, b: &PathArgumentsModel) -> (r: bool)
    ensures
        r == arguments_match(*a, *b),
    decreases a,
{
    match (a, b) {
        (PathArgumentsModel::NoArguments, PathArgumentsModel::NoArguments) => true,
        (PathArgumentsModel::AngleBracketed(la), PathArgumentsModel::AngleBracketed(lb)) => {
            match_generic_arguments(la, lb)
        },
        (
            PathArgumentsModel::Parenthesized(ia, oa),
            PathArgumentsModel::Parenthesized(ib, ob),
        ) => {
            let inputs = match_inputs(ia, ib);
            inputs && match_outputs(oa, ob)
        },
        _ => false,
    }
}

/// Whether two lists of generic arguments match pairwise.
#[verifier::loop_isolation(false)]
fn match_generic_arguments(la: &Vec<GenericArgumentModel>, lb: &Vec<GenericArgumentModel>) -> (r:
    bool)
    ensures
        r == generic_arguments_match(la@, lb@),
    decreases la,
{
    let n = if la.len() <= lb.len() {
        la.len()
    } else {
        lb.len()
    };
    let mut ok = true;
    let mut i: usize = 0;
    while i < n
        invariant
            n == min_len(la@.len(), lb@.len()),
            0 <= i <= n,
            ok == generic_arguments_match(la@.take(i as int), lb@.take(i as int)),
        decreases n - i,
    {
        proof {
            assert(decreases_to!(*la => la@));
            assert(decreases_to!(la@ => la@[i as int]));
        }
        let m = match_generic_argument(&la[i], &lb[i]);
        proof {
            let ta = la@.take(i + 1);
            let tb = lb@.take(i + 1);
            assert(ta.take(i as int) =~= la@.take(i as int));
            assert(tb.take(i as int) =~= lb@.take(i as int));
            assert(ta[i as int] == la@[i as int]);
            assert(tb[i as int] == lb@[i as int]);
        }
        ok = ok && m;
        i = i + 1;
    }
    proof {
        if la@.len() > 0 && lb@.len() > 0 {
            assert(la@.take(n as int).take(n - 1) =~= la@.take(n - 1));
            assert(lb@.take(n as int).take(n - 1) =~= lb@.take(n - 1));
            assert(la@.take(n as int)[n - 1] == la@[n - 1]);
            assert(lb@.take(n as int)[n - 1] == lb@[n - 1]);
        }
    }
    ok
}

/// Whether two generic arguments match.
fn match_generic_argument(a: &GenericArgumentModel, b: &GenericArgumentModel) -> (r: bool)
    ensures
        r == generic_argument_match(*a, *b),
    decreases a,
{
    match (a, b) {
        (GenericArgumentModel::Type(ta), GenericArgumentModel::Type(tb)) => match_ty(ta, tb),
        _ => *generic_argument_text_of(a) == *generic_argument_text_of(b),
    }
}

/// Whether two lists of input types match pairwise.
#[verifier::loop_isolation(false)]
fn match_inputs(la: &Vec<TypeModel>, lb: &Vec<TypeModel>) -> (r: bool)
    ensures
        r == inputs_match(la@, lb@),
    decreases la,
{
    let n = if la.len() <= lb.len() {
        la.len()
    } else {
        lb.len()
    };
    let mut ok = true;
    let mut i: usize = 0;
    while i < n
        invariant
            n == min_len(la@.len(), lb@.len()),
            0 <= i <= n,
            ok == inputs_match(la@.take(i as int), lb@.take(i as int)),
        decreases n - i,
    {
        proof {
            assert(decreases_to!(*la => la@));
            assert(decreases_to!(la@ => la@[i as int]));
        }
        let m = match_ty(&la[i], &lb[i]);
        proof {
            let ta = la@.take(i + 1);
            let tb = lb@.take(i + 1);
            assert(ta.take(i as int) =~= la@.take(i as int));
            assert(tb.take(i as int) =~= lb@.take(i as int));
            assert(ta[i as int] == la@[i as int]);
            assert(tb[i as int] == lb@[i as int]);
        }
        ok = ok && m;
        i = i + 1;
    }
    proof {
        if la@.len() > 0 && lb@.len() > 0 {
            assert(la@.take(n as int).take(n - 1) =~= la@.take(n - 1));
            assert(lb@.take(n as int).take(n - 1) =~= lb@.take(n - 1));
            assert(la@.take(n as int)[n - 1] == la@[n - 1]);
            assert(lb@.take(n as int)[n - 1] == lb@[n - 1]);
        }
    }
    ok
}

/// Whether two outputs match.
fn match_outputs(a: &ReturnTypeModel, b: &ReturnTypeModel) -> (r: bool)
    ensures
        r == outputs_match(*a, *b),
    decreases a,
{
    match (a, b) {
        (ReturnTypeModel::Default, ReturnTypeModel::Default) => true,
        (ReturnTypeModel::Type(ta), ReturnTypeModel::Type(tb)) => match_ty(ta, tb),
        _ => false,
    }
}

/// Every type matches itself.
pub proof fn law_match_ty_reflexive(t: TypeModel)
    ensures
        types_match(t, t),
    decreases t,
{
    match t {
        TypeModel::Path { segments, .. } => lemma_segments_reflexive(segments@),
        TypeModel::Other { .. } => {},
    }
}

proof fn lemma_segments_reflexive(s: Seq<PathSegmentModel>)
    ensures
        segments_match(s, s),
    decreases s,
{
    if s.len() > 0 {
        lemma_segments_reflexive(s.drop_last());
        lemma_arguments_reflexive(s.last().arguments);
        assert(segment_match(s.last(), s.last()));
    }
}

proof fn lemma_arguments_reflexive(a: PathArgumentsModel)
    ensures
        arguments_match(a, a),
    decreases a,
{
    match a {
        PathArgumentsModel::NoArguments => {},
        PathArgumentsModel::AngleBracketed(l) => lemma_generic_arguments_reflexive(l@),
        PathArgumentsModel::Parenthesized(i, o) => {
            lemma_inputs_reflexive(i@);
            match o {
                ReturnTypeModel::Default => {},
                ReturnTypeModel::Type(t) => law_match_ty_reflexive(*t),
            }
        },
    }
}

proof fn lemma_generic_arguments_reflexive(l: Seq<GenericArgumentModel>)
    ensures
        generic_arguments_match(l, l),
    decreases l,
{
    if l.len() > 0 {
        let n = l.len();
        lemma_generic_arguments_reflexive(l.take(n - 1));
        match l[n - 1] {
            GenericArgumentModel::Type(t) => law_match_ty_reflexive(t),
            GenericArgumentModel::Other(_) => {},
        }
        assert(min_len(n, n) == n);
        assert(generic_argument_match(l[n - 1], l[n - 1]));
    }
}

proof fn lemma_inputs_reflexive(l: Seq<TypeModel>)
    ensures
        inputs_match(l, l),
    decreases l,
{
    if l.len() > 0 {
        let n = l.len();
        lemma_inputs_reflexive(l.take(n - 1));
        law_match_ty_reflexive(l[n - 1]);
    }
}

/// Whether two types match does not depend on their order.
pub proof fn law_match_ty_symmetric(a: TypeModel, b: TypeModel)
    ensures
        types_match(a, b) == types_match(b, a),
    decreases a,
{
    match (a, b) {
        (TypeModel::Path { segments: sa, .. }, TypeModel::Path { segments: sb, .. }) => {
            if sa@.len() == sb@.len() {
                lemma_segments_symmetric(sa@, sb@);
            }
        },
        _ => {},
    }
}

proof fn lemma_segments_symmetric(sa: Seq<PathSegmentModel>, sb: Seq<PathSegmentModel>)
    requires
        sa.len() == sb.len(),
    ensures
        segments_match(sa, sb) == segments_match(sb, sa),
    decreases sa,
{
    if sa.len() > 0 {
        lemma_segments_symmetric(sa.drop_last(), sb.drop_last());
        lemma_arguments_symmetric(sa.last().arguments, sb.last().arguments);
        assert(segment_match(sa.last(), sb.last()) == segment_match(sb.last(), sa.last()));
    }
}

proof fn lemma_arguments_symmetric(a: PathArgumentsModel, b: PathArgumentsModel)
    ensures
        arguments_match(a, b) == arguments_match(b, a),
    decreases a,
{
    match (a, b) {
        (PathArgumentsModel::AngleBracketed(la), PathArgumentsModel::AngleBracketed(lb)) => {
            lemma_generic_arguments_symmetric(la@, lb@);
        },
        (
            PathArgumentsModel::Parenthesized(ia, oa),
            PathArgumentsModel::Parenthesized(ib, ob),
        ) => {
            lemma_inputs_symmetric(ia@, ib@);
            match (oa, ob) {
                (ReturnTypeModel::Type(ta), ReturnTypeModel::Type(tb)) => {
                    law_match_ty_symmetric(*ta, *tb);
                },
                _ => {},
            }
        },
        _ => {},
    }
}

proof fn lemma_generic_arguments_symmetric(la: Seq<GenericArgumentModel>, lb: Seq<GenericArgumentModel>)
    ensures
        generic_arguments_match(la, lb) == generic_arguments_match(lb, la),
    decreases la,
{
    if la.len() > 0 && lb.len() > 0 {
        let n = min_len(la.len(), lb.len());
        assert(n == min_len(lb.len(), la.len()));
        lemma_generic_arguments_symmetric(la.take(n - 1), lb.take(n - 1));
        match (la[n - 1], lb[n - 1]) {
            (GenericArgumentModel::Type(ta), GenericArgumentModel::Type(tb)) => {
                law_match_ty_symmetric(ta, tb);
            },
            _ => {},
        }
        assert(generic_argument_match(la[n - 1], lb[n - 1]) == generic_argument_match(
            lb[n - 1],
            la[n - 1],
        ));
    }
}

proof fn lemma_inputs_symmetric(la: Seq<TypeModel>, lb: Seq<TypeModel>)
    ensures
        inputs_match(la, lb) == inputs_match(lb, la),
    decreases la,
{
    if la.len() > 0 && lb.len() > 0 {
        let n = min_len(la.len(), lb.len());
        assert(n == min_len(lb.len(), la.len()));
        lemma_inputs_symmetric(la.take(n - 1), lb.take(n - 1));
        law_match_ty_symmetric(la[n - 1], lb[n - 1]);
    }
}

} // verus!
