use vstd::prelude::*;

use crate::ident::{copy_ident, ident_segments, ident_text, Alias, Ident};
use crate::select::{
    order_items_args, order_items_parts, order_items_ready, order_items_to_sql,
    select_query_args, select_query_parts, select_query_ready, select_query_to_sql, OrderByItem,
    SelectQuery, copy_order_items, copy_select_query, bind_order_items, bind_select_query,
    order_items_aligned, select_query_aligned, order_items_text, order_items_display,
    order_items_displayable, select_query_text, select_query_display, select_query_displayable,
    order_items_are_ready, select_query_is_ready, order_items_equiv, select_query_equiv,
};
use crate::state::{
    group_render, join_parts, render, text, BindArgs, FmtResult, QueryBuildState, SqlPart, ToSql,
};
use crate::text::join_text;
use crate::value::{copy_value, copy_values, value_equiv, values_equiv, value_text, DatabaseValue};

verus! {

broadcast use group_render;

pub type ExprBox = Box<Expr>;

/// An SQL expression.
#[derive(Debug)]
pub enum Expr {
    Ident(Ident),
    Lit(DatabaseValue),
    FunctionCall(Box<FunctionCall>),
    Subquery(SelectQuery),
    BitInverse(ExprBox),
    BitXor(ExprBox, ExprBox),
    Mul(ExprBox, ExprBox),
    Div(ExprBox, ExprBox),
    Rem(ExprBox, ExprBox),
    Add(ExprBox, ExprBox),
    Sub(ExprBox, ExprBox),
    LeftShift(ExprBox, ExprBox),
    RightShift(ExprBox, ExprBox),
    BitAnd(ExprBox, ExprBox),
    BitOr(ExprBox, ExprBox),
    Bte(ExprBox, ExprBox),
    Lte(ExprBox, ExprBox),
    Neq(ExprBox, ExprBox),
    Bt(ExprBox, ExprBox),
    Lt(ExprBox, ExprBox),
    Eq(ExprBox, ExprBox),
    And(ExprBox, ExprBox),
    Or(ExprBox, ExprBox),
    Not(ExprBox),
    In(ExprBox, SelectQuery),
    InArr(ExprBox, Vec<DatabaseValue>),
    Exists(SelectQuery),
    NotExists(SelectQuery),
}

/// The aggregate functions.
#[derive(Clone, Copy, Debug, PartialEq, Eq, Structural)]
pub enum AggregateFunction {
    Average,
    Sum,
    BitAnd,
    BitOr,
    BitXor,
    Count,
    CountDistinct,
    GroupConcat,
    Max,
    Min,
}

/// The functions that compare a value with the rows of a subquery.
#[derive(Clone, Copy, Debug, PartialEq, Eq, Structural)]
pub enum SubqueryFunction {
    Any,
    All,
}

/// Any function this library knows.
#[derive(Clone, Copy, Debug, PartialEq, Eq, Structural)]
pub enum Function {
    Aggregate(AggregateFunction),
    Subquery(SubqueryFunction),
}

/// A call of a function.
#[derive(Debug)]
pub enum FunctionCall {
    Aggregate(AggregateFunctionCall),
    Subquery(SubqueryFunctionCall),
}

/// A call of an aggregate function.
#[derive(Debug)]
pub enum AggregateFunctionCall {
    Normal(NormalAggregateFunctionCall),
    GroupConcat(GroupConcatFunctionCall),
}

/// An aggregate function applied to one expression.
#[derive(Debug)]
pub struct NormalAggregateFunctionCall {
    pub function: AggregateFunction,
    pub param: Expr,
}

/// `GROUP_CONCAT` with its ordering and separator.
#[derive(Debug)]
pub struct GroupConcatFunctionCall {
    pub expr: Expr,
    pub order_by: Vec<OrderByItem>,
    pub separator: Option<String>,
}

/// `ANY` or `ALL` of a subquery.
#[derive(Debug)]
pub struct SubqueryFunctionCall {
    pub function: SubqueryFunction,
    pub subquery: SelectQuery,
}

/// `(` inner `)`.
pub open spec fn wrap_parts(inner: Seq<SqlPart>) -> Seq<SqlPart> {
    text("("@) + inner + text(")"@)
}

/// `(` left operator right `)`.
pub open spec fn binary_parts(l: Seq<SqlPart>, op: Seq<char>, r: Seq<SqlPart>) -> Seq<SqlPart> {
    text("("@) + l + text(op) + r + text(")"@)
}

/// `(` prefix inner `)`.
pub open spec fn prefixed_parts(prefix: Seq<char>, inner: Seq<SqlPart>) -> Seq<SqlPart> {
    text("("@) + text(prefix) + inner + text(")"@)
}

/// One placeholder per value, separated by `,` tokens.
pub open spec fn values_parts(values: Seq<DatabaseValue>) -> Seq<SqlPart> {
    join_parts(values.map_values(|v: DatabaseValue| seq![SqlPart::Param(v)]), ","@)
}

/// The parts an expression renders as.
pub open spec fn expr_parts(e: Expr) -> Seq<SqlPart>
    decreases e,
{
    match e {
        Expr::Ident(i) => text(ident_text(i)),
        Expr::Lit(v) => seq![SqlPart::Param(v)],
        Expr::FunctionCall(f) => function_call_parts(*f),
        Expr::Subquery(q) => wrap_parts(select_query_parts(q)),
        Expr::BitInverse(x) => prefixed_parts("~"@, expr_parts(*x)),
        Expr::BitXor(l, r) => binary_parts(expr_parts(*l), "^"@, expr_parts(*r)),
        Expr::Mul(l, r) => binary_parts(expr_parts(*l), "*"@, expr_parts(*r)),
        Expr::Div(l, r) => binary_parts(expr_parts(*l), "/"@, expr_parts(*r)),
        Expr::Rem(l, r) => binary_parts(expr_parts(*l), "%"@, expr_parts(*r)),
        Expr::Add(l, r) => binary_parts(expr_parts(*l), "+"@, expr_parts(*r)),
        Expr::Sub(l, r) => binary_parts(expr_parts(*l), "-"@, expr_parts(*r)),
        Expr::LeftShift(l, r) => binary_parts(expr_parts(*l), "<<"@, expr_parts(*r)),
        Expr::RightShift(l, r) => binary_parts(expr_parts(*l), ">>"@, expr_parts(*r)),
        Expr::BitAnd(l, r) => binary_parts(expr_parts(*l), "&"@, expr_parts(*r)),
        Expr::BitOr(l, r) => binary_parts(expr_parts(*l), "|"@, expr_parts(*r)),
        Expr::Bte(l, r) => binary_parts(expr_parts(*l), ">="@, expr_parts(*r)),
        Expr::Lte(l, r) => binary_parts(expr_parts(*l), "<="@, expr_parts(*r)),
        Expr::Neq(l, r) => binary_parts(expr_parts(*l), "!="@, expr_parts(*r)),
        Expr::Bt(l, r) => binary_parts(expr_parts(*l), ">"@, expr_parts(*r)),
        Expr::Lt(l, r) => binary_parts(expr_parts(*l), "<"@, expr_parts(*r)),
        Expr::Eq(l, r) => binary_parts(expr_parts(*l), "="@, expr_parts(*r)),
        Expr::And(l, r) => binary_parts(expr_parts(*l), "AND"@, expr_parts(*r)),
        Expr::Or(l, r) => binary_parts(expr_parts(*l), "OR"@, expr_parts(*r)),
        Expr::Not(x) => prefixed_parts("Not"@, expr_parts(*x)),
        Expr::In(x, q) => text("("@) + expr_parts(*x) + text("IN"@) + wrap_parts(
            select_query_parts(q),
        ) + text(")"@),
        Expr::InArr(x, a) => text("("@) + expr_parts(*x) + text("IN"@) + wrap_parts(
            values_parts(a@),
        ) + text(")"@),
        Expr::Exists(q) => prefixed_parts("EXISTS"@, wrap_parts(select_query_parts(q))),
        Expr::NotExists(q) => prefixed_parts("NOT EXISTS"@, wrap_parts(select_query_parts(q))),
    }
}

/// Whether an expression can be rendered into SQL: rendering panics on a
/// plain aggregate call of `Sum` or `GroupConcat`.
pub open spec fn expr_ready(e: Expr) -> bool
    decreases e,
{
    match e {
        Expr::Ident(_) => true,
        Expr::Lit(_) => true,
        Expr::FunctionCall(f) => function_call_ready(*f),
        Expr::Subquery(q) => select_query_ready(q),
        Expr::BitInverse(x) => expr_ready(*x),
        Expr::BitXor(l, r) => expr_ready(*l) && expr_ready(*r),
        Expr::Mul(l, r) => expr_ready(*l) && expr_ready(*r),
        Expr::Div(l, r) => expr_ready(*l) && expr_ready(*r),
        Expr::Rem(l, r) => expr_ready(*l) && expr_ready(*r),
        Expr::Add(l, r) => expr_ready(*l) && expr_ready(*r),
        Expr::Sub(l, r) => expr_ready(*l) && expr_ready(*r),
        Expr::LeftShift(l, r) => expr_ready(*l) && expr_ready(*r),
        Expr::RightShift(l, r) => expr_ready(*l) && expr_ready(*r),
        Expr::BitAnd(l, r) => expr_ready(*l) && expr_ready(*r),
        Expr::BitOr(l, r) => expr_ready(*l) && expr_ready(*r),
        Expr::Bte(l, r) => expr_ready(*l) && expr_ready(*r),
        Expr::Lte(l, r) => expr_ready(*l) && expr_ready(*r),
        Expr::Neq(l, r) => expr_ready(*l) && expr_ready(*r),
        Expr::Bt(l, r) => expr_ready(*l) && expr_ready(*r),
        Expr::Lt(l, r) => expr_ready(*l) && expr_ready(*r),
        Expr::Eq(l, r) => expr_ready(*l) && expr_ready(*r),
        Expr::And(l, r) => expr_ready(*l) && expr_ready(*r),
        Expr::Or(l, r) => expr_ready(*l) && expr_ready(*r),
        Expr::Not(x) => expr_ready(*x),
        Expr::In(x, q) => expr_ready(*x) && select_query_ready(q),
        Expr::InArr(x, _) => expr_ready(*x),
        Expr::Exists(q) => select_query_ready(q),
        Expr::NotExists(q) => select_query_ready(q),
    }
}

/// The values bound for an expression, in binding order.
pub open spec fn expr_args(e: Expr) -> Seq<DatabaseValue>
    decreases e,
{
    match e {
        Expr::Ident(_) => Seq::empty(),
        Expr::Lit(v) => seq![v],
        Expr::FunctionCall(f) => function_call_args(*f),
        Expr::Subquery(q) => select_query_args(q),
        Expr::BitInverse(x) => expr_args(*x),
        Expr::BitXor(l, r) => expr_args(*l) + expr_args(*r),
        Expr::Mul(l, r) => expr_args(*l) + expr_args(*r),
        Expr::Div(l, r) => expr_args(*l) + expr_args(*r),
        Expr::Rem(l, r) => expr_args(*l) + expr_args(*r),
        Expr::Add(l, r) => expr_args(*l) + expr_args(*r),
        Expr::Sub(l, r) => expr_args(*l) + expr_args(*r),
        Expr::LeftShift(l, r) => expr_args(*l) + expr_args(*r),
        Expr::RightShift(l, r) => expr_args(*l) + expr_args(*r),
        Expr::BitAnd(l, r) => expr_args(*l) + expr_args(*r),
        Expr::BitOr(l, r) => expr_args(*l) + expr_args(*r),
        Expr::Bte(l, r) => expr_args(*l) + expr_args(*r),
        Expr::Lte(l, r) => expr_args(*l) + expr_args(*r),
        Expr::Neq(l, r) => expr_args(*l) + expr_args(*r),
        Expr::Bt(l, r) => expr_args(*l) + expr_args(*r),
        Expr::Lt(l, r) => expr_args(*l) + expr_args(*r),
        Expr::Eq(l, r) => expr_args(*l) + expr_args(*r),
        Expr::And(l, r) => expr_args(*l) + expr_args(*r),
        Expr::Or(l, r) => expr_args(*l) + expr_args(*r),
        Expr::Not(x) => expr_args(*x),
        Expr::In(x, q) => expr_args(*x) + select_query_args(q),
        Expr::InArr(x, a) => expr_args(*x) + a@,
        Expr::Exists(q) => select_query_args(q),
        Expr::NotExists(q) => select_query_args(q),
    }
}

/// The name token of a plain aggregate function.
pub open spec fn aggregate_name(f: AggregateFunction) -> Seq<char> {
    match f {
        AggregateFunction::Average => "AVG"@,
        AggregateFunction::BitAnd => "BIT_AND"@,
        AggregateFunction::BitOr => "BIT_OR"@,
        AggregateFunction::BitXor => "BIT_XOR"@,
        AggregateFunction::Count => "COUNT"@,
        AggregateFunction::CountDistinct => "COUNT"@,
        AggregateFunction::Max => "Max"@,
        AggregateFunction::Min => "Min"@,
        AggregateFunction::Sum => Seq::empty(),
        AggregateFunction::GroupConcat => Seq::empty(),
    }
}

/// Whether a plain aggregate call of `f` can be rendered.
pub open spec fn aggregate_renderable(f: AggregateFunction) -> bool {
    f != AggregateFunction::Sum && f != AggregateFunction::GroupConcat
}

/// The parts of a plain aggregate call: its name, `(`, `DISTINCT` for a
/// distinct count, the argument, `)`.
pub open spec fn normal_call_parts(c: NormalAggregateFunctionCall) -> Seq<SqlPart>
    decreases c,
{
    text(aggregate_name(c.function)) + text("("@) + (if c.function
        == AggregateFunction::CountDistinct {
        text("DISTINCT"@)
    } else {
        Seq::empty()
    }) + expr_parts(c.param) + text(")"@)
}

/// The parts of a `GROUP_CONCAT` call.
pub open spec fn group_concat_parts(c: GroupConcatFunctionCall) -> Seq<SqlPart>
    decreases c,
{
    text("GROUP_CONCAT("@) + expr_parts(c.expr) + (if c.order_by@.len() > 0 {
        text("ORDER BY"@) + order_items_parts(c.order_by@)
    } else {
        Seq::empty()
    }) + (match c.separator {
        Some(s) => text("SEPARATOR "@) + text(s@),
        None => Seq::empty(),
    }) + text(")"@)
}

/// The name token of a subquery function.
pub open spec fn subquery_function_name(f: SubqueryFunction) -> Seq<char> {
    match f {
        SubqueryFunction::Any => "ANY"@,
        SubqueryFunction::All => "ALL"@,
    }
}

/// The parts of a subquery function call.
pub open spec fn subquery_call_parts(c: SubqueryFunctionCall) -> Seq<SqlPart>
    decreases c,
{
    text(subquery_function_name(c.function)) + wrap_parts(select_query_parts(c.subquery))
}

/// The parts a function call renders as.
pub open spec fn function_call_parts(f: FunctionCall) -> Seq<SqlPart>
    decreases f,
{
    match f {
        FunctionCall::Aggregate(AggregateFunctionCall::Normal(n)) => normal_call_parts(n),
        FunctionCall::Aggregate(AggregateFunctionCall::GroupConcat(g)) => group_concat_parts(g),
        FunctionCall::Subquery(s) => subquery_call_parts(s),
    }
}

/// Whether a function call can be rendered.
pub open spec fn function_call_ready(f: FunctionCall) -> bool
    decreases f,
{
    match f {
        FunctionCall::Aggregate(AggregateFunctionCall::Normal(n)) => aggregate_renderable(
            n.function,
        ) && expr_ready(n.param),
        FunctionCall::Aggregate(AggregateFunctionCall::GroupConcat(g)) => expr_ready(g.expr)
            && order_items_ready(g.order_by@),
        FunctionCall::Subquery(s) => select_query_ready(s.subquery),
    }
}

/// The values bound for a function call, in binding order.
pub open spec fn function_call_args(f: FunctionCall) -> Seq<DatabaseValue>
    decreases f,
{
    match f {
        FunctionCall::Aggregate(AggregateFunctionCall::Normal(n)) => expr_args(n.param),
        FunctionCall::Aggregate(AggregateFunctionCall::GroupConcat(g)) => expr_args(g.expr)
            + order_items_args(g.order_by@),
        FunctionCall::Subquery(s) => select_query_args(s.subquery),
    }
}

/// The parts of a list of expressions, separated by `sep` tokens.
pub open spec fn exprs_parts(items: Seq<Expr>, sep: Seq<char>) -> Seq<SqlPart>
    decreases items,
{
    if items.len() == 0 {
        Seq::empty()
    } else if items.len() == 1 {
        expr_parts(items[0])
    } else {
        exprs_parts(items.drop_last(), sep) + text(sep) + expr_parts(items.last())
    }
}

/// Whether every expression of a list can be rendered.
pub open spec fn exprs_ready(items: Seq<Expr>) -> bool
    decreases items,
{
    forall|i: int| 0 <= i < items.len() ==> expr_ready(#[trigger] items[i])
}

/// The values bound for a list of expressions, in binding order.
pub open spec fn exprs_args(items: Seq<Expr>) -> Seq<DatabaseValue>
    decreases items,
{
    if items.len() == 0 {
        Seq::empty()
    } else {
        exprs_args(items.drop_last()) + expr_args(items.last())
    }
}

/// Appends the tokens of every expression of `items`, with one `sep`
/// token between neighbours.
#[verifier::loop_isolation(false)]
pub fn exprs_to_sql(items: &Vec<Expr>, sep: &str, state: &mut QueryBuildState) -> (r: FmtResult)
    requires
        exprs_ready(items@),
    ensures
        final(state)@ == old(state)@ + render(exprs_parts(items@, sep@)),
        r is Ok,
    decreases items,
{
    let n = items.len();
    let mut i: usize = 0;
    while i < n
        invariant
            n == items@.len(),
            0 <= i <= n,
            state@ == old(state)@ + render(exprs_parts(items@.take(i as int), sep@)),
        decreases n - i,
    {
        let ghost before = state@;
        if i != 0 {
            state.write_str(sep)?;
        }
        proof {
            assert(expr_ready(items@[i as int]));
            assert(decreases_to!(*items => items@));
            assert(decreases_to!(items@ => items@[i as int]));
        }
        expr_to_sql(&items[i], state)?;
        proof {
            let t = items@.take(i + 1);
            assert(t.drop_last() =~= items@.take(i as int));
            assert(t.last() == items@[i as int]);
            if i == 0 {
                assert(exprs_parts(t, sep@) == expr_parts(items@[0]));
            }
            assert(state@ =~= old(state)@ + render(exprs_parts(t, sep@)));
        }
        i = i + 1;
    }
    assert(items@.take(n as int) =~= items@);
    Ok(())
}

/// Whether binding the values of `e` follows its placeholders: no
/// grouped source inside it has `HAVING` values without grouping keys
/// (rendering leaves such conditions out, binding does not).
pub open spec fn expr_aligned(e: Expr) -> bool
    decreases e,
{
    match e {
        Expr::Ident(_) => true,
        Expr::Lit(_) => true,
        Expr::FunctionCall(f) => function_call_aligned(*f),
        Expr::Subquery(q) => select_query_aligned(q),
        Expr::BitInverse(x) => expr_aligned(*x),
        Expr::BitXor(l, r) => expr_aligned(*l) && expr_aligned(*r),
        Expr::Mul(l, r) => expr_aligned(*l) && expr_aligned(*r),
        Expr::Div(l, r) => expr_aligned(*l) && expr_aligned(*r),
        Expr::Rem(l, r) => expr_aligned(*l) && expr_aligned(*r),
        Expr::Add(l, r) => expr_aligned(*l) && expr_aligned(*r),
        Expr::Sub(l, r) => expr_aligned(*l) && expr_aligned(*r),
        Expr::LeftShift(l, r) => expr_aligned(*l) && expr_aligned(*r),
        Expr::RightShift(l, r) => expr_aligned(*l) && expr_aligned(*r),
        Expr::BitAnd(l, r) => expr_aligned(*l) && expr_aligned(*r),
        Expr::BitOr(l, r) => expr_aligned(*l) && expr_aligned(*r),
        Expr::Bte(l, r) => expr_aligned(*l) && expr_aligned(*r),
        Expr::Lte(l, r) => expr_aligned(*l) && expr_aligned(*r),
        Expr::Neq(l, r) => expr_aligned(*l) && expr_aligned(*r),
        Expr::Bt(l, r) => expr_aligned(*l) && expr_aligned(*r),
        Expr::Lt(l, r) => expr_aligned(*l) && expr_aligned(*r),
        Expr::Eq(l, r) => expr_aligned(*l) && expr_aligned(*r),
        Expr::And(l, r) => expr_aligned(*l) && expr_aligned(*r),
        Expr::Or(l, r) => expr_aligned(*l) && expr_aligned(*r),
        Expr::Not(x) => expr_aligned(*x),
        Expr::In(x, q) => expr_aligned(*x) && select_query_aligned(q),
        Expr::InArr(x, _) => expr_aligned(*x),
        Expr::Exists(q) => select_query_aligned(q),
        Expr::NotExists(q) => select_query_aligned(q),
    }
}

/// Whether every expression of a list is aligned.
pub open spec fn exprs_aligned(items: Seq<Expr>) -> bool
    decreases items,
{
    forall|i: int| 0 <= i < items.len() ==> expr_aligned(#[trigger] items[i])
}

/// Whether a function call is aligned.
pub open spec fn function_call_aligned(f: FunctionCall) -> bool
    decreases f,
{
    match f {
        FunctionCall::Aggregate(AggregateFunctionCall::Normal(n)) => expr_aligned(n.param),
        FunctionCall::Aggregate(AggregateFunctionCall::GroupConcat(g)) => expr_aligned(g.expr)
            && order_items_aligned(g.order_by@),
        FunctionCall::Subquery(s) => select_query_aligned(s.subquery),
    }
}

/// Appends the tokens of `e`.
#[verifier::loop_isolation(false)]
#[verifier::spinoff_prover]
#[verifier::rlimit(100)]
pub fn expr_to_sql(e: &Expr, state: &mut QueryBuildState) -> (r: FmtResult)
    requires
        expr_ready(*e),
    ensures
        final(state)@ == old(state)@ + render(expr_parts(*e)),
        r is Ok,
    decreases e,
{
    match e {
        Expr::Ident(i) => {
            i.to_sql(state)?;
            assert(state@ =~= old(state)@ + render(expr_parts(*e)));
        },
        Expr::Lit(_) => {
            state.append_param()?;
            assert(state@ =~= old(state)@ + render(expr_parts(*e)));
        },
        Expr::FunctionCall(f) => {
            function_call_to_sql(f, state)?;
            assert(state@ =~= old(state)@ + render(expr_parts(*e)));
        },
        Expr::Subquery(q) => {
            state.write_str("(")?;
            select_query_to_sql(q, state)?;
            state.write_str(")")?;
            assert(state@ =~= old(state)@ + render(expr_parts(*e)));
        },
        Expr::BitInverse(x) => {
            state.write_str("(")?;
            state.write_str("~")?;
            expr_to_sql(x, state)?;
            state.write_str(")")?;
            assert(state@ =~= old(state)@ + render(expr_parts(*e)));
        },
        Expr::BitXor(l, rhs) => {
            state.write_str("(")?;
            expr_to_sql(l, state)?;
            state.write_str("^")?;
            expr_to_sql(rhs, state)?;
            state.write_str(")")?;
            assert(state@ =~= old(state)@ + render(expr_parts(*e)));
        },
        Expr::Mul(l, rhs) => {
            state.write_str("(")?;
            expr_to_sql(l, state)?;
            state.write_str("*")?;
            expr_to_sql(rhs, state)?;
            state.write_str(")")?;
            assert(state@ =~= old(state)@ + render(expr_parts(*e)));
        },
        Expr::Div(l, rhs) => {
            state.write_str("(")?;
            expr_to_sql(l, state)?;
            state.write_str("/")?;
            expr_to_sql(rhs, state)?;
            state.write_str(")")?;
            assert(state@ =~= old(state)@ + render(expr_parts(*e)));
        },
        Expr::Rem(l, rhs) => {
            state.write_str("(")?;
            expr_to_sql(l, state)?;
            state.write_str("%")?;
            expr_to_sql(rhs, state)?;
            state.write_str(")")?;
            assert(state@ =~= old(state)@ + render(expr_parts(*e)));
        },
        Expr::Add(l, rhs) => {
            state.write_str("(")?;
            expr_to_sql(l, state)?;
            state.write_str("+")?;
            expr_to_sql(rhs, state)?;
            state.write_str(")")?;
            assert(state@ =~= old(state)@ + render(expr_parts(*e)));
        },
        Expr::Sub(l, rhs) => {
            state.write_str("(")?;
            expr_to_sql(l, state)?;
            state.write_str("-")?;
            expr_to_sql(rhs, state)?;
            state.write_str(")")?;
            assert(state@ =~= old(state)@ + render(expr_parts(*e)));
        },
        Expr::LeftShift(l, rhs) => {
            state.write_str("(")?;
            expr_to_sql(l, state)?;
            state.write_str("<<")?;
            expr_to_sql(rhs, state)?;
            state.write_str(")")?;
            assert(state@ =~= old(state)@ + render(expr_parts(*e)));
        },
        Expr::RightShift(l, rhs) => {
            state.write_str("(")?;
            expr_to_sql(l, state)?;
            state.write_str(">>")?;
            expr_to_sql(rhs, state)?;
            state.write_str(")")?;
            assert(state@ =~= old(state)@ + render(expr_parts(*e)));
        },
        Expr::BitAnd(l, rhs) => {
            state.write_str("(")?;
            expr_to_sql(l, state)?;
            state.write_str("&")?;
            expr_to_sql(rhs, state)?;
            state.write_str(")")?;
            assert(state@ =~= old(state)@ + render(expr_parts(*e)));
        },
        Expr::BitOr(l, rhs) => {
            state.write_str("(")?;
            expr_to_sql(l, state)?;
            state.write_str("|")?;
            expr_to_sql(rhs, state)?;
            state.write_str(")")?;
            assert(state@ =~= old(state)@ + render(expr_parts(*e)));
        },
        Expr::Bte(l, rhs) => {
            state.write_str("(")?;
            expr_to_sql(l, state)?;
            state.write_str(">=")?;
            expr_to_sql(rhs, state)?;
            state.write_str(")")?;
            assert(state@ =~= old(state)@ + render(expr_parts(*e)));
        },
        Expr::Lte(l, rhs) => {
            state.write_str("(")?;
            expr_to_sql(l, state)?;
            state.write_str("<=")?;
            expr_to_sql(rhs, state)?;
            state.write_str(")")?;
            assert(state@ =~= old(state)@ + render(expr_parts(*e)));
        },
        Expr::Neq(l, rhs) => {
            state.write_str("(")?;
            expr_to_sql(l, state)?;
            state.write_str("!=")?;
            expr_to_sql(rhs, state)?;
            state.write_str(")")?;
            assert(state@ =~= old(state)@ + render(expr_parts(*e)));
        },
        Expr::Bt(l, rhs) => {
            state.write_str("(")?;
            expr_to_sql(l, state)?;
            state.write_str(">")?;
            expr_to_sql(rhs, state)?;
            state.write_str(")")?;
            assert(state@ =~= old(state)@ + render(expr_parts(*e)));
        },
        Expr::Lt(l, rhs) => {
            state.write_str("(")?;
            expr_to_sql(l, state)?;
            state.write_str("<")?;
            expr_to_sql(rhs, state)?;
            state.write_str(")")?;
            assert(state@ =~= old(state)@ + render(expr_parts(*e)));
        },
        Expr::Eq(l, rhs) => {
            state.write_str("(")?;
            expr_to_sql(l, state)?;
            state.write_str("=")?;
            expr_to_sql(rhs, state)?;
            state.write_str(")")?;
            assert(state@ =~= old(state)@ + render(expr_parts(*e)));
        },
        Expr::And(l, rhs) => {
            state.write_str("(")?;
            expr_to_sql(l, state)?;
            state.write_str("AND")?;
            expr_to_sql(rhs, state)?;
            state.write_str(")")?;
            assert(state@ =~= old(state)@ + render(expr_parts(*e)));
        },
        Expr::Or(l, rhs) => {
            state.write_str("(")?;
            expr_to_sql(l, state)?;
            state.write_str("OR")?;
            expr_to_sql(rhs, state)?;
            state.write_str(")")?;
            assert(state@ =~= old(state)@ + render(expr_parts(*e)));
        },
        Expr::Not(x) => {
            state.write_str("(")?;
            state.write_str("Not")?;
            expr_to_sql(x, state)?;
            state.write_str(")")?;
            assert(state@ =~= old(state)@ + render(expr_parts(*e)));
        },
        Expr::In(x, q) => {
            state.write_str("(")?;
            expr_to_sql(x, state)?;
            state.write_str("IN")?;
            state.write_str("(")?;
            select_query_to_sql(q, state)?;
            state.write_str(")")?;
            state.write_str(")")?;
            assert(state@ =~= old(state)@ + render(expr_parts(*e)));
        },
        Expr::InArr(x, a) => {
            state.write_str("(")?;
            expr_to_sql(x, state)?;
            state.write_str("IN")?;
            state.write_str("(")?;
            proof {
                assert forall|i: int| 0 <= i < a@.len() implies (#[trigger] a@[i]).sql_ready() by {}
                assert(crate::state::parts_of_items(a@) =~= a@.map_values(
                    |v: DatabaseValue| seq![SqlPart::Param(v)],
                ));
            }
            state.join_with(a.as_slice(), ",")?;
            state.write_str(")")?;
            state.write_str(")")?;
            assert(state@ =~= old(state)@ + render(expr_parts(*e)));
        },
        Expr::Exists(q) => {
            state.write_str("(")?;
            state.write_str("EXISTS")?;
            state.write_str("(")?;
            select_query_to_sql(q, state)?;
            state.write_str(")")?;
            state.write_str(")")?;
            assert(state@ =~= old(state)@ + render(expr_parts(*e)));
        },
        Expr::NotExists(q) => {
            state.write_str("(")?;
            state.write_str("NOT EXISTS")?;
            state.write_str("(")?;
            select_query_to_sql(q, state)?;
            state.write_str(")")?;
            state.write_str(")")?;
            assert(state@ =~= old(state)@ + render(expr_parts(*e)));
        },
    }
    Ok(())
}

/// Appends the tokens of a function call.
#[verifier::loop_isolation(false)]
pub fn function_call_to_sql(f: &FunctionCall, state: &mut QueryBuildState) -> (r: FmtResult)
    requires
        function_call_ready(*f),
    ensures
        final(state)@ == old(state)@ + render(function_call_parts(*f)),
        r is Ok,
    decreases f,
{
    match f {
        FunctionCall::Aggregate(AggregateFunctionCall::Normal(n)) => {
            convert_normal_aggregate_fn_call(n, state)?;
        },
        FunctionCall::Aggregate(AggregateFunctionCall::GroupConcat(g)) => {
            convert_group_concat(g, state)?;
        },
        FunctionCall::Subquery(s) => {
            convert_subquery_fn(s, state)?;
        },
    }
    Ok(())
}

/// Appends the tokens of a plain aggregate call (MySQL dialect).
pub fn convert_normal_aggregate_fn_call(
    fn_call: &NormalAggregateFunctionCall,
    state: &mut QueryBuildState,
) -> (r: FmtResult)
    requires
        aggregate_renderable(fn_call.function),
        expr_ready(fn_call.param),
    ensures
        final(state)@ == old(state)@ + render(normal_call_parts(*fn_call)),
        r is Ok,
    decreases fn_call,
{
    match fn_call.function {
        AggregateFunction::Average => state.write_str("AVG"),
        AggregateFunction::BitAnd => state.write_str("BIT_AND"),
        AggregateFunction::BitOr => state.write_str("BIT_OR"),
        AggregateFunction::BitXor => state.write_str("BIT_XOR"),
        AggregateFunction::Count | AggregateFunction::CountDistinct => state.write_str("COUNT"),
        AggregateFunction::Max => state.write_str("Max"),
        AggregateFunction::Min => state.write_str("Min"),
        AggregateFunction::Sum | AggregateFunction::GroupConcat => state.write_str(""),
    }?;
    state.write_str("(")?;
    if let AggregateFunction::CountDistinct = fn_call.function {
        state.write_str("DISTINCT")?;
    }
    expr_to_sql(&fn_call.param, state)?;
    state.write_str(")")?;
    assert(state@ =~= old(state)@ + render(normal_call_parts(*fn_call)));
    Ok(())
}

/// Appends the tokens of a `GROUP_CONCAT` call (MySQL dialect).
pub fn convert_group_concat(fn_call: &GroupConcatFunctionCall, state: &mut QueryBuildState) -> (r:
    FmtResult)
    requires
        expr_ready(fn_call.expr),
        order_items_ready(fn_call.order_by@),
    ensures
        final(state)@ == old(state)@ + render(group_concat_parts(*fn_call)),
        r is Ok,
    decreases fn_call,
{
    state.write_str("GROUP_CONCAT(")?;
    expr_to_sql(&fn_call.expr, state)?;
    let ghost p1 = text("GROUP_CONCAT("@) + expr_parts(fn_call.expr);
    assert(state@ =~= old(state)@ + render(p1));
    if fn_call.order_by.len() > 0 {
        state.write_str("ORDER BY")?;
        order_items_to_sql(&fn_call.order_by, state)?;
    }
    let ghost p2 = p1 + (if fn_call.order_by@.len() > 0 {
        text("ORDER BY"@) + order_items_parts(fn_call.order_by@)
    } else {
        Seq::empty()
    });
    assert(state@ =~= old(state)@ + render(p2));
    if let Some(separator) = &fn_call.separator {
        state.write_str("SEPARATOR ")?;
        state.write_str(separator.as_str())?;
    }
    let ghost p3 = p2 + (match &fn_call.separator {
        Some(s) => text("SEPARATOR "@) + text(s@),
        None => Seq::empty(),
    });
    assert(state@ =~= old(state)@ + render(p3));
    state.write_str(")")?;
    assert(group_concat_parts(*fn_call) == p3 + text(")"@));
    assert(state@ =~= old(state)@ + render(group_concat_parts(*fn_call)));
    Ok(())
}

/// Appends the tokens of an `ANY` or `ALL` call (MySQL dialect).
pub fn convert_subquery_fn(fn_call: &SubqueryFunctionCall, state: &mut QueryBuildState) -> (r:
    FmtResult)
    requires
        select_query_ready(fn_call.subquery),
    ensures
        final(state)@ == old(state)@ + render(subquery_call_parts(*fn_call)),
        r is Ok,
    decreases fn_call,
{
    match fn_call.function {
        SubqueryFunction::Any => state.write_str("ANY"),
        SubqueryFunction::All => state.write_str("ALL"),
    }?;
    state.write_str("(")?;
    select_query_to_sql(&fn_call.subquery, state)?;
    state.write_str(")")?;
    assert(state@ =~= old(state)@ + render(subquery_call_parts(*fn_call)));
    Ok(())
}

impl ToSql for Expr {
    open spec fn sql_ready(&self) -> bool {
        expr_ready(*self)
    }

    open spec fn sql_parts(&self) -> Seq<SqlPart> {
        expr_parts(*self)
    }

    fn to_sql(&self, state: &mut QueryBuildState) -> (r: FmtResult) {
        expr_to_sql(self, state)
    }

    fn is_sql_ready(&self) -> (r: bool) {
        expr_is_ready(self)
    }
}

impl ToSql for FunctionCall {
    open spec fn sql_ready(&self) -> bool {
        function_call_ready(*self)
    }

    open spec fn sql_parts(&self) -> Seq<SqlPart> {
        function_call_parts(*self)
    }

    fn to_sql(&self, state: &mut QueryBuildState) -> (r: FmtResult) {
        function_call_to_sql(self, state)
    }

    fn is_sql_ready(&self) -> (r: bool) {
        function_call_is_ready(self)
    }
}

impl ToSql for DatabaseValue {
    open spec fn sql_ready(&self) -> bool {
        true
    }

    open spec fn sql_parts(&self) -> Seq<SqlPart> {
        seq![SqlPart::Param(*self)]
    }

    /// A value renders as one placeholder.
    fn to_sql(&self, state: &mut QueryBuildState) -> (r: FmtResult) {
        state.append_param()
    }

    fn is_sql_ready(&self) -> (r: bool) {
        true
    }
}


/// Whether `b` is a copy of `a`: the same tree, node by node, with equal
/// identifiers, names and limits, and values that hold the same contents.
pub open spec fn expr_equiv(a: Expr, b: Expr) -> bool
    decreases a,
{
    match a {
        Expr::Ident(x) => b matches Expr::Ident(y) && x.seg@ == y.seg@,
        Expr::Lit(x) => b matches Expr::Lit(y) && value_equiv(x, y),
        Expr::FunctionCall(x) => b matches Expr::FunctionCall(y) && function_call_equiv(*x, *y),
        Expr::Subquery(x) => b matches Expr::Subquery(y) && select_query_equiv(x, y),
        Expr::BitInverse(x) => b matches Expr::BitInverse(y) && expr_equiv(*x, *y),
        Expr::BitXor(l, r) => b matches Expr::BitXor(l2, r2) && expr_equiv(*l, *l2) && expr_equiv(
            *r,
            *r2,
        ),
        Expr::Mul(l, r) => b matches Expr::Mul(l2, r2) && expr_equiv(*l, *l2) && expr_equiv(
            *r,
            *r2,
        ),
        Expr::Div(l, r) => b matches Expr::Div(l2, r2) && expr_equiv(*l, *l2) && expr_equiv(
            *r,
            *r2,
        ),
        Expr::Rem(l, r) => b matches Expr::Rem(l2, r2) && expr_equiv(*l, *l2) && expr_equiv(
            *r,
            *r2,
        ),
        Expr::Add(l, r) => b matches Expr::Add(l2, r2) && expr_equiv(*l, *l2) && expr_equiv(
            *r,
            *r2,
        ),
        Expr::Sub(l, r) => b matches Expr::Sub(l2, r2) && expr_equiv(*l, *l2) && expr_equiv(
            *r,
            *r2,
        ),
        Expr::LeftShift(l, r) => b matches Expr::LeftShift(l2, r2) && expr_equiv(*l, *l2) && expr_equiv(
            *r,
            *r2,
        ),
        Expr::RightShift(l, r) => b matches Expr::RightShift(l2, r2) && expr_equiv(*l, *l2) && expr_equiv(
            *r,
            *r2,
        ),
        Expr::BitAnd(l, r) => b matches Expr::BitAnd(l2, r2) && expr_equiv(*l, *l2) && expr_equiv(
            *r,
            *r2,
        ),
        Expr::BitOr(l, r) => b matches Expr::BitOr(l2, r2) && expr_equiv(*l, *l2) && expr_equiv(
            *r,
            *r2,
        ),
        Expr::Bte(l, r) => b matches Expr::Bte(l2, r2) && expr_equiv(*l, *l2) && expr_equiv(
            *r,
            *r2,
        ),
        Expr::Lte(l, r) => b matches Expr::Lte(l2, r2) && expr_equiv(*l, *l2) && expr_equiv(
            *r,
            *r2,
        ),
        Expr::Neq(l, r) => b matches Expr::Neq(l2, r2) && expr_equiv(*l, *l2) && expr_equiv(
            *r,
            *r2,
        ),
        Expr::Bt(l, r) => b matches Expr::Bt(l2, r2) && expr_equiv(*l, *l2) && expr_equiv(
            *r,
            *r2,
        ),
        Expr::Lt(l, r) => b matches Expr::Lt(l2, r2) && expr_equiv(*l, *l2) && expr_equiv(
            *r,
            *r2,
        ),
        Expr::Eq(l, r) => b matches Expr::Eq(l2, r2) && expr_equiv(*l, *l2) && expr_equiv(
            *r,
            *r2,
        ),
        Expr::And(l, r) => b matches Expr::And(l2, r2) && expr_equiv(*l, *l2) && expr_equiv(
            *r,
            *r2,
        ),
        Expr::Or(l, r) => b matches Expr::Or(l2, r2) && expr_equiv(*l, *l2) && expr_equiv(
            *r,
            *r2,
        ),
        Expr::Not(x) => b matches Expr::Not(y) && expr_equiv(*x, *y),
        Expr::In(x, q) => b matches Expr::In(y, q2) && expr_equiv(*x, *y) && select_query_equiv(
            q,
            q2,
        ),
        Expr::InArr(x, a) => b matches Expr::InArr(y, a2) && expr_equiv(*x, *y) && values_equiv(
            a@,
            a2@,
        ),
        Expr::Exists(q) => b matches Expr::Exists(q2) && select_query_equiv(q, q2),
        Expr::NotExists(q) => b matches Expr::NotExists(q2) && select_query_equiv(q, q2),
    }
}

/// Whether `b` is a copy of `a`, expression by expression.
pub open spec fn exprs_equiv(a: Seq<Expr>, b: Seq<Expr>) -> bool
    decreases a,
{
    a.len() == b.len() && forall|i: int| 0 <= i < a.len() ==> expr_equiv(#[trigger] a[i], b[i])
}

/// Whether `b` is a copy of the function call `a`.
pub open spec fn function_call_equiv(a: FunctionCall, b: FunctionCall) -> bool
    decreases a,
{
    match a {
        FunctionCall::Aggregate(AggregateFunctionCall::Normal(n)) => b matches FunctionCall::Aggregate(
            AggregateFunctionCall::Normal(m),
        ) && n.function == m.function && expr_equiv(n.param, m.param),
        FunctionCall::Aggregate(AggregateFunctionCall::GroupConcat(g)) => b matches FunctionCall::Aggregate(
            AggregateFunctionCall::GroupConcat(h),
        ) && expr_equiv(g.expr, h.expr) && order_items_equiv(g.order_by@, h.order_by@)
            && g.separator == h.separator,
        FunctionCall::Subquery(c) => b matches FunctionCall::Subquery(d) && c.function == d.function
            && select_query_equiv(c.subquery, d.subquery),
    }
}

/// A deep copy of an expression.
pub(crate) fn copy_expr(e: &Expr) -> (r: Expr)
    ensures
        expr_equiv(*e, r),
    decreases e,
{
    match e {
        Expr::Ident(i) => Expr::Ident(copy_ident(i)),
        Expr::Lit(v) => Expr::Lit(copy_value(v)),
        Expr::FunctionCall(f) => Expr::FunctionCall(Box::new(copy_function_call(f))),
        Expr::Subquery(q) => Expr::Subquery(copy_select_query(q)),
        Expr::BitInverse(x) => Expr::BitInverse(Box::new(copy_expr(x))),
        Expr::BitXor(l, r) => Expr::BitXor(Box::new(copy_expr(l)), Box::new(copy_expr(r))),
        Expr::Mul(l, r) => Expr::Mul(Box::new(copy_expr(l)), Box::new(copy_expr(r))),
        Expr::Div(l, r) => Expr::Div(Box::new(copy_expr(l)), Box::new(copy_expr(r))),
        Expr::Rem(l, r) => Expr::Rem(Box::new(copy_expr(l)), Box::new(copy_expr(r))),
        Expr::Add(l, r) => Expr::Add(Box::new(copy_expr(l)), Box::new(copy_expr(r))),
        Expr::Sub(l, r) => Expr::Sub(Box::new(copy_expr(l)), Box::new(copy_expr(r))),
        Expr::LeftShift(l, r) => Expr::LeftShift(Box::new(copy_expr(l)), Box::new(copy_expr(r))),
        Expr::RightShift(l, r) => Expr::RightShift(Box::new(copy_expr(l)), Box::new(copy_expr(r))),
        Expr::BitAnd(l, r) => Expr::BitAnd(Box::new(copy_expr(l)), Box::new(copy_expr(r))),
        Expr::BitOr(l, r) => Expr::BitOr(Box::new(copy_expr(l)), Box::new(copy_expr(r))),
        Expr::Bte(l, r) => Expr::Bte(Box::new(copy_expr(l)), Box::new(copy_expr(r))),
        Expr::Lte(l, r) => Expr::Lte(Box::new(copy_expr(l)), Box::new(copy_expr(r))),
        Expr::Neq(l, r) => Expr::Neq(Box::new(copy_expr(l)), Box::new(copy_expr(r))),
        Expr::Bt(l, r) => Expr::Bt(Box::new(copy_expr(l)), Box::new(copy_expr(r))),
        Expr::Lt(l, r) => Expr::Lt(Box::new(copy_expr(l)), Box::new(copy_expr(r))),
        Expr::Eq(l, r) => Expr::Eq(Box::new(copy_expr(l)), Box::new(copy_expr(r))),
        Expr::And(l, r) => Expr::And(Box::new(copy_expr(l)), Box::new(copy_expr(r))),
        Expr::Or(l, r) => Expr::Or(Box::new(copy_expr(l)), Box::new(copy_expr(r))),
        Expr::Not(x) => Expr::Not(Box::new(copy_expr(x))),
        Expr::In(x, q) => Expr::In(Box::new(copy_expr(x)), copy_select_query(q)),
        Expr::InArr(x, a) => Expr::InArr(Box::new(copy_expr(x)), copy_values(a)),
        Expr::Exists(q) => Expr::Exists(copy_select_query(q)),
        Expr::NotExists(q) => Expr::NotExists(copy_select_query(q)),
    }
}

/// A deep copy of a list of expressions.
#[verifier::loop_isolation(false)]
pub(crate) fn copy_exprs(items: &Vec<Expr>) -> (r: Vec<Expr>)
    ensures
        exprs_equiv(items@, r@),
    decreases items,
{
    let mut out: Vec<Expr> = Vec::new();
    let n = items.len();
    let mut i: usize = 0;
    while i < n
        invariant
            n == items@.len(),
            0 <= i <= n,
            out@.len() == i,
            forall|j: int| 0 <= j < i ==> expr_equiv(#[trigger] items@[j], out@[j]),
        decreases n - i,
    {
        proof {
            assert(decreases_to!(*items => items@));
            assert(decreases_to!(items@ => items@[i as int]));
        }
        out.push(copy_expr(&items[i]));
        i = i + 1;
    }
    out
}

/// A deep copy of a function call.
pub(crate) fn copy_function_call(f: &FunctionCall) -> (r: FunctionCall)
    ensures
        function_call_equiv(*f, r),
    decreases f,
{
    match f {
        FunctionCall::Aggregate(AggregateFunctionCall::Normal(n)) => FunctionCall::Aggregate(
            AggregateFunctionCall::Normal(
                NormalAggregateFunctionCall { function: n.function, param: copy_expr(&n.param) },
            ),
        ),
        FunctionCall::Aggregate(AggregateFunctionCall::GroupConcat(g)) => FunctionCall::Aggregate(
            AggregateFunctionCall::GroupConcat(
                GroupConcatFunctionCall {
                    expr: copy_expr(&g.expr),
                    order_by: copy_order_items(&g.order_by),
                    separator: match &g.separator {
                        Some(t) => Some(t.clone()),
                        None => None,
                    },
                },
            ),
        ),
        FunctionCall::Subquery(s) => FunctionCall::Subquery(
            SubqueryFunctionCall { function: s.function, subquery: copy_select_query(&s.subquery) },
        ),
    }
}

impl Clone for Expr {
    fn clone(&self) -> Self {
        copy_expr(self)
    }
}

impl Clone for FunctionCall {
    fn clone(&self) -> Self {
        copy_function_call(self)
    }
}

impl Clone for AggregateFunctionCall {
    fn clone(&self) -> Self {
        match self {
            AggregateFunctionCall::Normal(n) => AggregateFunctionCall::Normal(
                NormalAggregateFunctionCall { function: n.function, param: copy_expr(&n.param) },
            ),
            AggregateFunctionCall::GroupConcat(g) => AggregateFunctionCall::GroupConcat(
                GroupConcatFunctionCall {
                    expr: copy_expr(&g.expr),
                    order_by: copy_order_items(&g.order_by),
                    separator: g.separator.clone(),
                },
            ),
        }
    }
}

impl Clone for NormalAggregateFunctionCall {
    fn clone(&self) -> Self {
        NormalAggregateFunctionCall { function: self.function, param: copy_expr(&self.param) }
    }
}

impl Clone for GroupConcatFunctionCall {
    fn clone(&self) -> Self {
        GroupConcatFunctionCall {
            expr: copy_expr(&self.expr),
            order_by: copy_order_items(&self.order_by),
            separator: self.separator.clone(),
        }
    }
}

impl Clone for SubqueryFunctionCall {
    fn clone(&self) -> Self {
        SubqueryFunctionCall { function: self.function, subquery: copy_select_query(&self.subquery) }
    }
}

/// Moves the values of `e` into `args`, in binding order.
#[verifier::spinoff_prover]
#[verifier::rlimit(50)]
pub fn bind_expr(e: Expr, args: &mut Vec<DatabaseValue>)
    ensures
        final(args)@ == old(args)@ + expr_args(e),
    decreases e,
{
    let ghost whole = e;
    match e {
        Expr::Ident(_) => {},
        Expr::Lit(v) => {
            args.push(v);
        },
        Expr::FunctionCall(f) => {
            bind_function_call(*f, args);
        },
        Expr::Subquery(q) => {
            bind_select_query(q, args);
        },
        Expr::BitInverse(x) => {
            bind_expr(*x, args);
        },
        Expr::BitXor(l, r) => {
            bind_expr(*l, args);
            bind_expr(*r, args);
        },
        Expr::Mul(l, r) => {
            bind_expr(*l, args);
            bind_expr(*r, args);
        },
        Expr::Div(l, r) => {
            bind_expr(*l, args);
            bind_expr(*r, args);
        },
        Expr::Rem(l, r) => {
            bind_expr(*l, args);
            bind_expr(*r, args);
        },
        Expr::Add(l, r) => {
            bind_expr(*l, args);
            bind_expr(*r, args);
        },
        Expr::Sub(l, r) => {
            bind_expr(*l, args);
            bind_expr(*r, args);
        },
        Expr::LeftShift(l, r) => {
            bind_expr(*l, args);
            bind_expr(*r, args);
        },
        Expr::RightShift(l, r) => {
            bind_expr(*l, args);
            bind_expr(*r, args);
        },
        Expr::BitAnd(l, r) => {
            bind_expr(*l, args);
            bind_expr(*r, args);
        },
        Expr::BitOr(l, r) => {
            bind_expr(*l, args);
            bind_expr(*r, args);
        },
        Expr::Bte(l, r) => {
            bind_expr(*l, args);
            bind_expr(*r, args);
        },
        Expr::Lte(l, r) => {
            bind_expr(*l, args);
            bind_expr(*r, args);
        },
        Expr::Neq(l, r) => {
            bind_expr(*l, args);
            bind_expr(*r, args);
        },
        Expr::Bt(l, r) => {
            bind_expr(*l, args);
            bind_expr(*r, args);
        },
        Expr::Lt(l, r) => {
            bind_expr(*l, args);
            bind_expr(*r, args);
        },
        Expr::Eq(l, r) => {
            bind_expr(*l, args);
            bind_expr(*r, args);
        },
        Expr::And(l, r) => {
            bind_expr(*l, args);
            bind_expr(*r, args);
        },
        Expr::Or(l, r) => {
            bind_expr(*l, args);
            bind_expr(*r, args);
        },
        Expr::Not(x) => {
            bind_expr(*x, args);
        },
        Expr::In(x, q) => {
            bind_expr(*x, args);
            bind_select_query(q, args);
        },
        Expr::InArr(x, a) => {
            bind_expr(*x, args);
            let mut a = a;
            args.append(&mut a);
        },
        Expr::Exists(q) => {
            bind_select_query(q, args);
        },
        Expr::NotExists(q) => {
            bind_select_query(q, args);
        },
    }
    assert(args@ =~= old(args)@ + expr_args(whole));
}

/// Moves the values of every expression of `items` into `args`, in order.
#[verifier::loop_isolation(false)]
pub fn bind_exprs(items: Vec<Expr>, args: &mut Vec<DatabaseValue>)
    ensures
        final(args)@ == old(args)@ + exprs_args(items@),
    decreases items,
{
    let ghost all = items;
    let mut rest = items;
    let n = rest.len();
    let mut k: usize = 0;
    while rest.len() > 0
        invariant
            n == all@.len(),
            0 <= k <= all@.len(),
            rest@ == all@.skip(k as int),
            args@ == old(args)@ + exprs_args(all@.take(k as int)),
        decreases rest.len(),
    {
        let x = rest.remove(0);
        proof {
            assert(x == all@[k as int]);
            assert(decreases_to!(all => all@));
            assert(decreases_to!(all@ => all@[k as int]));
        }
        bind_expr(x, args);
        proof {
            let t = all@.take(k + 1);
            assert(t.drop_last() =~= all@.take(k as int));
            assert(t.last() == all@[k as int]);
            assert(rest@ =~= all@.skip(k + 1));
        }
        k = k + 1;
        assert(args@ =~= old(args)@ + exprs_args(all@.take(k as int)));
    }
    assert(all@.take(k as int) =~= all@);
}

/// Moves the values of a function call into `args`, in binding order.
pub fn bind_function_call(f: FunctionCall, args: &mut Vec<DatabaseValue>)
    ensures
        final(args)@ == old(args)@ + function_call_args(f),
    decreases f,
{
    let ghost whole = f;
    match f {
        FunctionCall::Aggregate(AggregateFunctionCall::Normal(n)) => {
            bind_expr(n.param, args);
        },
        FunctionCall::Aggregate(AggregateFunctionCall::GroupConcat(g)) => {
            bind_expr(g.expr, args);
            bind_order_items(g.order_by, args);
        },
        FunctionCall::Subquery(s) => {
            bind_select_query(s.subquery, args);
        },
    }
    assert(args@ =~= old(args)@ + function_call_args(whole));
}

impl ToSql for AggregateFunctionCall {
    open spec fn sql_ready(&self) -> bool {
        function_call_ready(FunctionCall::Aggregate(*self))
    }

    open spec fn sql_parts(&self) -> Seq<SqlPart> {
        function_call_parts(FunctionCall::Aggregate(*self))
    }

    fn to_sql(&self, state: &mut QueryBuildState) -> (r: FmtResult) {
        match self {
            AggregateFunctionCall::Normal(n) => convert_normal_aggregate_fn_call(n, state),
            AggregateFunctionCall::GroupConcat(g) => convert_group_concat(g, state),
        }
    }

    fn is_sql_ready(&self) -> (r: bool) {
        match self {
            AggregateFunctionCall::Normal(n) => n.is_sql_ready(),
            AggregateFunctionCall::GroupConcat(g) => g.is_sql_ready(),
        }
    }
}

impl ToSql for NormalAggregateFunctionCall {
    open spec fn sql_ready(&self) -> bool {
        aggregate_renderable(self.function) && expr_ready(self.param)
    }

    open spec fn sql_parts(&self) -> Seq<SqlPart> {
        normal_call_parts(*self)
    }

    fn to_sql(&self, state: &mut QueryBuildState) -> (r: FmtResult) {
        convert_normal_aggregate_fn_call(self, state)
    }

    fn is_sql_ready(&self) -> (r: bool) {
        let renderable = match self.function {
            AggregateFunction::Sum | AggregateFunction::GroupConcat => false,
            _ => true,
        };
        renderable && expr_is_ready(&self.param)
    }
}

impl ToSql for GroupConcatFunctionCall {
    open spec fn sql_ready(&self) -> bool {
        expr_ready(self.expr) && order_items_ready(self.order_by@)
    }

    open spec fn sql_parts(&self) -> Seq<SqlPart> {
        group_concat_parts(*self)
    }

    fn to_sql(&self, state: &mut QueryBuildState) -> (r: FmtResult) {
        convert_group_concat(self, state)
    }

    fn is_sql_ready(&self) -> (r: bool) {
        let a = expr_is_ready(&self.expr);
        a && order_items_are_ready(&self.order_by)
    }
}

impl ToSql for SubqueryFunctionCall {
    open spec fn sql_ready(&self) -> bool {
        select_query_ready(self.subquery)
    }

    open spec fn sql_parts(&self) -> Seq<SqlPart> {
        subquery_call_parts(*self)
    }

    fn to_sql(&self, state: &mut QueryBuildState) -> (r: FmtResult) {
        convert_subquery_fn(self, state)
    }

    fn is_sql_ready(&self) -> (r: bool) {
        select_query_is_ready(&self.subquery)
    }
}

impl BindArgs for Expr {
    open spec fn bound_args(&self) -> Seq<DatabaseValue> {
        expr_args(*self)
    }

    fn bind_args(self, args: &mut Vec<DatabaseValue>) {
        bind_expr(self, args)
    }
}

impl BindArgs for FunctionCall {
    open spec fn bound_args(&self) -> Seq<DatabaseValue> {
        function_call_args(*self)
    }

    fn bind_args(self, args: &mut Vec<DatabaseValue>) {
        bind_function_call(self, args)
    }
}

impl BindArgs for AggregateFunctionCall {
    open spec fn bound_args(&self) -> Seq<DatabaseValue> {
        function_call_args(FunctionCall::Aggregate(*self))
    }

    fn bind_args(self, args: &mut Vec<DatabaseValue>) {
        bind_function_call(FunctionCall::Aggregate(self), args)
    }
}

impl BindArgs for NormalAggregateFunctionCall {
    open spec fn bound_args(&self) -> Seq<DatabaseValue> {
        expr_args(self.param)
    }

    fn bind_args(self, args: &mut Vec<DatabaseValue>) {
        bind_expr(self.param, args)
    }
}

impl BindArgs for GroupConcatFunctionCall {
    open spec fn bound_args(&self) -> Seq<DatabaseValue> {
        expr_args(self.expr) + order_items_args(self.order_by@)
    }

    fn bind_args(self, args: &mut Vec<DatabaseValue>) {
        let ghost whole = self;
        bind_expr(self.expr, args);
        bind_order_items(self.order_by, args);
        assert(args@ =~= old(args)@ + expr_args(whole.expr) + order_items_args(whole.order_by@));
    }
}

impl BindArgs for SubqueryFunctionCall {
    open spec fn bound_args(&self) -> Seq<DatabaseValue> {
        select_query_args(self.subquery)
    }

    fn bind_args(self, args: &mut Vec<DatabaseValue>) {
        bind_select_query(self.subquery, args)
    }
}

impl BindArgs for DatabaseValue {
    open spec fn bound_args(&self) -> Seq<DatabaseValue> {
        seq![*self]
    }

    /// A value binds itself.
    fn bind_args(self, args: &mut Vec<DatabaseValue>) {
        args.push(self);
    }
}

impl BindArgs for Ident {
    open spec fn bound_args(&self) -> Seq<DatabaseValue> {
        Seq::empty()
    }

    /// An identifier binds nothing.
    fn bind_args(self, args: &mut Vec<DatabaseValue>) {
        assert(args@ =~= old(args)@ + Seq::<DatabaseValue>::empty());
    }
}

/// The display text of a binary expression: the left text, the operator
/// text (with its surrounding spaces), the right text.
pub open spec fn binary_text(l: Seq<char>, op: Seq<char>, r: Seq<char>) -> Seq<char> {
    l + op + r
}

/// The display text of a list of values, separated by `, `.
pub open spec fn values_text(vs: Seq<DatabaseValue>) -> Seq<char> {
    join_text(vs.map_values(|v: DatabaseValue| value_text(v)), ", "@)
}

/// The display text of an expression.
pub open spec fn expr_text(e: Expr) -> Seq<char>
    decreases e,
{
    match e {
        Expr::Ident(i) => ident_text(i),
        Expr::Lit(v) => value_text(v),
        Expr::FunctionCall(f) => function_call_text(*f),
        Expr::Subquery(q) => "("@ + select_query_text(q) + ")"@,
        Expr::BitInverse(x) => "~"@ + expr_text(*x),
        Expr::BitXor(l, r) => binary_text(expr_text(*l), " ^ "@, expr_text(*r)),
        Expr::Mul(l, r) => binary_text(expr_text(*l), " * "@, expr_text(*r)),
        Expr::Div(l, r) => binary_text(expr_text(*l), " / "@, expr_text(*r)),
        Expr::Rem(l, r) => binary_text(expr_text(*l), " % "@, expr_text(*r)),
        Expr::Add(l, r) => binary_text(expr_text(*l), " + "@, expr_text(*r)),
        Expr::Sub(l, r) => binary_text(expr_text(*l), " - "@, expr_text(*r)),
        Expr::LeftShift(l, r) => binary_text(expr_text(*l), " << "@, expr_text(*r)),
        Expr::RightShift(l, r) => binary_text(expr_text(*l), " >> "@, expr_text(*r)),
        Expr::BitAnd(l, r) => binary_text(expr_text(*l), " & "@, expr_text(*r)),
        Expr::BitOr(l, r) => binary_text(expr_text(*l), " | "@, expr_text(*r)),
        Expr::Bte(l, r) => binary_text(expr_text(*l), " >= "@, expr_text(*r)),
        Expr::Lte(l, r) => binary_text(expr_text(*l), " <= "@, expr_text(*r)),
        Expr::Neq(l, r) => binary_text(expr_text(*l), " != "@, expr_text(*r)),
        Expr::Bt(l, r) => binary_text(expr_text(*l), " > "@, expr_text(*r)),
        Expr::Lt(l, r) => binary_text(expr_text(*l), " < "@, expr_text(*r)),
        Expr::Eq(l, r) => binary_text(expr_text(*l), " == "@, expr_text(*r)),
        Expr::And(l, r) => binary_text(expr_text(*l), " AND "@, expr_text(*r)),
        Expr::Or(l, r) => binary_text(expr_text(*l), " OR "@, expr_text(*r)),
        Expr::Not(x) => "!"@ + expr_text(*x),
        Expr::In(x, q) => expr_text(*x) + " IN ("@ + select_query_text(q) + ")"@,
        Expr::InArr(x, a) => expr_text(*x) + " IN ("@ + values_text(a@) + ")"@,
        Expr::Exists(q) => "EXISTS ("@ + select_query_text(q) + ")"@,
        Expr::NotExists(q) => "NOT EXISTS ("@ + select_query_text(q) + ")"@,
    }
}

/// Whether an expression can be displayed: displaying panics on a plain
/// aggregate call of `GroupConcat`.
pub open spec fn expr_displayable(e: Expr) -> bool
    decreases e,
{
    match e {
        Expr::Ident(_) => true,
        Expr::Lit(_) => true,
        Expr::FunctionCall(f) => function_call_displayable(*f),
        Expr::Subquery(q) => select_query_displayable(q),
        Expr::BitInverse(x) => expr_displayable(*x),
        Expr::BitXor(l, r) => expr_displayable(*l) && expr_displayable(*r),
        Expr::Mul(l, r) => expr_displayable(*l) && expr_displayable(*r),
        Expr::Div(l, r) => expr_displayable(*l) && expr_displayable(*r),
        Expr::Rem(l, r) => expr_displayable(*l) && expr_displayable(*r),
        Expr::Add(l, r) => expr_displayable(*l) && expr_displayable(*r),
        Expr::Sub(l, r) => expr_displayable(*l) && expr_displayable(*r),
        Expr::LeftShift(l, r) => expr_displayable(*l) && expr_displayable(*r),
        Expr::RightShift(l, r) => expr_displayable(*l) && expr_displayable(*r),
        Expr::BitAnd(l, r) => expr_displayable(*l) && expr_displayable(*r),
        Expr::BitOr(l, r) => expr_displayable(*l) && expr_displayable(*r),
        Expr::Bte(l, r) => expr_displayable(*l) && expr_displayable(*r),
        Expr::Lte(l, r) => expr_displayable(*l) && expr_displayable(*r),
        Expr::Neq(l, r) => expr_displayable(*l) && expr_displayable(*r),
        Expr::Bt(l, r) => expr_displayable(*l) && expr_displayable(*r),
        Expr::Lt(l, r) => expr_displayable(*l) && expr_displayable(*r),
        Expr::Eq(l, r) => expr_displayable(*l) && expr_displayable(*r),
        Expr::And(l, r) => expr_displayable(*l) && expr_displayable(*r),
        Expr::Or(l, r) => expr_displayable(*l) && expr_displayable(*r),
        Expr::Not(x) => expr_displayable(*x),
        Expr::In(x, q) => expr_displayable(*x) && select_query_displayable(q),
        Expr::InArr(x, _) => expr_displayable(*x),
        Expr::Exists(q) => select_query_displayable(q),
        Expr::NotExists(q) => select_query_displayable(q),
    }
}

/// The display texts of a list of expressions, separated by `sep`.
pub open spec fn exprs_text(items: Seq<Expr>, sep: Seq<char>) -> Seq<char>
    decreases items,
{
    if items.len() == 0 {
        Seq::empty()
    } else if items.len() == 1 {
        expr_text(items[0])
    } else {
        exprs_text(items.drop_last(), sep) + sep + expr_text(items.last())
    }
}

/// Whether every expression of a list can be displayed.
pub open spec fn exprs_displayable(items: Seq<Expr>) -> bool
    decreases items,
{
    forall|i: int| 0 <= i < items.len() ==> expr_displayable(#[trigger] items[i])
}

/// The name of an aggregate function, as it is spelled in the source.
pub open spec fn aggregate_function_name(f: AggregateFunction) -> Seq<char> {
    match f {
        AggregateFunction::Average => "Average"@,
        AggregateFunction::Sum => "Sum"@,
        AggregateFunction::BitAnd => "BitAnd"@,
        AggregateFunction::BitOr => "BitOr"@,
        AggregateFunction::BitXor => "BitXor"@,
        AggregateFunction::Count => "Count"@,
        AggregateFunction::CountDistinct => "CountDistinct"@,
        AggregateFunction::GroupConcat => "GroupConcat"@,
        AggregateFunction::Max => "Max"@,
        AggregateFunction::Min => "Min"@,
    }
}

/// The name of a subquery function, as it is spelled in the source.
pub open spec fn subquery_function_debug_name(f: SubqueryFunction) -> Seq<char> {
    match f {
        SubqueryFunction::Any => "Any"@,
        SubqueryFunction::All => "All"@,
    }
}

/// The display text of a function: its kind and its name.
pub open spec fn function_text(f: Function) -> Seq<char> {
    match f {
        Function::Aggregate(a) => "Aggregate("@ + aggregate_function_name(a) + ")"@,
        Function::Subquery(s) => "Subquery("@ + subquery_function_debug_name(s) + ")"@,
    }
}

/// The display text that opens a plain aggregate call.
pub open spec fn aggregate_display_prefix(f: AggregateFunction) -> Seq<char> {
    match f {
        AggregateFunction::Average => "AVG("@,
        AggregateFunction::Sum => "Sum("@,
        AggregateFunction::BitAnd => "BIT_AND("@,
        AggregateFunction::BitOr => "BIT_OR("@,
        AggregateFunction::BitXor => "BIT_XOR("@,
        AggregateFunction::Count => "COUNT("@,
        AggregateFunction::CountDistinct => "COUNT(DISTINCT "@,
        AggregateFunction::Max => "MAX("@,
        AggregateFunction::Min => "MIN("@,
        AggregateFunction::GroupConcat => Seq::empty(),
    }
}

/// The display text of a plain aggregate call.
pub open spec fn normal_call_text(c: NormalAggregateFunctionCall) -> Seq<char>
    decreases c,
{
    aggregate_display_prefix(c.function) + expr_text(c.param) + ")"@
}

/// The display text of a `GROUP_CONCAT` call.
pub open spec fn group_concat_text(c: GroupConcatFunctionCall) -> Seq<char>
    decreases c,
{
    "GROUP_CONCAT("@ + expr_text(c.expr) + (if c.order_by@.len() > 0 {
        " ORDER BY "@ + order_items_text(c.order_by@)
    } else {
        Seq::empty()
    }) + (match c.separator {
        Some(s) => " SEPARATOR '"@ + s@ + "'"@,
        None => Seq::empty(),
    }) + ")"@
}

/// The display text of a subquery function call.
pub open spec fn subquery_call_text(c: SubqueryFunctionCall) -> Seq<char>
    decreases c,
{
    subquery_function_debug_name(c.function) + " ("@ + select_query_text(c.subquery) + ")"@
}

/// The display text of a function call.
pub open spec fn function_call_text(f: FunctionCall) -> Seq<char>
    decreases f,
{
    match f {
        FunctionCall::Aggregate(AggregateFunctionCall::Normal(n)) => normal_call_text(n),
        FunctionCall::Aggregate(AggregateFunctionCall::GroupConcat(g)) => group_concat_text(g),
        FunctionCall::Subquery(s) => subquery_call_text(s),
    }
}

/// Whether a function call can be displayed.
pub open spec fn function_call_displayable(f: FunctionCall) -> bool
    decreases f,
{
    match f {
        FunctionCall::Aggregate(AggregateFunctionCall::Normal(n)) => n.function
            != AggregateFunction::GroupConcat && expr_displayable(n.param),
        FunctionCall::Aggregate(AggregateFunctionCall::GroupConcat(g)) => expr_displayable(g.expr)
            && order_items_displayable(g.order_by@),
        FunctionCall::Subquery(s) => select_query_displayable(s.subquery),
    }
}

/// Appends `t` to `s`.
pub(crate) fn push_text(s: &mut String, t: String)
    ensures
        final(s)@ == old(s)@ + t@,
{
    s.append(t.as_str());
}

/// The display text of an expression.
#[verifier::spinoff_prover]
#[verifier::rlimit(100)]
pub fn expr_display(e: &Expr) -> (s: String)
    requires
        expr_displayable(*e),
    ensures
        s@ == expr_text(*e),
    decreases e,
{
    match e {
        Expr::Ident(i) => i.to_display_string(),
        Expr::Lit(v) => v.to_display_string(),
        Expr::FunctionCall(f) => function_call_display(f),
        Expr::Subquery(q) => {
            let mut s = String::from_str("(");
            push_text(&mut s, select_query_display(q));
            s.append(")");
            s
        },
        Expr::BitInverse(x) => {
            let mut s = String::from_str("~");
            push_text(&mut s, expr_display(x));
            s
        },
        Expr::BitXor(l, r) => {
            let mut s = expr_display(l);
            s.append(" ^ ");
            push_text(&mut s, expr_display(r));
            s
        },
        Expr::Mul(l, r) => {
            let mut s = expr_display(l);
            s.append(" * ");
            push_text(&mut s, expr_display(r));
            s
        },
        Expr::Div(l, r) => {
            let mut s = expr_display(l);
            s.append(" / ");
            push_text(&mut s, expr_display(r));
            s
        },
        Expr::Rem(l, r) => {
            let mut s = expr_display(l);
            s.append(" % ");
            push_text(&mut s, expr_display(r));
            s
        },
        Expr::Add(l, r) => {
            let mut s = expr_display(l);
            s.append(" + ");
            push_text(&mut s, expr_display(r));
            s
        },
        Expr::Sub(l, r) => {
            let mut s = expr_display(l);
            s.append(" - ");
            push_text(&mut s, expr_display(r));
            s
        },
        Expr::LeftShift(l, r) => {
            let mut s = expr_display(l);
            s.append(" << ");
            push_text(&mut s, expr_display(r));
            s
        },
        Expr::RightShift(l, r) => {
            let mut s = expr_display(l);
            s.append(" >> ");
            push_text(&mut s, expr_display(r));
            s
        },
        Expr::BitAnd(l, r) => {
            let mut s = expr_display(l);
            s.append(" & ");
            push_text(&mut s, expr_display(r));
            s
        },
        Expr::BitOr(l, r) => {
            let mut s = expr_display(l);
            s.append(" | ");
            push_text(&mut s, expr_display(r));
            s
        },
        Expr::Bte(l, r) => {
            let mut s = expr_display(l);
            s.append(" >= ");
            push_text(&mut s, expr_display(r));
            s
        },
        Expr::Lte(l, r) => {
            let mut s = expr_display(l);
            s.append(" <= ");
            push_text(&mut s, expr_display(r));
            s
        },
        Expr::Neq(l, r) => {
            let mut s = expr_display(l);
            s.append(" != ");
            push_text(&mut s, expr_display(r));
            s
        },
        Expr::Bt(l, r) => {
            let mut s = expr_display(l);
            s.append(" > ");
            push_text(&mut s, expr_display(r));
            s
        },
        Expr::Lt(l, r) => {
            let mut s = expr_display(l);
            s.append(" < ");
            push_text(&mut s, expr_display(r));
            s
        },
        Expr::Eq(l, r) => {
            let mut s = expr_display(l);
            s.append(" == ");
            push_text(&mut s, expr_display(r));
            s
        },
        Expr::And(l, r) => {
            let mut s = expr_display(l);
            s.append(" AND ");
            push_text(&mut s, expr_display(r));
            s
        },
        Expr::Or(l, r) => {
            let mut s = expr_display(l);
            s.append(" OR ");
            push_text(&mut s, expr_display(r));
            s
        },
        Expr::Not(x) => {
            let mut s = String::from_str("!");
            push_text(&mut s, expr_display(x));
            s
        },
        Expr::In(x, q) => {
            let mut s = expr_display(x);
            s.append(" IN (");
            push_text(&mut s, select_query_display(q));
            s.append(")");
            s
        },
        Expr::InArr(x, a) => {
            let mut s = expr_display(x);
            s.append(" IN (");
            push_text(&mut s, values_display(a));
            s.append(")");
            s
        },
        Expr::Exists(q) => {
            let mut s = String::from_str("EXISTS (");
            push_text(&mut s, select_query_display(q));
            s.append(")");
            s
        },
        Expr::NotExists(q) => {
            let mut s = String::from_str("NOT EXISTS (");
            push_text(&mut s, select_query_display(q));
            s.append(")");
            s
        },
    }
}

/// The display texts of a list of values, separated by `, `.
pub fn values_display(vs: &Vec<DatabaseValue>) -> (s: String)
    ensures
        s@ == values_text(vs@),
{
    let ghost texts = vs@.map_values(|v: DatabaseValue| value_text(v));
    let mut s = String::new();
    let n = vs.len();
    let mut i: usize = 0;
    while i < n
        invariant
            n == vs@.len(),
            0 <= i <= n,
            texts == vs@.map_values(|v: DatabaseValue| value_text(v)),
            s@ == join_text(texts.take(i as int), ", "@),
        decreases n - i,
    {
        if i != 0 {
            s.append(", ");
        }
        push_text(&mut s, vs[i].to_display_string());
        assert(texts.take(i + 1).drop_last() =~= texts.take(i as int));
        i = i + 1;
    }
    assert(texts.take(n as int) =~= texts);
    s
}

/// The display texts of a list of expressions, separated by `sep`.
#[verifier::loop_isolation(false)]
pub fn exprs_display(items: &Vec<Expr>, sep: &str) -> (s: String)
    requires
        exprs_displayable(items@),
    ensures
        s@ == exprs_text(items@, sep@),
    decreases items,
{
    let mut s = String::new();
    let n = items.len();
    let mut i: usize = 0;
    while i < n
        invariant
            n == items@.len(),
            0 <= i <= n,
            s@ == exprs_text(items@.take(i as int), sep@),
        decreases n - i,
    {
        if i != 0 {
            s.append(sep);
        }
        proof {
            assert(expr_displayable(items@[i as int]));
            assert(decreases_to!(*items => items@));
            assert(decreases_to!(items@ => items@[i as int]));
        }
        push_text(&mut s, expr_display(&items[i]));
        proof {
            let t = items@.take(i + 1);
            assert(t.drop_last() =~= items@.take(i as int));
            assert(t.last() == items@[i as int]);
            if i == 0 {
                assert(exprs_text(t, sep@) == expr_text(items@[0]));
            }
        }
        i = i + 1;
    }
    assert(items@.take(n as int) =~= items@);
    s
}

/// The display text of a plain aggregate call.
pub fn normal_call_display(c: &NormalAggregateFunctionCall) -> (s: String)
    requires
        c.function != AggregateFunction::GroupConcat,
        expr_displayable(c.param),
    ensures
        s@ == normal_call_text(*c),
    decreases c,
{
    let mut s = match c.function {
        AggregateFunction::Average => String::from_str("AVG("),
        AggregateFunction::Sum => String::from_str("Sum("),
        AggregateFunction::BitAnd => String::from_str("BIT_AND("),
        AggregateFunction::BitOr => String::from_str("BIT_OR("),
        AggregateFunction::BitXor => String::from_str("BIT_XOR("),
        AggregateFunction::Count => String::from_str("COUNT("),
        AggregateFunction::CountDistinct => String::from_str("COUNT(DISTINCT "),
        AggregateFunction::Max => String::from_str("MAX("),
        AggregateFunction::Min => String::from_str("MIN("),
        AggregateFunction::GroupConcat => String::new(),
    };
    push_text(&mut s, expr_display(&c.param));
    s.append(")");
    s
}

/// The display text of a `GROUP_CONCAT` call.
pub fn group_concat_display(c: &GroupConcatFunctionCall) -> (s: String)
    requires
        expr_displayable(c.expr),
        order_items_displayable(c.order_by@),
    ensures
        s@ == group_concat_text(*c),
    decreases c,
{
    let mut s = String::from_str("GROUP_CONCAT(");
    push_text(&mut s, expr_display(&c.expr));
    if c.order_by.len() > 0 {
        s.append(" ORDER BY ");
        push_text(&mut s, order_items_display(&c.order_by));
    }
    if let Some(separator) = &c.separator {
        s.append(" SEPARATOR '");
        s.append(separator.as_str());
        s.append("'");
    }
    s.append(")");
    s
}

/// The display text of a subquery function call.
pub fn subquery_call_display(c: &SubqueryFunctionCall) -> (s: String)
    requires
        select_query_displayable(c.subquery),
    ensures
        s@ == subquery_call_text(*c),
    decreases c,
{
    let mut s = match c.function {
        SubqueryFunction::Any => String::from_str("Any"),
        SubqueryFunction::All => String::from_str("All"),
    };
    s.append(" (");
    push_text(&mut s, select_query_display(&c.subquery));
    s.append(")");
    s
}

/// The display text of a function call.
pub fn function_call_display(f: &FunctionCall) -> (s: String)
    requires
        function_call_displayable(*f),
    ensures
        s@ == function_call_text(*f),
    decreases f,
{
    match f {
        FunctionCall::Aggregate(AggregateFunctionCall::Normal(n)) => normal_call_display(n),
        FunctionCall::Aggregate(AggregateFunctionCall::GroupConcat(g)) => group_concat_display(g),
        FunctionCall::Subquery(s) => subquery_call_display(s),
    }
}

impl Expr {
    /// The display text of the expression.
    pub fn to_display_string(&self) -> (s: String)
        requires
            expr_displayable(*self),
        ensures
            s@ == expr_text(*self),
    {
        expr_display(self)
    }
}

impl FunctionCall {
    /// The display text of the call.
    pub fn to_display_string(&self) -> (s: String)
        requires
            function_call_displayable(*self),
        ensures
            s@ == function_call_text(*self),
    {
        function_call_display(self)
    }
}

impl AggregateFunctionCall {
    /// The display text of the call.
    pub fn to_display_string(&self) -> (s: String)
        requires
            function_call_displayable(FunctionCall::Aggregate(*self)),
        ensures
            s@ == function_call_text(FunctionCall::Aggregate(*self)),
    {
        match self {
            AggregateFunctionCall::Normal(n) => normal_call_display(n),
            AggregateFunctionCall::GroupConcat(g) => group_concat_display(g),
        }
    }
}

impl NormalAggregateFunctionCall {
    /// The display text of the call; a `GroupConcat` has none.
    pub fn to_display_string(&self) -> (s: String)
        requires
            self.function != AggregateFunction::GroupConcat,
            expr_displayable(self.param),
        ensures
            s@ == normal_call_text(*self),
    {
        normal_call_display(self)
    }
}

impl GroupConcatFunctionCall {
    /// The display text of the call.
    pub fn to_display_string(&self) -> (s: String)
        requires
            expr_displayable(self.expr),
            order_items_displayable(self.order_by@),
        ensures
            s@ == group_concat_text(*self),
    {
        group_concat_display(self)
    }
}

impl SubqueryFunctionCall {
    /// The display text of the call.
    pub fn to_display_string(&self) -> (s: String)
        requires
            select_query_displayable(self.subquery),
        ensures
            s@ == subquery_call_text(*self),
    {
        subquery_call_display(self)
    }
}

impl AggregateFunction {
    /// The name of the function.
    pub fn to_display_string(&self) -> (s: String)
        ensures
            s@ == aggregate_function_name(*self),
    {
        match self {
            AggregateFunction::Average => String::from_str("Average"),
            AggregateFunction::Sum => String::from_str("Sum"),
            AggregateFunction::BitAnd => String::from_str("BitAnd"),
            AggregateFunction::BitOr => String::from_str("BitOr"),
            AggregateFunction::BitXor => String::from_str("BitXor"),
            AggregateFunction::Count => String::from_str("Count"),
            AggregateFunction::CountDistinct => String::from_str("CountDistinct"),
            AggregateFunction::GroupConcat => String::from_str("GroupConcat"),
            AggregateFunction::Max => String::from_str("Max"),
            AggregateFunction::Min => String::from_str("Min"),
        }
    }
}

impl SubqueryFunction {
    /// The name of the function.
    pub fn to_display_string(&self) -> (s: String)
        ensures
            s@ == subquery_function_debug_name(*self),
    {
        match self {
            SubqueryFunction::Any => String::from_str("Any"),
            SubqueryFunction::All => String::from_str("All"),
        }
    }
}

impl Function {
    /// The kind and the name of the function.
    pub fn to_display_string(&self) -> (s: String)
        ensures
            s@ == function_text(*self),
    {
        match self {
            Function::Aggregate(a) => {
                let mut s = String::from_str("Aggregate(");
                push_text(&mut s, a.to_display_string());
                s.append(")");
                s
            },
            Function::Subquery(q) => {
                let mut s = String::from_str("Subquery(");
                push_text(&mut s, q.to_display_string());
                s.append(")");
                s
            },
        }
    }
}

impl Alias {
    /// The expression naming `alias.column`.
    pub fn create_ident_expr(&self, column: &str) -> (e: Expr)
        ensures
            e matches Expr::Ident(i) && ident_segments(i) == seq![self.name@, column@],
    {
        Expr::Ident(self.create_ident(column))
    }
}

/// Whether an expression can be rendered (see `expr_ready`).
pub fn expr_is_ready(e: &Expr) -> (r: bool)
    ensures
        r == expr_ready(*e),
    decreases e,
{
    match e {
        Expr::Ident(_) => true,
        Expr::Lit(_) => true,
        Expr::FunctionCall(f) => function_call_is_ready(f),
        Expr::Subquery(q) => select_query_is_ready(q),
        Expr::BitInverse(x) => expr_is_ready(x),
        Expr::BitXor(l, r) => {
            let a = expr_is_ready(l);
            a && expr_is_ready(r)
        },
        Expr::Mul(l, r) => {
            let a = expr_is_ready(l);
            a && expr_is_ready(r)
        },
        Expr::Div(l, r) => {
            let a = expr_is_ready(l);
            a && expr_is_ready(r)
        },
        Expr::Rem(l, r) => {
            let a = expr_is_ready(l);
            a && expr_is_ready(r)
        },
        Expr::Add(l, r) => {
            let a = expr_is_ready(l);
            a && expr_is_ready(r)
        },
        Expr::Sub(l, r) => {
            let a = expr_is_ready(l);
            a && expr_is_ready(r)
        },
        Expr::LeftShift(l, r) => {
            let a = expr_is_ready(l);
            a && expr_is_ready(r)
        },
        Expr::RightShift(l, r) => {
            let a = expr_is_ready(l);
            a && expr_is_ready(r)
        },
        Expr::BitAnd(l, r) => {
            let a = expr_is_ready(l);
            a && expr_is_ready(r)
        },
        Expr::BitOr(l, r) => {
            let a = expr_is_ready(l);
            a && expr_is_ready(r)
        },
        Expr::Bte(l, r) => {
            let a = expr_is_ready(l);
            a && expr_is_ready(r)
        },
        Expr::Lte(l, r) => {
            let a = expr_is_ready(l);
            a && expr_is_ready(r)
        },
        Expr::Neq(l, r) => {
            let a = expr_is_ready(l);
            a && expr_is_ready(r)
        },
        Expr::Bt(l, r) => {
            let a = expr_is_ready(l);
            a && expr_is_ready(r)
        },
        Expr::Lt(l, r) => {
            let a = expr_is_ready(l);
            a && expr_is_ready(r)
        },
        Expr::Eq(l, r) => {
            let a = expr_is_ready(l);
            a && expr_is_ready(r)
        },
        Expr::And(l, r) => {
            let a = expr_is_ready(l);
            a && expr_is_ready(r)
        },
        Expr::Or(l, r) => {
            let a = expr_is_ready(l);
            a && expr_is_ready(r)
        },
        Expr::Not(x) => expr_is_ready(x),
        Expr::In(x, q) => {
            let a = expr_is_ready(x);
            a && select_query_is_ready(q)
        },
        Expr::InArr(x, _) => expr_is_ready(x),
        Expr::Exists(q) => select_query_is_ready(q),
        Expr::NotExists(q) => select_query_is_ready(q),
    }
}

/// Whether every expression of a list can be rendered.
#[verifier::loop_isolation(false)]
pub fn exprs_are_ready(items: &Vec<Expr>) -> (r: bool)
    ensures
        r == exprs_ready(items@),
    decreases items,
{
    let n = items.len();
    let mut i: usize = 0;
    while i < n
        invariant
            n == items@.len(),
            0 <= i <= n,
            forall|j: int| 0 <= j < i ==> expr_ready(#[trigger] items@[j]),
        decreases n - i,
    {
        proof {
            assert(decreases_to!(*items => items@));
            assert(decreases_to!(items@ => items@[i as int]));
        }
        if !expr_is_ready(&items[i]) {
            return false;
        }
        i = i + 1;
    }
    true
}

/// Whether a function call can be rendered (see `function_call_ready`).
pub fn function_call_is_ready(f: &FunctionCall) -> (r: bool)
    ensures
        r == function_call_ready(*f),
    decreases f,
{
    match f {
        FunctionCall::Aggregate(AggregateFunctionCall::Normal(n)) => {
            let renderable = match n.function {
                AggregateFunction::Sum | AggregateFunction::GroupConcat => false,
                _ => true,
            };
            renderable && expr_is_ready(&n.param)
        },
        FunctionCall::Aggregate(AggregateFunctionCall::GroupConcat(g)) => {
            let a = expr_is_ready(&g.expr);
            a && order_items_are_ready(&g.order_by)
        },
        FunctionCall::Subquery(s) => select_query_is_ready(&s.subquery),
    }
}


/// Whether the tokens of `e` are `(`, the tokens of `l`, the operator
/// token `op`, the tokens of `r`, `)`.
pub open spec fn renders_binary(e: Expr, l: Expr, op: Seq<char>, r: Expr) -> bool {
    render(e.sql_parts()) == seq!["("@] + render(l.sql_parts()) + seq![op] + render(r.sql_parts())
        + seq![")"@]
}

/// Every binary expression renders in parentheses with the SQL operator
/// of its kind between its operands: `^ * / % + - << >> & | >= <= != > <
/// = AND OR`, one for each kind, in the order the kinds are declared.
pub proof fn law_binary_expr_tokens(l: Expr, r: Expr)
    ensures
        renders_binary(Expr::BitXor(Box::new(l), Box::new(r)), l, "^"@, r),
        renders_binary(Expr::Mul(Box::new(l), Box::new(r)), l, "*"@, r),
        renders_binary(Expr::Div(Box::new(l), Box::new(r)), l, "/"@, r),
        renders_binary(Expr::Rem(Box::new(l), Box::new(r)), l, "%"@, r),
        renders_binary(Expr::Add(Box::new(l), Box::new(r)), l, "+"@, r),
        renders_binary(Expr::Sub(Box::new(l), Box::new(r)), l, "-"@, r),
        renders_binary(Expr::LeftShift(Box::new(l), Box::new(r)), l, "<<"@, r),
        renders_binary(Expr::RightShift(Box::new(l), Box::new(r)), l, ">>"@, r),
        renders_binary(Expr::BitAnd(Box::new(l), Box::new(r)), l, "&"@, r),
        renders_binary(Expr::BitOr(Box::new(l), Box::new(r)), l, "|"@, r),
        renders_binary(Expr::Bte(Box::new(l), Box::new(r)), l, ">="@, r),
        renders_binary(Expr::Lte(Box::new(l), Box::new(r)), l, "<="@, r),
        renders_binary(Expr::Neq(Box::new(l), Box::new(r)), l, "!="@, r),
        renders_binary(Expr::Bt(Box::new(l), Box::new(r)), l, ">"@, r),
        renders_binary(Expr::Lt(Box::new(l), Box::new(r)), l, "<"@, r),
        renders_binary(Expr::Eq(Box::new(l), Box::new(r)), l, "="@, r),
        renders_binary(Expr::And(Box::new(l), Box::new(r)), l, "AND"@, r),
        renders_binary(Expr::Or(Box::new(l), Box::new(r)), l, "OR"@, r),
{
}

/// A negated expression renders as `(`, `Not`, its tokens, `)`; a bit
/// inversion as `(`, `~`, its tokens, `)`.
pub proof fn law_prefix_expr_tokens(x: Expr)
    ensures
        render(Expr::Not(Box::new(x)).sql_parts()) == seq!["("@, "Not"@] + render(x.sql_parts())
            + seq![")"@],
        render(Expr::BitInverse(Box::new(x)).sql_parts()) == seq!["("@, "~"@] + render(
            x.sql_parts(),
        ) + seq![")"@],
{
}

/// Every binary expression displays as its left text, the Rust-style
/// operator of its kind between spaces, and its right text: `^ * / % +
/// - << >> & | >= <= != > < == AND OR`.
pub proof fn law_binary_expr_display(l: Expr, r: Expr)
    ensures
        expr_text(Expr::BitXor(Box::new(l), Box::new(r))) == expr_text(l) + " ^ "@ + expr_text(r),
        expr_text(Expr::Mul(Box::new(l), Box::new(r))) == expr_text(l) + " * "@ + expr_text(r),
        expr_text(Expr::Div(Box::new(l), Box::new(r))) == expr_text(l) + " / "@ + expr_text(r),
        expr_text(Expr::Rem(Box::new(l), Box::new(r))) == expr_text(l) + " % "@ + expr_text(r),
        expr_text(Expr::Add(Box::new(l), Box::new(r))) == expr_text(l) + " + "@ + expr_text(r),
        expr_text(Expr::Sub(Box::new(l), Box::new(r))) == expr_text(l) + " - "@ + expr_text(r),
        expr_text(Expr::LeftShift(Box::new(l), Box::new(r))) == expr_text(l) + " << "@ + expr_text(r),
        expr_text(Expr::RightShift(Box::new(l), Box::new(r))) == expr_text(l) + " >> "@ + expr_text(r),
        expr_text(Expr::BitAnd(Box::new(l), Box::new(r))) == expr_text(l) + " & "@ + expr_text(r),
        expr_text(Expr::BitOr(Box::new(l), Box::new(r))) == expr_text(l) + " | "@ + expr_text(r),
        expr_text(Expr::Bte(Box::new(l), Box::new(r))) == expr_text(l) + " >= "@ + expr_text(r),
        expr_text(Expr::Lte(Box::new(l), Box::new(r))) == expr_text(l) + " <= "@ + expr_text(r),
        expr_text(Expr::Neq(Box::new(l), Box::new(r))) == expr_text(l) + " != "@ + expr_text(r),
        expr_text(Expr::Bt(Box::new(l), Box::new(r))) == expr_text(l) + " > "@ + expr_text(r),
        expr_text(Expr::Lt(Box::new(l), Box::new(r))) == expr_text(l) + " < "@ + expr_text(r),
        expr_text(Expr::Eq(Box::new(l), Box::new(r))) == expr_text(l) + " == "@ + expr_text(r),
        expr_text(Expr::And(Box::new(l), Box::new(r))) == expr_text(l) + " AND "@ + expr_text(r),
        expr_text(Expr::Or(Box::new(l), Box::new(r))) == expr_text(l) + " OR "@ + expr_text(r),
{
}

/// The name token of every plain aggregate call: `AVG`, `BIT_AND`,
/// `BIT_OR`, `BIT_XOR`, `COUNT` for both counts, `Max`, `Min`.
pub open spec fn aggregate_name_token(f: AggregateFunction) -> Seq<char> {
    match f {
        AggregateFunction::Average => "AVG"@,
        AggregateFunction::BitAnd => "BIT_AND"@,
        AggregateFunction::BitOr => "BIT_OR"@,
        AggregateFunction::BitXor => "BIT_XOR"@,
        AggregateFunction::Count => "COUNT"@,
        AggregateFunction::CountDistinct => "COUNT"@,
        AggregateFunction::Max => "Max"@,
        AggregateFunction::Min => "Min"@,
        AggregateFunction::Sum => Seq::empty(),
        AggregateFunction::GroupConcat => Seq::empty(),
    }
}

/// A plain aggregate call renders as its name, `(`, `DISTINCT` exactly
/// when it counts distinct values, the tokens of its argument, `)`; in
/// particular a `Count` call renders `COUNT ( ` argument ` )`.
pub proof fn law_aggregate_call_tokens(c: NormalAggregateFunctionCall)
    requires
        aggregate_renderable(c.function),
    ensures
        render(c.sql_parts()) == seq![aggregate_name_token(c.function), "("@] + (if c.function
            == AggregateFunction::CountDistinct {
            seq!["DISTINCT"@]
        } else {
            Seq::<Seq<char>>::empty()
        }) + render(c.param.sql_parts()) + seq![")"@],
        c.function == AggregateFunction::Count ==> render(c.sql_parts()) == seq!["COUNT"@, "("@]
            + render(c.param.sql_parts()) + seq![")"@],
{
}


/// A negation displays as `!` then its operand, a bit inversion as `~`
/// then its operand; a membership test as the operand, ` IN (`, the
/// values separated by `, `, `)`.
pub proof fn law_prefix_expr_display(x: Expr, values: Vec<DatabaseValue>)
    ensures
        expr_text(Expr::Not(Box::new(x))) == "!"@ + expr_text(x),
        expr_text(Expr::BitInverse(Box::new(x))) == "~"@ + expr_text(x),
        expr_text(Expr::InArr(Box::new(x), values)) == expr_text(x) + " IN ("@ + join_text(
            values@.map_values(|v: DatabaseValue| value_text(v)),
            ", "@,
        ) + ")"@,
{
}

/// A membership test renders as `(`, the operand, `IN`, `(`, one
/// placeholder per value separated by `,` tokens, `)`, `)`; and its
/// placeholders stand for the values in order.
pub proof fn law_in_values_tokens(x: Expr, values: Vec<DatabaseValue>)
    ensures
        render(Expr::InArr(Box::new(x), values).sql_parts()) == seq!["("@] + render(x.sql_parts())
            + seq!["IN"@, "("@] + render(
            join_parts(values@.map_values(|v: DatabaseValue| seq![SqlPart::Param(v)]), ","@),
        ) + seq![")"@, ")"@],
{
}

/// A subquery function call renders as its name (`ANY` or `ALL`), then
/// the subquery in parentheses.
pub proof fn law_subquery_call_tokens(c: SubqueryFunctionCall)
    ensures
        render(c.sql_parts()) == seq![
            match c.function {
                SubqueryFunction::Any => "ANY"@,
                SubqueryFunction::All => "ALL"@,
            },
            "("@,
        ] + render(select_query_parts(c.subquery)) + seq![")"@],
{
}

/// A `GROUP_CONCAT` call renders as `GROUP_CONCAT(`, its expression,
/// `ORDER BY` and the sort keys when there are any, `SEPARATOR ` and the
/// separator when there is one, `)`.
pub proof fn law_group_concat_tokens(c: GroupConcatFunctionCall)
    ensures
        render(c.sql_parts()) == seq!["GROUP_CONCAT("@] + render(c.expr.sql_parts()) + (if c.order_by@.len()
            > 0 {
            seq!["ORDER BY"@] + render(order_items_parts(c.order_by@))
        } else {
            Seq::<Seq<char>>::empty()
        }) + (match c.separator {
            Some(t) => seq!["SEPARATOR "@, t@],
            None => Seq::<Seq<char>>::empty(),
        }) + seq![")"@],
{
}

} // verus!
