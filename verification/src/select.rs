use vstd::prelude::*;

use crate::expr::{
    expr_args, expr_parts, expr_ready, expr_to_sql, exprs_args, exprs_parts, exprs_ready,
    exprs_to_sql, Expr, copy_expr, copy_exprs, bind_expr, bind_exprs, expr_aligned, exprs_aligned,
    values_parts, normal_call_parts, group_concat_parts, subquery_call_parts, function_call_parts,
    function_call_args, function_call_aligned, FunctionCall, AggregateFunctionCall, expr_text,
    expr_display, expr_displayable, exprs_text, exprs_display, exprs_displayable, push_text,
    expr_is_ready, exprs_are_ready, expr_equiv, exprs_equiv,
};
use crate::ident::{aliased_table_parts, aliased_table_text, copy_aliased_table, Alias, AliasedTable};
use crate::state::{
    group_params, params_of, group_render, join_parts, render, text, BindArgs, FmtResult,
    QueryBuildState, SqlPart, ToSql, YukinoQuery,
};
use crate::text::{decimal_digits, unsigned_text};
use crate::value::DatabaseValue;

verus! {

broadcast use group_render, group_params;

/// A sort direction.
#[derive(Clone, Copy, Eq, PartialEq, Debug, Structural)]
pub enum Order {
    Asc,
    Desc,
}

/// The starting point of a `SELECT`.
#[derive(Clone, Debug)]
pub struct Select;

/// `FROM` a table, with joins and `WHERE` conditions.
#[derive(Debug)]
pub struct SelectFrom {
    table: AliasedTable,
    join: Vec<Join>,
    where_clauses: Vec<Expr>,
}

/// A `SelectFrom` grouped by some expressions, with `HAVING` conditions.
#[derive(Debug)]
pub struct GroupSelect {
    base: SelectFrom,
    group_by: Vec<Expr>,
    having: Vec<Expr>,
}

/// A complete `SELECT` query.
#[derive(Debug)]
pub struct SelectQuery {
    base: SelectSource,
    select: Vec<SelectItem>,
    order_by: Vec<OrderByItem>,
    limit: Option<usize>,
    offset: usize,
}

/// One selected expression, optionally named.
#[derive(Debug)]
pub struct SelectItem {
    pub expr: Expr,
    pub alias: Option<String>,
}

/// One sort key.
#[derive(Debug)]
pub struct OrderByItem {
    pub expr: Expr,
    pub order: Order,
}

/// What a `SELECT` reads from.
#[derive(Debug)]
pub enum SelectSource {
    From(SelectFrom),
    Group(GroupSelect),
}

/// The kinds of join.
#[derive(Copy, Clone, Debug, PartialEq, Eq, Structural)]
pub enum JoinType {
    InnerJoin,
    LeftJoin,
    RightJoin,
}

/// A joined table with its condition.
#[derive(Debug)]
pub struct Join {
    pub ty: JoinType,
    pub table: AliasedTable,
    pub on: Expr,
}

/// The token of a sort direction.
pub open spec fn order_text(o: Order) -> Seq<char> {
    match o {
        Order::Asc => "ASC"@,
        Order::Desc => "DESC"@,
    }
}

/// The token of a join kind.
pub open spec fn join_type_text(t: JoinType) -> Seq<char> {
    match t {
        JoinType::InnerJoin => "INNER JOIN"@,
        JoinType::LeftJoin => "LEFT JOIN"@,
        JoinType::RightJoin => "RIGHT JOIN"@,
    }
}

/// The parts of a sort key: the expression, then the direction.
pub open spec fn order_item_parts(o: OrderByItem) -> Seq<SqlPart>
    decreases o,
{
    expr_parts(o.expr) + text(order_text(o.order))
}

/// The parts of a list of sort keys, separated by `,` tokens.
pub open spec fn order_items_parts(items: Seq<OrderByItem>) -> Seq<SqlPart>
    decreases items,
{
    if items.len() == 0 {
        Seq::empty()
    } else if items.len() == 1 {
        order_item_parts(items[0])
    } else {
        order_items_parts(items.drop_last()) + text(","@) + order_item_parts(items.last())
    }
}

/// Whether every sort key can be rendered.
pub open spec fn order_items_ready(items: Seq<OrderByItem>) -> bool
    decreases items,
{
    forall|i: int| 0 <= i < items.len() ==> expr_ready(#[trigger] items[i].expr)
}

/// The values bound for a list of sort keys.
pub open spec fn order_items_args(items: Seq<OrderByItem>) -> Seq<DatabaseValue>
    decreases items,
{
    if items.len() == 0 {
        Seq::empty()
    } else {
        order_items_args(items.drop_last()) + expr_args(items.last().expr)
    }
}

/// The parts of a selected expression: the expression, then `AS ` and
/// the name when it has one.
pub open spec fn select_item_parts(i: SelectItem) -> Seq<SqlPart>
    decreases i,
{
    expr_parts(i.expr) + match i.alias {
        Some(a) => text("AS "@) + text(a@),
        None => Seq::empty(),
    }
}

/// The parts of a list of selected expressions, separated by `,` tokens.
pub open spec fn select_items_parts(items: Seq<SelectItem>) -> Seq<SqlPart>
    decreases items,
{
    if items.len() == 0 {
        Seq::empty()
    } else if items.len() == 1 {
        select_item_parts(items[0])
    } else {
        select_items_parts(items.drop_last()) + text(","@) + select_item_parts(items.last())
    }
}

/// Whether every selected expression can be rendered.
pub open spec fn select_items_ready(items: Seq<SelectItem>) -> bool
    decreases items,
{
    forall|i: int| 0 <= i < items.len() ==> expr_ready(#[trigger] items[i].expr)
}

/// The values bound for a list of selected expressions.
pub open spec fn select_items_args(items: Seq<SelectItem>) -> Seq<DatabaseValue>
    decreases items,
{
    if items.len() == 0 {
        Seq::empty()
    } else {
        select_items_args(items.drop_last()) + expr_args(items.last().expr)
    }
}

/// The parts of a join: its kind, the table, `ON`, the condition.
pub open spec fn join_clause_parts(j: Join) -> Seq<SqlPart>
    decreases j,
{
    text(join_type_text(j.ty)) + aliased_table_parts(j.table) + text("ON"@) + expr_parts(j.on)
}

/// The parts of a list of joins, one after the other.
pub open spec fn joins_parts(items: Seq<Join>) -> Seq<SqlPart>
    decreases items,
{
    if items.len() == 0 {
        Seq::empty()
    } else {
        joins_parts(items.drop_last()) + join_clause_parts(items.last())
    }
}

/// Whether every join condition can be rendered.
pub open spec fn joins_ready(items: Seq<Join>) -> bool
    decreases items,
{
    forall|i: int| 0 <= i < items.len() ==> expr_ready(#[trigger] items[i].on)
}

/// The values bound for a list of joins.
pub open spec fn joins_args(items: Seq<Join>) -> Seq<DatabaseValue>
    decreases items,
{
    if items.len() == 0 {
        Seq::empty()
    } else {
        joins_args(items.drop_last()) + expr_args(items.last().on)
    }
}

/// The parts of a `FROM` clause with its joins and `WHERE` conditions.
pub closed spec fn select_from_parts(f: SelectFrom) -> Seq<SqlPart>
    decreases f,
{
    text("FROM"@) + aliased_table_parts(f.table) + joins_parts(f.join@) + if f.where_clauses@.len()
        > 0 {
        text("WHERE"@) + exprs_parts(f.where_clauses@, "AND"@)
    } else {
        Seq::empty()
    }
}

pub closed spec fn select_from_ready(f: SelectFrom) -> bool
    decreases f,
{
    joins_ready(f.join@) && exprs_ready(f.where_clauses@)
}

pub closed spec fn select_from_args(f: SelectFrom) -> Seq<DatabaseValue>
    decreases f,
{
    joins_args(f.join@) + exprs_args(f.where_clauses@)
}

/// The parts of a grouped source: the `FROM` clause, then `GROUP BY` and
/// the keys when there are keys, then `HAVING` and the conditions when
/// there are keys and conditions.
pub closed spec fn group_select_parts(g: GroupSelect) -> Seq<SqlPart>
    decreases g,
{
    select_from_parts(g.base) + if g.group_by@.len() > 0 {
        text("GROUP BY"@) + exprs_parts(g.group_by@, ","@) + if g.having@.len() > 0 {
            text("HAVING"@) + exprs_parts(g.having@, "AND"@)
        } else {
            Seq::empty()
        }
    } else {
        Seq::empty()
    }
}

pub closed spec fn group_select_ready(g: GroupSelect) -> bool
    decreases g,
{
    select_from_ready(g.base) && exprs_ready(g.group_by@) && exprs_ready(g.having@)
}

/// The values bound for a grouped source: those of the base, of the keys
/// and of the conditions.
pub closed spec fn group_select_args(g: GroupSelect) -> Seq<DatabaseValue>
    decreases g,
{
    select_from_args(g.base) + exprs_args(g.group_by@) + exprs_args(g.having@)
}

pub open spec fn select_source_parts(s: SelectSource) -> Seq<SqlPart>
    decreases s,
{
    match s {
        SelectSource::From(f) => select_from_parts(f),
        SelectSource::Group(g) => group_select_parts(g),
    }
}

pub open spec fn select_source_ready(s: SelectSource) -> bool
    decreases s,
{
    match s {
        SelectSource::From(f) => select_from_ready(f),
        SelectSource::Group(g) => group_select_ready(g),
    }
}

pub open spec fn select_source_args(s: SelectSource) -> Seq<DatabaseValue>
    decreases s,
{
    match s {
        SelectSource::From(f) => select_from_args(f),
        SelectSource::Group(g) => group_select_args(g),
    }
}

/// The parts of a query: `SELECT`, the selected expressions, the source,
/// `ORDER BY` and the keys when there are keys, `LIMIT ` and the limit
/// when there is one, `OFFSET ` and the offset when it is not zero.
pub closed spec fn select_query_parts(q: SelectQuery) -> Seq<SqlPart>
    decreases q,
{
    text("SELECT"@) + select_items_parts(q.select@) + select_source_parts(q.base) + (if q.order_by@.len()
        > 0 {
        text("ORDER BY"@) + order_items_parts(q.order_by@)
    } else {
        Seq::empty()
    }) + (match q.limit {
        Some(l) => text("LIMIT "@) + text(decimal_digits(l as nat)),
        None => Seq::empty(),
    }) + (if q.offset != 0 {
        text("OFFSET "@) + text(decimal_digits(q.offset as nat))
    } else {
        Seq::empty()
    })
}

pub closed spec fn select_query_ready(q: SelectQuery) -> bool
    decreases q,
{
    select_items_ready(q.select@) && select_source_ready(q.base) && order_items_ready(
        q.order_by@,
    )
}

/// The values bound for a query: those of the selected expressions, of
/// the source and of the sort keys.
pub closed spec fn select_query_args(q: SelectQuery) -> Seq<DatabaseValue>
    decreases q,
{
    select_items_args(q.select@) + select_source_args(q.base) + order_items_args(q.order_by@)
}

/// Appends the token of a sort direction.
pub fn order_to_sql(o: &Order, state: &mut QueryBuildState) -> (r: FmtResult)
    ensures
        final(state)@ == old(state)@.push(order_text(*o)),
        r is Ok,
{
    match o {
        Order::Asc => state.write_str("ASC"),
        Order::Desc => state.write_str("DESC"),
    }
}

/// Appends the tokens of a list of sort keys, separated by `,`.
#[verifier::loop_isolation(false)]
pub fn order_items_to_sql(items: &Vec<OrderByItem>, state: &mut QueryBuildState) -> (r:
    FmtResult)
    requires
        order_items_ready(items@),
    ensures
        final(state)@ == old(state)@ + render(order_items_parts(items@)),
        r is Ok,
    decreases items,
{
    let n = items.len();
    let mut i: usize = 0;
    while i < n
        invariant
            n == items@.len(),
            0 <= i <= n,
            state@ == old(state)@ + render(order_items_parts(items@.take(i as int))),
        decreases n - i,
    {
        if i != 0 {
            state.write_str(",")?;
        }
        proof {
            assert(expr_ready(items@[i as int].expr));
            assert(decreases_to!(*items => items@));
            assert(decreases_to!(items@ => items@[i as int]));
            assert(decreases_to!(items@[i as int] => items@[i as int].expr));
        }
        let ghost mid = state@;
        expr_to_sql(&items[i].expr, state)?;
        order_to_sql(&items[i].order, state)?;
        proof {
            assert(state@ =~= mid + render(order_item_parts(items@[i as int])));
            if i != 0 {
                assert(mid == old(state)@ + render(order_items_parts(items@.take(i as int)) + text(","@)));
            }
            let t = items@.take(i + 1);
            assert(t.drop_last() =~= items@.take(i as int));
            assert(t.last() == items@[i as int]);
            if i == 0 {
                assert(order_items_parts(t) == order_item_parts(items@[0]));
            }
            assert(state@ =~= old(state)@ + render(order_items_parts(t)));
        }
        i = i + 1;
    }
    assert(items@.take(n as int) =~= items@);
    Ok(())
}

/// Appends the tokens of a list of selected expressions, separated by `,`.
#[verifier::loop_isolation(false)]
pub fn select_items_to_sql(items: &Vec<SelectItem>, state: &mut QueryBuildState) -> (r:
    FmtResult)
    requires
        select_items_ready(items@),
    ensures
        final(state)@ == old(state)@ + render(select_items_parts(items@)),
        r is Ok,
    decreases items,
{
    let n = items.len();
    let mut i: usize = 0;
    while i < n
        invariant
            n == items@.len(),
            0 <= i <= n,
            state@ == old(state)@ + render(select_items_parts(items@.take(i as int))),
        decreases n - i,
    {
        if i != 0 {
            state.write_str(",")?;
        }
        proof {
            assert(expr_ready(items@[i as int].expr));
            assert(decreases_to!(*items => items@));
            assert(decreases_to!(items@ => items@[i as int]));
            assert(decreases_to!(items@[i as int] => items@[i as int].expr));
        }
        let ghost mid = state@;
        expr_to_sql(&items[i].expr, state)?;
        if let Some(alias) = &items[i].alias {
            state.write_str("AS ")?;
            state.write_str(alias.as_str())?;
        }
        proof {
            assert(state@ =~= mid + render(select_item_parts(items@[i as int])));
            if i != 0 {
                assert(mid == old(state)@ + render(select_items_parts(items@.take(i as int)) + text(","@)));
            }
            let t = items@.take(i + 1);
            assert(t.drop_last() =~= items@.take(i as int));
            assert(t.last() == items@[i as int]);
            if i == 0 {
                assert(select_items_parts(t) == select_item_parts(items@[0]));
            }
            assert(state@ =~= old(state)@ + render(select_items_parts(t)));
        }
        i = i + 1;
    }
    assert(items@.take(n as int) =~= items@);
    Ok(())
}

/// Appends the tokens of the joins, one after the other.
#[verifier::loop_isolation(false)]
pub fn joins_to_sql(items: &Vec<Join>, state: &mut QueryBuildState) -> (r: FmtResult)
    requires
        joins_ready(items@),
    ensures
        final(state)@ == old(state)@ + render(joins_parts(items@)),
        r is Ok,
    decreases items,
{
    let n = items.len();
    let mut i: usize = 0;
    while i < n
        invariant
            n == items@.len(),
            0 <= i <= n,
            state@ == old(state)@ + render(joins_parts(items@.take(i as int))),
        decreases n - i,
    {
        proof {
            assert(expr_ready(items@[i as int].on));
            assert(decreases_to!(*items => items@));
            assert(decreases_to!(items@ => items@[i as int]));
            assert(decreases_to!(items@[i as int] => items@[i as int].on));
        }
        let ghost mid = state@;
        join_type_to_sql(&items[i].ty, state)?;
        items[i].table.to_sql(state)?;
        state.write_str("ON")?;
        expr_to_sql(&items[i].on, state)?;
        proof {
            let t = items@.take(i + 1);
            assert(t.drop_last() =~= items@.take(i as int));
            assert(t.last() == items@[i as int]);
            assert(state@ =~= mid + render(join_clause_parts(items@[i as int])));
            assert(joins_parts(t) == joins_parts(items@.take(i as int)) + join_clause_parts(items@[i as int]));
            assert(state@ =~= old(state)@ + render(joins_parts(t)));
        }
        i = i + 1;
    }
    assert(items@.take(n as int) =~= items@);
    Ok(())
}

/// Appends the token of a join kind.
pub fn join_type_to_sql(t: &JoinType, state: &mut QueryBuildState) -> (r: FmtResult)
    ensures
        final(state)@ == old(state)@.push(join_type_text(*t)),
        r is Ok,
{
    match t {
        JoinType::InnerJoin => state.write_str("INNER JOIN"),
        JoinType::LeftJoin => state.write_str("LEFT JOIN"),
        JoinType::RightJoin => state.write_str("RIGHT JOIN"),
    }
}

/// Appends the tokens of a `FROM` clause.
pub fn select_from_to_sql(f: &SelectFrom, state: &mut QueryBuildState) -> (r: FmtResult)
    requires
        select_from_ready(*f),
    ensures
        final(state)@ == old(state)@ + render(select_from_parts(*f)),
        r is Ok,
    decreases f,
{
    state.write_str("FROM")?;
    f.table.to_sql(state)?;
    joins_to_sql(&f.join, state)?;
    if f.where_clauses.len() > 0 {
        state.write_str("WHERE")?;
        exprs_to_sql(&f.where_clauses, "AND", state)?;
    }
    assert(state@ =~= old(state)@ + render(select_from_parts(*f)));
    Ok(())
}

/// Appends the tokens of a grouped source.
pub fn group_select_to_sql(g: &GroupSelect, state: &mut QueryBuildState) -> (r: FmtResult)
    requires
        group_select_ready(*g),
    ensures
        final(state)@ == old(state)@ + render(group_select_parts(*g)),
        r is Ok,
    decreases g,
{
    select_from_to_sql(&g.base, state)?;
    if g.group_by.len() > 0 {
        state.write_str("GROUP BY")?;
        exprs_to_sql(&g.group_by, ",", state)?;
        if g.having.len() > 0 {
            state.write_str("HAVING")?;
            exprs_to_sql(&g.having, "AND", state)?;
        }
    }
    assert(state@ =~= old(state)@ + render(group_select_parts(*g)));
    Ok(())
}

/// Appends the tokens of a source.
pub fn select_source_to_sql(s: &SelectSource, state: &mut QueryBuildState) -> (r: FmtResult)
    requires
        select_source_ready(*s),
    ensures
        final(state)@ == old(state)@ + render(select_source_parts(*s)),
        r is Ok,
    decreases s,
{
    match s {
        SelectSource::From(f) => select_from_to_sql(f, state),
        SelectSource::Group(g) => group_select_to_sql(g, state),
    }
}

/// Appends the tokens of a query.
#[verifier::spinoff_prover]
#[verifier::rlimit(50)]
pub fn select_query_to_sql(q: &SelectQuery, state: &mut QueryBuildState) -> (r: FmtResult)
    requires
        select_query_ready(*q),
    ensures
        final(state)@ == old(state)@ + render(select_query_parts(*q)),
        r is Ok,
    decreases q,
{
    state.write_str("SELECT")?;
    select_items_to_sql(&q.select, state)?;
    let ghost p0 = text("SELECT"@) + select_items_parts(q.select@);
    assert(state@ =~= old(state)@ + render(p0));
    select_source_to_sql(&q.base, state)?;
    let ghost p1 = p0 + select_source_parts(q.base);
    assert(state@ =~= old(state)@ + render(p1));
    if q.order_by.len() > 0 {
        state.write_str("ORDER BY")?;
        order_items_to_sql(&q.order_by, state)?;
    }
    let ghost p2 = p1 + (if q.order_by@.len() > 0 {
        text("ORDER BY"@) + order_items_parts(q.order_by@)
    } else {
        Seq::empty()
    });
    assert(state@ =~= old(state)@ + render(p2));
    if let Some(limit) = q.limit {
        state.write_str("LIMIT ")?;
        state.write_string(unsigned_text(limit as u64))?;
    }
    let ghost p3 = p2 + (match q.limit {
        Some(l) => text("LIMIT "@) + text(decimal_digits(l as nat)),
        None => Seq::empty(),
    });
    assert(state@ =~= old(state)@ + render(p3));
    if q.offset != 0 {
        state.write_str("OFFSET ")?;
        state.write_string(unsigned_text(q.offset as u64))?;
    }
    let ghost p4 = p3 + (if q.offset != 0 {
        text("OFFSET "@) + text(decimal_digits(q.offset as nat))
    } else {
        Seq::empty()
    });
    assert(state@ =~= old(state)@ + render(p4));
    assert(select_query_parts(*q) == p4);
    Ok(())
}


/// Whether `b` is a copy of the sort keys `a`, key by key.
pub open spec fn order_items_equiv(a: Seq<OrderByItem>, b: Seq<OrderByItem>) -> bool
    decreases a,
{
    a.len() == b.len() && forall|i: int|
        0 <= i < a.len() ==> expr_equiv(#[trigger] a[i].expr, b[i].expr) && a[i].order == b[i].order
}

/// Whether `b` is a copy of the selected expressions `a`, item by item.
pub open spec fn select_items_equiv(a: Seq<SelectItem>, b: Seq<SelectItem>) -> bool
    decreases a,
{
    a.len() == b.len() && forall|i: int|
        0 <= i < a.len() ==> expr_equiv(#[trigger] a[i].expr, b[i].expr) && a[i].alias == b[i].alias
}

/// Whether `b` is a copy of the joins `a`, join by join.
pub open spec fn joins_equiv(a: Seq<Join>, b: Seq<Join>) -> bool
    decreases a,
{
    a.len() == b.len() && forall|i: int|
        0 <= i < a.len() ==> expr_equiv(#[trigger] a[i].on, b[i].on) && a[i].ty == b[i].ty
            && a[i].table == b[i].table
}

/// Whether `b` is a copy of the `FROM` clause `a`.
pub closed spec fn select_from_equiv(a: SelectFrom, b: SelectFrom) -> bool
    decreases a,
{
    a.table == b.table && joins_equiv(a.join@, b.join@) && exprs_equiv(
        a.where_clauses@,
        b.where_clauses@,
    )
}

/// Whether `b` is a copy of the grouped source `a`.
pub closed spec fn group_select_equiv(a: GroupSelect, b: GroupSelect) -> bool
    decreases a,
{
    select_from_equiv(a.base, b.base) && exprs_equiv(a.group_by@, b.group_by@) && exprs_equiv(
        a.having@,
        b.having@,
    )
}

/// Whether `b` is a copy of the source `a`.
pub open spec fn select_source_equiv(a: SelectSource, b: SelectSource) -> bool
    decreases a,
{
    match a {
        SelectSource::From(f) => b matches SelectSource::From(g) && select_from_equiv(f, g),
        SelectSource::Group(f) => b matches SelectSource::Group(g) && group_select_equiv(f, g),
    }
}

/// Whether `b` is a copy of the query `a`: the same source, selected
/// expressions, sort keys, limit and offset.
pub closed spec fn select_query_equiv(a: SelectQuery, b: SelectQuery) -> bool
    decreases a,
{
    select_source_equiv(a.base, b.base) && select_items_equiv(a.select@, b.select@)
        && order_items_equiv(a.order_by@, b.order_by@) && a.limit == b.limit && a.offset == b.offset
}

/// A deep copy of a list of sort keys.
#[verifier::loop_isolation(false)]
pub(crate) fn copy_order_items(items: &Vec<OrderByItem>) -> (r: Vec<OrderByItem>)
    ensures
        order_items_equiv(items@, r@),
    decreases items,
{
    let mut out: Vec<OrderByItem> = Vec::new();
    let n = items.len();
    let mut i: usize = 0;
    while i < n
        invariant
            n == items@.len(),
            0 <= i <= n,
            out@.len() == i,
            forall|j: int| 0 <= j < i ==> expr_equiv(#[trigger] items@[j].expr, out@[j].expr) && items@[j].order == out@[j].order,
        decreases n - i,
    {
        proof {
            assert(decreases_to!(*items => items@));
            assert(decreases_to!(items@ => items@[i as int]));
            assert(decreases_to!(items@[i as int] => items@[i as int].expr));
        }
        out.push(OrderByItem { expr: copy_expr(&items[i].expr), order: items[i].order });
        i = i + 1;
    }
    out
}

/// A deep copy of a list of selected expressions.
#[verifier::loop_isolation(false)]
pub(crate) fn copy_select_items(items: &Vec<SelectItem>) -> (r: Vec<SelectItem>)
    ensures
        select_items_equiv(items@, r@),
    decreases items,
{
    let mut out: Vec<SelectItem> = Vec::new();
    let n = items.len();
    let mut i: usize = 0;
    while i < n
        invariant
            n == items@.len(),
            0 <= i <= n,
            out@.len() == i,
            forall|j: int| 0 <= j < i ==> expr_equiv(#[trigger] items@[j].expr, out@[j].expr) && items@[j].alias == out@[j].alias,
        decreases n - i,
    {
        proof {
            assert(decreases_to!(*items => items@));
            assert(decreases_to!(items@ => items@[i as int]));
            assert(decreases_to!(items@[i as int] => items@[i as int].expr));
        }
        let alias = match &items[i].alias {
            Some(t) => Some(t.clone()),
            None => None,
        };
        out.push(SelectItem { expr: copy_expr(&items[i].expr), alias });
        i = i + 1;
    }
    out
}

/// A deep copy of a list of joins.
#[verifier::loop_isolation(false)]
pub(crate) fn copy_joins(items: &Vec<Join>) -> (r: Vec<Join>)
    ensures
        joins_equiv(items@, r@),
    decreases items,
{
    let mut out: Vec<Join> = Vec::new();
    let n = items.len();
    let mut i: usize = 0;
    while i < n
        invariant
            n == items@.len(),
            0 <= i <= n,
            out@.len() == i,
            forall|j: int| 0 <= j < i ==> expr_equiv(#[trigger] items@[j].on, out@[j].on) && items@[j].ty == out@[j].ty && items@[j].table == out@[j].table,
        decreases n - i,
    {
        proof {
            assert(decreases_to!(*items => items@));
            assert(decreases_to!(items@ => items@[i as int]));
            assert(decreases_to!(items@[i as int] => items@[i as int].on));
        }
        out.push(Join { ty: items[i].ty, table: copy_aliased_table(&items[i].table), on: copy_expr(&items[i].on) });
        i = i + 1;
    }
    out
}

/// A deep copy of a `FROM` clause.
pub(crate) fn copy_select_from(f: &SelectFrom) -> (r: SelectFrom)
    ensures
        select_from_equiv(*f, r),
    decreases f,
{
    SelectFrom {
        table: copy_aliased_table(&f.table),
        join: copy_joins(&f.join),
        where_clauses: copy_exprs(&f.where_clauses),
    }
}

/// A deep copy of a grouped source.
pub(crate) fn copy_group_select(g: &GroupSelect) -> (r: GroupSelect)
    ensures
        group_select_equiv(*g, r),
    decreases g,
{
    GroupSelect {
        base: copy_select_from(&g.base),
        group_by: copy_exprs(&g.group_by),
        having: copy_exprs(&g.having),
    }
}

/// A deep copy of a source.
pub(crate) fn copy_select_source(s: &SelectSource) -> (r: SelectSource)
    ensures
        select_source_equiv(*s, r),
    decreases s,
{
    match s {
        SelectSource::From(f) => SelectSource::From(copy_select_from(f)),
        SelectSource::Group(g) => SelectSource::Group(copy_group_select(g)),
    }
}

/// A deep copy of a query.
pub(crate) fn copy_select_query(q: &SelectQuery) -> (r: SelectQuery)
    ensures
        select_query_equiv(*q, r),
    decreases q,
{
    SelectQuery {
        base: copy_select_source(&q.base),
        select: copy_select_items(&q.select),
        order_by: copy_order_items(&q.order_by),
        limit: q.limit,
        offset: q.offset,
    }
}

impl Clone for SelectFrom {
    fn clone(&self) -> Self {
        copy_select_from(self)
    }
}

impl Clone for GroupSelect {
    fn clone(&self) -> Self {
        copy_group_select(self)
    }
}

impl Clone for SelectQuery {
    fn clone(&self) -> Self {
        copy_select_query(self)
    }
}

impl Clone for SelectSource {
    fn clone(&self) -> Self {
        copy_select_source(self)
    }
}

impl Clone for SelectItem {
    fn clone(&self) -> Self {
        SelectItem { expr: copy_expr(&self.expr), alias: self.alias.clone() }
    }
}

impl Clone for OrderByItem {
    fn clone(&self) -> Self {
        OrderByItem { expr: copy_expr(&self.expr), order: self.order }
    }
}

impl Clone for Join {
    fn clone(&self) -> Self {
        Join { ty: self.ty, table: self.table.clone(), on: copy_expr(&self.on) }
    }
}

/// Moves the values of every item of `items` into `args`, in order.
#[verifier::loop_isolation(false)]
pub fn bind_order_items(items: Vec<OrderByItem>, args: &mut Vec<DatabaseValue>)
    ensures
        final(args)@ == old(args)@ + order_items_args(items@),
    decreases items,
{
    let ghost all = items;
    let mut rest = items;
    let n = rest.len();
    let mut k: usize = 0;
    while rest.len() > 0
        invariant
            n == all@.len(),
            0 <= k <= all@.len(),
            rest@ == all@.skip(k as int),
            args@ == old(args)@ + order_items_args(all@.take(k as int)),
        decreases rest.len(),
    {
        let x = rest.remove(0);
        proof {
            assert(x == all@[k as int]);
            assert(decreases_to!(all => all@));
            assert(decreases_to!(all@ => all@[k as int]));
            assert(decreases_to!(all@[k as int] => all@[k as int].expr));
        }
        bind_expr(x.expr, args);
        proof {
            let t = all@.take(k + 1);
            assert(t.drop_last() =~= all@.take(k as int));
            assert(t.last() == all@[k as int]);
            assert(rest@ =~= all@.skip(k + 1));
        }
        k = k + 1;
        assert(args@ =~= old(args)@ + order_items_args(all@.take(k as int)));
    }
    assert(all@.take(k as int) =~= all@);
}

/// Moves the values of every item of `items` into `args`, in order.
#[verifier::loop_isolation(false)]
pub fn bind_select_items(items: Vec<SelectItem>, args: &mut Vec<DatabaseValue>)
    ensures
        final(args)@ == old(args)@ + select_items_args(items@),
    decreases items,
{
    let ghost all = items;
    let mut rest = items;
    let n = rest.len();
    let mut k: usize = 0;
    while rest.len() > 0
        invariant
            n == all@.len(),
            0 <= k <= all@.len(),
            rest@ == all@.skip(k as int),
            args@ == old(args)@ + select_items_args(all@.take(k as int)),
        decreases rest.len(),
    {
        let x = rest.remove(0);
        proof {
            assert(x == all@[k as int]);
            assert(decreases_to!(all => all@));
            assert(decreases_to!(all@ => all@[k as int]));
            assert(decreases_to!(all@[k as int] => all@[k as int].expr));
        }
        bind_expr(x.expr, args);
        proof {
            let t = all@.take(k + 1);
            assert(t.drop_last() =~= all@.take(k as int));
            assert(t.last() == all@[k as int]);
            assert(rest@ =~= all@.skip(k + 1));
        }
        k = k + 1;
        assert(args@ =~= old(args)@ + select_items_args(all@.take(k as int)));
    }
    assert(all@.take(k as int) =~= all@);
}

/// Moves the values of every item of `items` into `args`, in order.
#[verifier::loop_isolation(false)]
pub fn bind_joins(items: Vec<Join>, args: &mut Vec<DatabaseValue>)
    ensures
        final(args)@ == old(args)@ + joins_args(items@),
    decreases items,
{
    let ghost all = items;
    let mut rest = items;
    let n = rest.len();
    let mut k: usize = 0;
    while rest.len() > 0
        invariant
            n == all@.len(),
            0 <= k <= all@.len(),
            rest@ == all@.skip(k as int),
            args@ == old(args)@ + joins_args(all@.take(k as int)),
        decreases rest.len(),
    {
        let x = rest.remove(0);
        proof {
            assert(x == all@[k as int]);
            assert(decreases_to!(all => all@));
            assert(decreases_to!(all@ => all@[k as int]));
            assert(decreases_to!(all@[k as int] => all@[k as int].on));
        }
        bind_expr(x.on, args);
        proof {
            let t = all@.take(k + 1);
            assert(t.drop_last() =~= all@.take(k as int));
            assert(t.last() == all@[k as int]);
            assert(rest@ =~= all@.skip(k + 1));
        }
        k = k + 1;
        assert(args@ =~= old(args)@ + joins_args(all@.take(k as int)));
    }
    assert(all@.take(k as int) =~= all@);
}

/// Moves the values of a `FROM` clause into `args`: joins, then `WHERE`.
pub fn bind_select_from(f: SelectFrom, args: &mut Vec<DatabaseValue>)
    ensures
        final(args)@ == old(args)@ + select_from_args(f),
    decreases f,
{
    let ghost whole = f;
    bind_joins(f.join, args);
    bind_exprs(f.where_clauses, args);
    assert(args@ =~= old(args)@ + select_from_args(whole));
}

/// Moves the values of a grouped source into `args`: base, keys, `HAVING`.
pub fn bind_group_select(g: GroupSelect, args: &mut Vec<DatabaseValue>)
    ensures
        final(args)@ == old(args)@ + group_select_args(g),
    decreases g,
{
    let ghost whole = g;
    bind_select_from(g.base, args);
    bind_exprs(g.group_by, args);
    bind_exprs(g.having, args);
    assert(args@ =~= old(args)@ + group_select_args(whole));
}

/// Moves the values of a source into `args`.
pub fn bind_select_source(s: SelectSource, args: &mut Vec<DatabaseValue>)
    ensures
        final(args)@ == old(args)@ + select_source_args(s),
    decreases s,
{
    match s {
        SelectSource::From(f) => bind_select_from(f, args),
        SelectSource::Group(g) => bind_group_select(g, args),
    }
}

/// Moves the values of a query into `args`: selected expressions, source,
/// sort keys.
pub fn bind_select_query(q: SelectQuery, args: &mut Vec<DatabaseValue>)
    ensures
        final(args)@ == old(args)@ + select_query_args(q),
    decreases q,
{
    let ghost whole = q;
    bind_select_items(q.select, args);
    bind_select_source(q.base, args);
    bind_order_items(q.order_by, args);
    assert(args@ =~= old(args)@ + select_query_args(whole));
}

/// Whether every sort key is aligned.
pub open spec fn order_items_aligned(items: Seq<OrderByItem>) -> bool
    decreases items,
{
    forall|i: int| 0 <= i < items.len() ==> expr_aligned(#[trigger] items[i].expr)
}

/// Whether every selected expression is aligned.
pub open spec fn select_items_aligned(items: Seq<SelectItem>) -> bool
    decreases items,
{
    forall|i: int| 0 <= i < items.len() ==> expr_aligned(#[trigger] items[i].expr)
}

/// Whether every join condition is aligned.
pub open spec fn joins_aligned(items: Seq<Join>) -> bool
    decreases items,
{
    forall|i: int| 0 <= i < items.len() ==> expr_aligned(#[trigger] items[i].on)
}

pub closed spec fn select_from_aligned(f: SelectFrom) -> bool
    decreases f,
{
    joins_aligned(f.join@) && exprs_aligned(f.where_clauses@)
}

/// A grouped source is aligned when its parts are, and its `HAVING`
/// conditions bind no value unless it has grouping keys.
pub closed spec fn group_select_aligned(g: GroupSelect) -> bool
    decreases g,
{
    &&& select_from_aligned(g.base)
    &&& exprs_aligned(g.group_by@)
    &&& exprs_aligned(g.having@)
    &&& (g.group_by@.len() > 0 || exprs_args(g.having@).len() == 0)
}

pub open spec fn select_source_aligned(s: SelectSource) -> bool
    decreases s,
{
    match s {
        SelectSource::From(f) => select_from_aligned(f),
        SelectSource::Group(g) => group_select_aligned(g),
    }
}

pub closed spec fn select_query_aligned(q: SelectQuery) -> bool
    decreases q,
{
    select_items_aligned(q.select@) && select_source_aligned(q.base) && order_items_aligned(
        q.order_by@,
    )
}

/// The placeholders of an aligned expression stand for exactly the
/// values its binding supplies, in the same order.
pub proof fn lemma_expr_params(e: Expr)
    requires
        expr_aligned(e),
    ensures
        params_of(expr_parts(e)) == expr_args(e),
    decreases e,
{
    match e {
        Expr::Ident(_) => {},
        Expr::Lit(_) => {},
        Expr::FunctionCall(f) => {
            lemma_function_call_params(*f);
        },
        Expr::Subquery(q) => {
            lemma_select_query_params(q);
        },
        Expr::BitInverse(x) => {
            lemma_expr_params(*x);
        },
        Expr::BitXor(l, r) => {
            lemma_expr_params(*l);
            lemma_expr_params(*r);
        },
        Expr::Mul(l, r) => {
            lemma_expr_params(*l);
            lemma_expr_params(*r);
        },
        Expr::Div(l, r) => {
            lemma_expr_params(*l);
            lemma_expr_params(*r);
        },
        Expr::Rem(l, r) => {
            lemma_expr_params(*l);
            lemma_expr_params(*r);
        },
        Expr::Add(l, r) => {
            lemma_expr_params(*l);
            lemma_expr_params(*r);
        },
        Expr::Sub(l, r) => {
            lemma_expr_params(*l);
            lemma_expr_params(*r);
        },
        Expr::LeftShift(l, r) => {
            lemma_expr_params(*l);
            lemma_expr_params(*r);
        },
        Expr::RightShift(l, r) => {
            lemma_expr_params(*l);
            lemma_expr_params(*r);
        },
        Expr::BitAnd(l, r) => {
            lemma_expr_params(*l);
            lemma_expr_params(*r);
        },
        Expr::BitOr(l, r) => {
            lemma_expr_params(*l);
            lemma_expr_params(*r);
        },
        Expr::Bte(l, r) => {
            lemma_expr_params(*l);
            lemma_expr_params(*r);
        },
        Expr::Lte(l, r) => {
            lemma_expr_params(*l);
            lemma_expr_params(*r);
        },
        Expr::Neq(l, r) => {
            lemma_expr_params(*l);
            lemma_expr_params(*r);
        },
        Expr::Bt(l, r) => {
            lemma_expr_params(*l);
            lemma_expr_params(*r);
        },
        Expr::Lt(l, r) => {
            lemma_expr_params(*l);
            lemma_expr_params(*r);
        },
        Expr::Eq(l, r) => {
            lemma_expr_params(*l);
            lemma_expr_params(*r);
        },
        Expr::And(l, r) => {
            lemma_expr_params(*l);
            lemma_expr_params(*r);
        },
        Expr::Or(l, r) => {
            lemma_expr_params(*l);
            lemma_expr_params(*r);
        },
        Expr::Not(x) => {
            lemma_expr_params(*x);
        },
        Expr::In(x, q) => {
            lemma_expr_params(*x);
            lemma_select_query_params(q);
        },
        Expr::InArr(x, a) => {
            lemma_expr_params(*x);
            lemma_values_params(a@);
        },
        Expr::Exists(q) => {
            lemma_select_query_params(q);
        },
        Expr::NotExists(q) => {
            lemma_select_query_params(q);
        },
    }
    assert(params_of(expr_parts(e)) =~= expr_args(e));
}

/// The placeholders of a list of values stand for those values.
pub proof fn lemma_values_params(values: Seq<DatabaseValue>)
    ensures
        params_of(values_parts(values)) == values,
    decreases values.len(),
{
    let ps = values.map_values(|v: DatabaseValue| seq![SqlPart::Param(v)]);
    if values.len() == 0 {
    } else if values.len() == 1 {
        assert(values_parts(values) == seq![SqlPart::Param(values[0])]);
        assert(params_of(seq![SqlPart::Param(values[0])]) =~= values);
    } else {
        lemma_values_params(values.drop_last());
        assert(ps.drop_last() =~= values.drop_last().map_values(
            |v: DatabaseValue| seq![SqlPart::Param(v)],
        ));
        assert(values_parts(values) == values_parts(values.drop_last()) + text(","@) + seq![
            SqlPart::Param(values.last()),
        ]);
        assert(params_of(values_parts(values)) =~= values);
    }
}

pub proof fn lemma_exprs_params(items: Seq<Expr>, sep: Seq<char>)
    requires
        exprs_aligned(items),
    ensures
        params_of(exprs_parts(items, sep)) == exprs_args(items),
    decreases items,
{
    if items.len() == 0 {
    } else if items.len() == 1 {
        lemma_expr_params(items[0]);
        assert(exprs_args(items) =~= exprs_args(items.drop_last()) + expr_args(items.last()));
        assert(items.drop_last().len() == 0);
        assert(exprs_args(items) =~= expr_args(items[0]));
    } else {
        assert(expr_aligned(items.last()));
        lemma_expr_params(items.last());
        lemma_exprs_params(items.drop_last(), sep);
    }
}

pub proof fn lemma_order_items_params(items: Seq<OrderByItem>)
    requires
        order_items_aligned(items),
    ensures
        params_of(order_items_parts(items)) == order_items_args(items),
    decreases items,
{
    if items.len() == 0 {
    } else {
        assert(expr_aligned(items.last().expr));
        lemma_expr_params(items.last().expr);
        assert(params_of(order_item_parts(items.last())) =~= expr_args(items.last().expr));
        if items.len() == 1 {
            assert(items.drop_last().len() == 0);
            assert(order_items_args(items.drop_last()) =~= Seq::<DatabaseValue>::empty());
            assert(items.last() == items[0]);
            assert(order_items_args(items) =~= expr_args(items[0].expr));
            assert(order_items_parts(items) == order_item_parts(items[0]));
        } else {
            lemma_order_items_params(items.drop_last());
            assert(order_items_parts(items) == order_items_parts(items.drop_last()) + text(","@) + order_item_parts(
                items.last(),
            ));
        }
    }
}

pub proof fn lemma_select_items_params(items: Seq<SelectItem>)
    requires
        select_items_aligned(items),
    ensures
        params_of(select_items_parts(items)) == select_items_args(items),
    decreases items,
{
    if items.len() == 0 {
    } else {
        assert(expr_aligned(items.last().expr));
        lemma_expr_params(items.last().expr);
        assert(params_of(select_item_parts(items.last())) =~= expr_args(items.last().expr));
        if items.len() == 1 {
            assert(items.drop_last().len() == 0);
            assert(select_items_args(items.drop_last()) =~= Seq::<DatabaseValue>::empty());
            assert(items.last() == items[0]);
            assert(select_items_args(items) =~= expr_args(items[0].expr));
            assert(select_items_parts(items) == select_item_parts(items[0]));
        } else {
            lemma_select_items_params(items.drop_last());
            assert(select_items_parts(items) == select_items_parts(items.drop_last()) + text(","@) + select_item_parts(
                items.last(),
            ));
        }
    }
}

pub proof fn lemma_joins_params(items: Seq<Join>)
    requires
        joins_aligned(items),
    ensures
        params_of(joins_parts(items)) == joins_args(items),
    decreases items,
{
    if items.len() > 0 {
        let j = items.last();
        assert(expr_aligned(j.on));
        lemma_expr_params(j.on);
        lemma_joins_params(items.drop_last());
        assert(params_of(aliased_table_parts(j.table)) =~= Seq::<DatabaseValue>::empty());
        assert(params_of(join_clause_parts(j)) =~= expr_args(j.on));
        assert(joins_parts(items) == joins_parts(items.drop_last()) + join_clause_parts(j));
        assert(joins_args(items) == joins_args(items.drop_last()) + expr_args(j.on));
    }
}

pub proof fn lemma_select_from_params(f: SelectFrom)
    requires
        select_from_aligned(f),
    ensures
        params_of(select_from_parts(f)) == select_from_args(f),
    decreases f,
{
    lemma_joins_params(f.join@);
    lemma_exprs_params(f.where_clauses@, "AND"@);
    if f.where_clauses@.len() == 0 {
        assert(exprs_args(f.where_clauses@) =~= Seq::<DatabaseValue>::empty());
    }
    assert(params_of(select_from_parts(f)) =~= select_from_args(f));
}

#[verifier::spinoff_prover]
pub proof fn lemma_group_select_params(g: GroupSelect)
    requires
        group_select_aligned(g),
    ensures
        params_of(group_select_parts(g)) == group_select_args(g),
    decreases g,
{
    lemma_select_from_params(g.base);
    lemma_exprs_params(g.group_by@, ","@);
    lemma_exprs_params(g.having@, "AND"@);
    let base = select_from_parts(g.base);
    let keys = exprs_parts(g.group_by@, ","@);
    let conds = exprs_parts(g.having@, "AND"@);
    if g.group_by@.len() == 0 {
        assert(exprs_args(g.group_by@) =~= Seq::<DatabaseValue>::empty());
        assert(exprs_args(g.having@) =~= Seq::<DatabaseValue>::empty());
        assert(group_select_parts(g) == base + Seq::<SqlPart>::empty());
        assert(params_of(group_select_parts(g)) =~= group_select_args(g));
    } else if g.having@.len() == 0 {
        assert(exprs_args(g.having@) =~= Seq::<DatabaseValue>::empty());
        assert(group_select_parts(g) == base + (text("GROUP BY"@) + keys + Seq::<SqlPart>::empty()));
        assert(params_of(group_select_parts(g)) =~= group_select_args(g));
    } else {
        assert(group_select_parts(g) == base + (text("GROUP BY"@) + keys + (text("HAVING"@)
            + conds)));
        assert(params_of(group_select_parts(g)) =~= group_select_args(g));
    }
}

pub proof fn lemma_select_source_params(s: SelectSource)
    requires
        select_source_aligned(s),
    ensures
        params_of(select_source_parts(s)) == select_source_args(s),
    decreases s,
{
    match s {
        SelectSource::From(f) => lemma_select_from_params(f),
        SelectSource::Group(g) => lemma_group_select_params(g),
    }
}

pub proof fn lemma_select_query_params(q: SelectQuery)
    requires
        select_query_aligned(q),
    ensures
        params_of(select_query_parts(q)) == select_query_args(q),
    decreases q,
{
    lemma_select_items_params(q.select@);
    lemma_select_source_params(q.base);
    lemma_order_items_params(q.order_by@);
    let p1 = text("SELECT"@) + select_items_parts(q.select@) + select_source_parts(q.base);
    let p2 = if q.order_by@.len() > 0 {
        text("ORDER BY"@) + order_items_parts(q.order_by@)
    } else {
        Seq::empty()
    };
    let p3 = match q.limit {
        Some(l) => text("LIMIT "@) + text(decimal_digits(l as nat)),
        None => Seq::empty(),
    };
    let p4 = if q.offset != 0 {
        text("OFFSET "@) + text(decimal_digits(q.offset as nat))
    } else {
        Seq::empty()
    };
    assert(select_query_parts(q) == p1 + p2 + p3 + p4);
    assert(params_of(p1) == select_items_args(q.select@) + select_source_args(q.base));
    if q.order_by@.len() == 0 {
        assert(order_items_args(q.order_by@) =~= Seq::<DatabaseValue>::empty());
    }
    assert(params_of(p2) == order_items_args(q.order_by@));
    assert(params_of(p3) =~= Seq::<DatabaseValue>::empty());
    assert(params_of(p4) =~= Seq::<DatabaseValue>::empty());
    assert(params_of(select_query_parts(q)) =~= select_query_args(q));
}

pub proof fn lemma_function_call_params(f: FunctionCall)
    requires
        function_call_aligned(f),
    ensures
        params_of(function_call_parts(f)) == function_call_args(f),
    decreases f,
{
    match f {
        FunctionCall::Aggregate(AggregateFunctionCall::Normal(n)) => {
            lemma_expr_params(n.param);
            assert(params_of(normal_call_parts(n)) =~= expr_args(n.param));
        },
        FunctionCall::Aggregate(AggregateFunctionCall::GroupConcat(g)) => {
            lemma_expr_params(g.expr);
            lemma_order_items_params(g.order_by@);
            if g.order_by@.len() == 0 {
                assert(order_items_args(g.order_by@) =~= Seq::<DatabaseValue>::empty());
            }
            assert(params_of(group_concat_parts(g)) =~= expr_args(g.expr) + order_items_args(
                g.order_by@,
            ));
        },
        FunctionCall::Subquery(s) => {
            lemma_select_query_params(s.subquery);
            assert(params_of(subquery_call_parts(s)) =~= select_query_args(s.subquery));
        },
    }
}

impl SelectFrom {
    /// The table read from.
    pub closed spec fn spec_table(self) -> AliasedTable {
        self.table
    }

    /// The joins, in order.
    pub closed spec fn spec_joins(self) -> Seq<Join> {
        self.join@
    }

    /// The `WHERE` conditions, in order.
    pub closed spec fn spec_where_clauses(self) -> Seq<Expr> {
        self.where_clauses@
    }

    /// Reads `table` under `root_alias`, with no join and no condition.
    pub fn create(table: String, root_alias: Alias) -> (r: Self)
        ensures
            r.spec_table() == (AliasedTable { table, alias: root_alias }),
            r.spec_joins() == Seq::<Join>::empty(),
            r.spec_where_clauses() == Seq::<Expr>::empty(),
    {
        let r = SelectFrom {
            table: AliasedTable { table, alias: root_alias },
            join: Vec::new(),
            where_clauses: Vec::new(),
        };
        assert(r.join@ =~= Seq::<Join>::empty());
        assert(r.where_clauses@ =~= Seq::<Expr>::empty());
        r
    }

    /// Adds a `WHERE` condition after the others.
    pub fn and_where(&mut self, expr: Expr) -> (r: &mut Self)
        ensures
            r.spec_table() == old(self).spec_table(),
            r.spec_joins() == old(self).spec_joins(),
            r.spec_where_clauses() == old(self).spec_where_clauses().push(expr),
            *final(self) == *final(r),
    {
        self.where_clauses.push(expr);
        self
    }

    /// Adds `joins` after the joins already there.
    pub fn add_joins(&mut self, joins: Vec<Join>) -> (r: &mut Self)
        ensures
            r.spec_table() == old(self).spec_table(),
            r.spec_joins() == old(self).spec_joins() + joins@,
            r.spec_where_clauses() == old(self).spec_where_clauses(),
            *final(self) == *final(r),
    {
        let mut joins = joins;
        self.join.append(&mut joins);
        self
    }

    /// The table and the `WHERE` conditions, the joins dropped.
    pub(crate) fn into_table_and_where(self) -> (r: (AliasedTable, Vec<Expr>))
        ensures
            r.0 == self.spec_table(),
            r.1@ == self.spec_where_clauses(),
    {
        (self.table, self.where_clauses)
    }

    /// Groups the rows by `columns`, with no `HAVING` condition yet.
    pub fn group_by(self, columns: Vec<Expr>) -> (g: GroupSelect)
        ensures
            g.spec_base() == self,
            g.spec_group_by() == columns@,
            g.spec_having() == Seq::<Expr>::empty(),
    {
        let g = GroupSelect { base: self, group_by: columns, having: Vec::new() };
        assert(g.having@ =~= Seq::<Expr>::empty());
        g
    }
}

impl Select {
    /// Reads `table` under `alias`.
    pub fn from(table: String, alias: Alias) -> (r: SelectFrom)
        ensures
            r.spec_table() == (AliasedTable { table, alias }),
            r.spec_joins() == Seq::<Join>::empty(),
            r.spec_where_clauses() == Seq::<Expr>::empty(),
    {
        SelectFrom::create(table, alias)
    }
}

impl GroupSelect {
    /// The grouped source.
    pub closed spec fn spec_base(self) -> SelectFrom {
        self.base
    }

    /// The grouping keys, in order.
    pub closed spec fn spec_group_by(self) -> Seq<Expr> {
        self.group_by@
    }

    /// The `HAVING` conditions, in order.
    pub closed spec fn spec_having(self) -> Seq<Expr> {
        self.having@
    }

    /// Adds `conditions` after the `HAVING` conditions already there.
    pub fn having(&mut self, conditions: Vec<Expr>) -> (r: &mut Self)
        ensures
            r.spec_base() == old(self).spec_base(),
            r.spec_group_by() == old(self).spec_group_by(),
            r.spec_having() == old(self).spec_having() + conditions@,
            *final(self) == *final(r),
    {
        let mut conditions = conditions;
        self.having.append(&mut conditions);
        self
    }
}

impl SelectQuery {
    /// What the query reads from.
    pub closed spec fn spec_base(self) -> SelectSource {
        self.base
    }

    /// The selected expressions, in order.
    pub closed spec fn spec_select(self) -> Seq<SelectItem> {
        self.select@
    }

    /// The sort keys, in order.
    pub closed spec fn spec_order_by(self) -> Seq<OrderByItem> {
        self.order_by@
    }

    /// The row limit, if any.
    pub closed spec fn spec_limit(self) -> Option<usize> {
        self.limit
    }

    /// The number of rows skipped.
    pub closed spec fn spec_offset(self) -> usize {
        self.offset
    }

    /// A query made of the given parts.
    pub fn create(
        base: SelectSource,
        select: Vec<SelectItem>,
        order_by: Vec<OrderByItem>,
        limit: Option<usize>,
        offset: usize,
    ) -> (q: Self)
        ensures
            q.spec_base() == base,
            q.spec_select() == select@,
            q.spec_order_by() == order_by@,
            q.spec_limit() == limit,
            q.spec_offset() == offset,
    {
        SelectQuery { base, select, order_by, limit, offset }
    }

    /// Adds `items` after the selected expressions already there.
    pub fn append_select(&mut self, items: Vec<SelectItem>) -> (r: &mut Self)
        ensures
            r.spec_base() == old(self).spec_base(),
            r.spec_select() == old(self).spec_select() + items@,
            r.spec_order_by() == old(self).spec_order_by(),
            r.spec_limit() == old(self).spec_limit(),
            r.spec_offset() == old(self).spec_offset(),
            *final(self) == *final(r),
    {
        let mut items = items;
        self.select.append(&mut items);
        self
    }

    /// Adds `items` after the sort keys already there.
    pub fn append_order_by(&mut self, items: Vec<OrderByItem>) -> (r: &mut Self)
        ensures
            r.spec_base() == old(self).spec_base(),
            r.spec_select() == old(self).spec_select(),
            r.spec_order_by() == old(self).spec_order_by() + items@,
            r.spec_limit() == old(self).spec_limit(),
            r.spec_offset() == old(self).spec_offset(),
            *final(self) == *final(r),
    {
        let mut items = items;
        self.order_by.append(&mut items);
        self
    }

    /// Sets the row limit to `l`.
    pub fn limit(&mut self, l: usize) -> (r: &mut Self)
        ensures
            r.spec_base() == old(self).spec_base(),
            r.spec_select() == old(self).spec_select(),
            r.spec_order_by() == old(self).spec_order_by(),
            r.spec_limit() == Some(l),
            r.spec_offset() == old(self).spec_offset(),
            *final(self) == *final(r),
    {
        self.limit = Some(l);
        self
    }

    /// Sets the number of skipped rows to `o`.
    pub fn offset(&mut self, o: usize) -> (r: &mut Self)
        ensures
            r.spec_base() == old(self).spec_base(),
            r.spec_select() == old(self).spec_select(),
            r.spec_order_by() == old(self).spec_order_by(),
            r.spec_limit() == old(self).spec_limit(),
            r.spec_offset() == o,
            *final(self) == *final(r),
    {
        self.offset = o;
        self
    }
}

/// Something a `SELECT` can read from.
pub trait IntoSelectSource: Sized {
    /// The source it stands for.
    spec fn spec_source(&self) -> SelectSource;

    /// The source it stands for.
    fn source(self) -> (s: SelectSource)
        ensures
            s == self.spec_source(),
    ;

    /// A query selecting `items`, with no sort key, no limit and no offset.
    fn select(self, items: Vec<SelectItem>) -> (q: SelectQuery)
        ensures
            q.spec_base() == self.spec_source(),
            q.spec_select() == items@,
            q.spec_order_by() == Seq::<OrderByItem>::empty(),
            q.spec_limit() is None,
            q.spec_offset() == 0,
    {
        let q = SelectQuery::create(self.source(), items, Vec::new(), None, 0);
        assert(q.spec_order_by() =~= Seq::<OrderByItem>::empty());
        q
    }

    /// A query sorted by `items`, selecting nothing yet.
    fn order_by(self, items: Vec<OrderByItem>) -> (q: SelectQuery)
        ensures
            q.spec_base() == self.spec_source(),
            q.spec_select() == Seq::<SelectItem>::empty(),
            q.spec_order_by() == items@,
            q.spec_limit() is None,
            q.spec_offset() == 0,
    {
        let q = SelectQuery::create(self.source(), Vec::new(), items, None, 0);
        assert(q.spec_select() =~= Seq::<SelectItem>::empty());
        q
    }

    /// A query limited to `l` rows, selecting nothing yet.
    fn limit(self, l: usize) -> (q: SelectQuery)
        ensures
            q.spec_base() == self.spec_source(),
            q.spec_select() == Seq::<SelectItem>::empty(),
            q.spec_order_by() == Seq::<OrderByItem>::empty(),
            q.spec_limit() == Some(l),
            q.spec_offset() == 0,
    {
        let q = SelectQuery::create(self.source(), Vec::new(), Vec::new(), Some(l), 0);
        assert(q.spec_select() =~= Seq::<SelectItem>::empty());
        assert(q.spec_order_by() =~= Seq::<OrderByItem>::empty());
        q
    }

    /// A query skipping `o` rows, selecting nothing yet.
    fn offset(self, o: usize) -> (q: SelectQuery)
        ensures
            q.spec_base() == self.spec_source(),
            q.spec_select() == Seq::<SelectItem>::empty(),
            q.spec_order_by() == Seq::<OrderByItem>::empty(),
            q.spec_limit() is None,
            q.spec_offset() == o,
    {
        let q = SelectQuery::create(self.source(), Vec::new(), Vec::new(), None, o);
        assert(q.spec_select() =~= Seq::<SelectItem>::empty());
        assert(q.spec_order_by() =~= Seq::<OrderByItem>::empty());
        q
    }
}

impl IntoSelectSource for SelectSource {
    open spec fn spec_source(&self) -> SelectSource {
        *self
    }

    fn source(self) -> (s: SelectSource) {
        self
    }
}

impl IntoSelectSource for SelectFrom {
    open spec fn spec_source(&self) -> SelectSource {
        SelectSource::From(*self)
    }

    fn source(self) -> (s: SelectSource) {
        SelectSource::From(self)
    }
}

impl IntoSelectSource for GroupSelect {
    open spec fn spec_source(&self) -> SelectSource {
        SelectSource::Group(*self)
    }

    fn source(self) -> (s: SelectSource) {
        SelectSource::Group(self)
    }
}

impl ToSql for Order {
    open spec fn sql_ready(&self) -> bool {
        true
    }

    open spec fn sql_parts(&self) -> Seq<SqlPart> {
        text(order_text(*self))
    }

    fn to_sql(&self, state: &mut QueryBuildState) -> (r: FmtResult) {
        order_to_sql(self, state)
    }

    fn is_sql_ready(&self) -> (r: bool) {
        true
    }
}

impl ToSql for OrderByItem {
    open spec fn sql_ready(&self) -> bool {
        expr_ready(self.expr)
    }

    open spec fn sql_parts(&self) -> Seq<SqlPart> {
        order_item_parts(*self)
    }

    /// The expression, then the direction.
    fn to_sql(&self, state: &mut QueryBuildState) -> (r: FmtResult) {
        expr_to_sql(&self.expr, state)?;
        order_to_sql(&self.order, state)?;
        assert(state@ =~= old(state)@ + render(order_item_parts(*self)));
        Ok(())
    }

    fn is_sql_ready(&self) -> (r: bool) {
        expr_is_ready(&self.expr)
    }
}

impl ToSql for SelectItem {
    open spec fn sql_ready(&self) -> bool {
        expr_ready(self.expr)
    }

    open spec fn sql_parts(&self) -> Seq<SqlPart> {
        select_item_parts(*self)
    }

    /// The expression, then `AS ` and the name when it has one.
    fn to_sql(&self, state: &mut QueryBuildState) -> (r: FmtResult) {
        expr_to_sql(&self.expr, state)?;
        if let Some(alias) = &self.alias {
            state.write_str("AS ")?;
            state.write_str(alias.as_str())?;
        }
        assert(state@ =~= old(state)@ + render(select_item_parts(*self)));
        Ok(())
    }

    fn is_sql_ready(&self) -> (r: bool) {
        expr_is_ready(&self.expr)
    }
}

impl ToSql for JoinType {
    open spec fn sql_ready(&self) -> bool {
        true
    }

    open spec fn sql_parts(&self) -> Seq<SqlPart> {
        text(join_type_text(*self))
    }

    fn to_sql(&self, state: &mut QueryBuildState) -> (r: FmtResult) {
        join_type_to_sql(self, state)
    }

    fn is_sql_ready(&self) -> (r: bool) {
        true
    }
}

impl ToSql for Join {
    open spec fn sql_ready(&self) -> bool {
        expr_ready(self.on)
    }

    open spec fn sql_parts(&self) -> Seq<SqlPart> {
        join_clause_parts(*self)
    }

    /// The kind, the table, `ON`, the condition.
    fn to_sql(&self, state: &mut QueryBuildState) -> (r: FmtResult) {
        join_type_to_sql(&self.ty, state)?;
        self.table.to_sql(state)?;
        state.write_str("ON")?;
        expr_to_sql(&self.on, state)?;
        assert(state@ =~= old(state)@ + render(join_clause_parts(*self)));
        Ok(())
    }

    fn is_sql_ready(&self) -> (r: bool) {
        expr_is_ready(&self.on)
    }
}

impl ToSql for SelectFrom {
    open spec fn sql_ready(&self) -> bool {
        select_from_ready(*self)
    }

    open spec fn sql_parts(&self) -> Seq<SqlPart> {
        select_from_parts(*self)
    }

    fn to_sql(&self, state: &mut QueryBuildState) -> (r: FmtResult) {
        select_from_to_sql(self, state)
    }

    fn is_sql_ready(&self) -> (r: bool) {
        select_from_is_ready(self)
    }
}

impl ToSql for GroupSelect {
    open spec fn sql_ready(&self) -> bool {
        group_select_ready(*self)
    }

    open spec fn sql_parts(&self) -> Seq<SqlPart> {
        group_select_parts(*self)
    }

    fn to_sql(&self, state: &mut QueryBuildState) -> (r: FmtResult) {
        group_select_to_sql(self, state)
    }

    fn is_sql_ready(&self) -> (r: bool) {
        group_select_is_ready(self)
    }
}

impl ToSql for SelectSource {
    open spec fn sql_ready(&self) -> bool {
        select_source_ready(*self)
    }

    open spec fn sql_parts(&self) -> Seq<SqlPart> {
        select_source_parts(*self)
    }

    fn to_sql(&self, state: &mut QueryBuildState) -> (r: FmtResult) {
        select_source_to_sql(self, state)
    }

    fn is_sql_ready(&self) -> (r: bool) {
        select_source_is_ready(self)
    }
}

impl ToSql for SelectQuery {
    open spec fn sql_ready(&self) -> bool {
        select_query_ready(*self)
    }

    open spec fn sql_parts(&self) -> Seq<SqlPart> {
        select_query_parts(*self)
    }

    fn to_sql(&self, state: &mut QueryBuildState) -> (r: FmtResult) {
        select_query_to_sql(self, state)
    }

    fn is_sql_ready(&self) -> (r: bool) {
        select_query_is_ready(self)
    }
}

impl BindArgs for OrderByItem {
    open spec fn bound_args(&self) -> Seq<DatabaseValue> {
        expr_args(self.expr)
    }

    fn bind_args(self, args: &mut Vec<DatabaseValue>) {
        bind_expr(self.expr, args)
    }
}

impl BindArgs for SelectItem {
    open spec fn bound_args(&self) -> Seq<DatabaseValue> {
        expr_args(self.expr)
    }

    fn bind_args(self, args: &mut Vec<DatabaseValue>) {
        bind_expr(self.expr, args)
    }
}

impl BindArgs for Join {
    open spec fn bound_args(&self) -> Seq<DatabaseValue> {
        expr_args(self.on)
    }

    fn bind_args(self, args: &mut Vec<DatabaseValue>) {
        bind_expr(self.on, args)
    }
}

impl BindArgs for SelectFrom {
    open spec fn bound_args(&self) -> Seq<DatabaseValue> {
        select_from_args(*self)
    }

    fn bind_args(self, args: &mut Vec<DatabaseValue>) {
        bind_select_from(self, args)
    }
}

impl BindArgs for GroupSelect {
    open spec fn bound_args(&self) -> Seq<DatabaseValue> {
        group_select_args(*self)
    }

    fn bind_args(self, args: &mut Vec<DatabaseValue>) {
        bind_group_select(self, args)
    }
}

impl BindArgs for SelectSource {
    open spec fn bound_args(&self) -> Seq<DatabaseValue> {
        select_source_args(*self)
    }

    fn bind_args(self, args: &mut Vec<DatabaseValue>) {
        bind_select_source(self, args)
    }
}

impl BindArgs for SelectQuery {
    open spec fn bound_args(&self) -> Seq<DatabaseValue> {
        select_query_args(*self)
    }

    fn bind_args(self, args: &mut Vec<DatabaseValue>) {
        bind_select_query(self, args)
    }
}

impl YukinoQuery for SelectQuery {

}

/// Every placeholder of a rendered query is matched, in order, by a value
/// that its binding supplies, and every bound value by a placeholder,
/// provided no grouped source in it has `HAVING` values without grouping
/// keys (rendering leaves such conditions out, binding does not).
pub proof fn law_select_placeholders_match_bound_values(q: SelectQuery)
    requires
        select_query_aligned(q),
    ensures
        params_of(q.sql_parts()) == q.bound_args(),
{
    lemma_select_query_params(q);
}

/// Every placeholder of a rendered expression is matched, in order, by a
/// value that its binding supplies, and every bound value by a
/// placeholder, under the same proviso on grouped subqueries.
pub proof fn law_expr_placeholders_match_bound_values(e: Expr)
    requires
        expr_aligned(e),
    ensures
        params_of(e.sql_parts()) == e.bound_args(),
{
    lemma_expr_params(e);
}

/// The display text of a sort key: the expression, a space, the
/// direction.
pub open spec fn order_item_text(o: OrderByItem) -> Seq<char>
    decreases o,
{
    expr_text(o.expr) + " "@ + order_text(o.order)
}

/// The display texts of a list of sort keys, separated by `, `.
pub open spec fn order_items_text(items: Seq<OrderByItem>) -> Seq<char>
    decreases items,
{
    if items.len() == 0 {
        Seq::empty()
    } else if items.len() == 1 {
        order_item_text(items[0])
    } else {
        order_items_text(items.drop_last()) + ", "@ + order_item_text(items.last())
    }
}

/// Whether every sort key can be displayed.
pub open spec fn order_items_displayable(items: Seq<OrderByItem>) -> bool
    decreases items,
{
    forall|i: int| 0 <= i < items.len() ==> expr_displayable(#[trigger] items[i].expr)
}

/// The display text of a selected expression: the expression, then `AS `
/// and the name when it has one.
pub open spec fn select_item_text(i: SelectItem) -> Seq<char>
    decreases i,
{
    expr_text(i.expr) + match i.alias {
        Some(a) => "AS "@ + a@,
        None => Seq::empty(),
    }
}

/// The display texts of a list of selected expressions, separated by
/// `, `.
pub open spec fn select_items_text(items: Seq<SelectItem>) -> Seq<char>
    decreases items,
{
    if items.len() == 0 {
        Seq::empty()
    } else if items.len() == 1 {
        select_item_text(items[0])
    } else {
        select_items_text(items.drop_last()) + ", "@ + select_item_text(items.last())
    }
}

/// Whether every selected expression can be displayed.
pub open spec fn select_items_displayable(items: Seq<SelectItem>) -> bool
    decreases items,
{
    forall|i: int| 0 <= i < items.len() ==> expr_displayable(#[trigger] items[i].expr)
}

/// The display text of a join: the kind, the table, `ON`, the condition.
pub open spec fn join_clause_text(j: Join) -> Seq<char>
    decreases j,
{
    join_type_text(j.ty) + " "@ + aliased_table_text(j.table) + " ON "@ + expr_text(j.on)
}

/// The display texts of a list of joins, separated by spaces.
pub open spec fn joins_text(items: Seq<Join>) -> Seq<char>
    decreases items,
{
    if items.len() == 0 {
        Seq::empty()
    } else if items.len() == 1 {
        join_clause_text(items[0])
    } else {
        joins_text(items.drop_last()) + " "@ + join_clause_text(items.last())
    }
}

/// Whether every join condition can be displayed.
pub open spec fn joins_displayable(items: Seq<Join>) -> bool
    decreases items,
{
    forall|i: int| 0 <= i < items.len() ==> expr_displayable(#[trigger] items[i].on)
}

/// The display text of a `FROM` clause: `FROM `, the table, a space, the
/// joins, a space, then `WHERE ` and the conditions separated by ` AND `
/// when there are conditions.
pub closed spec fn select_from_text(f: SelectFrom) -> Seq<char>
    decreases f,
{
    "FROM "@ + aliased_table_text(f.table) + " "@ + joins_text(f.join@) + " "@ + if f.where_clauses@.len()
        > 0 {
        "WHERE "@ + exprs_text(f.where_clauses@, " AND "@)
    } else {
        Seq::empty()
    }
}

pub closed spec fn select_from_displayable(f: SelectFrom) -> bool
    decreases f,
{
    joins_displayable(f.join@) && exprs_displayable(f.where_clauses@)
}

/// The display text of a grouped source: the base, a space, `GROUP BY `
/// and the keys separated by `, ` when there are keys, a space, then
/// `HAVING ` and the conditions separated by ` AND ` when there are keys.
pub closed spec fn group_select_text(g: GroupSelect) -> Seq<char>
    decreases g,
{
    select_from_text(g.base) + " "@ + (if g.group_by@.len() > 0 {
        "GROUP BY "@ + exprs_text(g.group_by@, ", "@)
    } else {
        Seq::empty()
    }) + " "@ + (if g.group_by@.len() > 0 {
        "HAVING "@ + exprs_text(g.having@, " AND "@)
    } else {
        Seq::empty()
    })
}

pub closed spec fn group_select_displayable(g: GroupSelect) -> bool
    decreases g,
{
    select_from_displayable(g.base) && exprs_displayable(g.group_by@) && exprs_displayable(
        g.having@,
    )
}

pub open spec fn select_source_text(s: SelectSource) -> Seq<char>
    decreases s,
{
    match s {
        SelectSource::From(f) => select_from_text(f),
        SelectSource::Group(g) => group_select_text(g),
    }
}

pub open spec fn select_source_displayable(s: SelectSource) -> bool
    decreases s,
{
    match s {
        SelectSource::From(f) => select_from_displayable(f),
        SelectSource::Group(g) => group_select_displayable(g),
    }
}

/// The display text of a query: `SELECT `, the selected expressions
/// separated by `, `, a space, the source, a space, `ORDER BY ` and the
/// keys when there are keys, a space, `LIMIT ` and the limit when there is
/// one, ` OFFSET ` and the offset.
pub closed spec fn select_query_text(q: SelectQuery) -> Seq<char>
    decreases q,
{
    "SELECT "@ + select_items_text(q.select@) + " "@ + select_source_text(q.base) + " "@ + (
    if q.order_by@.len() > 0 {
        "ORDER BY "@ + order_items_text(q.order_by@)
    } else {
        Seq::empty()
    }) + " "@ + (match q.limit {
        Some(l) => "LIMIT "@ + decimal_digits(l as nat),
        None => Seq::empty(),
    }) + " OFFSET "@ + decimal_digits(q.offset as nat)
}

pub closed spec fn select_query_displayable(q: SelectQuery) -> bool
    decreases q,
{
    select_items_displayable(q.select@) && select_source_displayable(q.base)
        && order_items_displayable(q.order_by@)
}

/// The display texts of a list of sort keys, separated by `, `.
#[verifier::loop_isolation(false)]
pub fn order_items_display(items: &Vec<OrderByItem>) -> (s: String)
    requires
        order_items_displayable(items@),
    ensures
        s@ == order_items_text(items@),
    decreases items,
{
    let mut s = String::new();
    let n = items.len();
    let mut i: usize = 0;
    while i < n
        invariant
            n == items@.len(),
            0 <= i <= n,
            s@ == order_items_text(items@.take(i as int)),
        decreases n - i,
    {
        let ghost before = s@;
        if i != 0 {
            s.append(", ");
        }
        proof {
            assert(expr_displayable(items@[i as int].expr));
            assert(decreases_to!(*items => items@));
            assert(decreases_to!(items@ => items@[i as int]));
            assert(decreases_to!(items@[i as int] => items@[i as int].expr));
        }
        push_text(&mut s, expr_display(&items[i].expr));
        s.append(" ");
        push_text(&mut s, items[i].order.to_display_string());
        proof {
            let t = items@.take(i + 1);
            assert(t.drop_last() =~= items@.take(i as int));
            assert(t.last() == items@[i as int]);
            if i == 0 {
                assert(order_items_text(t) == order_item_text(items@[0]));
                assert(s@ =~= order_item_text(items@[0]));
            } else {
                assert(s@ =~= before + ", "@ + order_item_text(items@[i as int]));
            }
            assert(s@ =~= order_items_text(t));
        }
        i = i + 1;
    }
    assert(items@.take(n as int) =~= items@);
    s
}

/// The display texts of a list of selected expressions, separated by `, `.
#[verifier::loop_isolation(false)]
pub fn select_items_display(items: &Vec<SelectItem>) -> (s: String)
    requires
        select_items_displayable(items@),
    ensures
        s@ == select_items_text(items@),
    decreases items,
{
    let mut s = String::new();
    let n = items.len();
    let mut i: usize = 0;
    while i < n
        invariant
            n == items@.len(),
            0 <= i <= n,
            s@ == select_items_text(items@.take(i as int)),
        decreases n - i,
    {
        let ghost before = s@;
        if i != 0 {
            s.append(", ");
        }
        proof {
            assert(expr_displayable(items@[i as int].expr));
            assert(decreases_to!(*items => items@));
            assert(decreases_to!(items@ => items@[i as int]));
            assert(decreases_to!(items@[i as int] => items@[i as int].expr));
        }
        push_text(&mut s, expr_display(&items[i].expr));
        if let Some(alias) = &items[i].alias {
            s.append("AS ");
            s.append(alias.as_str());
        }
        proof {
            let t = items@.take(i + 1);
            assert(t.drop_last() =~= items@.take(i as int));
            assert(t.last() == items@[i as int]);
            if i == 0 {
                assert(select_items_text(t) == select_item_text(items@[0]));
                assert(s@ =~= select_item_text(items@[0]));
            } else {
                assert(s@ =~= before + ", "@ + select_item_text(items@[i as int]));
            }
            assert(s@ =~= select_items_text(t));
        }
        i = i + 1;
    }
    assert(items@.take(n as int) =~= items@);
    s
}

/// The display texts of a list of joins, separated by spaces.
#[verifier::loop_isolation(false)]
pub fn joins_display(items: &Vec<Join>) -> (s: String)
    requires
        joins_displayable(items@),
    ensures
        s@ == joins_text(items@),
    decreases items,
{
    let mut s = String::new();
    let n = items.len();
    let mut i: usize = 0;
    while i < n
        invariant
            n == items@.len(),
            0 <= i <= n,
            s@ == joins_text(items@.take(i as int)),
        decreases n - i,
    {
        let ghost before = s@;
        if i != 0 {
            s.append(" ");
        }
        proof {
            assert(expr_displayable(items@[i as int].on));
            assert(decreases_to!(*items => items@));
            assert(decreases_to!(items@ => items@[i as int]));
            assert(decreases_to!(items@[i as int] => items@[i as int].on));
        }
        push_text(&mut s, items[i].ty.to_display_string());
        s.append(" ");
        push_text(&mut s, items[i].table.to_display_string());
        s.append(" ON ");
        push_text(&mut s, expr_display(&items[i].on));
        proof {
            let t = items@.take(i + 1);
            assert(t.drop_last() =~= items@.take(i as int));
            assert(t.last() == items@[i as int]);
            if i == 0 {
                assert(joins_text(t) == join_clause_text(items@[0]));
                assert(s@ =~= join_clause_text(items@[0]));
            } else {
                assert(s@ =~= before + " "@ + join_clause_text(items@[i as int]));
            }
            assert(s@ =~= joins_text(t));
        }
        i = i + 1;
    }
    assert(items@.take(n as int) =~= items@);
    s
}

/// The display text of a `FROM` clause.
pub fn select_from_display(f: &SelectFrom) -> (s: String)
    requires
        select_from_displayable(*f),
    ensures
        s@ == select_from_text(*f),
    decreases f,
{
    let mut s = String::from_str("FROM ");
    push_text(&mut s, f.table.to_display_string());
    s.append(" ");
    push_text(&mut s, joins_display(&f.join));
    s.append(" ");
    if f.where_clauses.len() > 0 {
        s.append("WHERE ");
        push_text(&mut s, exprs_display(&f.where_clauses, " AND "));
    }
    s
}

/// The display text of a grouped source.
pub fn group_select_display(g: &GroupSelect) -> (s: String)
    requires
        group_select_displayable(*g),
    ensures
        s@ == group_select_text(*g),
    decreases g,
{
    let mut s = select_from_display(&g.base);
    s.append(" ");
    if g.group_by.len() > 0 {
        s.append("GROUP BY ");
        push_text(&mut s, exprs_display(&g.group_by, ", "));
    }
    s.append(" ");
    if g.group_by.len() > 0 {
        s.append("HAVING ");
        push_text(&mut s, exprs_display(&g.having, " AND "));
    }
    s
}

/// The display text of a source.
pub fn select_source_display(s: &SelectSource) -> (t: String)
    requires
        select_source_displayable(*s),
    ensures
        t@ == select_source_text(*s),
    decreases s,
{
    match s {
        SelectSource::From(f) => select_from_display(f),
        SelectSource::Group(g) => group_select_display(g),
    }
}

/// The display text of a query.
pub fn select_query_display(q: &SelectQuery) -> (s: String)
    requires
        select_query_displayable(*q),
    ensures
        s@ == select_query_text(*q),
    decreases q,
{
    let mut s = String::from_str("SELECT ");
    push_text(&mut s, select_items_display(&q.select));
    s.append(" ");
    push_text(&mut s, select_source_display(&q.base));
    s.append(" ");
    if q.order_by.len() > 0 {
        s.append("ORDER BY ");
        push_text(&mut s, order_items_display(&q.order_by));
    }
    s.append(" ");
    if let Some(l) = q.limit {
        s.append("LIMIT ");
        push_text(&mut s, unsigned_text(l as u64));
    }
    s.append(" OFFSET ");
    push_text(&mut s, unsigned_text(q.offset as u64));
    s
}

impl Order {
    /// `ASC` or `DESC`.
    pub fn to_display_string(&self) -> (s: String)
        ensures
            s@ == order_text(*self),
    {
        match self {
            Order::Asc => String::from_str("ASC"),
            Order::Desc => String::from_str("DESC"),
        }
    }
}

impl JoinType {
    /// The words of the join kind.
    pub fn to_display_string(&self) -> (s: String)
        ensures
            s@ == join_type_text(*self),
    {
        match self {
            JoinType::InnerJoin => String::from_str("INNER JOIN"),
            JoinType::LeftJoin => String::from_str("LEFT JOIN"),
            JoinType::RightJoin => String::from_str("RIGHT JOIN"),
        }
    }
}

impl OrderByItem {
    /// The display text of the sort key.
    pub fn to_display_string(&self) -> (s: String)
        requires
            expr_displayable(self.expr),
        ensures
            s@ == order_item_text(*self),
    {
        let mut s = expr_display(&self.expr);
        s.append(" ");
        push_text(&mut s, self.order.to_display_string());
        s
    }
}

impl SelectItem {
    /// The display text of the selected expression.
    pub fn to_display_string(&self) -> (s: String)
        requires
            expr_displayable(self.expr),
        ensures
            s@ == select_item_text(*self),
    {
        let mut s = expr_display(&self.expr);
        if let Some(alias) = &self.alias {
            s.append("AS ");
            s.append(alias.as_str());
        }
        s
    }
}

impl Join {
    /// The display text of the join.
    pub fn to_display_string(&self) -> (s: String)
        requires
            expr_displayable(self.on),
        ensures
            s@ == join_clause_text(*self),
    {
        let mut s = self.ty.to_display_string();
        s.append(" ");
        push_text(&mut s, self.table.to_display_string());
        s.append(" ON ");
        push_text(&mut s, expr_display(&self.on));
        s
    }
}

impl SelectFrom {
    /// The display text of the `FROM` clause.
    pub fn to_display_string(&self) -> (s: String)
        requires
            select_from_displayable(*self),
        ensures
            s@ == select_from_text(*self),
    {
        select_from_display(self)
    }
}

impl GroupSelect {
    /// The display text of the grouped source.
    pub fn to_display_string(&self) -> (s: String)
        requires
            group_select_displayable(*self),
        ensures
            s@ == group_select_text(*self),
    {
        group_select_display(self)
    }
}

impl SelectSource {
    /// The display text of the source.
    pub fn to_display_string(&self) -> (s: String)
        requires
            select_source_displayable(*self),
        ensures
            s@ == select_source_text(*self),
    {
        select_source_display(self)
    }
}

impl SelectQuery {
    /// The display text of the query.
    pub fn to_display_string(&self) -> (s: String)
        requires
            select_query_displayable(*self),
        ensures
            s@ == select_query_text(*self),
    {
        select_query_display(self)
    }
}

/// Whether every item of a list can be rendered (see `order_items_ready`).
#[verifier::loop_isolation(false)]
pub fn order_items_are_ready(items: &Vec<OrderByItem>) -> (r: bool)
    ensures
        r == order_items_ready(items@),
    decreases items,
{
    let n = items.len();
    let mut i: usize = 0;
    while i < n
        invariant
            n == items@.len(),
            0 <= i <= n,
            forall|j: int| 0 <= j < i ==> expr_ready(#[trigger] items@[j].expr),
        decreases n - i,
    {
        proof {
            assert(decreases_to!(*items => items@));
            assert(decreases_to!(items@ => items@[i as int]));
            assert(decreases_to!(items@[i as int] => items@[i as int].expr));
        }
        if !expr_is_ready(&items[i].expr) {
            return false;
        }
        i = i + 1;
    }
    true
}

/// Whether every item of a list can be rendered (see `select_items_ready`).
#[verifier::loop_isolation(false)]
pub fn select_items_are_ready(items: &Vec<SelectItem>) -> (r: bool)
    ensures
        r == select_items_ready(items@),
    decreases items,
{
    let n = items.len();
    let mut i: usize = 0;
    while i < n
        invariant
            n == items@.len(),
            0 <= i <= n,
            forall|j: int| 0 <= j < i ==> expr_ready(#[trigger] items@[j].expr),
        decreases n - i,
    {
        proof {
            assert(decreases_to!(*items => items@));
            assert(decreases_to!(items@ => items@[i as int]));
            assert(decreases_to!(items@[i as int] => items@[i as int].expr));
        }
        if !expr_is_ready(&items[i].expr) {
            return false;
        }
        i = i + 1;
    }
    true
}

/// Whether every item of a list can be rendered (see `joins_ready`).
#[verifier::loop_isolation(false)]
pub fn joins_are_ready(items: &Vec<Join>) -> (r: bool)
    ensures
        r == joins_ready(items@),
    decreases items,
{
    let n = items.len();
    let mut i: usize = 0;
    while i < n
        invariant
            n == items@.len(),
            0 <= i <= n,
            forall|j: int| 0 <= j < i ==> expr_ready(#[trigger] items@[j].on),
        decreases n - i,
    {
        proof {
            assert(decreases_to!(*items => items@));
            assert(decreases_to!(items@ => items@[i as int]));
            assert(decreases_to!(items@[i as int] => items@[i as int].on));
        }
        if !expr_is_ready(&items[i].on) {
            return false;
        }
        i = i + 1;
    }
    true
}

/// Whether a `FROM` clause can be rendered.
pub fn select_from_is_ready(f: &SelectFrom) -> (r: bool)
    ensures
        r == select_from_ready(*f),
    decreases f,
{
    let a = joins_are_ready(&f.join);
    a && exprs_are_ready(&f.where_clauses)
}

/// Whether a grouped source can be rendered.
pub fn group_select_is_ready(g: &GroupSelect) -> (r: bool)
    ensures
        r == group_select_ready(*g),
    decreases g,
{
    let a = select_from_is_ready(&g.base);
    let b = exprs_are_ready(&g.group_by);
    a && b && exprs_are_ready(&g.having)
}

/// Whether a source can be rendered.
pub fn select_source_is_ready(s: &SelectSource) -> (r: bool)
    ensures
        r == select_source_ready(*s),
    decreases s,
{
    match s {
        SelectSource::From(f) => select_from_is_ready(f),
        SelectSource::Group(g) => group_select_is_ready(g),
    }
}

/// Whether a query can be rendered: no plain aggregate call of `Sum` or
/// `GroupConcat` in it.
pub fn select_query_is_ready(q: &SelectQuery) -> (r: bool)
    ensures
        r == select_query_ready(*q),
    decreases q,
{
    let a = select_items_are_ready(&q.select);
    let b = select_source_is_ready(&q.base);
    a && b && order_items_are_ready(&q.order_by)
}

/// What the specifications of a `FROM` clause are, in terms of its table,
/// joins and conditions.
pub proof fn lemma_select_from_spec(f: SelectFrom)
    ensures
        select_from_parts(f) == text("FROM"@) + aliased_table_parts(f.spec_table()) + joins_parts(
            f.spec_joins(),
        ) + if f.spec_where_clauses().len() > 0 {
            text("WHERE"@) + exprs_parts(f.spec_where_clauses(), "AND"@)
        } else {
            Seq::empty()
        },
        select_from_args(f) == joins_args(f.spec_joins()) + exprs_args(f.spec_where_clauses()),
        select_from_ready(f) == (joins_ready(f.spec_joins()) && exprs_ready(
            f.spec_where_clauses(),
        )),
        select_from_aligned(f) == (joins_aligned(f.spec_joins()) && exprs_aligned(
            f.spec_where_clauses(),
        )),
        select_from_text(f) == "FROM "@ + aliased_table_text(f.spec_table()) + " "@ + joins_text(
            f.spec_joins(),
        ) + " "@ + if f.spec_where_clauses().len() > 0 {
            "WHERE "@ + exprs_text(f.spec_where_clauses(), " AND "@)
        } else {
            Seq::empty()
        },
        select_from_displayable(f) == (joins_displayable(f.spec_joins()) && exprs_displayable(
            f.spec_where_clauses(),
        )),
{
}

/// What the specifications of a grouped source are, in terms of its base,
/// keys and `HAVING` conditions.
pub proof fn lemma_group_select_spec(g: GroupSelect)
    ensures
        group_select_parts(g) == select_from_parts(g.spec_base()) + if g.spec_group_by().len()
            > 0 {
            text("GROUP BY"@) + exprs_parts(g.spec_group_by(), ","@) + if g.spec_having().len()
                > 0 {
                text("HAVING"@) + exprs_parts(g.spec_having(), "AND"@)
            } else {
                Seq::empty()
            }
        } else {
            Seq::empty()
        },
        group_select_args(g) == select_from_args(g.spec_base()) + exprs_args(g.spec_group_by())
            + exprs_args(g.spec_having()),
        group_select_ready(g) == (select_from_ready(g.spec_base()) && exprs_ready(
            g.spec_group_by(),
        ) && exprs_ready(g.spec_having())),
        group_select_aligned(g) == (select_from_aligned(g.spec_base()) && exprs_aligned(
            g.spec_group_by(),
        ) && exprs_aligned(g.spec_having()) && (g.spec_group_by().len() > 0 || exprs_args(
            g.spec_having(),
        ).len() == 0)),
        group_select_text(g) == select_from_text(g.spec_base()) + " "@ + (if g.spec_group_by().len()
            > 0 {
            "GROUP BY "@ + exprs_text(g.spec_group_by(), ", "@)
        } else {
            Seq::empty()
        }) + " "@ + (if g.spec_group_by().len() > 0 {
            "HAVING "@ + exprs_text(g.spec_having(), " AND "@)
        } else {
            Seq::empty()
        }),
        group_select_displayable(g) == (select_from_displayable(g.spec_base())
            && exprs_displayable(g.spec_group_by()) && exprs_displayable(g.spec_having())),
{
}

/// What the specifications of a query are, in terms of its source,
/// selected expressions, sort keys, limit and offset.
pub proof fn lemma_select_query_spec(q: SelectQuery)
    ensures
        select_query_parts(q) == text("SELECT"@) + select_items_parts(q.spec_select())
            + select_source_parts(q.spec_base()) + (if q.spec_order_by().len() > 0 {
            text("ORDER BY"@) + order_items_parts(q.spec_order_by())
        } else {
            Seq::empty()
        }) + (match q.spec_limit() {
            Some(l) => text("LIMIT "@) + text(decimal_digits(l as nat)),
            None => Seq::empty(),
        }) + (if q.spec_offset() != 0 {
            text("OFFSET "@) + text(decimal_digits(q.spec_offset() as nat))
        } else {
            Seq::empty()
        }),
        select_query_args(q) == select_items_args(q.spec_select()) + select_source_args(
            q.spec_base(),
        ) + order_items_args(q.spec_order_by()),
        select_query_ready(q) == (select_items_ready(q.spec_select()) && select_source_ready(
            q.spec_base(),
        ) && order_items_ready(q.spec_order_by())),
        select_query_aligned(q) == (select_items_aligned(q.spec_select()) && select_source_aligned(
            q.spec_base(),
        ) && order_items_aligned(q.spec_order_by())),
        select_query_text(q) == "SELECT "@ + select_items_text(q.spec_select()) + " "@
            + select_source_text(q.spec_base()) + " "@ + (if q.spec_order_by().len() > 0 {
            "ORDER BY "@ + order_items_text(q.spec_order_by())
        } else {
            Seq::empty()
        }) + " "@ + (match q.spec_limit() {
            Some(l) => "LIMIT "@ + decimal_digits(l as nat),
            None => Seq::empty(),
        }) + " OFFSET "@ + decimal_digits(q.spec_offset() as nat),
        select_query_displayable(q) == (select_items_displayable(q.spec_select())
            && select_source_displayable(q.spec_base()) && order_items_displayable(
            q.spec_order_by(),
        )),
{
}


/// Every join renders as the SQL keyword of its kind (`INNER JOIN`,
/// `LEFT JOIN` or `RIGHT JOIN`), the table and its alias, `ON`, and the
/// tokens of its condition.
pub proof fn law_join_clause_tokens(j: Join)
    ensures
        render(j.sql_parts()) == seq![
            match j.ty {
                JoinType::InnerJoin => "INNER JOIN"@,
                JoinType::LeftJoin => "LEFT JOIN"@,
                JoinType::RightJoin => "RIGHT JOIN"@,
            },
        ] + render(j.table.sql_parts()) + seq!["ON"@] + render(j.on.sql_parts()),
        j.ty == JoinType::InnerJoin ==> render(j.sql_parts())[0] == "INNER JOIN"@,
        j.ty == JoinType::LeftJoin ==> render(j.sql_parts())[0] == "LEFT JOIN"@,
        j.ty == JoinType::RightJoin ==> render(j.sql_parts())[0] == "RIGHT JOIN"@,
{
}

/// The joins of a `FROM` clause render one after the other, in order,
/// each as `law_join_clause_tokens` states.
pub proof fn law_joins_tokens(items: Seq<Join>)
    ensures
        items.len() > 0 ==> render(joins_parts(items)) == render(joins_parts(items.drop_last()))
            + render(items.last().sql_parts()),
        items.len() == 0 ==> render(joins_parts(items)) == Seq::<Seq<char>>::empty(),
{
}


/// A sort key renders as the tokens of its expression followed by `ASC`
/// or `DESC`, as its direction says.
pub proof fn law_order_item_tokens(o: OrderByItem)
    ensures
        render(o.sql_parts()) == render(o.expr.sql_parts()) + seq![
            match o.order {
                Order::Asc => "ASC"@,
                Order::Desc => "DESC"@,
            },
        ],
{
}


/// A `FROM` clause renders as `FROM`, the table and its alias, the
/// joins, then `WHERE` and the conditions joined by `AND` when there are
/// conditions.
pub proof fn law_select_from_tokens(f: SelectFrom)
    ensures
        render(select_from_parts(f)) == seq!["FROM"@] + render(aliased_table_parts(f.spec_table()))
            + render(joins_parts(f.spec_joins())) + if f.spec_where_clauses().len() > 0 {
            seq!["WHERE"@] + render(exprs_parts(f.spec_where_clauses(), "AND"@))
        } else {
            Seq::<Seq<char>>::empty()
        },
{
}

/// A grouped source renders as its `FROM` clause, then `GROUP BY` and
/// the keys joined by `,` when there are keys, followed by `HAVING` and
/// the conditions joined by `AND` when there are also conditions.
pub proof fn law_group_select_tokens(g: GroupSelect)
    ensures
        render(group_select_parts(g)) == render(select_from_parts(g.spec_base())) + if g.spec_group_by().len() > 0 {
            seq!["GROUP BY"@] + render(exprs_parts(g.spec_group_by(), ","@)) + if g.spec_having().len()
                > 0 {
                seq!["HAVING"@] + render(exprs_parts(g.spec_having(), "AND"@))
            } else {
                Seq::<Seq<char>>::empty()
            }
        } else {
            Seq::<Seq<char>>::empty()
        },
{
}

/// A query renders as `SELECT`, the selected expressions, the source,
/// `ORDER BY` and the keys when there are keys, `LIMIT ` and the digits
/// of the limit when there is one, `OFFSET ` and the digits of the
/// offset when it is not zero.
pub proof fn law_select_query_tokens(q: SelectQuery)
    ensures
        render(q.sql_parts()) == seq!["SELECT"@] + render(select_items_parts(q.spec_select()))
            + render(select_source_parts(q.spec_base())) + (if q.spec_order_by().len() > 0 {
            seq!["ORDER BY"@] + render(order_items_parts(q.spec_order_by()))
        } else {
            Seq::<Seq<char>>::empty()
        }) + (match q.spec_limit() {
            Some(l) => seq!["LIMIT "@, decimal_digits(l as nat)],
            None => Seq::<Seq<char>>::empty(),
        }) + (if q.spec_offset() != 0 {
            seq!["OFFSET "@, decimal_digits(q.spec_offset() as nat)]
        } else {
            Seq::<Seq<char>>::empty()
        }),
{
}


/// The display texts of join kinds and sort directions are their SQL
/// keywords, and a join displays as its keyword, a space, the table with
/// its alias, ` ON `, the text of its condition.
pub proof fn law_join_and_order_display(j: Join, o: Order)
    ensures
        join_type_text(j.ty) == match j.ty {
            JoinType::InnerJoin => "INNER JOIN"@,
            JoinType::LeftJoin => "LEFT JOIN"@,
            JoinType::RightJoin => "RIGHT JOIN"@,
        },
        order_text(o) == match o {
            Order::Asc => "ASC"@,
            Order::Desc => "DESC"@,
        },
        join_clause_text(j) == match j.ty {
            JoinType::InnerJoin => "INNER JOIN"@,
            JoinType::LeftJoin => "LEFT JOIN"@,
            JoinType::RightJoin => "RIGHT JOIN"@,
        } + " "@ + aliased_table_text(j.table) + " ON "@ + expr_text(j.on),
{
}

} // verus!
