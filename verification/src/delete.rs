use vstd::prelude::*;

use crate::expr::{exprs_are_ready, exprs_parts, exprs_ready, Expr};
use crate::ident::{Alias, AliasedTable};
use crate::select::{order_items_are_ready, order_items_parts, order_items_ready, OrderByItem, SelectFrom};
use crate::text::decimal_digits;
use crate::state::{group_render, render, text, FmtResult, QueryBuildState, SqlPart, ToSql};
use crate::update::{limit_parts, limit_to_sql, order_by_parts, order_by_to_sql, where_parts, where_to_sql};

verus! {

broadcast use group_render;

/// The starting point of a `DELETE`.
pub struct Delete;

/// A `DELETE` query.
pub struct DeleteQuery {
    from: AliasedTable,
    where_clauses: Vec<Expr>,
    order_by: Vec<OrderByItem>,
    limit: Option<usize>,
}

impl DeleteQuery {
    /// The table rows are deleted from.
    pub closed spec fn spec_from(self) -> AliasedTable {
        self.from
    }

    /// The `WHERE` conditions, in order.
    pub closed spec fn spec_where_clauses(self) -> Seq<Expr> {
        self.where_clauses@
    }

    /// The sort keys, in order.
    pub closed spec fn spec_order_by(self) -> Seq<OrderByItem> {
        self.order_by@
    }

    /// The row limit, if any.
    pub closed spec fn spec_limit(self) -> Option<usize> {
        self.limit
    }
}

/// The parts of a `DELETE` query: `DELETE FROM `, the table, ` AS`, the
/// alias, then the `WHERE`, `ORDER BY` and `LIMIT` clauses that are
/// present.
pub open spec fn delete_query_parts(q: DeleteQuery) -> Seq<SqlPart> {
    text("DELETE FROM "@) + text(q.spec_from().table@) + text(" AS"@) + text(
        q.spec_from().alias.name@,
    ) + where_parts(q.spec_where_clauses()) + order_by_parts(q.spec_order_by()) + limit_parts(
        q.spec_limit(),
    )
}

/// Whether a `DELETE` query can be rendered.
pub open spec fn delete_query_ready(q: DeleteQuery) -> bool {
    exprs_ready(q.spec_where_clauses()) && order_items_ready(q.spec_order_by())
}

impl Delete {
    /// Deletes from `table` under `alias`, with no condition yet.
    pub fn from(table: String, alias: Alias) -> (q: DeleteQuery)
        ensures
            q.spec_from() == (AliasedTable { table, alias }),
            q.spec_where_clauses() == Seq::<Expr>::empty(),
            q.spec_order_by() == Seq::<OrderByItem>::empty(),
            q.spec_limit() is None,
    {
        let q = DeleteQuery {
            from: AliasedTable { table, alias },
            where_clauses: Vec::new(),
            order_by: Vec::new(),
            limit: None,
        };
        assert(q.where_clauses@ =~= Seq::<Expr>::empty());
        assert(q.order_by@ =~= Seq::<OrderByItem>::empty());
        q
    }
}

impl DeleteQuery {
    /// The alias of the table.
    pub fn root_alias(&self) -> (a: &Alias)
        ensures
            *a == self.spec_from().alias,
    {
        &self.from.alias
    }

    /// Adds a `WHERE` condition after the others.
    pub fn and_where(&mut self, expr: Expr) -> (r: &mut Self)
        ensures
            r.spec_from() == old(self).spec_from(),
            r.spec_where_clauses() == old(self).spec_where_clauses().push(expr),
            r.spec_order_by() == old(self).spec_order_by(),
            r.spec_limit() == old(self).spec_limit(),
            *final(self) == *final(r),
    {
        self.where_clauses.push(expr);
        self
    }

    /// Adds `items` after the sort keys already there.
    pub fn append_order_by(&mut self, items: Vec<OrderByItem>) -> (r: &mut Self)
        ensures
            r.spec_from() == old(self).spec_from(),
            r.spec_where_clauses() == old(self).spec_where_clauses(),
            r.spec_order_by() == old(self).spec_order_by() + items@,
            r.spec_limit() == old(self).spec_limit(),
            *final(self) == *final(r),
    {
        let mut items = items;
        self.order_by.append(&mut items);
        self
    }

    /// Sets the row limit to `l`.
    pub fn limit(&mut self, l: usize) -> (r: &mut Self)
        ensures
            r.spec_from() == old(self).spec_from(),
            r.spec_where_clauses() == old(self).spec_where_clauses(),
            r.spec_order_by() == old(self).spec_order_by(),
            r.spec_limit() == Some(l),
            *final(self) == *final(r),
    {
        self.limit = Some(l);
        self
    }

    /// A `DELETE` from the table of `s` with its `WHERE` conditions; the
    /// joins of `s` are dropped.
    pub fn from_select(s: SelectFrom) -> (q: DeleteQuery)
        ensures
            q.spec_from() == s.spec_table(),
            q.spec_where_clauses() == s.spec_where_clauses(),
            q.spec_order_by() == Seq::<OrderByItem>::empty(),
            q.spec_limit() is None,
    {
        let (table, where_clauses) = s.into_table_and_where();
        let mut result = Delete::from(table.table, table.alias);
        let mut rest = where_clauses;
        let ghost all = rest@;
        let total: usize = rest.len();
        let mut k: usize = 0;
        while rest.len() > 0
            invariant
                0 <= k <= all.len(),
                all.len() == k + rest@.len(),
                all.len() == total,
                rest@ == all.skip(k as int),
                result.spec_from() == s.spec_table(),
                result.spec_where_clauses() == all.take(k as int),
                result.spec_order_by() == Seq::<OrderByItem>::empty(),
                result.spec_limit() is None,
            decreases rest.len(),
        {
            let e = rest.remove(0);
            result.and_where(e);
            assert(all.take(k + 1) =~= all.take(k as int).push(e));
            assert(rest@ =~= all.skip(k + 1));
            k = k + 1;
        }
        assert(all.take(k as int) =~= all);
        result
    }
}

/// Appends the tokens of a `DELETE` query.
pub fn delete_query_to_sql(q: &DeleteQuery, state: &mut QueryBuildState) -> (r: FmtResult)
    requires
        delete_query_ready(*q),
    ensures
        final(state)@ == old(state)@ + render(delete_query_parts(*q)),
        r is Ok,
{
    state.write_str("DELETE FROM ")?;
    state.write_str(q.from.table.as_str())?;
    state.write_str(" AS")?;
    q.from.alias.to_sql(state)?;
    where_to_sql(&q.where_clauses, state)?;
    order_by_to_sql(&q.order_by, state)?;
    limit_to_sql(q.limit, state)?;
    assert(state@ =~= old(state)@ + render(delete_query_parts(*q)));
    Ok(())
}

impl ToSql for DeleteQuery {
    open spec fn sql_ready(&self) -> bool {
        delete_query_ready(*self)
    }

    open spec fn sql_parts(&self) -> Seq<SqlPart> {
        delete_query_parts(*self)
    }

    fn to_sql(&self, state: &mut QueryBuildState) -> (r: FmtResult) {
        delete_query_to_sql(self, state)
    }

    fn is_sql_ready(&self) -> (r: bool) {
        let a = exprs_are_ready(&self.where_clauses);
        a && order_items_are_ready(&self.order_by)
    }
}


/// A `DELETE` renders as `DELETE FROM `, the table, ` AS`, the alias,
/// then `WHERE` with the conditions joined by `AND`, `ORDER BY` with the
/// keys, and `LIMIT ` with its digits, each when present.
pub proof fn law_delete_query_tokens(q: DeleteQuery)
    ensures
        render(q.sql_parts()) == seq!["DELETE FROM "@, q.spec_from().table@, " AS"@, q.spec_from().alias.name@]
            + (if q.spec_where_clauses().len() > 0 {
            seq!["WHERE"@] + render(exprs_parts(q.spec_where_clauses(), "AND"@))
        } else {
            Seq::<Seq<char>>::empty()
        }) + (if q.spec_order_by().len() > 0 {
            seq!["ORDER BY"@] + render(order_items_parts(q.spec_order_by()))
        } else {
            Seq::<Seq<char>>::empty()
        }) + (match q.spec_limit() {
            Some(n) => seq!["LIMIT "@, decimal_digits(n as nat)],
            None => Seq::<Seq<char>>::empty(),
        }),
{
}

} // verus!
