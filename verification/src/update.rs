use vstd::prelude::*;

use crate::expr::{
    bind_expr, bind_exprs, expr_aligned, expr_args, expr_parts, expr_ready, expr_to_sql,
    exprs_aligned, exprs_args, exprs_parts, exprs_ready, exprs_to_sql, Expr, expr_is_ready,
    exprs_are_ready,
};
use crate::ident::{aliased_table_parts, Alias, AliasedTable};
use crate::select::{
    bind_order_items, lemma_expr_params, lemma_exprs_params, lemma_order_items_params,
    order_items_aligned, order_items_args, order_items_parts, order_items_ready,
    order_items_to_sql, OrderByItem, SelectFrom, order_items_are_ready,
};
use crate::state::{
    group_params, group_render, params_of, render, text, BindArgs, FmtResult, QueryBuildState,
    SqlPart, ToSql,
};
use crate::text::{decimal_digits, join_text, unsigned_text};
use crate::value::DatabaseValue;

verus! {

broadcast use group_render, group_params;

/// The starting point of an `UPDATE`.
pub struct Update;

/// One `column = value` assignment.
pub struct AssignmentItem {
    pub column: String,
    pub value: AssignmentValue,
}

/// What a column is set to: an expression, or the column's default.
pub enum AssignmentValue {
    Expr(Box<Expr>),
    Default,
}

/// An `UPDATE` query.
pub struct UpdateQuery {
    from: AliasedTable,
    where_clauses: Vec<Expr>,
    limit: Option<usize>,
    order_by: Vec<OrderByItem>,
    assignments: Vec<AssignmentItem>,
}

/// The parts of an assigned value.
pub open spec fn assignment_value_parts(v: AssignmentValue) -> Seq<SqlPart> {
    match v {
        AssignmentValue::Expr(e) => expr_parts(*e),
        AssignmentValue::Default => text("DEFAULT"@),
    }
}

/// The values an assigned value binds.
pub open spec fn assignment_value_args(v: AssignmentValue) -> Seq<DatabaseValue> {
    match v {
        AssignmentValue::Expr(e) => expr_args(*e),
        AssignmentValue::Default => Seq::empty(),
    }
}

/// Whether an assigned value can be rendered.
pub open spec fn assignment_value_ready(v: AssignmentValue) -> bool {
    match v {
        AssignmentValue::Expr(e) => expr_ready(*e),
        AssignmentValue::Default => true,
    }
}

/// Whether an assigned value is aligned.
pub open spec fn assignment_value_aligned(v: AssignmentValue) -> bool {
    match v {
        AssignmentValue::Expr(e) => expr_aligned(*e),
        AssignmentValue::Default => true,
    }
}

/// The column quoted with backticks.
pub open spec fn quoted_column(column: Seq<char>) -> Seq<char> {
    "`"@ + column + "`"@
}

/// The parts of an assignment: the quoted column, `=`, the value.
pub open spec fn assignment_item_parts(a: AssignmentItem) -> Seq<SqlPart> {
    text(quoted_column(a.column@)) + text("="@) + assignment_value_parts(a.value)
}

/// The parts of a list of assignments, separated by `,` tokens.
pub open spec fn assignments_parts(items: Seq<AssignmentItem>) -> Seq<SqlPart>
    decreases items.len(),
{
    if items.len() == 0 {
        Seq::empty()
    } else if items.len() == 1 {
        assignment_item_parts(items[0])
    } else {
        assignments_parts(items.drop_last()) + text(","@) + assignment_item_parts(items.last())
    }
}

/// The values a list of assignments holds, in order.
pub open spec fn assignments_args(items: Seq<AssignmentItem>) -> Seq<DatabaseValue>
    decreases items.len(),
{
    if items.len() == 0 {
        Seq::empty()
    } else {
        assignments_args(items.drop_last()) + assignment_value_args(items.last().value)
    }
}

/// Whether every assigned value can be rendered.
pub open spec fn assignments_ready(items: Seq<AssignmentItem>) -> bool {
    forall|i: int| 0 <= i < items.len() ==> assignment_value_ready(#[trigger] items[i].value)
}

/// Whether every assigned value is aligned.
pub open spec fn assignments_aligned(items: Seq<AssignmentItem>) -> bool {
    forall|i: int| 0 <= i < items.len() ==> assignment_value_aligned(#[trigger] items[i].value)
}

/// The parts of an optional `WHERE` clause.
pub open spec fn where_parts(conditions: Seq<Expr>) -> Seq<SqlPart> {
    if conditions.len() > 0 {
        text("WHERE"@) + exprs_parts(conditions, "AND"@)
    } else {
        Seq::empty()
    }
}

/// The parts of an optional `ORDER BY` clause.
pub open spec fn order_by_parts(items: Seq<OrderByItem>) -> Seq<SqlPart> {
    if items.len() > 0 {
        text("ORDER BY"@) + order_items_parts(items)
    } else {
        Seq::empty()
    }
}

/// The parts of an optional `LIMIT` clause.
pub open spec fn limit_parts(limit: Option<usize>) -> Seq<SqlPart> {
    match limit {
        Some(l) => text("LIMIT "@) + text(decimal_digits(l as nat)),
        None => Seq::empty(),
    }
}

impl UpdateQuery {
    /// The updated table.
    pub closed spec fn spec_from(self) -> AliasedTable {
        self.from
    }

    /// The `WHERE` conditions, in order.
    pub closed spec fn spec_where_clauses(self) -> Seq<Expr> {
        self.where_clauses@
    }

    /// The row limit, if any.
    pub closed spec fn spec_limit(self) -> Option<usize> {
        self.limit
    }

    /// The sort keys, in order.
    pub closed spec fn spec_order_by(self) -> Seq<OrderByItem> {
        self.order_by@
    }

    /// The assignments, in order.
    pub closed spec fn spec_assignments(self) -> Seq<AssignmentItem> {
        self.assignments@
    }
}

/// The parts of an `UPDATE` query: `UPDATE`, the table, `SET`, the
/// assignments, then the `WHERE`, `ORDER BY` and `LIMIT` clauses that
/// are present.
pub open spec fn update_query_parts(q: UpdateQuery) -> Seq<SqlPart> {
    text("UPDATE"@) + aliased_table_parts(q.spec_from()) + text("SET"@) + assignments_parts(
        q.spec_assignments(),
    ) + where_parts(q.spec_where_clauses()) + order_by_parts(q.spec_order_by()) + limit_parts(
        q.spec_limit(),
    )
}

/// Whether an `UPDATE` query can be rendered.
pub open spec fn update_query_ready(q: UpdateQuery) -> bool {
    assignments_ready(q.spec_assignments()) && exprs_ready(q.spec_where_clauses())
        && order_items_ready(q.spec_order_by())
}

/// The values an `UPDATE` query binds: those of the `WHERE` conditions,
/// then those of the sort keys (the assigned values are not bound).
pub open spec fn update_query_args(q: UpdateQuery) -> Seq<DatabaseValue> {
    exprs_args(q.spec_where_clauses()) + order_items_args(q.spec_order_by())
}

/// Whether every expression of an `UPDATE` query is aligned.
pub open spec fn update_query_aligned(q: UpdateQuery) -> bool {
    assignments_aligned(q.spec_assignments()) && exprs_aligned(q.spec_where_clauses())
        && order_items_aligned(q.spec_order_by())
}

impl Update {
    /// Updates `table` under `alias`, with nothing assigned yet.
    pub fn from(table: String, alias: Alias) -> (q: UpdateQuery)
        ensures
            q.spec_from() == (AliasedTable { table, alias }),
            q.spec_where_clauses() == Seq::<Expr>::empty(),
            q.spec_limit() is None,
            q.spec_order_by() == Seq::<OrderByItem>::empty(),
            q.spec_assignments() == Seq::<AssignmentItem>::empty(),
    {
        let q = UpdateQuery {
            from: AliasedTable { table, alias },
            where_clauses: Vec::new(),
            limit: None,
            order_by: Vec::new(),
            assignments: Vec::new(),
        };
        assert(q.where_clauses@ =~= Seq::<Expr>::empty());
        assert(q.order_by@ =~= Seq::<OrderByItem>::empty());
        assert(q.assignments@ =~= Seq::<AssignmentItem>::empty());
        q
    }
}

impl UpdateQuery {
    /// The alias of the updated table.
    pub fn root_alias(&self) -> (a: &Alias)
        ensures
            *a == self.spec_from().alias,
    {
        &self.from.alias
    }

    /// Assigns `value` to `column`, after the assignments already there.
    pub fn set(&mut self, column: String, value: AssignmentValue) -> (r: &mut Self)
        ensures
            r.spec_from() == old(self).spec_from(),
            r.spec_where_clauses() == old(self).spec_where_clauses(),
            r.spec_limit() == old(self).spec_limit(),
            r.spec_order_by() == old(self).spec_order_by(),
            r.spec_assignments() == old(self).spec_assignments().push(
                AssignmentItem { column, value },
            ),
            *final(self) == *final(r),
    {
        self.assignments.push(AssignmentItem { column, value });
        self
    }

    /// Adds a `WHERE` condition after the others.
    pub fn and_where(&mut self, expr: Expr) -> (r: &mut Self)
        ensures
            r.spec_from() == old(self).spec_from(),
            r.spec_where_clauses() == old(self).spec_where_clauses().push(expr),
            r.spec_limit() == old(self).spec_limit(),
            r.spec_order_by() == old(self).spec_order_by(),
            r.spec_assignments() == old(self).spec_assignments(),
            *final(self) == *final(r),
    {
        self.where_clauses.push(expr);
        self
    }

    /// Adds `items` after the sort keys already there.
    pub fn append_order_by(&mut self, items: Vec<OrderByItem>) -> (r: &mut Self)
        ensures
            r.spec_from() == old(self).spec_from(),
            r.spec_where_clauses() == old(self).spec_where_clauses(),
            r.spec_limit() == old(self).spec_limit(),
            r.spec_order_by() == old(self).spec_order_by() + items@,
            r.spec_assignments() == old(self).spec_assignments(),
            *final(self) == *final(r),
    {
        let mut items = items;
        self.order_by.append(&mut items);
        self
    }

    /// Sets the row limit to `l`.
    pub fn limit(&mut self, l: usize) -> (r: &mut Self)
        ensures
            r.spec_from() == old(self).spec_from(),
            r.spec_where_clauses() == old(self).spec_where_clauses(),
            r.spec_limit() == Some(l),
            r.spec_order_by() == old(self).spec_order_by(),
            r.spec_assignments() == old(self).spec_assignments(),
            *final(self) == *final(r),
    {
        self.limit = Some(l);
        self
    }

    /// An `UPDATE` of the table of `s` with its `WHERE` conditions; the
    /// joins of `s` are dropped.
    pub fn from_select(s: SelectFrom) -> (q: UpdateQuery)
        ensures
            q.spec_from() == s.spec_table(),
            q.spec_where_clauses() == s.spec_where_clauses(),
            q.spec_limit() is None,
            q.spec_order_by() == Seq::<OrderByItem>::empty(),
            q.spec_assignments() == Seq::<AssignmentItem>::empty(),
    {
        let (table, where_clauses) = s.into_table_and_where();
        let mut result = Update::from(table.table, table.alias);
        let mut rest = where_clauses;
        let ghost all = rest@;
        let total: usize = rest.len();
        let mut k: usize = 0;
        while rest.len() > 0
            invariant
                0 <= k <= all.len(),
                all.len() == k + rest@.len(),
                all.len() == total,
                rest@ == all.skip(k as int),
                result.spec_from() == s.spec_table(),
                result.spec_where_clauses() == all.take(k as int),
                result.spec_limit() is None,
                result.spec_order_by() == Seq::<OrderByItem>::empty(),
                result.spec_assignments() == Seq::<AssignmentItem>::empty(),
            decreases rest.len(),
        {
            let e = rest.remove(0);
            result.and_where(e);
            assert(all.take(k + 1) =~= all.take(k as int).push(e));
            assert(rest@ =~= all.skip(k + 1));
            k = k + 1;
        }
        assert(all.take(k as int) =~= all);
        result
    }
}

/// Appends the tokens of an assigned value.
pub fn assignment_value_to_sql(v: &AssignmentValue, state: &mut QueryBuildState) -> (r: FmtResult)
    requires
        assignment_value_ready(*v),
    ensures
        final(state)@ == old(state)@ + render(assignment_value_parts(*v)),
        r is Ok,
{
    match v {
        AssignmentValue::Expr(e) => expr_to_sql(e, state),
        AssignmentValue::Default => state.write_str("DEFAULT"),
    }
}

/// Appends the tokens of an assignment.
pub fn assignment_item_to_sql(a: &AssignmentItem, state: &mut QueryBuildState) -> (r: FmtResult)
    requires
        assignment_value_ready(a.value),
    ensures
        final(state)@ == old(state)@ + render(assignment_item_parts(*a)),
        r is Ok,
{
    let mut column = String::from_str("`");
    column.append(a.column.as_str());
    column.append("`");
    state.write_string(column)?;
    state.write_str("=")?;
    assignment_value_to_sql(&a.value, state)?;
    assert(state@ =~= old(state)@ + render(assignment_item_parts(*a)));
    Ok(())
}

/// Appends the tokens of a list of assignments, separated by `,`.
pub fn assignments_to_sql(items: &Vec<AssignmentItem>, state: &mut QueryBuildState) -> (r:
    FmtResult)
    requires
        assignments_ready(items@),
    ensures
        final(state)@ == old(state)@ + render(assignments_parts(items@)),
        r is Ok,
{
    let n = items.len();
    let mut i: usize = 0;
    while i < n
        invariant
            n == items@.len(),
            0 <= i <= n,
            assignments_ready(items@),
            state@ == old(state)@ + render(assignments_parts(items@.take(i as int))),
        decreases n - i,
    {
        if i != 0 {
            state.write_str(",")?;
        }
        let ghost mid = state@;
        assert(assignment_value_ready(items@[i as int].value));
        assignment_item_to_sql(&items[i], state)?;
        proof {
            let t = items@.take(i + 1);
            assert(t.drop_last() =~= items@.take(i as int));
            assert(t.last() == items@[i as int]);
            if i == 0 {
                assert(assignments_parts(t) == assignment_item_parts(items@[0]));
            } else {
                assert(mid == old(state)@ + render(assignments_parts(items@.take(i as int)) + text(
                    ","@,
                )));
            }
            assert(state@ =~= old(state)@ + render(assignments_parts(t)));
        }
        i = i + 1;
    }
    assert(items@.take(n as int) =~= items@);
    Ok(())
}

/// Appends the `WHERE` clause when there are conditions.
pub fn where_to_sql(conditions: &Vec<Expr>, state: &mut QueryBuildState) -> (r: FmtResult)
    requires
        exprs_ready(conditions@),
    ensures
        final(state)@ == old(state)@ + render(where_parts(conditions@)),
        r is Ok,
{
    if conditions.len() > 0 {
        state.write_str("WHERE")?;
        exprs_to_sql(conditions, "AND", state)?;
    }
    assert(state@ =~= old(state)@ + render(where_parts(conditions@)));
    Ok(())
}

/// Appends the `ORDER BY` clause when there are sort keys.
pub fn order_by_to_sql(items: &Vec<OrderByItem>, state: &mut QueryBuildState) -> (r: FmtResult)
    requires
        order_items_ready(items@),
    ensures
        final(state)@ == old(state)@ + render(order_by_parts(items@)),
        r is Ok,
{
    if items.len() > 0 {
        state.write_str("ORDER BY")?;
        order_items_to_sql(items, state)?;
    }
    assert(state@ =~= old(state)@ + render(order_by_parts(items@)));
    Ok(())
}

/// Appends the `LIMIT` clause when there is a limit.
pub fn limit_to_sql(limit: Option<usize>, state: &mut QueryBuildState) -> (r: FmtResult)
    ensures
        final(state)@ == old(state)@ + render(limit_parts(limit)),
        r is Ok,
{
    if let Some(l) = limit {
        state.write_str("LIMIT ")?;
        state.write_string(unsigned_text(l as u64))?;
    }
    assert(state@ =~= old(state)@ + render(limit_parts(limit)));
    Ok(())
}

/// Appends the tokens of an `UPDATE` query.
pub fn update_query_to_sql(q: &UpdateQuery, state: &mut QueryBuildState) -> (r: FmtResult)
    requires
        update_query_ready(*q),
    ensures
        final(state)@ == old(state)@ + render(update_query_parts(*q)),
        r is Ok,
{
    state.write_str("UPDATE")?;
    q.from.to_sql(state)?;
    state.write_str("SET")?;
    assignments_to_sql(&q.assignments, state)?;
    where_to_sql(&q.where_clauses, state)?;
    order_by_to_sql(&q.order_by, state)?;
    limit_to_sql(q.limit, state)?;
    assert(state@ =~= old(state)@ + render(update_query_parts(*q)));
    Ok(())
}

impl UpdateQuery {
    /// The rendered tokens, each followed by one space but the last.
    pub fn to_display_string(&self) -> (s: String)
        requires
            update_query_ready(*self),
        ensures
            s@ == join_text(render(update_query_parts(*self)), " "@),
    {
        let mut state = QueryBuildState::new();
        let _ = update_query_to_sql(self, &mut state);
        assert(state@ =~= render(update_query_parts(*self)));
        state.to_string()
    }
}

impl ToSql for AssignmentValue {
    open spec fn sql_ready(&self) -> bool {
        assignment_value_ready(*self)
    }

    open spec fn sql_parts(&self) -> Seq<SqlPart> {
        assignment_value_parts(*self)
    }

    fn to_sql(&self, state: &mut QueryBuildState) -> (r: FmtResult) {
        assignment_value_to_sql(self, state)
    }

    fn is_sql_ready(&self) -> (r: bool) {
        match self {
            AssignmentValue::Expr(e) => expr_is_ready(e),
            AssignmentValue::Default => true,
        }
    }
}

impl ToSql for AssignmentItem {
    open spec fn sql_ready(&self) -> bool {
        assignment_value_ready(self.value)
    }

    open spec fn sql_parts(&self) -> Seq<SqlPart> {
        assignment_item_parts(*self)
    }

    fn to_sql(&self, state: &mut QueryBuildState) -> (r: FmtResult) {
        assignment_item_to_sql(self, state)
    }

    fn is_sql_ready(&self) -> (r: bool) {
        self.value.is_sql_ready()
    }
}

impl ToSql for UpdateQuery {
    open spec fn sql_ready(&self) -> bool {
        update_query_ready(*self)
    }

    open spec fn sql_parts(&self) -> Seq<SqlPart> {
        update_query_parts(*self)
    }

    fn to_sql(&self, state: &mut QueryBuildState) -> (r: FmtResult) {
        update_query_to_sql(self, state)
    }

    fn is_sql_ready(&self) -> (r: bool) {
        let a = assignments_are_ready(&self.assignments);
        let b = exprs_are_ready(&self.where_clauses);
        a && b && order_items_are_ready(&self.order_by)
    }
}

impl BindArgs for AssignmentValue {
    open spec fn bound_args(&self) -> Seq<DatabaseValue> {
        assignment_value_args(*self)
    }

    fn bind_args(self, args: &mut Vec<DatabaseValue>) {
        match self {
            AssignmentValue::Expr(e) => bind_expr(*e, args),
            AssignmentValue::Default => {
                assert(args@ =~= old(args)@ + Seq::<DatabaseValue>::empty());
            },
        }
    }
}

impl BindArgs for AssignmentItem {
    open spec fn bound_args(&self) -> Seq<DatabaseValue> {
        assignment_value_args(self.value)
    }

    fn bind_args(self, args: &mut Vec<DatabaseValue>) {
        self.value.bind_args(args)
    }
}

impl BindArgs for UpdateQuery {
    open spec fn bound_args(&self) -> Seq<DatabaseValue> {
        update_query_args(*self)
    }

    /// Binds the values of the `WHERE` conditions, then of the sort keys.
    fn bind_args(self, args: &mut Vec<DatabaseValue>) {
        let ghost whole = self;
        bind_exprs(self.where_clauses, args);
        bind_order_items(self.order_by, args);
        assert(args@ =~= old(args)@ + update_query_args(whole));
    }
}

/// The placeholders of an aligned assignment stand for the values it
/// holds.
pub proof fn lemma_assignments_params(items: Seq<AssignmentItem>)
    requires
        assignments_aligned(items),
    ensures
        params_of(assignments_parts(items)) == assignments_args(items),
    decreases items.len(),
{
    if items.len() > 0 {
        let last = items.last();
        assert(assignment_value_aligned(items[items.len() - 1].value));
        match last.value {
            AssignmentValue::Expr(e) => lemma_expr_params(*e),
            AssignmentValue::Default => {},
        }
        assert(params_of(assignment_item_parts(last)) =~= assignment_value_args(last.value));
        if items.len() == 1 {
            assert(items.drop_last().len() == 0);
            assert(assignments_args(items.drop_last()) =~= Seq::<DatabaseValue>::empty());
            assert(items.last() == items[0]);
            assert(assignments_args(items) =~= assignment_value_args(items[0].value));
        } else {
            assert(assignments_aligned(items.drop_last()));
            lemma_assignments_params(items.drop_last());
        }
    }
}

/// Every placeholder of a rendered `UPDATE` query is matched, in order,
/// by a value that its binding supplies, provided its assignments hold no
/// value of their own (the assigned values are rendered but not bound)
/// and no grouped subquery in it has `HAVING` values without grouping
/// keys.
pub proof fn law_update_placeholders_match_bound_values(q: UpdateQuery)
    requires
        update_query_aligned(q),
        assignments_args(q.spec_assignments()).len() == 0,
    ensures
        params_of(update_query_parts(q)) == update_query_args(q),
{
    lemma_assignments_params(q.spec_assignments());
    lemma_exprs_params(q.spec_where_clauses(), "AND"@);
    lemma_order_items_params(q.spec_order_by());
    if q.spec_where_clauses().len() == 0 {
        assert(exprs_args(q.spec_where_clauses()) =~= Seq::<DatabaseValue>::empty());
    }
    if q.spec_order_by().len() == 0 {
        assert(order_items_args(q.spec_order_by()) =~= Seq::<DatabaseValue>::empty());
    }
    assert(params_of(limit_parts(q.spec_limit())) =~= Seq::<DatabaseValue>::empty());
    assert(params_of(update_query_parts(q)) =~= update_query_args(q));
}

/// Whether every assigned value can be rendered.
pub fn assignments_are_ready(items: &Vec<AssignmentItem>) -> (r: bool)
    ensures
        r == assignments_ready(items@),
{
    let n = items.len();
    let mut i: usize = 0;
    while i < n
        invariant
            n == items@.len(),
            0 <= i <= n,
            forall|j: int| 0 <= j < i ==> assignment_value_ready(#[trigger] items@[j].value),
        decreases n - i,
    {
        let ok = match &items[i].value {
            AssignmentValue::Expr(e) => expr_is_ready(e),
            AssignmentValue::Default => true,
        };
        if !ok {
            return false;
        }
        i = i + 1;
    }
    true
}


/// An `UPDATE` renders as `UPDATE`, the table with its alias, `SET`, the
/// assignments (each the column in backquotes, `=`, the value or
/// `DEFAULT`) separated by `,`, then `WHERE` with the conditions joined by
/// `AND`, `ORDER BY` with the keys, and `LIMIT ` with its digits, each
/// when present.
pub proof fn law_update_query_tokens(q: UpdateQuery, a: AssignmentItem)
    ensures
        render(q.sql_parts()) == seq!["UPDATE"@] + render(aliased_table_parts(q.spec_from()))
            + seq!["SET"@] + render(assignments_parts(q.spec_assignments())) + (if q.spec_where_clauses().len() > 0 {
            seq!["WHERE"@] + render(exprs_parts(q.spec_where_clauses(), "AND"@))
        } else {
            Seq::<Seq<char>>::empty()
        }) + (if q.spec_order_by().len() > 0 {
            seq!["ORDER BY"@] + render(order_items_parts(q.spec_order_by()))
        } else {
            Seq::<Seq<char>>::empty()
        }) + (match q.spec_limit() {
            Some(n) => seq!["LIMIT "@, decimal_digits(n as nat)],
            None => Seq::<Seq<char>>::empty(),
        }),
        render(assignment_item_parts(a)) == seq!["`"@ + a.column@ + "`"@, "="@] + match a.value {
            AssignmentValue::Expr(e) => render(e.sql_parts()),
            AssignmentValue::Default => seq!["DEFAULT"@],
        },
{
}

} // verus!
