use vstd::prelude::*;

use crate::state::{
    group_render, join_parts, render, text, BindArgs, FmtResult, QueryBuildState, SqlPart, ToSql,
    YukinoQuery,
};
use crate::text::join_text;
use crate::value::DatabaseValue;

verus! {

broadcast use group_render;

/// One row of an `INSERT`: it knows how many values a row of its type
/// has and binds its own values. The entity derive writes the
/// implementations; the contracts below are what such an implementation
/// owes.
pub trait ArgSource: Sized {
    /// The number of values of every row of this type.
    spec fn spec_insert_value_count() -> nat;

    /// The values of this row, in binding order.
    spec fn spec_values(&self) -> Seq<DatabaseValue>;

    /// The number of values of every row of this type.
    fn insert_value_count() -> (r: usize)
        ensures
            r == Self::spec_insert_value_count(),
    ;

    /// Moves the values of this row to the end of `args`.
    fn bind_args(self, args: &mut Vec<DatabaseValue>)
        ensures
            final(args)@ == old(args)@ + self.spec_values(),
    ;
}

/// A single value is a row of one column.
impl ArgSource for DatabaseValue {
    open spec fn spec_insert_value_count() -> nat {
        1
    }

    open spec fn spec_values(&self) -> Seq<DatabaseValue> {
        seq![*self]
    }

    fn insert_value_count() -> (r: usize) {
        1
    }

    fn bind_args(self, args: &mut Vec<DatabaseValue>) {
        args.push(self);
        assert(args@ =~= old(args)@ + seq![self]);
    }
}

/// A pair of rows is one row: the columns of the first, then those of
/// the second. Its width is the sum of theirs, capped at `usize::MAX`.
impl<A: ArgSource, B: ArgSource> ArgSource for (A, B) {
    open spec fn spec_insert_value_count() -> nat {
        if A::spec_insert_value_count() + B::spec_insert_value_count() > usize::MAX {
            usize::MAX as nat
        } else {
            A::spec_insert_value_count() + B::spec_insert_value_count()
        }
    }

    open spec fn spec_values(&self) -> Seq<DatabaseValue> {
        self.0.spec_values() + self.1.spec_values()
    }

    fn insert_value_count() -> (r: usize) {
        let a = A::insert_value_count();
        let b = B::insert_value_count();
        a.saturating_add(b)
    }

    fn bind_args(self, args: &mut Vec<DatabaseValue>) {
        let (a, b) = self;
        let ghost va = a.spec_values();
        let ghost vb = b.spec_values();
        a.bind_args(args);
        b.bind_args(args);
        assert(args@ =~= old(args)@ + (va + vb));
    }
}

/// The rows of an `INSERT`.
pub trait ArgSourceList: Sized {
    /// The number of rows.
    spec fn row_count(&self) -> nat;

    /// The number of values of every row.
    spec fn row_width() -> nat;

    /// The values of all rows, row after row.
    spec fn list_values(&self) -> Seq<DatabaseValue>;

    /// The `VALUES` text of the rows: one row of placeholders per row,
    /// every row as long as its type says.
    fn query_part(&self) -> (s: String)
        ensures
            s@ == placeholder_rows(self.row_count(), Self::row_width()),
    ;

    /// Moves the values of all rows to the end of `args`, row after row.
    fn bind_args(self, args: &mut Vec<DatabaseValue>)
        ensures
            final(args)@ == old(args)@ + self.list_values(),
    ;
}

/// The values of a list of rows, row after row.
pub open spec fn rows_values<S: ArgSource>(rows: Seq<S>) -> Seq<DatabaseValue>
    decreases rows.len(),
{
    if rows.len() == 0 {
        Seq::empty()
    } else {
        rows_values(rows.drop_last()) + rows.last().spec_values()
    }
}

/// `n` placeholders.
pub open spec fn question_marks(n: nat) -> Seq<Seq<char>> {
    Seq::new(n, |i: int| "?"@)
}

/// A row of `count` placeholders: `(?,?,...)`.
pub open spec fn placeholder_row(count: nat) -> Seq<char> {
    "("@ + join_text(question_marks(count), ","@) + ")"@
}

/// `rows` copies of a row.
pub open spec fn row_copies(rows: nat, count: nat) -> Seq<Seq<char>> {
    Seq::new(rows, |i: int| placeholder_row(count))
}

/// `rows` rows of `count` placeholders each, separated by `,`.
pub open spec fn placeholder_rows(rows: nat, count: nat) -> Seq<char> {
    join_text(row_copies(rows, count), ","@)
}

/// The text `(?,?,...)` with `count` placeholders.
pub fn placeholder_row_string(count: usize) -> (s: String)
    ensures
        s@ == placeholder_row(count as nat),
{
    let mut inner = String::new();
    let mut i: usize = 0;
    while i < count
        invariant
            0 <= i <= count,
            inner@ == join_text(question_marks(i as nat), ","@),
        decreases count - i,
    {
        if i != 0 {
            inner.append(",");
        }
        inner.append("?");
        assert(question_marks((i + 1) as nat).drop_last() =~= question_marks(i as nat));
        i = i + 1;
    }
    let mut s = String::from_str("(");
    s.append(inner.as_str());
    s.append(")");
    s
}

/// `rows` rows of `count` placeholders, separated by `,`.
pub fn placeholder_rows_string(rows: usize, count: usize) -> (s: String)
    ensures
        s@ == placeholder_rows(rows as nat, count as nat),
{
    let row = placeholder_row_string(count);
    let mut s = String::new();
    let mut j: usize = 0;
    while j < rows
        invariant
            0 <= j <= rows,
            row@ == placeholder_row(count as nat),
            s@ == join_text(row_copies(j as nat, count as nat), ","@),
        decreases rows - j,
    {
        if j != 0 {
            s.append(",");
        }
        s.append(row.as_str());
        assert(row_copies((j + 1) as nat, count as nat).drop_last() =~= row_copies(
            j as nat,
            count as nat,
        ));
        j = j + 1;
    }
    s
}

impl<S: ArgSource> ArgSourceList for Vec<S> {
    open spec fn row_count(&self) -> nat {
        self@.len()
    }

    open spec fn row_width() -> nat {
        S::spec_insert_value_count()
    }

    open spec fn list_values(&self) -> Seq<DatabaseValue> {
        rows_values(self@)
    }

    /// One row of placeholders per element.
    fn query_part(&self) -> (s: String) {
        let count = S::insert_value_count();
        placeholder_rows_string(self.len(), count)
    }

    /// Binds the rows in order.
    fn bind_args(self, args: &mut Vec<DatabaseValue>) {
        let ghost all = self@;
        let total = self.len();
        let mut rest = self;
        let mut k: usize = 0;
        while rest.len() > 0
            invariant
                0 <= k <= all.len(),
                all.len() == total,
                rest@ == all.skip(k as int),
                args@ == old(args)@ + rows_values(all.take(k as int)),
            decreases rest.len(),
        {
            let x = rest.remove(0);
            assert(x == all[k as int]);
            x.bind_args(args);
            assert(all.take(k + 1).drop_last() =~= all.take(k as int));
            assert(rest@ =~= all.skip(k + 1));
            k = k + 1;
        }
        assert(all.take(k as int) =~= all);
    }
}

/// The starting point of an `INSERT`.
pub struct Insert;

/// An `INSERT` of rows into some columns of a table. The `VALUES` text
/// and the values of the rows are taken from the rows when the query is
/// made.
pub struct InsertQuery {
    table: String,
    columns: Vec<String>,
    part: String,
    args: Vec<DatabaseValue>,
}

impl InsertQuery {
    /// The table inserted into.
    pub closed spec fn spec_table(self) -> Seq<char> {
        self.table@
    }

    /// The columns, in order.
    pub closed spec fn spec_columns(self) -> Seq<String> {
        self.columns@
    }

    /// The `VALUES` text of the rows.
    pub closed spec fn spec_part(self) -> Seq<char> {
        self.part@
    }

    /// The values of the rows, in order.
    pub closed spec fn spec_args(self) -> Seq<DatabaseValue> {
        self.args@
    }
}

/// The parts of an `INSERT` query whose rows have the `VALUES` text
/// `part`: `INSERT INTO `, the table, ` (`, the columns separated by `,`,
/// `) VALUES `, the rows, ` ;`.
pub open spec fn insert_query_parts(table: Seq<char>, columns: Seq<String>, part: Seq<char>) -> Seq<
    SqlPart,
> {
    text("INSERT INTO "@) + text(table) + text(" ("@) + join_parts(
        columns.map_values(|c: String| text(c@)),
        ","@,
    ) + text(") VALUES "@) + text(part) + text(" ;"@)
}

impl Insert {
    /// Inserts `values` into `columns` of `table`: the `VALUES` text and
    /// the values are taken from `values` now.
    pub fn into<S: ArgSourceList>(table: String, columns: Vec<String>, values: S) -> (q:
        InsertQuery)
        ensures
            q.spec_table() == table@,
            q.spec_columns() == columns@,
            q.spec_part() == placeholder_rows(values.row_count(), S::row_width()),
            q.spec_args() == values.list_values(),
    {
        let part = values.query_part();
        let mut args: Vec<DatabaseValue> = Vec::new();
        values.bind_args(&mut args);
        InsertQuery { table, columns, part, args }
    }
}

/// Appends the tokens of an `INSERT` of `columns` of `table` whose rows
/// have the `VALUES` text `part`.
pub fn insert_to_sql(table: &str, columns: &Vec<String>, part: &str, state: &mut QueryBuildState) -> (r:
    FmtResult)
    ensures
        final(state)@ == old(state)@ + render(insert_query_parts(table@, columns@, part@)),
        r is Ok,
{
    state.write_str("INSERT INTO ")?;
    state.write_str(table)?;
    state.write_str(" (")?;
    state.join_strings_with(columns, ",")?;
    state.write_str(") VALUES ")?;
    state.write_str(part)?;
    state.write_str(" ;")?;
    assert(state@ =~= old(state)@ + render(insert_query_parts(table@, columns@, part@)));
    Ok(())
}

impl InsertQuery {
    /// The rendered tokens, each followed by one space but the last.
    pub fn to_display_string(&self) -> (s: String)
        ensures
            s@ == join_text(
                render(insert_query_parts(self.spec_table(), self.spec_columns(), self.spec_part())),
                " "@,
            ),
    {
        let mut state = QueryBuildState::new();
        let _ = insert_to_sql(self.table.as_str(), &self.columns, self.part.as_str(), &mut state);
        assert(state@ =~= render(
            insert_query_parts(self.spec_table(), self.spec_columns(), self.spec_part()),
        ));
        state.to_string()
    }
}

impl ToSql for InsertQuery {
    open spec fn sql_ready(&self) -> bool {
        true
    }

    open spec fn sql_parts(&self) -> Seq<SqlPart> {
        insert_query_parts(self.spec_table(), self.spec_columns(), self.spec_part())
    }

    fn to_sql(&self, state: &mut QueryBuildState) -> (r: FmtResult) {
        insert_to_sql(self.table.as_str(), &self.columns, self.part.as_str(), state)
    }

    fn is_sql_ready(&self) -> (r: bool) {
        true
    }
}

impl BindArgs for InsertQuery {
    open spec fn bound_args(&self) -> Seq<DatabaseValue> {
        self.spec_args()
    }

    /// Binds the values of the rows.
    fn bind_args(self, args: &mut Vec<DatabaseValue>) {
        let mut own = self.args;
        args.append(&mut own);
    }
}

impl YukinoQuery for InsertQuery {

}

/// The number of times `c` occurs in `s`.
pub open spec fn char_count(s: Seq<char>, c: char) -> nat
    decreases s.len(),
{
    if s.len() == 0 {
        0
    } else {
        char_count(s.drop_last(), c) + if s.last() == c {
            1nat
        } else {
            0nat
        }
    }
}

/// Counting distributes over concatenation.
pub proof fn lemma_char_count_add(a: Seq<char>, b: Seq<char>, c: char)
    ensures
        char_count(a + b, c) == char_count(a, c) + char_count(b, c),
    decreases b.len(),
{
    if b.len() == 0 {
        assert(a + b =~= a);
    } else {
        lemma_char_count_add(a, b.drop_last(), c);
        assert((a + b).drop_last() =~= a + b.drop_last());
    }
}

/// Joining `n` copies of `x` with a separator that holds no `c` holds
/// `n` times the `c`s of `x`.
pub proof fn lemma_char_count_join_copies(items: Seq<Seq<char>>, x: Seq<char>, sep: Seq<char>, c: char)
    requires
        forall|i: int| 0 <= i < items.len() ==> items[i] == x,
        char_count(sep, c) == 0,
    ensures
        char_count(join_text(items, sep), c) == items.len() * char_count(x, c),
    decreases items.len(),
{
    if items.len() == 0 {
    } else if items.len() == 1 {
        assert(items[0] == x);
        assert(join_text(items, sep) == x);
        assert(items.len() * char_count(x, c) == char_count(x, c));
    } else {
        let rest = items.drop_last();
        lemma_char_count_join_copies(rest, x, sep, c);
        assert(items.last() == x);
        lemma_char_count_add(join_text(rest, sep), sep, c);
        lemma_char_count_add(join_text(rest, sep) + sep, x, c);
        assert(char_count(join_text(items, sep), c) == rest.len() * char_count(x, c) + char_count(
            x,
            c,
        ));
        assert(rest.len() * char_count(x, c) + char_count(x, c) == items.len() * char_count(x, c))
            by (nonlinear_arith)
            requires
                rest.len() + 1 == items.len(),
        ;
    }
}

/// A row of `count` placeholders holds `count` question marks.
pub proof fn lemma_row_placeholders(count: nat)
    ensures
        char_count(placeholder_row(count), '?') == count,
{
    reveal_strlit("(");
    reveal_strlit(")");
    reveal_strlit(",");
    reveal_strlit("?");
    assert(char_count(","@, '?') == 0) by {
        reveal_with_fuel(char_count, 2);
        assert(","@.drop_last() =~= Seq::<char>::empty());
    }
    assert(char_count("?"@, '?') == 1) by {
        reveal_with_fuel(char_count, 2);
        assert("?"@.drop_last() =~= Seq::<char>::empty());
    }
    assert(char_count("("@, '?') == 0) by {
        reveal_with_fuel(char_count, 2);
        assert("("@.drop_last() =~= Seq::<char>::empty());
    }
    assert(char_count(")"@, '?') == 0) by {
        reveal_with_fuel(char_count, 2);
        assert(")"@.drop_last() =~= Seq::<char>::empty());
    }
    lemma_char_count_join_copies(question_marks(count), "?"@, ","@, '?');
    let inner = join_text(question_marks(count), ","@);
    lemma_char_count_add("("@, inner, '?');
    lemma_char_count_add("("@ + inner, ")"@, '?');
}

/// The `VALUES` text of `rows` rows of `count` values holds one
/// placeholder per value: `rows * count` in all.
pub proof fn law_insert_placeholders_per_row(rows: nat, count: nat)
    ensures
        char_count(placeholder_rows(rows, count), '?') == rows * count,
{
    lemma_row_placeholders(count);
    reveal_strlit(",");
    assert(char_count(","@, '?') == 0) by {
        reveal_with_fuel(char_count, 2);
        assert(","@.drop_last() =~= Seq::<char>::empty());
    }
    lemma_char_count_join_copies(row_copies(rows, count), placeholder_row(count), ","@, '?');
}


/// Rows whose values all have the width their type declares.
pub open spec fn rows_have_width<S: ArgSource>(rows: Seq<S>) -> bool {
    forall|i: int|
        0 <= i < rows.len() ==> (#[trigger] rows[i]).spec_values().len()
            == S::spec_insert_value_count()
}

/// When every row binds as many values as its type declares, the values
/// of the rows lie one row after the other: row `i` fills the positions
/// `i * width .. (i + 1) * width`, and there are `rows * width` in all.
pub proof fn lemma_rows_values_layout<S: ArgSource>(rows: Seq<S>)
    requires
        rows_have_width(rows),
    ensures
        rows_values(rows).len() == rows.len() * S::spec_insert_value_count(),
        forall|i: int|
            0 <= i < rows.len() ==> rows_values(rows).subrange(
                i * S::spec_insert_value_count(),
                (i + 1) * S::spec_insert_value_count(),
            ) == (#[trigger] rows[i]).spec_values(),
    decreases rows.len(),
{
    let w = S::spec_insert_value_count();
    if rows.len() > 0 {
        let front = rows.drop_last();
        let n = rows.len();
        assert(rows_have_width(front)) by {
            assert forall|i: int| 0 <= i < front.len() implies (#[trigger] front[i]).spec_values().len()
                == w by {
                assert(front[i] == rows[i]);
            }
        }
        lemma_rows_values_layout(front);
        let rv = rows_values(rows);
        let fv = rows_values(front);
        assert(rows.last() == rows[n - 1]);
        assert(fv.len() == (n - 1) * w);
        assert((n - 1) * w + w == n * w) by (nonlinear_arith);
        assert forall|i: int| 0 <= i < rows.len() implies rv.subrange(i * w, (i + 1) * w)
            == (#[trigger] rows[i]).spec_values() by {
            assert(i * w + w == (i + 1) * w) by (nonlinear_arith);
            assert(0 <= i * w) by (nonlinear_arith)
                requires
                    0 <= i,
            ;
            if i < n - 1 {
                assert((i + 1) * w <= (n - 1) * w) by (nonlinear_arith)
                    requires
                        i + 1 <= n - 1,
                ;
                assert(front[i] == rows[i]);
                assert(rv.subrange(i * w, (i + 1) * w) =~= fv.subrange(i * w, (i + 1) * w));
            } else {
                assert(rv.subrange(i * w, (i + 1) * w) =~= rows.last().spec_values());
            }
        }
    }
}

/// An `INSERT` of rows that each bind as many values as their type
/// declares carries one placeholder per bound value: the `VALUES` text
/// (what `Insert::into` stores as `spec_part`) holds as many `?` as the
/// rows bind values (what it stores as `spec_args`), and row `i` binds
/// the values at positions `i * width .. (i + 1) * width`.
pub proof fn law_insert_placeholders_match_values<S: ArgSource>(rows: Seq<S>)
    requires
        rows_have_width(rows),
    ensures
        char_count(placeholder_rows(rows.len(), S::spec_insert_value_count()), '?')
            == rows_values(rows).len(),
        forall|i: int|
            0 <= i < rows.len() ==> rows_values(rows).subrange(
                i * S::spec_insert_value_count(),
                (i + 1) * S::spec_insert_value_count(),
            ) == (#[trigger] rows[i]).spec_values(),
{
    lemma_rows_values_layout(rows);
    law_insert_placeholders_per_row(rows.len(), S::spec_insert_value_count());
}


/// An `INSERT` renders as `INSERT INTO `, the table, ` (`, the columns
/// separated by `,` tokens, `) VALUES `, the rows, ` ;`.
pub proof fn law_insert_query_tokens(q: InsertQuery)
    ensures
        render(q.sql_parts()) == seq!["INSERT INTO "@, q.spec_table(), " ("@] + render(
            join_parts(q.spec_columns().map_values(|c: String| text(c@)), ","@),
        ) + seq![") VALUES "@, q.spec_part(), " ;"@],
{
}

} // verus!
