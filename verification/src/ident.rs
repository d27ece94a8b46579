use vstd::prelude::*;

use crate::state::{render, text, FmtResult, QueryBuildState, SqlPart, ToSql};
use crate::text::{join_strings, join_text, texts_of};

verus! {

/// A dotted name: `alias.column`.
#[derive(Clone, Debug, Eq, PartialEq, Hash)]
pub struct Ident {
    pub seg: Vec<String>,
}

/// A table alias.
#[derive(Clone, Debug)]
pub struct Alias {
    pub name: String,
}

/// A table together with the alias it is known by in a query.
#[derive(Clone, Debug)]
pub struct AliasedTable {
    pub table: String,
    pub alias: Alias,
}

/// The segments of an identifier, as texts.
pub open spec fn ident_segments(i: Ident) -> Seq<Seq<char>> {
    texts_of(i.seg@)
}

/// The text of an identifier: its segments joined by dots.
pub open spec fn ident_text(i: Ident) -> Seq<char> {
    join_text(ident_segments(i), "."@)
}

/// The parts of an aliased table: the table, `AS`, the alias.
pub open spec fn aliased_table_parts(t: AliasedTable) -> Seq<SqlPart> {
    text(t.table@) + text("AS"@) + text(t.alias.name@)
}

/// The display text of an aliased table: `table AS alias`.
pub open spec fn aliased_table_text(t: AliasedTable) -> Seq<char> {
    t.table@ + " AS "@ + t.alias.name@
}

impl Alias {
    /// The identifier `alias.column`.
    pub fn create_ident(&self, column: &str) -> (i: Ident)
        ensures
            ident_segments(i) == seq![self.name@, column@],
    {
        let mut ident = self.single_seg_ident();
        ident.append_str(column);
        assert(ident_segments(ident) =~= seq![self.name@, column@]);
        ident
    }

    /// The identifier made of the alias alone.
    pub fn single_seg_ident(&self) -> (i: Ident)
        ensures
            ident_segments(i) == seq![self.name@],
    {
        let mut seg: Vec<String> = Vec::new();
        seg.push(self.name.clone());
        let i = Ident { seg };
        assert(ident_segments(i) =~= seq![self.name@]);
        i
    }

    /// The alias as a one-token text.
    pub fn to_sql(&self, state: &mut QueryBuildState) -> (r: FmtResult)
        ensures
            final(state)@ == old(state)@.push(self.name@),
            r is Ok,
    {
        state.write_str(self.name.as_str())
    }
}

impl Ident {
    /// Appends `column` as a further segment.
    pub fn append_str(&mut self, column: &str)
        ensures
            ident_segments(*final(self)) == ident_segments(*old(self)).push(column@),
    {
        self.seg.push(String::from_str(column));
        assert(ident_segments(*self) =~= ident_segments(*old(self)).push(column@));
    }

    /// Appends the segments of `ident`.
    pub fn extend(&mut self, ident: Ident)
        ensures
            ident_segments(*final(self)) == ident_segments(*old(self)) + ident_segments(ident),
    {
        let mut other = ident.seg;
        let ghost other_start = texts_of(other@);
        self.seg.append(&mut other);
        assert(ident_segments(*self) =~= ident_segments(*old(self)) + other_start);
    }

    /// The segments joined by dots.
    pub fn to_display_string(&self) -> (s: String)
        ensures
            s@ == ident_text(*self),
    {
        join_strings(&self.seg, ".")
    }
}

impl ToSql for Ident {
    open spec fn sql_ready(&self) -> bool {
        true
    }

    open spec fn sql_parts(&self) -> Seq<SqlPart> {
        text(ident_text(*self))
    }

    /// The identifier as one token.
    fn to_sql(&self, state: &mut QueryBuildState) -> (r: FmtResult) {
        let s = self.to_display_string();
        let r = state.write_string(s);
        assert(render(text(ident_text(*self))) =~= seq![ident_text(*self)]);
        r
    }

    fn is_sql_ready(&self) -> (r: bool) {
        true
    }
}

impl ToSql for AliasedTable {
    open spec fn sql_ready(&self) -> bool {
        true
    }

    open spec fn sql_parts(&self) -> Seq<SqlPart> {
        aliased_table_parts(*self)
    }

    /// The table, `AS` and the alias, as three tokens.
    fn to_sql(&self, state: &mut QueryBuildState) -> (r: FmtResult) {
        state.write_str(self.table.as_str())?;
        state.write_str("AS")?;
        self.alias.to_sql(state)?;
        assert(render(aliased_table_parts(*self)) =~= seq![self.table@, "AS"@, self.alias.name@]);
        Ok(())
    }

    fn is_sql_ready(&self) -> (r: bool) {
        true
    }
}

impl AliasedTable {
    /// The text `table AS alias`.
    pub fn to_display_string(&self) -> (s: String)
        ensures
            s@ == aliased_table_text(*self),
    {
        let mut s = self.table.clone();
        s.append(" AS ");
        s.append(self.alias.name.as_str());
        s
    }
}

/// A copy of an identifier, segment by segment.
pub(crate) fn copy_ident(i: &Ident) -> (r: Ident)
    ensures
        r.seg@ == i.seg@,
{
    let mut seg: Vec<String> = Vec::new();
    let n = i.seg.len();
    let mut k: usize = 0;
    while k < n
        invariant
            n == i.seg@.len(),
            0 <= k <= n,
            seg@ == i.seg@.take(k as int),
        decreases n - k,
    {
        seg.push(i.seg[k].clone());
        k = k + 1;
        assert(seg@ =~= i.seg@.take(k as int));
    }
    assert(i.seg@.take(n as int) =~= i.seg@);
    Ident { seg }
}

/// A copy of an aliased table.
pub(crate) fn copy_aliased_table(t: &AliasedTable) -> (r: AliasedTable)
    ensures
        r == *t,
{
    AliasedTable { table: t.table.clone(), alias: Alias { name: t.alias.name.clone() } }
}

} // verus!
