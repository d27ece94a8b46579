use vstd::prelude::*;

use crate::text::{join_strings, join_text, texts_of};
use crate::value::DatabaseValue;

verus! {

/// The error type of the rendering functions; rendering into a
/// `QueryBuildState` never produces it.
#[verifier::external_type_specification]
#[verifier::external_body]
pub struct ExFmtError(core::fmt::Error);

/// What every rendering function returns.
pub type FmtResult = Result<(), core::fmt::Error>;

pub type Token = String;

pub type PlaceHolder = String;

/// The tokens of a rendered query, in order.
pub struct QueryBuildState {
    tokens: Vec<Token>,
}

impl View for QueryBuildState {
    type V = Seq<Seq<char>>;

    closed spec fn view(&self) -> Seq<Seq<char>> {
        self.tokens@.map_values(|t: String| t@)
    }
}

impl QueryBuildState {
    /// An empty state.
    pub fn new() -> (s: Self)
        ensures
            s@ == Seq::<Seq<char>>::empty(),
    {
        let s = QueryBuildState { tokens: Vec::new() };
        assert(s@ =~= Seq::<Seq<char>>::empty());
        s
    }

    /// Appends `s` as one token.
    pub fn write_str(&mut self, s: &str) -> (r: FmtResult)
        ensures
            final(self)@ == old(self)@.push(s@),
            r is Ok,
    {
        let t = String::from_str(s);
        self.tokens.push(t);
        assert(self@ =~= old(self)@.push(s@));
        Ok(())
    }

    /// Appends the text of `s` as one token.
    pub fn write_string(&mut self, s: String) -> (r: FmtResult)
        ensures
            final(self)@ == old(self)@.push(s@),
            r is Ok,
    {
        self.tokens.push(s);
        assert(self@ =~= old(self)@.push(s@));
        Ok(())
    }

    /// Appends one placeholder token `?`.
    pub fn append_param(&mut self) -> (r: FmtResult)
        ensures
            final(self)@ == old(self)@.push("?"@),
            r is Ok,
    {
        self.write_str("?")
    }

    /// The tokens, each followed by a single space but the last.
    pub fn to_string(&self) -> (s: String)
        ensures
            s@ == join_text(self@, " "@),
    {
        assert(texts_of(self.tokens@) == self@);
        join_strings(&self.tokens, " ")
    }
}

impl Default for QueryBuildState {
    fn default() -> (s: Self)
        ensures
            s@ == Seq::<Seq<char>>::empty(),
    {
        QueryBuildState::new()
    }
}

/// One piece of rendered SQL: a token of text, or a value that a `?`
/// placeholder stands for.
pub enum SqlPart {
    Text(Seq<char>),
    Param(DatabaseValue),
}

/// The token a part is rendered as.
pub open spec fn part_token(p: SqlPart) -> Seq<char> {
    match p {
        SqlPart::Text(t) => t,
        SqlPart::Param(_) => "?"@,
    }
}

/// The tokens that a sequence of parts is rendered as.
pub open spec fn render(parts: Seq<SqlPart>) -> Seq<Seq<char>> {
    parts.map_values(|p: SqlPart| part_token(p))
}

/// One text part.
pub open spec fn text(t: Seq<char>) -> Seq<SqlPart> {
    seq![SqlPart::Text(t)]
}

/// The values of the placeholders among `parts`, in order.
pub open spec fn params_of(parts: Seq<SqlPart>) -> Seq<DatabaseValue>
    decreases parts.len(),
{
    if parts.len() == 0 {
        Seq::empty()
    } else {
        params_of(parts.drop_last()) + match parts.last() {
            SqlPart::Text(_) => Seq::<DatabaseValue>::empty(),
            SqlPart::Param(v) => seq![v],
        }
    }
}

/// Rendering distributes over concatenation.
pub broadcast proof fn lemma_render_add(a: Seq<SqlPart>, b: Seq<SqlPart>)
    ensures
        #[trigger] render(a + b) == render(a) + render(b),
{
    assert(render(a + b) =~= render(a) + render(b));
}

/// A text part renders as its text.
pub broadcast proof fn lemma_render_text(t: Seq<char>)
    ensures
        #[trigger] render(text(t)) == seq![t],
{
    assert(render(text(t)) =~= seq![t]);
}

/// A placeholder part renders as `?`.
pub broadcast proof fn lemma_render_param(v: DatabaseValue)
    ensures
        #[trigger] render(seq![SqlPart::Param(v)]) == seq!["?"@],
{
    assert(render(seq![SqlPart::Param(v)]) =~= seq!["?"@]);
}

/// Nothing renders as no tokens.
pub broadcast proof fn lemma_render_empty()
    ensures
        #[trigger] render(Seq::<SqlPart>::empty()) == Seq::<Seq<char>>::empty(),
{
    assert(render(Seq::<SqlPart>::empty()) =~= Seq::<Seq<char>>::empty());
}

pub broadcast group group_render {
    lemma_render_add,
    lemma_render_text,
    lemma_render_param,
    lemma_render_empty,
}

/// Collecting placeholder values distributes over concatenation.
pub broadcast proof fn lemma_params_add(a: Seq<SqlPart>, b: Seq<SqlPart>)
    ensures
        #[trigger] params_of(a + b) == params_of(a) + params_of(b),
    decreases b.len(),
{
    if b.len() == 0 {
        assert(a + b =~= a);
        assert(params_of(b) =~= Seq::<DatabaseValue>::empty());
        assert(params_of(a) + params_of(b) =~= params_of(a));
    } else {
        lemma_params_add(a, b.drop_last());
        assert((a + b).drop_last() =~= a + b.drop_last());
        assert((a + b).last() == b.last());
        assert(params_of(a) + params_of(b.drop_last()) + match b.last() {
            SqlPart::Text(_) => Seq::<DatabaseValue>::empty(),
            SqlPart::Param(v) => seq![v],
        } =~= params_of(a) + params_of(b));
    }
}

/// A text part holds no placeholder.
pub broadcast proof fn lemma_params_text(t: Seq<char>)
    ensures
        #[trigger] params_of(text(t)) == Seq::<DatabaseValue>::empty(),
{
    reveal_with_fuel(params_of, 2);
    assert(text(t).drop_last() =~= Seq::<SqlPart>::empty());
    assert(params_of(text(t)) =~= Seq::<DatabaseValue>::empty());
}

/// A placeholder part holds its value.
pub broadcast proof fn lemma_params_param(v: DatabaseValue)
    ensures
        #[trigger] params_of(seq![SqlPart::Param(v)]) == seq![v],
{
    reveal_with_fuel(params_of, 2);
    assert(seq![SqlPart::Param(v)].drop_last() =~= Seq::<SqlPart>::empty());
    assert(params_of(seq![SqlPart::Param(v)]) =~= seq![v]);
}

/// Nothing holds no placeholder.
pub broadcast proof fn lemma_params_empty()
    ensures
        #[trigger] params_of(Seq::<SqlPart>::empty()) == Seq::<DatabaseValue>::empty(),
{
}

pub broadcast group group_params {
    lemma_params_add,
    lemma_params_text,
    lemma_params_param,
    lemma_params_empty,
}

/// The parts of a list of items, each item's parts followed by a `sep`
/// token but the last.
pub open spec fn join_parts(items: Seq<Seq<SqlPart>>, sep: Seq<char>) -> Seq<SqlPart>
    decreases items.len(),
{
    if items.len() == 0 {
        Seq::empty()
    } else if items.len() == 1 {
        items[0]
    } else {
        join_parts(items.drop_last(), sep) + text(sep) + items.last()
    }
}

/// A piece of a query that renders itself into SQL tokens.
pub trait ToSql {
    /// Whether the item can be rendered (rendering panics otherwise).
    spec fn sql_ready(&self) -> bool;

    /// The parts the item renders as.
    spec fn sql_parts(&self) -> Seq<SqlPart>;

    /// Whether the item can be rendered.
    fn is_sql_ready(&self) -> (r: bool)
        ensures
            r == self.sql_ready(),
    ;

    /// Appends the item's tokens.
    fn to_sql(&self, state: &mut QueryBuildState) -> (r: FmtResult)
        requires
            self.sql_ready(),
        ensures
            final(state)@ == old(state)@ + render(self.sql_parts()),
            r is Ok,
    ;
}

/// A piece of a query that hands over the values its placeholders stand
/// for, in the order in which they are bound.
pub trait BindArgs: Sized {
    /// The values the item binds, in order.
    spec fn bound_args(&self) -> Seq<DatabaseValue>;

    /// Moves the item's values to the end of `args`.
    fn bind_args(self, args: &mut Vec<DatabaseValue>)
        ensures
            final(args)@ == old(args)@ + self.bound_args(),
    ;
}

/// The values a list of items binds, item after item.
pub open spec fn all_bound_args<T: BindArgs>(items: Seq<T>) -> Seq<DatabaseValue>
    decreases items.len(),
{
    if items.len() == 0 {
        Seq::empty()
    } else {
        all_bound_args(items.drop_last()) + items.last().bound_args()
    }
}

impl<T: BindArgs> BindArgs for Vec<T> {
    open spec fn bound_args(&self) -> Seq<DatabaseValue> {
        all_bound_args(self@)
    }

    /// Binds the items in order.
    fn bind_args(self, args: &mut Vec<DatabaseValue>) {
        let ghost all = self@;
        let mut rest = self;
        let total: usize = rest.len();
        let mut k: usize = 0;
        while rest.len() > 0
            invariant
                0 <= k <= all.len(),
                all.len() == k + rest@.len(),
                all.len() == total,
                rest@ == all.skip(k as int),
                args@ == old(args)@ + all_bound_args(all.take(k as int)),
            decreases rest.len(),
        {
            let x = rest.remove(0);
            assert(x == all[k as int]);
            x.bind_args(args);
            let ghost t = all.take(k + 1);
            assert(t.drop_last() =~= all.take(k as int));
            assert(rest@ =~= all.skip(k + 1));
            k = k + 1;
            assert(args@ =~= old(args)@ + all_bound_args(all.take(k as int)));
        }
        assert(all.take(k as int) =~= all);
    }
}

/// A complete query: it renders itself and binds its values.
pub trait YukinoQuery: ToSql + BindArgs {

}

/// Whether `rs` are the results of the calls that joining `n` items
/// makes, and `r` the result of the join: the calls go on while they
/// succeed, up to one per item and one per gap between items; the join
/// returns the first error, or `Ok` once all calls succeeded.
pub open spec fn join_results(n: nat, rs: Seq<FmtResult>, r: FmtResult) -> bool {
    let total: int = if n == 0 {
        0
    } else {
        2 * n - 1
    };
    &&& rs.len() <= total
    &&& forall|j: int| 0 <= j < rs.len() - 1 ==> (#[trigger] rs[j]) is Ok
    &&& if rs.len() > 0 && rs.last() is Err {
        r == rs.last()
    } else {
        rs.len() == total && r is Ok
    }
}

/// Whether the record of a join's calls has one state received and one
/// result per call, and one state more than calls.
pub open spec fn join_shape(
    ms: Seq<&mut QueryBuildState>,
    sts: Seq<QueryBuildState>,
    rs: Seq<FmtResult>,
) -> bool {
    ms.len() == rs.len() && sts.len() == rs.len() + 1
}

/// Whether the `j`-th call of a join of `items` is the call that `m`
/// and `r` record: an even call renders the item `j / 2` with
/// `callback`, an odd call writes a separator with `separator`.
pub open spec fn join_call<T, C, S>(
    callback: C,
    separator: S,
    items: Seq<T>,
    j: int,
    m: &mut QueryBuildState,
    r: FmtResult,
) -> bool where
    C: Fn(&mut QueryBuildState, &T) -> FmtResult,
    S: Fn(&mut QueryBuildState) -> FmtResult,
 {
    if j % 2 == 0 {
        call_ensures(callback, (m, &items[j / 2]), r)
    } else {
        call_ensures(separator, (m,), r)
    }
}

/// Calls `separator` on `state`.
fn call_separator<S>(state: &mut QueryBuildState, separator: &S) -> (r: FmtResult) where
    S: Fn(&mut QueryBuildState) -> FmtResult,

    requires
        forall|x: &mut QueryBuildState| separator.requires((x,)),
    ensures
        exists|m: &mut QueryBuildState|
            *m == *old(state) && *final(m) == *final(state) && call_ensures(*separator, (m,), r),
{
    separator(state)
}

/// Calls `callback` on `state` and `item`.
fn call_item<T, C>(state: &mut QueryBuildState, callback: &C, item: &T) -> (r: FmtResult) where
    C: Fn(&mut QueryBuildState, &T) -> FmtResult,

    requires
        forall|x: &mut QueryBuildState| callback.requires((x, item)),
    ensures
        exists|m: &mut QueryBuildState|
            *m == *old(state) && *final(m) == *final(state) && call_ensures(
                *callback,
                (m, item),
                r,
            ),
{
    callback(state, item)
}

/// Joins the items of `items` from position `i` on: calls `callback`
/// on the item, then, unless it was the last one, `separator`, then
/// goes on with the next item; stops at the first call that fails.
fn join_from<T, C, S>(
    state: &mut QueryBuildState,
    items: &[T],
    i: usize,
    callback: &C,
    separator: &S,
) -> (r: FmtResult) where
    C: Fn(&mut QueryBuildState, &T) -> FmtResult,
    S: Fn(&mut QueryBuildState) -> FmtResult,

    requires
        i < items@.len(),
        forall|x: &mut QueryBuildState, k: int|
            0 <= k < items@.len() ==> callback.requires((x, &items@[k])),
        forall|x: &mut QueryBuildState| separator.requires((x,)),
    ensures
        exists|ms: Seq<&mut QueryBuildState>, sts: Seq<QueryBuildState>, rs: Seq<FmtResult>|
            #![trigger join_shape(ms, sts, rs)]
            {
                &&& join_results((items@.len() - i) as nat, rs, r)
                &&& join_shape(ms, sts, rs)
                &&& sts[0] == *old(state)
                &&& sts[rs.len() as int] == *final(state)
                &&& forall|j: int|
                    0 <= j < rs.len() ==> *(#[trigger] ms[j]) == sts[j] && *final(ms[j]) == sts[j
                        + 1] && join_call(
                        *callback,
                        *separator,
                        items@.subrange(i as int, items@.len() as int),
                        j,
                        ms[j],
                        rs[j],
                    )
            },
    decreases items@.len() - i,
{
    let ghost rest = items@.subrange(i as int, items@.len() as int);
    let ghost a = *state;
    let rc = call_item(state, callback, &items[i]);
    let ghost b = *state;
    let ghost mc = choose|m: &mut QueryBuildState|
        *m == a && *final(m) == b && call_ensures(*callback, (m, &items@[i as int]), rc);
    assert(rest[0] == items@[i as int]);
    if rc.is_err() || i + 1 == items.len() {
        assert(exists|ms: Seq<&mut QueryBuildState>, sts: Seq<QueryBuildState>, rs: Seq<FmtResult>|
            #![trigger join_shape(ms, sts, rs)]
            {
                &&& join_results((items@.len() - i) as nat, rs, rc)
                &&& join_shape(ms, sts, rs)
                &&& sts[0] == a
                &&& sts[rs.len() as int] == b
                &&& forall|j: int|
                    0 <= j < rs.len() ==> *(#[trigger] ms[j]) == sts[j] && *final(ms[j]) == sts[j
                        + 1] && join_call(*callback, *separator, rest, j, ms[j], rs[j])
            }) by {
            let ms = seq![mc];
            let sts = seq![a, b];
            let rs = seq![rc];
            assert(ms[0] == mc && sts[0] == a && sts[1] == b && rs[0] == rc);
            assert(join_call(*callback, *separator, rest, 0, mc, rc));
            assert(*mc == a && *final(mc) == b);
            assert(forall|j: int|
                0 <= j < rs.len() ==> *(#[trigger] ms[j]) == sts[j] && *final(ms[j]) == sts[j + 1]
                    && join_call(*callback, *separator, rest, j, ms[j], rs[j]));
            assert(join_results((items@.len() - i) as nat, rs, rc));
            assert(join_shape(ms, sts, rs));
        }
        if rc.is_err() {
            return rc;
        }
        return Ok(());
    }
    let rs_sep = call_separator(state, separator);
    let ghost c = *state;
    let ghost msep = choose|m: &mut QueryBuildState|
        *m == b && *final(m) == c && call_ensures(*separator, (m,), rs_sep);
    if rs_sep.is_err() {
        assert(exists|ms: Seq<&mut QueryBuildState>, sts: Seq<QueryBuildState>, rs: Seq<FmtResult>|
            #![trigger join_shape(ms, sts, rs)]
            {
                &&& join_results((items@.len() - i) as nat, rs, rs_sep)
                &&& join_shape(ms, sts, rs)
                &&& sts[0] == a
                &&& sts[rs.len() as int] == c
                &&& forall|j: int|
                    0 <= j < rs.len() ==> *(#[trigger] ms[j]) == sts[j] && *final(ms[j]) == sts[j
                        + 1] && join_call(*callback, *separator, rest, j, ms[j], rs[j])
            }) by {
            let ms = seq![mc, msep];
            let sts = seq![a, b, c];
            let rs = seq![rc, rs_sep];
            assert(ms[0] == mc && ms[1] == msep && sts[0] == a && sts[1] == b && sts[2] == c);
            assert(rs[0] == rc && rs[1] == rs_sep);
            assert(join_call(*callback, *separator, rest, 0, mc, rc));
            assert(join_call(*callback, *separator, rest, 1, msep, rs_sep));
            assert(*mc == a && *final(mc) == b && *msep == b && *final(msep) == c);
            assert(forall|j: int|
                0 <= j < rs.len() ==> *(#[trigger] ms[j]) == sts[j] && *final(ms[j]) == sts[j + 1]
                    && join_call(*callback, *separator, rest, j, ms[j], rs[j]));
            assert(join_results((items@.len() - i) as nat, rs, rs_sep));
            assert(join_shape(ms, sts, rs));
        }
        return rs_sep;
    }
    let r = join_from(state, items, i + 1, callback, separator);
    let ghost d = *state;
    let ghost rest2 = items@.subrange(i + 1, items@.len() as int);
    let ghost (ms2, sts2, rs2) = choose|ms: Seq<&mut QueryBuildState>, sts: Seq<QueryBuildState>, rs: Seq<FmtResult>|
        #![trigger join_shape(ms, sts, rs)]
        {
            &&& join_results((items@.len() - (i + 1)) as nat, rs, r)
            &&& join_shape(ms, sts, rs)
            &&& sts[0] == c
            &&& sts[rs.len() as int] == d
            &&& forall|j: int|
                0 <= j < rs.len() ==> *(#[trigger] ms[j]) == sts[j] && *final(ms[j]) == sts[j
                    + 1] && join_call(*callback, *separator, rest2, j, ms[j], rs[j])
        };
    assert(exists|ms: Seq<&mut QueryBuildState>, sts: Seq<QueryBuildState>, rs: Seq<FmtResult>|
            #![trigger join_shape(ms, sts, rs)]
        {
            &&& join_results((items@.len() - i) as nat, rs, r)
            &&& join_shape(ms, sts, rs)
            &&& sts[0] == a
            &&& sts[rs.len() as int] == d
            &&& forall|j: int|
                0 <= j < rs.len() ==> *(#[trigger] ms[j]) == sts[j] && *final(ms[j]) == sts[j
                    + 1] && join_call(*callback, *separator, rest, j, ms[j], rs[j])
        }) by {
        let ms = seq![mc, msep] + ms2;
        let sts = seq![a, b] + sts2;
        let rs = seq![rc, rs_sep] + rs2;
        assert forall|j: int| 0 <= j < rs.len() implies *(#[trigger] ms[j]) == sts[j]
            && *final(ms[j]) == sts[j + 1] && join_call(*callback, *separator, rest, j, ms[j], rs[j])
            by {
            if j >= 2 {
                assert(ms[j] == ms2[j - 2]);
                assert(rs[j] == rs2[j - 2]);
                assert(sts[j] == sts2[j - 2]);
                assert(sts[j + 1] == sts2[j - 1]);
                assert((j - 2) % 2 == j % 2);
                assert((j - 2) / 2 + 1 == j / 2);
                assert(rest2[(j - 2) / 2] == rest[j / 2]);
            } else if j == 1 {
                assert(ms[1] == msep);
            } else {
                assert(ms[0] == mc);
            }
        }
        assert forall|k: int| 0 <= k < rs.len() - 1 implies (#[trigger] rs[k]) is Ok by {
            if k >= 2 {
                assert(rs[k] == rs2[k - 2]);
            }
        }
        if rs2.len() > 0 {
            assert(rs.last() == rs2.last());
        }
        assert(join_results((items@.len() - i) as nat, rs, r));
        assert(join_shape(ms, sts, rs));
        assert(sts[0] == a);
        assert(sts[rs.len() as int] == sts2[rs2.len() as int]);
    }
    r
}

/// The parts of each item of `items`.
pub open spec fn parts_of_items<T: ToSql>(items: Seq<T>) -> Seq<Seq<SqlPart>> {
    items.map_values(|t: T| t.sql_parts())
}

impl QueryBuildState {
    /// Appends the tokens of every item of `items`, with one `separator`
    /// token between neighbours.
    pub fn join_with<T: ToSql>(&mut self, items: &[T], separator: &str) -> (r: FmtResult)
        requires
            forall|i: int| 0 <= i < items@.len() ==> (#[trigger] items@[i]).sql_ready(),
        ensures
            final(self)@ == old(self)@ + render(join_parts(parts_of_items(items@), separator@)),
            r is Ok,
    {
        let n = items.len();
        let mut i: usize = 0;
        while i < n
            invariant
                n == items@.len(),
                0 <= i <= n,
                forall|j: int| 0 <= j < items@.len() ==> (#[trigger] items@[j]).sql_ready(),
                self@ == old(self)@ + render(
                    join_parts(parts_of_items(items@).take(i as int), separator@),
                ),
            decreases n - i,
        {
            let ghost before = self@;
            if i != 0 {
                self.write_str(separator)?;
            }
            items[i].to_sql(self)?;
            proof {
                let ps = parts_of_items(items@);
                assert(ps.take(i + 1).drop_last() =~= ps.take(i as int));
                assert(ps.take(i + 1).last() == items@[i as int].sql_parts());
                let prev = join_parts(ps.take(i as int), separator@);
                if i == 0 {
                    assert(join_parts(ps.take(1), separator@) == items@[0].sql_parts());
                } else {
                    lemma_render_add(prev, text(separator@));
                    lemma_render_add(prev + text(separator@), items@[i as int].sql_parts());
                    assert(render(text(separator@)) =~= seq![separator@]);
                }
                assert(self@ =~= old(self)@ + render(join_parts(ps.take(i + 1), separator@)));
            }
            i = i + 1;
        }
        assert(parts_of_items(items@).take(n as int) =~= parts_of_items(items@));
        Ok(())
    }

    /// Renders every item of `items` in order, and calls `separator`
    /// between neighbours: `join_by` with a callback that renders the
    /// item. Rendering never fails; the join stops at the first failing
    /// separator and returns its error.
    pub fn join<T: ToSql, S>(&mut self, items: &[T], separator: S) -> (r: FmtResult) where
        S: Fn(&mut QueryBuildState) -> FmtResult,

        requires
            forall|k: int| 0 <= k < items@.len() ==> (#[trigger] items@[k]).sql_ready(),
            forall|x: &mut QueryBuildState| separator.requires((x,)),
        ensures
            exists|ms: Seq<&mut QueryBuildState>, sts: Seq<QueryBuildState>, rs: Seq<FmtResult>|
                #![trigger join_shape(ms, sts, rs)]
                {
                    &&& join_results(items@.len(), rs, r)
                    &&& join_shape(ms, sts, rs)
                    &&& sts[0] == *old(self)
                    &&& sts[rs.len() as int] == *final(self)
                    &&& forall|j: int|
                        0 <= j < rs.len() ==> *(#[trigger] ms[j]) == sts[j] && *final(ms[j])
                            == sts[j + 1] && if j % 2 == 0 {
                            sts[j + 1]@ == sts[j]@ + render(items@[j / 2].sql_parts()) && rs[j] is Ok
                        } else {
                            call_ensures(separator, (ms[j],), rs[j])
                        }
                },
    {
        let render_item = |s: &mut QueryBuildState, item: &T| -> (rr: FmtResult)
            requires
                item.sql_ready(),
            ensures
                final(s)@ == old(s)@ + render(item.sql_parts()),
                rr is Ok,
            { item.to_sql(s) };
        let r = self.join_by(items, render_item, separator);
        let ghost (ms, sts, rs) = choose|
            ms: Seq<&mut QueryBuildState>,
            sts: Seq<QueryBuildState>,
            rs: Seq<FmtResult>,
        |
            #![trigger join_shape(ms, sts, rs)]
            {
                &&& join_results(items@.len(), rs, r)
                &&& join_shape(ms, sts, rs)
                &&& sts[0] == *old(self)
                &&& sts[rs.len() as int] == *self
                &&& forall|j: int|
                    0 <= j < rs.len() ==> *(#[trigger] ms[j]) == sts[j] && *final(ms[j]) == sts[j
                        + 1] && join_call(render_item, separator, items@, j, ms[j], rs[j])
            };
        assert forall|j: int| 0 <= j < rs.len() implies *(#[trigger] ms[j]) == sts[j]
            && *final(ms[j]) == sts[j + 1] && if j % 2 == 0 {
            sts[j + 1]@ == sts[j]@ + render(items@[j / 2].sql_parts()) && rs[j] is Ok
        } else {
            call_ensures(separator, (ms[j],), rs[j])
        } by {
            assert(join_call(render_item, separator, items@, j, ms[j], rs[j]));
        }
        r
    }

    /// Calls `callback` on every item of `items` in order, and
    /// `separator` between neighbours; stops at the first call that
    /// fails and returns its error.
    ///
    /// The contract records the calls made: `rs` their results, `ms`
    /// the state each one received, `sts` the states in between.
    pub fn join_by<T, C, S>(&mut self, items: &[T], callback: C, separator: S) -> (r: FmtResult) where
        C: Fn(&mut QueryBuildState, &T) -> FmtResult,
        S: Fn(&mut QueryBuildState) -> FmtResult,

        requires
            forall|x: &mut QueryBuildState, k: int|
            0 <= k < items@.len() ==> callback.requires((x, &items@[k])),
            forall|x: &mut QueryBuildState| separator.requires((x,)),
        ensures
            exists|ms: Seq<&mut QueryBuildState>, sts: Seq<QueryBuildState>, rs: Seq<FmtResult>|
            #![trigger join_shape(ms, sts, rs)]
                {
                    &&& join_results(items@.len(), rs, r)
                    &&& join_shape(ms, sts, rs)
                    &&& sts[0] == *old(self)
                    &&& sts[rs.len() as int] == *final(self)
                    &&& forall|j: int|
                        0 <= j < rs.len() ==> *(#[trigger] ms[j]) == sts[j] && *final(ms[j])
                            == sts[j + 1] && join_call(callback, separator, items@, j, ms[j], rs[j])
                },
    {
        if items.len() == 0 {
            let ghost ms: Seq<&mut QueryBuildState> = Seq::empty();
            let ghost sts: Seq<QueryBuildState> = seq![*self];
            let ghost rs: Seq<FmtResult> = Seq::empty();
            assert(join_results(items@.len(), rs, Ok(())));
            assert(sts[0] == *self && sts[rs.len() as int] == *self);
            assert(join_shape(ms, sts, rs));
            return Ok(());
        }
        let r = join_from(self, items, 0, &callback, &separator);
        assert(items@.subrange(0, items@.len() as int) =~= items@);
        r
    }

    /// Appends every string of `items` as one token, with one `separator`
    /// token between neighbours.
    pub fn join_strings_with(&mut self, items: &[String], separator: &str) -> (r: FmtResult)
        ensures
            final(self)@ == old(self)@ + render(
                join_parts(items@.map_values(|s: String| text(s@)), separator@),
            ),
            r is Ok,
    {
        let ghost ps = items@.map_values(|s: String| text(s@));
        let n = items.len();
        let mut i: usize = 0;
        while i < n
            invariant
                n == items@.len(),
                0 <= i <= n,
                ps == items@.map_values(|s: String| text(s@)),
                self@ == old(self)@ + render(join_parts(ps.take(i as int), separator@)),
            decreases n - i,
        {
            if i != 0 {
                self.write_str(separator)?;
            }
            self.write_str(items[i].as_str())?;
            proof {
                assert(ps.take(i + 1).drop_last() =~= ps.take(i as int));
                assert(ps.take(i + 1).last() == text(items@[i as int]@));
                let prev = join_parts(ps.take(i as int), separator@);
                assert(render(text(items@[i as int]@)) =~= seq![items@[i as int]@]);
                if i == 0 {
                    assert(join_parts(ps.take(1), separator@) == text(items@[0]@));
                } else {
                    lemma_render_add(prev, text(separator@));
                    lemma_render_add(prev + text(separator@), text(items@[i as int]@));
                    assert(render(text(separator@)) =~= seq![separator@]);
                }
                assert(self@ =~= old(self)@ + render(join_parts(ps.take(i + 1), separator@)));
            }
            i = i + 1;
        }
        assert(ps.take(n as int) =~= ps);
        Ok(())
    }
}

} // verus!
