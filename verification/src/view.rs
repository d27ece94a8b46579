use vstd::prelude::*;

use core::marker::PhantomData;

use crate::expr::{copy_exprs, exprs_equiv, Expr};
use crate::select::{Order, OrderByItem};
use crate::tag::TagList;

verus! {

/// Hands out sort keys for the views of a query.
pub struct SortHelper(PhantomData<u16>);

/// The expressions of a view sorted in one direction.
pub struct SortResultItem {
    exprs: Vec<Expr>,
    order: Order,
}

/// The comparisons of a value with the rows of a subquery.
#[derive(Clone, Copy, Debug, Eq, PartialEq, Structural)]
pub enum Comparator {
    Eq,
    Neq,
    Lt,
    Lte,
    Gt,
    Gte,
}

/// The view of the empty tuple, with its tags.
pub struct UnitView<Tags: TagList>(PhantomData<Tags>);

impl SortResultItem {
    /// The sorted expressions.
    pub closed spec fn spec_exprs(self) -> Seq<Expr> {
        self.exprs@
    }

    /// The direction.
    pub closed spec fn spec_order(self) -> Order {
        self.order
    }

    /// One sort key per expression, in order, each in the direction of
    /// this item.
    pub fn order_by_items(self) -> (r: Vec<OrderByItem>)
        ensures
            r@.len() == self.spec_exprs().len(),
            forall|i: int|
                0 <= i < r@.len() ==> (#[trigger] r@[i]).expr == self.spec_exprs()[i]
                    && r@[i].order == self.spec_order(),
    {
        let ghost all = self.exprs@;
        let order = self.order;
        let mut rest = self.exprs;
        let mut out: Vec<OrderByItem> = Vec::new();
        let total: usize = rest.len();
        let mut k: usize = 0;
        while rest.len() > 0
            invariant
                0 <= k <= all.len(),
                all.len() == k + rest@.len(),
                all.len() == total,
                rest@ == all.skip(k as int),
                out@.len() == k,
                forall|i: int|
                    0 <= i < k ==> (#[trigger] out@[i]).expr == all[i] && out@[i].order == order,
            decreases rest.len(),
        {
            let e = rest.remove(0);
            assert(e == all[k as int]);
            out.push(OrderByItem { expr: e, order });
            assert(rest@ =~= all.skip(k + 1));
            k = k + 1;
        }
        out
    }
}

impl SortHelper {
    /// A helper.
    pub fn create() -> (r: Self) {
        SortHelper(PhantomData)
    }

    /// The expressions of a view sorted ascending.
    pub fn asc(&self, exprs: Vec<Expr>) -> (r: SortResultItem)
        ensures
            r.spec_exprs() == exprs@,
            r.spec_order() == Order::Asc,
    {
        SortResultItem { exprs, order: Order::Asc }
    }

    /// The expressions of a view sorted descending.
    pub fn desc(&self, exprs: Vec<Expr>) -> (r: SortResultItem)
        ensures
            r.spec_exprs() == exprs@,
            r.spec_order() == Order::Desc,
    {
        SortResultItem { exprs, order: Order::Desc }
    }
}


/// A combination of views that can be taken apart into `Unwrapped`.
/// Implementations are written for the view types; nothing is assumed
/// of them here.
pub trait ViewCombinator<Unwrapped> {
    fn unwrap(self) -> Unwrapped;
}

/// Whether `keys` are the sort keys of `s`: one per expression, in
/// order, each in the direction of `s`.
pub open spec fn sort_keys_of(s: SortResultItem, keys: Seq<OrderByItem>) -> bool {
    &&& keys.len() == s.spec_exprs().len()
    &&& forall|i: int|
        0 <= i < keys.len() ==> (#[trigger] keys[i]).expr == s.spec_exprs()[i] && keys[i].order
            == s.spec_order()
}

/// The view of a column of rows: the expressions of one row, and the
/// sort keys of the rows.
pub struct VerticalExprView {
    exprs: Vec<Expr>,
    order_by: Vec<OrderByItem>,
}

impl VerticalExprView {
    /// The expressions of a row.
    pub closed spec fn spec_exprs(self) -> Vec<Expr> {
        self.exprs
    }

    /// The sort keys of the rows.
    pub closed spec fn spec_order_by(self) -> Seq<OrderByItem> {
        self.order_by@
    }

    /// A view of rows of `exprs` sorted by `order_by`.
    pub fn create(exprs: Vec<Expr>, order_by: Vec<OrderByItem>) -> (r: Self)
        ensures
            r.spec_exprs() == exprs,
            r.spec_order_by() == order_by@,
    {
        VerticalExprView { exprs, order_by }
    }

    /// The expressions of a row.
    pub fn exprs(&self) -> (r: &Vec<Expr>)
        ensures
            *r == self.spec_exprs(),
    {
        &self.exprs
    }

    /// The sort keys of the rows.
    pub fn order_by(&self) -> (r: &Vec<OrderByItem>)
        ensures
            r@ == self.spec_order_by(),
    {
        &self.order_by
    }

    /// The rows mapped by `f`, which makes the expressions of a row from
    /// those of this one; the sort keys stay.
    pub fn map<F: Fn(Vec<Expr>) -> Vec<Expr>>(self, f: F) -> (r: Self)
        requires
            forall|e: Vec<Expr>| f.requires((e,)),
        ensures
            f.ensures((self.spec_exprs(),), r.spec_exprs()),
            r.spec_order_by() == self.spec_order_by(),
    {
        VerticalExprView { exprs: f(self.exprs), order_by: self.order_by }
    }

    /// The rows sorted by the keys that `f` picks from a copy of the
    /// expressions of a row: the keys replace the earlier ones, the
    /// expressions stay.
    pub fn sort<F: Fn(Vec<Expr>, SortHelper) -> SortResultItem>(self, f: F) -> (r: Self)
        requires
            forall|e: Vec<Expr>, h: SortHelper| f.requires((e, h)),
        ensures
            r.spec_exprs() == self.spec_exprs(),
            exists|c: Vec<Expr>, h: SortHelper, s: SortResultItem|
                exprs_equiv(self.spec_exprs()@, c@) && f.ensures((c, h), s) && sort_keys_of(
                    s,
                    r.spec_order_by(),
                ),
    {
        let c = copy_exprs(&self.exprs);
        let h = SortHelper::create();
        let ghost cg = c;
        let ghost hg = h;
        let s = f(c, h);
        let ghost sg = s;
        let order_by = s.order_by_items();
        let r = VerticalExprView { exprs: self.exprs, order_by };
        assert(sort_keys_of(sg, r.spec_order_by()));
        assert(exprs_equiv(self.spec_exprs()@, cg@) && f.ensures((cg, hg), sg) && sort_keys_of(
            sg,
            r.spec_order_by(),
        ));
        r
    }
}

} // verus!
