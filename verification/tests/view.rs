use yukino::expr::Expr;
use yukino::ident::Alias;
use yukino::select::Order;
use yukino::tag::{
    AggregateViewTag, AssertBit, ConcreteList, EmptyTagList, EntityViewTag, False, InList,
    NotInList, OffsetOfTag, OrdViewTag, Tag, TagList, TagList1, TagList2, TagList3,
};
use yukino::select::OrderByItem;
use yukino::view::{SortHelper, VerticalExprView};
use yukino::view_resolver::{
    LocatedViewResolveError, PatIdentModel, PatModel, ViewResolveError, ViewResolver,
};

type A = TagList3<OrdViewTag, EntityViewTag, AggregateViewTag>;
type B = TagList2<OrdViewTag, EntityViewTag>;
type R = TagList1<OrdViewTag>;
type C = ConcreteList<A, B>;

fn assert_in_list<T: Tag + InList<List>, List: TagList>() {}

fn assert_not_in_list<
    T: Tag + NotInList<List>,
    List: TagList + AssertBit<OffsetOfTag<T>, False>,
>() {
}

#[test]
fn test() {
    let _a: R = C::default();
    assert_in_list::<EntityViewTag, A>();
    assert_not_in_list::<EntityViewTag, R>();
    assert_not_in_list::<EntityViewTag, EmptyTagList>();
}

fn name(n: &str) -> PatModel {
    PatModel::Ident(PatIdentModel { name: n.to_string(), by_ref: false, mutable: false, subpat: false })
}

fn pair(a: PatModel, b: PatModel) -> PatModel {
    PatModel::Tuple(vec![a, b])
}

#[test]
fn test_unwrap_preview() {
    let pat1 = PatModel::Wild;
    assert!(ViewResolver::unwrap_pre_view(&pat1).unwrap().idents.is_empty());

    let pat2 = name("v");
    assert_eq!(ViewResolver::unwrap_pre_view(&pat2).unwrap().idents, vec!["v".to_string()]);

    let pat2 = pair(pair(name("a"), PatModel::Wild), pair(pair(name("b"), name("c")), name("d")));
    assert_eq!(
        ViewResolver::unwrap_pre_view(&pat2).unwrap().idents,
        vec!["a".to_string(), "b".to_string(), "c".to_string(), "d".to_string()]
    );
}

#[test]
fn unwrapping_a_tuple_gives_paths() {
    let pat = pair(pair(name("a"), PatModel::Wild), pair(pair(name("b"), name("c")), name("d")));
    let view = ViewResolver::unwrap_pre_view(&pat).unwrap();
    assert_eq!(view.input, Some("__v".to_string()));
    let paths: Vec<(String, Vec<usize>)> =
        view.unwrap.into_iter().map(|u| (u.ident, u.path)).collect();
    assert_eq!(
        paths,
        vec![
            ("a".to_string(), vec![0, 0]),
            ("b".to_string(), vec![1, 0, 0]),
            ("c".to_string(), vec![1, 0, 1]),
            ("d".to_string(), vec![1, 1]),
        ]
    );
    let single = ViewResolver::unwrap_pre_view(&name("v")).unwrap();
    assert_eq!(single.input, Some("v".to_string()));
    assert!(single.unwrap.is_empty());
    assert_eq!(ViewResolver::unwrap_pre_view(&PatModel::Wild).unwrap().input, None);
}

fn refused(error: ViewResolveError, at: &[usize]) -> LocatedViewResolveError {
    LocatedViewResolveError { error, at: at.to_vec() }
}

#[test]
fn unwrapping_refuses_bad_patterns() {
    let mutable = PatModel::Ident(PatIdentModel {
        name: "x".to_string(),
        by_ref: false,
        mutable: true,
        subpat: false,
    });
    assert_eq!(ViewResolver::unwrap_pre_view(&mutable).unwrap_err(), refused(ViewResolveError::MutableIsInvalid, &[]));
    let by_ref = PatIdentModel { name: "x".to_string(), by_ref: true, mutable: true, subpat: true };
    assert_eq!(ViewResolver::unwrap_ident(&by_ref).unwrap_err(), ViewResolveError::RefIsInvalid);
    let sub = PatIdentModel { name: "x".to_string(), by_ref: false, mutable: true, subpat: true };
    assert_eq!(ViewResolver::unwrap_ident(&sub).unwrap_err(), ViewResolveError::SubPatternIsInvalid);
    let triple = PatModel::Tuple(vec![name("a"), name("b"), name("c")]);
    assert_eq!(
        ViewResolver::unwrap_pre_view(&triple).unwrap_err(),
        refused(ViewResolveError::NotTwoElementsTuple, &[])
    );
    let nested = pair(name("a"), pair(PatModel::Other, name("b")));
    assert_eq!(
        ViewResolver::unwrap_pre_view(&nested).unwrap_err(),
        refused(ViewResolveError::CannotUnwrap, &[1, 0])
    );
    let inner_triple = pair(name("a"), pair(name("b"), PatModel::Tuple(vec![name("c")])));
    assert_eq!(
        ViewResolver::unwrap_pre_view(&inner_triple).unwrap_err(),
        refused(ViewResolveError::NotTwoElementsTuple, &[1, 1])
    );
    assert_eq!(ViewResolver::unwrap_pre_view(&PatModel::Other).unwrap_err(), refused(ViewResolveError::CannotUnwrap, &[]));
}

#[test]
fn closure_parameters() {
    let (first, view) = ViewResolver::resolve_params(&vec![name("x"), pair(name("a"), name("b"))]).unwrap();
    assert_eq!(first, "x");
    assert_eq!(view.idents, vec!["a".to_string(), "b".to_string()]);
    assert_eq!(
        ViewResolver::resolve_params(&vec![name("x")]).unwrap_err(),
        refused(ViewResolveError::UnexpectedCalculationParamCount(1), &[])
    );
    assert_eq!(
        ViewResolver::resolve_params(&vec![PatModel::Wild, name("y")]).unwrap_err(),
        refused(ViewResolveError::UnexpectedParamPatternType("ident".to_string()), &[0])
    );
    assert_eq!(
        ViewResolver::resolve_params(&vec![name("x"), pair(name("a"), PatModel::Other)]).unwrap_err(),
        refused(ViewResolveError::CannotUnwrap, &[1, 1])
    );
}

#[test]
fn sort_helper_orders_every_expression() {
    let helper = SortHelper::create();
    let a = Alias { name: "t".to_string() };
    let exprs = vec![Expr::Ident(a.create_ident("x")), Expr::Ident(a.create_ident("y"))];
    let items = helper.desc(exprs).order_by_items();
    assert_eq!(items.len(), 2);
    assert!(items.iter().all(|i| i.order == Order::Desc));
    let items = helper.asc(vec![Expr::Ident(a.create_ident("z"))]).order_by_items();
    assert_eq!(items.len(), 1);
    assert_eq!(items[0].order, Order::Asc);
}

#[test]
fn vertical_sort_replaces_the_ordering() {
    let a = Alias { name: "t".to_string() };
    let old_key = OrderByItem { expr: Expr::Ident(a.create_ident("z")), order: Order::Asc };
    let view = VerticalExprView::create(
        vec![Expr::Ident(a.create_ident("x")), Expr::Ident(a.create_ident("y"))],
        vec![old_key],
    );
    let sorted = view.sort(|exprs, helper| helper.desc(vec![exprs[1].clone()]));
    assert_eq!(sorted.exprs().len(), 2);
    assert_eq!(sorted.order_by().len(), 1);
    assert_eq!(sorted.order_by()[0].order, Order::Desc);
    assert_eq!(format!("{:?}", sorted.order_by()[0].expr), format!("{:?}", Expr::Ident(a.create_ident("y"))));
    let mapped = sorted.map(|exprs| exprs.into_iter().take(1).collect());
    assert_eq!(mapped.exprs().len(), 1);
    assert_eq!(mapped.order_by().len(), 1);
}
