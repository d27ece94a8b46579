use yukino::delete::Delete;
use yukino::error::ExecuteError;
use yukino::expr::{
    AggregateFunction, AggregateFunctionCall, Expr, Function, FunctionCall,
    GroupConcatFunctionCall, NormalAggregateFunctionCall, SubqueryFunction,
    SubqueryFunctionCall,
};
use yukino::ident::{Alias, AliasedTable, Ident};
use yukino::insert::{ArgSource, ArgSourceList, Insert};
use yukino::select::{
    IntoSelectSource, Join, JoinType, Order, OrderByItem, Select, SelectItem, SelectQuery,
};
use yukino::state::{BindArgs, QueryBuildState, ToSql};
use yukino::update::{AssignmentValue, Update, UpdateQuery};
use yukino::value::{DatabaseType, DatabaseValue, DateTimeValue, DateValue, DecimalValue, TimeValue};

fn alias(name: &str) -> Alias {
    Alias { name: name.to_string() }
}

fn column(a: &str, c: &str) -> Expr {
    Expr::Ident(alias(a).create_ident(c))
}

fn lit(v: i64) -> Expr {
    Expr::Lit(DatabaseValue::BigInteger(v))
}

fn render<T: ToSql>(item: &T) -> String {
    let mut state = QueryBuildState::new();
    item.to_sql(&mut state).unwrap();
    state.to_string()
}

fn bound<T: BindArgs>(item: T) -> Vec<String> {
    let mut args = Vec::new();
    item.bind_args(&mut args);
    args.iter().map(|v| v.to_display_string()).collect()
}

fn meeting_query() -> SelectQuery {
    let mut from = Select::from("meeting".to_string(), alias("m"));
    from.and_where(Expr::Eq(Box::new(column("m", "id")), Box::new(lit(7))));
    let mut q = from.select(vec![SelectItem {
        expr: Expr::Sub(Box::new(column("m", "end_time")), Box::new(column("m", "start_time"))),
        alias: None,
    }]);
    q.limit(1);
    q
}

#[test]
fn select_query_renders_tokens() {
    assert_eq!(
        render(&meeting_query()),
        "SELECT ( m.end_time - m.start_time ) FROM meeting AS m WHERE ( m.id = ? ) LIMIT  1"
    );
}

#[test]
fn select_query_binds_in_placeholder_order() {
    let mut from = Select::from("t".to_string(), alias("t"));
    from.add_joins(vec![Join {
        ty: JoinType::LeftJoin,
        table: AliasedTable { table: "u".to_string(), alias: alias("u") },
        on: Expr::Eq(Box::new(column("u", "x")), Box::new(lit(1))),
    }]);
    from.and_where(Expr::Bt(Box::new(column("t", "y")), Box::new(lit(2))));
    let mut q = from.select(vec![SelectItem { expr: lit(0), alias: Some("zero".to_string()) }]);
    q.append_order_by(vec![OrderByItem { expr: lit(3), order: Order::Desc }]);
    q.offset(5);
    assert_eq!(
        render(&q),
        "SELECT ? AS  zero FROM t AS t LEFT JOIN u AS u ON ( u.x = ? ) WHERE ( t.y > ? ) ORDER BY ? DESC OFFSET  5"
    );
    assert_eq!(bound(q), vec!["0", "1", "2", "3"]);
}

#[test]
fn group_by_renders_having_only_with_keys() {
    let from = Select::from("t".to_string(), alias("t"));
    let mut g = from.group_by(vec![column("t", "a"), column("t", "b")]);
    g.having(vec![Expr::Lt(Box::new(column("t", "a")), Box::new(lit(9)))]);
    let q = g.select(vec![SelectItem { expr: column("t", "a"), alias: None }]);
    assert_eq!(
        render(&q),
        "SELECT t.a FROM t AS t GROUP BY t.a , t.b HAVING ( t.a < ? )"
    );
    assert_eq!(bound(q), vec!["9"]);
}

#[test]
fn group_without_keys_leaves_having_out_but_binds_it() {
    let from = Select::from("t".to_string(), alias("t"));
    let mut g = from.group_by(vec![]);
    g.having(vec![Expr::Lt(Box::new(column("t", "a")), Box::new(lit(9)))]);
    let q = g.select(vec![]);
    assert_eq!(render(&q), "SELECT FROM t AS t");
    assert_eq!(bound(q), vec!["9"]);
}

#[test]
fn into_select_source_builders() {
    let q = Select::from("t".to_string(), alias("t")).limit(3);
    assert_eq!(render(&q), "SELECT FROM t AS t LIMIT  3");
    let q = Select::from("t".to_string(), alias("t")).offset(4);
    assert_eq!(render(&q), "SELECT FROM t AS t OFFSET  4");
    let q = Select::from("t".to_string(), alias("t"))
        .order_by(vec![OrderByItem { expr: column("t", "a"), order: Order::Asc }]);
    assert_eq!(render(&q), "SELECT FROM t AS t ORDER BY t.a ASC");
    let q = SelectQuery::create(
        Select::from("t".to_string(), alias("t")).source(),
        vec![],
        vec![],
        None,
        0,
    );
    assert_eq!(render(&q), "SELECT FROM t AS t");
}

#[test]
fn append_select_keeps_earlier_items() {
    let mut q = Select::from("t".to_string(), alias("t")).select(vec![SelectItem { expr: column("t", "a"), alias: None }]);
    q.append_select(vec![SelectItem { expr: lit(1), alias: None }]);
    assert_eq!(render(&q), "SELECT t.a , ? FROM t AS t");
    assert_eq!(bound(q), vec!["1"]);
}

#[test]
fn readiness_refuses_plain_sum() {
    let sum = Expr::FunctionCall(Box::new(FunctionCall::Aggregate(AggregateFunctionCall::Normal(
        NormalAggregateFunctionCall { function: AggregateFunction::Sum, param: lit(1) },
    ))));
    assert!(!sum.is_sql_ready());
    let q = Select::from("t".to_string(), alias("t")).select(vec![SelectItem { expr: sum, alias: None }]);
    assert!(!q.is_sql_ready());
    assert!(meeting_query().is_sql_ready());
}

#[test]
fn expressions_render_with_parentheses() {
    let e = Expr::Not(Box::new(Expr::And(
        Box::new(Expr::BitInverse(Box::new(column("a", "b")))),
        Box::new(Expr::InArr(Box::new(lit(1)), vec![DatabaseValue::Bool(true), DatabaseValue::Null(DatabaseType::Json)])),
    )));
    assert_eq!(render(&e), "( Not ( ( ~ a.b ) AND ( ? IN ( ? , ? ) ) ) )");
    assert_eq!(bound(e), vec!["1", "true", "NULL"]);
}

#[test]
fn subqueries_render_inside_parentheses() {
    let inner = meeting_query();
    let e = Expr::Exists(inner);
    assert_eq!(
        render(&e),
        "( EXISTS ( SELECT ( m.end_time - m.start_time ) FROM meeting AS m WHERE ( m.id = ? ) LIMIT  1 ) )"
    );
    let call = FunctionCall::Subquery(SubqueryFunctionCall {
        function: SubqueryFunction::All,
        subquery: meeting_query(),
    });
    assert!(render(&call).starts_with("ALL ( SELECT"));
    assert_eq!(bound(call), vec!["7"]);
}

#[test]
fn aggregate_calls_render_mysql_names() {
    let count = NormalAggregateFunctionCall {
        function: AggregateFunction::CountDistinct,
        param: column("t", "a"),
    };
    assert_eq!(render(&count), "COUNT ( DISTINCT t.a )");
    let max = NormalAggregateFunctionCall { function: AggregateFunction::Max, param: lit(1) };
    assert_eq!(render(&max), "Max ( ? )");
    let concat = GroupConcatFunctionCall {
        expr: column("t", "a"),
        order_by: vec![
            OrderByItem { expr: column("t", "b"), order: Order::Asc },
            OrderByItem { expr: column("t", "c"), order: Order::Desc },
        ],
        separator: Some("|".to_string()),
    };
    assert_eq!(
        render(&concat),
        "GROUP_CONCAT( t.a ORDER BY t.b ASC , t.c DESC SEPARATOR  | )"
    );
    let call = AggregateFunctionCall::GroupConcat(concat);
    assert_eq!(render(&call), "GROUP_CONCAT( t.a ORDER BY t.b ASC , t.c DESC SEPARATOR  | )");
}

#[test]
fn display_texts() {
    let q = meeting_query();
    assert_eq!(
        q.to_display_string(),
        "SELECT m.end_time - m.start_time FROM meeting AS m  WHERE m.id == 7  LIMIT 1 OFFSET 0"
    );
    let e = Expr::InArr(Box::new(column("a", "b")), vec![DatabaseValue::String("x".to_string()), DatabaseValue::Integer(-3)]);
    assert_eq!(e.to_display_string(), "a.b IN (\"x\", -3)");
    let sum = NormalAggregateFunctionCall { function: AggregateFunction::Sum, param: lit(2) };
    assert_eq!(sum.to_display_string(), "Sum(2)");
    let concat = GroupConcatFunctionCall {
        expr: column("t", "a"),
        order_by: vec![OrderByItem { expr: column("t", "b"), order: Order::Asc }],
        separator: Some(";".to_string()),
    };
    assert_eq!(concat.to_display_string(), "GROUP_CONCAT(t.a ORDER BY t.b ASC SEPARATOR ';')");
    assert_eq!(AggregateFunction::CountDistinct.to_display_string(), "CountDistinct");
    assert_eq!(Function::Subquery(SubqueryFunction::Any).to_display_string(), "Subquery(Any)");
    assert_eq!(JoinType::RightJoin.to_display_string(), "RIGHT JOIN");
    assert_eq!(Order::Desc.to_display_string(), "DESC");
    let item = SelectItem { expr: column("t", "a"), alias: Some("x".to_string()) };
    assert_eq!(item.to_display_string(), "t.aAS x");
}

#[test]
fn group_select_display_has_having_with_keys() {
    let from = Select::from("t".to_string(), alias("t"));
    let g = from.group_by(vec![column("t", "a")]);
    assert_eq!(g.to_display_string(), "FROM t AS t   GROUP BY t.a HAVING ");
}

#[test]
fn update_query_renders_and_binds_conditions() {
    let mut q = Update::from("user".to_string(), alias("u"));
    q.set("name".to_string(), AssignmentValue::Expr(Box::new(lit(1))))
        .set("age".to_string(), AssignmentValue::Default)
        .and_where(Expr::Eq(Box::new(column("u", "id")), Box::new(lit(2))))
        .append_order_by(vec![OrderByItem { expr: column("u", "id"), order: Order::Asc }])
        .limit(10);
    assert_eq!(q.root_alias().name, "u");
    assert_eq!(
        render(&q),
        "UPDATE user AS u SET `name` = ? , `age` = DEFAULT WHERE ( u.id = ? ) ORDER BY u.id ASC LIMIT  10"
    );
    assert_eq!(q.to_display_string(), render(&q));
    assert_eq!(bound(q), vec!["2"]);
}

#[test]
fn update_and_delete_from_select_keep_conditions() {
    let mut from = Select::from("t".to_string(), alias("t"));
    from.and_where(Expr::Eq(Box::new(column("t", "id")), Box::new(lit(4))));
    from.add_joins(vec![Join {
        ty: JoinType::InnerJoin,
        table: AliasedTable { table: "u".to_string(), alias: alias("u") },
        on: column("u", "x"),
    }]);
    let update: UpdateQuery = UpdateQuery::from_select(from.clone());
    assert_eq!(render(&update), "UPDATE t AS t SET WHERE ( t.id = ? )");
    let delete = yukino::delete::DeleteQuery::from_select(from);
    assert_eq!(render(&delete), "DELETE FROM  t  AS t WHERE ( t.id = ? )");
}

#[test]
fn delete_query_renders() {
    let mut q = Delete::from("user".to_string(), alias("u"));
    q.and_where(Expr::Lt(Box::new(column("u", "age")), Box::new(lit(3))));
    q.append_order_by(vec![OrderByItem { expr: column("u", "age"), order: Order::Desc }]);
    q.limit(2);
    assert_eq!(q.root_alias().name, "u");
    assert_eq!(
        render(&q),
        "DELETE FROM  user  AS u WHERE ( u.age < ? ) ORDER BY u.age DESC LIMIT  2"
    );
}

type Row = (DatabaseValue, DatabaseValue);

fn row(id: i32, name: &str) -> Row {
    (DatabaseValue::Integer(id), DatabaseValue::String(name.to_string()))
}

#[test]
fn insert_query_renders_rows_of_placeholders() {
    let rows = vec![row(1, "a"), row(2, "b")];
    assert_eq!(rows.query_part(), "(?,?),(?,?)");
    let q = Insert::into("user".to_string(), vec!["id".to_string(), "name".to_string()], rows);
    assert_eq!(render(&q), "INSERT INTO  user  ( id , name ) VALUES  (?,?),(?,?)  ;");
    assert_eq!(q.to_display_string(), render(&q));
    assert_eq!(bound(q), vec!["1", "\"a\"", "2", "\"b\""]);
}

#[test]
fn insert_of_no_rows_has_empty_values() {
    let rows: Vec<Row> = vec![];
    assert_eq!(rows.query_part(), "");
}

#[test]
fn row_widths_add_up() {
    assert_eq!(<DatabaseValue as ArgSource>::insert_value_count(), 1);
    assert_eq!(<Row as ArgSource>::insert_value_count(), 2);
    assert_eq!(<(Row, DatabaseValue) as ArgSource>::insert_value_count(), 3);
}

#[test]
fn insert_of_single_values_binds_one_per_row() {
    let rows = vec![DatabaseValue::BigInteger(5), DatabaseValue::Bool(true)];
    assert_eq!(rows.query_part(), "(?),(?)");
    let q = Insert::into("flag".to_string(), vec!["v".to_string()], rows);
    assert_eq!(render(&q), "INSERT INTO  flag  ( v ) VALUES  (?),(?)  ;");
    assert_eq!(bound(q), vec!["5", "true"]);
}

#[test]
fn insert_of_nested_rows_binds_columns_in_order() {
    let rows = vec![(row(1, "a"), DatabaseValue::Bool(false))];
    assert_eq!(rows.query_part(), "(?,?,?)");
    let q = Insert::into(
        "user".to_string(),
        vec!["id".to_string(), "name".to_string(), "admin".to_string()],
        rows,
    );
    assert_eq!(bound(q), vec!["1", "\"a\"", "false"]);
}

#[test]
fn identifiers() {
    let a = alias("m");
    let mut i = a.create_ident("id");
    assert_eq!(i.seg, vec!["m".to_string(), "id".to_string()]);
    i.append_str("x");
    i.extend(Ident { seg: vec!["y".to_string()] });
    assert_eq!(i.to_display_string(), "m.id.x.y");
    assert_eq!(a.single_seg_ident().seg, vec!["m".to_string()]);
    let t = AliasedTable { table: "meeting".to_string(), alias: a };
    assert_eq!(t.to_display_string(), "meeting AS m");
}

#[test]
fn join_by_and_join_separate_items() {
    let mut state = QueryBuildState::new();
    state
        .join_by(
            &["a".to_string(), "b".to_string(), "c".to_string()],
            |s, c| s.write_str(c),
            |s| s.write_str(","),
        )
        .unwrap();
    assert_eq!(state.to_string(), "a , b , c");
    let mut state = QueryBuildState::default();
    state.join(&[DatabaseValue::Bool(true), DatabaseValue::Bool(false)], |s| s.write_str("AND")).unwrap();
    state.append_param().unwrap();
    assert_eq!(state.to_string(), "? AND ? ?");
    let mut state = QueryBuildState::new();
    let empty: [String; 0] = [];
    state.join_by(&empty, |s, c| s.write_str(c), |s| s.write_str(",")).unwrap();
    assert_eq!(state.to_string(), "");
    let mut state = QueryBuildState::new();
    state.join_strings_with(&["x".to_string(), "y".to_string()], ",").unwrap();
    state.join_with(&[DatabaseValue::Bool(true)], ",").unwrap();
    assert_eq!(state.to_string(), "x , y ?");
}

#[test]
fn join_by_stops_at_the_first_error() {
    let calls = std::cell::RefCell::new(Vec::new());
    let mut state = QueryBuildState::new();
    let items = ["a".to_string(), "bad".to_string(), "c".to_string()];
    let r = state.join_by(
        &items,
        |s, c| {
            calls.borrow_mut().push(c.clone());
            if c == "bad" {
                Err(std::fmt::Error)
            } else {
                s.write_str(c)
            }
        },
        |s| {
            calls.borrow_mut().push(",".to_string());
            s.write_str(",")
        },
    );
    assert!(r.is_err());
    assert_eq!(*calls.borrow(), vec!["a".to_string(), ",".to_string(), "bad".to_string()]);
    assert_eq!(state.to_string(), "a ,");
    let failing_separator = QueryBuildState::new().join(
        &[DatabaseValue::Bool(true), DatabaseValue::Bool(false)],
        |_| Err(std::fmt::Error),
    );
    assert!(failing_separator.is_err());
}

#[test]
fn values_display_and_types() {
    let d = DecimalValue::new(12345, 2).unwrap();
    assert_eq!(DatabaseValue::Decimal(d).to_display_string(), "123.45");
    assert!(DecimalValue::new(1, 29).is_none());
    let t = TimeValue::new(1, 2, 3, 0).unwrap();
    assert_eq!(DatabaseValue::Time(t).to_display_string(), "1:02:03.0");
    let date = DateValue::new(2021, 2, 28).unwrap();
    assert_eq!(DatabaseValue::Date(date).to_display_string(), "2021-02-28");
    assert!(DateValue::new(2021, 2, 29).is_none());
    assert!(DateValue::new(2020, 2, 29).is_some());
    let dt = DateTimeValue { date, time: t };
    assert_eq!(dt.to_display_string(), "2021-02-28 1:02:03.0");
    assert_eq!(DatabaseValue::Binary(vec![1, 2]).to_display_string(), "BinaryData");
    assert_eq!(DatabaseValue::Integer(5).database_type(), DatabaseType::UnsignedInteger);
    assert_eq!(DatabaseType::from(&DatabaseValue::SmallInteger(5)), DatabaseType::SmallInteger);
    assert_eq!(DatabaseValue::Null(DatabaseType::Date).database_type(), DatabaseType::Date);
    assert_eq!(DatabaseType::UnsignedBigInteger.to_display_string(), "UnsignedBigInteger");
    assert!(matches!(DatabaseValue::default(), DatabaseValue::Bool(false)));
}

#[test]
fn execute_error_message() {
    let e = ExecuteError::DecodeError("bad row".to_string());
    assert_eq!(e.to_display_string(), "DecodeError: bad row");
}

#[test]
fn cloned_query_keeps_every_node_and_value() {
    let mut from = Select::from("meeting".to_string(), alias("m"));
    from.and_where(Expr::InArr(
        Box::new(column("m", "tag")),
        vec![DatabaseValue::Binary(vec![1, 2, 3]), DatabaseValue::String("x".to_string())],
    ));
    let mut q = from.select(vec![SelectItem {
        expr: Expr::FunctionCall(Box::new(FunctionCall::Aggregate(AggregateFunctionCall::GroupConcat(
            GroupConcatFunctionCall {
                expr: column("m", "name"),
                order_by: vec![OrderByItem { expr: column("m", "id"), order: Order::Desc }],
                separator: Some(";".to_string()),
            },
        )))),
        alias: Some("names".to_string()),
    }]);
    q.limit(3);
    let copy = q.clone();
    assert_eq!(format!("{:?}", copy), format!("{:?}", q));
    assert_eq!(render(&copy), render(&q));
    assert_eq!(bound(copy), bound(q));
}

#[test]
fn display_texts_of_decimals_times_and_dates() {
    let show = |m: i128, s: u32| DecimalValue::new(m, s).unwrap().to_display_string();
    assert_eq!(show(0, 0), "0");
    assert_eq!(show(0, 2), "0.00");
    assert_eq!(show(-5, 2), "-0.05");
    assert_eq!(show(1234, 2), "12.34");
    assert_eq!(show(-7, 0), "-7");
    assert_eq!(TimeValue::new(0, 0, 0, 0).unwrap().to_display_string(), "0:00:00.0");
    assert_eq!(TimeValue::new(13, 5, 9, 500_000_000).unwrap().to_display_string(), "13:05:09.5");
    assert_eq!(TimeValue::new(1, 2, 3, 120_000).unwrap().to_display_string(), "1:02:03.00012");
    assert_eq!(DateValue::new(-44, 3, 15).unwrap().to_display_string(), "-0044-03-15");
    assert_eq!(DateValue::new(0, 1, 1).unwrap().to_display_string(), "0000-01-01");
}
