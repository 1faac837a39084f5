use data_analysis_with_rust_book::data::expr::{
    complex_filter_expr, income_rule_expr, simple_filter_expr, Expr, Row, Value,
};

fn row(keep_type: Value, region: &str, age_group: Value, income: Value, econ: Value) -> Row {
    Row {
        cells: vec![
            ("keep_type".to_string(), keep_type),
            ("region".to_string(), Value::Str(region.to_string())),
            ("age_group".to_string(), age_group),
            ("income".to_string(), income),
            ("econ".to_string(), econ),
        ],
    }
}

fn num(i: i64) -> Value {
    Value::Int(i)
}

#[test]
fn simple_filter_keeps_london_residents_45_plus_with_income() {
    let e = simple_filter_expr();
    assert!(e.keeps_row(&row(num(1), "E12000007", num(5), num(50_000), num(1))));
    assert!(!e.keeps_row(&row(num(1), "E12000007", num(5), Value::Null, num(1))));
    assert!(!e.keeps_row(&row(num(2), "E12000007", num(5), num(50_000), num(1))));
    assert!(!e.keeps_row(&row(num(1), "E12000001", num(5), num(50_000), num(1))));
    assert!(!e.keeps_row(&row(num(1), "E12000007", num(4), num(50_000), num(1))));
    assert!(!e.keeps_row(&row(Value::Null, "E12000007", num(5), num(50_000), num(1))));
}

#[test]
fn complex_filter_selects_north_east_old_and_north_west_young() {
    let e = complex_filter_expr();
    assert!(e.keeps_row(&row(num(1), "E12000001", num(6), num(1), num(1))));
    assert!(e.keeps_row(&row(num(1), "E12000001", num(7), num(1), num(1))));
    assert!(!e.keeps_row(&row(num(1), "E12000001", num(5), num(1), num(1))));
    assert!(e.keeps_row(&row(num(1), "E12000002", num(5), num(1), num(1))));
    assert!(!e.keeps_row(&row(num(1), "E12000002", num(6), num(1), num(1))));
    assert!(!e.keeps_row(&row(num(1), "E12000007", num(6), num(1), num(1))));
    assert!(!e.keeps_row(&row(num(1), "E12000001", Value::Null, num(1), num(1))));
}

#[test]
fn income_rule_blanks_incomeless_codes() {
    let e = income_rule_expr();
    for code in [-8, 5, 6, 7, 8, 9] {
        let r = row(num(1), "E12000007", num(5), num(42_000), num(code));
        assert!(matches!(e.evaluate(&r), Some(Value::Null)), "code {code}");
    }
    for code in [1, 2, 3, 4, -9] {
        let r = row(num(1), "E12000007", num(5), num(42_000), num(code));
        assert!(matches!(e.evaluate(&r), Some(Value::Int(42_000))), "code {code}");
    }
    let r = row(num(1), "E12000007", num(5), num(42_000), Value::Null);
    assert!(matches!(e.evaluate(&r), Some(Value::Int(42_000))));
}

#[test]
fn missing_column_is_an_error() {
    let e = Expr::Col("nope".to_string());
    let r = row(num(1), "E12000007", num(5), num(1), num(1));
    assert!(e.evaluate(&r).is_none());
    assert!(!simple_filter_expr().keeps_row(&Row { cells: vec![] }));
}

#[test]
fn comparisons_between_types_are_errors() {
    let e = Expr::Eq(Box::new(Expr::Col("region".to_string())), Box::new(Expr::LitInt(1)));
    let r = row(num(1), "E12000007", num(5), num(1), num(1));
    assert!(e.evaluate(&r).is_none());
}

#[test]
fn three_valued_logic() {
    let r = Row { cells: vec![("x".to_string(), Value::Null)] };
    let null_eq = || Box::new(Expr::Eq(Box::new(Expr::Col("x".to_string())), Box::new(Expr::LitInt(1))));
    let f = || Box::new(Expr::Eq(Box::new(Expr::LitInt(1)), Box::new(Expr::LitInt(2))));
    let t = || Box::new(Expr::Eq(Box::new(Expr::LitInt(1)), Box::new(Expr::LitInt(1))));
    assert!(matches!(Expr::And(null_eq(), f()).evaluate(&r), Some(Value::Bool(false))));
    assert!(matches!(Expr::And(null_eq(), t()).evaluate(&r), Some(Value::Null)));
    assert!(matches!(Expr::Or(null_eq(), t()).evaluate(&r), Some(Value::Bool(true))));
    assert!(matches!(Expr::Or(null_eq(), f()).evaluate(&r), Some(Value::Null)));
}

#[test]
fn first_cell_with_a_name_wins() {
    let r = Row { cells: vec![("a".to_string(), Value::Int(1)), ("a".to_string(), Value::Int(2))] };
    assert!(matches!(Expr::Col("a".to_string()).evaluate(&r), Some(Value::Int(1))));
}
