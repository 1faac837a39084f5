//! Column expressions over census rows: the filters and the income rule of the
//! pipeline are written here as values, with the meaning that a dataframe engine gives
//! them, so that what they select can be stated and checked.

use vstd::prelude::*;
use crate::text::owned;

verus! {

/// A cell of a row.
pub enum Value {
    Null,
    Int(i64),
    Str(String),
    Bool(bool),
}

/// A cell as a plain value.
pub enum ValueView {
    Null,
    Int(int),
    Str(Seq<char>),
    Bool(bool),
}

impl Value {
    pub open spec fn view(&self) -> ValueView {
        match self {
            Value::Null => ValueView::Null,
            Value::Int(i) => ValueView::Int(*i as int),
            Value::Str(s) => ValueView::Str(s@),
            Value::Bool(b) => ValueView::Bool(*b),
        }
    }

    /// A copy of this cell.
    pub fn duplicate(&self) -> (r: Value)
        ensures
            r.view() == self.view(),
    {
        match self {
            Value::Null => Value::Null,
            Value::Int(i) => Value::Int(*i),
            Value::Str(s) => Value::Str(s.clone()),
            Value::Bool(b) => Value::Bool(*b),
        }
    }
}

/// A row: named cells, looked up by the first cell with the name.
pub struct Row {
    pub cells: Vec<(String, Value)>,
}

pub open spec fn cells_view(cells: Seq<(String, Value)>) -> Seq<(Seq<char>, ValueView)> {
    cells.map_values(|c: (String, Value)| (c.0@, c.1.view()))
}

impl Row {
    pub open spec fn view(&self) -> Seq<(Seq<char>, ValueView)> {
        cells_view(self.cells@)
    }
}

/// The cell named `name` in `row`, the first such when several share it.
pub open spec fn lookup(row: Seq<(Seq<char>, ValueView)>, name: Seq<char>) -> Option<ValueView>
    decreases row.len(),
{
    if row.len() == 0 {
        None
    } else if row[0].0 == name {
        Some(row[0].1)
    } else {
        lookup(row.drop_first(), name)
    }
}

/// An expression over the columns of a row.
pub enum Expr {
    /// The column with this name.
    Col(String),
    LitInt(i64),
    LitStr(String),
    LitNull,
    Eq(Box<Expr>, Box<Expr>),
    GtEq(Box<Expr>, Box<Expr>),
    LtEq(Box<Expr>, Box<Expr>),
    Lt(Box<Expr>, Box<Expr>),
    And(Box<Expr>, Box<Expr>),
    Or(Box<Expr>, Box<Expr>),
    IsNotNull(Box<Expr>),
    /// True when the value is one of the listed integers.
    IsIn(Box<Expr>, Vec<i64>),
    /// `When(c, t, o)`: `t` where `c` is true, `o` where it is false or null.
    When(Box<Expr>, Box<Expr>, Box<Expr>),
}

pub open spec fn is_truth(v: ValueView) -> bool {
    v is Bool || v is Null
}

/// Three-valued conjunction.
pub open spec fn kleene_and(a: ValueView, b: ValueView) -> Option<ValueView> {
    if !(is_truth(a) && is_truth(b)) {
        None
    } else if a == ValueView::Bool(false) || b == ValueView::Bool(false) {
        Some(ValueView::Bool(false))
    } else if a is Null || b is Null {
        Some(ValueView::Null)
    } else {
        Some(ValueView::Bool(true))
    }
}

/// Three-valued disjunction.
pub open spec fn kleene_or(a: ValueView, b: ValueView) -> Option<ValueView> {
    if !(is_truth(a) && is_truth(b)) {
        None
    } else if a == ValueView::Bool(true) || b == ValueView::Bool(true) {
        Some(ValueView::Bool(true))
    } else if a is Null || b is Null {
        Some(ValueView::Null)
    } else {
        Some(ValueView::Bool(false))
    }
}

/// Equality: null when either side is null, an error between different types.
pub open spec fn value_eq(a: ValueView, b: ValueView) -> Option<ValueView> {
    match (a, b) {
        (ValueView::Null, _) => Some(ValueView::Null),
        (_, ValueView::Null) => Some(ValueView::Null),
        (ValueView::Int(x), ValueView::Int(y)) => Some(ValueView::Bool(x == y)),
        (ValueView::Str(x), ValueView::Str(y)) => Some(ValueView::Bool(x == y)),
        (ValueView::Bool(x), ValueView::Bool(y)) => Some(ValueView::Bool(x == y)),
        _ => None,
    }
}

/// Integer comparison: `op` 0 is `>=`, 1 is `<=`, 2 is `<`.
pub open spec fn value_order(a: ValueView, b: ValueView, op: int) -> Option<ValueView> {
    match (a, b) {
        (ValueView::Null, _) => Some(ValueView::Null),
        (_, ValueView::Null) => Some(ValueView::Null),
        (ValueView::Int(x), ValueView::Int(y)) => Some(ValueView::Bool(
            if op == 0 { x >= y } else if op == 1 { x <= y } else { x < y },
        )),
        _ => None,
    }
}

pub open spec fn value_is_in(a: ValueView, list: Seq<i64>) -> Option<ValueView> {
    match a {
        ValueView::Null => Some(ValueView::Null),
        ValueView::Int(x) => Some(ValueView::Bool(exists|i: int| 0 <= i < list.len() && list[i] == x)),
        _ => None,
    }
}

pub open spec fn value_when(c: ValueView, t: ValueView, o: ValueView) -> Option<ValueView> {
    match c {
        ValueView::Bool(true) => Some(t),
        ValueView::Bool(false) => Some(o),
        ValueView::Null => Some(o),
        _ => None,
    }
}

pub open spec fn lift2(
    a: Option<ValueView>,
    b: Option<ValueView>,
    f: spec_fn(ValueView, ValueView) -> Option<ValueView>,
) -> Option<ValueView> {
    match (a, b) {
        (Some(x), Some(y)) => f(x, y),
        _ => None,
    }
}

/// The value of `e` on `row`; `None` when the expression is ill-typed there or names a
/// missing column.
pub open spec fn eval(e: &Expr, row: Seq<(Seq<char>, ValueView)>) -> Option<ValueView>
    decreases e,
{
    match e {
        Expr::Col(name) => lookup(row, name@),
        Expr::LitInt(i) => Some(ValueView::Int(*i as int)),
        Expr::LitStr(s) => Some(ValueView::Str(s@)),
        Expr::LitNull => Some(ValueView::Null),
        Expr::Eq(a, b) => lift2(eval(a, row), eval(b, row), |x, y| value_eq(x, y)),
        Expr::GtEq(a, b) => lift2(eval(a, row), eval(b, row), |x, y| value_order(x, y, 0)),
        Expr::LtEq(a, b) => lift2(eval(a, row), eval(b, row), |x, y| value_order(x, y, 1)),
        Expr::Lt(a, b) => lift2(eval(a, row), eval(b, row), |x, y| value_order(x, y, 2)),
        Expr::And(a, b) => lift2(eval(a, row), eval(b, row), |x, y| kleene_and(x, y)),
        Expr::Or(a, b) => lift2(eval(a, row), eval(b, row), |x, y| kleene_or(x, y)),
        Expr::IsNotNull(a) => match eval(a, row) {
            Some(v) => Some(ValueView::Bool(!(v is Null))),
            None => None,
        },
        Expr::IsIn(a, list) => match eval(a, row) {
            Some(v) => value_is_in(v, list@),
            None => None,
        },
        Expr::When(c, t, o) => match (eval(c, row), eval(t, row), eval(o, row)) {
            (Some(cv), Some(tv), Some(ov)) => value_when(cv, tv, ov),
            _ => None,
        },
    }
}

/// A filter by `e` keeps `row` exactly when `e` is true there.
pub open spec fn keeps(e: &Expr, row: Seq<(Seq<char>, ValueView)>) -> bool {
    eval(e, row) == Some(ValueView::Bool(true))
}

fn lookup_cell(row: &Row, name: &String) -> (r: Option<Value>)
    ensures
        match r {
            Some(v) => lookup(row.view(), name@) == Some(v.view()),
            None => lookup(row.view(), name@) is None,
        },
{
    let mut i: usize = 0;
    assert(row.view().skip(0) =~= row.view());
    while i < row.cells.len()
        invariant
            i <= row.cells.len(),
            lookup(row.view(), name@) == lookup(row.view().skip(i as int), name@),
        decreases row.cells.len() - i,
    {
        proof {
            let rest = row.view().skip(i as int);
            assert(rest.drop_first() =~= row.view().skip(i + 1));
            assert(rest[0] == (row.cells@[i as int].0@, row.cells@[i as int].1.view()));
        }
        if row.cells[i].0 == *name {
            return Some(row.cells[i].1.duplicate());
        }
        i = i + 1;
    }
    assert(row.view().skip(i as int).len() == 0);
    None
}

fn and_values(a: Value, b: Value) -> (r: Option<Value>)
    ensures
        opt_view(r) == kleene_and(a.view(), b.view()),
{
    match (a, b) {
        (Value::Bool(x), Value::Bool(y)) => Some(Value::Bool(x && y)),
        (Value::Bool(false), Value::Null) => Some(Value::Bool(false)),
        (Value::Null, Value::Bool(false)) => Some(Value::Bool(false)),
        (Value::Bool(true), Value::Null) => Some(Value::Null),
        (Value::Null, Value::Bool(true)) => Some(Value::Null),
        (Value::Null, Value::Null) => Some(Value::Null),
        _ => None,
    }
}

fn or_values(a: Value, b: Value) -> (r: Option<Value>)
    ensures
        opt_view(r) == kleene_or(a.view(), b.view()),
{
    match (a, b) {
        (Value::Bool(x), Value::Bool(y)) => Some(Value::Bool(x || y)),
        (Value::Bool(true), Value::Null) => Some(Value::Bool(true)),
        (Value::Null, Value::Bool(true)) => Some(Value::Bool(true)),
        (Value::Bool(false), Value::Null) => Some(Value::Null),
        (Value::Null, Value::Bool(false)) => Some(Value::Null),
        (Value::Null, Value::Null) => Some(Value::Null),
        _ => None,
    }
}

fn eq_values(a: Value, b: Value) -> (r: Option<Value>)
    ensures
        opt_view(r) == value_eq(a.view(), b.view()),
{
    match (a, b) {
        (Value::Null, _) => Some(Value::Null),
        (_, Value::Null) => Some(Value::Null),
        (Value::Int(x), Value::Int(y)) => Some(Value::Bool(x == y)),
        (Value::Str(x), Value::Str(y)) => Some(Value::Bool(x == y)),
        (Value::Bool(x), Value::Bool(y)) => Some(Value::Bool(x == y)),
        _ => None,
    }
}

fn order_values(a: Value, b: Value, op: u8) -> (r: Option<Value>)
    requires
        op <= 2,
    ensures
        opt_view(r) == value_order(a.view(), b.view(), op as int),
{
    match (a, b) {
        (Value::Null, _) => Some(Value::Null),
        (_, Value::Null) => Some(Value::Null),
        (Value::Int(x), Value::Int(y)) => Some(Value::Bool(
            if op == 0 { x >= y } else if op == 1 { x <= y } else { x < y },
        )),
        _ => None,
    }
}

fn list_contains(list: &Vec<i64>, x: i64) -> (r: bool)
    ensures
        r == (exists|i: int| 0 <= i < list@.len() && list@[i] == x),
{
    let mut i: usize = 0;
    while i < list.len()
        invariant
            i <= list.len(),
            forall|j: int| 0 <= j < i ==> list@[j] != x,
        decreases list.len() - i,
    {
        if list[i] == x {
            return true;
        }
        i = i + 1;
    }
    false
}

pub open spec fn opt_view(o: Option<Value>) -> Option<ValueView> {
    match o {
        Some(v) => Some(v.view()),
        None => None,
    }
}

impl Expr {
    /// The value of this expression on `row`; `None` when it is ill-typed there or
    /// names a missing column.
    pub fn evaluate(&self, row: &Row) -> (r: Option<Value>)
        ensures
            opt_view(r) == eval(self, row.view()),
        decreases self,
    {
        match self {
            Expr::Col(name) => lookup_cell(row, name),
            Expr::LitInt(i) => Some(Value::Int(*i)),
            Expr::LitStr(s) => Some(Value::Str(s.clone())),
            Expr::LitNull => Some(Value::Null),
            Expr::Eq(a, b) => match (a.evaluate(row), b.evaluate(row)) {
                (Some(x), Some(y)) => eq_values(x, y),
                _ => None,
            },
            Expr::GtEq(a, b) => match (a.evaluate(row), b.evaluate(row)) {
                (Some(x), Some(y)) => order_values(x, y, 0),
                _ => None,
            },
            Expr::LtEq(a, b) => match (a.evaluate(row), b.evaluate(row)) {
                (Some(x), Some(y)) => order_values(x, y, 1),
                _ => None,
            },
            Expr::Lt(a, b) => match (a.evaluate(row), b.evaluate(row)) {
                (Some(x), Some(y)) => order_values(x, y, 2),
                _ => None,
            },
            Expr::And(a, b) => match (a.evaluate(row), b.evaluate(row)) {
                (Some(x), Some(y)) => and_values(x, y),
                _ => None,
            },
            Expr::Or(a, b) => match (a.evaluate(row), b.evaluate(row)) {
                (Some(x), Some(y)) => or_values(x, y),
                _ => None,
            },
            Expr::IsNotNull(a) => match a.evaluate(row) {
                Some(v) => Some(Value::Bool(!matches!(v, Value::Null))),
                None => None,
            },
            Expr::IsIn(a, list) => match a.evaluate(row) {
                Some(Value::Null) => Some(Value::Null),
                Some(Value::Int(x)) => Some(Value::Bool(list_contains(list, x))),
                _ => None,
            },
            Expr::When(c, t, o) => match (c.evaluate(row), t.evaluate(row), o.evaluate(row)) {
                (Some(Value::Bool(true)), Some(tv), Some(_)) => Some(tv),
                (Some(Value::Bool(false)), Some(_), Some(ov)) => Some(ov),
                (Some(Value::Null), Some(_), Some(ov)) => Some(ov),
                _ => None,
            },
        }
    }

    /// Whether a filter by this expression keeps `row`.
    pub fn keeps_row(&self, row: &Row) -> (r: bool)
        ensures
            r == keeps(self, row.view()),
    {
        match self.evaluate(row) {
            Some(Value::Bool(true)) => true,
            _ => false,
        }
    }
}

fn column(name: &str) -> (r: Box<Expr>)
    ensures
        *r matches Expr::Col(n) && n@ == name@,
{
    Box::new(Expr::Col(owned(name)))
}

fn lit_int(i: i64) -> (r: Box<Expr>)
    ensures
        *r == Expr::LitInt(i),
{
    Box::new(Expr::LitInt(i))
}

fn lit_text(s: &str) -> (r: Box<Expr>)
    ensures
        *r matches Expr::LitStr(t) && t@ == s@,
{
    Box::new(Expr::LitStr(owned(s)))
}

/// Usual residents (keep type 1) of London (region E12000007) in age group 5 with a
/// known income.
pub open spec fn simple_criteria(row: Seq<(Seq<char>, ValueView)>) -> bool {
    &&& lookup(row, "keep_type"@) == Some(ValueView::Int(1))
    &&& lookup(row, "region"@) == Some(ValueView::Str("E12000007"@))
    &&& lookup(row, "age_group"@) == Some(ValueView::Int(5))
    &&& lookup(row, "income"@) matches Some(v) && !(v is Null)
}

/// Residents of the North East (E12000001) in age group 6 or above, or of the North
/// West (E12000002) below age group 6.
pub open spec fn complex_criteria(row: Seq<(Seq<char>, ValueView)>) -> bool {
    ||| lookup(row, "region"@) == Some(ValueView::Str("E12000001"@))
        && int_cell_at_least(lookup(row, "age_group"@), 6)
    ||| lookup(row, "region"@) == Some(ValueView::Str("E12000002"@))
        && int_cell_below(lookup(row, "age_group"@), 6)
}

/// Usual residents of London aged 45+ with a known income:
/// `keep_type == 1 & region == "E12000007" & age_group == 5 & income is not null`.
pub fn simple_filter_expr() -> (e: Expr)
    ensures
        forall|row: Seq<(Seq<char>, ValueView)>| #[trigger] keeps(&e, row) <==> simple_criteria(row),
{
    let e = Expr::And(
        Box::new(Expr::And(
            Box::new(Expr::And(
                Box::new(Expr::Eq(column("keep_type"), lit_int(1))),
                Box::new(Expr::Eq(column("region"), lit_text("E12000007"))),
            )),
            Box::new(Expr::Eq(column("age_group"), lit_int(5))),
        )),
        Box::new(Expr::IsNotNull(column("income"))),
    );
    proof {
        assert forall|row: Seq<(Seq<char>, ValueView)>| #[trigger] keeps(&e, row) <==> simple_criteria(row) by {
            reveal_with_fuel(eval, 5);
        }
    }
    e
}

/// North East residents aged 55 and over, or North West residents aged 54 and under:
/// `(region == "E12000001" & age_group >= 6) | (region == "E12000002" & age_group < 6)`.
pub fn complex_filter_expr() -> (e: Expr)
    ensures
        forall|row: Seq<(Seq<char>, ValueView)>| #[trigger] keeps(&e, row) <==> complex_criteria(row),
{
    let e = Expr::Or(
        Box::new(Expr::And(
            Box::new(Expr::Eq(column("region"), lit_text("E12000001"))),
            Box::new(Expr::GtEq(column("age_group"), lit_int(6))),
        )),
        Box::new(Expr::And(
            Box::new(Expr::Eq(column("region"), lit_text("E12000002"))),
            Box::new(Expr::Lt(column("age_group"), lit_int(6))),
        )),
    );
    proof {
        assert forall|row: Seq<(Seq<char>, ValueView)>| #[trigger] keeps(&e, row) <==> complex_criteria(row) by {
            reveal_with_fuel(eval, 4);
        }
    }
    e
}

/// An integer cell of at least `n`.
pub open spec fn int_cell_at_least(v: Option<ValueView>, n: int) -> bool {
    match v {
        Some(ValueView::Int(a)) => a >= n,
        _ => false,
    }
}

/// An integer cell below `n`.
pub open spec fn int_cell_below(v: Option<ValueView>, n: int) -> bool {
    match v {
        Some(ValueView::Int(a)) => a < n,
        _ => false,
    }
}

/// Economic-activity codes of residents who have no income.
pub open spec fn spec_incomeless_codes() -> Seq<int> {
    seq![-8int, 5, 6, 7, 8, 9]
}

/// The income a resident keeps: none when the economic-activity code is one of the
/// incomeless codes, otherwise the income as it is (also when the code is missing).
pub open spec fn income_rule_value(econ: Option<ValueView>, income: Option<ValueView>) -> Option<ValueView> {
    match (econ, income) {
        (Some(ValueView::Int(c)), Some(_)) => if spec_incomeless_codes().contains(c) {
            Some(ValueView::Null)
        } else {
            income
        },
        (Some(ValueView::Null), Some(_)) => income,
        _ => None,
    }
}

/// Income with the residents outside paid work blanked:
/// `when(econ in [-8, 5, 6, 7, 8, 9]) then null otherwise income`.
pub fn income_rule_expr() -> (e: Expr)
    ensures
        forall|row: Seq<(Seq<char>, ValueView)>| #[trigger] eval(&e, row)
            == income_rule_value(lookup(row, "econ"@), lookup(row, "income"@)),
{
    let codes: Vec<i64> = vec![-8, 5, 6, 7, 8, 9];
    let e = Expr::When(
        Box::new(Expr::IsIn(column("econ"), codes)),
        Box::new(Expr::LitNull),
        column("income"),
    );
    proof {
        assert forall|row: Seq<(Seq<char>, ValueView)>| #[trigger] eval(&e, row)
            == income_rule_value(lookup(row, "econ"@), lookup(row, "income"@)) by {
            reveal_with_fuel(eval, 3);
            let econ = lookup(row, "econ"@);
            if let Some(ValueView::Int(c)) = econ {
                let l = spec_incomeless_codes();
                assert(codes@.len() == l.len());
                assert forall|k: int| 0 <= k < l.len() implies codes@[k] == l[k] by {}
                if l.contains(c) {
                    let k = choose|k: int| 0 <= k < l.len() && l[k] == c;
                    assert(codes@[k] == c);
                } else {
                    assert forall|k: int| 0 <= k < codes@.len() implies codes@[k] != c by {
                        assert(l[k] == codes@[k]);
                    }
                }
            }
        }
    }
    e
}

/// The law of comparisons: on two integer operands, `>=`, `<=`, `<` and `==` give
/// exactly the integer comparison, so that a filter keeps the row just when it holds;
/// a null operand gives null, which a filter does not keep.
pub proof fn lemma_integer_comparisons(a: Expr, b: Expr, row: Seq<(Seq<char>, ValueView)>, x: int, y: int)
    requires
        eval(&a, row) == Some(ValueView::Int(x)),
        eval(&b, row) == Some(ValueView::Int(y)),
    ensures
        eval(&Expr::GtEq(Box::new(a), Box::new(b)), row) == Some(ValueView::Bool(x >= y)),
        eval(&Expr::LtEq(Box::new(a), Box::new(b)), row) == Some(ValueView::Bool(x <= y)),
        eval(&Expr::Lt(Box::new(a), Box::new(b)), row) == Some(ValueView::Bool(x < y)),
        eval(&Expr::Eq(Box::new(a), Box::new(b)), row) == Some(ValueView::Bool(x == y)),
        keeps(&Expr::GtEq(Box::new(a), Box::new(b)), row) <==> x >= y,
        keeps(&Expr::LtEq(Box::new(a), Box::new(b)), row) <==> x <= y,
        keeps(&Expr::Lt(Box::new(a), Box::new(b)), row) <==> x < y,
        keeps(&Expr::Eq(Box::new(a), Box::new(b)), row) <==> x == y,
{
}

/// A comparison with a null operand is null, so a filter by it keeps no row.
pub proof fn lemma_null_comparisons(a: Expr, b: Expr, row: Seq<(Seq<char>, ValueView)>)
    requires
        eval(&a, row) == Some(ValueView::Null),
        eval(&b, row) is Some,
    ensures
        eval(&Expr::GtEq(Box::new(a), Box::new(b)), row) == Some(ValueView::Null),
        eval(&Expr::LtEq(Box::new(a), Box::new(b)), row) == Some(ValueView::Null),
        eval(&Expr::Lt(Box::new(a), Box::new(b)), row) == Some(ValueView::Null),
        !keeps(&Expr::LtEq(Box::new(a), Box::new(b)), row),
{
}

/// The law of the income rule: a resident whose economic-activity code is -8 or 5 to 9
/// (not in paid work) has no income; any other code keeps the income as it is.
pub proof fn lemma_income_rule_blanks_incomeless_codes(e: Expr, row: Seq<(Seq<char>, ValueView)>, c: int, income: ValueView)
    requires
        forall|r: Seq<(Seq<char>, ValueView)>| #[trigger] eval(&e, r) == income_rule_value(lookup(r, "econ"@), lookup(r, "income"@)),
        lookup(row, "econ"@) == Some(ValueView::Int(c)),
        lookup(row, "income"@) == Some(income),
    ensures
        (c == -8 || (5 <= c <= 9)) ==> eval(&e, row) == Some(ValueView::Null),
        !(c == -8 || (5 <= c <= 9)) ==> eval(&e, row) == Some(income),
{
    assert(eval(&e, row) == income_rule_value(lookup(row, "econ"@), lookup(row, "income"@)));
    let codes = spec_incomeless_codes();
    if c == -8 || (5 <= c <= 9) {
        if c == -8 { assert(codes[0] == c); } else { assert(codes[c - 4] == c); }
    } else {
        assert(!codes.contains(c)) by {
            if codes.contains(c) {
                let i = choose|i: int| 0 <= i < codes.len() && codes[i] == c;
                assert(codes[i] == c);
            }
        }
    }
}

/// The law of the three-valued connectives: a conjunction is true only when both sides
/// are, false when either is false; a disjunction is true when either side is, false
/// only when both are; a null side otherwise makes the result null.
pub proof fn lemma_kleene_logic(a: Expr, b: Expr, row: Seq<(Seq<char>, ValueView)>, x: bool, y: bool)
    requires
        eval(&a, row) == Some(ValueView::Bool(x)),
        eval(&b, row) == Some(ValueView::Bool(y)),
    ensures
        eval(&Expr::And(Box::new(a), Box::new(b)), row) == Some(ValueView::Bool(x && y)),
        eval(&Expr::Or(Box::new(a), Box::new(b)), row) == Some(ValueView::Bool(x || y)),
        eval(&Expr::IsNotNull(Box::new(a)), row) == Some(ValueView::Bool(true)),
{
}

} // verus!
