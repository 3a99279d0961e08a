use sqlite3_ext::{
    call_scalar, AggregateContext, Connection, Context, ContextValue, Error, RiskLevel, RowCount, Value,
    ValueRef,
};

#[test]
fn last_result_wins() {
    let mut ctx = Context::new(7);
    assert_eq!(ctx.as_ptr(), 7);
    assert_eq!(*ctx.result(), None);
    ctx.set_result(5i32);
    assert_eq!(*ctx.result(), Some(ContextValue::Int(5)));
    ctx.set_result(9i64);
    assert_eq!(*ctx.result(), Some(ContextValue::Int64(9)));
    assert_eq!(ctx.as_ptr(), 7);
}

#[test]
fn fallible_results_report_value_or_error() {
    let mut ctx = Context::new(1);
    let ok: Result<i32, Error> = Ok(3);
    ctx.set_result(ok);
    assert_eq!(*ctx.result(), Some(ContextValue::Int(3)));
    let failed: Result<i32, Error> = Err(Error::Module("bad input".to_string()));
    ctx.set_result(failed);
    assert_eq!(
        *ctx.result(),
        Some(ContextValue::Failure(1, "bad input".to_string()))
    );
    let busy: Result<i64, Error> = Err(Error::Sqlite(5));
    ctx.set_result(busy);
    assert_eq!(
        *ctx.result(),
        Some(ContextValue::Failure(5, "SQLite error 5".to_string()))
    );
}

#[test]
fn empty_group_reports_default_value() {
    let agg: AggregateContext<RowCount> = AggregateContext::new();
    let mut ctx = Context::new(1);
    agg.finalize(&mut ctx);
    assert_eq!(*ctx.result(), Some(ContextValue::Int64(0)));
}

#[test]
fn aggregate_counts_rows() {
    let mut agg: AggregateContext<RowCount> = AggregateContext::new();
    let ctx = Context::new(1);
    let row = [ValueRef::new(Value::Integer(4))];
    agg.step(&ctx, &row);
    agg.step(&ctx, &row);
    agg.step(&ctx, &row);
    let mut out = Context::new(1);
    agg.value(&mut out);
    assert_eq!(*out.result(), Some(ContextValue::Int64(3)));
    agg.finalize(&mut out);
    assert_eq!(*out.result(), Some(ContextValue::Int64(3)));
}

#[test]
fn value_before_any_step_uses_fresh_state() {
    let mut agg: AggregateContext<RowCount> = AggregateContext::new();
    let mut out = Context::new(1);
    agg.value(&mut out);
    assert_eq!(*out.result(), Some(ContextValue::Int64(0)));
}

#[test]
fn step_then_inverse_is_invisible() {
    let ctx = Context::new(1);
    let row = [ValueRef::new(Value::Text("x".to_string()))];
    let mut plain: AggregateContext<RowCount> = AggregateContext::new();
    let mut window: AggregateContext<RowCount> = AggregateContext::new();
    plain.step(&ctx, &row);
    window.step(&ctx, &row);
    window.step(&ctx, &row);
    window.inverse(&ctx, &row);
    let mut a = Context::new(1);
    let mut b = Context::new(1);
    plain.value(&mut a);
    window.value(&mut b);
    assert_eq!(*a.result(), *b.result());
    assert_eq!(*b.result(), Some(ContextValue::Int64(1)));

    let mut empty: AggregateContext<RowCount> = AggregateContext::new();
    empty.step(&ctx, &row);
    empty.inverse(&ctx, &row);
    let mut c = Context::new(1);
    empty.value(&mut c);
    assert_eq!(*c.result(), Some(ContextValue::Int64(0)));
}

#[test]
fn value_refs() {
    let v = ValueRef::new(Value::Integer(-8));
    assert_eq!(v.get_i64(), -8);
    assert!(!v.is_null());
    assert!(!v.nochange());
    let u = ValueRef::unchanged();
    assert!(u.nochange());
    assert!(u.is_null());
    assert_eq!(u.get_i64(), 0);
    assert_eq!(*ValueRef::new(Value::Blob(vec![1, 2])).value(), Value::Blob(vec![1, 2]));
}

#[test]
fn connection_handle() {
    let mut db = Connection::from_ptr(0x1000);
    assert_eq!(db.as_ptr(), 0x1000);
    assert_eq!(db.as_mut_ptr(), 0x1000);
    assert_ne!(RiskLevel::Innocuous, RiskLevel::DirectOnly);
}

#[test]
fn scalar_call_reports_result() {
    let double = |_ctx: &Context, args: &[ValueRef]| -> Result<i64, Error> {
        Ok(args[0].get_i64() * 2)
    };
    let mut ctx = Context::new(3);
    call_scalar(&double, &mut ctx, &[ValueRef::new(Value::Integer(21))]);
    assert_eq!(*ctx.result(), Some(ContextValue::Int64(42)));
}

#[test]
fn scalar_call_reports_error() {
    let refuse = |_ctx: &Context, _args: &[ValueRef]| -> Result<i32, Error> {
        Err(Error::VersionNotSatisfied(3_035_000))
    };
    let mut ctx = Context::new(3);
    call_scalar(&refuse, &mut ctx, &[]);
    assert_eq!(
        *ctx.result(),
        Some(ContextValue::Failure(
            1,
            "requires SQLite version 3.35.0 or above".to_string()
        ))
    );
}
