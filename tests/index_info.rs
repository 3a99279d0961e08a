use sqlite3_ext::{
    ConstraintOp, DistinctMode, Error, IndexInfo, IndexInfoConstraint, Value, ValueRef,
    SQLITE_ERROR, SQLITE_MISUSE, SQLITE_NOTFOUND, SQLITE_RANGE,
};

const MODERN: i32 = 3_045_000;

fn on_column_a(rhs: Option<ValueRef>) -> IndexInfoConstraint {
    IndexInfoConstraint {
        column: 0,
        op: ConstraintOp::Eq,
        usable: true,
        rhs,
    }
}

// The planner's offer for `SELECT COUNT(*) FROM tbl WHERE a = 20`.
#[test]
fn best_index_rhs() {
    let info = IndexInfo::new(
        vec![on_column_a(Some(ValueRef::new(Value::Integer(20))))],
        DistinctMode::Ordered,
        MODERN,
    );
    assert_eq!(info.distinct_mode(), DistinctMode::Ordered);
    assert!(info.constraint_count() > 0, "no constraint");
    let rhs = info.rhs(0).unwrap();
    assert_eq!(rhs.get_i64(), 20);
}

// The planner's offer for `SELECT COUNT(*) FROM tbl WHERE a IN ('a1', 'b2')`: the
// engine runs the chosen plan once for each value of the list.
#[test]
fn best_index_in() {
    let mut info = IndexInfo::new(vec![on_column_a(None)], DistinctMode::Ordered, MODERN);
    assert!(info.constraint_count() > 0, "no constraint");
    if info.usable(0) {
        info.set_argv_index(0, Some(0)).unwrap();
        info.set_estimated_cost(1);
    }
    let plan = info.filter_arguments().unwrap();
    assert_eq!(plan, vec![0]);
    let mut num_filter: u32 = 0;
    for value in ["a1", "b2"] {
        let args: Vec<Value> = plan.iter().map(|_| Value::Text(value.to_string())).collect();
        num_filter += 1;
        println!("filter with {:?}", args);
        assert_eq!(args.len(), 1);
    }
    assert_eq!(num_filter, 2);
}

#[test]
fn rhs_requires_a_recent_engine() {
    let info = IndexInfo::new(
        vec![on_column_a(Some(ValueRef::new(Value::Integer(20))))],
        DistinctMode::Ordered,
        3_037_002,
    );
    assert_eq!(info.rhs(0).unwrap_err(), Error::VersionNotSatisfied(3_038_000));
    assert_eq!(
        info.rhs(0).unwrap_err().message(None),
        "requires SQLite version 3.38.0 or above"
    );
}

#[test]
fn rhs_unknown_to_the_planner() {
    let info = IndexInfo::new(vec![on_column_a(None)], DistinctMode::Distinct, MODERN);
    assert_eq!(info.rhs(0).unwrap_err(), Error::Sqlite(SQLITE_NOTFOUND));
    assert_eq!(info.distinct_mode(), DistinctMode::Distinct);
}

#[test]
fn argv_slots_are_unique_and_in_range() {
    let mut info = IndexInfo::new(
        vec![on_column_a(None), on_column_a(None)],
        DistinctMode::Ordered,
        MODERN,
    );
    assert_eq!(info.set_argv_index(0, Some(2)), Err(Error::Sqlite(SQLITE_RANGE)));
    assert_eq!(info.argv_index(0), None);
    assert_eq!(info.set_argv_index(0, Some(1)), Ok(()));
    assert_eq!(info.set_argv_index(1, Some(1)), Err(Error::Sqlite(SQLITE_MISUSE)));
    assert_eq!(info.argv_index(1), None);
    // Re-choosing the same slot for the same constraint is fine.
    assert_eq!(info.set_argv_index(0, Some(1)), Ok(()));
    // A gap at slot 0 leaves no valid argument list.
    assert_eq!(info.filter_arguments(), Err(Error::Sqlite(SQLITE_ERROR)));
    assert_eq!(info.set_argv_index(1, Some(0)), Ok(()));
    assert_eq!(info.filter_arguments(), Ok(vec![1, 0]));
    assert_eq!(info.set_argv_index(1, None), Ok(()));
    assert_eq!(info.argv_index(1), None);
}

#[test]
fn unselected_constraints_deliver_nothing() {
    let info = IndexInfo::new(vec![on_column_a(None)], DistinctMode::Grouped, MODERN);
    assert_eq!(info.filter_arguments(), Ok(vec![]));
    assert_eq!(info.estimated_cost(), u64::MAX);
    assert_eq!(info.estimated_rows(), 25);
}

#[test]
fn plan_estimates_are_recorded() {
    let mut info = IndexInfo::new(vec![], DistinctMode::Ordered, MODERN);
    info.set_estimated_cost(10);
    info.set_estimated_rows(3);
    info.set_order_by_consumed(true);
    assert_eq!(info.estimated_cost(), 10);
    assert_eq!(info.estimated_rows(), 3);
    assert!(info.order_by_consumed());
    assert_eq!(info.constraint_count(), 0);
}

#[test]
fn distinct_mode_codes() {
    assert_eq!(DistinctMode::from_code(0), Some(DistinctMode::Ordered));
    assert_eq!(DistinctMode::from_code(1), Some(DistinctMode::Grouped));
    assert_eq!(DistinctMode::from_code(2), Some(DistinctMode::Distinct));
    assert_eq!(DistinctMode::from_code(3), Some(DistinctMode::DistinctOrdered));
    assert_eq!(DistinctMode::from_code(4), None);
}
