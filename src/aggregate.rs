use crate::error::Error;
use crate::function::{Context, ToContextResult};
use crate::value::ValueRef;
use vstd::prelude::*;

verus! {

/// A stateful aggregate that can also serve as a window function.
///
/// Implementers describe their state transitions with the spec functions below and
/// prove that `inverse` undoes a `step` with the same arguments.
pub trait AggregateFunction: Sized {
    type Return: ToContextResult;

    /// The state of a group before any row.
    spec fn spec_initial() -> Self;

    /// What an aggregate over zero rows reports.
    spec fn spec_default_value() -> Self::Return;

    /// The state after adding a row with arguments `args`.
    spec fn after_step(&self, args: Seq<ValueRef>) -> Self;

    /// The state after removing a row with arguments `args`.
    spec fn after_inverse(&self, args: Seq<ValueRef>) -> Self;

    /// The current value of the aggregate.
    spec fn spec_value(&self) -> Result<Self::Return, Error>;

    /// Removing a row right after adding it restores the state.
    proof fn lemma_inverse_undoes_step(s: Self, args: Seq<ValueRef>)
        ensures
            s.after_step(args).after_inverse(args) == s,
    ;

    /// A fresh state.
    fn initial() -> (r: Self)
        ensures
            r == Self::spec_initial(),
    ;

    /// The value reported for a group with no rows.
    fn default_value() -> (r: Self::Return)
        ensures
            r == Self::spec_default_value(),
    ;

    /// Add a new row to the aggregate. This cannot fail: a failure is kept in the
    /// state and returned by `value`.
    fn step(&mut self, context: &Context, args: &[ValueRef])
        ensures
            *final(self) == old(self).after_step(args@),
    ;

    /// Return the current value of the aggregate function.
    fn value(&self, context: &Context) -> (r: Result<Self::Return, Error>)
        ensures
            r == self.spec_value(),
    ;

    /// Remove the oldest presently aggregated row; `args` are those its `step` had.
    fn inverse(&mut self, context: &Context, args: &[ValueRef])
        ensures
            *final(self) == old(self).after_inverse(args@),
    ;
}

/// The per-group storage of an aggregate: empty until the first call that needs the
/// state, which then creates it.
pub struct AggregateContext<F> {
    state: Option<F>,
}

impl<F: AggregateFunction> AggregateContext<F> {
    /// The state, once created.
    pub closed spec fn slot(&self) -> Option<F> {
        self.state
    }

    /// The state that the next step, value or inverse call works on: the stored one,
    /// or a fresh one.
    pub open spec fn effective(&self) -> F {
        match self.slot() {
            Some(s) => s,
            None => F::spec_initial(),
        }
    }

    /// Storage for a group that has seen no row.
    pub fn new() -> (r: Self)
        ensures
            r.slot() is None,
    {
        AggregateContext { state: None }
    }

    /// Locates the state, creating it if needed.
    fn take_or_init(&mut self) -> (r: F)
        ensures
            r == old(self).effective(),
    {
        match self.state.take() {
            Some(s) => s,
            None => F::initial(),
        }
    }

    /// The step callback: adds one row.
    pub fn step(&mut self, context: &Context, args: &[ValueRef])
        ensures
            final(self).slot() == Some(old(self).effective().after_step(args@)),
    {
        let mut s = self.take_or_init();
        s.step(context, args);
        self.state = Some(s);
    }

    /// The inverse callback: removes one row.
    pub fn inverse(&mut self, context: &Context, args: &[ValueRef])
        ensures
            final(self).slot() == Some(old(self).effective().after_inverse(args@)),
    {
        let mut s = self.take_or_init();
        s.inverse(context, args);
        self.state = Some(s);
    }

    /// The value callback: reports the current value of the window.
    pub fn value(&mut self, context: &mut Context)
        ensures
            final(self).slot() == Some(old(self).effective()),
            old(self).effective().spec_value().assigned(final(context).reported()),
            final(context).handle() == old(context).handle(),
    {
        let s = self.take_or_init();
        let r = s.value(&*context);
        context.set_result(r);
        self.state = Some(s);
    }

    /// The final callback: reports the aggregate's value, or the type's default value
    /// when no state was ever created; `value` is then not called.
    pub fn finalize(&self, context: &mut Context)
        ensures
            match self.slot() {
                Some(s) => s.spec_value().assigned(final(context).reported()),
                None => F::spec_default_value().assigned(final(context).reported()),
            },
            final(context).handle() == old(context).handle(),
    {
        match &self.state {
            Some(s) => {
                let r = s.value(&*context);
                context.set_result(r);
            },
            None => {
                let d = F::default_value();
                context.set_result(d);
            },
        }
    }
}

/// A step followed by an inverse with equal arguments leaves every later `value` call
/// as if neither had happened.
pub proof fn lemma_step_then_inverse<F: AggregateFunction>(
    agg: AggregateContext<F>,
    args: Seq<ValueRef>,
)
    ensures
        agg.effective().after_step(args).after_inverse(args) == agg.effective(),
        agg.effective().after_step(args).after_inverse(args).spec_value()
            == agg.effective().spec_value(),
{
    F::lemma_inverse_undoes_step(agg.effective(), args);
}

/// A window-capable count of rows.
#[derive(Debug)]
pub struct RowCount {
    count: u64,
}

impl AggregateFunction for RowCount {
    type Return = i64;

    closed spec fn spec_initial() -> Self {
        RowCount { count: 0 }
    }

    closed spec fn spec_default_value() -> i64 {
        0
    }

    closed spec fn after_step(&self, args: Seq<ValueRef>) -> Self {
        RowCount { count: self.count.wrapping_add(1) }
    }

    closed spec fn after_inverse(&self, args: Seq<ValueRef>) -> Self {
        RowCount { count: self.count.wrapping_sub(1) }
    }

    closed spec fn spec_value(&self) -> Result<i64, Error> {
        Ok(self.count as i64)
    }

    proof fn lemma_inverse_undoes_step(s: Self, args: Seq<ValueRef>) {
    }

    fn initial() -> (r: Self) {
        RowCount { count: 0 }
    }

    fn default_value() -> (r: i64) {
        0
    }

    fn step(&mut self, context: &Context, args: &[ValueRef]) {
        self.count = self.count.wrapping_add(1);
    }

    fn value(&self, context: &Context) -> (r: Result<i64, Error>) {
        Ok(#[verifier::truncate] (self.count as i64))
    }

    fn inverse(&mut self, context: &Context, args: &[ValueRef]) {
        self.count = self.count.wrapping_sub(1);
    }
}

} // verus!
