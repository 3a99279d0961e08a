use crate::error::Error;
use crate::value::ValueRef;
use vstd::prelude::*;

verus! {

/// A result reported through a function context.
#[derive(Clone, Debug, PartialEq, Eq)]
pub enum ContextValue {
    Int(i32),
    Int64(i64),
    /// An error: the status code and the message.
    Failure(i32, String),
}

/// The context of one function invocation, through which its result is reported.
///
/// Setting a result again replaces the earlier one: the last call wins.
#[derive(Debug)]
pub struct Context {
    base: usize,
    result: Option<ContextValue>,
}

impl Context {
    /// The engine handle of the invocation.
    pub closed spec fn handle(&self) -> usize {
        self.base
    }

    /// The result reported so far, if any.
    pub closed spec fn reported(&self) -> Option<ContextValue> {
        self.result
    }

    /// The context of the invocation with engine handle `base`, with no result yet.
    pub fn new(base: usize) -> (r: Context)
        ensures
            r.handle() == base,
            r.reported() is None,
    {
        Context { base, result: None }
    }

    /// Get the underlying engine handle.
    pub fn as_ptr(&self) -> (r: usize)
        ensures
            r == self.handle(),
    {
        self.base
    }

    /// The result reported so far, if any.
    pub fn result(&self) -> (r: &Option<ContextValue>)
        ensures
            *r == self.reported(),
    {
        &self.result
    }

    /// Reports `val` as the result of the invocation, replacing any earlier result.
    pub fn set_result<T: ToContextResult>(&mut self, val: T)
        ensures
            val.assigned(final(self).reported()),
            final(self).handle() == old(self).handle(),
    {
        val.assign_to(self);
    }

    /// Records `v` as the result.
    fn report(&mut self, v: ContextValue)
        ensures
            final(self).reported() == Some(v),
            final(self).handle() == old(self).handle(),
    {
        self.result = Some(v);
    }
}

/// A value that can be reported as the result of a function.
pub trait ToContextResult {
    /// `r` is what reporting this value leaves in a context.
    spec fn assigned(&self, r: Option<ContextValue>) -> bool;

    fn assign_to(&self, context: &mut Context)
        ensures
            self.assigned(final(context).reported()),
            final(context).handle() == old(context).handle(),
    ;
}

impl ToContextResult for i32 {
    open spec fn assigned(&self, r: Option<ContextValue>) -> bool {
        r == Some(ContextValue::Int(*self))
    }

    fn assign_to(&self, context: &mut Context) {
        context.report(ContextValue::Int(*self));
    }
}

impl ToContextResult for i64 {
    open spec fn assigned(&self, r: Option<ContextValue>) -> bool {
        r == Some(ContextValue::Int64(*self))
    }

    fn assign_to(&self, context: &mut Context) {
        context.report(ContextValue::Int64(*self));
    }
}

/// A fallible result reports either its value or its error, never both.
impl<T: ToContextResult> ToContextResult for Result<T, Error> {
    open spec fn assigned(&self, r: Option<ContextValue>) -> bool {
        match self {
            Ok(t) => t.assigned(r),
            Err(e) => r matches Some(ContextValue::Failure(c, m)) && c == e.code_spec() && m@
                == e.message_spec(None),
        }
    }

    fn assign_to(&self, context: &mut Context) {
        match self {
            Ok(t) => t.assign_to(context),
            Err(e) => {
                let m = e.message(None);
                let c = e.code();
                context.report(ContextValue::Failure(c, m));
            },
        }
    }
}

/// A scalar SQL function: called with the invocation's context and arguments, it
/// returns the result to report or an error.
pub trait ScalarFunction<T: ToContextResult>: Fn(&Context, &[ValueRef]) -> Result<T, Error> {

}

impl<T: ToContextResult, X: Fn(&Context, &[ValueRef]) -> Result<T, Error>> ScalarFunction<T> for X {

}

/// One invocation of a scalar function: calls `func` with the context and the
/// arguments, then reports what it returned, its value or its error, through the
/// context.
pub fn call_scalar<T: ToContextResult, F: ScalarFunction<T>>(
    func: &F,
    context: &mut Context,
    args: &[ValueRef],
)
    requires
        call_requires(*func, (&*old(context), args)),
    ensures
        exists|ret: Result<T, Error>|
            call_ensures(*func, (&*old(context), args), ret) && ret.assigned(
                final(context).reported(),
            ),
        final(context).handle() == old(context).handle(),
{
    let ret = func(&*context, args);
    context.set_result(ret);
}

} // verus!
