//! A boxed single-argument handler and its type-erased form.
//!
//! `BoxFn` pairs a handler with the one message type it accepts; while that
//! type is still statically known, calling it is fully checked. `erase` folds
//! the handler behind a heap-allocated, dynamically dispatched closure whose
//! argument type is hidden, so that handlers for many different message types
//! can live in one container. The erased form can only be reached again
//! through `HandlerMap`, which always supplies the very type it used to file
//! the handler away.

use vstd::prelude::*;

verus! {

/// A handler for messages of type `A`, held by value.
///
/// This is the pre-erasure handle: the message type is still visible to the
/// type system, so `call` can be checked against the handler's own contract.
pub struct BoxFn<A, F: Fn(A)> {
    f: F,
    _arg: core::marker::PhantomData<A>,
}

impl<A, F: Fn(A)> BoxFn<A, F> {
    /// The handler held inside.
    pub closed spec fn callable(self) -> F {
        self.f
    }

    /// Wraps a handler, fixing the message type it accepts.
    pub fn new(f: F) -> (r: Self)
        ensures
            r.callable() == f,
    {
        BoxFn { f, _arg: core::marker::PhantomData }
    }

    /// Calls the handler with the given message.
    pub fn call(&self, arg: A)
        requires
            call_requires(self.callable(), (arg,)),
        ensures
            call_ensures(self.callable(), (arg,), ()),
    {
        (self.f)(arg)
    }
}

/// A handler whose message type has been erased.
///
/// Values of this type are opaque: the only thing that can still be done with
/// one is to hand it a message through `call_erased`, or to drop it, which
/// releases the handler and whatever it captured exactly once. It exists so
/// that handlers for different message types can share one container.
///
/// Relies on `Box<dyn Fn(Box<dyn Any>)>`: the box owns the one heap
/// allocation holding the handler, dynamic dispatch keeps invocation and
/// teardown paired with the handler's concrete shape, and dropping the box
/// runs the handler's own teardown exactly once.
#[verifier::external_body]
pub struct ErasedFn {
    inner: Box<dyn Fn(Box<dyn core::any::Any>)>,
}

impl<A: 'static, F: Fn(A) + 'static> BoxFn<A, F> {
    /// Erases the message type, folding the handler behind a dynamically
    /// dispatched closure.
    ///
    /// Relies on `Any::downcast`: the returned value, given a message of type
    /// `A`, unwraps it and runs the handler on it; given a message of any
    /// other type it does nothing. The handler must accept every message of
    /// its type, since the erased form can no longer check a precondition.
    #[verifier::external_body]
    pub fn erase(self) -> ErasedFn
        requires
            forall|m: A| call_requires(self.callable(), (m,)),
    {
        let f = self.f;
        ErasedFn {
            inner: Box::new(move |msg: Box<dyn core::any::Any>| {
                if let Ok(msg) = msg.downcast::<A>() {
                    f(*msg);
                }
            }),
        }
    }
}

impl ErasedFn {
    /// Calls the erased handler with the given message.
    ///
    /// Relies on `Box<dyn Fn>` dispatch: the stored closure runs once on the
    /// boxed message, and runs the handler itself exactly when the message's
    /// type is the one the handler was created for. `HandlerMap` is the only
    /// caller, and it always supplies the type under which it filed the
    /// handler away.
    #[verifier::external_body]
    pub(crate) fn call_erased<T: 'static>(&self, msg: T) {
        (self.inner)(Box::new(msg));
    }
}

} // verus!
