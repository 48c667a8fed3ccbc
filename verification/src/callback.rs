//! The user's callback and the context that travels with it.

use crate::error::Error;
use vstd::prelude::*;

verus! {

/// A place for the callback that a user registers and for the optional
/// context that is handed to it with every event.
///
/// Native callbacks must never unwind into the native library, so delivering
/// an event cannot fail: where no callback is registered the event is
/// dropped, and [`UserCallback::invoke_callback`] says so in its result.
pub struct UserCallback<F, C> {
    callback: Option<F>,
    user_context: Option<C>,
}

impl<F, C> UserCallback<F, C> {
    /// The registered callback.
    pub closed spec fn callback(&self) -> Option<F> {
        self.callback
    }

    /// Whether a callback is registered.
    pub open spec fn is_set(&self) -> bool {
        self.callback() is Some
    }

    /// The user context.
    pub closed spec fn user_context(&self) -> Option<C> {
        self.user_context
    }

    /// A slot without callback and without context.
    pub fn new() -> (slot: Self)
        ensures
            slot.callback() is None,
            slot.user_context() is None,
    {
        Self { callback: None, user_context: None }
    }

    /// Registers `callback`, in place of the one registered before, if any.
    pub fn set_callback(&mut self, callback: F)
        ensures
            final(self).callback() == Some(callback),
            final(self).user_context() == old(self).user_context(),
    {
        self.callback = Some(callback);
    }

    /// Sets the optional user context to pass through to the callback.
    pub fn set_context(&mut self, context: C)
        ensures
            final(self).user_context() == Some(context),
            final(self).callback() == old(self).callback(),
    {
        self.user_context = Some(context);
    }

    /// Returns the optional user context to pass through to the callback.
    pub fn context(&self) -> (context: Option<&C>)
        ensures
            context is Some == self.user_context() is Some,
            context matches Some(c) ==> *c == self.user_context()->0,
    {
        self.user_context.as_ref()
    }

    /// Whether a callback is registered.
    pub fn has_callback(&self) -> (set: bool)
        ensures
            set == self.is_set(),
    {
        self.callback.is_some()
    }
}

impl<F, C: Clone> UserCallback<F, C> {
    /// Hands `result` to the registered callback, together with a clone of
    /// the user context. Returns whether a callback was registered; where
    /// none was, nothing is called and `result` is dropped.
    pub fn invoke_callback<E>(&self, result: Result<E, Error>) -> (invoked: bool) where
        F: Fn(Result<E, Error>, Option<C>),

        requires
            self.callback() matches Some(f) ==> forall|context: Option<C>|
                f.requires((result, context)),
        ensures
            invoked == self.is_set(),
            self.callback() matches Some(f) ==> exists|context: Option<C>|
                {
                    &&& #[trigger] f.ensures((result, context), ())
                    &&& context is Some == self.user_context() is Some
                    &&& context matches Some(c) ==> cloned(self.user_context()->0, c)
                },
    {
        match &self.callback {
            Some(f) => {
                let context = self.user_context.clone();
                f(result, context);
                true
            },
            None => false,
        }
    }
}

} // verus!
