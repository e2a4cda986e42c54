//! Registered callbacks.
//!
//! A callback handed to the native library is kept here under a token, and
//! the native side is given the token rather than an address. A trampoline
//! looks the callback up by its token; removing a listener takes the callback
//! out, after which its token finds nothing.

use vstd::prelude::*;

verus! {

/// Callbacks by token. A token is never given out twice.
pub struct CallbackRegistry<T> {
    slots: Vec<Option<T>>,
}

impl<T> View for CallbackRegistry<T> {
    type V = Seq<Option<T>>;

    closed spec fn view(&self) -> Seq<Option<T>> {
        self.slots@
    }
}

/// The registry after registering `callback`: one more slot, holding it.
pub open spec fn registered<T>(before: Seq<Option<T>>, callback: T) -> Seq<Option<T>> {
    before.push(Some(callback))
}

impl<T> CallbackRegistry<T> {
    /// A registry with no callbacks.
    pub fn new() -> (r: CallbackRegistry<T>)
        ensures
            r@ == Seq::<Option<T>>::empty(),
    {
        CallbackRegistry { slots: Vec::new() }
    }

    /// Keeps `callback` under a new token, which is returned.
    pub fn register(&mut self, callback: T) -> (token: usize)
        ensures
            token == old(self)@.len(),
            final(self)@ == registered(old(self)@, callback),
    {
        let token = self.slots.len();
        self.slots.push(Some(callback));
        token
    }

    /// The callback kept under `token`, if it is still registered.
    pub fn get(&self, token: usize) -> (r: Option<&T>)
        ensures
            token < self@.len() ==> r == match self@[token as int] {
                Some(c) => Some(&c),
                None => None::<&T>,
            },
            token >= self@.len() ==> r is None,
    {
        if token < self.slots.len() {
            match &self.slots[token] {
                Some(c) => Some(c),
                None => None,
            }
        } else {
            None
        }
    }

    /// Takes the callback under `token` out of the registry and returns it;
    /// the token finds nothing afterwards, and no other slot changes.
    pub fn unregister(&mut self, token: usize) -> (r: Option<T>)
        ensures
            token < old(self)@.len() ==> r == old(self)@[token as int] && final(self)@ == old(
                self,
            )@.update(token as int, None),
            token >= old(self)@.len() ==> r is None && final(self)@ == old(self)@,
    {
        if token < self.slots.len() {
            let mut taken: Option<T> = None;
            std::mem::swap(&mut taken, &mut self.slots[token]);
            taken
        } else {
            None
        }
    }

    /// Whether a callback is kept under `token`.
    pub fn is_registered(&self, token: usize) -> (r: bool)
        ensures
            r == (token < self@.len() && self@[token as int] is Some),
    {
        token < self.slots.len() && self.slots[token].is_some()
    }
}

/// A callback just registered is found under its token; after it is
/// unregistered the token finds nothing, and other tokens are untouched.
pub proof fn lemma_register_unregister<T>(before: Seq<Option<T>>, callback: T, other: int)
    requires
        0 <= other < before.len(),
    ensures
        registered(before, callback)[before.len() as int] == Some(callback),
        registered(before, callback).update(before.len() as int, None)[before.len() as int] is None,
        registered(before, callback).update(before.len() as int, None)[other] == before[other],
{
}

} // verus!
