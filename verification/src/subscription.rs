//! Subscriptions: callbacks that are told of every new state.

use vstd::prelude::*;

verus! {

/// A subscription is notified of the new state after every dispatch that
/// reached the reducer.
///
/// What a subscription has been told is kept as a history, `received`, so
/// that a store can state exactly which notifications it has made.
pub trait Subscription<State> {
    /// The states of which this subscription has been notified, oldest first.
    spec fn received(&self) -> Seq<State>;

    /// Tells the subscription that the state is now `state`.
    fn notify(&mut self, state: &State)
        ensures
            final(self).received() == old(self).received().push(*state),
    ;
}

/// A boxed subscription is notified as the subscription inside the box is.
impl<State> Subscription<State> for Box<dyn Subscription<State>> {
    open spec fn received(&self) -> Seq<State> {
        (**self).received()
    }

    fn notify(&mut self, state: &State) {
        (**self).notify(state)
    }
}

/// A subscription made of a function or closure that is called with every
/// new state.
///
/// The function must accept every state; `new` asks for that, and every
/// value of this type keeps it.
#[verifier::reject_recursive_types(State)]
pub struct FnSubscription<State, F: Fn(&State)> {
    callback: F,
    history: Ghost<Seq<State>>,
}

impl<State, F: Fn(&State)> FnSubscription<State, F> {
    #[verifier::type_invariant]
    spec fn total(self) -> bool {
        forall|state: &State| call_requires(self.callback, (state,))
    }

    /// The function that this subscription calls.
    pub closed spec fn callback(&self) -> F {
        self.callback
    }

    /// Makes a subscription of `callback`. It has been notified of nothing
    /// yet.
    pub fn new(callback: F) -> (subscription: Self)
        requires
            forall|state: &State| call_requires(callback, (state,)),
        ensures
            subscription.callback() == callback,
            subscription.received() == Seq::<State>::empty(),
    {
        FnSubscription { callback, history: Ghost(Seq::empty()) }
    }
}

impl<State, F: Fn(&State)> Subscription<State> for FnSubscription<State, F> {
    closed spec fn received(&self) -> Seq<State> {
        self.history@
    }

    fn notify(&mut self, state: &State)
        ensures
            final(self).callback() == old(self).callback(),
            call_ensures(old(self).callback(), (state,), ()),
    {
        proof {
            use_type_invariant(&*self);
        }
        (self.callback)(state);
        self.history = Ghost(self.history@.push(*state));
    }
}

} // verus!
