//! The store: the owner of the state and the entry point of every dispatch.

use crate::middleware::chain_from;
use crate::middleware::Middleware;
use crate::middleware::StoreView;
use crate::model::StoreModel;
use crate::reducer::Reducible;
use crate::subscription::Subscription;
use core::marker::PhantomData;
use vstd::prelude::*;

verus! {

/// A container that holds a state and changes it only by dispatching actions
/// to its reducer.
///
/// A store is defined by the state it holds and the actions it can dispatch.
/// By default its reducer, middleware and subscriptions are boxed trait
/// objects, so that values of different types can be registered with one
/// store.
///
/// A dispatch runs to its end before the next one can begin: the store is
/// borrowed exclusively for the whole dispatch, a middleware is handed a
/// read-only view of it and a subscription the new state, so neither can
/// dispatch to the store that is calling it.
pub struct Store<
    State,
    Action,
    R = Box<dyn Reducible<State, Action>>,
    M = Box<dyn Middleware<State, Action>>,
    S = Box<dyn Subscription<State>>,
> {
    reducer: R,
    state: State,
    middleware: Vec<M>,
    subscriptions: Vec<S>,
    action: PhantomData<Action>,
}

impl<State, Action, R, M, S> View for Store<State, Action, R, M, S> where S: Subscription<State> {
    type V = StoreModel<State, R, M>;

    closed spec fn view(&self) -> StoreModel<State, R, M> {
        StoreModel {
            state: self.state,
            reducer: self.reducer,
            middleware: self.middleware@,
            received: Seq::new(
                self.subscriptions@.len(),
                |i: int| self.subscriptions@[i].received(),
            ),
        }
    }
}

impl<State, Action, R, M, S> Store<State, Action, R, M, S> where
    R: Reducible<State, Action>,
    M: Middleware<State, Action>,
    S: Subscription<State>,
 {
    /// Creates a store with the given reducer and state, without middleware
    /// and without subscriptions.
    pub fn new(reducer: R, initial_state: State) -> (store: Self)
        ensures
            store@ == StoreModel::<State, R, M>::initial(reducer, initial_state),
    {
        let store = Store {
            reducer,
            state: initial_state,
            middleware: Vec::new(),
            subscriptions: Vec::new(),
            action: PhantomData,
        };
        assert(store@.received =~= Seq::empty());
        store
    }

    /// Returns the current state.
    pub fn state(&self) -> (state: &State)
        ensures
            *state == self@.state,
    {
        &self.state
    }

    /// Dispatches an action: the middleware see it in the order of their
    /// registration, and unless one of them stops it, the reducer replaces
    /// the state and every subscription is notified of the new state.
    pub fn dispatch(&mut self, action: Action)
        ensures
            final(self)@ == old(self)@.dispatch(action),
    {
        if self.middleware.is_empty() {
            self.dispatch_reducer(&action);
        } else {
            self.dispatch_middleware(0, action);
        }
    }

    /// Hands `action` to the middleware at `index` and to those behind it,
    /// and then to the reducer unless one of them stops it.
    fn dispatch_middleware(&mut self, index: usize, action: Action)
        requires
            index <= old(self)@.middleware.len(),
        ensures
            final(self)@ == old(self)@.dispatch_from(index as int, action),
    {
        let mut pending = action;
        let mut position = index;
        while position < self.middleware.len()
            invariant
                *self == *old(self),
                index <= position <= self.middleware@.len(),
                chain_from(self.middleware@, position as int, self.state, pending) == chain_from(
                    self.middleware@,
                    index as int,
                    self.state,
                    action,
                ),
            decreases self.middleware@.len() - position,
        {
            let view = StoreView::new(&self.state);
            match self.middleware[position].next(&view, pending) {
                Some(rewritten) => {
                    pending = rewritten;
                    position += 1;
                },
                None => {
                    return ;
                },
            }
        }
        self.dispatch_reducer(&pending);
    }

    /// Replaces the state by what the reducer makes of it and `action`, and
    /// notifies the subscriptions.
    fn dispatch_reducer(&mut self, action: &Action)
        ensures
            final(self)@ == old(self)@.settle(*action),
    {
        self.state = self.reducer.reduce(&self.state, action);
        self.dispatch_subscriptions();
    }

    /// Notifies every subscription, in the order of registration, of the
    /// current state.
    fn dispatch_subscriptions(&mut self)
        ensures
            final(self)@ == old(self)@.notify_all(),
    {
        let count = self.subscriptions.len();
        let mut index: usize = 0;
        while index < count
            invariant
                index <= count,
                count == self.subscriptions@.len(),
                count == old(self).subscriptions@.len(),
                self.state == old(self).state,
                self.reducer == old(self).reducer,
                self.middleware == old(self).middleware,
                forall|i: int|
                    0 <= i < index ==> self.subscriptions@[i].received() == old(
                        self,
                    ).subscriptions@[i].received().push(self.state),
                forall|i: int| index <= i < count ==> self.subscriptions@[i] == old(self).subscriptions@[i],
            decreases count - index,
        {
            self.subscriptions[index].notify(&self.state);
            index += 1;
        }
        assert(self@.received =~= old(self)@.notify_all().received);
    }

    /// Registers a subscription behind those that are there. From now on it
    /// is notified of the new state after every dispatch that reached the
    /// reducer.
    pub fn subscribe(&mut self, callback: S)
        ensures
            final(self)@ == old(self)@.subscribe(callback.received()),
    {
        self.subscriptions.push(callback);
        assert(self@.received =~= old(self)@.received.push(callback.received()));
    }

    /// Registers a middleware behind those that are there.
    pub fn add_middleware(&mut self, middleware: M)
        ensures
            final(self)@ == old(self)@.add_middleware(middleware),
    {
        self.middleware.push(middleware);
    }

    /// Replaces the reducer. Every later dispatch uses `reducer`.
    pub fn replace_reducer(&mut self, reducer: R)
        ensures
            final(self)@ == old(self)@.replace_reducer(reducer),
    {
        self.reducer = reducer;
    }
}

} // verus!
