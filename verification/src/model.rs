//! The mathematical model of a store and of its transitions.

use crate::middleware::arriving;
use crate::middleware::chain_from;
use crate::middleware::lemma_chain_split;
use crate::middleware::Middleware;
use crate::reducer::Reducible;
use vstd::prelude::*;

verus! {

/// What a store is, as a value: its state, its reducer, its middleware in
/// the order of registration, and, for each subscription in the order of
/// registration, the states of which that subscription has been notified.
pub struct StoreModel<State, R, M> {
    pub state: State,
    pub reducer: R,
    pub middleware: Seq<M>,
    pub received: Seq<Seq<State>>,
}

impl<State, R, M> StoreModel<State, R, M> {
    /// A store with the given reducer and state, without middleware and
    /// without subscriptions.
    pub open spec fn initial(reducer: R, state: State) -> Self {
        StoreModel { state, reducer, middleware: Seq::empty(), received: Seq::empty() }
    }

    /// The store after a subscription with the history `history` has been
    /// registered behind those that are there.
    pub open spec fn subscribe(self, history: Seq<State>) -> Self {
        StoreModel { received: self.received.push(history), ..self }
    }

    /// The store after `middleware` has been registered behind those that
    /// are there.
    pub open spec fn add_middleware(self, middleware: M) -> Self {
        StoreModel { middleware: self.middleware.push(middleware), ..self }
    }

    /// The store with `reducer` in place of its reducer.
    pub open spec fn replace_reducer(self, reducer: R) -> Self {
        StoreModel { reducer, ..self }
    }

    /// The store after each subscription has been notified, once, of the
    /// current state.
    pub open spec fn notify_all(self) -> Self {
        StoreModel {
            received: Seq::new(self.received.len(), |i: int| self.received[i].push(self.state)),
            ..self
        }
    }

    /// The store after `action` has reached the reducer: the state is what
    /// the reducer makes of the old state and `action`, and every
    /// subscription has been notified of it.
    pub open spec fn settle<Action>(self, action: Action) -> Self where
        R: Reducible<State, Action>,
     {
        (StoreModel { state: self.reducer.next_state(self.state, action), ..self }).notify_all()
    }

    /// The action that reaches the reducer when `action` is dispatched, or
    /// `None` if a middleware stops it.
    pub open spec fn admitted<Action>(self, action: Action) -> Option<Action> where
        M: Middleware<State, Action>,
     {
        chain_from(self.middleware, 0, self.state, action)
    }

    /// The store after `action` has been handed to the middleware at
    /// position `from` and has gone on from there.
    pub open spec fn dispatch_from<Action>(self, from: int, action: Action) -> Self where
        R: Reducible<State, Action>,
        M: Middleware<State, Action>,
     {
        match chain_from(self.middleware, from, self.state, action) {
            Some(admitted) => self.settle(admitted),
            None => self,
        }
    }

    /// The store after `action` has been dispatched: if the middleware let
    /// an action through, the store after that action has reached the
    /// reducer, and the same store otherwise.
    pub open spec fn dispatch<Action>(self, action: Action) -> Self where
        R: Reducible<State, Action>,
        M: Middleware<State, Action>,
     {
        self.dispatch_from(0, action)
    }
}

/// A dispatch to a store without middleware replaces the state by what the
/// reducer makes of the state and the dispatched action itself.
pub proof fn lemma_dispatch_without_middleware<State, Action, R, M>(
    store: StoreModel<State, R, M>,
    action: Action,
) where R: Reducible<State, Action>, M: Middleware<State, Action>
    requires
        store.middleware.len() == 0,
    ensures
        store.admitted(action) == Some(action),
        store.dispatch(action) == store.settle(action),
        store.dispatch(action).state == store.reducer.next_state(store.state, action),
{
}

/// If the middleware at some position answers `None` to the action that
/// arrives there, the dispatch changes nothing: the state stays what it was
/// and no subscription is notified.
pub proof fn lemma_veto_changes_nothing<State, Action, R, M>(
    store: StoreModel<State, R, M>,
    action: Action,
    at: int,
) where R: Reducible<State, Action>, M: Middleware<State, Action>
    requires
        0 <= at < store.middleware.len(),
        arriving(store.middleware, at, store.state, action) matches Some(given)
            && store.middleware[at].intercept(store.state, given) is None,
    ensures
        store.admitted(action) is None,
        store.dispatch(action) == store,
{
    lemma_chain_split(store.middleware, at, store.state, action);
}

/// The middleware stop a dispatch only if one of them answers `None` to the
/// action that arrives at it.
pub proof fn lemma_veto_has_a_source<State, Action, R, M>(
    store: StoreModel<State, R, M>,
    action: Action,
) -> (at: int) where R: Reducible<State, Action>, M: Middleware<State, Action>
    requires
        store.admitted(action) is None,
    ensures
        0 <= at < store.middleware.len(),
        arriving(store.middleware, at, store.state, action) matches Some(given)
            && store.middleware[at].intercept(store.state, given) is None,
{
    lemma_chain_split(store.middleware, store.middleware.len() as int, store.state, action);
    lemma_first_veto(store.middleware, store.middleware.len() as int, store.state, action)
}

/// If nothing arrives at position `upto` of the chain, a middleware before
/// that position has answered `None` to what arrived at it.
proof fn lemma_first_veto<State, Action, M: Middleware<State, Action>>(
    middleware: Seq<M>,
    upto: int,
    state: State,
    action: Action,
) -> (at: int)
    requires
        0 <= upto <= middleware.len(),
        arriving(middleware, upto, state, action) is None,
    ensures
        0 <= at < upto,
        arriving(middleware, at, state, action) matches Some(given) && middleware[at].intercept(
            state,
            given,
        ) is None,
    decreases upto,
{
    if arriving(middleware, upto - 1, state, action) is None {
        lemma_first_veto(middleware, upto - 1, state, action)
    } else {
        upto - 1
    }
}

/// If the middleware at some position answers the action that arrives there
/// with `Some(rewritten)`, then `rewritten` is what every later middleware
/// and the reducer are given: the dispatch ends as if `rewritten` had been
/// handed to the next position directly.
pub proof fn lemma_rewritten_action_goes_on<State, Action, R, M>(
    store: StoreModel<State, R, M>,
    action: Action,
    at: int,
    rewritten: Action,
) where R: Reducible<State, Action>, M: Middleware<State, Action>
    requires
        0 <= at < store.middleware.len(),
        arriving(store.middleware, at, store.state, action) matches Some(given)
            && store.middleware[at].intercept(store.state, given) == Some(rewritten),
    ensures
        arriving(store.middleware, at + 1, store.state, action) == Some(rewritten),
        store.admitted(action) == chain_from(store.middleware, at + 1, store.state, rewritten),
        store.dispatch(action) == store.dispatch_from(at + 1, rewritten),
{
    lemma_chain_split(store.middleware, at, store.state, action);
}

/// What the reducer is given is what arrives behind the last middleware.
pub proof fn lemma_admitted_is_last_arrival<State, Action, R, M>(
    store: StoreModel<State, R, M>,
    action: Action,
) where R: Reducible<State, Action>, M: Middleware<State, Action>
    ensures
        store.admitted(action) == arriving(
            store.middleware,
            store.middleware.len() as int,
            store.state,
            action,
        ),
{
    lemma_chain_split(store.middleware, store.middleware.len() as int, store.state, action);
}

/// A dispatch that no middleware stops notifies every subscription exactly
/// once, of the state that the reducer returned: each history grows by that
/// one state, and no subscription is added or lost.
pub proof fn lemma_dispatch_notifies_each_once<State, Action, R, M>(
    store: StoreModel<State, R, M>,
    action: Action,
    admitted: Action,
    subscription: int,
) where R: Reducible<State, Action>, M: Middleware<State, Action>
    requires
        store.admitted(action) == Some(admitted),
        0 <= subscription < store.received.len(),
    ensures
        store.dispatch(action).state == store.reducer.next_state(store.state, admitted),
        store.dispatch(action).received.len() == store.received.len(),
        store.dispatch(action).received[subscription] == store.received[subscription].push(
            store.dispatch(action).state,
        ),
{
}

/// A dispatch changes neither the reducer nor the middleware, nor does it
/// add or remove a subscription.
pub proof fn lemma_dispatch_keeps_registrations<State, Action, R, M>(
    store: StoreModel<State, R, M>,
    action: Action,
) where R: Reducible<State, Action>, M: Middleware<State, Action>
    ensures
        store.dispatch(action).reducer == store.reducer,
        store.dispatch(action).middleware == store.middleware,
        store.dispatch(action).received.len() == store.received.len(),
{
}

/// After the reducer has been replaced, a dispatch uses the new reducer,
/// while a dispatch before the replacement used the one that was there. The
/// replacement itself changes neither the state nor what the middleware
/// admit, and the new reducer stays in place through every dispatch.
pub proof fn lemma_replaced_reducer_is_used<State, Action, R, M>(
    store: StoreModel<State, R, M>,
    reducer: R,
    before: Action,
    after: Action,
) where R: Reducible<State, Action>, M: Middleware<State, Action>
    ensures
        store.admitted(before) matches Some(admitted) ==> store.dispatch(before).state
            == store.reducer.next_state(store.state, admitted),
        store.dispatch(before).replace_reducer(reducer).state == store.dispatch(before).state,
        store.dispatch(before).replace_reducer(reducer).admitted(after) == store.dispatch(
            before,
        ).admitted(after),
        store.dispatch(before).replace_reducer(reducer).admitted(after) matches Some(admitted)
            ==> store.dispatch(before).replace_reducer(reducer).dispatch(after).state
            == reducer.next_state(store.dispatch(before).state, admitted),
        store.dispatch(before).replace_reducer(reducer).dispatch(after).reducer == reducer,
{
}

/// Registering a subscription or a middleware and replacing the reducer
/// leave the state as it is and notify no subscription.
pub proof fn lemma_registration_keeps_state<State, R, M>(
    store: StoreModel<State, R, M>,
    history: Seq<State>,
    middleware: M,
    reducer: R,
    subscription: int,
)
    requires
        0 <= subscription < store.received.len(),
    ensures
        store.subscribe(history).state == store.state,
        store.subscribe(history).received[subscription] == store.received[subscription],
        store.add_middleware(middleware).state == store.state,
        store.add_middleware(middleware).received == store.received,
        store.replace_reducer(reducer).state == store.state,
        store.replace_reducer(reducer).received == store.received,
{
}

} // verus!
