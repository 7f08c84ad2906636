//! Middleware: interceptors that may rewrite or veto an action before it
//! reaches the reducer.

use core::marker::PhantomData;
use vstd::prelude::*;

verus! {

/// What a middleware may see of a store: its current state, read only.
pub struct StoreView<'a, State> {
    state: &'a State,
}

impl<'a, State> View for StoreView<'a, State> {
    type V = State;

    /// The state of the store that is viewed.
    closed spec fn view(&self) -> State {
        *self.state
    }
}

impl<'a, State> StoreView<'a, State> {
    /// A view of a store whose current state is `state`.
    pub fn new(state: &'a State) -> (view: Self)
        ensures
            view@ == *state,
    {
        StoreView { state }
    }

    /// Returns the current state.
    pub fn state(&self) -> (state: &State)
        ensures
            *state == self@,
    {
        self.state
    }
}

/// A middleware sees every dispatched action before the reducer does. It
/// answers `Some` with the action that goes on to the next stage, which may
/// be another than the one it was given, or `None` to stop the dispatch.
///
/// The answer is a function of the store's state and the action alone:
/// `intercept` is that function, and `next` is bound to return its value.
pub trait Middleware<State, Action> {
    /// The answer of this middleware to `action` while the store holds
    /// `state`.
    spec fn intercept(&self, state: State, action: Action) -> Option<Action>;

    /// Decides what becomes of `action`.
    fn next(&self, store: &StoreView<'_, State>, action: Action) -> (out: Option<Action>)
        ensures
            out == self.intercept(store@, action),
    ;
}

/// A boxed middleware answers as the middleware inside the box does.
impl<State, Action> Middleware<State, Action> for Box<dyn Middleware<State, Action>> {
    open spec fn intercept(&self, state: State, action: Action) -> Option<Action> {
        (**self).intercept(state, action)
    }

    fn next(&self, store: &StoreView<'_, State>, action: Action) -> (out: Option<Action>) {
        (**self).next(store, action)
    }
}

/// The action that leaves the chain `middleware` when `action` enters it at
/// position `from` while the store holds `state`: each middleware from there
/// on is given what the one before it answered, and `None` as soon as one of
/// them answers `None`.
pub open spec fn chain_from<State, Action, M: Middleware<State, Action>>(
    middleware: Seq<M>,
    from: int,
    state: State,
    action: Action,
) -> Option<Action>
    decreases middleware.len() - from,
{
    if 0 <= from < middleware.len() {
        match middleware[from].intercept(state, action) {
            Some(rewritten) => chain_from(middleware, from + 1, state, rewritten),
            None => None,
        }
    } else {
        Some(action)
    }
}

/// The action that is handed to the middleware at position `at` when `action`
/// enters the chain at its start, or `None` if an earlier middleware stopped
/// the dispatch.
pub open spec fn arriving<State, Action, M: Middleware<State, Action>>(
    middleware: Seq<M>,
    at: int,
    state: State,
    action: Action,
) -> Option<Action>
    decreases at,
{
    if 0 < at <= middleware.len() {
        match arriving(middleware, at - 1, state, action) {
            Some(given) => middleware[at - 1].intercept(state, given),
            None => None,
        }
    } else {
        Some(action)
    }
}

/// What leaves the whole chain is what leaves the rest of the chain from any
/// position on, given the action that arrives there.
pub proof fn lemma_chain_split<State, Action, M: Middleware<State, Action>>(
    middleware: Seq<M>,
    at: int,
    state: State,
    action: Action,
)
    requires
        0 <= at <= middleware.len(),
    ensures
        chain_from(middleware, 0, state, action) == match arriving(middleware, at, state, action) {
            Some(given) => chain_from(middleware, at, state, given),
            None => None,
        },
    decreases at,
{
    if at > 0 {
        lemma_chain_split(middleware, at - 1, state, action);
    }
}

/// A middleware made of a function or closure from a view of the store and
/// the action to the answer.
///
/// The function must accept every view and action and must be
/// deterministic; `new` asks for both, and every value of this type keeps
/// them.
#[verifier::reject_recursive_types(State)]
#[verifier::reject_recursive_types(Action)]
pub struct FnMiddleware<State, Action, F: Fn(&StoreView<'_, State>, Action) -> Option<Action>> {
    function: F,
    marker: PhantomData<(State, Action)>,
}

impl<State, Action, F: Fn(&StoreView<'_, State>, Action) -> Option<Action>> FnMiddleware<
    State,
    Action,
    F,
> {
    #[verifier::type_invariant]
    spec fn total_and_deterministic(self) -> bool {
        &&& forall|store: &StoreView<'_, State>, action: Action|
            call_requires(self.function, (store, action))
        &&& forall|
            store: &StoreView<'_, State>,
            action: Action,
            first: Option<Action>,
            second: Option<Action>,
        |
            call_ensures(self.function, (store, action), first) && call_ensures(
                self.function,
                (store, action),
                second,
            ) ==> first == second
    }

    /// The function that this middleware calls.
    pub closed spec fn function(&self) -> F {
        self.function
    }

    /// Makes a middleware of `function`. Whatever `function` can return for
    /// a view of the store and an action is the answer of this middleware.
    pub fn new(function: F) -> (middleware: Self)
        requires
            forall|store: &StoreView<'_, State>, action: Action|
                call_requires(function, (store, action)),
            forall|
                store: &StoreView<'_, State>,
                action: Action,
                first: Option<Action>,
                second: Option<Action>,
            |
                call_ensures(function, (store, action), first) && call_ensures(
                    function,
                    (store, action),
                    second,
                ) ==> first == second,
        ensures
            middleware.function() == function,
            forall|store: &StoreView<'_, State>, action: Action, out: Option<Action>|
                call_ensures(function, (store, action), out) ==> middleware.intercept(
                    store@,
                    action,
                ) == out,
    {
        FnMiddleware { function, marker: PhantomData }
    }
}

impl<State, Action, F: Fn(&StoreView<'_, State>, Action) -> Option<Action>> Middleware<
    State,
    Action,
> for FnMiddleware<State, Action, F> {
    closed spec fn intercept(&self, state: State, action: Action) -> Option<Action> {
        choose|out: Option<Action>|
            call_ensures(self.function, (&StoreView { state: &state }, action), out)
    }

    fn next(&self, store: &StoreView<'_, State>, action: Action) -> (out: Option<Action>)
        ensures
            call_ensures(self.function(), (store, action), out),
    {
        proof {
            use_type_invariant(self);
        }
        (self.function)(store, action)
    }
}

} // verus!
