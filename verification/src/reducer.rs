//! Reducers: pure functions from a state and an action to the next state.

use core::marker::PhantomData;
use vstd::prelude::*;

verus! {

/// A reducer computes the next state from the current state and an action.
///
/// A reducer is total and pure: equal states and actions always give equal
/// results. The function that it computes is `next_state`, and `reduce` is
/// bound to return exactly its value.
pub trait Reducible<State, Action> {
    /// The state that follows `state` under `action`.
    spec fn next_state(&self, state: State, action: Action) -> State;

    /// Computes the state that follows `state` under `action`.
    fn reduce(&self, state: &State, action: &Action) -> (next: State)
        ensures
            next == self.next_state(*state, *action),
    ;
}

/// A boxed reducer reduces as the reducer inside the box does. With
/// `Box<dyn Reducible<State, Action>>` this allows reducers of different
/// types to stand in for one another.
impl<State, Action> Reducible<State, Action> for Box<dyn Reducible<State, Action>> {
    open spec fn next_state(&self, state: State, action: Action) -> State {
        (**self).next_state(state, action)
    }

    fn reduce(&self, state: &State, action: &Action) -> (next: State) {
        (**self).reduce(state, action)
    }
}

/// The state reached by applying each reducer of `reducers` in turn, first to
/// last, to the state that the one before it produced, each with the same
/// `action`.
pub open spec fn fold_reducers<State, Action, R: Reducible<State, Action>>(
    reducers: Seq<R>,
    state: State,
    action: Action,
) -> State
    decreases reducers.len(),
{
    if reducers.len() == 0 {
        state
    } else {
        reducers.last().next_state(fold_reducers(reducers.drop_last(), state, action), action)
    }
}

/// Several reducers that act as one: the first reduces the incoming state,
/// and every later one reduces what the one before it returned, all under
/// the same action.
pub struct CombinedReducer<R> {
    first: R,
    rest: Vec<R>,
}

impl<R> View for CombinedReducer<R> {
    type V = Seq<R>;

    /// The reducers in the order in which they are applied.
    closed spec fn view(&self) -> Seq<R> {
        seq![self.first] + self.rest@
    }
}

impl<State, Action, R: Reducible<State, Action>> Reducible<State, Action> for CombinedReducer<R> {
    open spec fn next_state(&self, state: State, action: Action) -> State {
        fold_reducers(self@, state, action)
    }

    fn reduce(&self, state: &State, action: &Action) -> (next: State) {
        let mut current = self.first.reduce(state, action);
        let mut index: usize = 0;
        proof {
            reveal_with_fuel(fold_reducers, 2);
            assert(self@.take(1) =~= seq![self.first]);
            assert(self@.take(1).drop_last() =~= Seq::<R>::empty());
        }
        while index < self.rest.len()
            invariant
                index <= self.rest@.len(),
                self@ == seq![self.first] + self.rest@,
                current == fold_reducers(self@.take(index + 1), *state, *action),
            decreases self.rest@.len() - index,
        {
            proof {
                let upto = self@.take(index + 2);
                assert(upto.drop_last() =~= self@.take(index + 1));
                assert(upto.last() == self.rest@[index as int]);
            }
            current = self.rest[index].reduce(&current, action);
            index += 1;
        }
        proof {
            assert(self@.take(index + 1) =~= self@);
        }
        current
    }
}

/// Combines `first` and the reducers of `rest` into one reducer that applies
/// them in that order.
pub fn combine_reducers<R>(first: R, rest: Vec<R>) -> (combined: CombinedReducer<R>)
    ensures
        combined@ == seq![first] + rest@,
{
    CombinedReducer { first, rest }
}

/// A combination of one reducer reduces as that reducer does.
pub proof fn lemma_fold_one<State, Action, R: Reducible<State, Action>>(
    r1: R,
    state: State,
    action: Action,
)
    ensures
        fold_reducers(seq![r1], state, action) == r1.next_state(state, action),
{
    reveal_with_fuel(fold_reducers, 2);
    assert(seq![r1].drop_last() =~= Seq::<R>::empty());
}

/// Adding a reducer at the end of a combination applies it to what the
/// combination returned.
pub proof fn lemma_fold_push<State, Action, R: Reducible<State, Action>>(
    reducers: Seq<R>,
    last: R,
    state: State,
    action: Action,
)
    ensures
        fold_reducers(reducers.push(last), state, action) == last.next_state(
            fold_reducers(reducers, state, action),
            action,
        ),
{
    assert(reducers.push(last).drop_last() =~= reducers);
}

/// A combination of `r1`, `r2` and `r3`, in this order, takes a state `s`
/// under an action `a` to `r3(r2(r1(s, a), a), a)`.
pub proof fn lemma_combine_three<State, Action, R: Reducible<State, Action>>(
    combined: CombinedReducer<R>,
    r1: R,
    r2: R,
    r3: R,
    state: State,
    action: Action,
)
    requires
        combined@ == seq![r1, r2, r3],
    ensures
        combined.next_state(state, action) == r3.next_state(
            r2.next_state(r1.next_state(state, action), action),
            action,
        ),
{
    lemma_fold_one(r1, state, action);
    lemma_fold_push(seq![r1], r2, state, action);
    lemma_fold_push(seq![r1, r2], r3, state, action);
    assert(seq![r1].push(r2) =~= seq![r1, r2]);
    assert(seq![r1, r2].push(r3) =~= seq![r1, r2, r3]);
}

/// A reducer made of a function or closure.
///
/// The function must accept every state and action and must be
/// deterministic; `new` asks for both, and every value of this type keeps
/// them.
#[verifier::reject_recursive_types(State)]
#[verifier::reject_recursive_types(Action)]
pub struct FnReducer<State, Action, F: Fn(&State, &Action) -> State> {
    function: F,
    marker: PhantomData<(State, Action)>,
}

impl<State, Action, F: Fn(&State, &Action) -> State> FnReducer<State, Action, F> {
    #[verifier::type_invariant]
    spec fn total_and_deterministic(self) -> bool {
        &&& forall|state: &State, action: &Action| call_requires(self.function, (state, action))
        &&& forall|state: &State, action: &Action, first: State, second: State|
            call_ensures(self.function, (state, action), first) && call_ensures(
                self.function,
                (state, action),
                second,
            ) ==> first == second
    }

    /// The function that this reducer calls.
    pub closed spec fn function(&self) -> F {
        self.function
    }

    /// Makes a reducer of `function`. Whatever `function` can return for a
    /// state and an action is the next state of this reducer.
    pub fn new(function: F) -> (reducer: Self)
        requires
            forall|state: &State, action: &Action| call_requires(function, (state, action)),
            forall|state: &State, action: &Action, first: State, second: State|
                call_ensures(function, (state, action), first) && call_ensures(
                    function,
                    (state, action),
                    second,
                ) ==> first == second,
        ensures
            reducer.function() == function,
            forall|state: State, action: Action, next: State|
                call_ensures(function, (&state, &action), next) ==> reducer.next_state(
                    state,
                    action,
                ) == next,
    {
        FnReducer { function, marker: PhantomData }
    }
}

impl<State, Action, F: Fn(&State, &Action) -> State> Reducible<State, Action> for FnReducer<
    State,
    Action,
    F,
> {
    closed spec fn next_state(&self, state: State, action: Action) -> State {
        choose|next: State| call_ensures(self.function, (&state, &action), next)
    }

    fn reduce(&self, state: &State, action: &Action) -> (next: State)
        ensures
            call_ensures(self.function(), (state, action), next),
    {
        proof {
            use_type_invariant(self);
        }
        (self.function)(state, action)
    }
}

} // verus!
