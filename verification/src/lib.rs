//! A unidirectional state container.
//!
//! A [`Store`] owns one state value. The state is only ever replaced by the
//! result of a reducer, which is applied to the actions that are dispatched
//! to the store. Middleware may rewrite or veto an action on its way to the
//! reducer, and subscriptions are told of every new state.
//!
//! Reducers and middleware are specified as mathematical functions, and the
//! whole dispatch pipeline is described by the transitions of
//! [`StoreModel`], which the executable store is proved to follow.

pub mod middleware;
pub mod model;
pub mod reducer;
pub mod store;
pub mod subscription;

pub use crate::middleware::FnMiddleware;
pub use crate::middleware::Middleware;
pub use crate::middleware::StoreView;
pub use crate::model::StoreModel;
pub use crate::reducer::combine_reducers;
pub use crate::reducer::CombinedReducer;
pub use crate::reducer::FnReducer;
pub use crate::reducer::Reducible;
pub use crate::store::Store;
pub use crate::subscription::FnSubscription;
pub use crate::subscription::Subscription;
