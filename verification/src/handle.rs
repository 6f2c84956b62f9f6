//! The life of a builder handle.
//!
//! A handle holds its accumulated state at most once. A step that succeeds
//! moves the state, updated, into a successor and leaves the handle spent; a
//! step that fails leaves the handle as it was. A spent handle refuses
//! every further step.
//!
//! The state of a handle is modelled as an `Option`: `Some(state)` while the
//! handle is live, `None` once it is spent.

use crate::error::{ConfigError, ConfigErrorView};
use vstd::prelude::*;

verus! {

/// What one step makes of a handle.
pub struct Step<C> {
    /// What the handle holds afterwards.
    pub handle: Option<C>,
    /// The state of the successor, or the reason why there is none.
    pub outcome: Result<C, ConfigErrorView>,
}

/// The step that applies `update` to the state of `handle`.
pub open spec fn step<C>(
    handle: Option<C>,
    update: spec_fn(C) -> Result<C, ConfigErrorView>,
) -> Step<C> {
    match handle {
        None => Step { handle: None, outcome: Err(ConfigErrorView::AlreadyConsumed) },
        Some(state) => match update(state) {
            Ok(next) => Step { handle: None, outcome: Ok(next) },
            Err(error) => Step { handle: Some(state), outcome: Err(error) },
        },
    }
}

/// Whether `answer` is what a caller gets for `outcome`: a live successor
/// holding exactly the new state, or the error.
pub open spec fn answers<H: View<V = Option<C>>, C>(
    answer: Result<H, ConfigError>,
    outcome: Result<C, ConfigErrorView>,
) -> bool {
    match outcome {
        Ok(state) => answer matches Ok(next) && next@ == Some(state),
        Err(error) => answer matches Err(e) && e@ == error,
    }
}

/// Whether a handle that held `before` holds `after` and has given `answer`
/// as the step with `update` prescribes.
pub open spec fn stepped<H: View<V = Option<C>>, C>(
    before: Option<C>,
    after: Option<C>,
    answer: Result<H, ConfigError>,
    update: spec_fn(C) -> Result<C, ConfigErrorView>,
) -> bool {
    &&& after == step(before, update).handle
    &&& answers(answer, step(before, update).outcome)
}

/// A handle is good for one successful step. Once a step on it has
/// succeeded, any step that is tried on the same handle fails with
/// `AlreadyConsumed`, and the handle stays spent.
pub proof fn lemma_single_use<C>(
    handle: Option<C>,
    first: spec_fn(C) -> Result<C, ConfigErrorView>,
    second: spec_fn(C) -> Result<C, ConfigErrorView>,
)
    requires
        step(handle, first).outcome is Ok,
    ensures
        step(step(handle, first).handle, second).outcome == Err::<C, ConfigErrorView>(
            ConfigErrorView::AlreadyConsumed,
        ),
        step(step(handle, first).handle, second).handle is None,
{
}

/// A step that fails changes nothing: the handle holds what it held, and
/// a live handle is still live.
pub proof fn lemma_failure_keeps_state<C>(
    handle: Option<C>,
    update: spec_fn(C) -> Result<C, ConfigErrorView>,
)
    requires
        step(handle, update).outcome is Err,
    ensures
        step(handle, update).handle == handle,
{
}

/// A step on a live handle succeeds exactly when the update accepts the
/// state, and the successor then holds the updated state.
pub proof fn lemma_live_step<C>(state: C, update: spec_fn(C) -> Result<C, ConfigErrorView>)
    ensures
        step(Some(state), update).outcome == update(state),
{
}

} // verus!
