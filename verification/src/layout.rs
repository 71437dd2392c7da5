//! Outcome logic for keyboard-layout selection.
//!
//! The OS lookup and selection calls themselves live in the unverified shell;
//! it reports what happened as plain values, and the functions here decide
//! what those outcomes mean: which error a single selection attempt yields,
//! and how a failed primary attempt falls back to the secondary identifier.

use vstd::prelude::*;

verus! {

/// Why one layout-selection attempt failed.
#[derive(Clone, Copy, PartialEq, Eq, Debug)]
pub enum SelectError {
    /// The input-source registry returned no source list at all.
    NoSources,
    /// The source list held no source matching the requested identifier.
    NoMatch,
    /// The selection call itself failed, with its OS status code.
    SelectFailed(i32),
}

/// Judges one selection attempt from what the OS calls reported:
/// `sources_found` is whether a source list came back at all, `any_match`
/// whether it held a matching source, and `status` the selection call's
/// result code (0 means success).
pub fn evaluate_selection(sources_found: bool, any_match: bool, status: i32) -> (r: Result<
    (),
    SelectError,
>)
    ensures
        r == (if !sources_found {
            Err::<(), SelectError>(SelectError::NoSources)
        } else if !any_match {
            Err::<(), SelectError>(SelectError::NoMatch)
        } else if status != 0 {
            Err::<(), SelectError>(SelectError::SelectFailed(status))
        } else {
            Ok::<(), SelectError>(())
        }),
{
    if !sources_found {
        Err(SelectError::NoSources)
    } else if !any_match {
        Err(SelectError::NoMatch)
    } else if status != 0 {
        Err(SelectError::SelectFailed(status))
    } else {
        Ok(())
    }
}

/// Combines a primary selection attempt with its fallback: the fallback runs
/// exactly when the primary failed, the overall selection succeeds when
/// either attempt did, and when both fail the fallback's error stands (that
/// action aborts; the process goes on).
pub fn combine_selection(
    primary: Result<(), SelectError>,
    fallback: Option<Result<(), SelectError>>,
) -> (r: Result<(), SelectError>)
    requires
        (primary is Err) <==> (fallback is Some),
    ensures
        primary is Ok ==> r == primary,
        fallback matches Some(second) ==> r == second,
        r is Ok <==> (primary is Ok || (fallback matches Some(second) && second is Ok)),
{
    match fallback {
        None => primary,
        Some(second) => second,
    }
}

} // verus!
