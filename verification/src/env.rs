//! Resolution and memoization of the runtime API origin.
//!
//! The host injects the origin (`host:port` of the lifecycle API) into the
//! process environment before the process starts. The value is read lazily,
//! latched into a write-once cell on first use, and read-only afterwards;
//! absence at first resolution is a fatal startup condition.
//!
//! The environment read itself is I/O and happens outside this crate: the
//! caller hands in whatever the environment held, and this module decides
//! what the cell and the caller get.

use vstd::prelude::*;

use crate::errors::FatalError;

verus! {

/// Write-once holder of the runtime API origin.
pub struct OriginCell {
    value: Option<String>,
}

impl View for OriginCell {
    type V = Option<Seq<char>>;

    closed spec fn view(&self) -> Option<Seq<char>> {
        match self.value {
            Some(s) => Some(s@),
            None => None,
        }
    }
}

impl OriginCell {
    /// A fresh, unlatched cell.
    pub fn new() -> (c: OriginCell)
        ensures
            c@ is None,
    {
        OriginCell { value: None }
    }
}

/// The view of an optional configured value.
pub open spec fn opt_str_view(o: Option<String>) -> Option<Seq<char>> {
    match o {
        Some(s) => Some(s@),
        None => None,
    }
}

/// The view of a resolution result.
pub open spec fn origin_result_view(r: Result<String, FatalError>) -> Result<
    Seq<char>,
    FatalError,
> {
    match r {
        Ok(s) => Ok(s@),
        Err(e) => Err(e),
    }
}

/// One resolution attempt, as a transition: given what the cell holds and
/// what the environment offered, the cell's new content and the caller's
/// result. A latched cell is never overwritten and the environment value is
/// not consulted; an unlatched cell takes the offered value, and an absent
/// value is the fatal startup error.
pub open spec fn resolve_step(cell: Option<Seq<char>>, configured: Option<Seq<char>>) -> (
    Option<Seq<char>>,
    Result<Seq<char>, FatalError>,
) {
    match cell {
        Some(v) => (cell, Ok(v)),
        None => match configured {
            Some(e) => (Some(e), Ok(e)),
            None => (None, Err(FatalError::OriginMissing)),
        },
    }
}

/// Latches the configured origin into the cell, exactly once.
///
/// The caller reads the origin from the process environment and hands the
/// result in. A missing value is fatal; a second latch attempt is refused
/// and leaves the first value in place.
pub fn latch_runtime_env(cell: &mut OriginCell, configured: Option<String>) -> (r: Result<
    (),
    FatalError,
>)
    ensures
        old(cell)@ is Some ==> r == Err::<(), FatalError>(FatalError::OriginAlreadyLatched)
            && final(cell)@ == old(cell)@,
        old(cell)@ is None && configured is None ==> r == Err::<(), FatalError>(
            FatalError::OriginMissing,
        ) && final(cell)@ is None,
        old(cell)@ is None ==> (configured matches Some(v) ==> r is Ok && final(cell)@ == Some(
            v@,
        )),
{
    if cell.value.is_some() {
        return Err(FatalError::OriginAlreadyLatched);
    }
    match configured {
        Some(v) => {
            cell.value = Some(v);
            Ok(())
        },
        None => Err(FatalError::OriginMissing),
    }
}

/// Returns the memoized runtime API origin, resolving it on first use.
///
/// The first caller pays the resolution; every later caller observes the
/// identical cached string, and the configured value handed in then is
/// ignored. With no cached value and no configured value the error is
/// unrecoverable: the sidecar cannot address the lifecycle API.
pub fn sandbox_runtime_api(cell: &mut OriginCell, configured: Option<String>) -> (r: Result<
    String,
    FatalError,
>)
    ensures
        ({
            let (c2, res) = resolve_step(old(cell)@, opt_str_view(configured));
            final(cell)@ == c2 && origin_result_view(r) == res
        }),
{
    match &cell.value {
        Some(v) => Ok(v.clone()),
        None => match latch_runtime_env(cell, configured) {
            Ok(_) => match &cell.value {
                Some(v) => Ok(v.clone()),
                None => {
                    proof {
                        assert(false);
                    }
                    Err(FatalError::OriginMissing)
                },
            },
            Err(e) => Err(e),
        },
    }
}

/// Origin memoization: a latched cell answers every resolution with the
/// identical cached string, leaves the cell untouched, and never consults
/// the environment value offered — two calls with arbitrarily different
/// environment readings agree.
pub proof fn lemma_origin_memoized(
    cell: Option<Seq<char>>,
    env_a: Option<Seq<char>>,
    env_b: Option<Seq<char>>,
)
    requires
        cell is Some,
    ensures
        resolve_step(cell, env_a) == resolve_step(cell, env_b),
        resolve_step(cell, env_a).0 == cell,
        cell matches Some(v) ==> resolve_step(cell, env_a).1 == Ok::<Seq<char>, FatalError>(v),
{
}

/// Repeated resolution is idempotent: once a resolution has succeeded, any
/// later resolution returns the very same origin and changes nothing,
/// whatever the environment would offer by then.
pub proof fn lemma_origin_idempotent(
    cell: Option<Seq<char>>,
    env_a: Option<Seq<char>>,
    env_b: Option<Seq<char>>,
)
    requires
        resolve_step(cell, env_a).1 is Ok,
    ensures
        ({
            let (c1, r1) = resolve_step(cell, env_a);
            let (c2, r2) = resolve_step(c1, env_b);
            c2 == c1 && r2 == r1
        }),
{
}

} // verus!
