//! Work flourish: a short-lived pulse around a job that starts running.
use vstd::prelude::*;

use crate::domain::job::JobId;

verus! {

/// How long a pulse lives, in milliseconds.
pub const FLOURISH_LIFETIME_MS: u64 = 800;

/// One pulse around a job. Times are in milliseconds.
#[derive(Debug)]
pub struct Flourish {
    pub job_id: JobId,
    pub spawned: u64,
}

/// What [`Flourish`] holds, as mathematical values.
#[verifier::ext_equal]
pub struct FlourishView {
    pub job_id: Seq<char>,
    pub spawned: u64,
}

impl DeepView for Flourish {
    type V = FlourishView;

    open spec fn deep_view(&self) -> FlourishView {
        FlourishView {
            job_id: self.job_id.deep_view(),
            spawned: self.spawned.deep_view(),
        }
    }
}

impl Clone for Flourish {
    fn clone(&self) -> (r: Flourish)
        ensures
            r.deep_view() == self.deep_view(),
    {
        Flourish {
            job_id: self.job_id.clone(),
            spawned: self.spawned,
        }
    }
}

/// How long ago `then` was at `now`; 0 when it is still to come.
pub open spec fn elapsed(now: u64, then: u64) -> u64 {
    if now >= then {
        (now - then) as u64
    } else {
        0
    }
}

/// How long ago `then` was at `now`; 0 when it is still to come.
pub fn since(now: u64, then: u64) -> (r: u64)
    ensures
        r == elapsed(now, then),
{
    if now >= then {
        now - then
    } else {
        0
    }
}

impl Flourish {
    pub fn spawn(job_id: JobId, now: u64) -> (r: Flourish)
        ensures
            r.deep_view() == (FlourishView { job_id: job_id.deep_view(), spawned: now }),
    {
        Flourish { job_id, spawned: now }
    }

    /// Progress through the lifetime, from 0 to [`FLOURISH_LIFETIME_MS`].
    pub fn progress(&self, now: u64) -> (r: u64)
        ensures
            r == (if elapsed(now, self.spawned) < FLOURISH_LIFETIME_MS {
                elapsed(now, self.spawned)
            } else {
                FLOURISH_LIFETIME_MS
            }),
    {
        let e = since(now, self.spawned);
        if e < FLOURISH_LIFETIME_MS {
            e
        } else {
            FLOURISH_LIFETIME_MS
        }
    }

    /// Whether the pulse is over: exactly when its progress is complete.
    pub fn expired(&self, now: u64) -> (r: bool)
        ensures
            r == (elapsed(now, self.spawned) >= FLOURISH_LIFETIME_MS),
    {
        since(now, self.spawned) >= FLOURISH_LIFETIME_MS
    }
}

} // verus!
