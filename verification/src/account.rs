//! The shared account snapshot and the read policy over it.
//!
//! One writer task owns the cached snapshot; readers never mutate it.  A
//! read returns the cached value immediately when one exists; otherwise it
//! waits for the first push update, but never longer than a fixed bound,
//! and then degrades to a one-off direct query.  The waiting itself is the
//! runtime's; the decisions are here.

use vstd::prelude::*;

verus! {

/// Latest known account balances, in notional units.
///
/// Field names follow the exchange's own wire labels.
#[allow(non_snake_case)]
#[derive(Clone, Copy, Debug, PartialEq, Eq, Structural)]
pub struct AccountInfo {
    pub totalWalletBalance: u64,
    pub availableBalance: u64,
}

/// The longest a reader may wait for a first push update before falling
/// back to a direct query, in seconds.
pub const CACHE_READ_WAIT_SECS: u64 = 3;

/// What a reader must do next.
#[derive(Clone, Copy, Debug)]
pub enum CacheRead {
    /// A cached snapshot exists: return it, with no network call and no
    /// wait.
    Immediate { snapshot: AccountInfo },
    /// Nothing cached yet: wait for the first push update, for at most
    /// `max_wait_secs` seconds.
    AwaitPush { max_wait_secs: u64 },
}

/// Read policy: a cached value is returned at once; only an empty cache may
/// make the reader wait, and then never longer than
/// [`CACHE_READ_WAIT_SECS`].
pub fn plan_cache_read(cached: &Option<AccountInfo>) -> (r: CacheRead)
    ensures
        cached matches Some(snapshot) ==> (r matches CacheRead::Immediate { snapshot: s } && s
            == snapshot),
        cached is None ==> (r matches CacheRead::AwaitPush { max_wait_secs } && max_wait_secs
            == CACHE_READ_WAIT_SECS),
{
    match cached {
        Some(snapshot) => CacheRead::Immediate { snapshot: *snapshot },
        None => CacheRead::AwaitPush { max_wait_secs: CACHE_READ_WAIT_SECS },
    }
}

/// How a read that had to wait ends.
#[derive(Clone, Copy, Debug)]
pub enum AfterWait {
    /// A push update arrived within the bound: return it.
    Deliver { snapshot: AccountInfo },
    /// The bound elapsed first: perform a one-off direct balance query (the
    /// cache stays as it is; the next push update will populate it).
    QueryDirect,
}

/// Resolution of a bounded wait: an update that arrived is delivered, a
/// timeout always degrades to a direct query -- a reader is never blocked
/// past the bound.
pub fn resolve_cache_wait(received: Option<AccountInfo>) -> (r: AfterWait)
    ensures
        received matches Some(snapshot) ==> (r matches AfterWait::Deliver { snapshot: s } && s
            == snapshot),
        received is None ==> r is QueryDirect,
{
    match received {
        Some(snapshot) => AfterWait::Deliver { snapshot },
        None => AfterWait::QueryDirect,
    }
}

/// A balance update replaces the cached snapshot in full: last write wins,
/// fields are never merged.
pub fn apply_push_update(cached: &mut Option<AccountInfo>, update: AccountInfo)
    ensures
        *final(cached) == Some(update),
{
    *cached = Some(update);
}

} // verus!
