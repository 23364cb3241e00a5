use vstd::prelude::*;

verus! {

/// How a run obtains its access credential.
#[derive(Debug, PartialEq, Eq)]
pub enum AuthStep {
    /// Load the credential from the cache file: it is still valid, or the
    /// client can refresh it.
    ReadCache,
    /// Walk the user through the browser consent flow, which writes a new
    /// credential to the cache, and then load it.
    AskForConsent,
}

/// Chooses how to authenticate. The cached credential is used when the
/// cache holds one that has not expired or that can be refreshed; in every
/// other case the interactive flow runs. `expired` and `refreshable` describe
/// the cached credential and matter only when `cache_present` holds.
pub fn auth_step(cache_present: bool, expired: bool, refreshable: bool) -> (r: AuthStep)
    ensures
        r == (if cache_present && (!expired || refreshable) {
            AuthStep::ReadCache
        } else {
            AuthStep::AskForConsent
        }),
{
    if cache_present && (!expired || refreshable) {
        AuthStep::ReadCache
    } else {
        AuthStep::AskForConsent
    }
}

} // verus!
