//! The three values the transport needs: account, secret, and domain.
//!
//! Loading them from the persisted settings store is the embedding
//! application's business; the library only carries them.

use vstd::prelude::*;

verus! {

/// Connection settings for the platform: the account identifier, the
/// base domain, and the account's secret.
#[derive(Debug, PartialEq, Eq)]
pub struct ZulipConfig {
    pub user: String,
    pub domain: String,
    pub password: String,
}

} // verus!
