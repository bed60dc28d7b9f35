//! The decisions of the indexer-backed data provider, apart from the database
//! reads that feed them.

use vstd::prelude::*;

verus! {

/// An error of the data provider.
#[derive(Debug)]
pub enum ProviderError {
    /// An internal failure, with its message.
    Internal(String),
}

/// Which system state answers a request.
#[derive(Clone, Copy, Debug, PartialEq, Eq, Structural)]
pub enum SystemStateSource {
    /// The latest system state, already read.
    Latest,
    /// The system state of this epoch, still to be read.
    Epoch(u64),
}

/// The system state that answers a request for `requested_epoch`, once the
/// latest state, of epoch `latest_epoch`, is known: the latest state when no
/// epoch was requested or the requested epoch is the one in progress, else the
/// state of the requested epoch.
pub fn choose_system_state(requested_epoch: Option<u64>, latest_epoch: u64) -> (source:
    SystemStateSource)
    ensures
        source == (match requested_epoch {
            None => SystemStateSource::Latest,
            Some(id) => if id == latest_epoch {
                SystemStateSource::Latest
            } else {
                SystemStateSource::Epoch(id)
            },
        }),
{
    match requested_epoch {
        None => SystemStateSource::Latest,
        Some(id) => if id == latest_epoch {
            SystemStateSource::Latest
        } else {
            SystemStateSource::Epoch(id)
        },
    }
}

/// The message when the stake query returned no staking pool.
pub open spec fn no_pools_message() -> Seq<char> {
    "Error fetching delegated stake. No pools returned."@
}

/// The message when the last staking pool returned holds no stake.
pub open spec fn no_stake_message() -> Seq<char> {
    "Error fetching delegated stake. No stake in pool."@
}

/// The stake that answers a delegated-stake query, given the stakes of each
/// staking pool it returned: the last stake of the last pool, or an internal
/// error when there is no pool or the last pool holds no stake.
pub fn take_delegated_stake<T>(pools: Vec<Vec<T>>) -> (r: Result<T, ProviderError>)
    ensures
        pools@.len() == 0 ==> (r matches Err(ProviderError::Internal(m)) && m@
            == no_pools_message()),
        pools@.len() > 0 && pools@.last()@.len() == 0 ==> (r matches Err(
            ProviderError::Internal(m),
        ) && m@ == no_stake_message()),
        pools@.len() > 0 && pools@.last()@.len() > 0 ==> r == Ok::<T, ProviderError>(
            pools@.last()@.last(),
        ),
{
    let mut pools = pools;
    let mut pool = match pools.pop() {
        Some(pool) => pool,
        None => {
            return Err(
                ProviderError::Internal(
                    "Error fetching delegated stake. No pools returned.".to_owned(),
                ),
            );
        },
    };
    match pool.pop() {
        Some(stake) => Ok(stake),
        None => Err(
            ProviderError::Internal("Error fetching delegated stake. No stake in pool.".to_owned()),
        ),
    }
}

} // verus!
