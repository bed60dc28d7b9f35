use iota_metrics::data_provider::{choose_system_state, take_delegated_stake, ProviderError, SystemStateSource};

#[test]
fn no_epoch_requested_gives_latest() {
    assert_eq!(choose_system_state(None, 7), SystemStateSource::Latest);
}

#[test]
fn epoch_in_progress_gives_latest() {
    assert_eq!(choose_system_state(Some(7), 7), SystemStateSource::Latest);
}

#[test]
fn past_epoch_is_read() {
    assert_eq!(choose_system_state(Some(3), 7), SystemStateSource::Epoch(3));
    assert_eq!(choose_system_state(Some(0), u64::MAX), SystemStateSource::Epoch(0));
}

#[test]
fn last_stake_of_last_pool() {
    let pools = vec![vec![1, 2], vec![3, 4, 5]];
    assert!(matches!(take_delegated_stake(pools), Ok(5)));
}

#[test]
fn no_pools_is_an_error() {
    let pools: Vec<Vec<u32>> = vec![];
    match take_delegated_stake(pools) {
        Err(ProviderError::Internal(m)) => {
            assert_eq!(m, "Error fetching delegated stake. No pools returned.")
        }
        Ok(_) => panic!("expected an error"),
    }
}

#[test]
fn empty_last_pool_is_an_error() {
    let pools: Vec<Vec<u32>> = vec![vec![1], vec![]];
    match take_delegated_stake(pools) {
        Err(ProviderError::Internal(m)) => {
            assert_eq!(m, "Error fetching delegated stake. No stake in pool.")
        }
        Ok(_) => panic!("expected an error"),
    }
}
