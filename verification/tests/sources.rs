use indexer_for_explorer::sources::{FinalizedHeightQueryResult, PersistedHeightQueryResult};

#[test]
fn a_recorded_height_is_found() {
    let outcome: Result<Option<u64>, String> = Ok(Some(100));
    assert_eq!(
        PersistedHeightQueryResult::from_query(&outcome),
        PersistedHeightQueryResult::Found(100)
    );
    let genesis: Result<Option<u64>, String> = Ok(Some(0));
    assert_eq!(
        PersistedHeightQueryResult::from_query(&genesis),
        PersistedHeightQueryResult::Found(0)
    );
}

#[test]
fn an_empty_store_is_not_found() {
    let outcome: Result<Option<u64>, String> = Ok(None);
    assert_eq!(
        PersistedHeightQueryResult::from_query(&outcome),
        PersistedHeightQueryResult::NotFound
    );
}

#[test]
fn any_store_error_is_unavailable() {
    let refused: Result<Option<u64>, String> = Err(String::from("connection refused"));
    assert_eq!(
        PersistedHeightQueryResult::from_query(&refused),
        PersistedHeightQueryResult::Unavailable
    );
    let unit: Result<Option<u64>, ()> = Err(());
    assert_eq!(
        PersistedHeightQueryResult::from_query(&unit),
        PersistedHeightQueryResult::Unavailable
    );
}

#[test]
fn a_block_height_is_finalized() {
    let outcome: Result<u64, String> = Ok(777);
    assert_eq!(
        FinalizedHeightQueryResult::from_query(&outcome),
        FinalizedHeightQueryResult::Finalized(777)
    );
    let largest: Result<u64, String> = Ok(u64::MAX);
    assert_eq!(
        FinalizedHeightQueryResult::from_query(&largest),
        FinalizedHeightQueryResult::Finalized(u64::MAX)
    );
}

#[test]
fn any_network_error_is_a_network_error() {
    let outcome: Result<u64, String> = Err(String::from("timed out"));
    assert_eq!(
        FinalizedHeightQueryResult::from_query(&outcome),
        FinalizedHeightQueryResult::NetworkError
    );
}
