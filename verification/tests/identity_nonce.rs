use consensus_core::identity_nonce::validate_nonce_v0;
use std::cell::Cell;

#[derive(Debug, PartialEq)]
enum Checked {
    Update { existing: u64, new: u64, identity: [u8; 32] },
    New { new: u64, identity: [u8; 32] },
}

fn check(stored: Result<Option<u64>, String>, fetched_for: &Cell<Option<[u8; 32]>>) -> Result<Checked, String> {
    validate_nonce_v0(
        17,
        [9; 32],
        |identity: [u8; 32]| {
            fetched_for.set(Some(identity));
            stored
        },
        |existing: u64, new: u64, identity: [u8; 32]| Checked::Update { existing, new, identity },
        |new: u64, identity: [u8; 32]| Checked::New { new, identity },
    )
}

#[test]
fn stored_nonce_is_checked_as_an_update() {
    let fetched_for = Cell::new(None);
    assert_eq!(
        check(Ok(Some(16)), &fetched_for),
        Ok(Checked::Update { existing: 16, new: 17, identity: [9; 32] })
    );
    assert_eq!(fetched_for.get(), Some([9; 32]));
}

#[test]
fn missing_nonce_is_checked_as_new() {
    let fetched_for = Cell::new(None);
    assert_eq!(check(Ok(None), &fetched_for), Ok(Checked::New { new: 17, identity: [9; 32] }));
    assert_eq!(fetched_for.get(), Some([9; 32]));
}

#[test]
fn failed_fetch_fails_the_validation() {
    let fetched_for = Cell::new(None);
    assert_eq!(check(Err("storage is down".to_string()), &fetched_for), Err("storage is down".to_string()));
}
