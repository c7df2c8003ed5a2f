use dwrote_core::{FromRaw, GetRaw, Owned};

#[test]
fn expose_after_adopt_is_identity() {
    for raw in [0usize, 1, 0xDEAD_BEEF, usize::MAX] {
        let owner = Owned::from_raw(raw);
        assert_eq!(owner.get_raw(), raw);
    }
}

#[test]
fn exposing_does_not_transfer() {
    let owner = Owned::from_raw(42u64);
    assert_eq!(owner.get_raw(), 42);
    assert_eq!(owner.get_raw(), 42);
}
