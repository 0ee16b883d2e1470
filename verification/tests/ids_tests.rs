//! Tests of the identifier types.

use shepherd::ids::{str_eq, ClientId, EntryId, SessionId};

#[test]
fn entry_id_equality() {
    let id1 = EntryId::new("game-1".to_string());
    let id2 = EntryId::new("game-1".to_string());
    let id3 = EntryId::new("game-2".to_string());

    assert_eq!(id1, id2);
    assert_ne!(id1, id3);
}

#[test]
fn session_id_uniqueness() {
    let s1 = SessionId::new();
    let s2 = SessionId::new();
    assert_ne!(s1, s2);
}

#[test]
fn client_id_values_roundtrip() {
    let c = ClientId::from_value(42);
    assert_eq!(c.value, 42);
    assert_eq!(c, ClientId::from_value(42));
}

#[test]
fn str_eq_agrees_with_equality() {
    assert!(str_eq("abc", "abc"));
    assert!(!str_eq("abc", "abd"));
    assert!(!str_eq("abc", "abcd"));
    assert!(str_eq("", ""));
    assert!(str_eq("üñî", "üñî"));
    assert!(!str_eq("üñî", "uni"));
}

#[test]
fn entry_id_as_str() {
    let id = EntryId::new("scummvm".to_string());
    assert_eq!(id.as_str(), "scummvm");
}
