use garo_vibe::claim::{init_attendee, mint_por_token};
use garo_vibe::record::{is_valid_event_id, AttendeeRecord, GaroError};
use garo_vibe::store::AttendeeStore;
use garo_vibe::tier::calculate_tier;

const ALICE: [u8; 32] = [7u8; 32];
const BOB: [u8; 32] = [9u8; 32];
const SIG: [u8; 64] = [0u8; 64];

fn store_with(owner: [u8; 32]) -> AttendeeStore {
    let mut store = AttendeeStore::new();
    assert_eq!(init_attendee(&mut store, owner, 254), Ok(()));
    store
}

fn claim(store: &mut AttendeeStore, owner: [u8; 32], event: &str, now: i64) -> Result<(u16, u8), GaroError> {
    mint_por_token(store, owner, String::from(event), SIG, now)
        .map(|n| (n.total_attendance, n.new_tier))
}

#[test]
fn tier_table_matches_every_band() {
    for count in 0u16..=u16::MAX {
        let expected: u8 = match count {
            0 | 1 => 1,
            2..=4 => 2,
            5 | 6 => 5,
            7..=9 => 7,
            _ => 10,
        };
        assert_eq!(calculate_tier(count), expected, "count {}", count);
    }
}

#[test]
fn tier_band_edges() {
    assert_eq!(calculate_tier(0), 1);
    assert_eq!(calculate_tier(1), 1);
    assert_eq!(calculate_tier(2), 2);
    assert_eq!(calculate_tier(4), 2);
    assert_eq!(calculate_tier(5), 5);
    assert_eq!(calculate_tier(6), 5);
    assert_eq!(calculate_tier(7), 7);
    assert_eq!(calculate_tier(9), 7);
    assert_eq!(calculate_tier(10), 10);
    assert_eq!(calculate_tier(65535), 10);
}

#[test]
fn init_creates_a_fresh_record() {
    let store = store_with(ALICE);
    let rec = store.load(&ALICE).unwrap();
    assert_eq!(rec.owner, ALICE);
    assert_eq!(rec.attendance_count, 0);
    assert_eq!(rec.tier, 1);
    assert_eq!(rec.last_event_id, "");
    assert_eq!(rec.last_timestamp, 0);
    assert_eq!(rec.bump, 254);
    assert_eq!(store.len(), 1);
}

#[test]
fn second_init_fails_and_keeps_the_record() {
    let mut store = store_with(ALICE);
    assert_eq!(claim(&mut store, ALICE, "evt1", 100), Ok((1, 1)));
    assert_eq!(init_attendee(&mut store, ALICE, 3), Err(GaroError::IdentityAlreadyInitialized));
    let rec = store.load(&ALICE).unwrap();
    assert_eq!(rec.attendance_count, 1);
    assert_eq!(rec.last_event_id, "evt1");
    assert_eq!(rec.last_timestamp, 100);
    assert_eq!(rec.bump, 254);
    assert_eq!(store.len(), 1);
}

#[test]
fn scenario_from_first_claim_to_top_tier() {
    let mut store = store_with(ALICE);
    assert_eq!(claim(&mut store, ALICE, "evt1", 1), Ok((1, 1)));
    assert_eq!(claim(&mut store, ALICE, "evt2", 2), Ok((2, 2)));
    assert_eq!(claim(&mut store, ALICE, "evt2", 3), Err(GaroError::AlreadyClaimed));
    assert_eq!(store.load(&ALICE).unwrap().attendance_count, 2);
    assert_eq!(claim(&mut store, ALICE, "evt3", 4), Ok((3, 2)));
    assert_eq!(claim(&mut store, ALICE, "evt4", 5), Ok((4, 2)));
    assert_eq!(claim(&mut store, ALICE, "evt5", 6), Ok((5, 5)));
    assert_eq!(claim(&mut store, ALICE, "evt6", 7), Ok((6, 5)));
    assert_eq!(claim(&mut store, ALICE, "evt7", 8), Ok((7, 7)));
    assert_eq!(claim(&mut store, ALICE, "evt8", 9), Ok((8, 7)));
    assert_eq!(claim(&mut store, ALICE, "evt9", 10), Ok((9, 7)));
    assert_eq!(claim(&mut store, ALICE, "evt10", 11), Ok((10, 10)));
    let rec = store.load(&ALICE).unwrap();
    assert_eq!(rec.attendance_count, 10);
    assert_eq!(rec.tier, 10);
    assert_eq!(rec.last_event_id, "evt10");
    assert_eq!(rec.last_timestamp, 11);
}

#[test]
fn replay_leaves_record_unchanged() {
    let mut store = store_with(ALICE);
    assert_eq!(claim(&mut store, ALICE, "gig", 50), Ok((1, 1)));
    assert_eq!(claim(&mut store, ALICE, "gig", 60), Err(GaroError::AlreadyClaimed));
    let rec = store.load(&ALICE).unwrap();
    assert_eq!(rec.attendance_count, 1);
    assert_eq!(rec.tier, 1);
    assert_eq!(rec.last_event_id, "gig");
    assert_eq!(rec.last_timestamp, 50);
}

#[test]
fn new_event_overwrites_latest_claim() {
    let mut store = store_with(ALICE);
    let n = mint_por_token(&mut store, ALICE, String::from("a"), SIG, 10).unwrap();
    assert_eq!(n.user, ALICE);
    assert_eq!(n.event_id, "a");
    assert_eq!(n.timestamp, 10);
    let n = mint_por_token(&mut store, ALICE, String::from("b"), SIG, -5).unwrap();
    assert_eq!(n.event_id, "b");
    assert_eq!(n.total_attendance, 2);
    assert_eq!(n.new_tier, 2);
    assert_eq!(n.timestamp, -5);
    let rec = store.load(&ALICE).unwrap();
    assert_eq!(rec.last_event_id, "b");
    assert_eq!(rec.last_timestamp, -5);
}

#[test]
fn older_event_can_be_claimed_again_after_a_newer_one() {
    let mut store = store_with(ALICE);
    assert_eq!(claim(&mut store, ALICE, "A", 1), Ok((1, 1)));
    assert_eq!(claim(&mut store, ALICE, "B", 2), Ok((2, 2)));
    assert_eq!(claim(&mut store, ALICE, "A", 3), Ok((3, 2)));
}

#[test]
fn serialized_claims_lose_no_increment() {
    let mut store = store_with(ALICE);
    assert_eq!(init_attendee(&mut store, BOB, 1), Ok(()));
    let mut alice_ok: u16 = 0;
    let mut bob_ok: u16 = 0;
    let events = ["x", "y", "y", "z", "x", "x", "w"];
    for (i, e) in events.iter().enumerate() {
        if claim(&mut store, ALICE, e, i as i64).is_ok() {
            alice_ok += 1;
        }
        if claim(&mut store, BOB, e, i as i64).is_ok() {
            bob_ok += 1;
        }
    }
    assert_eq!(alice_ok, 5);
    assert_eq!(bob_ok, 5);
    assert_eq!(store.load(&ALICE).unwrap().attendance_count, alice_ok);
    assert_eq!(store.load(&BOB).unwrap().attendance_count, bob_ok);
}

#[test]
fn identities_are_independent() {
    let mut store = store_with(ALICE);
    assert_eq!(init_attendee(&mut store, BOB, 1), Ok(()));
    assert_eq!(claim(&mut store, ALICE, "evt1", 1), Ok((1, 1)));
    assert_eq!(claim(&mut store, BOB, "evt1", 1), Ok((1, 1)));
    assert_eq!(store.load(&ALICE).unwrap().attendance_count, 1);
    assert_eq!(store.load(&BOB).unwrap().attendance_count, 1);
    assert_eq!(store.len(), 2);
}

#[test]
fn claim_without_record_fails() {
    let mut store = store_with(ALICE);
    assert_eq!(claim(&mut store, BOB, "evt1", 1), Err(GaroError::IdentityNotFound));
    assert!(!store.contains(&BOB));
    assert!(store.load(&BOB).is_err());
}

#[test]
fn malformed_event_ids_are_refused() {
    let mut store = store_with(ALICE);
    assert_eq!(claim(&mut store, ALICE, "", 1), Err(GaroError::InvalidEventId));
    let long = "e".repeat(65);
    assert_eq!(claim(&mut store, ALICE, &long, 1), Err(GaroError::InvalidEventId));
    let widest = "e".repeat(64);
    assert_eq!(claim(&mut store, ALICE, &widest, 1), Ok((1, 1)));
    // 22 three-byte characters are 66 bytes though only 22 characters.
    let wide_chars = "€".repeat(22);
    assert_eq!(claim(&mut store, ALICE, &wide_chars, 2), Err(GaroError::InvalidEventId));
    assert_eq!(store.load(&ALICE).unwrap().attendance_count, 1);
}

#[test]
fn event_id_validity() {
    assert!(!is_valid_event_id(&String::new()));
    assert!(is_valid_event_id(&String::from("x")));
    assert!(is_valid_event_id(&"€".repeat(21)));
    assert!(!is_valid_event_id(&"€".repeat(22)));
}

#[test]
fn counter_at_its_limit_overflows() {
    let mut rec = AttendeeRecord::new(ALICE, 1);
    rec.attendance_count = u16::MAX;
    rec.tier = calculate_tier(u16::MAX);
    rec.last_event_id = String::from("last");
    assert_eq!(rec.record_claim(String::from("next"), 9), Err(GaroError::CounterOverflow));
    assert_eq!(rec.attendance_count, u16::MAX);
    assert_eq!(rec.last_event_id, "last");

    let mut store = store_with(ALICE);
    let mut full = AttendeeRecord::new(ALICE, 254);
    full.attendance_count = u16::MAX;
    full.tier = 10;
    assert_eq!(store.save(full), Ok(()));
    assert_eq!(claim(&mut store, ALICE, "evt", 1), Err(GaroError::CounterOverflow));
    assert_eq!(store.load(&ALICE).unwrap().attendance_count, u16::MAX);
}

#[test]
fn record_claim_updates_in_place() {
    let mut rec = AttendeeRecord::new(BOB, 0);
    assert_eq!(rec.record_claim(String::from("one"), 42), Ok(()));
    assert_eq!(rec.attendance_count, 1);
    assert_eq!(rec.tier, 1);
    assert_eq!(rec.last_event_id, "one");
    assert_eq!(rec.last_timestamp, 42);
    assert_eq!(rec.record_claim(String::from("one"), 43), Err(GaroError::AlreadyClaimed));
    assert_eq!(rec.last_timestamp, 42);
    let copy = rec.duplicate();
    assert_eq!(copy.last_event_id, "one");
    assert_eq!(copy.attendance_count, 1);
}

#[test]
fn save_without_record_fails() {
    let mut store = AttendeeStore::new();
    assert_eq!(store.save(AttendeeRecord::new(BOB, 0)), Err(GaroError::IdentityNotFound));
    assert_eq!(store.len(), 0);
}
