//! The operations offered to callers: initializing an attendee and recording
//! a claim of attendance.

use vstd::prelude::*;
use crate::record::{
    claim_step,
    fresh_record,
    is_valid_event_id,
    valid_event_id,
    AttendeeView,
    GaroError,
    RaveProofMinted,
};
use crate::store::AttendeeStore;

verus! {

/// The store after initializing `user`, and the result of doing so.
pub open spec fn init_step(m: Map<Seq<u8>, AttendeeView>, user: Seq<u8>, bump: u8) -> (
    Map<Seq<u8>, AttendeeView>,
    Result<(), GaroError>,
) {
    if m.contains_key(user) {
        (m, Err(GaroError::IdentityAlreadyInitialized))
    } else {
        (m.insert(user, fresh_record(user, bump)), Ok(()))
    }
}

/// The result of `user` claiming `event_id` at time `now`: the record as it
/// then stands, or the error.
pub open spec fn mint_step(
    m: Map<Seq<u8>, AttendeeView>,
    user: Seq<u8>,
    event_id: Seq<char>,
    now: i64,
) -> Result<AttendeeView, GaroError> {
    if !valid_event_id(event_id) {
        Err(GaroError::InvalidEventId)
    } else if !m.contains_key(user) {
        Err(GaroError::IdentityNotFound)
    } else {
        claim_step(m[user], event_id, now)
    }
}

/// The store after `user` claimed `event_id` at time `now`: the new record on
/// success, unchanged on any error.
pub open spec fn after_mint(
    m: Map<Seq<u8>, AttendeeView>,
    user: Seq<u8>,
    event_id: Seq<char>,
    now: i64,
) -> Map<Seq<u8>, AttendeeView> {
    match mint_step(m, user, event_id, now) {
        Ok(v) => m.insert(user, v),
        Err(_) => m,
    }
}

/// Initializes the record of a first-time attendee: count 0, tier 1, no
/// event claimed, timestamp 0. Fails with `IdentityAlreadyInitialized`,
/// leaving the existing record untouched, where `user` already has one.
pub fn init_attendee(store: &mut AttendeeStore, user: [u8; 32], bump: u8) -> (res: Result<
    (),
    GaroError,
>)
    requires
        old(store).wf(),
    ensures
        final(store).wf(),
        (final(store)@, res) == init_step(old(store)@, user@, bump),
{
    store.create(user, bump)
}

/// Records that `user` attended `event_id` at time `now`, and returns the
/// notification to publish.
///
/// The attendance credential `_qr_signature` has been verified by the caller
/// before this call; it is not read here. The claim fails with
/// `InvalidEventId` for an empty or over-long identifier, `IdentityNotFound`
/// for an identity without a record, `AlreadyClaimed` when `event_id` is the
/// latest claimed event, and `CounterOverflow` when the count is at its
/// largest value. Otherwise the count goes up by one, the tier is
/// recomputed, and `event_id` and `now` become the latest claim. On any
/// error the store is left exactly as it was.
pub fn mint_por_token(
    store: &mut AttendeeStore,
    user: [u8; 32],
    event_id: String,
    _qr_signature: [u8; 64],
    now: i64,
) -> (res: Result<RaveProofMinted, GaroError>)
    requires
        old(store).wf(),
    ensures
        final(store).wf(),
        final(store)@ == after_mint(old(store)@, user@, event_id@, now),
        match mint_step(old(store)@, user@, event_id@, now) {
            Ok(v) => res matches Ok(n) && n.describes(v),
            Err(e) => res == Err::<RaveProofMinted, GaroError>(e),
        },
{
    if !is_valid_event_id(&event_id) {
        return Err(GaroError::InvalidEventId);
    }
    let mut record = match store.load(&user) {
        Ok(r) => r,
        Err(e) => return Err(e),
    };
    proof {
        store.lemma_records_wf();
        assert(store@.contains_key(user@));
    }
    let claimed = event_id.clone();
    match record.record_claim(event_id, now) {
        Ok(()) => {},
        Err(e) => return Err(e),
    }
    let new_tier = record.tier;
    let total_attendance = record.attendance_count;
    let saved = store.save(record);
    match saved {
        Ok(()) => {},
        Err(e) => return Err(e),
    }
    Ok(RaveProofMinted { user, event_id: claimed, new_tier, total_attendance, timestamp: now })
}

} // verus!
