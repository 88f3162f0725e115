//! The per-identity attendance record and the rule that a claim applies to it.

use vstd::prelude::*;
use crate::tier::{calculate_tier, tier_of};

verus! {

/// Longest event identifier accepted, in bytes of UTF-8.
pub const MAX_EVENT_ID_LEN: usize = 64;

/// Errors surfaced to callers.
#[derive(Debug, Clone, Copy, PartialEq, Eq, Structural)]
pub enum GaroError {
    /// The event is the one most recently claimed by this identity.
    AlreadyClaimed,
    /// The attendance credential did not pass verification.
    InvalidSignature,
    /// No record has been initialized for the identity.
    IdentityNotFound,
    /// A record already exists for the identity.
    IdentityAlreadyInitialized,
    /// The attendance count is already at its largest value.
    CounterOverflow,
    /// The event identifier is empty or longer than the limit.
    InvalidEventId,
}

/// One attendee's state: who they are, how many events they attended, the
/// tier that count gives, and the latest accepted claim.
pub struct AttendeeRecord {
    pub owner: [u8; 32],
    pub attendance_count: u16,
    pub tier: u8,
    pub last_event_id: String,
    pub last_timestamp: i64,
    /// Storage-addressing nonce, meaningful only to the backend that keeps
    /// the record.
    pub bump: u8,
}

/// The mathematical value of an [`AttendeeRecord`].
pub struct AttendeeView {
    pub owner: Seq<u8>,
    pub attendance_count: u16,
    pub tier: u8,
    pub last_event_id: Seq<char>,
    pub last_timestamp: i64,
    pub bump: u8,
}

impl View for AttendeeRecord {
    type V = AttendeeView;

    open spec fn view(&self) -> AttendeeView {
        AttendeeView {
            owner: self.owner@,
            attendance_count: self.attendance_count,
            tier: self.tier,
            last_event_id: self.last_event_id@,
            last_timestamp: self.last_timestamp,
            bump: self.bump,
        }
    }
}

/// Length in bytes of the UTF-8 encoding of a string.
pub open spec fn utf8_len(s: Seq<char>) -> nat {
    vstd::utf8::encode_utf8(s).len()
}

/// An event identifier is accepted when it is non-empty and at most
/// `MAX_EVENT_ID_LEN` bytes long.
pub open spec fn valid_event_id(s: Seq<char>) -> bool {
    s.len() > 0 && utf8_len(s) <= MAX_EVENT_ID_LEN
}

impl AttendeeView {
    /// The record invariant: the tier is the image of the count, and the
    /// last event identifier fits its bound.
    pub open spec fn wf(self) -> bool {
        &&& self.tier == tier_of(self.attendance_count as int)
        &&& utf8_len(self.last_event_id) <= MAX_EVENT_ID_LEN
    }
}

/// A freshly initialized record: no attendance, tier 1, no claim yet.
pub open spec fn fresh_record(owner: Seq<u8>, bump: u8) -> AttendeeView {
    AttendeeView {
        owner,
        attendance_count: 0,
        tier: 1,
        last_event_id: Seq::empty(),
        last_timestamp: 0,
        bump,
    }
}

/// The outcome of claiming `event_id` at time `now` against record `r`: the
/// updated record, or the error that leaves it as it was.
pub open spec fn claim_step(r: AttendeeView, event_id: Seq<char>, now: i64) -> Result<
    AttendeeView,
    GaroError,
> {
    if !valid_event_id(event_id) {
        Err(GaroError::InvalidEventId)
    } else if event_id == r.last_event_id {
        Err(GaroError::AlreadyClaimed)
    } else if r.attendance_count == u16::MAX {
        Err(GaroError::CounterOverflow)
    } else {
        Ok(
            AttendeeView {
                attendance_count: (r.attendance_count + 1) as u16,
                tier: tier_of(r.attendance_count + 1),
                last_event_id: event_id,
                last_timestamp: now,
                ..r
            },
        )
    }
}

/// Whether an event identifier is accepted: non-empty and at most
/// `MAX_EVENT_ID_LEN` bytes.
pub fn is_valid_event_id(event_id: &String) -> (ok: bool)
    ensures
        ok == valid_event_id(event_id@),
{
    let s = event_id.as_str();
    let bytes = s.as_bytes();
    !s.is_empty() && bytes.len() <= MAX_EVENT_ID_LEN
}

impl AttendeeRecord {
    /// Creates the record of a first-time attendee.
    pub fn new(owner: [u8; 32], bump: u8) -> (r: AttendeeRecord)
        ensures
            r@ == fresh_record(owner@, bump),
            r@.wf(),
    {
        let r = AttendeeRecord {
            owner,
            attendance_count: 0,
            tier: 1,
            last_event_id: String::new(),
            last_timestamp: 0,
            bump,
        };
        proof {
            assert(vstd::utf8::encode_utf8(Seq::<char>::empty()) =~= Seq::<u8>::empty());
        }
        r
    }

    /// A copy of the record.
    pub fn duplicate(&self) -> (r: AttendeeRecord)
        ensures
            r@ == self@,
    {
        AttendeeRecord {
            owner: self.owner,
            attendance_count: self.attendance_count,
            tier: self.tier,
            last_event_id: self.last_event_id.clone(),
            last_timestamp: self.last_timestamp,
            bump: self.bump,
        }
    }

    /// Applies a claim of `event_id` at time `now`. On success the count goes
    /// up by one, the tier is recomputed and the claim becomes the latest;
    /// on any error the record is left exactly as it was.
    pub fn record_claim(&mut self, event_id: String, now: i64) -> (res: Result<(), GaroError>)
        ensures
            match claim_step(old(self)@, event_id@, now) {
                Ok(v) => res is Ok && final(self)@ == v,
                Err(e) => res == Err::<(), GaroError>(e) && final(self)@ == old(self)@,
            },
            old(self)@.wf() ==> final(self)@.wf(),
    {
        if !is_valid_event_id(&event_id) {
            return Err(GaroError::InvalidEventId);
        }
        if self.last_event_id == event_id {
            return Err(GaroError::AlreadyClaimed);
        }
        if self.attendance_count == u16::MAX {
            return Err(GaroError::CounterOverflow);
        }
        self.attendance_count = self.attendance_count + 1;
        self.last_event_id = event_id;
        self.last_timestamp = now;
        self.tier = calculate_tier(self.attendance_count);
        Ok(())
    }
}

/// The notification published after a successful claim.
pub struct RaveProofMinted {
    pub user: [u8; 32],
    pub event_id: String,
    pub new_tier: u8,
    pub total_attendance: u16,
    pub timestamp: i64,
}

impl RaveProofMinted {
    /// The notification carries the identity, the claimed event and the
    /// record's new state.
    pub open spec fn describes(&self, r: AttendeeView) -> bool {
        &&& self.user@ == r.owner
        &&& self.event_id@ == r.last_event_id
        &&& self.new_tier == r.tier
        &&& self.total_attendance == r.attendance_count
        &&& self.timestamp == r.last_timestamp
    }
}

} // verus!
