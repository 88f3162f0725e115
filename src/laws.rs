//! Properties of the claim-processing state machine, stated over the
//! transitions that the operations are proved to follow.

use vstd::prelude::*;
use crate::claim::{after_mint, init_step, mint_step};
use crate::record::{valid_event_id, AttendeeView, GaroError};
use crate::store::records_wf;
use crate::tier::tier_of;

verus! {

/// Initialization happens once per identity: initializing an identity a
/// second time fails with `IdentityAlreadyInitialized` and leaves the record
/// made by the first call untouched.
pub proof fn lemma_init_exactly_once(
    m: Map<Seq<u8>, AttendeeView>,
    user: Seq<u8>,
    bump: u8,
    second_bump: u8,
)
    ensures
        ({
            let first = init_step(m, user, bump).0;
            &&& first.contains_key(user)
            &&& init_step(first, user, second_bump) == (
                first,
                Err::<(), GaroError>(GaroError::IdentityAlreadyInitialized),
            )
        }),
{
}

/// A claim of the event that the identity claimed last fails with
/// `AlreadyClaimed` and changes nothing. (An empty identifier, as held by a
/// record that has no claim yet, is refused as malformed instead.)
pub proof fn lemma_replay_rejected(
    m: Map<Seq<u8>, AttendeeView>,
    user: Seq<u8>,
    event_id: Seq<char>,
    now: i64,
)
    requires
        records_wf(m),
        m.contains_key(user),
        m[user].last_event_id == event_id,
        event_id.len() > 0,
    ensures
        mint_step(m, user, event_id, now) == Err::<AttendeeView, GaroError>(
            GaroError::AlreadyClaimed,
        ),
        after_mint(m, user, event_id, now) == m,
{
}

/// A claim of a new, well-formed event identifier, below the largest count,
/// raises the count by exactly one, recomputes the tier and makes the event
/// and its time the latest claim; nothing else in the store changes.
pub proof fn lemma_new_event_counts_once(
    m: Map<Seq<u8>, AttendeeView>,
    user: Seq<u8>,
    event_id: Seq<char>,
    now: i64,
)
    requires
        m.contains_key(user),
        valid_event_id(event_id),
        m[user].last_event_id != event_id,
        m[user].attendance_count < u16::MAX,
    ensures
        mint_step(m, user, event_id, now) matches Ok(v) && {
            &&& v.attendance_count == m[user].attendance_count + 1
            &&& v.tier == tier_of(v.attendance_count as int)
            &&& v.last_event_id == event_id
            &&& v.last_timestamp == now
            &&& v.owner == m[user].owner
            &&& after_mint(m, user, event_id, now) == m.insert(user, v)
        },
{
}

/// The store after a series of claims `(identity, event, time)`, processed
/// one after another.
pub open spec fn run_claims(
    m: Map<Seq<u8>, AttendeeView>,
    claims: Seq<(Seq<u8>, Seq<char>, i64)>,
) -> Map<Seq<u8>, AttendeeView>
    decreases claims.len(),
{
    if claims.len() == 0 {
        m
    } else {
        let c = claims.last();
        after_mint(run_claims(m, claims.drop_last()), c.0, c.1, c.2)
    }
}

/// How many claims of a series succeed for `user`.
pub open spec fn successes_for(
    m: Map<Seq<u8>, AttendeeView>,
    claims: Seq<(Seq<u8>, Seq<char>, i64)>,
    user: Seq<u8>,
) -> nat
    decreases claims.len(),
{
    if claims.len() == 0 {
        0
    } else {
        let c = claims.last();
        let before = run_claims(m, claims.drop_last());
        successes_for(m, claims.drop_last(), user) + if c.0 == user && mint_step(
            before,
            c.0,
            c.1,
            c.2,
        ) is Ok {
            1nat
        } else {
            0nat
        }
    }
}

/// No claim is lost: once claims are serialized, as exclusive access to the
/// store makes them, an identity's final count is its count before the series
/// plus the number of its claims that succeeded, whatever other identities
/// claim in between.
pub proof fn lemma_no_lost_claims(
    m: Map<Seq<u8>, AttendeeView>,
    claims: Seq<(Seq<u8>, Seq<char>, i64)>,
    user: Seq<u8>,
)
    requires
        m.contains_key(user),
    ensures
        run_claims(m, claims).contains_key(user),
        run_claims(m, claims)[user].attendance_count == m[user].attendance_count
            + successes_for(m, claims, user),
    decreases claims.len(),
{
    if claims.len() > 0 {
        lemma_no_lost_claims(m, claims.drop_last(), user);
    }
}

} // verus!
