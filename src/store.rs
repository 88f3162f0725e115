//! Identity-keyed storage of attendance records.

use vstd::prelude::*;
use crate::record::{AttendeeRecord, AttendeeView, GaroError};

verus! {

/// Whether two identities are the same.
pub fn same_identity(a: &[u8; 32], b: &[u8; 32]) -> (r: bool)
    ensures
        r == (a@ == b@),
{
    let mut i: usize = 0;
    while i < 32
        invariant
            0 <= i <= 32,
            a@.len() == 32,
            b@.len() == 32,
            forall|j: int| 0 <= j < i ==> a@[j] == b@[j],
        decreases 32 - i,
    {
        if a[i] != b[i] {
            return false;
        }
        i = i + 1;
    }
    assert(a@ =~= b@);
    true
}

/// Every stored record is well formed and filed under its own owner.
pub open spec fn records_wf(m: Map<Seq<u8>, AttendeeView>) -> bool {
    forall|k: Seq<u8>| #[trigger] m.contains_key(k) ==> m[k].owner == k && m[k].wf()
}

/// A store of attendance records, at most one per identity.
pub struct AttendeeStore {
    records: Vec<AttendeeRecord>,
    contents: Ghost<Map<Seq<u8>, AttendeeView>>,
}

impl View for AttendeeStore {
    type V = Map<Seq<u8>, AttendeeView>;

    closed spec fn view(&self) -> Map<Seq<u8>, AttendeeView> {
        self.contents@
    }
}

impl AttendeeStore {
    /// The store invariant: the records have distinct owners, and the map
    /// that the store stands for holds exactly them.
    pub closed spec fn wf(&self) -> bool {
        &&& forall|i: int|
            0 <= i < self.records.len() ==> {
                &&& #[trigger] self.contents@.contains_key(self.records@[i].owner@)
                &&& self.contents@[self.records@[i].owner@] == self.records@[i]@
            }
        &&& forall|k: Seq<u8>| #[trigger]
            self.contents@.contains_key(k) ==> exists|i: int|
                0 <= i < self.records.len() && #[trigger] self.records@[i].owner@ == k
        &&& forall|i: int, j: int|
            0 <= i < self.records.len() && 0 <= j < self.records.len() && i != j
                ==> self.records@[i].owner@ != self.records@[j].owner@
        &&& records_wf(self.contents@)
    }

    /// Every well-formed store holds well-formed records under their owners.
    pub proof fn lemma_records_wf(&self)
        requires
            self.wf(),
        ensures
            records_wf(self@),
    {
    }

    /// An empty store.
    pub fn new() -> (s: AttendeeStore)
        ensures
            s.wf(),
            s@ == Map::<Seq<u8>, AttendeeView>::empty(),
    {
        AttendeeStore { records: Vec::new(), contents: Ghost(Map::empty()) }
    }

    /// The number of stored records.
    pub fn len(&self) -> (n: usize)
        requires
            self.wf(),
        ensures
            n == self@.len(),
    {
        proof {
            self.lemma_dom_is_owners();
        }
        self.records.len()
    }

    proof fn lemma_dom_is_owners(&self)
        requires
            self.wf(),
        ensures
            self@.dom() == self.records@.map_values(|r: AttendeeRecord| r.owner@).to_set(),
            self@.dom().len() == self.records.len(),
    {
        let owners = self.records@.map_values(|r: AttendeeRecord| r.owner@);
        assert forall|k: Seq<u8>| self@.dom().contains(k) <==> owners.to_set().contains(k) by {
            if self@.dom().contains(k) {
                let i = choose|i: int|
                    0 <= i < self.records.len() && #[trigger] self.records@[i].owner@ == k;
                assert(owners[i] == k);
            }
            if owners.to_set().contains(k) {
                let i = choose|i: int| 0 <= i < owners.len() && owners[i] == k;
                assert(self.contents@.contains_key(self.records@[i].owner@));
            }
        }
        assert(self@.dom() =~= owners.to_set());
        assert forall|i: int, j: int| 0 <= i < owners.len() && 0 <= j < owners.len() && i != j
            implies owners[i] != owners[j] by {}
        assert(owners.no_duplicates());
        owners.unique_seq_to_set();
    }

    /// Where the record of `owner` stands, if there is one.
    fn find(&self, owner: &[u8; 32]) -> (r: Option<usize>)
        requires
            self.wf(),
        ensures
            r is Some <==> self@.contains_key(owner@),
            r matches Some(i) ==> i < self.records.len() && self.records@[i as int].owner@
                == owner@,
    {
        let mut i: usize = 0;
        while i < self.records.len()
            invariant
                self.wf(),
                0 <= i <= self.records.len(),
                forall|j: int| 0 <= j < i ==> self.records@[j].owner@ != owner@,
            decreases self.records.len() - i,
        {
            if same_identity(&self.records[i].owner, owner) {
                return Some(i);
            }
            i = i + 1;
        }
        proof {
            if self@.contains_key(owner@) {
                let j = choose|j: int|
                    0 <= j < self.records.len() && #[trigger] self.records@[j].owner@ == owner@;
                assert(self.records@[j].owner@ != owner@);
            }
        }
        None
    }

    /// Whether a record exists for `owner`.
    pub fn contains(&self, owner: &[u8; 32]) -> (r: bool)
        requires
            self.wf(),
        ensures
            r == self@.contains_key(owner@),
    {
        self.find(owner).is_some()
    }

    /// Creates the record of `owner` with default values. Fails with
    /// `IdentityAlreadyInitialized`, changing nothing, where one exists.
    pub fn create(&mut self, owner: [u8; 32], bump: u8) -> (res: Result<(), GaroError>)
        requires
            old(self).wf(),
        ensures
            final(self).wf(),
            old(self)@.contains_key(owner@) ==> res == Err::<(), GaroError>(
                GaroError::IdentityAlreadyInitialized,
            ) && final(self)@ == old(self)@,
            !old(self)@.contains_key(owner@) ==> res == Ok::<(), GaroError>(()) && final(self)@ == old(self)@.insert(
                owner@,
                crate::record::fresh_record(owner@, bump),
            ),
    {
        if self.find(&owner).is_some() {
            return Err(GaroError::IdentityAlreadyInitialized);
        }
        let rec = AttendeeRecord::new(owner, bump);
        let ghost old_records = self.records@;
        let ghost old_contents = self.contents@;
        self.records.push(rec);
        self.contents = Ghost(old_contents.insert(owner@, rec@));
        proof {
            let n = old_records.len() as int;
            assert forall|i: int| 0 <= i < self.records.len() implies {
                &&& #[trigger] self.contents@.contains_key(self.records@[i].owner@)
                &&& self.contents@[self.records@[i].owner@] == self.records@[i]@
            } by {
                if i < n {
                    assert(self.records@[i] == old_records[i]);
                    assert(old_contents.contains_key(old_records[i].owner@));
                }
            }
            assert forall|k: Seq<u8>| #[trigger]
                self.contents@.contains_key(k) implies exists|i: int|
                    0 <= i < self.records.len() && #[trigger] self.records@[i].owner@ == k by {
                if k == owner@ {
                    assert(self.records@[n].owner@ == k);
                } else {
                    let i = choose|i: int|
                        0 <= i < old_records.len() && #[trigger] old_records[i].owner@ == k;
                    assert(self.records@[i].owner@ == k);
                }
            }
            assert forall|i: int, j: int|
                0 <= i < self.records.len() && 0 <= j < self.records.len() && i != j
                    implies self.records@[i].owner@ != self.records@[j].owner@ by {
                if i < n {
                    assert(old_contents.contains_key(old_records[i].owner@));
                }
                if j < n {
                    assert(old_contents.contains_key(old_records[j].owner@));
                }
            }
        }
        Ok(())
    }

    /// The record of `owner`. Fails with `IdentityNotFound` where there is none.
    pub fn load(&self, owner: &[u8; 32]) -> (res: Result<AttendeeRecord, GaroError>)
        requires
            self.wf(),
        ensures
            self@.contains_key(owner@) ==> (res matches Ok(r) && r@ == self@[owner@]),
            !self@.contains_key(owner@) ==> res == Err::<AttendeeRecord, GaroError>(
                GaroError::IdentityNotFound,
            ),
    {
        match self.find(owner) {
            Some(i) => Ok(self.records[i].duplicate()),
            None => Err(GaroError::IdentityNotFound),
        }
    }

    /// Overwrites the stored record of `record.owner` with `record`. Fails
    /// with `IdentityNotFound`, changing nothing, where that identity has no
    /// record.
    pub fn save(&mut self, record: AttendeeRecord) -> (res: Result<(), GaroError>)
        requires
            old(self).wf(),
            record@.wf(),
        ensures
            final(self).wf(),
            old(self)@.contains_key(record.owner@) ==> res is Ok && final(self)@ == old(
                self,
            )@.insert(record.owner@, record@),
            !old(self)@.contains_key(record.owner@) ==> res == Err::<(), GaroError>(
                GaroError::IdentityNotFound,
            ) && final(self)@ == old(self)@,
    {
        let idx = self.find(&record.owner);
        match idx {
            None => Err(GaroError::IdentityNotFound),
            Some(i) => {
                let ghost old_records = self.records@;
                let ghost old_contents = self.contents@;
                let ghost key = record.owner@;
                let ghost value = record@;
                self.records.set(i, record);
                self.contents = Ghost(old_contents.insert(key, value));
                proof {
                    assert forall|j: int| 0 <= j < self.records.len() implies {
                        &&& #[trigger] self.contents@.contains_key(self.records@[j].owner@)
                        &&& self.contents@[self.records@[j].owner@] == self.records@[j]@
                    } by {
                        if j != i {
                            assert(self.records@[j] == old_records[j]);
                            assert(old_contents.contains_key(old_records[j].owner@));
                        }
                    }
                    assert forall|k: Seq<u8>| #[trigger]
                        self.contents@.contains_key(k) implies exists|j: int|
                            0 <= j < self.records.len() && #[trigger] self.records@[j].owner@
                                == k by {
                        let j = choose|j: int|
                            0 <= j < old_records.len() && #[trigger] old_records[j].owner@ == k;
                        assert(self.records@[j].owner@ == k);
                    }
                }
                Ok(())
            },
        }
    }
}

} // verus!
