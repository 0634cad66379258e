//! The record store and the three steps in the life of a record: create,
//! mutate, close.

use vstd::prelude::*;
use crate::address::Address;
use crate::errors::ErrorCode;
use crate::records::Record;
use crate::records::RecordView;
use crate::records::Records;

verus! {

/// A change of one counter of a record, the other fields staying as they are.
#[derive(Clone, Copy, Debug, PartialEq, Eq, Structural)]
pub enum Change {
    /// Sets the post count of a profile.
    PostCount(u64),
    /// Sets the likes of a post or of a tweet.
    Likes(u64),
    /// Sets the dislikes of a tweet.
    Dislikes(u64),
}

/// The record after the change, where the record has the counter.
pub open spec fn changed(record: RecordView, change: Change) -> Option<RecordView> {
    match (record, change) {
        (RecordView::Profile(p), Change::PostCount(n)) => Some(
            RecordView::Profile(crate::records::UserProfileView { post_count: n, ..p }),
        ),
        (RecordView::Post(p), Change::Likes(n)) => Some(
            RecordView::Post(crate::records::PostView { likes: n, ..p }),
        ),
        (RecordView::Tweet(t), Change::Likes(n)) => Some(
            RecordView::Tweet(t.with_counts(n, t.dislikes)),
        ),
        (RecordView::Tweet(t), Change::Dislikes(n)) => Some(
            RecordView::Tweet(t.with_counts(t.likes, n)),
        ),
        _ => None,
    }
}

/// How an operation ends: with the records that its outcome names and `Ok`,
/// or with its error and the records untouched.
pub open spec fn settles(
    outcome: Result<Records, ErrorCode>,
    before: Records,
    after: Records,
    r: Result<(), ErrorCode>,
) -> bool {
    match outcome {
        Ok(records) => r.is_ok() && after == records,
        Err(e) => r == Err::<(), ErrorCode>(e) && after == before,
    }
}

/// What `create` does to the records: nothing where the address is taken.
pub open spec fn creating(records: Records, address: Seq<u8>, record: RecordView)
    -> Result<Records, ErrorCode> {
    if records.contains_key(address) {
        Err(ErrorCode::AlreadyExists)
    } else {
        Ok(records.insert(address, record))
    }
}

/// What `mutate` does to the records: nothing where no record with that
/// counter lives at the address.
pub open spec fn mutating(records: Records, address: Seq<u8>, change: Change)
    -> Result<Records, ErrorCode> {
    if records.contains_key(address) && changed(records[address], change).is_some() {
        Ok(records.insert(address, changed(records[address], change).unwrap()))
    } else {
        Err(ErrorCode::NotFound)
    }
}

/// What `close` does to the records: nothing where the address is free, or
/// where the record names an authority other than `closer`.
pub open spec fn closing(records: Records, address: Seq<u8>, closer: Seq<u8>)
    -> Result<Records, ErrorCode> {
    if !records.contains_key(address) {
        Err(ErrorCode::NotFound)
    } else if records[address].authority().is_some() && records[address].authority().unwrap()
        != closer {
        Err(ErrorCode::Unauthorized)
    } else {
        Ok(records.remove(address))
    }
}

/// One record with the address at which it lives.
#[derive(Debug)]
struct Entry {
    address: Address,
    record: Record,
}

/// Whether some entry lives at `key`.
spec fn holds(entries: Seq<Entry>, key: Seq<u8>) -> bool {
    exists|i: int| 0 <= i < entries.len() && (#[trigger] entries[i]).address@ == key
}

/// The place of an entry that lives at `key`.
spec fn index_of(entries: Seq<Entry>, key: Seq<u8>) -> int {
    choose|i: int| 0 <= i < entries.len() && (#[trigger] entries[i]).address@ == key
}

/// No two entries live at one address.
spec fn distinct(entries: Seq<Entry>) -> bool {
    forall|i: int, j: int|
        0 <= i < j < entries.len() ==> (#[trigger] entries[i]).address@ != (
        #[trigger] entries[j]).address@
}

/// The entries as a map from address to record.
spec fn model(entries: Seq<Entry>) -> Records {
    Map::new(|k: Seq<u8>| holds(entries, k), |k: Seq<u8>| entries[index_of(entries, k)].record@)
}

/// With distinct addresses, the map holds the record of each entry at the
/// entry's address.
proof fn lemma_at(entries: Seq<Entry>, i: int)
    requires
        distinct(entries),
        0 <= i < entries.len(),
    ensures
        holds(entries, entries[i].address@),
        index_of(entries, entries[i].address@) == i,
        model(entries).contains_key(entries[i].address@),
        model(entries)[entries[i].address@] == entries[i].record@,
{
}

/// An entry pushed at a free address is an insertion into the map.
proof fn lemma_push(entries: Seq<Entry>, e: Entry)
    requires
        distinct(entries),
        !holds(entries, e.address@),
    ensures
        distinct(entries.push(e)),
        model(entries.push(e)) == model(entries).insert(e.address@, e.record@),
{
    let after = entries.push(e);
    assert(distinct(after));
    assert forall|k: Seq<u8>| #[trigger] holds(after, k) <==> (holds(entries, k) || k == e.address@) by {
        if holds(entries, k) {
            let i = index_of(entries, k);
            assert(after[i] == entries[i]);
        }
        if k == e.address@ {
            assert(after[entries.len() as int].address@ == k);
        }
    }
    assert forall|k: Seq<u8>| #[trigger] model(after).contains_key(k) implies model(after)[k]
        == model(entries).insert(e.address@, e.record@)[k] by {
        let i = index_of(after, k);
        lemma_at(after, i);
        if i < entries.len() {
            lemma_at(entries, i);
        }
    }
}

/// An entry swapped out against the last is a removal from the map.
proof fn lemma_swap_remove(entries: Seq<Entry>, i: int)
    requires
        distinct(entries),
        0 <= i < entries.len(),
    ensures
        distinct(entries.update(i, entries.last()).drop_last()),
        model(entries.update(i, entries.last()).drop_last()) == model(entries).remove(
            entries[i].address@,
        ),
{
    let after = entries.update(i, entries.last()).drop_last();
    let last = entries.len() - 1;
    let gone = entries[i].address@;
    // each slot of `after` holds an entry of `entries`, from a slot of its own
    assert forall|a: int| 0 <= a < after.len() implies #[trigger] after[a] == entries[if a
        == i {
        last
    } else {
        a
    }] by {}
    assert(distinct(after));
    assert forall|k: Seq<u8>| #[trigger] holds(after, k) <==> (holds(entries, k) && k != gone) by {
        if holds(entries, k) && k != gone {
            let s = index_of(entries, k);
            let a = if s == last { i } else { s };
            assert(after[a].address@ == k);
        }
    }
    assert forall|k: Seq<u8>| #[trigger] model(after).contains_key(k) implies model(after)[k]
        == model(entries).remove(gone)[k] by {
        let a = index_of(after, k);
        lemma_at(after, a);
        let sa = if a == i { last } else { a };
        lemma_at(entries, sa);
    }
}

/// The record store: at most one record at each address, under one program
/// identity, which is the namespace of every derived address.
#[derive(Debug)]
pub struct Ledger {
    program_id: Address,
    entries: Vec<Entry>,
}

impl View for Ledger {
    type V = Records;

    closed spec fn view(&self) -> Records {
        model(self.entries@)
    }
}

impl Ledger {
    #[verifier::type_invariant]
    spec fn one_record_per_address(&self) -> bool {
        distinct(self.entries@)
    }

    /// The program identity under which the ledger's addresses are derived.
    pub closed spec fn program(&self) -> Seq<u8> {
        self.program_id@
    }

    /// An empty ledger under the given program identity.
    pub fn new(program_id: Address) -> (r: Ledger)
        ensures
            r@ == Records::empty(),
            r.program() == program_id@,
    {
        let r = Ledger { program_id, entries: Vec::new() };
        r
    }

    /// The program identity.
    pub fn program_id(&self) -> (r: Address)
        ensures
            r@ == self.program(),
    {
        self.program_id
    }

    /// The number of records.
    pub fn len(&self) -> (r: usize)
        ensures
            r == self@.len(),
            self@.dom().finite(),
    {
        proof {
            use_type_invariant(self);
            lemma_len(self.entries@);
        }
        self.entries.len()
    }

    fn find(&self, address: &Address) -> (r: Option<usize>)
        ensures
            match r {
                Some(i) => i < self.entries@.len() && self.entries@[i as int].address@
                    == address@,
                None => !holds(self.entries@, address@),
            },
    {
        let mut i: usize = 0;
        while i < self.entries.len()
            invariant
                i <= self.entries@.len(),
                forall|j: int| 0 <= j < i ==> (#[trigger] self.entries@[j]).address@ != address@,
            decreases self.entries@.len() - i,
        {
            if self.entries[i].address.same(address) {
                return Some(i);
            }
            i += 1;
        }
        None
    }

    /// Whether a record lives at `address`.
    pub fn contains(&self, address: &Address) -> (r: bool)
        ensures
            r == self@.contains_key(address@),
    {
        self.find(address).is_some()
    }

    /// The record at `address`, where one lives there.
    pub fn get(&self, address: &Address) -> (r: Option<&Record>)
        ensures
            match r {
                Some(record) => self@.contains_key(address@) && self@[address@] == record@,
                None => !self@.contains_key(address@),
            },
    {
        match self.find(address) {
            Some(i) => {
                proof {
                    use_type_invariant(self);
                    lemma_at(self.entries@, i as int);
                }
                Some(&self.entries[i].record)
            },
            None => None,
        }
    }

    /// Puts `record` at `address`. Rejected with `AlreadyExists` where a record
    /// lives there.
    pub fn create(&mut self, address: Address, record: Record) -> (r: Result<(), ErrorCode>)
        ensures
            final(self).program() == old(self).program(),
            settles(creating(old(self)@, address@, record@), old(self)@, final(self)@, r),
    {
        proof {
            use_type_invariant(&*self);
        }
        if self.find(&address).is_some() {
            return Err(ErrorCode::AlreadyExists);
        }
        let entry = Entry { address, record };
        proof {
            lemma_push(self.entries@, entry);
        }
        let mut entries: Vec<Entry> = Vec::new();
        std::mem::swap(&mut entries, &mut self.entries);
        entries.push(entry);
        self.entries = entries;
        Ok(())
    }

    /// Changes one counter of the record at `address`, in place. Rejected with
    /// `NotFound` where no record lives there, or one without that counter.
    pub fn mutate(&mut self, address: &Address, change: Change) -> (r: Result<(), ErrorCode>)
        ensures
            final(self).program() == old(self).program(),
            settles(mutating(old(self)@, address@, change), old(self)@, final(self)@, r),
    {
        proof {
            use_type_invariant(&*self);
        }
        let i: usize = match self.find(address) {
            Some(i) => i,
            None => {
                return Err(ErrorCode::NotFound);
            },
        };
        proof {
            lemma_at(self.entries@, i as int);
        }
        let applies: bool = match (&self.entries[i].record, change) {
            (Record::Profile(_), Change::PostCount(_)) => true,
            (Record::Post(_), Change::Likes(_)) => true,
            (Record::Tweet(_), Change::Likes(_)) => true,
            (Record::Tweet(_), Change::Dislikes(_)) => true,
            _ => false,
        };
        if !applies {
            return Err(ErrorCode::NotFound);
        }
        let ghost before = self.entries@;
        let mut entries: Vec<Entry> = Vec::new();
        std::mem::swap(&mut entries, &mut self.entries);
        let entry = entries.swap_remove(i);
        proof {
            lemma_swap_remove(before, i as int);
        }
        let record = match (entry.record, change) {
            (Record::Profile(p), Change::PostCount(n)) => Record::Profile(
                crate::records::UserProfile { post_count: n, ..p },
            ),
            (Record::Post(p), Change::Likes(n)) => Record::Post(
                crate::records::Post { likes: n, ..p },
            ),
            (Record::Tweet(t), Change::Likes(n)) => {
                let d: u64 = t.dislikes();
                Record::Tweet(t.with_counts(n, d))
            },
            (Record::Tweet(t), Change::Dislikes(n)) => {
                let l: u64 = t.likes();
                Record::Tweet(t.with_counts(l, n))
            },
            (other, _) => other,
        };
        let next = Entry { address: entry.address, record };
        proof {
            assert(!model(entries@).contains_key(next.address@));
            lemma_push(entries@, next);
            assert(model(entries@.push(next)) =~= mutating(
                model(before),
                address@,
                change,
            ).unwrap());
        }
        entries.push(next);
        self.entries = entries;
        Ok(())
    }

    /// Takes the record at `address` out of the ledger for `closer`, and frees
    /// the address for a later create. Rejected with `NotFound` where no record
    /// lives there, and with `Unauthorized` where the record names an authority
    /// other than `closer`.
    pub fn close(&mut self, address: &Address, closer: &Address) -> (r: Result<Record, ErrorCode>)
        ensures
            final(self).program() == old(self).program(),
            match closing(old(self)@, address@, closer@) {
                Ok(records) => r.is_ok() && r.unwrap()@ == old(self)@[address@] && final(self)@
                    == records,
                Err(e) => r.is_err() && r.unwrap_err() == e && final(self)@ == old(self)@,
            },
    {
        proof {
            use_type_invariant(&*self);
        }
        let i: usize = match self.find(address) {
            Some(i) => i,
            None => {
                return Err(ErrorCode::NotFound);
            },
        };
        proof {
            lemma_at(self.entries@, i as int);
        }
        let allowed: bool = match self.entries[i].record.authority() {
            Some(a) => a.same(closer),
            None => true,
        };
        if !allowed {
            return Err(ErrorCode::Unauthorized);
        }
        let ghost before = self.entries@;
        let mut entries: Vec<Entry> = Vec::new();
        std::mem::swap(&mut entries, &mut self.entries);
        let entry = entries.swap_remove(i);
        proof {
            lemma_swap_remove(before, i as int);
        }
        self.entries = entries;
        Ok(entry.record)
    }
}

/// With distinct addresses, the map has as many records as there are entries.
proof fn lemma_len(entries: Seq<Entry>)
    requires
        distinct(entries),
    ensures
        model(entries).dom().finite(),
        model(entries).len() == entries.len(),
    decreases entries.len(),
{
    if entries.len() == 0 {
        assert(model(entries) =~= Records::empty());
    } else {
        let front = entries.drop_last();
        let e = entries.last();
        assert(distinct(front));
        assert(!holds(front, e.address@));
        lemma_len(front);
        lemma_push(front, e);
        assert(front.push(e) =~= entries);
    }
}

} // verus!
