//! The membership of a session at one moment: who is in which channel.

use vstd::prelude::*;

verus! {

/// One participant of a session, with the channel they are in, if any.
#[derive(Clone, Copy, Debug, PartialEq, Eq)]
pub struct Participant {
    pub user: u64,
    pub channel: Option<u64>,
}

/// A membership as a mathematical map: from a participant to the channel
/// they are in, if any.
pub type Membership = Map<u64, Option<u64>>;

/// The channel that `user` is in, for a participant that is listed with one.
pub open spec fn channel_in(members: Membership, user: u64) -> Option<u64> {
    if members.contains_key(user) {
        members[user]
    } else {
        None
    }
}

/// The participants in `channel`, but for `own`.
pub open spec fn others(members: Membership, channel: u64, own: u64) -> Set<u64> {
    Set::new(|user: u64| user != own && members.contains_key(user) && members[user] == Some(channel))
}

/// Nobody but `own` is in `channel`.
pub open spec fn alone(members: Membership, channel: u64, own: u64) -> bool {
    forall|user: u64| !others(members, channel, own).contains(user)
}

/// No participant is listed twice.
pub open spec fn distinct_users(entries: Seq<Participant>) -> bool {
    forall|i: int, j: int| 0 <= i < j < entries.len() ==> entries[i].user != entries[j].user
}

/// `user` is listed.
pub open spec fn listed(entries: Seq<Participant>, user: u64) -> bool {
    exists|i: int| 0 <= i < entries.len() && entries[i].user == user
}

/// Where `user` is listed.
pub open spec fn index_of(entries: Seq<Participant>, user: u64) -> int {
    choose|i: int| 0 <= i < entries.len() && entries[i].user == user
}

/// The map that a list of participants stands for.
pub open spec fn membership(entries: Seq<Participant>) -> Membership {
    Map::new(
        |user: u64| listed(entries, user),
        |user: u64| entries[index_of(entries, user)].channel,
    )
}

/// In a list without repetition, an entry is found under its participant.
pub proof fn lemma_entry_found(entries: Seq<Participant>, at: int)
    requires
        distinct_users(entries),
        0 <= at < entries.len(),
    ensures
        listed(entries, entries[at].user),
        index_of(entries, entries[at].user) == at,
        membership(entries)[entries[at].user] == entries[at].channel,
{
    let found = index_of(entries, entries[at].user);
    assert(0 <= found < entries.len() && entries[found].user == entries[at].user);
    if found < at {
        assert(entries[found].user != entries[at].user);
    } else if at < found {
        assert(entries[at].user != entries[found].user);
    }
}

/// A list of participants stands for a finite map.
pub proof fn lemma_membership_finite(entries: Seq<Participant>)
    ensures
        membership(entries).dom().finite(),
    decreases entries.len(),
{
    if entries.len() == 0 {
        assert(membership(entries).dom() =~= Set::empty());
    } else {
        let front = entries.drop_last();
        lemma_membership_finite(front);
        assert forall|user: u64| listed(entries, user) <==> (listed(front, user) || user
            == entries.last().user) by {
            if listed(entries, user) {
                let i = index_of(entries, user);
                if i < entries.len() - 1 {
                    assert(front[i].user == user);
                }
            }
            if listed(front, user) {
                let i = index_of(front, user);
                assert(entries[i].user == user);
            }
            if user == entries.last().user {
                assert(entries[entries.len() - 1].user == user);
            }
        }
        assert(membership(entries).dom() =~= membership(front).dom().insert(entries.last().user));
    }
}

/// Lists `entry` in place of the entry of the same participant, or at the end
/// where the participant was not listed.
fn put_entry(entries: &mut Vec<Participant>, entry: Participant)
    requires
        distinct_users(old(entries)@),
    ensures
        distinct_users(final(entries)@),
        membership(final(entries)@) == membership(old(entries)@).insert(entry.user, entry.channel),
{
    let ghost before = entries@;
    let user = entry.user;
    let channel = entry.channel;
    let mut i: usize = 0;
    while i < entries.len()
        invariant
            i <= entries.len(),
            entries@ == before,
            before == old(entries)@,
            distinct_users(before),
            entry.user == user,
            entry.channel == channel,
            forall|j: int| 0 <= j < i ==> before[j].user != user,
        decreases entries.len() - i,
    {
        if entries[i].user == user {
            entries.set(i, entry);
            proof {
                let after = entries@;
                assert(distinct_users(after));
                assert forall|other: u64| #[trigger] listed(after, other) <==> listed(before, other) by {
                    if listed(after, other) {
                        assert(before[index_of(after, other)].user == other);
                    }
                    if listed(before, other) {
                        assert(after[index_of(before, other)].user == other);
                    }
                }
                assert forall|other: u64| listed(after, other) implies #[trigger] membership(after)[other]
                    == membership(before).insert(user, channel)[other] by {
                    let at = index_of(after, other);
                    lemma_entry_found(after, at);
                    lemma_entry_found(before, at);
                }
                assert(membership(after) =~= membership(before).insert(user, channel));
            }
            return ;
        }
        i += 1;
    }
    entries.push(entry);
    proof {
        let after = entries@;
        assert(distinct_users(after));
        assert(after[before.len() as int].user == user);
        assert forall|other: u64| #[trigger] listed(after, other) <==> (listed(before, other) || other == user) by {
            if listed(after, other) {
                let at = index_of(after, other);
                if at < before.len() {
                    assert(before[at].user == other);
                }
            }
            if listed(before, other) {
                assert(after[index_of(before, other)].user == other);
            }
        }
        assert forall|other: u64| listed(after, other) implies #[trigger] membership(after)[other]
            == membership(before).insert(user, channel)[other] by {
            let at = index_of(after, other);
            lemma_entry_found(after, at);
            if at < before.len() {
                lemma_entry_found(before, at);
            }
        }
        assert(membership(after) =~= membership(before).insert(user, channel));
    }
}

/// Who is in which channel of a session, as the transport reported it for
/// one decision. Each participant is listed once.
pub struct MembershipSnapshot {
    entries: Vec<Participant>,
}

impl View for MembershipSnapshot {
    type V = Membership;

    closed spec fn view(&self) -> Membership {
        membership(self.entries@)
    }
}

/// The membership that a reply of the transport holds, if it holds one.
pub open spec fn seen(snapshot: Option<MembershipSnapshot>) -> Option<Membership> {
    match snapshot {
        Some(present) => Some(present@),
        None => None,
    }
}

impl MembershipSnapshot {
    #[verifier::type_invariant]
    spec fn listed_once(&self) -> bool {
        distinct_users(self.entries@)
    }

    /// A snapshot without participants.
    pub fn new() -> (snapshot: MembershipSnapshot)
        ensures
            snapshot@ == Membership::empty(),
    {
        let snapshot = MembershipSnapshot { entries: Vec::new() };
        assert(snapshot@ =~= Membership::empty());
        snapshot
    }

    /// Records that `user` is in `channel`, or in none, in place of what was
    /// recorded for `user` before.
    pub fn record(&mut self, user: u64, channel: Option<u64>)
        ensures
            final(self)@ == old(self)@.insert(user, channel),
    {
        proof {
            use_type_invariant(&*self);
        }
        let mut entries: Vec<Participant> = Vec::new();
        core::mem::swap(&mut self.entries, &mut entries);
        put_entry(&mut entries, Participant { user, channel });
        core::mem::swap(&mut self.entries, &mut entries);
    }

    /// The number of participants listed.
    pub fn len(&self) -> (count: usize)
        ensures
            count == self@.dom().len(),
            self@.dom().finite(),
    {
        proof {
            use_type_invariant(self);
            lemma_membership_finite(self.entries@);
            lemma_membership_size(self.entries@);
        }
        self.entries.len()
    }

    /// The channel that `user` is in; `None` for a participant who is not
    /// listed, or is listed without a channel.
    pub fn channel_of(&self, user: u64) -> (channel: Option<u64>)
        ensures
            channel == channel_in(self@, user),
    {
        proof {
            use_type_invariant(self);
        }
        let mut i: usize = 0;
        while i < self.entries.len()
            invariant
                i <= self.entries.len(),
                distinct_users(self.entries@),
                forall|j: int| 0 <= j < i ==> self.entries@[j].user != user,
            decreases self.entries.len() - i,
        {
            if self.entries[i].user == user {
                proof {
                    lemma_entry_found(self.entries@, i as int);
                }
                return self.entries[i].channel;
            }
            i += 1;
        }
        proof {
            if listed(self.entries@, user) {
                assert(self.entries@[index_of(self.entries@, user)].user == user);
            }
        }
        None
    }

    /// Whether nobody but `own` is in `channel`.
    pub fn is_alone(&self, channel: u64, own: u64) -> (nobody: bool)
        ensures
            nobody == alone(self@, channel, own),
    {
        proof {
            use_type_invariant(self);
        }
        let mut i: usize = 0;
        while i < self.entries.len()
            invariant
                i <= self.entries.len(),
                distinct_users(self.entries@),
                forall|j: int|
                    0 <= j < i ==> !(self.entries@[j].user != own && self.entries@[j].channel
                        == Some(channel)),
            decreases self.entries.len() - i,
        {
            let entry = self.entries[i];
            let here = match entry.channel {
                Some(c) => c == channel,
                None => false,
            };
            if here && entry.user != own {
                proof {
                    lemma_entry_found(self.entries@, i as int);
                    assert(others(self@, channel, own).contains(entry.user));
                }
                return false;
            }
            i += 1;
        }
        proof {
            assert forall|user: u64| !others(self@, channel, own).contains(user) by {
                if listed(self.entries@, user) {
                    lemma_entry_found(self.entries@, index_of(self.entries@, user));
                }
            }
        }
        true
    }
}

/// A list without repetition stands for a map with as many participants as
/// the list has entries.
pub proof fn lemma_membership_size(entries: Seq<Participant>)
    requires
        distinct_users(entries),
    ensures
        membership(entries).dom().finite(),
        membership(entries).dom().len() == entries.len(),
    decreases entries.len(),
{
    lemma_membership_finite(entries);
    if entries.len() == 0 {
        assert(membership(entries).dom() =~= Set::empty());
    } else {
        let front = entries.drop_last();
        lemma_membership_size(front);
        let last = entries.last().user;
        assert(!listed(front, last)) by {
            if listed(front, last) {
                let i = index_of(front, last);
                assert(entries[i].user == entries[entries.len() - 1].user);
            }
        }
        assert forall|user: u64| listed(entries, user) <==> (listed(front, user) || user == last) by {
            if listed(entries, user) {
                let i = index_of(entries, user);
                if i < entries.len() - 1 {
                    assert(front[i].user == user);
                }
            }
            if listed(front, user) {
                let i = index_of(front, user);
                assert(entries[i].user == user);
            }
            if user == last {
                assert(entries[entries.len() - 1].user == user);
            }
        }
        assert(membership(entries).dom() =~= membership(front).dom().insert(last));
    }
}

/// With `n` others in the channel, the automated participant is alone if and
/// only if `n` is zero.
pub proof fn lemma_alone_iff_no_others(members: Membership, channel: u64, own: u64)
    requires
        members.dom().finite(),
    ensures
        others(members, channel, own).finite(),
        alone(members, channel, own) <==> others(members, channel, own).len() == 0,
{
    let present = others(members, channel, own);
    assert(present.subset_of(members.dom()));
    vstd::set_lib::lemma_set_subset_finite(members.dom(), present);
    if present.len() == 0 {
        present.lemma_len0_is_empty();
    }
    if alone(members, channel, own) {
        assert(present =~= Set::empty());
    }
}

} // verus!
