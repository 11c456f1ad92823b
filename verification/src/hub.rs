use vstd::prelude::*;

use crate::types::{Identity, LedgerError, Neighborhood, Poll, Post, VoteRecord};

verus! {

/// How many votes among `vs` were cast on poll `poll_id` for option `option`.
pub open spec fn count_votes(vs: Seq<VoteRecord>, poll_id: u32, option: u32) -> nat
    decreases vs.len(),
{
    if vs.len() == 0 {
        0
    } else {
        count_votes(vs.drop_last(), poll_id, option) + (if vs.last().poll_id == poll_id
            && vs.last().option == option {
            1nat
        } else {
            0nat
        })
    }
}

/// How many votes among `vs` were cast on poll `poll_id`, over all options.
pub open spec fn count_poll_votes(vs: Seq<VoteRecord>, poll_id: u32) -> nat
    decreases vs.len(),
{
    if vs.len() == 0 {
        0
    } else {
        count_poll_votes(vs.drop_last(), poll_id) + (if vs.last().poll_id == poll_id {
            1nat
        } else {
            0nat
        })
    }
}

/// The set of identities that voted on poll `poll_id` among `vs`.
pub open spec fn poll_voters(vs: Seq<VoteRecord>, poll_id: u32) -> Set<Identity>
    decreases vs.len(),
{
    if vs.len() == 0 {
        Set::empty()
    } else {
        let rest = poll_voters(vs.drop_last(), poll_id);
        if vs.last().poll_id == poll_id {
            rest.insert(vs.last().voter)
        } else {
            rest
        }
    }
}

/// A poll nothing ever voted on has a zero count for every option.
proof fn lemma_count_votes_absent(vs: Seq<VoteRecord>, poll_id: u32, option: u32)
    requires
        forall|i: int| 0 <= i < vs.len() ==> (#[trigger] vs[i]).poll_id != poll_id,
    ensures
        count_votes(vs, poll_id, option) == 0,
    decreases vs.len(),
{
    if vs.len() > 0 {
        assert forall|i: int| 0 <= i < vs.drop_last().len() implies (#[trigger] vs.drop_last()[i]).poll_id
            != poll_id by {
            assert(vs.drop_last()[i] == vs[i]);
        }
        lemma_count_votes_absent(vs.drop_last(), poll_id, option);
    }
}

/// Appending one vote raises exactly the count it names, and no other.
proof fn lemma_count_votes_push(vs: Seq<VoteRecord>, v: VoteRecord, poll_id: u32, option: u32)
    ensures
        count_votes(vs.push(v), poll_id, option) == count_votes(vs, poll_id, option) + (
        if v.poll_id == poll_id && v.option == option {
            1nat
        } else {
            0nat
        }),
{
    assert(vs.push(v).drop_last() =~= vs);
    assert(vs.push(v).last() == v);
}

/// A single option's count never exceeds the poll's whole count.
proof fn lemma_count_votes_le_poll(vs: Seq<VoteRecord>, poll_id: u32, option: u32)
    ensures
        count_votes(vs, poll_id, option) <= count_poll_votes(vs, poll_id),
    decreases vs.len(),
{
    if vs.len() > 0 {
        lemma_count_votes_le_poll(vs.drop_last(), poll_id, option);
    }
}

/// With one vote per voter per poll, a poll's whole count equals the number
/// of distinct identities that voted on it.
proof fn lemma_poll_voters_card(vs: Seq<VoteRecord>, poll_id: u32)
    requires
        votes_distinct(vs),
    ensures
        poll_voters(vs, poll_id).finite(),
        poll_voters(vs, poll_id).len() == count_poll_votes(vs, poll_id),
        forall|id: Identity|
            poll_voters(vs, poll_id).contains(id) <==> exists|i: int|
                0 <= i < vs.len() && (#[trigger] vs[i]).poll_id == poll_id && vs[i].voter == id,
    decreases vs.len(),
{
    if vs.len() == 0 {
        assert(poll_voters(vs, poll_id) =~= Set::<Identity>::empty());
    } else {
        let rest = vs.drop_last();
        let last = vs.last();
        assert(forall|i: int| 0 <= i < rest.len() ==> rest[i] == vs[i]);
        lemma_poll_voters_card(rest, poll_id);
        assert forall|id: Identity| poll_voters(vs, poll_id).contains(id) implies exists|i: int|
            0 <= i < vs.len() && (#[trigger] vs[i]).poll_id == poll_id && vs[i].voter == id by {
            if last.poll_id == poll_id && id == last.voter {
                assert(vs[vs.len() - 1].poll_id == poll_id && vs[vs.len() - 1].voter == id);
            } else {
                let i = choose|i: int|
                    0 <= i < rest.len() && (#[trigger] rest[i]).poll_id == poll_id && rest[i].voter
                        == id;
                assert(vs[i].poll_id == poll_id && vs[i].voter == id);
            }
        }
        assert forall|id: Identity|
            (exists|i: int|
                0 <= i < vs.len() && (#[trigger] vs[i]).poll_id == poll_id && vs[i].voter
                    == id) implies poll_voters(vs, poll_id).contains(id) by {
            let i = choose|i: int|
                0 <= i < vs.len() && (#[trigger] vs[i]).poll_id == poll_id && vs[i].voter == id;
            if i < vs.len() - 1 {
                assert(rest[i].poll_id == poll_id && rest[i].voter == id);
            }
        }
        if last.poll_id == poll_id {
            assert(!poll_voters(rest, poll_id).contains(last.voter)) by {
                if poll_voters(rest, poll_id).contains(last.voter) {
                    let i = choose|i: int|
                        0 <= i < rest.len() && (#[trigger] rest[i]).poll_id == poll_id
                            && rest[i].voter == last.voter;
                    assert(vs[i].poll_id == vs[vs.len() - 1].poll_id && vs[i].voter == vs[vs.len()
                        - 1].voter);
                    assert(false);
                }
            }
        }
    }
}

/// An identity that has not yet voted on a poll leaves room below the member
/// count: with distinct voters drawn from the members, the poll's whole
/// count stays strictly under the number of members.
proof fn lemma_poll_votes_have_room(
    vs: Seq<VoteRecord>,
    members: Seq<Identity>,
    poll_id: u32,
    voter: Identity,
)
    requires
        votes_distinct(vs),
        forall|i: int| 0 <= i < vs.len() ==> members.contains((#[trigger] vs[i]).voter),
        members.no_duplicates(),
        members.contains(voter),
        forall|i: int|
            0 <= i < vs.len() ==> !((#[trigger] vs[i]).poll_id == poll_id && vs[i].voter == voter),
    ensures
        count_poll_votes(vs, poll_id) < members.len(),
{
    broadcast use vstd::seq_lib::group_seq_lib_default;

    lemma_poll_voters_card(vs, poll_id);
    let voters = poll_voters(vs, poll_id);
    let mset = members.to_set();
    members.unique_seq_to_set();
    assert(mset.contains(voter));
    assert forall|id: Identity| voters.contains(id) implies mset.remove(voter).contains(id) by {
        let i = choose|i: int|
            0 <= i < vs.len() && (#[trigger] vs[i]).poll_id == poll_id && vs[i].voter == id;
        assert(members.contains(id));
        assert(id != voter);
    }
    assert(voters.subset_of(mset.remove(voter)));
    assert(mset.remove(voter).len() == mset.len() - 1);
    vstd::set_lib::lemma_len_subset(voters, mset.remove(voter));
}

/// No two vote records share a `(poll_id, voter)` pair: one vote per voter
/// per poll.
pub open spec fn votes_distinct(vs: Seq<VoteRecord>) -> bool {
    forall|i: int, j: int|
        #![trigger vs[i], vs[j]]
        0 <= i < j < vs.len() ==> !(vs[i].poll_id == vs[j].poll_id && vs[i].voter == vs[j].voter)
}

/// One community instance: the single neighborhood record plus its members,
/// posts, polls, and vote records. Starts uninitialized; `init` moves it to
/// its one active state, and entities then only accumulate.
pub struct NeighborhoodHub {
    neighborhood: Option<Neighborhood>,
    members: Vec<Identity>,
    posts: Vec<Post>,
    polls: Vec<Poll>,
    votes: Vec<VoteRecord>,
}

impl NeighborhoodHub {
    /// Whether `init` has completed on this instance.
    pub closed spec fn is_active(&self) -> bool {
        self.neighborhood is Some
    }

    /// The admin recorded at `init` time. Immutable once set.
    pub closed spec fn spec_admin(&self) -> Identity
        recommends
            self.is_active(),
    {
        self.neighborhood->0.admin
    }

    /// The neighborhood's name as recorded at `init` time.
    pub closed spec fn spec_name(&self) -> Seq<char>
        recommends
            self.is_active(),
    {
        self.neighborhood->0.name@
    }

    /// The neighborhood's verification flag.
    pub closed spec fn spec_verified(&self) -> bool
        recommends
            self.is_active(),
    {
        self.neighborhood->0.verified
    }

    /// The recorded member count; zero while uninitialized.
    pub closed spec fn spec_member_count(&self) -> u32 {
        if self.neighborhood is Some {
            self.neighborhood->0.member_count
        } else {
            0
        }
    }

    /// The members, in the order they were added; the admin comes first.
    pub closed spec fn members(&self) -> Seq<Identity> {
        self.members@
    }

    /// Whether `id` is a current member of the neighborhood.
    pub open spec fn spec_is_member(&self, id: Identity) -> bool {
        self.members().contains(id)
    }

    /// All posts, in creation order; a post's index is its key.
    pub closed spec fn posts(&self) -> Seq<Post> {
        self.posts@
    }

    /// All polls, in creation order; `polls()[i].id == i`.
    pub closed spec fn polls(&self) -> Seq<Poll> {
        self.polls@
    }

    /// All recorded votes, in the order they were cast.
    pub closed spec fn votes(&self) -> Seq<VoteRecord> {
        self.votes@
    }

    /// Whether `voter` has a recorded vote on poll `poll_id`.
    pub open spec fn spec_has_voted(&self, poll_id: u32, voter: Identity) -> bool {
        exists|i: int|
            0 <= i < self.votes().len() && (#[trigger] self.votes()[i]).poll_id == poll_id
                && self.votes()[i].voter == voter
    }

    /// The well-formedness invariant every operation preserves: an
    /// uninitialized instance is empty; an active one counts its members
    /// exactly and lists the admin first; poll ids are their indices, every
    /// poll has at least two options and one tally per option; every vote
    /// names an existing poll, a valid option, and a member; votes are
    /// unique per `(poll_id, voter)`; and each tally equals the number of
    /// recorded votes for its option.
    pub closed spec fn wf(&self) -> bool {
        &&& self.neighborhood is None ==> {
            &&& self.members@.len() == 0
            &&& self.posts@.len() == 0
            &&& self.polls@.len() == 0
            &&& self.votes@.len() == 0
        }
        &&& self.neighborhood matches Some(n) ==> {
            &&& self.members@.len() == n.member_count as int
            &&& n.member_count >= 1
            &&& self.members@[0] == n.admin
        }
        &&& self.members@.no_duplicates()
        &&& forall|i: int|
            0 <= i < self.polls@.len() ==> {
                &&& (#[trigger] self.polls@[i]).id == i
                &&& self.polls@[i].options@.len() >= 2
                &&& self.polls@[i].options@.len() <= u32::MAX
                &&& self.polls@[i].tallies@.len() == self.polls@[i].options@.len()
            }
        &&& forall|i: int|
            0 <= i < self.votes@.len() ==> {
                &&& (#[trigger] self.votes@[i]).poll_id < self.polls@.len()
                &&& self.votes@[i].option
                    < self.polls@[self.votes@[i].poll_id as int].options@.len()
                &&& self.members@.contains(self.votes@[i].voter)
            }
        &&& votes_distinct(self.votes@)
        &&& forall|p: int, o: int|
            #![trigger self.polls@[p].tallies@[o]]
            0 <= p < self.polls@.len() && 0 <= o < self.polls@[p].tallies@.len()
                ==> self.polls@[p].tallies@[o] == count_votes(self.votes@, p as u32, o as u32)
    }

    /// A fresh, uninitialized instance.
    pub fn new() -> (hub: NeighborhoodHub)
        ensures
            hub.wf(),
            !hub.is_active(),
            hub.members().len() == 0,
            hub.posts().len() == 0,
            hub.polls().len() == 0,
            hub.votes().len() == 0,
    {
        NeighborhoodHub {
            neighborhood: None,
            members: Vec::new(),
            posts: Vec::new(),
            polls: Vec::new(),
            votes: Vec::new(),
        }
    }

    /// What `init` returns, decided entirely by the pre-state: an active
    /// instance is never re-initialized, and an unproven caller is refused
    /// before any state is touched.
    pub open spec fn init_outcome(&self, authorized: bool) -> Result<(), LedgerError> {
        if self.is_active() {
            Err(LedgerError::AlreadyInitialized)
        } else if !authorized {
            Err(LedgerError::Authorization)
        } else {
            Ok(())
        }
    }

    /// Create the single neighborhood record and move the instance to its
    /// active state, with `admin` as the recorded admin and sole first
    /// member. `authorized` is the host's verdict on whether the caller
    /// proved it is `admin`.
    ///
    /// Re-running `init` on an active instance fails with
    /// `AlreadyInitialized` and changes nothing: a later caller can never
    /// seize the admin seat or reset the member count.
    pub fn init(&mut self, admin: Identity, name: String, authorized: bool) -> (res: Result<
        (),
        LedgerError,
    >)
        requires
            old(self).wf(),
        ensures
            final(self).wf(),
            res == old(self).init_outcome(authorized),
            res is Err ==> *final(self) == *old(self),
            res is Ok ==> {
                &&& final(self).is_active()
                &&& final(self).spec_admin() == admin
                &&& final(self).spec_name() == name@
                &&& final(self).spec_verified()
                &&& final(self).spec_member_count() == 1
                &&& final(self).members() == seq![admin]
                &&& final(self).posts().len() == 0
                &&& final(self).polls().len() == 0
                &&& final(self).votes().len() == 0
            },
            final(self).spec_member_count() >= old(self).spec_member_count(),
    {
        if self.neighborhood.is_some() {
            return Err(LedgerError::AlreadyInitialized);
        }
        if !authorized {
            return Err(LedgerError::Authorization);
        }
        self.members.push(admin);
        self.neighborhood = Some(
            Neighborhood { name, verified: true, admin, member_count: 1 },
        );
        proof {
            assert(self.members@ =~= seq![admin]);
        }
        Ok(())
    }

    /// Whether `init` has completed on this instance.
    pub fn is_initialized(&self) -> (r: bool)
        ensures
            r == self.is_active(),
    {
        self.neighborhood.is_some()
    }

    /// The recorded admin, or `None` while uninitialized.
    pub fn admin(&self) -> (r: Option<Identity>)
        ensures
            r == if self.is_active() {
                Some(self.spec_admin())
            } else {
                None::<Identity>
            },
    {
        match &self.neighborhood {
            Some(n) => Some(n.admin),
            None => None,
        }
    }

    /// The neighborhood's name, or `None` while uninitialized.
    pub fn name(&self) -> (r: Option<&String>)
        ensures
            self.is_active() ==> r is Some && r->0@ == self.spec_name(),
            !self.is_active() ==> r is None,
    {
        match &self.neighborhood {
            Some(n) => Some(&n.name),
            None => None,
        }
    }

    /// Whether the neighborhood carries the verified mark; false while
    /// uninitialized.
    pub fn verified(&self) -> (r: bool)
        ensures
            r == (self.is_active() && self.spec_verified()),
    {
        match &self.neighborhood {
            Some(n) => n.verified,
            None => false,
        }
    }

    /// The recorded member count; zero while uninitialized.
    pub fn member_count(&self) -> (n: u32)
        ensures
            n == self.spec_member_count(),
    {
        match &self.neighborhood {
            Some(n) => n.member_count,
            None => 0,
        }
    }

    /// Whether `id` is a current member of the neighborhood.
    pub fn is_member(&self, id: Identity) -> (r: bool)
        ensures
            r == self.spec_is_member(id),
    {
        let mut i: usize = 0;
        while i < self.members.len()
            invariant
                0 <= i <= self.members.len(),
                forall|k: int| 0 <= k < i ==> self.members@[k] != id,
            decreases self.members.len() - i,
        {
            if self.members[i] == id {
                return true;
            }
            i = i + 1;
        }
        false
    }

    /// What `add_member` returns, decided entirely by the pre-state: only
    /// the recorded admin of an active instance, with the host's proof in
    /// hand, may add members; adding a current member again is a no-op.
    pub open spec fn add_member_outcome(
        &self,
        admin: Identity,
        new_member: Identity,
        authorized: bool,
    ) -> Result<(), LedgerError> {
        if !authorized {
            Err(LedgerError::Authorization)
        } else if !(self.is_active() && admin == self.spec_admin()) {
            Err(LedgerError::Authorization)
        } else {
            Ok(())
        }
    }

    /// Admit `new_member` to the neighborhood. Admin-gated: `admin` must be
    /// the identity recorded at `init` time, and `authorized` is the host's
    /// verdict on whether the caller proved it is `admin`. Admitting a
    /// current member again succeeds and changes nothing, so the operation
    /// is retry-safe. The member count only ever grows.
    pub fn add_member(&mut self, admin: Identity, new_member: Identity, authorized: bool) -> (res:
        Result<(), LedgerError>)
        requires
            old(self).wf(),
            old(self).spec_member_count() < u32::MAX,
        ensures
            final(self).wf(),
            res == old(self).add_member_outcome(admin, new_member, authorized),
            res is Err ==> *final(self) == *old(self),
            res is Ok ==> {
                &&& final(self).spec_is_member(new_member)
                &&& final(self).members() == if old(self).spec_is_member(new_member) {
                    old(self).members()
                } else {
                    old(self).members().push(new_member)
                }
                &&& final(self).spec_member_count() == final(self).members().len()
                &&& final(self).is_active() && final(self).spec_admin() == old(self).spec_admin()
                &&& final(self).spec_name() == old(self).spec_name()
                &&& final(self).spec_verified() == old(self).spec_verified()
                &&& final(self).posts() == old(self).posts()
                &&& final(self).polls() == old(self).polls()
                &&& final(self).votes() == old(self).votes()
            },
            final(self).spec_member_count() >= old(self).spec_member_count(),
    {
        if !authorized {
            return Err(LedgerError::Authorization);
        }
        let recorded = match &self.neighborhood {
            Some(n) => n.admin,
            None => {
                return Err(LedgerError::Authorization);
            },
        };
        if admin != recorded {
            return Err(LedgerError::Authorization);
        }
        if self.is_member(new_member) {
            return Ok(());
        }
        self.members.push(new_member);
        let n = self.neighborhood.take().unwrap();
        let count = n.member_count;
        self.neighborhood = Some(Neighborhood { member_count: count + 1, ..n });
        proof {
            let pre = old(self).members@;
            assert(self.members@[pre.len() as int] == new_member);
            assert(self.members@.contains(new_member));
            assert forall|v: Identity| pre.contains(v) implies self.members@.contains(v) by {
                let k = choose|k: int| 0 <= k < pre.len() && pre[k] == v;
                assert(self.members@[k] == v);
            }
            assert forall|i: int| 0 <= i < self.votes@.len() implies self.members@.contains(
                (#[trigger] self.votes@[i]).voter,
            ) by {
                assert(pre.contains(self.votes@[i].voter));
            }
        }
        Ok(())
    }

    /// What `create_post` returns, decided entirely by the pre-state: an
    /// unproven caller is refused, and so is any author outside the member
    /// set — holding an authorization proof alone does not grant posting
    /// rights. While uninitialized the member set is empty, so every author
    /// is refused. On success the new post's index is the old post count.
    pub open spec fn create_post_outcome(&self, author: Identity, authorized: bool) -> Result<
        usize,
        LedgerError,
    > {
        if !authorized {
            Err(LedgerError::Authorization)
        } else if !self.spec_is_member(author) {
            Err(LedgerError::NotMember)
        } else {
            Ok(self.posts().len() as usize)
        }
    }

    /// Append a post by `author` at the host clock's `timestamp` and return
    /// its index. Member-gated: `authorized` is the host's verdict on
    /// whether the caller proved it is `author`, and `author` must also be
    /// a current member. Posts are append-only: no post is ever mutated or
    /// deleted.
    pub fn create_post(
        &mut self,
        author: Identity,
        content: String,
        timestamp: u64,
        authorized: bool,
    ) -> (res: Result<usize, LedgerError>)
        requires
            old(self).wf(),
        ensures
            final(self).wf(),
            res == old(self).create_post_outcome(author, authorized),
            res is Err ==> *final(self) == *old(self),
            res is Ok ==> {
                &&& final(self).posts() == old(self).posts().push(
                    Post { author, content, timestamp },
                )
                &&& final(self).members() == old(self).members()
                &&& final(self).polls() == old(self).polls()
                &&& final(self).votes() == old(self).votes()
                &&& final(self).is_active() == old(self).is_active()
                &&& final(self).spec_admin() == old(self).spec_admin()
                &&& final(self).spec_name() == old(self).spec_name()
                &&& final(self).spec_verified() == old(self).spec_verified()
            },
            final(self).spec_member_count() == old(self).spec_member_count(),
    {
        if !authorized {
            return Err(LedgerError::Authorization);
        }
        if !self.is_member(author) {
            return Err(LedgerError::NotMember);
        }
        let index = self.posts.len();
        self.posts.push(Post { author, content, timestamp });
        Ok(index)
    }

    /// What `create_poll` returns, decided entirely by the pre-state: an
    /// unproven caller is refused, then a non-member, then a proposal with
    /// fewer than two options; otherwise the new poll's id is the old poll
    /// count. Ids increase monotonically and are never reused.
    pub open spec fn create_poll_outcome(
        &self,
        creator: Identity,
        options: Seq<String>,
        authorized: bool,
    ) -> Result<u32, LedgerError> {
        if !authorized {
            Err(LedgerError::Authorization)
        } else if !self.spec_is_member(creator) {
            Err(LedgerError::NotMember)
        } else if options.len() < 2 {
            Err(LedgerError::InvalidOption)
        } else {
            Ok(self.polls().len() as u32)
        }
    }

    /// Allocate a new poll with all tallies at zero and return its id.
    /// Member-gated like `create_post`, and the proposal must offer at
    /// least two options. The two bounds are machine limits: ids are `u32`
    /// and never reused, so `poll_count` must not have reached `u32::MAX`,
    /// and options are chosen through a `u32` index, so no more than
    /// `u32::MAX` of them are addressable.
    pub fn create_poll(
        &mut self,
        creator: Identity,
        question: String,
        options: Vec<String>,
        authorized: bool,
    ) -> (res: Result<u32, LedgerError>)
        requires
            old(self).wf(),
            old(self).polls().len() < u32::MAX,
            options@.len() <= u32::MAX,
        ensures
            final(self).wf(),
            res == old(self).create_poll_outcome(creator, options@, authorized),
            res is Err ==> *final(self) == *old(self),
            res is Ok ==> {
                &&& final(self).polls().len() == old(self).polls().len() + 1
                &&& forall|i: int|
                    0 <= i < old(self).polls().len() ==> final(self).polls()[i] == old(
                        self,
                    ).polls()[i]
                &&& final(self).polls().last().id == res->Ok_0
                &&& final(self).polls().last().creator == creator
                &&& final(self).polls().last().question == question
                &&& final(self).polls().last().options == options
                &&& final(self).polls().last().tallies@.len() == options@.len()
                &&& forall|o: int|
                    0 <= o < options@.len() ==> final(self).polls().last().tallies@[o] == 0
                &&& final(self).posts() == old(self).posts()
                &&& final(self).members() == old(self).members()
                &&& final(self).votes() == old(self).votes()
                &&& final(self).is_active() == old(self).is_active()
                &&& final(self).spec_admin() == old(self).spec_admin()
                &&& final(self).spec_name() == old(self).spec_name()
                &&& final(self).spec_verified() == old(self).spec_verified()
            },
            final(self).spec_member_count() == old(self).spec_member_count(),
    {
        if !authorized {
            return Err(LedgerError::Authorization);
        }
        if !self.is_member(creator) {
            return Err(LedgerError::NotMember);
        }
        if options.len() < 2 {
            return Err(LedgerError::InvalidOption);
        }
        let id = self.polls.len() as u32;
        let mut tallies: Vec<u32> = Vec::new();
        let mut k: usize = 0;
        while k < options.len()
            invariant
                k <= options.len(),
                tallies@.len() == k,
                forall|o: int| 0 <= o < k ==> tallies@[o] == 0,
            decreases options.len() - k,
        {
            tallies.push(0);
            k = k + 1;
        }
        self.polls.push(Poll { id, creator, question, options, tallies });
        proof {
            let n = old(self).polls@.len() as int;
            assert forall|p: int, o: int|
                0 <= p < self.polls@.len() && 0 <= o
                    < self.polls@[p].tallies@.len() implies #[trigger] self.polls@[p].tallies@[o]
                == count_votes(self.votes@, p as u32, o as u32) by {
                if p < n {
                    assert(self.polls@[p] == old(self).polls@[p]);
                } else {
                    assert(self.polls@[p].tallies@[o] == 0);
                    lemma_count_votes_absent(self.votes@, p as u32, o as u32);
                }
            }
        }
        Ok(id)
    }

    /// Whether `voter` has a recorded vote on poll `poll_id`. Read-only;
    /// needs no authorization.
    pub fn has_voted(&self, poll_id: u32, voter: Identity) -> (r: bool)
        ensures
            r == self.spec_has_voted(poll_id, voter),
    {
        let mut i: usize = 0;
        while i < self.votes.len()
            invariant
                0 <= i <= self.votes.len(),
                forall|k: int|
                    0 <= k < i ==> !((#[trigger] self.votes@[k]).poll_id == poll_id
                        && self.votes@[k].voter == voter),
            decreases self.votes.len() - i,
        {
            let v = self.votes[i];
            if v.poll_id == poll_id && v.voter == voter {
                assert(self.votes()[i as int].poll_id == poll_id && self.votes()[i as int].voter
                    == voter);
                return true;
            }
            i = i + 1;
        }
        false
    }

    /// What `vote` returns, decided entirely by the pre-state: an unproven
    /// caller is refused, then a non-member, then a poll id naming no poll,
    /// then an option outside the poll's options, and then — this core's
    /// chosen duplicate policy — a voter that already voted on the poll.
    pub open spec fn vote_outcome(
        &self,
        voter: Identity,
        poll_id: u32,
        option: u32,
        authorized: bool,
    ) -> Result<(), LedgerError> {
        if !authorized {
            Err(LedgerError::Authorization)
        } else if !self.spec_is_member(voter) {
            Err(LedgerError::NotMember)
        } else if poll_id >= self.polls().len() {
            Err(LedgerError::PollNotFound)
        } else if option >= self.polls()[poll_id as int].options@.len() {
            Err(LedgerError::InvalidOption)
        } else if self.spec_has_voted(poll_id, voter) {
            Err(LedgerError::DuplicateVote)
        } else {
            Ok(())
        }
    }

    /// Record `voter`'s vote for `option` on poll `poll_id` and raise that
    /// option's tally by one. Member-gated like `create_post`.
    ///
    /// Duplicate policy: this core rejects a second vote by the same voter
    /// on the same poll with `DuplicateVote` and leaves the tallies exactly
    /// as they were; it never replaces a prior vote.
    pub fn vote(&mut self, voter: Identity, poll_id: u32, option: u32, authorized: bool) -> (res:
        Result<(), LedgerError>)
        requires
            old(self).wf(),
        ensures
            final(self).wf(),
            res == old(self).vote_outcome(voter, poll_id, option, authorized),
            res is Err ==> *final(self) == *old(self),
            res is Ok ==> {
                &&& final(self).votes() == old(self).votes().push(
                    VoteRecord { poll_id, voter, option },
                )
                &&& final(self).spec_has_voted(poll_id, voter)
                &&& final(self).polls().len() == old(self).polls().len()
                &&& forall|p: int|
                    0 <= p < old(self).polls().len() && p != poll_id as int
                        ==> final(self).polls()[p] == old(self).polls()[p]
                &&& final(self).polls()[poll_id as int].id == old(self).polls()[poll_id as int].id
                &&& final(self).polls()[poll_id as int].creator == old(self).polls()[poll_id as int].creator
                &&& final(self).polls()[poll_id as int].question == old(self).polls()[poll_id as int].question
                &&& final(self).polls()[poll_id as int].options == old(self).polls()[poll_id as int].options
                &&& final(self).polls()[poll_id as int].tallies@ == old(self).polls()[poll_id as int].tallies@.update(
                    option as int,
                    (old(self).polls()[poll_id as int].tallies@[option as int] + 1) as u32,
                )
                &&& final(self).posts() == old(self).posts()
                &&& final(self).members() == old(self).members()
                &&& final(self).is_active() == old(self).is_active()
                &&& final(self).spec_admin() == old(self).spec_admin()
                &&& final(self).spec_name() == old(self).spec_name()
                &&& final(self).spec_verified() == old(self).spec_verified()
            },
            final(self).spec_member_count() == old(self).spec_member_count(),
    {
        if !authorized {
            return Err(LedgerError::Authorization);
        }
        if !self.is_member(voter) {
            return Err(LedgerError::NotMember);
        }
        let idx = poll_id as usize;
        if idx >= self.polls.len() {
            return Err(LedgerError::PollNotFound);
        }
        if option as usize >= self.poll_at(poll_id).options.len() {
            return Err(LedgerError::InvalidOption);
        }
        if self.has_voted(poll_id, voter) {
            return Err(LedgerError::DuplicateVote);
        }
        proof {
            assert forall|i: int|
                0 <= i < self.votes@.len() implies !((#[trigger] self.votes@[i]).poll_id == poll_id
                && self.votes@[i].voter == voter) by {
                if self.votes@[i].poll_id == poll_id && self.votes@[i].voter == voter {
                    assert(self.votes()[i].poll_id == poll_id && self.votes()[i].voter == voter);
                    assert(self.spec_has_voted(poll_id, voter));
                }
            }
            lemma_poll_votes_have_room(self.votes@, self.members@, poll_id, voter);
            lemma_count_votes_le_poll(self.votes@, poll_id, option);
            assert(self.members@.len() <= u32::MAX);
        }
        let mut poll = self.polls.remove(idx);
        let opt_idx = option as usize;
        let t = poll.tallies[opt_idx];
        poll.tallies.set(opt_idx, t + 1);
        let ghost poll_snap = poll;
        self.polls.insert(idx, poll);
        self.votes.push(VoteRecord { poll_id, voter, option });
        proof {
            let vnew = VoteRecord { poll_id, voter, option };
            let pre = *old(self);
            assert(self.polls@ =~= pre.polls@.update(idx as int, poll_snap));
            assert(self.votes@[self.votes@.len() - 1] == vnew);
            assert forall|i: int, j: int|
                #![trigger self.votes@[i], self.votes@[j]]
                0 <= i < j < self.votes@.len() implies !(self.votes@[i].poll_id
                == self.votes@[j].poll_id && self.votes@[i].voter == self.votes@[j].voter) by {
                if j == self.votes@.len() - 1 {
                    assert(self.votes@[i] == pre.votes@[i]);
                } else {
                    assert(self.votes@[i] == pre.votes@[i]);
                    assert(self.votes@[j] == pre.votes@[j]);
                }
            }
            assert forall|p: int, o: int|
                #![trigger self.polls@[p].tallies@[o]]
                0 <= p < self.polls@.len() && 0 <= o
                    < self.polls@[p].tallies@.len() implies self.polls@[p].tallies@[o]
                == count_votes(self.votes@, p as u32, o as u32) by {
                lemma_count_votes_push(pre.votes@, vnew, p as u32, o as u32);
                if p == idx as int {
                    assert(self.polls@[p] == poll_snap);
                    assert(pre.polls@[p].tallies@[o] == count_votes(pre.votes@, p as u32, o as u32));
                } else {
                    assert(self.polls@[p] == pre.polls@[p]);
                    assert(pre.polls@[p].tallies@[o] == count_votes(pre.votes@, p as u32, o as u32));
                }
            }
            assert(self.votes()[self.votes().len() - 1] == vnew);
            assert(self.spec_has_voted(poll_id, voter));
            assert(self.polls@[idx as int].tallies@ =~= pre.polls@[idx as int].tallies@.update(
                option as int,
                (pre.polls@[idx as int].tallies@[option as int] + 1) as u32,
            ));
            assert(forall|p: int|
                0 <= p < pre.polls@.len() && p != idx as int ==> self.polls@[p] == pre.polls@[p]);
        }
        Ok(())
    }

    /// The tallies of poll `poll_id`, one count per option, in option
    /// order. Read-only; needs no authorization. Fails with `PollNotFound`
    /// exactly when no poll has that id.
    pub fn get_tallies(&self, poll_id: u32) -> (res: Result<Vec<u32>, LedgerError>)
        ensures
            poll_id < self.polls().len() ==> res is Ok && res->Ok_0@ == self.polls()[poll_id as int].tallies@,
            poll_id >= self.polls().len() ==> res == Err::<Vec<u32>, LedgerError>(
                LedgerError::PollNotFound,
            ),
    {
        let idx = poll_id as usize;
        if idx >= self.polls.len() {
            return Err(LedgerError::PollNotFound);
        }
        let tallies = &self.polls[idx].tallies;
        let mut out: Vec<u32> = Vec::new();
        let mut k: usize = 0;
        while k < tallies.len()
            invariant
                k <= tallies.len(),
                out@ == tallies@.take(k as int),
            decreases tallies.len() - k,
        {
            out.push(tallies[k]);
            proof {
                assert(out@ =~= tallies@.take(k + 1));
            }
            k = k + 1;
        }
        proof {
            assert(out@ =~= tallies@);
        }
        Ok(out)
    }

    /// How many polls exist; the next poll will take this id.
    pub fn poll_count(&self) -> (n: usize)
        ensures
            n == self.polls().len(),
    {
        self.polls.len()
    }

    /// The poll with id `poll_id`.
    pub fn poll_at(&self, poll_id: u32) -> (p: &Poll)
        requires
            poll_id < self.polls().len(),
        ensures
            *p == self.polls()[poll_id as int],
    {
        &self.polls[poll_id as usize]
    }

    /// How many posts exist.
    pub fn post_count(&self) -> (n: usize)
        ensures
            n == self.posts().len(),
    {
        self.posts.len()
    }

    /// The post stored at `index`.
    pub fn post_at(&self, index: usize) -> (p: &Post)
        requires
            index < self.posts().len(),
        ensures
            *p == self.posts()[index as int],
    {
        &self.posts[index]
    }
}

/// Every published tally counts exactly the recorded votes: in a well-formed
/// hub, option `o` of poll `p` shows precisely the number of vote records
/// naming that poll and option.
pub proof fn lemma_tallies_count_votes(hub: &NeighborhoodHub, p: int, o: int)
    requires
        hub.wf(),
        0 <= p < hub.polls().len(),
        0 <= o < hub.polls()[p].tallies@.len(),
    ensures
        hub.polls()[p].tallies@[o] == count_votes(hub.votes(), p as u32, o as u32),
{
}

/// One vote per voter per poll: in a well-formed hub, two distinct vote
/// records never name the same `(poll_id, voter)` pair.
pub proof fn lemma_one_vote_per_voter(hub: &NeighborhoodHub, i: int, j: int)
    requires
        hub.wf(),
        0 <= i < hub.votes().len(),
        0 <= j < hub.votes().len(),
        i != j,
    ensures
        !(hub.votes()[i].poll_id == hub.votes()[j].poll_id && hub.votes()[i].voter
            == hub.votes()[j].voter),
{
}

/// Membership gates content: in a well-formed hub every recorded vote was
/// cast by a member.
pub proof fn lemma_votes_are_by_members(hub: &NeighborhoodHub, i: int)
    requires
        hub.wf(),
        0 <= i < hub.votes().len(),
    ensures
        hub.spec_is_member(hub.votes()[i].voter),
{
}

/// Poll ids are assigned by the hub, increase monotonically, and are never
/// reused: a well-formed hub stores the poll with id `p` at index `p`, with
/// at least two options and one tally per option.
pub proof fn lemma_poll_ids_are_indices(hub: &NeighborhoodHub, p: int)
    requires
        hub.wf(),
        0 <= p < hub.polls().len(),
    ensures
        hub.polls()[p].id == p,
        hub.polls()[p].options@.len() >= 2,
        hub.polls()[p].tallies@.len() == hub.polls()[p].options@.len(),
{
}

/// An active instance always counts at least its creator: the member count
/// is exactly the number of members, the admin recorded at `init` time is
/// the first of them, and so is itself a member.
pub proof fn lemma_active_has_the_admin(hub: &NeighborhoodHub)
    requires
        hub.wf(),
        hub.is_active(),
    ensures
        hub.spec_member_count() >= 1,
        hub.members().len() == hub.spec_member_count(),
        hub.members()[0] == hub.spec_admin(),
        hub.spec_is_member(hub.spec_admin()),
{
    assert(hub.members().contains(hub.members()[0]));
}

/// An instance `init` has not reached holds nothing: no members, no posts,
/// no polls, no votes.
pub proof fn lemma_uninitialized_is_empty(hub: &NeighborhoodHub)
    requires
        hub.wf(),
        !hub.is_active(),
    ensures
        hub.members().len() == 0,
        hub.posts().len() == 0,
        hub.polls().len() == 0,
        hub.votes().len() == 0,
        hub.spec_member_count() == 0,
{
}

} // verus!
