use vstd::prelude::*;

use crate::hub::NeighborhoodHub;
use crate::types::{Badge, Identity, LedgerError};

verus! {

/// The badge registry of one community instance. Badges accumulate
/// monotonically, at most one per holder, and are never removed, updated,
/// or reassigned.
pub struct SoulboundBadge {
    badges: Vec<Badge>,
}

impl SoulboundBadge {
    /// All issued badges, in issuance order.
    pub closed spec fn badges(&self) -> Seq<Badge> {
        self.badges@
    }

    /// Whether `user` holds a badge.
    pub open spec fn spec_has_badge(&self, user: Identity) -> bool {
        exists|i: int|
            0 <= i < self.badges().len() && (#[trigger] self.badges()[i]).holder == user
    }

    /// The well-formedness invariant: no two badge records share a holder.
    pub closed spec fn wf(&self) -> bool {
        forall|i: int, j: int|
            #![trigger self.badges@[i], self.badges@[j]]
            0 <= i < j < self.badges@.len() ==> self.badges@[i].holder != self.badges@[j].holder
    }

    /// A fresh registry with no badges issued.
    pub fn new() -> (reg: SoulboundBadge)
        ensures
            reg.wf(),
            reg.badges().len() == 0,
    {
        SoulboundBadge { badges: Vec::new() }
    }

    /// Whether `user` holds a badge. Read-only; needs no authorization.
    pub fn has_badge(&self, user: Identity) -> (r: bool)
        ensures
            r == self.spec_has_badge(user),
    {
        let mut i: usize = 0;
        while i < self.badges.len()
            invariant
                0 <= i <= self.badges.len(),
                forall|k: int| 0 <= k < i ==> (#[trigger] self.badges@[k]).holder != user,
            decreases self.badges.len() - i,
        {
            if self.badges[i].holder == user {
                assert(self.badges()[i as int].holder == user);
                return true;
            }
            i = i + 1;
        }
        false
    }

    /// What `issue_badge` returns, decided entirely by the pre-states of
    /// the registry and the hub: issuance demands the host's proof and that
    /// `admin` is the identity the hub recorded at `init` time — holding an
    /// authorization proof alone grants no issuing privilege, and an
    /// uninitialized hub has recorded nobody.
    pub open spec fn issue_badge_outcome(
        hub: &NeighborhoodHub,
        admin: Identity,
        authorized: bool,
    ) -> Result<(), LedgerError> {
        if !authorized {
            Err(LedgerError::Authorization)
        } else if !(hub.is_active() && admin == hub.spec_admin()) {
            Err(LedgerError::Authorization)
        } else {
            Ok(())
        }
    }

    /// Issue a badge to `to` at the host clock's `issued_at`. Admin-gated
    /// across components: `admin` must equal the `hub`'s recorded admin,
    /// fetched here rather than trusted implicitly, and `authorized` is the
    /// host's verdict on whether the caller proved it is `admin`.
    /// Re-issuing to a holder is a no-op, not an error, so the operation is
    /// retry-safe; a badge, once issued, is never updated.
    pub fn issue_badge(
        &mut self,
        hub: &NeighborhoodHub,
        admin: Identity,
        to: Identity,
        issued_at: u64,
        authorized: bool,
    ) -> (res: Result<(), LedgerError>)
        requires
            old(self).wf(),
        ensures
            final(self).wf(),
            res == SoulboundBadge::issue_badge_outcome(hub, admin, authorized),
            res is Err ==> *final(self) == *old(self),
            res is Ok ==> {
                &&& final(self).spec_has_badge(to)
                &&& final(self).badges() == if old(self).spec_has_badge(to) {
                    old(self).badges()
                } else {
                    old(self).badges().push(Badge { holder: to, issued_at })
                }
                &&& forall|u: Identity|
                    u != to ==> final(self).spec_has_badge(u) == old(self).spec_has_badge(u)
            },
    {
        if !authorized {
            return Err(LedgerError::Authorization);
        }
        let privileged = match hub.admin() {
            Some(recorded) => admin == recorded,
            None => false,
        };
        if !privileged {
            return Err(LedgerError::Authorization);
        }
        if self.has_badge(to) {
            return Ok(());
        }
        self.badges.push(Badge { holder: to, issued_at });
        proof {
            let pre = old(self).badges@;
            assert(self.badges@[pre.len() as int].holder == to);
            assert(self.badges()[pre.len() as int].holder == to);
            assert forall|u: Identity| u != to implies self.spec_has_badge(u) == old(
                self,
            ).spec_has_badge(u) by {
                if old(self).spec_has_badge(u) {
                    let i = choose|i: int|
                        0 <= i < pre.len() && (#[trigger] old(self).badges()[i]).holder == u;
                    assert(self.badges()[i].holder == u);
                }
                if self.spec_has_badge(u) {
                    let i = choose|i: int|
                        0 <= i < self.badges().len() && (#[trigger] self.badges()[i]).holder == u;
                    assert(i < pre.len());
                    assert(old(self).badges()[i].holder == u);
                }
            }
        }
        Ok(())
    }

    /// How many badge records exist.
    pub fn badge_count(&self) -> (n: usize)
        ensures
            n == self.badges().len(),
    {
        self.badges.len()
    }

    /// Badges are soulbound: every transfer attempt is rejected outright,
    /// whatever the inputs — even `from == to` — and no badge record is
    /// ever touched. The operation exists to enforce non-transferability
    /// at the interface.
    pub fn transfer(&self, from: Identity, to: Identity) -> (res: Result<(), LedgerError>)
        ensures
            res == Err::<(), LedgerError>(LedgerError::SoulboundViolation),
    {
        let _ = from;
        let _ = to;
        Err(LedgerError::SoulboundViolation)
    }
}

/// A well-formed registry holds at most one badge record per holder: two
/// distinct records always name distinct holders.
pub proof fn lemma_badge_holder_unique(reg: &SoulboundBadge, i: int, j: int)
    requires
        reg.wf(),
        0 <= i < reg.badges().len(),
        0 <= j < reg.badges().len(),
        i != j,
    ensures
        reg.badges()[i].holder != reg.badges()[j].holder,
{
}

} // verus!
