use vstd::prelude::*;

verus! {

/// An opaque, unforgeable principal reference. Two identities are equal
/// exactly when they stand for the same real-world actor. The core never
/// mints identities; callers supply them and prove them through the host's
/// authorization capability.
#[derive(Clone, Copy, Debug, Hash, PartialEq, Eq, Structural)]
pub struct Identity {
    pub id: u64,
}

/// Why an operation was refused. Every failure is terminal for the
/// triggering call: no partial state is ever committed.
#[derive(Clone, Copy, Debug, PartialEq, Eq, Structural)]
pub enum LedgerError {
    /// The caller could not be authenticated, or is authenticated but lacks
    /// the privilege the operation demands.
    Authorization,
    /// The caller is authenticated but is not a member of the neighborhood.
    NotMember,
    /// `init` was called on an instance that is already active.
    AlreadyInitialized,
    /// The given poll id names no existing poll.
    PollNotFound,
    /// The chosen option is not a valid index into the poll's options, or a
    /// poll was proposed with fewer than two options.
    InvalidOption,
    /// The voter has already voted on this poll.
    DuplicateVote,
    /// Badges are soulbound: transfer is categorically rejected.
    SoulboundViolation,
}

/// The single neighborhood record of an active hub instance.
#[derive(Debug)]
pub struct Neighborhood {
    pub name: String,
    pub verified: bool,
    pub admin: Identity,
    pub member_count: u32,
}

/// A member-authored post. Append-only: never mutated or deleted.
#[derive(Debug)]
pub struct Post {
    pub author: Identity,
    pub content: String,
    pub timestamp: u64,
}

/// A member-run poll. Ids increase monotonically and are never reused;
/// `tallies[i]` counts the recorded votes for `options[i]`.
#[derive(Debug)]
pub struct Poll {
    pub id: u32,
    pub creator: Identity,
    pub question: String,
    pub options: Vec<String>,
    pub tallies: Vec<u32>,
}

/// One recorded vote. At most one record exists per `(poll_id, voter)` pair.
#[derive(Clone, Copy, Debug, PartialEq, Eq, Structural)]
pub struct VoteRecord {
    pub poll_id: u32,
    pub voter: Identity,
    pub option: u32,
}

/// A soulbound reputation badge. Immutable once issued: no field is ever
/// updated and the holder can never change.
#[derive(Clone, Copy, Debug, PartialEq, Eq, Structural)]
pub struct Badge {
    pub holder: Identity,
    pub issued_at: u64,
}

} // verus!
