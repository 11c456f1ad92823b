use community_hub::hub::NeighborhoodHub;
use community_hub::types::{Identity, LedgerError};

fn ident(id: u64) -> Identity {
    Identity { id }
}

fn active_hub(admin: Identity) -> NeighborhoodHub {
    let mut hub = NeighborhoodHub::new();
    let res = hub.init(admin, String::from("Elm St"), true);
    assert_eq!(res, Ok(()));
    hub
}

#[test]
fn init_records_admin_and_first_member() {
    let admin = ident(1);
    let hub = active_hub(admin);
    assert!(hub.is_initialized());
    assert_eq!(hub.admin(), Some(admin));
    assert_eq!(hub.member_count(), 1);
    assert!(hub.is_member(admin));
    assert_eq!(hub.post_count(), 0);
    assert_eq!(hub.poll_count(), 0);
    assert_eq!(hub.name(), Some(&String::from("Elm St")));
    assert!(hub.verified());
}

#[test]
fn uninitialized_hub_is_empty() {
    let hub = NeighborhoodHub::new();
    assert!(!hub.is_initialized());
    assert_eq!(hub.admin(), None);
    assert_eq!(hub.name(), None);
    assert!(!hub.verified());
    assert_eq!(hub.member_count(), 0);
    assert!(!hub.is_member(ident(1)));
}

#[test]
fn init_unauthorized_is_refused() {
    let mut hub = NeighborhoodHub::new();
    let res = hub.init(ident(1), String::from("Elm St"), false);
    assert_eq!(res, Err(LedgerError::Authorization));
    assert!(!hub.is_initialized());
    assert_eq!(hub.member_count(), 0);
}

#[test]
fn init_twice_fails_and_changes_nothing() {
    let admin = ident(1);
    let mut hub = active_hub(admin);
    let res = hub.init(ident(2), String::from("Oak Ave"), true);
    assert_eq!(res, Err(LedgerError::AlreadyInitialized));
    assert_eq!(hub.admin(), Some(admin));
    assert_eq!(hub.member_count(), 1);
    assert!(!hub.is_member(ident(2)));
}

#[test]
fn add_member_is_admin_gated() {
    let admin = ident(1);
    let outsider = ident(2);
    let mut hub = active_hub(admin);
    let res = hub.add_member(outsider, ident(3), true);
    assert_eq!(res, Err(LedgerError::Authorization));
    assert_eq!(hub.member_count(), 1);

    let res = hub.add_member(admin, ident(3), false);
    assert_eq!(res, Err(LedgerError::Authorization));
    assert_eq!(hub.member_count(), 1);

    let res = hub.add_member(admin, ident(3), true);
    assert_eq!(res, Ok(()));
    assert_eq!(hub.member_count(), 2);
    assert!(hub.is_member(ident(3)));
}

#[test]
fn add_member_twice_keeps_one_record() {
    let admin = ident(1);
    let mut hub = active_hub(admin);
    assert_eq!(hub.add_member(admin, ident(3), true), Ok(()));
    assert_eq!(hub.add_member(admin, ident(3), true), Ok(()));
    assert_eq!(hub.member_count(), 2);
}

#[test]
fn add_member_on_uninitialized_hub_is_refused() {
    let mut hub = NeighborhoodHub::new();
    let res = hub.add_member(ident(1), ident(2), true);
    assert_eq!(res, Err(LedgerError::Authorization));
    assert_eq!(hub.member_count(), 0);
}

#[test]
fn create_post_appends_and_returns_indices() {
    let admin = ident(1);
    let mut hub = active_hub(admin);
    let first = hub.create_post(admin, String::from("hello"), 100, true);
    assert_eq!(first, Ok(0));
    let second = hub.create_post(admin, String::from("again"), 200, true);
    assert_eq!(second, Ok(1));
    assert_eq!(hub.post_count(), 2);
    let post = hub.post_at(0);
    assert_eq!(post.author, admin);
    assert_eq!(post.content, "hello");
    assert_eq!(post.timestamp, 100);
}

#[test]
fn create_post_by_non_member_fails_not_member() {
    let admin = ident(1);
    let stranger = ident(9);
    let mut hub = active_hub(admin);
    let res = hub.create_post(stranger, String::from("let me in"), 5, true);
    assert_eq!(res, Err(LedgerError::NotMember));
    assert_eq!(hub.post_count(), 0);
    assert_eq!(hub.member_count(), 1);
}

#[test]
fn create_post_unauthorized_is_refused() {
    let admin = ident(1);
    let mut hub = active_hub(admin);
    let res = hub.create_post(admin, String::from("spoofed"), 5, false);
    assert_eq!(res, Err(LedgerError::Authorization));
    assert_eq!(hub.post_count(), 0);
}

#[test]
fn create_poll_starts_with_zero_tallies() {
    let admin = ident(1);
    let mut hub = active_hub(admin);
    let options = vec![String::from("A"), String::from("B")];
    let id = hub.create_poll(admin, String::from("Q?"), options, true);
    assert_eq!(id, Ok(0));
    assert_eq!(hub.get_tallies(0), Ok(vec![0, 0]));
    let poll = hub.poll_at(0);
    assert_eq!(poll.id, 0);
    assert_eq!(poll.creator, admin);
    assert_eq!(poll.question, "Q?");
    assert_eq!(poll.options.len(), 2);
}

#[test]
fn create_poll_ids_increase_monotonically() {
    let admin = ident(1);
    let mut hub = active_hub(admin);
    let opts = || vec![String::from("A"), String::from("B")];
    assert_eq!(hub.create_poll(admin, String::from("first?"), opts(), true), Ok(0));
    assert_eq!(hub.create_poll(admin, String::from("second?"), opts(), true), Ok(1));
    assert_eq!(hub.poll_count(), 2);
}

#[test]
fn create_poll_needs_two_options() {
    let admin = ident(1);
    let mut hub = active_hub(admin);
    let res = hub.create_poll(admin, String::from("Q?"), vec![String::from("A")], true);
    assert_eq!(res, Err(LedgerError::InvalidOption));
    assert_eq!(hub.poll_count(), 0);
}

#[test]
fn create_poll_by_non_member_fails_not_member() {
    let admin = ident(1);
    let mut hub = active_hub(admin);
    let options = vec![String::from("A"), String::from("B")];
    let res = hub.create_poll(ident(7), String::from("Q?"), options, true);
    assert_eq!(res, Err(LedgerError::NotMember));
}

#[test]
fn vote_increments_the_chosen_tally() {
    let admin = ident(1);
    let voter = ident(2);
    let mut hub = active_hub(admin);
    assert_eq!(hub.add_member(admin, voter, true), Ok(()));
    let options = vec![String::from("A"), String::from("B")];
    assert_eq!(hub.create_poll(admin, String::from("Q?"), options, true), Ok(0));
    assert_eq!(hub.vote(voter, 0, 0, true), Ok(()));
    assert_eq!(hub.get_tallies(0), Ok(vec![1, 0]));
    assert!(hub.has_voted(0, voter));
    assert!(!hub.has_voted(0, admin));
}

#[test]
fn second_vote_on_same_poll_is_rejected() {
    let admin = ident(1);
    let voter = ident(2);
    let mut hub = active_hub(admin);
    assert_eq!(hub.add_member(admin, voter, true), Ok(()));
    let options = vec![String::from("A"), String::from("B")];
    assert_eq!(hub.create_poll(admin, String::from("Q?"), options, true), Ok(0));
    assert_eq!(hub.vote(voter, 0, 0, true), Ok(()));
    assert_eq!(hub.vote(voter, 0, 1, true), Err(LedgerError::DuplicateVote));
    assert_eq!(hub.get_tallies(0), Ok(vec![1, 0]));
}

#[test]
fn distinct_voters_accumulate_tallies() {
    let admin = ident(1);
    let voter = ident(2);
    let mut hub = active_hub(admin);
    assert_eq!(hub.add_member(admin, voter, true), Ok(()));
    let options = vec![String::from("A"), String::from("B")];
    assert_eq!(hub.create_poll(admin, String::from("Q?"), options, true), Ok(0));
    assert_eq!(hub.vote(admin, 0, 1, true), Ok(()));
    assert_eq!(hub.vote(voter, 0, 1, true), Ok(()));
    assert_eq!(hub.get_tallies(0), Ok(vec![0, 2]));
}

#[test]
fn vote_on_missing_poll_fails_poll_not_found() {
    let admin = ident(1);
    let mut hub = active_hub(admin);
    assert_eq!(hub.vote(admin, 0, 0, true), Err(LedgerError::PollNotFound));
}

#[test]
fn vote_on_invalid_option_is_rejected() {
    let admin = ident(1);
    let mut hub = active_hub(admin);
    let options = vec![String::from("A"), String::from("B")];
    assert_eq!(hub.create_poll(admin, String::from("Q?"), options, true), Ok(0));
    assert_eq!(hub.vote(admin, 0, 2, true), Err(LedgerError::InvalidOption));
    assert_eq!(hub.get_tallies(0), Ok(vec![0, 0]));
}

#[test]
fn vote_by_non_member_fails_not_member() {
    let admin = ident(1);
    let mut hub = active_hub(admin);
    let options = vec![String::from("A"), String::from("B")];
    assert_eq!(hub.create_poll(admin, String::from("Q?"), options, true), Ok(0));
    assert_eq!(hub.vote(ident(9), 0, 0, true), Err(LedgerError::NotMember));
    assert_eq!(hub.get_tallies(0), Ok(vec![0, 0]));
}

#[test]
fn get_tallies_on_missing_poll_fails_poll_not_found() {
    let admin = ident(1);
    let hub = active_hub(admin);
    assert_eq!(hub.get_tallies(3), Err(LedgerError::PollNotFound));
}
