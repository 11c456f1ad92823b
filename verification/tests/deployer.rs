use community_hub::deployer::HubFactory;
use community_hub::types::{Identity, LedgerError};

#[test]
fn deploy_hub_yields_a_fresh_uninitialized_pair() {
    let installer = Identity { id: 7 };
    let res = HubFactory::deploy_hub(installer, vec![0xAB; 32], true);
    let (hub, reg) = res.expect("authorized install must succeed");
    assert!(!hub.is_initialized());
    assert_eq!(hub.member_count(), 0);
    assert_eq!(hub.post_count(), 0);
    assert_eq!(hub.poll_count(), 0);
    assert_eq!(reg.badge_count(), 0);
}

#[test]
fn deploy_hub_unauthorized_is_refused() {
    let installer = Identity { id: 7 };
    match HubFactory::deploy_hub(installer, vec![0xAB; 32], false) {
        Err(e) => assert_eq!(e, LedgerError::Authorization),
        Ok(_) => panic!("unauthenticated install must be refused"),
    }
}

#[test]
fn each_install_is_a_distinct_instance() {
    let installer = Identity { id: 7 };
    let admin = Identity { id: 1 };
    let (mut first, _) = HubFactory::deploy_hub(installer, vec![1; 32], true).unwrap();
    let (second, _) = HubFactory::deploy_hub(installer, vec![1; 32], true).unwrap();
    assert_eq!(first.init(admin, String::from("Elm St"), true), Ok(()));
    assert!(first.is_initialized());
    assert!(!second.is_initialized());
}
