use entitlement_engine::error::EngineError;
use entitlement_engine::models::{AddReferralData, NewUser};
use entitlement_engine::referral::contains_id;
use entitlement_engine::registration::Created;
use entitlement_engine::registry::Registry;

fn registry_of(ids: &[i64]) -> Registry {
    let mut reg = Registry::new();
    for id in ids {
        let data = NewUser { telegram_id: *id, referral_id: None, username: None };
        let created = Created { uuid: *id as u128, sub_link: String::new() };
        assert_eq!(reg.register(data, created, None, 0), Ok(()));
    }
    reg
}

fn edge(parent: i64, child: i64) -> AddReferralData {
    AddReferralData { referral_id: parent, referred_telegram_id: child }
}

#[test]
fn referral_links_parent_and_child() {
    let mut reg = registry_of(&[1, 2, 3]);
    assert_eq!(reg.add_referral(edge(1, 2)), Ok(()));
    assert_eq!(reg.entries[0].referrals, vec![2]);
    assert_eq!(reg.entries[1].referral_id, Some(1));
    assert_eq!(reg.entries[2].referral_id, None);
    assert_eq!(reg.add_referral(edge(1, 3)), Ok(()));
    assert_eq!(reg.entries[0].referrals, vec![2, 3]);
    assert_eq!(reg.entries[0].payed_refs, 0);
}

#[test]
fn second_referral_of_a_child_is_a_conflict() {
    let mut reg = registry_of(&[1, 2, 3]);
    assert_eq!(reg.add_referral(edge(1, 2)), Ok(()));
    assert_eq!(reg.add_referral(edge(3, 2)), Err(EngineError::Conflict));
    assert_eq!(reg.add_referral(edge(1, 2)), Err(EngineError::Conflict));
    assert_eq!(reg.entries[1].referral_id, Some(1));
    assert!(reg.entries[2].referrals.is_empty());
    assert_eq!(reg.entries[0].referrals, vec![2]);
}

#[test]
fn duplicate_edge_is_a_conflict() {
    let mut reg = registry_of(&[1, 2]);
    reg.entries[0].referrals.push(2);
    assert_eq!(reg.add_referral(edge(1, 2)), Err(EngineError::Conflict));
    assert_eq!(reg.entries[1].referral_id, None);
    assert_eq!(reg.entries[0].referrals, vec![2]);
}

#[test]
fn referral_of_unknown_accounts_is_not_found() {
    let mut reg = registry_of(&[1, 2]);
    assert_eq!(reg.add_referral(edge(1, 9)), Err(EngineError::NotFound));
    assert_eq!(reg.add_referral(edge(9, 2)), Err(EngineError::NotFound));
    assert_eq!(reg.entries[1].referral_id, None);
    assert!(reg.entries[0].referrals.is_empty());
}

#[test]
fn self_referral_is_stored_as_asked() {
    let mut reg = registry_of(&[5]);
    assert_eq!(reg.add_referral(edge(5, 5)), Ok(()));
    assert_eq!(reg.entries[0].referral_id, Some(5));
    assert_eq!(reg.entries[0].referrals, vec![5]);
    assert_eq!(reg.add_referral(edge(5, 5)), Err(EngineError::Conflict));
}

#[test]
fn contains_id_finds_members() {
    assert!(contains_id(&vec![3, 1, 2], 1));
    assert!(!contains_id(&vec![3, 1, 2], 4));
    assert!(!contains_id(&vec![], 0));
}
