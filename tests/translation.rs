use access_control::act::{
    cmp_role_or_level, group_policies, AFAccessLevel, AFRole, Acts, Action, ActionVariant,
};
use access_control::entity::{decimal_text, unsigned_text, ObjectType, SubjectType};
use access_control::policy::{policies_to_add, PolicyRequest};

#[test]
fn decimal_encodings() {
    assert_eq!(decimal_text(0), "0");
    assert_eq!(decimal_text(7), "7");
    assert_eq!(decimal_text(1234567), "1234567");
    assert_eq!(decimal_text(-42), "-42");
    assert_eq!(decimal_text(i64::MAX), "9223372036854775807");
    assert_eq!(decimal_text(i64::MIN), "-9223372036854775808");
    assert_eq!(unsigned_text(u64::MAX), "18446744073709551615");
    assert_eq!(unsigned_text(10), "10");
}

#[test]
fn subject_and_object_encodings() {
    assert_eq!(SubjectType::User(15).policy_subject(), "15");
    assert_eq!(ObjectType::Workspace("w1".to_string()).policy_object(), "workspace::w1");
    assert_eq!(ObjectType::Collab("d9".to_string()).policy_object(), "collab::d9");
    assert_ne!(
        ObjectType::Workspace("x".to_string()).policy_object(),
        ObjectType::Collab("x".to_string()).policy_object()
    );
}

#[test]
fn action_encodings() {
    assert_eq!(Action::Read.to_enforce_act(), "read");
    assert_eq!(Action::Write.to_enforce_act(), "write");
    assert_eq!(Action::Delete.to_enforce_act(), "delete");
    assert_eq!(AFRole::Owner.to_enforce_act(), "1");
    assert_eq!(AFRole::Member.to_enforce_act(), "2");
    assert_eq!(AFRole::Guest.to_enforce_act(), "3");
    assert_eq!(AFAccessLevel::ReadOnly.to_enforce_act(), "10");
    assert_eq!(AFAccessLevel::ReadAndComment.to_enforce_act(), "20");
    assert_eq!(AFAccessLevel::ReadAndWrite.to_enforce_act(), "30");
    assert_eq!(AFAccessLevel::FullAccess.to_enforce_act(), "50");
    assert_eq!(AFRole::Member.policy_acts(), vec!["2".to_string()]);
    assert_eq!(
        ActionVariant::FromAccessLevel(AFAccessLevel::FullAccess).to_enforce_act(),
        "50"
    );
}

#[test]
fn decoding_policy_actions() {
    assert_eq!(
        ActionVariant::from_enforce_act("write"),
        Some(ActionVariant::FromAction(Action::Write))
    );
    assert_eq!(
        ActionVariant::from_enforce_act("3"),
        Some(ActionVariant::FromRole(AFRole::Guest))
    );
    assert_eq!(
        ActionVariant::from_enforce_act("20"),
        Some(ActionVariant::FromAccessLevel(AFAccessLevel::ReadAndComment))
    );
    assert_eq!(ActionVariant::from_enforce_act("40"), None);
    assert_eq!(ActionVariant::from_enforce_act(""), None);
}

#[test]
fn update_tuples() {
    let tuples = policies_to_add(
        &SubjectType::User(1),
        &ObjectType::Workspace("w1".to_string()),
        &AFRole::Member,
    );
    assert_eq!(
        tuples,
        vec![vec!["1".to_string(), "workspace::w1".to_string(), "2".to_string()]]
    );
}

#[test]
fn request_tuple() {
    let request = PolicyRequest::new(-5, ObjectType::Collab("c".to_string()), Action::Read);
    assert_eq!(
        request.to_policy(),
        vec!["-5".to_string(), "collab::c".to_string(), "read".to_string()]
    );
}

#[test]
fn role_and_level_comparison() {
    assert!(cmp_role_or_level("2", "1"));
    assert!(cmp_role_or_level("2", "2"));
    assert!(!cmp_role_or_level("1", "2"));
    assert!(cmp_role_or_level("30", "50"));
    assert!(!cmp_role_or_level("50", "30"));
    assert!(cmp_role_or_level("30", "2"));
    assert!(!cmp_role_or_level("50", "2"));
    assert!(cmp_role_or_level("50", "1"));
    assert!(cmp_role_or_level("10", "3"));
    assert!(!cmp_role_or_level("20", "3"));
    assert!(!cmp_role_or_level("2", "50"));
    assert!(!cmp_role_or_level("read", "1"));
    assert!(!cmp_role_or_level("x", "y"));
}

#[test]
fn seeded_group_policies() {
    let groups = group_policies();
    assert_eq!(groups.len(), 13);
    let pair = |a: &str, b: &str| vec![a.to_string(), b.to_string()];
    assert!(groups.contains(&pair("2", "write")));
    assert!(groups.contains(&pair("50", "delete")));
    assert!(!groups.contains(&pair("2", "delete")));
    assert!(!groups.contains(&pair("20", "write")));
}
