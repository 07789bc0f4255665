use access_control::act::{group_policies, AFAccessLevel, AFRole, Acts, Action};
use access_control::engine::{
    enforce_request, find_subject_policies, install_hierarchy_function, policies_for_subject_with_given_object,
    ENFORCER_MODEL,
};
use access_control::entity::{ObjectType, SubjectType};
use access_control::policy::policies_to_add;
use casbin::{CoreApi, DefaultModel, Enforcer, MemoryAdapter, MgmtApi};
use std::future::Future;

fn block_on<F: Future>(f: F) -> F::Output {
    tokio::runtime::Builder::new_current_thread()
        .build()
        .unwrap()
        .block_on(f)
}

fn test_enforcer() -> Enforcer {
    block_on(async {
        let model = DefaultModel::from_str(ENFORCER_MODEL).await.unwrap();
        let mut enforcer = Enforcer::new(model, MemoryAdapter::default()).await.unwrap();
        install_hierarchy_function(&mut enforcer);
        enforcer
            .add_named_grouping_policies("g", group_policies())
            .await
            .unwrap();
        enforcer
    })
}

fn grant<T: Acts>(enforcer: &mut Enforcer, sub: SubjectType, obj: ObjectType, act: T) {
    let policies = policies_to_add(&sub, &obj, &act);
    block_on(enforcer.add_policies(policies)).expect("update policy failed");
}

fn workspace(id: &str) -> ObjectType {
    ObjectType::Workspace(id.to_string())
}

#[test]
fn policy_comparison_test() {
    let mut enforcer = test_enforcer();
    let uid = 1;
    let workspace_id = "w1";

    grant(&mut enforcer, SubjectType::User(uid), workspace(workspace_id), AFRole::Member);

    for action in [Action::Write, Action::Read] {
        let result = enforce_request(&enforcer, uid, workspace(workspace_id), action)
            .unwrap_or_else(|_| panic!("enforcing action={:?} failed", action));
        assert!(result, "action={:?} should be allowed", action);
    }
    let result = enforce_request(&enforcer, uid, workspace(workspace_id), Action::Delete)
        .expect("enforcing action=Delete failed");
    assert!(!result, "action=Delete should not be allowed");

    let result = enforce_request(&enforcer, uid, workspace(workspace_id), AFRole::Member)
        .expect("enforcing role=Member failed");
    assert!(result, "role=Member should be allowed");

    let result = enforce_request(&enforcer, uid, workspace(workspace_id), AFRole::Owner)
        .expect("enforcing role=Owner failed");
    assert!(!result, "role=Owner should not be allowed");

    for access_level in [
        AFAccessLevel::ReadOnly,
        AFAccessLevel::ReadAndComment,
        AFAccessLevel::ReadAndWrite,
    ] {
        let result = enforce_request(&enforcer, uid, workspace(workspace_id), access_level)
            .unwrap_or_else(|_| panic!("enforcing access_level={:?} failed", access_level));
        assert!(result, "access_level={:?} should be allowed", access_level);
    }
    let result = enforce_request(
        &enforcer,
        uid,
        workspace(workspace_id),
        AFAccessLevel::FullAccess,
    )
    .expect("enforcing access_level=FullAccess failed");
    assert!(!result, "access_level=FullAccess should not be allowed")
}

#[test]
fn nothing_is_permitted_without_a_grant() {
    let enforcer = test_enforcer();
    assert!(!enforce_request(&enforcer, 1, workspace("w1"), Action::Read).unwrap());
    assert!(!enforce_request(&enforcer, 1, workspace("w1"), AFRole::Guest).unwrap());
}

#[test]
fn grant_is_limited_to_its_subject_and_object() {
    let mut enforcer = test_enforcer();
    grant(&mut enforcer, SubjectType::User(1), workspace("w1"), AFRole::Owner);
    assert!(enforce_request(&enforcer, 1, workspace("w1"), Action::Delete).unwrap());
    assert!(!enforce_request(&enforcer, 2, workspace("w1"), Action::Read).unwrap());
    assert!(!enforce_request(&enforcer, 1, workspace("w2"), Action::Read).unwrap());
    assert!(!enforce_request(&enforcer, 1, ObjectType::Collab("w1".to_string()), Action::Read).unwrap());
}

#[test]
fn owner_permits_everything_member_permits() {
    let mut owner = test_enforcer();
    let mut member = test_enforcer();
    grant(&mut owner, SubjectType::User(7), workspace("w"), AFRole::Owner);
    grant(&mut member, SubjectType::User(7), workspace("w"), AFRole::Member);
    let requests: Vec<Box<dyn Fn(&Enforcer) -> bool>> = vec![
        Box::new(|e| enforce_request(e, 7, workspace("w"), Action::Read).unwrap()),
        Box::new(|e| enforce_request(e, 7, workspace("w"), Action::Write).unwrap()),
        Box::new(|e| enforce_request(e, 7, workspace("w"), Action::Delete).unwrap()),
        Box::new(|e| enforce_request(e, 7, workspace("w"), AFRole::Owner).unwrap()),
        Box::new(|e| enforce_request(e, 7, workspace("w"), AFRole::Member).unwrap()),
        Box::new(|e| enforce_request(e, 7, workspace("w"), AFRole::Guest).unwrap()),
        Box::new(|e| enforce_request(e, 7, workspace("w"), AFAccessLevel::FullAccess).unwrap()),
        Box::new(|e| enforce_request(e, 7, workspace("w"), AFAccessLevel::ReadOnly).unwrap()),
    ];
    for request in &requests {
        if request(&member) {
            assert!(request(&owner));
        }
    }
    assert!(request_count(&requests, &owner) > request_count(&requests, &member));
}

fn request_count(requests: &[Box<dyn Fn(&Enforcer) -> bool>], e: &Enforcer) -> usize {
    requests.iter().filter(|r| r(e)).count()
}

#[test]
fn access_level_on_collab() {
    let mut enforcer = test_enforcer();
    let doc = ObjectType::Collab("d1".to_string());
    grant(&mut enforcer, SubjectType::User(3), doc.clone(), AFAccessLevel::ReadAndComment);
    assert!(enforce_request(&enforcer, 3, doc.clone(), Action::Read).unwrap());
    assert!(!enforce_request(&enforcer, 3, doc.clone(), Action::Write).unwrap());
    assert!(enforce_request(&enforcer, 3, doc.clone(), AFAccessLevel::ReadOnly).unwrap());
    assert!(!enforce_request(&enforcer, 3, doc, AFAccessLevel::ReadAndWrite).unwrap());
}

#[test]
fn granting_twice_changes_nothing() {
    let mut enforcer = test_enforcer();
    grant(&mut enforcer, SubjectType::User(1), workspace("w1"), AFRole::Guest);
    let once = enforcer.get_policy();
    grant(&mut enforcer, SubjectType::User(1), workspace("w1"), AFRole::Guest);
    assert_eq!(enforcer.get_policy(), once);
    assert!(enforce_request(&enforcer, 1, workspace("w1"), Action::Read).unwrap());
    assert!(!enforce_request(&enforcer, 1, workspace("w1"), Action::Write).unwrap());
}

#[test]
fn remove_then_enforce() {
    let mut enforcer = test_enforcer();
    grant(&mut enforcer, SubjectType::User(1), workspace("w1"), AFRole::Owner);
    grant(&mut enforcer, SubjectType::User(2), workspace("w1"), AFRole::Member);
    let found = policies_for_subject_with_given_object(
        &SubjectType::User(1),
        &workspace("w1"),
        &enforcer,
    );
    assert_eq!(
        found,
        vec![vec!["1".to_string(), "workspace::w1".to_string(), "1".to_string()]]
    );
    block_on(enforcer.remove_policies(found)).unwrap();
    for allowed in [
        enforce_request(&enforcer, 1, workspace("w1"), Action::Read).unwrap(),
        enforce_request(&enforcer, 1, workspace("w1"), Action::Delete).unwrap(),
        enforce_request(&enforcer, 1, workspace("w1"), AFRole::Owner).unwrap(),
    ] {
        assert!(!allowed);
    }
    assert!(enforce_request(&enforcer, 2, workspace("w1"), Action::Write).unwrap());
}

#[test]
fn filtering_finds_nothing_for_unknown_subject() {
    let mut enforcer = test_enforcer();
    grant(&mut enforcer, SubjectType::User(1), workspace("w1"), AFRole::Owner);
    let found = policies_for_subject_with_given_object(
        &SubjectType::User(9),
        &workspace("w1"),
        &enforcer,
    );
    assert!(found.is_empty());
}

#[test]
fn checked_lookup_on_well_formed_engine() {
    let mut enforcer = test_enforcer();
    grant(&mut enforcer, SubjectType::User(4), workspace("w1"), AFRole::Guest);
    grant(&mut enforcer, SubjectType::User(4), workspace("w2"), AFRole::Owner);
    let found = find_subject_policies(&SubjectType::User(4), &workspace("w2"), &enforcer);
    assert_eq!(
        found,
        Some(vec![vec!["4".to_string(), "workspace::w2".to_string(), "1".to_string()]])
    );
}
