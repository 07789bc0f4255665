//! The casbin engine as this library configures it, and its read side: the
//! stored tuples of a subject on an object, and the decision on a request.
use vstd::prelude::*;
use casbin::{CoreApi, MgmtApi};
use crate::act::{Acts, cmp_role_or_level};
use crate::entity::{SubjectType, ObjectType};
use crate::error::AccessError;
use crate::policy::{PolicyRequest, policy_tuple, subject_policies_on, on_object, of_subject, of_subject_on_object, lemma_filter_twice, lemma_filter_no_duplicates, lemma_filter_to_set, POLICY_FIELD_INDEX_OBJECT, POLICY_FIELD_INDEX_SUBJECT};

verus! {

/// The model the engine is built from: a request is permitted when a stored
/// tuple has its subject and object, and the stored action is the requested
/// one, is grouped with it, or is a role or level that reaches it.
pub const ENFORCER_MODEL: &'static str = "[request_definition]
r = sub, obj, act

[policy_definition]
p = sub, obj, act

[role_definition]
g = _, _

[policy_effect]
e = some(where (p.eft == allow))

[matchers]
m = r.sub == p.sub && p.obj == r.obj && (g(p.act, r.act) || cmpRoleOrLevel(r.act, p.act))
";

/// The name under which the model calls the role and level comparison.
pub const CMP_FUNCTION_NAME: &'static str = "cmpRoleOrLevel";

#[verifier::external_type_specification]
#[verifier::external_body]
pub struct ExEnforcer(casbin::Enforcer);

#[verifier::external_type_specification]
#[verifier::external_body]
pub struct ExCasbinError(casbin::Error);

/// The policy tuples (of the policy type `p`) that an engine holds, in the
/// order in which the engine keeps them.
pub uninterp spec fn stored_policies(e: casbin::Enforcer) -> Seq<Seq<Seq<char>>>;

/// Every stored tuple has a subject and an object field, as the model's
/// policy definition asks.
pub open spec fn well_formed(e: casbin::Enforcer) -> bool {
    forall|i: int| 0 <= i < stored_policies(e).len() ==> (#[trigger] stored_policies(e)[i]).len() > 1
}

/// Relies on casbin's `MgmtApi::get_filtered_policy`: with a single non-empty
/// value at the object field, it walks the stored tuples in order and returns a
/// copy of each one whose object field equals the value (indexing that field,
/// which each stored tuple has). The tuples are held in a set kept in order of
/// insertion, so none comes twice.
#[verifier::external_body]
fn filtered_by_object(e: &casbin::Enforcer, object_id: String) -> (r: Vec<Vec<String>>)
    requires
        object_id@.len() > 0,
        well_formed(*e),
    ensures
        r.deep_view() == stored_policies(*e).filter(on_object(object_id@)),
        r.deep_view().no_duplicates(),
{
    e.get_filtered_policy(POLICY_FIELD_INDEX_OBJECT, vec![object_id])
}

/// Relies on casbin's `MgmtApi::get_policy`: a copy of each stored tuple of
/// the policy type `p`, in order, each once.
#[verifier::external_body]
fn stored_policy_list(e: &casbin::Enforcer) -> (r: Vec<Vec<String>>)
    ensures
        r.deep_view() == stored_policies(*e),
        r.deep_view().no_duplicates(),
{
    e.get_policy()
}

/// The decision of an engine, in its present state, on a request tuple.
pub uninterp spec fn engine_decision(e: casbin::Enforcer, request: Seq<Seq<char>>) -> bool;

/// Whether an engine, in its present state, evaluates a request tuple without
/// an error.
pub uninterp spec fn engine_accepts(e: casbin::Enforcer, request: Seq<Seq<char>>) -> bool;

/// Relies on casbin's `CoreApi::enforce`: evaluates a request tuple against
/// the engine's model, functions and stored tuples, and changes none of them;
/// whether it succeeds, and what it decides, depend on those and the request.
#[verifier::external_body]
fn engine_enforce(e: &casbin::Enforcer, request: Vec<String>) -> (r: Result<bool, casbin::Error>)
    ensures
        r is Ok <==> engine_accepts(*e, request.deep_view()),
        r is Ok ==> r->Ok_0 == engine_decision(*e, request.deep_view()),
{
    e.enforce(request)
}

/// Relies on the `Debug` form of `casbin::Error`, for an error's text.
#[verifier::external_body]
fn engine_error_text(err: &casbin::Error) -> (r: String) {
    format!("{err:?}")
}

#[verifier::external_type_specification]
#[verifier::external_body]
pub struct ExDynamic(casbin::rhai::Dynamic);

/// Relies on the text form of the script values that casbin's matcher hands a
/// custom function: the comparison of the two policy actions, as a script
/// boolean.
#[verifier::external_body]
fn cmp_script_values(a: casbin::rhai::Dynamic, b: casbin::rhai::Dynamic) -> (r: casbin::rhai::Dynamic) {
    casbin::rhai::Dynamic::from(cmp_role_or_level(&a.to_string(), &b.to_string()))
}

/// The names of the functions that an engine's matcher can call.
pub uninterp spec fn engine_functions(e: casbin::Enforcer) -> Set<Seq<char>>;

/// Relies on casbin's `CoreApi::add_function`: registers a function of two
/// arguments under a name that the model's matcher calls. It inserts into the
/// function map and the script engine, and leaves the stored tuples alone.
#[verifier::external_body]
fn register_cmp_function(e: &mut casbin::Enforcer, name: &str)
    ensures
        engine_functions(*final(e)) == engine_functions(*old(e)).insert(name@),
        stored_policies(*final(e)) == stored_policies(*old(e)),
{
    e.add_function(name, casbin::function_map::OperatorFunction::Arg2(cmp_script_values))
}

/// Hands the engine the role and level comparison that its model calls.
pub fn install_hierarchy_function(e: &mut casbin::Enforcer)
    ensures
        engine_functions(*final(e)) == engine_functions(*old(e)).insert(CMP_FUNCTION_NAME@),
        stored_policies(*final(e)) == stored_policies(*old(e)),
{
    register_cmp_function(e, CMP_FUNCTION_NAME);
}

/// The stored tuples of `subject` on `object_type`, in the engine's order,
/// each once.
pub fn policies_for_subject_with_given_object(
    subject: &SubjectType,
    object_type: &ObjectType,
    enforcer: &casbin::Enforcer,
) -> (r: Vec<Vec<String>>)
    requires
        well_formed(*enforcer),
    ensures
        r.deep_view() == stored_policies(*enforcer).filter(
            of_subject_on_object(subject.spec_policy_subject(), object_type.spec_policy_object()),
        ),
        r.deep_view().no_duplicates(),
        r.deep_view().to_set() == subject_policies_on(
            stored_policies(*enforcer).to_set(),
            subject.spec_policy_subject(),
            object_type.spec_policy_object(),
        ),
{
    let subject_id = subject.policy_subject();
    let object_type_id = object_type.policy_object();
    proof {
        reveal_strlit("workspace::");
        reveal_strlit("collab::");
    }
    let ghost s = subject.spec_policy_subject();
    let ghost o = object_type.spec_policy_object();
    let related = filtered_by_object(enforcer, object_type_id);
    proof {
        let stored = stored_policies(*enforcer);
        assert forall|j: int| 0 <= j < related.deep_view().len() implies (#[trigger] related.deep_view()[j]).len() > 1 by {
            let q = related.deep_view()[j];
            assert(related.deep_view().contains(q));
            stored.lemma_filter_contains_rev(on_object(o), q);
            let k = choose|k: int| 0 <= k < stored.len() && stored[k] == q;
        }
    }
    let mut r: Vec<Vec<String>> = Vec::new();
    let mut i: usize = 0;
    while i < related.len()
        invariant
            i <= related.len(),
            r.deep_view() == related.deep_view().take(i as int).filter(of_subject(s)),
            forall|j: int| 0 <= j < related.deep_view().len() ==> (#[trigger] related.deep_view()[j]).len() > 1,
            subject_id@ == s,
        decreases related.len() - i,
    {
        let ghost pv = related.deep_view()[i as int];
        let ghost before = related.deep_view().take(i as int);
        assert(related.deep_view().take(i + 1) =~= before.push(pv));
        proof {
            before.lemma_filter_push(pv, of_subject(s));
        }
        let p = &related[i];
        assert(p.deep_view() == pv);
        assert(p@.len() > 1);
        assert(p[0]@ == pv[0]);
        if p[POLICY_FIELD_INDEX_SUBJECT] == subject_id {
            let ghost prev = r.deep_view();
            r.push(p.clone());
            assert(r.deep_view() =~= prev.push(pv));
        }
        i = i + 1;
    }
    proof {
        let stored = stored_policies(*enforcer);
        assert(related.deep_view().take(i as int) =~= related.deep_view());
        lemma_filter_twice(stored, s, o);
        lemma_filter_no_duplicates(related.deep_view(), of_subject(s));
        lemma_filter_to_set(stored, of_subject_on_object(s, o));
    }
    r
}

/// The stored tuples of `subject` on `object_type`, in the engine's order,
/// each once; `None` when some stored tuple lacks a subject or an object field,
/// which the engine's filter cannot read.
pub fn find_subject_policies(
    subject: &SubjectType,
    object_type: &ObjectType,
    enforcer: &casbin::Enforcer,
) -> (r: Option<Vec<Vec<String>>>)
    ensures
        r is None <==> !well_formed(*enforcer),
        r is Some ==> r->Some_0.deep_view() == stored_policies(*enforcer).filter(
            of_subject_on_object(subject.spec_policy_subject(), object_type.spec_policy_object()),
        ),
        r is Some ==> r->Some_0.deep_view().no_duplicates(),
        r is Some ==> r->Some_0.deep_view().to_set() == subject_policies_on(
            stored_policies(*enforcer).to_set(),
            subject.spec_policy_subject(),
            object_type.spec_policy_object(),
        ),
{
    let all = stored_policy_list(enforcer);
    let mut i: usize = 0;
    while i < all.len()
        invariant
            i <= all.len(),
            forall|j: int| 0 <= j < i ==> (#[trigger] all.deep_view()[j]).len() > 1,
            all.deep_view() == stored_policies(*enforcer),
        decreases all.len() - i,
    {
        assert(all[i as int].deep_view() == all.deep_view()[i as int]);
        if all[i].len() < 2 {
            return None;
        }
        i = i + 1;
    }
    Some(policies_for_subject_with_given_object(subject, object_type, enforcer))
}

/// The result of an enforcement, with an engine error turned into an internal
/// error.
pub fn enforce_outcome(result: Result<bool, casbin::Error>) -> (r: Result<bool, AccessError>)
    ensures
        result is Ok ==> r == Ok::<bool, AccessError>(result->Ok_0),
        result is Err ==> r is Err && r->Err_0 is Internal,
{
    match result {
        Ok(allowed) => Ok(allowed),
        Err(e) => {
            let m = String::from_str("enforce: ");
            Err(AccessError::Internal(m.concat(engine_error_text(&e).as_str())))
        },
    }
}

/// Asks the engine whether user `uid` may do `act` on `obj`: the engine's
/// decision on the request tuple where the engine evaluates it, else its error
/// as an internal error.
pub fn enforce_request<T: Acts>(enforcer: &casbin::Enforcer, uid: i64, obj: ObjectType, act: T) -> (r:
    Result<bool, AccessError>)
    ensures
        r is Ok <==> engine_accepts(
            *enforcer,
            policy_tuple(
                SubjectType::User(uid).spec_policy_subject(),
                obj.spec_policy_object(),
                act.spec_enforce_act(),
            ),
        ),
        r is Ok ==> r->Ok_0 == engine_decision(
            *enforcer,
            policy_tuple(
                SubjectType::User(uid).spec_policy_subject(),
                obj.spec_policy_object(),
                act.spec_enforce_act(),
            ),
        ),
        r is Err ==> r->Err_0 is Internal,
{
    let request = PolicyRequest::new(uid, obj, act);
    enforce_outcome(engine_enforce(enforcer, request.to_policy()))
}

} // verus!
