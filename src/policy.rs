//! Policy tuples and requests built from typed values, and the decision that
//! the configured engine makes over a set of stored tuples.
use vstd::prelude::*;
use crate::act::{Acts, act_implies, role_text, level_text, role_rank, level_rank, lemma_texts_distinct, variant_text, ActionVariant, AFRole, AFAccessLevel};
use crate::entity::{SubjectType, ObjectType, decimal_text};

verus! {

/// The field of a policy tuple that holds the subject.
pub const POLICY_FIELD_INDEX_SUBJECT: usize = 0;

/// The field of a policy tuple that holds the object.
pub const POLICY_FIELD_INDEX_OBJECT: usize = 1;

pub open spec fn policy_tuple(sub: Seq<char>, obj: Seq<char>, act: Seq<char>) -> Seq<Seq<char>> {
    seq![sub, obj, act]
}

/// The tuples stored when `act` is granted to `sub` on `obj`: one per policy
/// action of `act`.
pub open spec fn spec_policies_to_add<T: Acts>(sub: SubjectType, obj: ObjectType, act: T) -> Seq<
    Seq<Seq<char>>,
> {
    act.spec_policy_acts().map_values(
        |a: Seq<char>| policy_tuple(sub.spec_policy_subject(), obj.spec_policy_object(), a),
    )
}

/// Builds the tuples that grant `act` to `sub` on `obj`.
pub fn policies_to_add<T: Acts>(sub: &SubjectType, obj: &ObjectType, act: &T) -> (r: Vec<
    Vec<String>,
>)
    ensures
        r.deep_view() == spec_policies_to_add(*sub, *obj, *act),
{
    let acts = act.policy_acts();
    let mut r: Vec<Vec<String>> = Vec::new();
    let mut i: usize = 0;
    while i < acts.len()
        invariant
            i <= acts.len(),
            acts.deep_view() == act.spec_policy_acts(),
            r.deep_view() =~= spec_policies_to_add(*sub, *obj, *act).take(i as int),
        decreases acts.len() - i,
    {
        let mut tuple: Vec<String> = Vec::new();
        tuple.push(sub.policy_subject());
        tuple.push(obj.policy_object());
        tuple.push(acts[i].clone());
        assert(tuple.deep_view() =~= policy_tuple(
            sub.spec_policy_subject(),
            obj.spec_policy_object(),
            acts.deep_view()[i as int],
        ));
        let ghost prev = r.deep_view();
        let ghost tv = tuple.deep_view();
        r.push(tuple);
        assert(r.deep_view() =~= prev.push(tv));
        i = i + 1;
        assert(r.deep_view() =~= spec_policies_to_add(*sub, *obj, *act).take(i as int));
    }
    assert(spec_policies_to_add(*sub, *obj, *act).take(i as int) =~= spec_policies_to_add(
        *sub,
        *obj,
        *act,
    ));
    r
}

/// An enforcement request: a user, an object and the action asked for.
pub struct PolicyRequest<T: Acts> {
    pub uid: i64,
    pub object_type: ObjectType,
    pub action: T,
}

impl<T: Acts> PolicyRequest<T> {
    pub fn new(uid: i64, object_type: ObjectType, action: T) -> (r: Self)
        ensures
            r.uid == uid,
            r.object_type == object_type,
            r.action == action,
    {
        PolicyRequest { uid, object_type, action }
    }

    pub open spec fn spec_to_policy(&self) -> Seq<Seq<char>> {
        policy_tuple(
            SubjectType::User(self.uid).spec_policy_subject(),
            self.object_type.spec_policy_object(),
            self.action.spec_enforce_act(),
        )
    }

    /// The request tuple handed to the engine.
    pub fn to_policy(&self) -> (r: Vec<String>)
        ensures
            r.deep_view() == self.spec_to_policy(),
    {
        let mut r: Vec<String> = Vec::new();
        r.push(decimal_text(self.uid));
        r.push(self.object_type.policy_object());
        r.push(String::from_str(self.action.to_enforce_act()));
        assert(r.deep_view() =~= self.spec_to_policy());
        r
    }
}

/// The intended decision of an engine configured with the role and level
/// hierarchy, on the request tuple `req`, when it holds the policy tuples
/// `store`. The engine itself is not proved to decide so.
pub open spec fn permits(store: Set<Seq<Seq<char>>>, req: Seq<Seq<char>>) -> bool {
    exists|p: Seq<Seq<char>>|
        #![trigger store.contains(p)]
        store.contains(p) && p.len() == 3 && p[0] == req[0] && p[1] == req[1] && act_implies(
            p[2],
            req[2],
        )
}

/// The stored tuples after `tuples` were added.
pub open spec fn after_add(store: Set<Seq<Seq<char>>>, tuples: Seq<Seq<Seq<char>>>) -> Set<
    Seq<Seq<char>>,
> {
    store.union(tuples.to_set())
}

/// The stored tuples after `tuples` were removed.
pub open spec fn after_remove(store: Set<Seq<Seq<char>>>, tuples: Seq<Seq<Seq<char>>>) -> Set<
    Seq<Seq<char>>,
> {
    store.difference(tuples.to_set())
}

/// A tuple whose object field is `obj`.
pub open spec fn on_object(obj: Seq<char>) -> spec_fn(Seq<Seq<char>>) -> bool {
    |p: Seq<Seq<char>>| p[1] == obj
}

/// A tuple whose subject field is `sub`.
pub open spec fn of_subject(sub: Seq<char>) -> spec_fn(Seq<Seq<char>>) -> bool {
    |p: Seq<Seq<char>>| p[0] == sub
}

/// A tuple of subject `sub` on object `obj`.
pub open spec fn of_subject_on_object(sub: Seq<char>, obj: Seq<char>) -> spec_fn(
    Seq<Seq<char>>,
) -> bool {
    |p: Seq<Seq<char>>| p.len() > 1 && p[0] == sub && p[1] == obj
}

/// The stored tuples of subject `sub` on object `obj`.
pub open spec fn subject_policies_on(
    store: Set<Seq<Seq<char>>>,
    sub: Seq<char>,
    obj: Seq<char>,
) -> Set<Seq<Seq<char>>> {
    store.filter(of_subject_on_object(sub, obj))
}

/// Keeping the tuples on `obj` and then those of `sub` keeps, in the same
/// order, the tuples of `sub` on `obj`, where every tuple has both fields.
pub proof fn lemma_filter_twice(tuples: Seq<Seq<Seq<char>>>, sub: Seq<char>, obj: Seq<char>)
    requires
        forall|i: int| 0 <= i < tuples.len() ==> (#[trigger] tuples[i]).len() > 1,
    ensures
        tuples.filter(on_object(obj)).filter(of_subject(sub)) == tuples.filter(
            of_subject_on_object(sub, obj),
        ),
    decreases tuples.len(),
{
    reveal(Seq::filter);
    if tuples.len() > 0 {
        let rest = tuples.drop_last();
        assert forall|i: int| 0 <= i < rest.len() implies (#[trigger] rest[i]).len() > 1 by {
            assert(rest[i] == tuples[i]);
        }
        lemma_filter_twice(rest, sub, obj);
        let last = tuples.last();
        assert(tuples =~= rest.push(last));
        rest.lemma_filter_push(last, on_object(obj));
        rest.lemma_filter_push(last, of_subject_on_object(sub, obj));
        rest.filter(on_object(obj)).lemma_filter_push(last, of_subject(sub));
    }
}

/// Keeping some of the tuples of a list without duplicates gives a list
/// without duplicates.
pub proof fn lemma_filter_no_duplicates(
    tuples: Seq<Seq<Seq<char>>>,
    keep: spec_fn(Seq<Seq<char>>) -> bool,
)
    requires
        tuples.no_duplicates(),
    ensures
        tuples.filter(keep).no_duplicates(),
    decreases tuples.len(),
{
    reveal(Seq::filter);
    if tuples.len() > 0 {
        let rest = tuples.drop_last();
        let last = tuples.last();
        assert(tuples =~= rest.push(last));
        assert(rest.no_duplicates()) by {
            assert forall|i: int, j: int| 0 <= i < rest.len() && 0 <= j < rest.len() && i != j implies rest[i] != rest[j] by {
                assert(rest[i] == tuples[i] && rest[j] == tuples[j]);
            }
        }
        lemma_filter_no_duplicates(rest, keep);
        rest.lemma_filter_push(last, keep);
        if keep(last) {
            let f = rest.filter(keep);
            if f.contains(last) {
                rest.lemma_filter_contains_rev(keep, last);
                let k = choose|k: int| 0 <= k < rest.len() && rest[k] == last;
                assert(tuples[k] == tuples[tuples.len() - 1]);
            }
            assert forall|i: int, j: int| 0 <= i < f.push(last).len() && 0 <= j < f.push(last).len() && i != j implies f.push(last)[i] != f.push(last)[j] by {
                if i < f.len() && j < f.len() {
                } else if i < f.len() {
                    assert(f.contains(f[i]));
                } else {
                    assert(f.contains(f[j]));
                }
            }
        }
    }
}

/// The set of the kept tuples of a list is the kept part of its set.
pub proof fn lemma_filter_to_set(tuples: Seq<Seq<Seq<char>>>, keep: spec_fn(Seq<Seq<char>>) -> bool)
    ensures
        tuples.filter(keep).to_set() == tuples.to_set().filter(keep),
{
    assert forall|p: Seq<Seq<char>>| #[trigger] tuples.filter(keep).to_set().contains(p) <==> tuples.to_set().filter(keep).contains(p) by {
        if tuples.filter(keep).contains(p) {
            tuples.lemma_filter_contains_rev(keep, p);
        }
        if tuples.contains(p) && keep(p) {
            let k = choose|k: int| 0 <= k < tuples.len() && tuples[k] == p;
            tuples.lemma_filter_contains(keep, k);
        }
    }
    assert(tuples.filter(keep).to_set() =~= tuples.to_set().filter(keep));
}

/// After `act` is granted to `sub` on `obj`, every request of `sub` on `obj`
/// for an action that one of the policy actions of `act` implies is permitted;
/// where `sub` held nothing on `obj` before, no other request of `sub` on `obj`
/// is.
pub proof fn lemma_update_then_enforce<T: Acts>(
    store: Set<Seq<Seq<char>>>,
    sub: SubjectType,
    obj: ObjectType,
    act: T,
    requested: Seq<char>,
)
    ensures
        (exists|i: int|
            0 <= i < act.spec_policy_acts().len() && act_implies(
                #[trigger] act.spec_policy_acts()[i],
                requested,
            )) ==> permits(
            after_add(store, spec_policies_to_add(sub, obj, act)),
            policy_tuple(sub.spec_policy_subject(), obj.spec_policy_object(), requested),
        ),
        subject_policies_on(store, sub.spec_policy_subject(), obj.spec_policy_object()).is_empty()
            && permits(
            after_add(store, spec_policies_to_add(sub, obj, act)),
            policy_tuple(sub.spec_policy_subject(), obj.spec_policy_object(), requested),
        ) ==> exists|i: int|
            0 <= i < act.spec_policy_acts().len() && act_implies(
                #[trigger] act.spec_policy_acts()[i],
                requested,
            ),
{
    let s = sub.spec_policy_subject();
    let o = obj.spec_policy_object();
    let acts = act.spec_policy_acts();
    let tuples = spec_policies_to_add(sub, obj, act);
    let req = policy_tuple(s, o, requested);
    let updated = after_add(store, tuples);
    if exists|i: int| 0 <= i < acts.len() && act_implies(#[trigger] acts[i], requested) {
        let i = choose|i: int| 0 <= i < acts.len() && act_implies(#[trigger] acts[i], requested);
        let p = tuples[i];
        assert(tuples.contains(p));
        assert(updated.contains(p));
    }
    if subject_policies_on(store, s, o).is_empty() && permits(updated, req) {
        let p = choose|p: Seq<Seq<char>>|
            #![trigger updated.contains(p)]
            updated.contains(p) && p.len() == 3 && p[0] == req[0] && p[1] == req[1] && act_implies(
                p[2],
                req[2],
            );
        if store.contains(p) {
            assert(subject_policies_on(store, s, o).contains(p));
        } else {
            assert(tuples.to_set().contains(p));
            let j = choose|j: int| 0 <= j < tuples.len() && tuples[j] == p;
            assert(act_implies(acts[j], requested));
        }
    }
}

/// A role at least as high as another implies every action that the other
/// implies.
pub proof fn lemma_role_monotonic(higher: AFRole, lower: AFRole, requested: Seq<char>)
    requires
        role_rank(higher) <= role_rank(lower),
        act_implies(role_text(lower), requested),
    ensures
        act_implies(role_text(higher), requested),
{
    lemma_texts_distinct();
    assert(variant_text(ActionVariant::FromRole(higher)) == role_text(higher));
    assert(variant_text(ActionVariant::FromRole(lower)) == role_text(lower));
    if requested == role_text(lower) {
        assert(variant_text(ActionVariant::FromRole(lower)) == requested);
    }
}

/// An access level at least as high as another implies every action that the
/// other implies.
pub proof fn lemma_level_monotonic(
    higher: AFAccessLevel,
    lower: AFAccessLevel,
    requested: Seq<char>,
)
    requires
        level_rank(lower) <= level_rank(higher),
        act_implies(level_text(lower), requested),
    ensures
        act_implies(level_text(higher), requested),
{
    lemma_texts_distinct();
    assert(variant_text(ActionVariant::FromAccessLevel(higher)) == level_text(higher));
    assert(variant_text(ActionVariant::FromAccessLevel(lower)) == level_text(lower));
    if requested == level_text(lower) {
        assert(variant_text(ActionVariant::FromAccessLevel(lower)) == requested);
    }
}

/// Whatever a lower role granted on an object permits, a higher role granted
/// on the same object permits too.
pub proof fn lemma_higher_role_permits_more(
    store: Set<Seq<Seq<char>>>,
    sub: SubjectType,
    obj: ObjectType,
    higher: AFRole,
    lower: AFRole,
    req: Seq<Seq<char>>,
)
    requires
        role_rank(higher) <= role_rank(lower),
        permits(after_add(store, spec_policies_to_add(sub, obj, lower)), req),
    ensures
        permits(after_add(store, spec_policies_to_add(sub, obj, higher)), req),
{
    let low = spec_policies_to_add(sub, obj, lower);
    let high = spec_policies_to_add(sub, obj, higher);
    let lset = after_add(store, low);
    let hset = after_add(store, high);
    let p = choose|p: Seq<Seq<char>>|
        #![trigger lset.contains(p)]
        lset.contains(p) && p.len() == 3 && p[0] == req[0] && p[1] == req[1] && act_implies(
            p[2],
            req[2],
        );
    if store.contains(p) {
        assert(hset.contains(p));
    } else {
        assert(low.to_set().contains(p));
        assert(low.contains(p));
        assert(p == low[0]);
        lemma_role_monotonic(higher, lower, req[2]);
        assert(high.contains(high[0]));
        assert(hset.contains(high[0]));
    }
}

/// Granting the same thing twice leaves the stored tuples, and so every
/// decision, as granting it once.
pub proof fn lemma_update_idempotent<T: Acts>(
    store: Set<Seq<Seq<char>>>,
    sub: SubjectType,
    obj: ObjectType,
    act: T,
    req: Seq<Seq<char>>,
)
    ensures
        after_add(
            after_add(store, spec_policies_to_add(sub, obj, act)),
            spec_policies_to_add(sub, obj, act),
        ) == after_add(store, spec_policies_to_add(sub, obj, act)),
        permits(
            after_add(
                after_add(store, spec_policies_to_add(sub, obj, act)),
                spec_policies_to_add(sub, obj, act),
            ),
            req,
        ) == permits(after_add(store, spec_policies_to_add(sub, obj, act)), req),
{
    let t = spec_policies_to_add(sub, obj, act);
    assert(after_add(after_add(store, t), t) =~= after_add(store, t));
}

/// Once every stored tuple of `sub` on `obj` is removed, no request of `sub`
/// on `obj` is permitted.
pub proof fn lemma_remove_then_enforce(
    store: Set<Seq<Seq<char>>>,
    sub: SubjectType,
    obj: ObjectType,
    removed: Seq<Seq<Seq<char>>>,
    requested: Seq<char>,
)
    requires
        removed.to_set() == subject_policies_on(
            store,
            sub.spec_policy_subject(),
            obj.spec_policy_object(),
        ),
    ensures
        !permits(
            after_remove(store, removed),
            policy_tuple(sub.spec_policy_subject(), obj.spec_policy_object(), requested),
        ),
{
    let s = sub.spec_policy_subject();
    let o = obj.spec_policy_object();
    let req = policy_tuple(s, o, requested);
    let rest = after_remove(store, removed);
    if permits(rest, req) {
        let p = choose|p: Seq<Seq<char>>|
            #![trigger rest.contains(p)]
            rest.contains(p) && p.len() == 3 && p[0] == req[0] && p[1] == req[1] && act_implies(
                p[2],
                req[2],
            );
        assert(subject_policies_on(store, s, o).contains(p));
    }
}

} // verus!
