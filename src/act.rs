//! The three families of actions, their encodings as policy actions, and the
//! role and access-level hierarchy that the matching engine is configured with.
use vstd::prelude::*;

verus! {

/// A raw capability.
#[derive(Clone, Copy, Debug, PartialEq, Eq, Structural)]
pub enum Action {
    Read,
    Write,
    Delete,
}

/// A role on a workspace: `Owner` is above `Member`, which is above `Guest`.
#[derive(Clone, Copy, Debug, PartialEq, Eq, Structural)]
pub enum AFRole {
    Owner,
    Member,
    Guest,
}

/// An access level on a shared document, from `ReadOnly` up to `FullAccess`.
#[derive(Clone, Copy, Debug, PartialEq, Eq, Structural)]
pub enum AFAccessLevel {
    ReadOnly,
    ReadAndComment,
    ReadAndWrite,
    FullAccess,
}

/// Any one action of the three families.
#[derive(Clone, Copy, Debug, PartialEq, Eq, Structural)]
pub enum ActionVariant {
    FromAction(Action),
    FromRole(AFRole),
    FromAccessLevel(AFAccessLevel),
}

pub open spec fn action_text(a: Action) -> Seq<char> {
    match a {
        Action::Read => "read"@,
        Action::Write => "write"@,
        Action::Delete => "delete"@,
    }
}

pub open spec fn role_text(r: AFRole) -> Seq<char> {
    match r {
        AFRole::Owner => "1"@,
        AFRole::Member => "2"@,
        AFRole::Guest => "3"@,
    }
}

pub open spec fn level_text(l: AFAccessLevel) -> Seq<char> {
    match l {
        AFAccessLevel::ReadOnly => "10"@,
        AFAccessLevel::ReadAndComment => "20"@,
        AFAccessLevel::ReadAndWrite => "30"@,
        AFAccessLevel::FullAccess => "50"@,
    }
}

/// The policy action that stands for an action of any family.
pub open spec fn variant_text(v: ActionVariant) -> Seq<char> {
    match v {
        ActionVariant::FromAction(a) => action_text(a),
        ActionVariant::FromRole(r) => role_text(r),
        ActionVariant::FromAccessLevel(l) => level_text(l),
    }
}

/// The rank of a role: the smaller, the higher the role.
pub open spec fn role_rank(r: AFRole) -> int {
    match r {
        AFRole::Owner => 1,
        AFRole::Member => 2,
        AFRole::Guest => 3,
    }
}

/// The rank of an access level: the larger, the more it allows.
pub open spec fn level_rank(l: AFAccessLevel) -> int {
    match l {
        AFAccessLevel::ReadOnly => 10,
        AFAccessLevel::ReadAndComment => 20,
        AFAccessLevel::ReadAndWrite => 30,
        AFAccessLevel::FullAccess => 50,
    }
}

/// The access level that a role carries on the documents of its workspace.
pub open spec fn level_of_role(r: AFRole) -> AFAccessLevel {
    match r {
        AFRole::Owner => AFAccessLevel::FullAccess,
        AFRole::Member => AFAccessLevel::ReadAndWrite,
        AFRole::Guest => AFAccessLevel::ReadOnly,
    }
}

/// The raw capabilities that a role or level is grouped with.
pub open spec fn grants(p: ActionVariant, a: Action) -> bool {
    match p {
        ActionVariant::FromRole(r) => match a {
            Action::Read => true,
            Action::Write => r != AFRole::Guest,
            Action::Delete => r == AFRole::Owner,
        },
        ActionVariant::FromAccessLevel(l) => match a {
            Action::Read => true,
            Action::Write => l == AFAccessLevel::ReadAndWrite || l == AFAccessLevel::FullAccess,
            Action::Delete => l == AFAccessLevel::FullAccess,
        },
        ActionVariant::FromAction(_) => false,
    }
}

/// The comparison of a requested role or level with a granted one.
pub open spec fn variant_cmp(requested: ActionVariant, granted: ActionVariant) -> bool {
    match (requested, granted) {
        (ActionVariant::FromRole(r), ActionVariant::FromRole(p)) => role_rank(p) <= role_rank(r),
        (ActionVariant::FromAccessLevel(r), ActionVariant::FromAccessLevel(p)) => level_rank(r)
            <= level_rank(p),
        (ActionVariant::FromAccessLevel(r), ActionVariant::FromRole(p)) => level_rank(r)
            <= level_rank(level_of_role(p)),
        _ => false,
    }
}

/// The action that a policy action stands for, if any.
pub open spec fn decode_act(s: Seq<char>) -> Option<ActionVariant> {
    if s == "read"@ {
        Some(ActionVariant::FromAction(Action::Read))
    } else if s == "write"@ {
        Some(ActionVariant::FromAction(Action::Write))
    } else if s == "delete"@ {
        Some(ActionVariant::FromAction(Action::Delete))
    } else if s == "1"@ {
        Some(ActionVariant::FromRole(AFRole::Owner))
    } else if s == "2"@ {
        Some(ActionVariant::FromRole(AFRole::Member))
    } else if s == "3"@ {
        Some(ActionVariant::FromRole(AFRole::Guest))
    } else if s == "10"@ {
        Some(ActionVariant::FromAccessLevel(AFAccessLevel::ReadOnly))
    } else if s == "20"@ {
        Some(ActionVariant::FromAccessLevel(AFAccessLevel::ReadAndComment))
    } else if s == "30"@ {
        Some(ActionVariant::FromAccessLevel(AFAccessLevel::ReadAndWrite))
    } else if s == "50"@ {
        Some(ActionVariant::FromAccessLevel(AFAccessLevel::FullAccess))
    } else {
        None
    }
}

/// The engine's custom comparison on two policy actions: the requested one and
/// the granted one.
pub open spec fn spec_cmp_role_or_level(r_act: Seq<char>, p_act: Seq<char>) -> bool {
    match (decode_act(r_act), decode_act(p_act)) {
        (Some(r), Some(p)) => variant_cmp(r, p),
        _ => false,
    }
}

/// The grouping relation of the engine: a role or level and a raw capability.
pub open spec fn group_link(p_act: Seq<char>, r_act: Seq<char>) -> bool {
    match (decode_act(p_act), decode_act(r_act)) {
        (Some(p), Some(ActionVariant::FromAction(a))) => grants(p, a),
        _ => false,
    }
}

/// Whether a policy granting `p_act` allows a request for `r_act`: the same
/// action, a grouped capability, or a role or level at least as high.
pub open spec fn act_implies(p_act: Seq<char>, r_act: Seq<char>) -> bool {
    p_act == r_act || group_link(p_act, r_act) || spec_cmp_role_or_level(r_act, p_act)
}

pub proof fn lemma_texts_distinct()
    ensures
        forall|v: ActionVariant| decode_act(#[trigger] variant_text(v)) == Some(v),
{
    reveal_strlit("read");
    reveal_strlit("write");
    reveal_strlit("delete");
    reveal_strlit("1");
    reveal_strlit("2");
    reveal_strlit("3");
    reveal_strlit("10");
    reveal_strlit("20");
    reveal_strlit("30");
    reveal_strlit("50");
    assert forall|v: ActionVariant| decode_act(#[trigger] variant_text(v)) == Some(v) by {
        let t = variant_text(v);
        assert(t.len() == 1 ==> t[0] == "1"@[0] || t[0] == "2"@[0] || t[0] == "3"@[0]);
        assert(t.len() == 2 ==> t[0] == "10"@[0] || t[0] == "20"@[0] || t[0] == "30"@[0] || t[0] == "50"@[0]);
        assert(t.len() > 2 ==> t[0] == "read"@[0] || t[0] == "write"@[0] || t[0] == "delete"@[0]);
    }
}

/// A value that stands for policy actions.
pub trait Acts {
    /// The policy action sent with an enforcement request.
    spec fn spec_enforce_act(&self) -> Seq<char>;

    /// The policy actions stored when this value is granted.
    spec fn spec_policy_acts(&self) -> Seq<Seq<char>>;

    fn to_enforce_act(&self) -> (r: &'static str)
        ensures
            r@ == self.spec_enforce_act(),
    ;

    fn policy_acts(&self) -> (r: Vec<String>)
        ensures
            r.deep_view() == self.spec_policy_acts(),
    ;
}

fn single_act(s: &'static str) -> (r: Vec<String>)
    ensures
        r.deep_view() == seq![s@],
{
    let mut v: Vec<String> = Vec::new();
    v.push(String::from_str(s));
    assert(v.deep_view() =~= seq![s@]);
    v
}

impl Acts for Action {
    open spec fn spec_enforce_act(&self) -> Seq<char> {
        action_text(*self)
    }

    open spec fn spec_policy_acts(&self) -> Seq<Seq<char>> {
        seq![action_text(*self)]
    }

    fn to_enforce_act(&self) -> (r: &'static str) {
        match self {
            Action::Read => "read",
            Action::Write => "write",
            Action::Delete => "delete",
        }
    }

    fn policy_acts(&self) -> (r: Vec<String>) {
        single_act(self.to_enforce_act())
    }
}

impl Acts for AFRole {
    open spec fn spec_enforce_act(&self) -> Seq<char> {
        role_text(*self)
    }

    open spec fn spec_policy_acts(&self) -> Seq<Seq<char>> {
        seq![role_text(*self)]
    }

    fn to_enforce_act(&self) -> (r: &'static str) {
        match self {
            AFRole::Owner => "1",
            AFRole::Member => "2",
            AFRole::Guest => "3",
        }
    }

    fn policy_acts(&self) -> (r: Vec<String>) {
        single_act(self.to_enforce_act())
    }
}

impl Acts for AFAccessLevel {
    open spec fn spec_enforce_act(&self) -> Seq<char> {
        level_text(*self)
    }

    open spec fn spec_policy_acts(&self) -> Seq<Seq<char>> {
        seq![level_text(*self)]
    }

    fn to_enforce_act(&self) -> (r: &'static str) {
        match self {
            AFAccessLevel::ReadOnly => "10",
            AFAccessLevel::ReadAndComment => "20",
            AFAccessLevel::ReadAndWrite => "30",
            AFAccessLevel::FullAccess => "50",
        }
    }

    fn policy_acts(&self) -> (r: Vec<String>) {
        single_act(self.to_enforce_act())
    }
}

impl Acts for ActionVariant {
    open spec fn spec_enforce_act(&self) -> Seq<char> {
        variant_text(*self)
    }

    open spec fn spec_policy_acts(&self) -> Seq<Seq<char>> {
        seq![variant_text(*self)]
    }

    fn to_enforce_act(&self) -> (r: &'static str) {
        match self {
            ActionVariant::FromAction(a) => a.to_enforce_act(),
            ActionVariant::FromRole(r) => r.to_enforce_act(),
            ActionVariant::FromAccessLevel(l) => l.to_enforce_act(),
        }
    }

    fn policy_acts(&self) -> (r: Vec<String>) {
        single_act(self.to_enforce_act())
    }
}

fn same_text(a: &str, b: &str) -> (r: bool)
    ensures
        r == (a@ == b@),
{
    String::from_str(a) == String::from_str(b)
}

impl ActionVariant {
    /// The action that a policy action stands for, if any.
    pub fn from_enforce_act(s: &str) -> (r: Option<ActionVariant>)
        ensures
            r == decode_act(s@),
    {
        if same_text(s, "read") {
            Some(ActionVariant::FromAction(Action::Read))
        } else if same_text(s, "write") {
            Some(ActionVariant::FromAction(Action::Write))
        } else if same_text(s, "delete") {
            Some(ActionVariant::FromAction(Action::Delete))
        } else if same_text(s, "1") {
            Some(ActionVariant::FromRole(AFRole::Owner))
        } else if same_text(s, "2") {
            Some(ActionVariant::FromRole(AFRole::Member))
        } else if same_text(s, "3") {
            Some(ActionVariant::FromRole(AFRole::Guest))
        } else if same_text(s, "10") {
            Some(ActionVariant::FromAccessLevel(AFAccessLevel::ReadOnly))
        } else if same_text(s, "20") {
            Some(ActionVariant::FromAccessLevel(AFAccessLevel::ReadAndComment))
        } else if same_text(s, "30") {
            Some(ActionVariant::FromAccessLevel(AFAccessLevel::ReadAndWrite))
        } else if same_text(s, "50") {
            Some(ActionVariant::FromAccessLevel(AFAccessLevel::FullAccess))
        } else {
            None
        }
    }
}

fn role_rank_of(r: AFRole) -> (n: u8)
    ensures
        n as int == role_rank(r),
{
    match r {
        AFRole::Owner => 1,
        AFRole::Member => 2,
        AFRole::Guest => 3,
    }
}

fn level_rank_of(l: AFAccessLevel) -> (n: u8)
    ensures
        n as int == level_rank(l),
{
    match l {
        AFAccessLevel::ReadOnly => 10,
        AFAccessLevel::ReadAndComment => 20,
        AFAccessLevel::ReadAndWrite => 30,
        AFAccessLevel::FullAccess => 50,
    }
}

fn role_level(r: AFRole) -> (l: AFAccessLevel)
    ensures
        l == level_of_role(r),
{
    match r {
        AFRole::Owner => AFAccessLevel::FullAccess,
        AFRole::Member => AFAccessLevel::ReadAndWrite,
        AFRole::Guest => AFAccessLevel::ReadOnly,
    }
}

/// The engine's custom comparison: whether the granted role or level
/// `p_act` reaches the requested role or level `r_act`.
pub fn cmp_role_or_level(r_act: &str, p_act: &str) -> (r: bool)
    ensures
        r == spec_cmp_role_or_level(r_act@, p_act@),
{
    let requested = ActionVariant::from_enforce_act(r_act);
    let granted = ActionVariant::from_enforce_act(p_act);
    match (requested, granted) {
        (Some(ActionVariant::FromRole(r)), Some(ActionVariant::FromRole(p))) => {
            role_rank_of(p) <= role_rank_of(r)
        },
        (Some(ActionVariant::FromAccessLevel(r)), Some(ActionVariant::FromAccessLevel(p))) => {
            level_rank_of(r) <= level_rank_of(p)
        },
        (Some(ActionVariant::FromAccessLevel(r)), Some(ActionVariant::FromRole(p))) => {
            level_rank_of(r) <= level_rank_of(role_level(p))
        },
        _ => false,
    }
}

/// The grouping tuples loaded into the engine at start: each role and each
/// level with every raw capability it is grouped with.
pub open spec fn group_pair(p: ActionVariant, a: Action) -> Seq<Seq<char>> {
    seq![variant_text(p), variant_text(ActionVariant::FromAction(a))]
}

pub open spec fn group_tuples() -> Seq<Seq<Seq<char>>> {
    seq![
        group_pair(ActionVariant::FromAccessLevel(AFAccessLevel::ReadOnly), Action::Read),
        group_pair(ActionVariant::FromAccessLevel(AFAccessLevel::ReadAndComment), Action::Read),
        group_pair(ActionVariant::FromAccessLevel(AFAccessLevel::ReadAndWrite), Action::Read),
        group_pair(ActionVariant::FromAccessLevel(AFAccessLevel::ReadAndWrite), Action::Write),
        group_pair(ActionVariant::FromAccessLevel(AFAccessLevel::FullAccess), Action::Read),
        group_pair(ActionVariant::FromAccessLevel(AFAccessLevel::FullAccess), Action::Write),
        group_pair(ActionVariant::FromAccessLevel(AFAccessLevel::FullAccess), Action::Delete),
        group_pair(ActionVariant::FromRole(AFRole::Owner), Action::Delete),
        group_pair(ActionVariant::FromRole(AFRole::Owner), Action::Write),
        group_pair(ActionVariant::FromRole(AFRole::Owner), Action::Read),
        group_pair(ActionVariant::FromRole(AFRole::Member), Action::Write),
        group_pair(ActionVariant::FromRole(AFRole::Member), Action::Read),
        group_pair(ActionVariant::FromRole(AFRole::Guest), Action::Read),
    ]
}

/// The seeded grouping tuples are exactly the pairs of the grouping relation.
pub proof fn lemma_group_tuples_match(p_act: Seq<char>, r_act: Seq<char>)
    ensures
        group_tuples().contains(seq![p_act, r_act]) <==> group_link(p_act, r_act),
{
    lemma_texts_distinct();
    let t = seq![p_act, r_act];
    let g = group_tuples();
    assert forall|k: int| 0 <= k < g.len() implies exists|pv: ActionVariant, a: Action|
        grants(pv, a) && #[trigger] g[k] == group_pair(pv, a) by {
        assert(0 <= k < 13);
    }
    if g.contains(t) {
        let i = choose|i: int| 0 <= i < g.len() && g[i] == t;
        let (pv, a) = choose|pv: ActionVariant, a: Action| grants(pv, a) && g[i] == group_pair(pv, a);
        assert(t[0] == variant_text(pv) && t[1] == variant_text(ActionVariant::FromAction(a)));
    }
    if group_link(p_act, r_act) {
        let pv = decode_act(p_act)->Some_0;
        let a = decode_act(r_act)->Some_0->FromAction_0;
        lemma_decode_inverse(p_act);
        lemma_decode_inverse(r_act);
        assert(t == group_pair(pv, a));
        assert(exists|k: int| 0 <= k < g.len() && g[k] == group_pair(pv, a));
    }
}

/// A policy action that decodes is the text of what it decodes to.
pub proof fn lemma_decode_inverse(s: Seq<char>)
    requires
        decode_act(s) is Some,
    ensures
        s == variant_text(decode_act(s)->Some_0),
{
    reveal_strlit("read");
    reveal_strlit("write");
    reveal_strlit("delete");
    reveal_strlit("1");
    reveal_strlit("2");
    reveal_strlit("3");
    reveal_strlit("10");
    reveal_strlit("20");
    reveal_strlit("30");
    reveal_strlit("50");
}

fn push_pair(v: &mut Vec<Vec<String>>, a: &str, b: &str)
    ensures
        final(v).deep_view() == old(v).deep_view().push(seq![a@, b@]),
{
    let mut pair: Vec<String> = Vec::new();
    pair.push(String::from_str(a));
    pair.push(String::from_str(b));
    assert(pair.deep_view() =~= seq![a@, b@]);
    v.push(pair);
    assert(final(v).deep_view() =~= old(v).deep_view().push(seq![a@, b@]));
}

/// The grouping policies that seed the engine's hierarchy.
pub fn group_policies() -> (r: Vec<Vec<String>>)
    ensures
        r.deep_view() == group_tuples(),
{
    let mut v: Vec<Vec<String>> = Vec::new();
    push_pair(&mut v, "10", "read");
    push_pair(&mut v, "20", "read");
    push_pair(&mut v, "30", "read");
    push_pair(&mut v, "30", "write");
    push_pair(&mut v, "50", "read");
    push_pair(&mut v, "50", "write");
    push_pair(&mut v, "50", "delete");
    push_pair(&mut v, "1", "delete");
    push_pair(&mut v, "1", "write");
    push_pair(&mut v, "1", "read");
    push_pair(&mut v, "2", "write");
    push_pair(&mut v, "2", "read");
    push_pair(&mut v, "3", "read");
    assert(v.deep_view() =~= group_tuples());
    v
}

} // verus!
