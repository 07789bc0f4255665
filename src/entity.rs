//! Subjects and objects of a policy, and their stable string encodings.
use vstd::prelude::*;

verus! {

/// The character of a decimal digit.
pub open spec fn digit_char(d: nat) -> char {
    if d == 0 {
        '0'
    } else if d == 1 {
        '1'
    } else if d == 2 {
        '2'
    } else if d == 3 {
        '3'
    } else if d == 4 {
        '4'
    } else if d == 5 {
        '5'
    } else if d == 6 {
        '6'
    } else if d == 7 {
        '7'
    } else if d == 8 {
        '8'
    } else {
        '9'
    }
}

/// The decimal digits of `n`, most significant first, without leading zeros.
pub open spec fn nat_decimal(n: nat) -> Seq<char>
    decreases n,
{
    if n < 10 {
        seq![digit_char(n)]
    } else {
        nat_decimal(n / 10).push(digit_char(n % 10))
    }
}

/// The decimal text of an integer, with a leading `-` when it is negative.
pub open spec fn int_decimal(i: int) -> Seq<char> {
    if i < 0 {
        seq!['-'] + nat_decimal((-i) as nat)
    } else {
        nat_decimal(i as nat)
    }
}

fn digit_str(d: u64) -> (r: &'static str)
    requires
        d < 10,
    ensures
        r@ == seq![digit_char(d as nat)],
{
    proof {
        reveal_strlit("0");
        reveal_strlit("1");
        reveal_strlit("2");
        reveal_strlit("3");
        reveal_strlit("4");
        reveal_strlit("5");
        reveal_strlit("6");
        reveal_strlit("7");
        reveal_strlit("8");
        reveal_strlit("9");
    }
    match d {
        0 => "0",
        1 => "1",
        2 => "2",
        3 => "3",
        4 => "4",
        5 => "5",
        6 => "6",
        7 => "7",
        8 => "8",
        _ => "9",
    }
}

fn append_decimal(s: &mut String, n: u64)
    ensures
        final(s)@ == old(s)@ + nat_decimal(n as nat),
    decreases n,
{
    if n >= 10 {
        append_decimal(s, n / 10);
    }
    let d = digit_str(n % 10);
    s.append(d);
    assert(final(s)@ =~= old(s)@ + nat_decimal(n as nat));
}

/// The decimal text of `n`.
pub fn unsigned_text(n: u64) -> (r: String)
    ensures
        r@ == nat_decimal(n as nat),
{
    let mut s = String::new();
    append_decimal(&mut s, n);
    assert(s@ =~= nat_decimal(n as nat));
    s
}

/// The decimal text of `i`.
pub fn decimal_text(i: i64) -> (r: String)
    ensures
        r@ == int_decimal(i as int),
{
    let mut s = String::new();
    if i < 0 {
        proof {
            reveal_strlit("-");
        }
        s.append("-");
        let m: u64 = (-(i as i128)) as u64;
        append_decimal(&mut s, m);
        assert(s@ =~= int_decimal(i as int));
    } else {
        append_decimal(&mut s, i as u64);
        assert(s@ =~= int_decimal(i as int));
    }
    s
}

/// The party that a policy grants something to.
#[derive(Clone, Copy, Debug, PartialEq, Eq, Structural)]
pub enum SubjectType {
    User(i64),
}

impl SubjectType {
    /// The subject field of a policy tuple.
    pub open spec fn spec_policy_subject(&self) -> Seq<char> {
        match self {
            SubjectType::User(uid) => int_decimal(*uid as int),
        }
    }

    pub fn policy_subject(&self) -> (r: String)
        ensures
            r@ == self.spec_policy_subject(),
    {
        match self {
            SubjectType::User(uid) => decimal_text(*uid),
        }
    }
}

/// The protected thing that a policy is about.
#[derive(Clone, Debug)]
pub enum ObjectType {
    Workspace(String),
    Collab(String),
}

pub open spec fn workspace_prefix() -> Seq<char> {
    "workspace::"@
}

pub open spec fn collab_prefix() -> Seq<char> {
    "collab::"@
}

impl ObjectType {
    /// The object field of a policy tuple: the kind of the object, then its id.
    pub open spec fn spec_policy_object(&self) -> Seq<char> {
        match self {
            ObjectType::Workspace(id) => workspace_prefix() + id@,
            ObjectType::Collab(id) => collab_prefix() + id@,
        }
    }

    pub fn policy_object(&self) -> (r: String)
        ensures
            r@ == self.spec_policy_object(),
    {
        match self {
            ObjectType::Workspace(id) => {
                let s = String::from_str("workspace::");
                s.concat(id.as_str())
            },
            ObjectType::Collab(id) => {
                let s = String::from_str("collab::");
                s.concat(id.as_str())
            },
        }
    }
}

} // verus!
