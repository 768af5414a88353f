//! The key record: the unit of identity and policy.

use vstd::prelude::*;
use vstd::string::StringExecFns;

verus! {

/// A quota on one class of operations: a bounded ceiling per rolling
/// 60-second window, or "unlimited".
#[derive(Clone, Copy, Debug, PartialEq, Eq, Structural)]
pub enum ApiKeyLimit {
    Limited(u32),
    Unlimited,
}

/// One quota per operation class.
#[derive(Clone, Copy, Debug, PartialEq, Eq, Structural)]
pub struct ApiKeyLimits {
    pub max_reads_per_minute: ApiKeyLimit,
    pub max_writes_per_minute: ApiKeyLimit,
}

/// Hostnames for which a key is valid. Order is irrelevant; the pipeline
/// does not enforce these yet (a documented extension point).
#[derive(Debug)]
pub struct ApiKeyRestrictions {
    pub allowed_domains: Vec<String>,
}

/// Lifecycle state of a key. Only `Active` keys are meant to be usable;
/// the pipeline itself does not filter on status.
#[derive(Clone, Copy, Debug, PartialEq, Eq, Structural)]
pub enum ApiKeyStatus {
    Active,
    Inactive,
    Deleted,
}

/// The authoritative shape of a key and its policy. The `key` field is the
/// caller-supplied credential string, doubling as the storage lookup key.
/// Timestamps are plain integers (milliseconds); the storage layer or an
/// administrative path fills them in.
#[derive(Debug)]
pub struct ApiKey {
    pub key: String,
    pub limits: ApiKeyLimits,
    pub restrictions: ApiKeyRestrictions,
    pub status: ApiKeyStatus,
    pub created_at: i64,
    pub updated_at: i64,
}

/// The mathematical value of an [`ApiKey`]: every field as a plain value.
pub struct ApiKeyModel {
    pub key: Seq<char>,
    pub limits: ApiKeyLimits,
    pub allowed_domains: Seq<Seq<char>>,
    pub status: ApiKeyStatus,
    pub created_at: i64,
    pub updated_at: i64,
}

impl View for ApiKeyRestrictions {
    type V = Seq<Seq<char>>;

    open spec fn view(&self) -> Seq<Seq<char>> {
        self.allowed_domains.deep_view()
    }
}

impl Clone for ApiKeyRestrictions {
    fn clone(&self) -> (r: Self)
        ensures
            r@ == self@,
    {
        let domains = self.allowed_domains.clone();
        proof {
            assert(domains.deep_view() =~= self.allowed_domains.deep_view()) by {
                assert forall|i: int| 0 <= i < domains@.len() implies domains@[i]@
                    == self.allowed_domains@[i]@ by {
                    assert(cloned::<String>(self.allowed_domains@[i], domains@[i]));
                }
            }
        }
        ApiKeyRestrictions { allowed_domains: domains }
    }
}

impl View for ApiKey {
    type V = ApiKeyModel;

    open spec fn view(&self) -> ApiKeyModel {
        ApiKeyModel {
            key: self.key@,
            limits: self.limits,
            allowed_domains: self.restrictions@,
            status: self.status,
            created_at: self.created_at,
            updated_at: self.updated_at,
        }
    }
}

impl Clone for ApiKey {
    fn clone(&self) -> (r: Self)
        ensures
            r@ == self@,
    {
        ApiKey {
            key: self.key.clone(),
            limits: self.limits,
            restrictions: self.restrictions.clone(),
            status: self.status,
            created_at: self.created_at,
            updated_at: self.updated_at,
        }
    }
}

/// The decimal digit character for a value below ten.
pub open spec fn decimal_digit(n: nat) -> char {
    if n == 0 {
        '0'
    } else if n == 1 {
        '1'
    } else if n == 2 {
        '2'
    } else if n == 3 {
        '3'
    } else if n == 4 {
        '4'
    } else if n == 5 {
        '5'
    } else if n == 6 {
        '6'
    } else if n == 7 {
        '7'
    } else if n == 8 {
        '8'
    } else {
        '9'
    }
}

/// The usual decimal rendering of a natural number, without leading zeros.
pub open spec fn decimal_rep(n: nat) -> Seq<char>
    decreases n,
{
    if n < 10 {
        seq![decimal_digit(n)]
    } else {
        decimal_rep(n / 10).push(decimal_digit(n % 10))
    }
}

fn digit_str(d: u32) -> (r: &'static str)
    requires
        d < 10,
    ensures
        r@ =~= seq![decimal_digit(d as nat)],
{
    proof {
        reveal_strlit("0");
        reveal_strlit("1");
        reveal_strlit("2");
        reveal_strlit("3");
        reveal_strlit("4");
        reveal_strlit("5");
        reveal_strlit("6");
        reveal_strlit("7");
        reveal_strlit("8");
        reveal_strlit("9");
    }
    if d == 0 {
        "0"
    } else if d == 1 {
        "1"
    } else if d == 2 {
        "2"
    } else if d == 3 {
        "3"
    } else if d == 4 {
        "4"
    } else if d == 5 {
        "5"
    } else if d == 6 {
        "6"
    } else if d == 7 {
        "7"
    } else if d == 8 {
        "8"
    } else {
        "9"
    }
}

fn push_decimal(s: &mut String, n: u32)
    ensures
        final(s)@ == old(s)@ + decimal_rep(n as nat),
    decreases n,
{
    if n >= 10 {
        push_decimal(s, n / 10);
    }
    s.append(digit_str(n % 10));
    proof {
        if n < 10 {
            assert(old(s)@ + decimal_rep(n as nat) =~= old(s)@ + seq![
                decimal_digit(n as nat),
            ]);
        } else {
            assert(old(s)@ + decimal_rep(n as nat) =~= (old(s)@ + decimal_rep(
                (n / 10) as nat,
            )) + seq![decimal_digit((n % 10) as nat)]);
        }
        assert(final(s)@ =~= old(s)@ + decimal_rep(n as nat));
    }
}

/// What [`ApiKeyLimit::to_message`] renders: the ceiling in decimal,
/// or the word "unlimited".
pub open spec fn limit_message(l: ApiKeyLimit) -> Seq<char> {
    match l {
        ApiKeyLimit::Limited(n) => decimal_rep(n as nat),
        ApiKeyLimit::Unlimited => "unlimited"@,
    }
}

impl ApiKeyLimit {
    /// A human-readable rendering of the quota.
    pub fn to_message(&self) -> (r: String)
        ensures
            r@ == limit_message(*self),
    {
        match *self {
            ApiKeyLimit::Limited(n) => {
                let mut s = String::new();
                push_decimal(&mut s, n);
                proof {
                    assert(s@ =~= decimal_rep(n as nat));
                }
                s
            },
            ApiKeyLimit::Unlimited => String::from_str("unlimited"),
        }
    }
}

} // verus!
