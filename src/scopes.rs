//! Scopes: the names the provider knows, and the set every request carries.
use crate::text::{insert_sorted, lemma_sorted_unique, str_lt, strictly_sorted};
use vstd::prelude::*;

verus! {

/// Scopes that every authorization request carries, whatever the caller asks for.
pub enum ReservedScopes {
    OfflineAccess,
    OpenId,
}

/// Scopes that a caller may ask for.
pub enum UserScopes {
    CustomData,
    Email,
    Identities,
    Phone,
    Profile,
}

impl ReservedScopes {
    pub open spec fn spec_as_str(&self) -> Seq<char> {
        match self {
            ReservedScopes::OfflineAccess => "offline_access"@,
            ReservedScopes::OpenId => "openid"@,
        }
    }

    pub fn as_str(&self) -> (r: &'static str)
        ensures
            r@ == self.spec_as_str(),
    {
        match self {
            ReservedScopes::OfflineAccess => "offline_access",
            ReservedScopes::OpenId => "openid",
        }
    }
}

impl UserScopes {
    pub open spec fn spec_as_str(&self) -> Seq<char> {
        match self {
            UserScopes::CustomData => "custom_data"@,
            UserScopes::Email => "email"@,
            UserScopes::Identities => "identities"@,
            UserScopes::Phone => "phone"@,
            UserScopes::Profile => "profile"@,
        }
    }

    pub fn as_str(&self) -> (r: &'static str)
        ensures
            r@ == self.spec_as_str(),
    {
        match self {
            UserScopes::CustomData => "custom_data",
            UserScopes::Email => "email",
            UserScopes::Identities => "identities",
            UserScopes::Phone => "phone",
            UserScopes::Profile => "profile",
        }
    }
}

/// The scopes added to every request: `offline_access`, `openid` and `profile`.
pub open spec fn is_default_scope(x: Seq<char>) -> bool {
    x == ReservedScopes::OfflineAccess.spec_as_str() || x == ReservedScopes::OpenId.spec_as_str()
        || x == UserScopes::Profile.spec_as_str()
}

/// The scopes that a request for `requested` carries: those asked for and the default ones.
pub open spec fn carries_scope(requested: Option<Seq<Seq<char>>>, x: Seq<char>) -> bool {
    is_default_scope(x) || (requested is Some && requested->0.contains(x))
}

/// `r` lists the scopes that a request for `requested` carries, each once, in the order of `str`.
pub open spec fn is_normalized_scopes(requested: Option<Seq<Seq<char>>>, r: Seq<Seq<char>>) -> bool {
    strictly_sorted(r) && forall|x: Seq<char>| r.contains(x) <==> carries_scope(requested, x)
}

/// The scope list of a request for `requested` (it exists and is unique: see `with_default_scopes`
/// and `normalized_scopes_unique`).
pub open spec fn normalized_scopes(requested: Option<Seq<Seq<char>>>) -> Seq<Seq<char>> {
    choose|r: Seq<Seq<char>>| is_normalized_scopes(requested, r)
}

/// The normalized scope list is unique: two lists that both carry exactly the requested and the
/// default scopes, sorted and without repetition, are the same list.
pub proof fn normalized_scopes_unique(
    requested: Option<Seq<Seq<char>>>,
    a: Seq<Seq<char>>,
    b: Seq<Seq<char>>,
)
    requires
        is_normalized_scopes(requested, a),
        is_normalized_scopes(requested, b),
    ensures
        a == b,
{
    lemma_sorted_unique(a, b);
}

/// Adds the default scopes to `scopes` and sorts the result, with each scope once.
pub fn with_default_scopes(scopes: Option<Vec<String>>) -> (r: Vec<String>)
    ensures
        is_normalized_scopes(scopes.deep_view(), r.deep_view()),
        r.deep_view() == normalized_scopes(scopes.deep_view()),
{
    let mut out: Vec<String> = Vec::new();
    proof {
        assert(out.deep_view() == Seq::<Seq<char>>::empty());
    }
    let requested = match scopes {
        Some(v) => v,
        None => Vec::new(),
    };
    let ghost req = requested.deep_view();
    let mut i: usize = 0;
    while i < requested.len()
        invariant
            req == requested.deep_view(),
            i <= requested@.len(),
            strictly_sorted(out.deep_view()),
            forall|x: Seq<char>|
                out.deep_view().contains(x) <==> req.subrange(0, i as int).contains(x),
        decreases requested@.len() - i,
    {
        insert_sorted(&mut out, requested[i].clone());
        proof {
            let sub = req.subrange(0, i + 1);
            assert(sub == req.subrange(0, i as int).push(req[i as int]));
            assert(req[i as int] == requested@[i as int]@);
            let prev = req.subrange(0, i as int);
            assert forall|x: Seq<char>| sub.contains(x) <==> (prev.contains(x) || x == req[i as int]) by {
                if sub.contains(x) {
                    let k = choose|k: int| 0 <= k < sub.len() && sub[k] == x;
                    if k < i {
                        assert(prev[k] == x);
                    }
                }
                if prev.contains(x) {
                    let k = choose|k: int| 0 <= k < prev.len() && prev[k] == x;
                    assert(sub[k] == x);
                }
                if x == req[i as int] {
                    assert(sub[i as int] == x);
                }
            }
        }
        i = i + 1;
    }
    assert(req.subrange(0, requested@.len() as int) == req);
    insert_sorted(&mut out, ReservedScopes::OfflineAccess.as_str().to_owned());
    insert_sorted(&mut out, ReservedScopes::OpenId.as_str().to_owned());
    insert_sorted(&mut out, UserScopes::Profile.as_str().to_owned());
    proof {
        let ghost r = out.deep_view();
        assert forall|x: Seq<char>| r.contains(x) <==> carries_scope(scopes.deep_view(), x) by {
            if scopes is None {
                assert(req.len() == 0);
            }
        }
        assert(is_normalized_scopes(scopes.deep_view(), r));
        let c = choose|c: Seq<Seq<char>>| is_normalized_scopes(scopes.deep_view(), c);
        lemma_sorted_unique(r, c);
    }
    out
}

} // verus!
