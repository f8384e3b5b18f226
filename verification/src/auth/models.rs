//! Token claims and the permissions they carry.

use vstd::prelude::*;
use vstd::string::StringExecFns;

verus! {

/// A request for one page of the user list.
#[derive(Debug)]
pub struct ListUsersQuery {
    pub page_num: u8,
}

/// The part of the configuration that clients may see.
#[derive(Debug)]
pub struct RestrictedConfig {
    pub auth0_domain: String,
    pub gs_domain: String,
}

/// The identity provider's signing keys.
#[derive(Debug, Clone)]
pub struct Jwks {
    pub keys: [Jwk; 2],
}

/// One signing key of the identity provider.
#[derive(Debug, Clone)]
pub struct Jwk {
    pub kid: String,
    pub n: String,
    pub e: String,
    pub kty: String,
    pub alg: String,
    pub use_: String,
}

/// What a token may allow.
#[derive(Debug, Clone, Copy, PartialEq, Eq, Structural, Hash)]
pub enum Permission {
    ReadAdmin,
    WriteAdmin,
    WriteGame,
    WriteSystemLog,
}

/// The kind of account behind a user.
#[derive(Debug, Clone, Copy, PartialEq, Eq, Structural)]
pub enum UserType {
    Guest,
    Registered,
    Admin,
}

/// How many users were seen lately.
#[derive(Debug, Clone, Copy, PartialEq, Eq, Structural)]
pub struct RecentUserStats {
    pub this_month_users: i64,
    pub this_week_users: i64,
    pub todays_users: i64,
}

/// The claims of an access token. The permissions are kept as a list that is
/// read as a set.
#[derive(Debug, Clone)]
pub struct Claims {
    pub gty: Option<String>,
    pub aud: Vec<String>,
    pub azp: String,
    pub exp: i32,
    pub iat: i32,
    pub iss: String,
    pub scope: String,
    pub sub: String,
    pub permissions: Option<Vec<Permission>>,
}

/// Whether the permission stands in the list.
pub fn has_permission(list: &Vec<Permission>, wanted: Permission) -> (found: bool)
    ensures
        found == list@.contains(wanted),
{
    let mut i: usize = 0;
    while i < list.len()
        invariant
            i <= list@.len(),
            forall|j: int| 0 <= j < i ==> list@[j] != wanted,
        decreases list@.len() - i,
    {
        if list[i] == wanted {
            return true;
        }
        i += 1;
    }
    false
}

impl Claims {
    /// Whether the token grants the permission.
    pub open spec fn grants(&self, wanted: Permission) -> bool {
        self.permissions matches Some(list) && list@.contains(wanted)
    }

    /// The claims of a caller without a token: the guest.
    pub fn empty() -> (claims: Self)
        ensures
            claims.gty is None,
            claims.aud@.len() == 0,
            claims.azp@.len() == 0,
            claims.exp == 0,
            claims.iat == 0,
            claims.iss@.len() == 0,
            claims.scope@.len() == 0,
            claims.sub@ == "guest"@,
            claims.permissions is None,
    {
        Claims {
            gty: None,
            aud: Vec::new(),
            azp: String::new(),
            exp: 0,
            iat: 0,
            iss: String::new(),
            scope: String::new(),
            sub: String::from_str("guest"),
            permissions: None,
        }
    }

    /// Whether the token was issued to a machine, by client credentials.
    pub fn is_machine(&self) -> (machine: bool)
        ensures
            machine == (self.gty matches Some(grant) && grant@ == "client-credentials"@),
    {
        match &self.gty {
            None => false,
            Some(grant) => *grant == String::from_str("client-credentials"),
        }
    }

    /// The subject of the token.
    pub fn auth0_id(&self) -> (id: &str)
        ensures
            id@ == self.sub@,
    {
        self.sub.as_str()
    }

    /// The required permissions that the token does not grant, each once and
    /// in the order in which they were asked for. A token without a list of
    /// permissions misses all of them, and the answer is then given even when
    /// nothing was required. A token with a list gives no answer exactly when
    /// it grants every required permission.
    pub fn missing_permission(&self, required: &Vec<Permission>) -> (res: Option<Vec<Permission>>)
        ensures
            res is None <==> self.permissions is Some && forall|i: int|
                0 <= i < required@.len() ==> self.grants(required@[i]),
            res matches Some(missing) ==> {
                &&& missing@.no_duplicates()
                &&& forall|p: Permission|
                    missing@.contains(p) <==> required@.contains(p) && !self.grants(p)
            },
    {
        let mut missing: Vec<Permission> = Vec::new();
        let mut i: usize = 0;
        while i < required.len()
            invariant
                i <= required@.len(),
                missing@.no_duplicates(),
                forall|k: int|
                    0 <= k < missing@.len() ==> !self.grants(#[trigger] missing@[k]) && exists|j: int|
                        0 <= j < i && required@[j] == missing@[k],
                forall|j: int|
                    0 <= j < i && !self.grants(#[trigger] required@[j]) ==> missing@.contains(
                        required@[j],
                    ),
            decreases required@.len() - i,
        {
            let wanted = required[i];
            let granted = match &self.permissions {
                None => false,
                Some(list) => has_permission(list, wanted),
            };
            assert(granted == self.grants(wanted));
            let ghost before = missing@;
            let listed = has_permission(&missing, wanted);
            if !granted && !listed {
                missing.push(wanted);
            }
            proof {
                assert forall|k: int| 0 <= k < missing@.len() implies !self.grants(
                    #[trigger] missing@[k],
                ) && exists|j: int| 0 <= j < i + 1 && required@[j] == missing@[k] by {
                    if k < before.len() {
                        assert(missing@[k] == before[k]);
                        let j = choose|j: int| 0 <= j < i && required@[j] == before[k];
                        assert(0 <= j < i + 1 && required@[j] == missing@[k]);
                    } else {
                        assert(missing@[k] == wanted);
                        assert(0 <= i < i + 1 && required@[i as int] == missing@[k]);
                    }
                }
                assert forall|j: int|
                    0 <= j < i + 1 && !self.grants(#[trigger] required@[j]) implies missing@.contains(
                    required@[j],
                ) by {
                    if j < i {
                        assert(before.contains(required@[j]));
                        let k = choose|k: int| 0 <= k < before.len() && before[k] == required@[j];
                        assert(missing@[k] == required@[j]);
                    } else if listed {
                        let k = choose|k: int| 0 <= k < before.len() && before[k] == wanted;
                        assert(missing@[k] == wanted);
                    } else {
                        assert(missing@[before.len() as int] == wanted);
                    }
                }
                assert(missing@.no_duplicates()) by {
                    if !granted && !listed {
                        assert forall|a: int, b: int|
                            0 <= a < missing@.len() && 0 <= b < missing@.len() && a
                                != b implies missing@[a] != missing@[b] by {
                            if a < before.len() && b < before.len() {
                                assert(before[a] != before[b]);
                            } else if a < before.len() {
                                assert(before[a] != wanted);
                            } else {
                                assert(before[b] != wanted);
                            }
                        }
                    }
                }
            }
            i += 1;
        }
        proof {
            assert forall|p: Permission|
                missing@.contains(p) <==> required@.contains(p) && !self.grants(p) by {
                if missing@.contains(p) {
                    let k = choose|k: int| 0 <= k < missing@.len() && missing@[k] == p;
                    assert(!self.grants(missing@[k]));
                    let j = choose|j: int| 0 <= j < i && required@[j] == missing@[k];
                    assert(required@[j] == p);
                }
                if required@.contains(p) && !self.grants(p) {
                    let j = choose|j: int| 0 <= j < required@.len() && required@[j] == p;
                    assert(!self.grants(required@[j]));
                }
            }
        }
        if self.permissions.is_none() {
            return Some(missing);
        }
        if missing.len() == 0 {
            proof {
                assert forall|j: int| 0 <= j < required@.len() implies self.grants(
                    required@[j],
                ) by {
                    if !self.grants(required@[j]) {
                        assert(missing@.contains(required@[j]));
                    }
                }
            }
            None
        } else {
            proof {
                assert(!self.grants(missing@[0]));
                let j = choose|j: int| 0 <= j < i && required@[j] == missing@[0];
                assert(!self.grants(required@[j]));
            }
            Some(missing)
        }
    }
}

} // verus!
