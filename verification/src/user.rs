//! Users as the identity provider's tokens describe them, and their onboarding.

use vstd::prelude::*;
use vstd::string::*;

use crate::ext::{now, str_eq, Timestamp};
use crate::json::JsonValue;

verus! {

/// Realm-level role assignment of a token.
#[derive(Debug)]
pub struct RealmAccess {
    pub roles: Vec<String>,
}

/// The claims of an access token.
#[derive(Debug)]
pub struct JwtClaims {
    pub sub: String,
    pub email: Option<String>,
    pub name: Option<String>,
    pub preferred_username: Option<String>,
    pub email_verified: Option<bool>,
    pub realm_access: Option<RealmAccess>,
    pub resource_access: Option<JsonValue>,
    pub exp: i64,
    pub iat: i64,
    pub iss: String,
    pub aud: JsonValue,
}

/// User profile from JWT claims.
#[derive(Debug)]
pub struct UserProfile {
    /// Keycloak user ID (sub claim).
    pub id: String,
    /// User's email.
    pub email: Option<String>,
    /// User's name.
    pub name: Option<String>,
    /// User's preferred username.
    pub preferred_username: Option<String>,
    /// Whether email is verified.
    pub email_verified: bool,
    /// User's roles.
    pub roles: Vec<String>,
}

/// A role name that grants administration.
pub open spec fn is_admin_role(r: Seq<char>) -> bool {
    r == "admin"@ || r == "Admin"@
}

/// The views of a list of strings.
pub open spec fn strings_view(v: Seq<String>) -> Seq<Seq<char>> {
    v.map_values(|s: String| s@)
}

/// The text of an optional string.
pub open spec fn opt_view(o: Option<String>) -> Option<Seq<char>> {
    match o {
        Some(s) => Some(s@),
        None => None,
    }
}

impl UserProfile {
    /// Check if user has admin role.
    pub fn is_admin(&self) -> (r: bool)
        ensures
            r == exists|i: int| 0 <= i < self.roles.len() && is_admin_role(#[trigger] self.roles@[i]@),
    {
        let mut i: usize = 0;
        while i < self.roles.len()
            invariant
                i <= self.roles.len(),
                forall|j: int| 0 <= j < i ==> !is_admin_role(#[trigger] self.roles@[j]@),
            decreases self.roles.len() - i,
        {
            let r = self.roles[i].as_str();
            if str_eq(r, "admin") || str_eq(r, "Admin") {
                assert(is_admin_role(self.roles@[i as int]@));
                return true;
            }
            i = i + 1;
        }
        false
    }

    /// The profile that a token's claims describe: the subject as id, the
    /// optional fields as they are, an unverified email where the claim is
    /// missing, and the realm roles (none where the token has no realm access).
    pub fn from_claims(claims: JwtClaims) -> (r: Self)
        ensures
            r.id@ == claims.sub@,
            opt_view(r.email) == opt_view(claims.email),
            opt_view(r.name) == opt_view(claims.name),
            opt_view(r.preferred_username) == opt_view(claims.preferred_username),
            r.email_verified == (claims.email_verified == Some(true)),
            strings_view(r.roles@) == match claims.realm_access {
                Some(ra) => strings_view(ra.roles@),
                None => Seq::<Seq<char>>::empty(),
            },
    {
        let roles = match claims.realm_access {
            Some(ra) => ra.roles,
            None => Vec::new(),
        };
        let email_verified = match claims.email_verified {
            Some(b) => b,
            None => false,
        };
        proof {
            assert(strings_view(Seq::<String>::empty()) =~= Seq::<Seq<char>>::empty());
        }
        UserProfile {
            id: claims.sub,
            email: claims.email,
            name: claims.name,
            preferred_username: claims.preferred_username,
            email_verified,
            roles,
        }
    }
}

/// User initialization/onboarding state.
#[derive(Debug)]
pub struct UserOnboarding {
    pub user_id: String,
    pub completed: bool,
    pub current_step: i32,
    pub steps_completed: Vec<String>,
    pub created_at: Timestamp,
    pub updated_at: Timestamp,
}

/// No step is listed twice.
pub open spec fn no_duplicates(steps: Seq<Seq<char>>) -> bool {
    forall|i: int, j: int| 0 <= i < j < steps.len() ==> steps[i] != steps[j]
}

impl UserOnboarding {
    /// Create a new onboarding state: not completed, at step 0, with no steps done.
    pub fn new(user_id: String) -> (r: Self)
        ensures
            r.user_id@ == user_id@,
            !r.completed,
            r.current_step == 0,
            r.steps_completed@.len() == 0,
            0 <= r.created_at.secs < 8_300_000_000_000,
            0 <= r.updated_at.secs < 8_300_000_000_000,
    {
        UserOnboarding {
            user_id,
            completed: false,
            current_step: 0,
            steps_completed: Vec::new(),
            created_at: now(),
            updated_at: now(),
        }
    }

    /// Mark a step as completed: a step not yet listed is appended, the
    /// current step becomes the number of steps done, and the state is
    /// touched; a step already listed changes nothing.
    pub fn complete_step(&mut self, step: &str)
        ensures
            strings_view(old(self).steps_completed@).contains(step@) ==> {
                &&& strings_view(final(self).steps_completed@) == strings_view(old(self).steps_completed@)
                &&& final(self).current_step == old(self).current_step
                &&& final(self).updated_at == old(self).updated_at
            },
            !strings_view(old(self).steps_completed@).contains(step@) ==> {
                &&& strings_view(final(self).steps_completed@) == strings_view(old(self).steps_completed@).push(step@)
                &&& final(self).current_step == final(self).steps_completed.len() as i32
                &&& 0 <= final(self).updated_at.secs < 8_300_000_000_000
            },
            final(self).user_id@ == old(self).user_id@,
            final(self).completed == old(self).completed,
            final(self).created_at == old(self).created_at,
    {
        let ghost before = strings_view(self.steps_completed@);
        let mut i: usize = 0;
        let mut found = false;
        while i < self.steps_completed.len()
            invariant_except_break
                !found,
            invariant
                i <= self.steps_completed.len(),
                before == strings_view(self.steps_completed@),
                before.len() == self.steps_completed.len(),
                forall|j: int| 0 <= j < i ==> #[trigger] before[j] != step@,
            ensures
                found ==> before.contains(step@),
                !found ==> forall|j: int| 0 <= j < before.len() ==> #[trigger] before[j] != step@,
            decreases self.steps_completed.len() - i,
        {
            let ghost e = self.steps_completed@[i as int];
            assert(before[i as int] == e@);
            if str_eq(self.steps_completed[i].as_str(), step) {
                found = true;
                assert(before[i as int] == step@);
                break;
            }
            i = i + 1;
        }
        if !found {
            assert(!before.contains(step@));
            self.steps_completed.push(String::from_str(step));
            assert(strings_view(self.steps_completed@) =~= before.push(step@));
            self.current_step = #[verifier::truncate] (self.steps_completed.len() as i32);
            self.updated_at = now();
        } else {
            assert(before.contains(step@));
        }
    }

    /// Mark onboarding as fully completed.
    pub fn complete(&mut self)
        ensures
            final(self).completed,
            0 <= final(self).updated_at.secs < 8_300_000_000_000,
            final(self).user_id@ == old(self).user_id@,
            final(self).current_step == old(self).current_step,
            strings_view(final(self).steps_completed@) == strings_view(old(self).steps_completed@),
            final(self).created_at == old(self).created_at,
    {
        self.completed = true;
        self.updated_at = now();
    }
}

/// Completing steps keeps the list free of repeats: from a list without
/// repeats, completing any step gives a list without repeats.
pub proof fn lemma_complete_step_keeps_steps_distinct(before: Seq<Seq<char>>, step: Seq<char>)
    requires
        no_duplicates(before),
    ensures
        no_duplicates(if before.contains(step) { before } else { before.push(step) }),
{
    if !before.contains(step) {
        let after = before.push(step);
        assert forall|i: int, j: int| 0 <= i < j < after.len() implies after[i] != after[j] by {
            if j == before.len() {
                assert(after[i] == before[i]);
                if after[i] == after[j] {
                    assert(before.contains(step));
                }
            }
        }
    }
}

} // verus!
