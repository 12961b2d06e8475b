//! Maps OIDC group claims to Aivyx roles.
use vstd::prelude::*;
use vstd::string::*;

use crate::sso::oidc::OidcClaims;
use crate::tenant::{role_rank, AivyxRole};

verus! {

/// A mapping from an OIDC group name to an Aivyx role.
#[derive(Debug, Clone)]
pub struct GroupRoleMapping {
    /// The OIDC group name to match.
    pub group: String,
    /// The Aivyx role to assign when the group matches.
    pub role: AivyxRole,
}

/// Maps OIDC group claims to the highest matching Aivyx role.
///
/// When multiple groups match, the highest-privilege role wins.
/// If no groups match, defaults to [`AivyxRole::Viewer`].
pub struct RoleMapper {
    mappings: Vec<GroupRoleMapping>,
}

/// Some mapping assigns `role` to one of `groups`.
pub open spec fn grants(groups: Seq<String>, mappings: Seq<GroupRoleMapping>, role: AivyxRole) -> bool {
    exists|i: int, j: int|
        0 <= i < groups.len() && 0 <= j < mappings.len() && mappings[j].group@ == groups[i]@
            && #[trigger] mappings[j].role == role && #[trigger] groups[i] == groups[i]
}

/// Some mapping matches one of `groups`.
pub open spec fn any_match(groups: Seq<String>, mappings: Seq<GroupRoleMapping>) -> bool {
    exists|i: int, j: int|
        0 <= i < groups.len() && 0 <= j < mappings.len() && #[trigger] mappings[j].group@
            == #[trigger] groups[i]@
}

/// The role for `groups`: the most privileged role that a matching mapping
/// grants, or `Viewer` when no mapping matches.
pub open spec fn mapped_role_spec(groups: Seq<String>, mappings: Seq<GroupRoleMapping>, r: AivyxRole) -> bool {
    if any_match(groups, mappings) {
        &&& grants(groups, mappings, r)
        &&& forall|i: int, j: int|
            0 <= i < groups.len() && 0 <= j < mappings.len() && #[trigger] mappings[j].group@
                == #[trigger] groups[i]@ ==> role_rank(mappings[j].role) <= role_rank(r)
    } else {
        r == AivyxRole::Viewer
    }
}

impl RoleMapper {
    /// The configured mappings.
    pub closed spec fn mappings_spec(&self) -> Seq<GroupRoleMapping> {
        self.mappings@
    }

    /// Create a new role mapper with the given group-to-role mappings.
    pub fn new(mappings: Vec<GroupRoleMapping>) -> (m: Self)
        ensures
            m.mappings_spec() == mappings@,
    {
        RoleMapper { mappings }
    }

    /// Map OIDC claims to the highest matching Aivyx role.
    ///
    /// Iterates through the user's group memberships and finds the highest
    /// role from the configured mappings. Returns [`AivyxRole::Viewer`] if
    /// no groups match.
    pub fn map_claims(&self, claims: &OidcClaims) -> (r: AivyxRole)
        ensures
            mapped_role_spec(claims.groups@, self.mappings_spec(), r),
    {
        let groups = &claims.groups;
        let mappings = &self.mappings;
        let mut best: Option<AivyxRole> = None;
        let mut i: usize = 0;
        while i < groups.len()
            invariant
                i <= groups@.len(),
                best is None <==> !any_match(groups@.take(i as int), mappings@),
                best matches Some(b) ==> grants(groups@, mappings@, b),
                best matches Some(b) ==> forall|i2: int, j: int|
                    0 <= i2 < i && 0 <= j < mappings@.len() && #[trigger] mappings@[j].group@
                        == #[trigger] groups@[i2]@ ==> role_rank(mappings@[j].role) <= role_rank(b),
            decreases groups@.len() - i,
        {
            let mut j: usize = 0;
            while j < mappings.len()
                invariant
                    i < groups@.len(),
                    j <= mappings@.len(),
                    best is None <==> (!any_match(groups@.take(i as int), mappings@) && forall|j2: int|
                        0 <= j2 < j ==> mappings@[j2].group@ != groups@[i as int]@),
                    best matches Some(b) ==> grants(groups@, mappings@, b),
                    best matches Some(b) ==> forall|i2: int, j2: int|
                        0 <= i2 < i && 0 <= j2 < mappings@.len() && #[trigger] mappings@[j2].group@
                            == #[trigger] groups@[i2]@ ==> role_rank(mappings@[j2].role) <= role_rank(b),
                    best matches Some(b) ==> forall|j2: int|
                        0 <= j2 < j && #[trigger] mappings@[j2].group@ == groups@[i as int]@
                            ==> role_rank(mappings@[j2].role) <= role_rank(b),
                decreases mappings@.len() - j,
            {
                if mappings[j].group == groups[i] {
                    let role = mappings[j].role;
                    proof {
                        assert(mappings@[j as int].role == role);
                        assert(groups@[i as int] == groups@[i as int]);
                        if best is None {
                            assert forall|i2: int, j2: int|
                                0 <= i2 < i && 0 <= j2 < mappings@.len() implies #[trigger] mappings@[j2].group@
                                    != #[trigger] groups@[i2]@ by {
                                assert(groups@.take(i as int)[i2] == groups@[i2]);
                            }
                        }
                    }
                    best = match best {
                        Some(current) => if role.rank() > current.rank() {
                            Some(role)
                        } else {
                            Some(current)
                        },
                        None => Some(role),
                    };
                }
                j += 1;
            }
            proof {
                let t = groups@.take(i + 1);
                if best is None {
                    assert forall|i2: int, j2: int|
                        0 <= i2 < t.len() && 0 <= j2 < mappings@.len() implies #[trigger] mappings@[j2].group@
                            != #[trigger] t[i2]@ by {
                        if i2 < i {
                            assert(t[i2] == groups@.take(i as int)[i2]);
                        }
                    }
                } else {
                    if !any_match(groups@.take(i as int), mappings@) {
                        let j2 = choose|j2: int| 0 <= j2 < mappings@.len() && mappings@[j2].group@ == groups@[i as int]@;
                        assert(t[i as int] == groups@[i as int]);
                        assert(mappings@[j2].group@ == t[i as int]@);
                    } else {
                        let (i2, j2) = choose|i2: int, j2: int| 0 <= i2 < groups@.take(i as int).len() && 0 <= j2 < mappings@.len()
                            && #[trigger] mappings@[j2].group@ == #[trigger] groups@.take(i as int)[i2]@;
                        assert(t[i2] == groups@.take(i as int)[i2]);
                    }
                }
            }
            i += 1;
        }
        assert(groups@.take(groups@.len() as int) =~= groups@);
        match best {
            Some(b) => b,
            None => AivyxRole::Viewer,
        }
    }
}

/// Law: a user in more groups never gets a less privileged role.
pub proof fn lemma_more_groups_never_lower(
    groups: Seq<String>,
    extra: String,
    mappings: Seq<GroupRoleMapping>,
    r1: AivyxRole,
    r2: AivyxRole,
)
    requires
        mapped_role_spec(groups, mappings, r1),
        mapped_role_spec(groups.push(extra), mappings, r2),
    ensures
        role_rank(r1) <= role_rank(r2),
{
    let g2 = groups.push(extra);
    if any_match(groups, mappings) {
        let (i, j) = choose|i: int, j: int|
            0 <= i < groups.len() && 0 <= j < mappings.len() && mappings[j].group@ == groups[i]@
                && #[trigger] mappings[j].role == r1 && #[trigger] groups[i] == groups[i];
        assert(g2[i] == groups[i]);
        assert(any_match(g2, mappings));
        assert(mappings[j].group@ == g2[i]@);
    }
}

/// Law: the most privileged matching role wins, by the order Viewer <
/// Operator < Billing < Admin. A user in a group mapped to Billing gets
/// Billing or Admin (never Operator or Viewer); one in a group mapped to
/// Admin gets Admin; one in a group mapped to Operator gets anything but
/// Viewer; and the role given is always one that a matching group maps to,
/// or Viewer when none matches.
pub proof fn lemma_highest_role_wins(groups: Seq<String>, mappings: Seq<GroupRoleMapping>, r: AivyxRole)
    requires
        mapped_role_spec(groups, mappings, r),
    ensures
        grants(groups, mappings, AivyxRole::Billing) ==> (r == AivyxRole::Billing || r == AivyxRole::Admin),
        grants(groups, mappings, AivyxRole::Admin) ==> r == AivyxRole::Admin,
        grants(groups, mappings, AivyxRole::Operator) ==> r != AivyxRole::Viewer,
        any_match(groups, mappings) ==> grants(groups, mappings, r),
        !any_match(groups, mappings) ==> r == AivyxRole::Viewer,
{
    crate::tenant::lemma_privilege_order();
    assert forall|q: AivyxRole| #[trigger] grants(groups, mappings, q) implies role_rank(q) <= role_rank(r) by {
        let (i, j) = choose|i: int, j: int|
            0 <= i < groups.len() && 0 <= j < mappings.len() && mappings[j].group@ == groups[i]@
                && #[trigger] mappings[j].role == q && #[trigger] groups[i] == groups[i];
        assert(any_match(groups, mappings));
    }
}

} // verus!
