//! Administration of roles: the permissions a role grants, the request
//! bodies and the errors, with the status each error answers with.

use vstd::prelude::*;
use crate::db::ids::{GroupId, RoleId, UserId};
use crate::text::{push_decimal, push_str, spec_decimal, to_owned_string};

verus! {

/// what a permission is about
#[derive(Debug, Clone, Copy, PartialEq, Eq, Structural)]
pub enum Scope {
    Users,
    Journals,
    Entries,
    Groups,
    Roles,
}

/// what a permission allows
#[derive(Debug, Clone, Copy, PartialEq, Eq, Structural)]
pub enum Ability {
    Create,
    Read,
    Update,
    Delete,
}

impl Scope {
    /// the place of the scope in the order of scopes
    pub open spec fn spec_index(self) -> int {
        match self {
            Scope::Users => 0,
            Scope::Journals => 1,
            Scope::Entries => 2,
            Scope::Groups => 3,
            Scope::Roles => 4,
        }
    }

    /// the place of the scope in the order of scopes
    pub fn index(&self) -> (rtn: usize)
        ensures
            rtn == self.spec_index(),
    {
        match self {
            Scope::Users => 0,
            Scope::Journals => 1,
            Scope::Entries => 2,
            Scope::Groups => 3,
            Scope::Roles => 4,
        }
    }

    /// the scope at a place in the order of scopes
    pub fn from_index(i: usize) -> (rtn: Self)
        requires
            i < 5,
        ensures
            rtn.spec_index() == i,
    {
        match i {
            0 => Scope::Users,
            1 => Scope::Journals,
            2 => Scope::Entries,
            3 => Scope::Groups,
            _ => Scope::Roles,
        }
    }
}

impl Ability {
    /// the place of the ability in the order of abilities
    pub open spec fn spec_index(self) -> int {
        match self {
            Ability::Create => 0,
            Ability::Read => 1,
            Ability::Update => 2,
            Ability::Delete => 3,
        }
    }

    /// the place of the ability in the order of abilities
    pub fn index(&self) -> (rtn: usize)
        ensures
            rtn == self.spec_index(),
    {
        match self {
            Ability::Create => 0,
            Ability::Read => 1,
            Ability::Update => 2,
            Ability::Delete => 3,
        }
    }

    /// the ability at a place in the order of abilities
    pub fn from_index(i: usize) -> (rtn: Self)
        requires
            i < 4,
        ensures
            rtn.spec_index() == i,
    {
        match i {
            0 => Ability::Create,
            1 => Ability::Read,
            2 => Ability::Update,
            _ => Ability::Delete,
        }
    }
}

/// the role named in the path
#[derive(Debug, Clone, Copy, PartialEq, Eq, Structural)]
pub struct RolePath {
    pub role_id: RoleId,
}

/// why a role could not be read
#[derive(Debug, Clone, Copy, PartialEq, Eq, Structural)]
pub enum RetrieveRoleError {
    RoleNotFound,
}

impl RetrieveRoleError {
    /// the http status of the error: 404
    pub fn status(&self) -> (rtn: u16)
        ensures
            rtn == 404,
    {
        404
    }
}

/// the abilities a role is given in one scope
#[derive(Debug)]
pub struct PermissionBody {
    pub scope: Scope,
    pub abilities: Vec<Ability>,
}

/// the body of a new role
#[derive(Debug)]
pub struct NewRole {
    pub name: String,
    pub permissions: Vec<PermissionBody>,
    pub users: Vec<UserId>,
    pub groups: Vec<GroupId>,
}

/// why a role could not be made
#[derive(Debug)]
pub enum NewRoleError {
    RoleExists,
    UsersNotFound { ids: Vec<UserId> },
    GroupsNotFound { ids: Vec<GroupId> },
}

impl NewRoleError {
    /// the http status of the error: 400 for a taken name, 404 for missing
    /// users or groups
    pub fn status(&self) -> (rtn: u16)
        ensures
            rtn == (if *self is RoleExists { 400u16 } else { 404u16 }),
    {
        match self {
            NewRoleError::RoleExists => 400,
            NewRoleError::UsersNotFound { .. } => 404,
            NewRoleError::GroupsNotFound { .. } => 404,
        }
    }
}

/// the body of a change to a role: each part is changed only when given
#[derive(Debug)]
pub struct UpdateRole {
    pub name: Option<String>,
    pub users: Option<Vec<UserId>>,
    pub groups: Option<Vec<GroupId>>,
    pub permissions: Option<Vec<PermissionBody>>,
}

/// why a role could not be changed
#[derive(Debug)]
pub enum UpdateRoleError {
    RoleExists,
    RoleNotFound,
    UsersNotFound { ids: Vec<UserId> },
    GroupsNotFound { ids: Vec<GroupId> },
}

impl UpdateRoleError {
    /// the http status of the error: 400 for a taken name, 404 otherwise
    pub fn status(&self) -> (rtn: u16)
        ensures
            rtn == (if *self is RoleExists { 400u16 } else { 404u16 }),
    {
        match self {
            UpdateRoleError::RoleExists => 400,
            UpdateRoleError::RoleNotFound => 404,
            UpdateRoleError::UsersNotFound { .. } => 404,
            UpdateRoleError::GroupsNotFound { .. } => 404,
        }
    }
}

/// why a role could not be deleted
#[derive(Debug, Clone, Copy, PartialEq, Eq, Structural)]
pub enum DeleteRoleError {
    RoleNotFound,
}

impl DeleteRoleError {
    /// the http status of the error: 404
    pub fn status(&self) -> (rtn: u16)
        ensures
            rtn == 404,
    {
        404
    }
}

/// whether some permission of the list is about the scope
pub open spec fn spec_mentioned(perms: Seq<PermissionBody>, s: Scope) -> bool {
    exists|k: int| 0 <= k < perms.len() && (#[trigger] perms[k]).scope == s
}

/// whether some permission of the list gives the ability in the scope
pub open spec fn spec_granted(perms: Seq<PermissionBody>, s: Scope, a: Ability) -> bool {
    exists|k: int|
        0 <= k < perms.len() && (#[trigger] perms[k]).scope == s && perms[k].abilities@.contains(a)
}

/// the permissions merged by scope: each scope that is mentioned, in the
/// order of scopes, with every ability any permission gives in it, in the
/// order of abilities and each once
pub fn unique_permissions(permissions: &Vec<PermissionBody>) -> (rtn: Vec<(Scope, Vec<Ability>)>)
    ensures
        forall|i: int, j: int|
            0 <= i < j < rtn@.len() ==> (#[trigger] rtn@[i]).0.spec_index() < (
            #[trigger] rtn@[j]).0.spec_index(),
        forall|s: Scope|
            spec_mentioned(permissions@, s) <==> exists|i: int|
                0 <= i < rtn@.len() && (#[trigger] rtn@[i]).0 == s,
        forall|i: int, a: Ability|
            0 <= i < rtn@.len() ==> (#[trigger] rtn@[i].1@.contains(a) <==> spec_granted(
                permissions@,
                rtn@[i].0,
                a,
            )),
        forall|i: int, x: int, y: int|
            0 <= i < rtn@.len() && 0 <= x < y < rtn@[i].1@.len() ==> (#[trigger] rtn@[i].1@[x]).spec_index()
                < (#[trigger] rtn@[i].1@[y]).spec_index(),
{
    let ghost perms = permissions@;
    let mut present: Vec<bool> = vec![false, false, false, false, false];
    let mut grant: Vec<bool> = Vec::new();
    let mut g: usize = 0;
    while g < 20
        invariant
            g <= 20,
            grant@.len() == g,
            forall|x: int| 0 <= x < g ==> !grant@[x],
        decreases 20 - g,
    {
        grant.push(false);
        g = g + 1;
    }
    let n = permissions.len();
    let mut k: usize = 0;
    while k < n
        invariant
            n == perms.len(),
            perms == permissions@,
            k <= n,
            present@.len() == 5,
            grant@.len() == 20,
            forall|s: Scope|
                present@[s.spec_index()] <==> exists|q: int|
                    0 <= q < k && (#[trigger] perms[q]).scope == s,
            forall|s: Scope, a: Ability|
                grant@[s.spec_index() * 4 + a.spec_index()] <==> exists|q: int|
                    0 <= q < k && (#[trigger] perms[q]).scope == s && perms[q].abilities@.contains(a),
        decreases n - k,
    {
        let perm = &permissions[k];
        let s = perm.scope.index();
        present.set(s, true);
        let m = perm.abilities.len();
        let mut j: usize = 0;
        while j < m
            invariant
                n == perms.len(),
                perms == permissions@,
                k < n,
                *perm == perms[k as int],
                s == perm.scope.spec_index(),
                m == perm.abilities@.len(),
                j <= m,
                present@.len() == 5,
                grant@.len() == 20,
                forall|t: Scope|
                    present@[t.spec_index()] <==> exists|q: int|
                        0 <= q < k + 1 && (#[trigger] perms[q]).scope == t,
                forall|t: Scope, a: Ability|
                    grant@[t.spec_index() * 4 + a.spec_index()] <==> (exists|q: int|
                        0 <= q < k && (#[trigger] perms[q]).scope == t && perms[q].abilities@.contains(a))
                        || (t == perm.scope && exists|x: int|
                        0 <= x < j && perm.abilities@[x] == a),
            decreases m - j,
        {
            let a = perm.abilities[j].index();
            grant.set(s * 4 + a, true);
            proof {
                assert forall|t: Scope, b: Ability|
                    grant@[t.spec_index() * 4 + b.spec_index()] <== (exists|q: int|
                        0 <= q < k && (#[trigger] perms[q]).scope == t && perms[q].abilities@.contains(b))
                        || (t == perm.scope && exists|x: int|
                        0 <= x < j + 1 && perm.abilities@[x] == b) by {
                    if t == perm.scope && perm.abilities@[j as int] == b {
                        assert(t.spec_index() * 4 + b.spec_index() == s * 4 + a);
                    }
                }
                assert forall|t: Scope, b: Ability|
                    grant@[t.spec_index() * 4 + b.spec_index()] ==> (exists|q: int|
                        0 <= q < k && (#[trigger] perms[q]).scope == t && perms[q].abilities@.contains(b))
                        || (t == perm.scope && exists|x: int|
                        0 <= x < j + 1 && perm.abilities@[x] == b) by {
                    if t.spec_index() * 4 + b.spec_index() == s * 4 + a {
                        assert(t.spec_index() == s && b.spec_index() == a);
                        assert(t == perm.scope);
                        assert(b == perm.abilities@[j as int]);
                    }
                }
            }
            j = j + 1;
        }
        proof {
            assert forall|t: Scope, b: Ability|
                grant@[t.spec_index() * 4 + b.spec_index()] <==> exists|q: int|
                    0 <= q < k + 1 && (#[trigger] perms[q]).scope == t && perms[q].abilities@.contains(b) by {
                if t == perm.scope && perm.abilities@.contains(b) {
                    let x = choose|x: int| 0 <= x < m && perm.abilities@[x] == b;
                    assert(perms[k as int].scope == t);
                }
                if exists|q: int| 0 <= q < k + 1 && (#[trigger] perms[q]).scope == t && perms[q].abilities@.contains(b) {
                    let q = choose|q: int| 0 <= q < k + 1 && (#[trigger] perms[q]).scope == t && perms[q].abilities@.contains(b);
                    if q == k {
                        let x = choose|x: int| 0 <= x < m && perm.abilities@[x] == b;
                    }
                }
            }
        }
        k = k + 1;
    }
    let mut rtn: Vec<(Scope, Vec<Ability>)> = Vec::new();
    let mut si: usize = 0;
    while si < 5
        invariant
            n == perms.len(),
            perms == permissions@,
            si <= 5,
            present@.len() == 5,
            grant@.len() == 20,
            forall|s: Scope|
                present@[s.spec_index()] <==> spec_mentioned(perms, s),
            forall|s: Scope, a: Ability|
                grant@[s.spec_index() * 4 + a.spec_index()] <==> spec_granted(perms, s, a),
            forall|i: int| 0 <= i < rtn@.len() ==> (#[trigger] rtn@[i]).0.spec_index() < si,
            forall|i: int, j: int|
                0 <= i < j < rtn@.len() ==> (#[trigger] rtn@[i]).0.spec_index() < (
                #[trigger] rtn@[j]).0.spec_index(),
            forall|s: Scope|
                (spec_mentioned(perms, s) && s.spec_index() < si) <==> exists|i: int|
                    0 <= i < rtn@.len() && (#[trigger] rtn@[i]).0 == s,
            forall|i: int, a: Ability|
                0 <= i < rtn@.len() ==> (#[trigger] rtn@[i].1@.contains(a) <==> spec_granted(
                    perms,
                    rtn@[i].0,
                    a,
                )),
            forall|i: int, x: int, y: int|
                0 <= i < rtn@.len() && 0 <= x < y < rtn@[i].1@.len() ==> (
                #[trigger] rtn@[i].1@[x]).spec_index() < (#[trigger] rtn@[i].1@[y]).spec_index(),
        decreases 5 - si,
    {
        let scope = Scope::from_index(si);
        let ghost before_rtn = rtn@;
        if present[si] {
            let mut abilities: Vec<Ability> = Vec::new();
            let mut ai: usize = 0;
            while ai < 4
                invariant
                    si < 5,
                    scope.spec_index() == si,
                    grant@.len() == 20,
                    ai <= 4,
                    forall|a: Ability|
                        grant@[scope.spec_index() * 4 + a.spec_index()] <==> spec_granted(perms, scope, a),
                    forall|x: int| 0 <= x < abilities@.len() ==> (#[trigger] abilities@[x]).spec_index() < ai,
                    forall|x: int, y: int|
                        0 <= x < y < abilities@.len() ==> (#[trigger] abilities@[x]).spec_index() < (
                        #[trigger] abilities@[y]).spec_index(),
                    forall|a: Ability|
                        (spec_granted(perms, scope, a) && a.spec_index() < ai) <==> abilities@.contains(a),
                decreases 4 - ai,
            {
                let ability = Ability::from_index(ai);
                let ghost before = abilities@;
                assert(grant@[scope.spec_index() * 4 + ability.spec_index()] <==> spec_granted(
                    perms,
                    scope,
                    ability,
                ));
                if grant[si * 4 + ai] {
                    abilities.push(ability);
                }
                proof {
                    assert forall|a: Ability|
                        (spec_granted(perms, scope, a) && a.spec_index() < ai + 1) <==> abilities@.contains(a) by {
                        if a.spec_index() == ai {
                            assert(a == ability);
                            if spec_granted(perms, scope, a) {
                                assert(abilities@[abilities@.len() - 1] == a);
                            } else {
                                assert(abilities@ == before);
                                if before.contains(a) {
                                    let x = choose|x: int| 0 <= x < before.len() && before[x] == a;
                                    assert(before[x].spec_index() < ai);
                                }
                            }
                        } else if a.spec_index() < ai {
                            if before.contains(a) {
                                let x = choose|x: int| 0 <= x < before.len() && before[x] == a;
                                assert(abilities@[x] == a);
                            }
                            if abilities@.contains(a) {
                                let x = choose|x: int| 0 <= x < abilities@.len() && abilities@[x] == a;
                                if x < before.len() {
                                    assert(before[x] == a);
                                }
                            }
                        } else {
                            if abilities@.contains(a) {
                                let x = choose|x: int| 0 <= x < abilities@.len() && abilities@[x] == a;
                                if x < before.len() {
                                    assert(before[x].spec_index() < ai);
                                }
                            }
                        }
                    }
                }
                ai = ai + 1;
            }
            rtn.push((scope, abilities));
        }
        proof {
            assert forall|t: Scope|
                (spec_mentioned(perms, t) && t.spec_index() < si + 1) <==> exists|i: int|
                    0 <= i < rtn@.len() && (#[trigger] rtn@[i]).0 == t by {
                if t.spec_index() == si {
                    assert(t == scope);
                    if present@[si as int] {
                        assert(rtn@[rtn@.len() - 1].0 == t);
                    } else {
                        assert(rtn@ == before_rtn);
                        if exists|i: int| 0 <= i < rtn@.len() && (#[trigger] rtn@[i]).0 == t {
                            let i = choose|i: int| 0 <= i < rtn@.len() && (#[trigger] rtn@[i]).0 == t;
                            assert(before_rtn[i].0.spec_index() < si);
                        }
                    }
                } else if t.spec_index() < si {
                    if exists|i: int| 0 <= i < before_rtn.len() && (#[trigger] before_rtn[i]).0 == t {
                        let i = choose|i: int| 0 <= i < before_rtn.len() && (#[trigger] before_rtn[i]).0 == t;
                        assert(rtn@[i].0 == t);
                    }
                    if exists|i: int| 0 <= i < rtn@.len() && (#[trigger] rtn@[i]).0 == t {
                        let i = choose|i: int| 0 <= i < rtn@.len() && (#[trigger] rtn@[i]).0 == t;
                        if i < before_rtn.len() {
                            assert(before_rtn[i].0 == t);
                        }
                    }
                } else {
                    if exists|i: int| 0 <= i < rtn@.len() && (#[trigger] rtn@[i]).0 == t {
                        let i = choose|i: int| 0 <= i < rtn@.len() && (#[trigger] rtn@[i]).0 == t;
                        if i < before_rtn.len() {
                            assert(before_rtn[i].0.spec_index() < si);
                        }
                    }
                }
            }
        }
        si = si + 1;
    }
    rtn
}

/// merged permissions as plain values
pub open spec fn unique_views(u: Seq<(Scope, Vec<Ability>)>) -> Seq<(Scope, Seq<Ability>)> {
    u.map_values(|e: (Scope, Vec<Ability>)| (e.0, e.1@))
}

/// whether a scope is passed over by the insert: only one without
/// abilities, and only when such scopes are skipped
pub open spec fn spec_skipped(e: (Scope, Seq<Ability>), skip_empty: bool) -> bool {
    skip_empty && e.1.len() == 0
}

/// how many parameters the insert of the permissions takes: the role and
/// the time, then for each scope not passed over one for the scope and one
/// for each of its abilities
pub open spec fn spec_perm_count(u: Seq<(Scope, Seq<Ability>)>, skip_empty: bool) -> nat
    decreases u.len(),
{
    if u.len() == 0 {
        2
    } else if spec_skipped(u.last(), skip_empty) {
        spec_perm_count(u.drop_last(), skip_empty)
    } else {
        spec_perm_count(u.drop_last(), skip_empty) + 1 + u.last().1.len()
    }
}

/// the rows of one scope whose parameter comes after `c` parameters: the
/// scope's parameter and each ability's
pub open spec fn spec_perm_block(c: nat, len: nat) -> Seq<(nat, nat)> {
    Seq::new(len, |k: int| ((c + 1) as nat, (c + 2 + k) as nat))
}

/// the parameter numbers of the rows of the insert: the scope's and the
/// ability's, row by row
pub open spec fn spec_perm_pairs(u: Seq<(Scope, Seq<Ability>)>, skip_empty: bool) -> Seq<(nat, nat)>
    decreases u.len(),
{
    if u.len() == 0 {
        Seq::empty()
    } else if spec_skipped(u.last(), skip_empty) {
        spec_perm_pairs(u.drop_last(), skip_empty)
    } else {
        spec_perm_pairs(u.drop_last(), skip_empty) + spec_perm_block(
            spec_perm_count(u.drop_last(), skip_empty),
            u.last().1.len(),
        )
    }
}

/// the permissions the rows store, row by row
pub open spec fn spec_perm_flat(u: Seq<(Scope, Seq<Ability>)>, skip_empty: bool) -> Seq<(Scope, Ability)>
    decreases u.len(),
{
    if u.len() == 0 {
        Seq::empty()
    } else {
        spec_perm_flat(u.drop_last(), skip_empty) + Seq::new(u.last().1.len(), |k: int| (u.last().0, u.last().1[k]))
    }
}

/// a row of the insert: the role, the scope, the ability and the time
pub open spec fn spec_perm_row(p: (nat, nat)) -> Seq<char> {
    "($1, $"@ + spec_decimal(p.0) + ", $"@ + spec_decimal(p.1) + ", $2)"@
}

/// the rows joined by `, `
pub open spec fn spec_rows_text(p: Seq<(nat, nat)>) -> Seq<char>
    decreases p.len(),
{
    if p.len() == 0 {
        Seq::empty()
    } else {
        spec_rows_text(p.drop_last()) + (if p.len() > 1 { ", "@ } else { Seq::empty() }) + spec_perm_row(p.last())
    }
}

/// the statement that stores the permissions of a role
pub open spec fn spec_perm_query(u: Seq<(Scope, Seq<Ability>)>, skip_empty: bool) -> Seq<char> {
    "insert into authz_permissions (role_id, scope, ability, added) values "@ + spec_rows_text(spec_perm_pairs(u, skip_empty))
}

/// a prefix of the scopes takes no more parameters than all of them
proof fn lemma_perm_count_prefix(u: Seq<(Scope, Seq<Ability>)>, skip_empty: bool, i: int)
    requires
        0 <= i <= u.len(),
    ensures
        spec_perm_count(u.take(i), skip_empty) <= spec_perm_count(u, skip_empty),
    decreases u.len(),
{
    if i < u.len() {
        assert(u.drop_last().take(i) =~= u.take(i));
        lemma_perm_count_prefix(u.drop_last(), skip_empty, i);
    } else {
        assert(u.take(i) =~= u);
    }
}

/// the statement that stores merged permissions of a role, and the
/// permissions it stores in the order of its rows; none when there are no
/// permissions. Each row is `($1, $scope, $ability, $2)`; a scope takes the
/// next parameter and its abilities the ones after it. With `skip_empty` a
/// scope without abilities takes no parameter.
pub fn permissions_insert(unique: &Vec<(Scope, Vec<Ability>)>, skip_empty: bool) -> (rtn: Option<(String, Vec<(Scope, Ability)>)>)
    requires
        spec_perm_count(unique_views(unique@), skip_empty) <= u64::MAX,
    ensures
        unique@.len() == 0 <==> rtn is None,
        rtn matches Some(r) ==> r.0@ == spec_perm_query(unique_views(unique@), skip_empty) && r.1@ == spec_perm_flat(
            unique_views(unique@),
            skip_empty,
        ),
{
    if unique.len() == 0 {
        return None;
    }
    let ghost views = unique_views(unique@);
    let ghost head = "insert into authz_permissions (role_id, scope, ability, added) values "@;
    let mut text = to_owned_string("insert into authz_permissions (role_id, scope, ability, added) values ");
    let mut attached: Vec<(Scope, Ability)> = Vec::new();
    let mut count: u64 = 2;
    let mut first = true;
    let n = unique.len();
    let mut i: usize = 0;
    assert(views.take(0) =~= Seq::<(Scope, Seq<Ability>)>::empty());
    assert(attached@ =~= spec_perm_flat(views.take(0), skip_empty));
    assert(text@ =~= head + spec_rows_text(spec_perm_pairs(views.take(0), skip_empty)));
    while i < n
        invariant
            n == unique@.len(),
            views == unique_views(unique@),
            i <= n,
            spec_perm_count(views, skip_empty) <= u64::MAX,
            count == spec_perm_count(views.take(i as int), skip_empty),
            first == (spec_perm_pairs(views.take(i as int), skip_empty).len() == 0),
            text@ == head + spec_rows_text(spec_perm_pairs(views.take(i as int), skip_empty)),
            attached@ == spec_perm_flat(views.take(i as int), skip_empty),
        decreases n - i,
    {
        let ghost pre = views.take(i as int);
        let ghost pairs0 = spec_perm_pairs(pre, skip_empty);
        let ghost flat0 = spec_perm_flat(pre, skip_empty);
        let ghost c = spec_perm_count(pre, skip_empty);
        assert(views.take(i + 1).drop_last() =~= pre);
        assert(views.take(i + 1).last() == views[i as int]);
        assert(views[i as int] == (unique@[i as int].0, unique@[i as int].1@));
        proof {
            lemma_perm_count_prefix(views, skip_empty, i + 1);
        }
        let scope = unique[i].0;
        let abilities = &unique[i].1;
        let len = abilities.len();
        if skip_empty && len == 0 {
            assert(spec_perm_flat(views.take(i + 1), skip_empty) =~= flat0);
        } else {
            assert(c + 1 + len <= u64::MAX);
            count = count + 1;
            let scope_param = count;
            let mut k: usize = 0;
            while k < len
                invariant
                    len == abilities@.len(),
                    k <= len,
                    scope_param == c + 1,
                    c + 1 + len <= u64::MAX,
                    count == c + 1 + k,
                    first == ((pairs0 + spec_perm_block(c, k as nat)).len() == 0),
                    text@ == head + spec_rows_text(pairs0 + spec_perm_block(c, k as nat)),
                    attached@ == flat0 + Seq::new(k as nat, |j: int| (scope, abilities@[j])),
                decreases len - k,
            {
                let ghost before = pairs0 + spec_perm_block(c, k as nat);
                let ghost after = pairs0 + spec_perm_block(c, (k + 1) as nat);
                assert(after.drop_last() =~= before);
                assert(after.last() == ((c + 1) as nat, (c + 2 + k) as nat));
                if !first {
                    push_str(&mut text, ", ");
                }
                first = false;
                count = count + 1;
                push_str(&mut text, "($1, $");
                push_decimal(&mut text, scope_param);
                push_str(&mut text, ", $");
                push_decimal(&mut text, count);
                push_str(&mut text, ", $2)");
                assert(text@ =~= head + spec_rows_text(after));
                attached.push((scope, abilities[k]));
                assert(attached@ =~= flat0 + Seq::new((k + 1) as nat, |j: int| (scope, abilities@[j])));
                k = k + 1;
            }
            assert(spec_perm_pairs(views.take(i + 1), skip_empty) =~= pairs0 + spec_perm_block(c, len as nat));
            assert(spec_perm_flat(views.take(i + 1), skip_empty) =~= flat0 + Seq::new(len as nat, |j: int| (scope, abilities@[j])));
        }
        i = i + 1;
    }
    assert(views.take(n as int) =~= views);
    Some((text, attached))
}

/// whether the merged permissions give the ability in the scope
pub open spec fn spec_given(u: Seq<(Scope, Seq<Ability>)>, s: Scope, a: Ability) -> bool {
    exists|i: int| 0 <= i < u.len() && (#[trigger] u[i]).0 == s && u[i].1.contains(a)
}

/// the ids of the records whose scope and ability the merged permissions
/// do not give, in the order of the records
pub open spec fn spec_stale<I>(current: Seq<(I, Scope, Ability)>, u: Seq<(Scope, Seq<Ability>)>) -> Seq<I>
    decreases current.len(),
{
    if current.len() == 0 {
        Seq::empty()
    } else {
        let last = current.last();
        if spec_given(u, last.1, last.2) {
            spec_stale(current.drop_last(), u)
        } else {
            spec_stale(current.drop_last(), u).push(last.0)
        }
    }
}

/// whether the merged permissions give the ability in the scope
fn given(unique: &Vec<(Scope, Vec<Ability>)>, scope: Scope, ability: Ability) -> (rtn: bool)
    ensures
        rtn == spec_given(unique_views(unique@), scope, ability),
{
    let ghost views = unique_views(unique@);
    let mut i: usize = 0;
    while i < unique.len()
        invariant
            i <= unique@.len(),
            views == unique_views(unique@),
            forall|j: int| 0 <= j < i ==> !((#[trigger] views[j]).0 == scope && views[j].1.contains(ability)),
        decreases unique.len() - i,
    {
        assert(views[i as int] == (unique@[i as int].0, unique@[i as int].1@));
        if unique[i].0 == scope {
            let abilities = &unique[i].1;
            let mut k: usize = 0;
            while k < abilities.len()
                invariant
                    k <= abilities@.len(),
                    i < unique@.len(),
                    views == unique_views(unique@),
                    views[i as int] == (scope, abilities@),
                    forall|m: int| 0 <= m < k ==> abilities@[m] != ability,
                decreases abilities.len() - k,
            {
                if abilities[k] == ability {
                    assert(views[i as int].1[k as int] == ability);
                    return true;
                }
                k = k + 1;
            }
            assert(!views[i as int].1.contains(ability));
        }
        i = i + 1;
    }
    false
}

/// the records of a role's current permissions that the new merged
/// permissions leave out, to be deleted; the database keeps one record for
/// each scope and ability
pub fn stale_permissions<I: Copy>(current: &Vec<(I, Scope, Ability)>, unique: &Vec<(Scope, Vec<Ability>)>) -> (rtn: Vec<I>)
    requires
        forall|a: int, b: int|
            0 <= a < b < current@.len() ==> !((#[trigger] current@[a]).1 == (#[trigger] current@[b]).1 && current@[a].2 == current@[b].2),
    ensures
        rtn@ == spec_stale(current@, unique_views(unique@)),
{
    let ghost views = unique_views(unique@);
    let mut rtn: Vec<I> = Vec::new();
    let mut i: usize = 0;
    while i < current.len()
        invariant
            i <= current@.len(),
            views == unique_views(unique@),
            rtn@ == spec_stale(current@.take(i as int), views),
        decreases current.len() - i,
    {
        assert(current@.take(i + 1).drop_last() =~= current@.take(i as int));
        let record = current[i];
        if !given(unique, record.1, record.2) {
            rtn.push(record.0);
        }
        i = i + 1;
    }
    assert(current@.take(current.len() as int) =~= current@);
    rtn
}

} // verus!
