use vstd::prelude::*;

verus! {

/// A role defined on a guild: its identifier and display name.
pub struct Role {
    pub id: u64,
    pub name: String,
}

/// A user's presence in a guild, with the identifiers of the roles it holds.
pub struct Member {
    pub guild_id: u64,
    pub user_id: u64,
    pub roles: Vec<u64>,
}

/// The identifier of the first role in `roles` whose display name is exactly `name`.
pub open spec fn first_match(roles: Seq<Role>, name: Seq<char>) -> Option<u64>
    decreases roles.len(),
{
    if roles.len() == 0 {
        None
    } else if roles[0].name@ == name {
        Some(roles[0].id)
    } else {
        first_match(roles.drop_first(), name)
    }
}

/// Some role in `roles` is named exactly `name`.
pub open spec fn has_role_named(roles: Seq<Role>, name: Seq<char>) -> bool {
    exists|i: int| 0 <= i < roles.len() && #[trigger] roles[i].name@ == name
}

/// The role list after granting `role_id`: unchanged if it is already held.
pub open spec fn after_grant(held: Seq<u64>, role_id: u64) -> Seq<u64> {
    if held.contains(role_id) {
        held
    } else {
        held.push(role_id)
    }
}

/// The role list after revoking `role_id`: every occurrence of it is gone, the rest kept in order.
pub open spec fn after_revoke(held: Seq<u64>, role_id: u64) -> Seq<u64>
    decreases held.len(),
{
    if held.len() == 0 {
        held
    } else {
        let rest = after_revoke(held.drop_last(), role_id);
        if held.last() == role_id {
            rest
        } else {
            rest.push(held.last())
        }
    }
}

proof fn lemma_first_match_skips(roles: Seq<Role>, name: Seq<char>, i: int)
    requires
        0 <= i < roles.len(),
        roles[i].name@ != name,
    ensures
        first_match(roles.subrange(i, roles.len() as int), name) == first_match(
            roles.subrange(i + 1, roles.len() as int),
            name,
        ),
{
    assert(roles.subrange(i, roles.len() as int).drop_first() =~= roles.subrange(
        i + 1,
        roles.len() as int,
    ));
}

/// `first_match` finds a role exactly when one is named `name`, and what it finds is such a role.
pub proof fn lemma_first_match_found(roles: Seq<Role>, name: Seq<char>)
    ensures
        first_match(roles, name) is Some <==> has_role_named(roles, name),
        first_match(roles, name) matches Some(id) ==> exists|i: int|
            0 <= i < roles.len() && roles[i].name@ == name && #[trigger] roles[i].id == id,
    decreases roles.len(),
{
    if roles.len() > 0 {
        let rest = roles.drop_first();
        lemma_first_match_found(rest, name);
        if roles[0].name@ != name {
            if has_role_named(roles, name) {
                let i = choose|i: int| 0 <= i < roles.len() && #[trigger] roles[i].name@ == name;
                assert(rest[i - 1].name@ == name);
            }
            if has_role_named(rest, name) {
                let i = choose|i: int| 0 <= i < rest.len() && #[trigger] rest[i].name@ == name;
                assert(roles[i + 1].name@ == name);
            }
            if let Some(id) = first_match(roles, name) {
                let i = choose|i: int|
                    0 <= i < rest.len() && rest[i].name@ == name && #[trigger] rest[i].id == id;
                assert(roles[i + 1].id == id);
            }
        } else {
            assert(roles[0].name@ == name);
        }
    }
}

/// Finds the first role in `roles` whose display name equals `name` exactly (case-sensitive).
pub fn resolve_role(roles: &Vec<Role>, name: &String) -> (r: Option<u64>)
    ensures
        r == first_match(roles@, name@),
        r is None <==> !has_role_named(roles@, name@),
{
    proof {
        lemma_first_match_found(roles@, name@);
    }
    let n = roles.len();
    let mut i: usize = 0;
    assert(roles@.subrange(0, n as int) =~= roles@);
    while i < n
        invariant
            n == roles@.len(),
            i <= n,
            first_match(roles@, name@) == first_match(roles@.subrange(i as int, n as int), name@),
        decreases n - i,
    {
        let role = &roles[i];
        if role.name.eq(name) {
            assert(roles@.subrange(i as int, n as int)[0] == roles@[i as int]);
            return Some(role.id);
        }
        proof {
            lemma_first_match_skips(roles@, name@, i as int);
        }
        i = i + 1;
    }
    None
}

/// Granting a role twice leaves the member's roles as granting it once does, and granting a
/// role the member already holds changes nothing.
pub proof fn lemma_grant_idempotent(held: Seq<u64>, role_id: u64)
    ensures
        after_grant(after_grant(held, role_id), role_id) == after_grant(held, role_id),
        held.contains(role_id) ==> after_grant(held, role_id) == held,
        after_grant(held, role_id).contains(role_id),
{
    if !held.contains(role_id) {
        let pushed = held.push(role_id);
        assert(pushed[held.len() as int] == role_id);
    }
}

/// After a revoke the member holds every role it held before but the revoked one, and no other.
pub proof fn lemma_revoke_removes(held: Seq<u64>, role_id: u64)
    ensures
        forall|x: u64|
            #[trigger] after_revoke(held, role_id).contains(x) <==> (held.contains(x) && x
                != role_id),
    decreases held.len(),
{
    if held.len() > 0 {
        let init = held.drop_last();
        lemma_revoke_removes(init, role_id);
        let rest = after_revoke(init, role_id);
        assert forall|x: u64|
            #[trigger] held.contains(x) <==> (init.contains(x) || x == held.last()) by {
            if held.contains(x) {
                let i = choose|i: int| 0 <= i < held.len() && held[i] == x;
                if i < held.len() - 1 {
                    assert(init[i] == x);
                }
            }
            if init.contains(x) {
                let i = choose|i: int| 0 <= i < init.len() && init[i] == x;
                assert(held[i] == x);
            }
            if x == held.last() {
                assert(held[held.len() - 1] == x);
            }
        }
        if held.last() != role_id {
            assert forall|x: u64|
                #[trigger] rest.push(held.last()).contains(x) <==> (rest.contains(x) || x
                    == held.last()) by {
                let pushed = rest.push(held.last());
                if pushed.contains(x) {
                    let i = choose|i: int| 0 <= i < pushed.len() && pushed[i] == x;
                    if i < rest.len() {
                        assert(rest[i] == x);
                    }
                }
                if rest.contains(x) {
                    let i = choose|i: int| 0 <= i < rest.len() && rest[i] == x;
                    assert(pushed[i] == x);
                }
                if x == held.last() {
                    assert(pushed[rest.len() as int] == x);
                }
            }
        }
    }
}

impl Member {
    /// Whether the member holds `role_id`.
    pub fn has_role(&self, role_id: u64) -> (r: bool)
        ensures
            r == self.roles@.contains(role_id),
    {
        let n = self.roles.len();
        let mut i: usize = 0;
        while i < n
            invariant
                n == self.roles@.len(),
                i <= n,
                forall|k: int| 0 <= k < i ==> self.roles@[k] != role_id,
            decreases n - i,
        {
            if self.roles[i] == role_id {
                assert(self.roles@[i as int] == role_id);
                return true;
            }
            i = i + 1;
        }
        false
    }

    /// Grants `role_id`; granting a role the member already holds changes nothing.
    pub fn grant(&mut self, role_id: u64)
        ensures
            final(self).guild_id == old(self).guild_id,
            final(self).user_id == old(self).user_id,
            final(self).roles@ == after_grant(old(self).roles@, role_id),
    {
        if !self.has_role(role_id) {
            self.roles.push(role_id);
        }
    }

    /// Revokes `role_id`; revoking a role the member does not hold changes nothing.
    pub fn revoke(&mut self, role_id: u64)
        ensures
            final(self).guild_id == old(self).guild_id,
            final(self).user_id == old(self).user_id,
            final(self).roles@ == after_revoke(old(self).roles@, role_id),
            forall|x: u64|
                #[trigger] final(self).roles@.contains(x) <==> (old(self).roles@.contains(x) && x
                    != role_id),
    {
        proof {
            lemma_revoke_removes(self.roles@, role_id);
        }
        let n = self.roles.len();
        let mut kept: Vec<u64> = Vec::new();
        let mut i: usize = 0;
        while i < n
            invariant
                n == self.roles@.len(),
                i <= n,
                kept@ == after_revoke(self.roles@.subrange(0, i as int), role_id),
            decreases n - i,
        {
            let x = self.roles[i];
            assert(self.roles@.subrange(0, i + 1).drop_last() =~= self.roles@.subrange(
                0,
                i as int,
            ));
            if x != role_id {
                kept.push(x);
            }
            i = i + 1;
        }
        assert(self.roles@.subrange(0, n as int) =~= self.roles@);
        self.roles = kept;
    }
}

} // verus!
