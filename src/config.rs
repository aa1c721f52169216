use vstd::prelude::*;

verus! {

/// What the engine is configured with: the phrase that marks a role-menu message, and the
/// names of the roles that the toggle command may hand out.
pub struct RoleMenuConfig {
    pub trigger_phrase: String,
    pub allowed_roles: Vec<String>,
}

/// Some name in `allowed` is exactly `name`.
pub open spec fn name_listed(allowed: Seq<String>, name: Seq<char>) -> bool {
    exists|i: int| 0 <= i < allowed.len() && #[trigger] allowed[i]@ == name
}

impl RoleMenuConfig {
    pub fn new(trigger_phrase: String, allowed_roles: Vec<String>) -> (r: RoleMenuConfig)
        ensures
            r.trigger_phrase == trigger_phrase,
            r.allowed_roles == allowed_roles,
    {
        RoleMenuConfig { trigger_phrase, allowed_roles }
    }

    /// The community's configuration: menus are marked by "votre rôle", and the command
    /// toggles the roles "baaaaaaaa" and "boooo".
    pub fn standard() -> (r: RoleMenuConfig)
        ensures
            r.trigger_phrase@ == "votre rôle"@,
            r.allowed_roles@.len() == 2,
            r.allowed_roles@[0]@ == "baaaaaaaa"@,
            r.allowed_roles@[1]@ == "boooo"@,
    {
        let mut allowed: Vec<String> = Vec::new();
        allowed.push(String::from_str("baaaaaaaa"));
        allowed.push(String::from_str("boooo"));
        RoleMenuConfig { trigger_phrase: String::from_str("votre rôle"), allowed_roles: allowed }
    }

    /// Whether `name` is one of the allowed role names (exact, case-sensitive).
    pub fn allows(&self, name: &String) -> (r: bool)
        ensures
            r == name_listed(self.allowed_roles@, name@),
    {
        let n = self.allowed_roles.len();
        let mut i: usize = 0;
        while i < n
            invariant
                n == self.allowed_roles@.len(),
                i <= n,
                forall|k: int| 0 <= k < i ==> self.allowed_roles@[k]@ != name@,
            decreases n - i,
        {
            if self.allowed_roles[i].eq(name) {
                return true;
            }
            i = i + 1;
        }
        false
    }
}

} // verus!
