//! Access control: which service may obtain which key, and which control
//! actions (generation, rotation, revocation) a service may perform.
use crate::keys::{KeyAlgorithm, ServiceId};
use vstd::prelude::*;

verus! {

/// The kind of key material a rule grants.
#[derive(Debug, Clone, Copy, PartialEq, Eq, Structural)]
pub enum KeyAccessLevel {
    PrivateKey,
    PublicKey,
    SymmetricKey,
}

/// One grant: the caller may obtain keys of `algorithm` belonging to
/// `target_service`, at `access_level`.
pub struct AccessRule {
    pub target_service: ServiceId,
    pub algorithm: KeyAlgorithm,
    pub access_level: KeyAccessLevel,
}

/// A control action a service may be allowed to perform.
#[derive(Debug, Clone, Copy, PartialEq, Eq, Structural)]
pub enum ControlAction {
    GenerateKeys,
    RotateOwnKeys,
    RotateAllKeys,
    RevokeKeys,
}

/// The configuration of one calling service.
pub struct ServiceConfig {
    pub service_id: ServiceId,
    pub secret: String,
    pub allowed_access: Vec<AccessRule>,
    pub allowed_actions: Option<Vec<ControlAction>>,
}

/// A configured service under the name callers are known by.
pub struct ServiceEntry {
    pub name: String,
    pub config: ServiceConfig,
}

/// The access-control list: the configured services, looked up by name.
/// When a name occurs more than once, the first entry is the one consulted.
pub struct AclSettings {
    pub services: Vec<ServiceEntry>,
}

/// The index of the first entry at or after `start` whose name is `name`.
pub open spec fn service_index_from(entries: Seq<ServiceEntry>, name: Seq<char>, start: int) -> Option<int>
    decreases entries.len() - start,
{
    if start < 0 || start >= entries.len() {
        None
    } else if entries[start].name@ == name {
        Some(start)
    } else {
        service_index_from(entries, name, start + 1)
    }
}

/// The index of the entry consulted for callers named `name`, if any.
pub open spec fn service_index(entries: Seq<ServiceEntry>, name: Seq<char>) -> Option<int> {
    service_index_from(entries, name, 0)
}

/// Whether `rules` holds a grant for `target`, `algorithm` and `level`.
pub open spec fn spec_rules_grant(
    rules: Seq<AccessRule>,
    target: Seq<char>,
    algorithm: KeyAlgorithm,
    level: KeyAccessLevel,
) -> bool {
    exists|j: int|
        0 <= j < rules.len() && #[trigger] rules[j].target_service@ == target && rules[j].algorithm
            == algorithm && rules[j].access_level == level
}

/// Whether `caller` may obtain `level` access to `target`'s `algorithm` key.
pub open spec fn spec_is_allowed(
    acl: AclSettings,
    caller: Seq<char>,
    target: Seq<char>,
    algorithm: KeyAlgorithm,
    level: KeyAccessLevel,
) -> bool {
    match service_index(acl.services@, caller) {
        None => false,
        Some(i) => spec_rules_grant(
            acl.services@[i].config.allowed_access@,
            target,
            algorithm,
            level,
        ),
    }
}

/// Whether `caller` may perform `action`.
pub open spec fn spec_has_control_action(acl: AclSettings, caller: Seq<char>, action: ControlAction) -> bool {
    match service_index(acl.services@, caller) {
        None => false,
        Some(i) => match acl.services@[i].config.allowed_actions {
            None => false,
            Some(actions) => actions@.contains(action),
        },
    }
}

proof fn lemma_service_index_found(entries: Seq<ServiceEntry>, name: Seq<char>, start: int, i: int)
    requires
        0 <= start <= i < entries.len(),
        entries[i].name@ == name,
        forall|j: int| start <= j < i ==> entries[j].name@ != name,
    ensures
        service_index_from(entries, name, start) == Some(i),
    decreases i - start,
{
    if start < i {
        lemma_service_index_found(entries, name, start + 1, i);
    }
}

proof fn lemma_service_index_absent(entries: Seq<ServiceEntry>, name: Seq<char>, start: int)
    requires
        0 <= start,
        forall|j: int| start <= j < entries.len() ==> entries[j].name@ != name,
    ensures
        service_index_from(entries, name, start) is None,
    decreases entries.len() - start,
{
    if start < entries.len() {
        lemma_service_index_absent(entries, name, start + 1);
    }
}

/// Whether no two entries share a name, as in a configuration map keyed by
/// service name.
pub open spec fn spec_names_distinct(entries: Seq<ServiceEntry>) -> bool {
    forall|i: int, j: int|
        0 <= i < entries.len() && 0 <= j < entries.len() && i != j ==> (#[trigger] entries[i]).name@
            != (#[trigger] entries[j]).name@
}

/// Law: when names are distinct, the entry consulted for a caller is the one
/// entry with its name, wherever it stands in the list.
pub proof fn law_lookup_by_name(entries: Seq<ServiceEntry>, i: int)
    requires
        spec_names_distinct(entries),
        0 <= i < entries.len(),
    ensures
        service_index(entries, entries[i].name@) == Some(i),
{
    assert forall|j: int| 0 <= j < i implies entries[j].name@ != entries[i].name@ by {
        assert(entries[j].name@ != entries[i].name@);
    }
    lemma_service_index_found(entries, entries[i].name@, 0, i);
}

impl AclSettings {
    /// The index of the entry consulted for callers named `caller`.
    pub fn find_service(&self, caller: &ServiceId) -> (r: Option<usize>)
        ensures
            match r {
                None => service_index(self.services@, caller@) is None,
                Some(i) => service_index(self.services@, caller@) == Some(i as int) && i
                    < self.services@.len(),
            },
    {
        let n = self.services.len();
        let mut i: usize = 0;
        while i < n
            invariant
                n == self.services@.len(),
                i <= n,
                forall|j: int| 0 <= j < i ==> self.services@[j].name@ != caller@,
            decreases n - i,
        {
            if self.services[i].name == caller.0 {
                proof {
                    lemma_service_index_found(self.services@, caller@, 0, i as int);
                }
                return Some(i);
            }
            i = i + 1;
        }
        proof {
            lemma_service_index_absent(self.services@, caller@, 0);
        }
        None
    }

    /// Whether `caller` may obtain `requested_access` to the `algorithm` key of
    /// `target`: the caller is configured and one of its rules grants exactly that.
    pub fn is_allowed(
        &self,
        caller: &ServiceId,
        target: &ServiceId,
        algorithm: KeyAlgorithm,
        requested_access: &KeyAccessLevel,
    ) -> (r: bool)
        ensures
            r == spec_is_allowed(*self, caller@, target@, algorithm, *requested_access),
    {
        let idx = match self.find_service(caller) {
            None => return false,
            Some(i) => i,
        };
        let rules = &self.services[idx].config.allowed_access;
        let n = rules.len();
        let mut j: usize = 0;
        while j < n
            invariant
                n == rules@.len(),
                j <= n,
                service_index(self.services@, caller@) == Some(idx as int),
                rules@ == self.services@[idx as int].config.allowed_access@,
                forall|k: int|
                    0 <= k < j ==> !(#[trigger] rules@[k].target_service@ == target@ && rules@[k].algorithm
                        == algorithm && rules@[k].access_level == *requested_access),
            decreases n - j,
        {
            let rule = &rules[j];
            if rule.target_service.same(target) && rule.algorithm == algorithm && rule.access_level
                == *requested_access {
                return true;
            }
            j = j + 1;
        }
        false
    }

    /// Whether `caller` is configured and its allowed actions include `action`.
    pub fn has_control_action(&self, caller: &ServiceId, action: &ControlAction) -> (r: bool)
        ensures
            r == spec_has_control_action(*self, caller@, *action),
    {
        let idx = match self.find_service(caller) {
            None => return false,
            Some(i) => i,
        };
        let entry = &self.services[idx];
        match &entry.config.allowed_actions {
            None => false,
            Some(actions) => {
                let n = actions.len();
                let mut j: usize = 0;
                while j < n
                    invariant
                        n == actions@.len(),
                        j <= n,
                        service_index(self.services@, caller@) == Some(idx as int),
                        self.services@[idx as int].config.allowed_actions == Some(*actions),
                        forall|k: int| 0 <= k < j ==> actions@[k] != *action,
                    decreases n - j,
                {
                    if actions[j] == *action {
                        return true;
                    }
                    j = j + 1;
                }
                false
            },
        }
    }
}

} // verus!
