//! Zome definitions and the lookups the host-callback dispatch needs.
//!
//! A zome registers validating entry types (each with its link
//! definitions) and at most one agent-entry validator.  The host
//! dispatches a validation request by finding the first entry type with a
//! given name, and within it the first link definition with a given link
//! type and direction; the callbacks themselves, the guest memory
//! marshaling and the JSON rendering live outside the library, which
//! models an entry type by what the dispatch logic reads: its name as a
//! byte string, its links, and handles the embedding code resolves to the
//! real callbacks.

use vstd::prelude::*;

verus! {

/// Which way a link definition points, relative to the defining entry type.
#[derive(Clone, Copy, PartialEq, Eq, Structural, Debug)]
pub enum LinkDirection {
    To,
    From,
}

/// One link definition of a validating entry type.
#[derive(Clone, Debug)]
pub struct LinkDefinition {
    /// The link type's name.
    pub link_type: Vec<u8>,
    /// Which way the link points.
    pub direction: LinkDirection,
    /// Handle under which the embedding code keeps this link's validator.
    pub validator: u64,
}

/// One validating entry type of a zome.
#[derive(Clone, Debug)]
pub struct ValidatingEntryType {
    /// The entry type's name.
    pub name: Vec<u8>,
    /// Its link definitions, in definition order.
    pub links: Vec<LinkDefinition>,
    /// Handle under which the embedding code keeps this entry type's
    /// validator.
    pub validator: u64,
}

/// Stand-in for the agent-entry validation callback: the embedding code
/// resolves the handle to the real callback.
#[derive(Clone, Copy, PartialEq, Eq, Structural, Debug)]
pub struct AgentValidator {
    pub handle: u64,
}

/// Whether a link definition matches a requested link type and direction.
pub open spec fn link_matches(l: LinkDefinition, link_type: Seq<u8>, direction: LinkDirection)
    -> bool {
    l.link_type@ == link_type && l.direction == direction
}

/// Byte-string equality.
fn bytes_eq(a: &[u8], b: &[u8]) -> (r: bool)
    ensures
        r == (a@ == b@),
{
    if a.len() != b.len() {
        return false;
    }
    let mut i: usize = 0;
    while i < a.len()
        invariant
            a@.len() == b@.len(),
            i <= a@.len(),
            forall|j: int| 0 <= j < i ==> a@[j] == b@[j],
        decreases a.len() - i,
    {
        if a[i] != b[i] {
            return false;
        }
        i += 1;
    }
    proof {
        assert(a@ =~= b@);
    }
    true
}

/// Everything a zome registers at setup time.
#[derive(Clone, Debug)]
pub struct ZomeDefinition {
    /// The validating entry types, in definition order.
    pub entry_types: Vec<ValidatingEntryType>,
    /// The agent-entry validator, if one was registered.
    pub agent_entry_validator: Option<AgentValidator>,
}

impl ZomeDefinition {
    /// An empty definition: no entry types, no agent validator.
    pub fn new() -> (zd: ZomeDefinition)
        ensures
            zd.entry_types@ == Seq::<ValidatingEntryType>::empty(),
            zd.agent_entry_validator is None,
    {
        ZomeDefinition { entry_types: Vec::new(), agent_entry_validator: None }
    }

    /// Register one more validating entry type.
    pub fn define(&mut self, entry_type: ValidatingEntryType)
        ensures
            final(self).entry_types@ == old(self).entry_types@.push(entry_type),
            final(self).agent_entry_validator == old(self).agent_entry_validator,
    {
        self.entry_types.push(entry_type);
    }

    /// Register the agent-entry validator, replacing any earlier one.
    pub fn define_agent_validator(&mut self, agent_validator: AgentValidator)
        ensures
            final(self).agent_entry_validator == Some(agent_validator),
            final(self).entry_types@ == old(self).entry_types@,
    {
        self.agent_entry_validator = Some(agent_validator);
    }

    /// Index of the first entry type named `name`, if any: the lookup by
    /// which the host dispatches entry validation and validation-package
    /// requests.
    pub fn find_entry_type(&self, name: &[u8]) -> (r: Option<usize>)
        ensures
            match r {
                Some(i) => i < self.entry_types@.len()
                    && self.entry_types@[i as int].name@ == name@
                    && forall|j: int|
                        0 <= j < i ==> (#[trigger] self.entry_types@[j]).name@ != name@,
                None => forall|j: int|
                    0 <= j < self.entry_types@.len()
                        ==> (#[trigger] self.entry_types@[j]).name@ != name@,
            },
    {
        let mut i: usize = 0;
        while i < self.entry_types.len()
            invariant
                i <= self.entry_types@.len(),
                forall|j: int| 0 <= j < i ==> (#[trigger] self.entry_types@[j]).name@ != name@,
            decreases self.entry_types.len() - i,
        {
            if bytes_eq(self.entry_types[i].name.as_slice(), name) {
                return Some(i);
            }
            i += 1;
        }
        None
    }

    /// Position of the link definition the host dispatches a link
    /// validation to: within the first entry type named `entry_name`, the
    /// first link definition with this link type and direction.  None if
    /// no entry type has that name, or the first one so named defines no
    /// matching link.
    pub fn find_link_definition(
        &self,
        entry_name: &[u8],
        link_type: &[u8],
        direction: LinkDirection,
    ) -> (r: Option<(usize, usize)>)
        ensures
            match r {
                Some(p) => p.0 < self.entry_types@.len()
                    && self.entry_types@[p.0 as int].name@ == entry_name@
                    && (forall|j: int|
                        0 <= j < p.0 ==> (#[trigger] self.entry_types@[j]).name@ != entry_name@)
                    && p.1 < self.entry_types@[p.0 as int].links@.len()
                    && link_matches(
                        self.entry_types@[p.0 as int].links@[p.1 as int],
                        link_type@,
                        direction,
                    )
                    && forall|j: int|
                        0 <= j < p.1 ==> !link_matches(
                            #[trigger] self.entry_types@[p.0 as int].links@[j],
                            link_type@,
                            direction,
                        ),
                None => forall|i: int|
                    (0 <= i < self.entry_types@.len()
                        && (#[trigger] self.entry_types@[i]).name@ == entry_name@
                        && (forall|j: int|
                            0 <= j < i ==> (#[trigger] self.entry_types@[j]).name@ != entry_name@))
                        ==> forall|j: int|
                            0 <= j < self.entry_types@[i].links@.len() ==> !link_matches(
                                #[trigger] self.entry_types@[i].links@[j],
                                link_type@,
                                direction,
                            ),
            },
    {
        let found = self.find_entry_type(entry_name);
        match found {
            None => None,
            Some(i) => {
                let entry = &self.entry_types[i];
                let mut j: usize = 0;
                while j < entry.links.len()
                    invariant
                        i < self.entry_types@.len(),
                        self.entry_types@[i as int].name@ == entry_name@,
                        forall|k: int|
                            0 <= k < i ==> (#[trigger] self.entry_types@[k]).name@ != entry_name@,
                        *entry == self.entry_types@[i as int],
                        j <= entry.links@.len(),
                        forall|k: int|
                            0 <= k < j ==> !link_matches(
                                #[trigger] entry.links@[k],
                                link_type@,
                                direction,
                            ),
                    decreases entry.links.len() - j,
                {
                    let matches_type = bytes_eq(entry.links[j].link_type.as_slice(), link_type);
                    if matches_type && entry.links[j].direction == direction {
                        return Some((i, j));
                    }
                    j += 1;
                }
                None
            }
        }
    }
}

} // verus!
