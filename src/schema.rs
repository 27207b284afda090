use vstd::prelude::*;
use crate::emitter::CURRENT_VERSION;

verus! {

/// Schema versioning queries for consumers of events.
pub struct EventSchema;

impl EventSchema {
    pub open spec fn spec_current_version() -> u32 {
        CURRENT_VERSION
    }

    pub open spec fn spec_is_compatible(version: u32) -> bool {
        version <= Self::spec_current_version()
    }

    /// The schema version stamped on every event built now.
    pub fn current_version() -> (r: u32)
        ensures
            r == Self::spec_current_version(),
    {
        CURRENT_VERSION
    }

    /// Whether an event stamped with `version` may be read by a consumer of the
    /// current schema. This is necessary, not sufficient: it compares version
    /// numbers only, and says nothing of layout changes within one version.
    pub fn is_compatible(version: u32) -> (r: bool)
        ensures
            r == Self::spec_is_compatible(version),
    {
        version <= Self::current_version()
    }
}

/// Every version up to the current one is compatible, every later one is not,
/// and the current version is always compatible.
pub proof fn lemma_compatible_up_to_current(v: u32)
    ensures
        v <= EventSchema::spec_current_version() ==> EventSchema::spec_is_compatible(v),
        v > EventSchema::spec_current_version() ==> !EventSchema::spec_is_compatible(v),
        EventSchema::spec_is_compatible(EventSchema::spec_current_version()),
{
}

} // verus!
