use vstd::prelude::*;
use crate::registry::{MetaKey, Topic, META_KEY_COUNT};
use crate::value::{Address, Value};

verus! {

/// Metadata of an event: a mapping from metadata keys to sequences of values,
/// held in the registry's key order.
#[derive(Debug, PartialEq, Eq)]
pub struct Metadata {
    slots: Vec<Option<Vec<Value>>>,
}

impl View for Metadata {
    type V = Map<MetaKey, Seq<Value>>;

    closed spec fn view(&self) -> Map<MetaKey, Seq<Value>> {
        Map::new(
            |k: MetaKey| self.slots@[k.spec_index() as int] is Some,
            |k: MetaKey| self.slots@[k.spec_index() as int].unwrap()@,
        )
    }
}

impl Metadata {
    /// Every key has its slot.
    pub closed spec fn wf(&self) -> bool {
        self.slots@.len() == META_KEY_COUNT
    }

    /// Metadata with no key set.
    pub fn new() -> (r: Metadata)
        ensures
            r.wf(),
            r@ == Map::<MetaKey, Seq<Value>>::empty(),
    {
        let mut slots: Vec<Option<Vec<Value>>> = Vec::new();
        let mut i: usize = 0;
        while i < META_KEY_COUNT
            invariant
                i <= META_KEY_COUNT,
                slots@.len() == i,
                forall|j: int| 0 <= j < i ==> slots@[j] is None,
            decreases META_KEY_COUNT - i,
        {
            slots.push(None);
            i = i + 1;
        }
        let r = Metadata { slots };
        assert(r@ =~= Map::<MetaKey, Seq<Value>>::empty());
        r
    }

    /// Sets `key` to `values`, replacing what it held.
    pub fn set(&mut self, key: MetaKey, values: Vec<Value>)
        requires
            old(self).wf(),
        ensures
            final(self).wf(),
            final(self)@ == old(self)@.insert(key, values@),
    {
        let ghost prev = self@;
        let i = key.index();
        self.slots.set(i, Some(values));
        assert(self@ =~= prev.insert(key, values@));
    }

    /// The values under `key`, if it is set.
    pub fn get(&self, key: MetaKey) -> (r: Option<&Vec<Value>>)
        requires
            self.wf(),
        ensures
            self@.contains_key(key) <==> r is Some,
            r matches Some(v) ==> v@ == self@[key],
    {
        let i = key.index();
        match &self.slots[i] {
            Some(v) => Some(v),
            None => None,
        }
    }
}

/// The canonical, versioned event record.
#[derive(Debug, PartialEq, Eq)]
pub struct StandardEvent {
    pub event_type: Topic,
    pub contract_address: Address,
    pub user_address: Option<Address>,
    pub data: Vec<Value>,
    pub metadata: Metadata,
    pub timestamp: u64,
    pub version: u32,
}

/// The mathematical content of a [`StandardEvent`].
pub struct EventView {
    pub event_type: Topic,
    pub contract_address: Address,
    pub user_address: Option<Address>,
    pub data: Seq<Value>,
    pub metadata: Map<MetaKey, Seq<Value>>,
    pub timestamp: u64,
    pub version: u32,
}

impl View for StandardEvent {
    type V = EventView;

    open spec fn view(&self) -> EventView {
        EventView {
            event_type: self.event_type,
            contract_address: self.contract_address,
            user_address: self.user_address,
            data: self.data@,
            metadata: self.metadata@,
            timestamp: self.timestamp,
            version: self.version,
        }
    }
}

/// An event in the format that predates standardization: the action's topic and
/// principals as its key, and its raw values. A payload of one value is
/// published bare, a longer one as a tuple.
#[derive(Debug, PartialEq, Eq)]
pub struct LegacyEvent {
    pub topic: Topic,
    pub principals: Vec<Address>,
    pub payload: Vec<Value>,
}

/// One publish to the event bus.
#[derive(Debug, PartialEq, Eq)]
pub enum Publication {
    /// Published under the key `(EVENT_NAMESPACE, event_type)`.
    Standard(StandardEvent),
    /// Published under the key `(topic, principals...)`.
    Legacy(LegacyEvent),
}

/// The mathematical content of a [`Publication`].
pub enum PublicationView {
    Standard(EventView),
    Legacy { topic: Topic, principals: Seq<Address>, payload: Seq<Value> },
}

impl View for Publication {
    type V = PublicationView;

    open spec fn view(&self) -> PublicationView {
        match self {
            Publication::Standard(e) => PublicationView::Standard(e@),
            Publication::Legacy(l) => PublicationView::Legacy {
                topic: l.topic,
                principals: l.principals@,
                payload: l.payload@,
            },
        }
    }
}

} // verus!
