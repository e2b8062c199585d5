//! The table of the open subscriptions.

use vstd::hash_map::StringHashMap;
use vstd::prelude::*;

use crate::channel::{Outlet, OutletView};
use crate::frames::MessageFrame;

verus! {

/// The open subscriptions: the outlet of each, by its id.
pub type Subscriptions = Map<Seq<char>, OutletView<MessageFrame>>;

/// The outlets of the subscribers in no particular order, and where to find each by its id.
struct Slots {
    places: StringHashMap<usize>,
    entries: Vec<(String, Outlet<MessageFrame>)>,
}

impl Slots {
    /// Every id leads to its own entry, and every entry can be found by its id.
    spec fn wf(self) -> bool {
        &&& forall|id: Seq<char>| #[trigger]
            self.places@.contains_key(id) ==> self.places@[id] < self.entries@.len()
                && self.entries@[self.places@[id] as int].0@ == id
        &&& forall|i: int|
            0 <= i < self.entries@.len() ==> self.places@.contains_key(
                (#[trigger] self.entries@[i]).0@,
            ) && self.places@[self.entries@[i].0@] == i
    }

    spec fn view(self) -> Subscriptions {
        Map::new(
            |id: Seq<char>| self.places@.contains_key(id),
            |id: Seq<char>| self.entries@[self.places@[id] as int].1@,
        )
    }

    fn new() -> (slots: Slots)
        ensures
            slots.wf(),
            slots@ == Subscriptions::empty(),
    {
        Slots { places: StringHashMap::new(), entries: Vec::new() }
    }

    fn insert(&mut self, id: String, outlet: Outlet<MessageFrame>)
        requires
            old(self).wf(),
        ensures
            final(self).wf(),
            final(self)@ == old(self)@.insert(id@, outlet@),
    {
        let place: Option<usize> = self.find(id.as_str());
        match place {
            Some(place) => {
                self.entries.set(place, (id, outlet));
            },
            None => {
                self.places.insert(id.clone(), self.entries.len());
                self.entries.push((id, outlet));
            },
        }
    }

    fn find(&self, id: &str) -> (place: Option<usize>)
        ensures
            match place {
                Some(place) => self.places@.contains_key(id@) && self.places@[id@] == place,
                None => !self.places@.contains_key(id@),
            },
    {
        match self.places.get(id) {
            Some(place) => Some(*place),
            None => None,
        }
    }

    fn remove(&mut self, id: &str) -> (found: bool)
        requires
            old(self).wf(),
        ensures
            final(self).wf(),
            final(self)@ == old(self)@.remove(id@),
            found == old(self)@.contains_key(id@),
    {
        match self.find(id) {
            Some(place) => {
                self.places.remove(id);
                self.entries.swap_remove(place);
                if place < self.entries.len() {
                    let moved = self.entries[place].0.clone();
                    self.places.insert(moved, place);
                }
                true
            },
            None => false,
        }
    }

    fn hand_over(&mut self, message: MessageFrame) -> (answer: Result<(), String>)
        requires
            old(self).wf(),
            old(self)@.contains_key(message@.subscription),
        ensures
            final(self).wf(),
            final(self)@ == old(self)@.insert(
                message@.subscription,
                old(self)@[message@.subscription].after(message@, answer is Ok),
            ),
            answer matches Err(refusal) ==> refusal@ == "channel closed"@,
    {
        match self.find(message.subscription.as_str()) {
            Some(place) => self.entries[place].1.hand_over(message),
            None => unreached(),
        }
    }
}

/// The open subscriptions, by their ids.
pub struct Subscribers {
    slots: Slots,
}

impl View for Subscribers {
    type V = Subscriptions;

    closed spec fn view(&self) -> Subscriptions {
        self.slots@
    }
}

impl Subscribers {
    #[verifier::type_invariant]
    spec fn inv(self) -> bool {
        self.slots.wf()
    }

    /// A table without subscriptions.
    pub fn new() -> (subscribers: Subscribers)
        ensures
            subscribers@ == Subscriptions::empty(),
    {
        Subscribers { slots: Slots::new() }
    }

    /// The number of open subscriptions.
    pub fn len(&self) -> (count: usize)
        ensures
            count == self@.len(),
    {
        assert(self@.dom() =~= self.slots.places@.dom());
        self.slots.places.len()
    }

    /// Whether the subscription with this id is open.
    pub fn contains(&self, id: &str) -> (found: bool)
        ensures
            found == self@.contains_key(id@),
    {
        self.slots.places.contains_key(id)
    }

    /// Opens a subscription, in place of one with the same id.
    pub fn insert(&mut self, id: String, outlet: Outlet<MessageFrame>)
        ensures
            final(self)@ == old(self)@.insert(id@, outlet@),
    {
        proof {
            use_type_invariant(&*self);
        }
        let mut slots = Slots::new();
        std::mem::swap(&mut slots, &mut self.slots);
        slots.insert(id, outlet);
        self.slots = slots;
    }

    /// Ends a subscription, if it is open.
    pub fn remove(&mut self, id: &str) -> (found: bool)
        ensures
            final(self)@ == old(self)@.remove(id@),
            found == old(self)@.contains_key(id@),
    {
        proof {
            use_type_invariant(&*self);
        }
        let mut slots = Slots::new();
        std::mem::swap(&mut slots, &mut self.slots);
        let found = slots.remove(id);
        self.slots = slots;
        found
    }

    /// Hands a message to the outlet of its subscription, which has to be open.
    pub fn hand_over(&mut self, message: MessageFrame) -> (answer: Result<(), String>)
        requires
            old(self)@.contains_key(message@.subscription),
        ensures
            final(self)@ == old(self)@.insert(
                message@.subscription,
                old(self)@[message@.subscription].after(message@, answer is Ok),
            ),
            answer matches Err(refusal) ==> refusal@ == "channel closed"@,
    {
        proof {
            use_type_invariant(&*self);
        }
        let mut slots = Slots::new();
        std::mem::swap(&mut slots, &mut self.slots);
        let answer = slots.hand_over(message);
        self.slots = slots;
        answer
    }
}

} // verus!
