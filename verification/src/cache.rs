use vstd::hash_map::StringHashMap;
use vstd::prelude::*;

verus! {

/// The leak state that a set of stored states holds for `device`: the stored
/// value, and `false` for a device that has none.
pub open spec fn last_known(states: Map<Seq<char>, bool>, device: Seq<char>) -> bool {
    if states.contains_key(device) {
        states[device]
    } else {
        false
    }
}

/// The last leak state of each device that has reported one.
pub struct DeviceStateCache {
    states: StringHashMap<bool>,
}

impl View for DeviceStateCache {
    type V = Map<Seq<char>, bool>;

    closed spec fn view(&self) -> Map<Seq<char>, bool> {
        self.states@
    }
}

impl DeviceStateCache {
    /// A cache that knows no device.
    pub fn new() -> (cache: DeviceStateCache)
        ensures
            cache@ == Map::<Seq<char>, bool>::empty(),
    {
        DeviceStateCache { states: StringHashMap::new() }
    }

    /// The last leak state of `device`, `false` if it never reported one.
    pub fn get(&self, device: &str) -> (state: bool)
        ensures
            state == last_known(self@, device@),
    {
        match self.states.get(device) {
            Some(state) => *state,
            None => false,
        }
    }

    /// Stores `value` as the last leak state of `device`.
    pub fn set(&mut self, device: &str, value: bool)
        ensures
            final(self)@ == old(self)@.insert(device@, value),
    {
        self.states.insert(device.to_owned(), value);
    }

    /// Whether a state is stored for `device`.
    pub fn contains(&self, device: &str) -> (stored: bool)
        ensures
            stored == self@.contains_key(device@),
    {
        self.states.contains_key(device)
    }
}

} // verus!
