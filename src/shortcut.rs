use vstd::prelude::*;

use std::collections::HashMap;

verus! {

broadcast use vstd::std_specs::hash::group_hash_axioms;

/// The table of global shortcuts: for each registered hotkey identifier, its
/// callbacks in the order they were added.
pub struct ShortcutRegistry<C> {
    shortcuts: HashMap<u32, Vec<C>>,
}

/// The callbacks of `id` in the table `m`; none when `id` is not registered.
pub open spec fn callbacks_of<C>(m: Map<u32, Seq<C>>, id: u32) -> Seq<C> {
    if m.contains_key(id) {
        m[id]
    } else {
        Seq::empty()
    }
}

impl<C> ShortcutRegistry<C> {
    /// The table, each hotkey identifier with its callbacks.
    pub closed spec fn table(&self) -> Map<u32, Seq<C>> {
        Map::new(|k: u32| self.shortcuts@.contains_key(k), |k: u32| self.shortcuts@[k]@)
    }

    pub fn new() -> (r: Self)
        ensures
            r.table() == Map::<u32, Seq<C>>::empty(),
    {
        let r = ShortcutRegistry { shortcuts: HashMap::new() };
        assert(r.table() =~= Map::<u32, Seq<C>>::empty());
        r
    }

    /// Adds `callback` behind those already registered for hotkey `id`.
    pub fn add_shortcut(&mut self, id: u32, callback: C)
        ensures
            final(self).table() == old(self).table().insert(
                id,
                callbacks_of(old(self).table(), id).push(callback),
            ),
    {
        let mut list: Vec<C> = match self.shortcuts.remove(&id) {
            Some(l) => l,
            None => Vec::new(),
        };
        let ghost before = list@;
        list.push(callback);
        self.shortcuts.insert(id, list);
        assert(self.table() =~= old(self).table().insert(
            id,
            callbacks_of(old(self).table(), id).push(callback),
        ));
    }

    /// Removes every callback of hotkey `id`.
    pub fn remove_shortcut(&mut self, id: u32)
        ensures
            final(self).table() == old(self).table().remove(id),
    {
        self.shortcuts.remove(&id);
        assert(self.table() =~= old(self).table().remove(id));
    }

    /// The callbacks to invoke, in order, when hotkey `id` fires.
    pub fn call_handlers(&self, id: u32) -> (r: Option<&Vec<C>>)
        ensures
            match r {
                Some(l) => self.table().contains_key(id) && l@ == self.table()[id],
                None => !self.table().contains_key(id),
            },
    {
        self.shortcuts.get(&id)
    }
}

} // verus!
