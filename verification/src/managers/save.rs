use vstd::prelude::*;

use crate::text::{decimal, spec_decimal, text_eq};

verus! {

/// The scene a new game starts in.
pub const DEFAULT_SCENE: &'static str = "uid://bowrs0wcn2oy6";

/// The path of the save file of `slot`.
pub open spec fn spec_save_path(slot: u8) -> Seq<char> {
    "user://save_"@ + spec_decimal(slot as int) + ".sav"@
}

/// The path of the save file of `slot`: `user://save_<slot>.sav`.
pub fn save_path(slot: u8) -> (p: String)
    ensures
        p@ == spec_save_path(slot),
{
    let mut p = "user://save_".to_owned();
    let d = decimal(slot as i64);
    p.append(d.as_str());
    p.append(".sav");
    p
}

/// Whether any save exists, given which of the save files of slots 0, 1
/// and 2 exist.
pub fn has_saved_point(slot_exists: &[bool; 3]) -> (r: bool)
    ensures
        r == (slot_exists[0] || slot_exists[1] || slot_exists[2]),
{
    let mut i: usize = 0;
    while i < 3
        invariant
            i <= 3,
            forall|k: int| 0 <= k < i ==> !slot_exists[k],
        decreases 3 - i,
    {
        if slot_exists[i] {
            return true;
        }
        i = i + 1;
    }
    false
}

/// The keys the save manager listens to.
#[derive(Clone, Copy, Debug, PartialEq, Eq, Structural)]
pub enum SaveKey {
    Key0,
    Key1,
    Key2,
    Key3,
    Key8,
    Key9,
    Other,
}

/// What a key asks of the save manager.
#[derive(Clone, Copy, Debug, PartialEq, Eq, Structural)]
pub enum SaveCommand {
    CreateNewGame,
    LoadGame,
    SaveGame,
}

/// Why a new game could not start.
#[derive(Clone, Copy, Debug, PartialEq, Eq, Structural)]
pub enum SaveError {
    /// The slot already holds a save.
    SlotTaken(u8),
}

/// The save slot in use.
pub struct SaveSlots {
    pub current_slot: u8,
}

impl SaveSlots {
    /// Slot 1 is in use at first.
    pub fn new() -> (s: Self)
        ensures
            s.current_slot == 1,
    {
        SaveSlots { current_slot: 1 }
    }

    /// The path of the save file of the slot in use.
    pub fn get_save_path(&self) -> (p: String)
        ensures
            p@ == spec_save_path(self.current_slot),
    {
        save_path(self.current_slot)
    }

    /// A pressed key: 0 starts a new game, 9 loads, 8 saves, and 1 to 3
    /// select that slot.
    pub fn unhandled_key_input(&mut self, key: SaveKey) -> (cmd: Option<SaveCommand>)
        ensures
            key == SaveKey::Key0 ==> cmd == Some(SaveCommand::CreateNewGame),
            key == SaveKey::Key9 ==> cmd == Some(SaveCommand::LoadGame),
            key == SaveKey::Key8 ==> cmd == Some(SaveCommand::SaveGame),
            key == SaveKey::Key1 ==> cmd is None && final(self).current_slot == 1,
            key == SaveKey::Key2 ==> cmd is None && final(self).current_slot == 2,
            key == SaveKey::Key3 ==> cmd is None && final(self).current_slot == 3,
            key == SaveKey::Other ==> cmd is None,
            (key == SaveKey::Key0 || key == SaveKey::Key8 || key == SaveKey::Key9 || key
                == SaveKey::Other) ==> final(self).current_slot == old(self).current_slot,
    {
        match key {
            SaveKey::Key0 => Some(SaveCommand::CreateNewGame),
            SaveKey::Key9 => Some(SaveCommand::LoadGame),
            SaveKey::Key8 => Some(SaveCommand::SaveGame),
            SaveKey::Key1 => {
                self.current_slot = 1;
                None
            },
            SaveKey::Key2 => {
                self.current_slot = 2;
                None
            },
            SaveKey::Key3 => {
                self.current_slot = 3;
                None
            },
            SaveKey::Other => None,
        }
    }

    /// Starts a new game in `index` unless that slot already holds a save;
    /// on success the slot is in use and a new game is to be created there.
    pub fn start_on_slot(&mut self, index: u8, slot_taken: bool) -> (r: Result<(), SaveError>)
        ensures
            slot_taken ==> r == Err::<(), SaveError>(SaveError::SlotTaken(index))
                && final(self).current_slot == old(self).current_slot,
            !slot_taken ==> r is Ok && final(self).current_slot == index,
    {
        if slot_taken {
            return Err(SaveError::SlotTaken(index));
        }
        self.current_slot = index;
        Ok(())
    }

    /// Switches to `index` before loading from it.
    pub fn load_from_slot(&mut self, index: u8)
        ensures
            final(self).current_slot == index,
    {
        self.current_slot = index;
    }
}

/// Flags that outlive a scene (such as doors left open), by key.
pub struct PersistentData {
    entries: Vec<(String, bool)>,
}

impl View for PersistentData {
    type V = Map<Seq<char>, bool>;

    closed spec fn view(&self) -> Map<Seq<char>, bool> {
        Map::new(
            |k: Seq<char>| exists|i: int| 0 <= i < self.entries@.len() && self.entries@[i].0@ == k,
            |k: Seq<char>|
                self.entries@[choose|i: int| 0 <= i < self.entries@.len() && self.entries@[i].0@ == k].1,
        )
    }
}

impl PersistentData {
    /// Every key occurs once.
    #[verifier::type_invariant]
    closed spec fn keys_unique(&self) -> bool {
        forall|i: int, j: int|
            0 <= i < j < self.entries@.len() ==> #[trigger] self.entries@[i].0@
                != #[trigger] self.entries@[j].0@
    }

    /// The keys in the order they were first stored.
    pub closed spec fn key_order(&self) -> Seq<Seq<char>> {
        self.entries@.map_values(|e: (String, bool)| e.0@)
    }

    /// No flags.
    pub fn new() -> (d: Self)
        ensures
            d@ == Map::<Seq<char>, bool>::empty(),
            d.key_order() == Seq::<Seq<char>>::empty(),
    {
        let d = PersistentData { entries: Vec::new() };
        assert(d@ =~= Map::<Seq<char>, bool>::empty());
        assert(d.key_order() =~= Seq::<Seq<char>>::empty());
        d
    }

    /// The index of `key`, if stored.
    fn find(&self, key: &str) -> (r: Option<usize>)
        ensures
            r matches Some(i) ==> i < self.entries@.len() && self.entries@[i as int].0@ == key@,
            r is None ==> forall|i: int| 0 <= i < self.entries@.len() ==> self.entries@[i].0@ != key@,
    {
        let n = self.entries.len();
        let mut i: usize = 0;
        while i < n
            invariant
                n == self.entries@.len(),
                i <= n,
                forall|k: int| 0 <= k < i ==> self.entries@[k].0@ != key@,
            decreases n - i,
        {
            if text_eq(self.entries[i].0.as_str(), key) {
                return Some(i);
            }
            i = i + 1;
        }
        None
    }

    /// The value at index `i` is what the map holds for that entry's key.
    proof fn lemma_entry_in_view(&self, i: int)
        requires
            self.keys_unique(),
            0 <= i < self.entries@.len(),
        ensures
            self@.contains_key(self.entries@[i].0@),
            self@[self.entries@[i].0@] == self.entries@[i].1,
    {
        let k = self.entries@[i].0@;
        let w = choose|j: int| 0 <= j < self.entries@.len() && self.entries@[j].0@ == k;
        if w != i {
            if w < i {
                assert(self.entries@[w].0@ != self.entries@[i].0@);
            } else {
                assert(self.entries@[i].0@ != self.entries@[w].0@);
            }
        }
    }

    /// The flag stored under `key`, if any.
    pub fn get(&self, key: &str) -> (r: Option<bool>)
        ensures
            r == (if self@.contains_key(key@) {
                Some(self@[key@])
            } else {
                None
            }),
    {
        proof {
            use_type_invariant(self);
        }
        match self.find(key) {
            Some(i) => {
                proof {
                    self.lemma_entry_in_view(i as int);
                }
                Some(self.entries[i].1)
            },
            None => None,
        }
    }

    /// The flag stored under `key`; when there is none, `default` is stored
    /// under it and returned.
    pub fn get_persisdent_data(&mut self, key: String, default: bool) -> (r: bool)
        ensures
            r == spec_get_or_insert(old(self)@, key@, default),
            final(self)@ == old(self)@.insert(key@, r),
            final(self).key_order() == if old(self)@.contains_key(key@) {
                old(self).key_order()
            } else {
                old(self).key_order().push(key@)
            },
    {
        match self.get(key.as_str()) {
            Some(v) => {
                proof {
                    assert(self@ =~= self@.insert(key@, v));
                }
                v
            },
            None => {
                self.set_persisdent_data(key, default);
                default
            },
        }
    }

    /// Stores `value` under `key`, replacing what was there.
    pub fn set_persisdent_data(&mut self, key: String, value: bool)
        ensures
            final(self)@ == old(self)@.insert(key@, value),
            final(self).key_order() == if old(self)@.contains_key(key@) {
                old(self).key_order()
            } else {
                old(self).key_order().push(key@)
            },
    {
        proof {
            use_type_invariant(&*self);
        }
        let ghost k = key@;
        let ghost before = self.entries@;
        match self.find(key.as_str()) {
            Some(i) => {
                let mut entries = Vec::new();
                std::mem::swap(&mut entries, &mut self.entries);
                entries.set(i, (key, value));
                proof {
                    assert forall|a: int, b: int| 0 <= a < b < entries@.len() implies #[trigger] entries@[a].0@
                        != #[trigger] entries@[b].0@ by {
                        assert(before[a].0@ != before[b].0@);
                    }
                }
                self.entries = entries;
                proof {
                    self.lemma_entry_in_view(i as int);
                    old(self).lemma_entry_in_view(i as int);
                    assert(self.key_order() =~= old(self).key_order());
                    let target = old(self)@.insert(k, value);
                    assert forall|q: Seq<char>| #[trigger] self@.contains_key(q) == target.contains_key(q)
                        && (self@.contains_key(q) ==> self@[q] == target[q]) by {
                        if self@.contains_key(q) {
                            let j = choose|j: int| 0 <= j < self.entries@.len() && self.entries@[j].0@ == q;
                            self.lemma_entry_in_view(j);
                            old(self).lemma_entry_in_view(j);
                        }
                        if old(self)@.contains_key(q) {
                            let j = choose|j: int| 0 <= j < before.len() && before[j].0@ == q;
                            self.lemma_entry_in_view(j);
                            old(self).lemma_entry_in_view(j);
                        }
                    }
                    assert(self@ =~= target);
                }
            },
            None => {
                let mut entries = Vec::new();
                std::mem::swap(&mut entries, &mut self.entries);
                entries.push((key, value));
                proof {
                    assert forall|a: int, b: int| 0 <= a < b < entries@.len() implies #[trigger] entries@[a].0@
                        != #[trigger] entries@[b].0@ by {
                        if b < before.len() {
                            assert(before[a].0@ != before[b].0@);
                        }
                    }
                }
                self.entries = entries;
                proof {
                    let last = self.entries@.len() - 1;
                    self.lemma_entry_in_view(last);
                    assert(!old(self)@.contains_key(k));
                    assert(self.key_order() =~= old(self).key_order().push(k));
                    let target = old(self)@.insert(k, value);
                    assert forall|q: Seq<char>| #[trigger] self@.contains_key(q) == target.contains_key(q)
                        && (self@.contains_key(q) ==> self@[q] == target[q]) by {
                        if self@.contains_key(q) {
                            let j = choose|j: int| 0 <= j < self.entries@.len() && self.entries@[j].0@ == q;
                            self.lemma_entry_in_view(j);
                            if j < before.len() {
                                old(self).lemma_entry_in_view(j);
                            }
                        }
                        if old(self)@.contains_key(q) {
                            let j = choose|j: int| 0 <= j < before.len() && before[j].0@ == q;
                            self.lemma_entry_in_view(j);
                            old(self).lemma_entry_in_view(j);
                        }
                    }
                    assert(self@ =~= target);
                }
            },
        }
    }

    /// The stored flags with their keys, in the order they were first stored.
    pub fn entries(&self) -> (r: Vec<(String, bool)>)
        ensures
            forall|i: int, j: int|
                0 <= i < j < r@.len() ==> #[trigger] r@[i].0@ != #[trigger] r@[j].0@,
            forall|i: int|
                0 <= i < r@.len() ==> self@.contains_key(#[trigger] r@[i].0@) && self@[r@[i].0@]
                    == r@[i].1,
            forall|k: Seq<char>|
                self@.contains_key(k) ==> exists|i: int| 0 <= i < r@.len() && #[trigger] r@[i].0@ == k,
            r@.map_values(|e: (String, bool)| e.0@) == self.key_order(),
    {
        let mut r: Vec<(String, bool)> = Vec::new();
        let n = self.entries.len();
        let mut i: usize = 0;
        while i < n
            invariant
                n == self.entries@.len(),
                i <= n,
                r@.len() == i,
                forall|j: int| 0 <= j < i ==> #[trigger] r@[j].0@ == self.entries@[j].0@ && r@[j].1
                    == self.entries@[j].1,
            decreases n - i,
        {
            let k = self.entries[i].0.clone();
            r.push((k, self.entries[i].1));
            i = i + 1;
        }
        proof {
            use_type_invariant(self);
            assert forall|a: int, b: int| 0 <= a < b < r@.len() implies #[trigger] r@[a].0@
                != #[trigger] r@[b].0@ by {
                assert(self.entries@[a].0@ != self.entries@[b].0@);
            }
            assert forall|j: int| 0 <= j < r@.len() implies self@.contains_key(#[trigger] r@[j].0@)
                && self@[r@[j].0@] == r@[j].1 by {
                self.lemma_entry_in_view(j);
            }
            assert forall|k: Seq<char>| self@.contains_key(k) implies exists|j: int|
                0 <= j < r@.len() && #[trigger] r@[j].0@ == k by {
                let j = choose|j: int| 0 <= j < self.entries@.len() && self.entries@[j].0@ == k;
                assert(r@[j].0@ == k);
            }
            assert(r@.map_values(|e: (String, bool)| e.0@) =~= self.key_order());
        }
        r
    }
}

/// The flag `get_persisdent_data` returns for `key` from stored flags `m`
/// with fallback `default`.
pub open spec fn spec_get_or_insert(m: Map<Seq<char>, bool>, key: Seq<char>, default: bool) -> bool {
    if m.contains_key(key) {
        m[key]
    } else {
        default
    }
}

/// What is read back under a key is what was last stored under it,
/// whatever the fallback; and once read, a flag reads the same again.
pub proof fn lemma_read_after_write(
    m: Map<Seq<char>, bool>,
    key: Seq<char>,
    value: bool,
    default: bool,
    other_default: bool,
)
    ensures
        spec_get_or_insert(m.insert(key, value), key, default) == value,
        ({
            let r = spec_get_or_insert(m, key, default);
            spec_get_or_insert(m.insert(key, r), key, other_default) == r
        }),
{
}

} // verus!
