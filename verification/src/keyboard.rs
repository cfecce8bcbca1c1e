//! An edge-triggered keyboard tracker: converts a raw, high-frequency key
//! event stream into stable per-frame queryable press/release/hold state.

use std::collections::HashMap;

use vstd::prelude::*;

use crate::events::InputEvent;

verus! {

broadcast use vstd::std_specs::hash::group_hash_axioms;

/// True when the map marks `key` with a true flag. Keys absent from the
/// map count as unmarked.
pub open spec fn map_flag(m: Map<u32, bool>, key: u32) -> bool {
    m.contains_key(key) && m[key]
}

/// The held map after one event: a key transition records its level,
/// anything else leaves the map alone.
pub open spec fn held_after(held: Map<u32, bool>, e: InputEvent) -> Map<u32, bool> {
    match e {
        InputEvent::Key { code, pressed } => held.insert(code, pressed),
        _ => held,
    }
}

/// The per-frame edge map after one event: a key transition marks its key
/// as changed, anything else leaves the map alone.
pub open spec fn changed_after(changed: Map<u32, bool>, e: InputEvent) -> Map<u32, bool> {
    match e {
        InputEvent::Key { code, .. } => changed.insert(code, true),
        _ => changed,
    }
}

/// Tracks which keys are currently down and which transitioned during the
/// current tick.
///
/// A key is "pressed this frame" iff it is down and marked as transitioned;
/// "released this frame" iff it is up and marked as transitioned. Both maps
/// only grow as events arrive; the edge map is cleared wholesale once per
/// tick by [`Keyboard::next_frame`].
pub struct Keyboard {
    keys: HashMap<u32, bool>,
    this_frame: HashMap<u32, bool>,
}

impl Keyboard {
    /// Which keys are currently down (absent means up).
    pub closed spec fn held_map(&self) -> Map<u32, bool> {
        self.keys@
    }

    /// Which keys transitioned since the last `next_frame` (absent means
    /// unchanged).
    pub closed spec fn changed_map(&self) -> Map<u32, bool> {
        self.this_frame@
    }

    /// The key is currently down.
    pub open spec fn spec_is_pressed(&self, key: u32) -> bool {
        map_flag(self.held_map(), key)
    }

    /// The key transitioned during the current tick.
    pub open spec fn spec_changed(&self, key: u32) -> bool {
        map_flag(self.changed_map(), key)
    }

    /// The key went down during the current tick.
    pub open spec fn spec_pressed_this_frame(&self, key: u32) -> bool {
        self.spec_is_pressed(key) && self.spec_changed(key)
    }

    /// The key went up during the current tick.
    pub open spec fn spec_released_this_frame(&self, key: u32) -> bool {
        !self.spec_is_pressed(key) && self.spec_changed(key)
    }

    /// A tracker that has seen no events: every key is up and unchanged.
    pub fn new() -> (kb: Keyboard)
        ensures
            kb.held_map() == Map::<u32, bool>::empty(),
            kb.changed_map() == Map::<u32, bool>::empty(),
    {
        Keyboard { keys: HashMap::new(), this_frame: HashMap::new() }
    }

    fn press(&mut self, key: u32)
        ensures
            final(self).held_map() == old(self).held_map().insert(key, true),
            final(self).changed_map() == old(self).changed_map().insert(key, true),
    {
        self.keys.insert(key, true);
        self.this_frame.insert(key, true);
    }

    fn release(&mut self, key: u32)
        ensures
            final(self).held_map() == old(self).held_map().insert(key, false),
            final(self).changed_map() == old(self).changed_map().insert(key, true),
    {
        self.keys.insert(key, false);
        self.this_frame.insert(key, true);
    }

    /// Record one event. A key-down sets the key's level and marks its
    /// edge; a key-up clears the level and marks the edge; every other
    /// event leaves the tracker alone. An already-held key-down
    /// (auto-repeat) is treated exactly like a fresh press, so it marks the
    /// edge again: callers needing single-shot semantics must debounce.
    ///
    /// This is called automatically in the application loop; you should not
    /// call it yourself.
    pub fn handle_event(&mut self, event: &InputEvent)
        ensures
            final(self).held_map() == held_after(old(self).held_map(), *event),
            final(self).changed_map() == changed_after(old(self).changed_map(), *event),
    {
        match *event {
            InputEvent::Key { code, pressed } => {
                if pressed {
                    self.press(code);
                } else {
                    self.release(code);
                }
            },
            _ => {},
        }
    }

    /// Returns whether this key went down during the current tick.
    pub fn pressed_this_frame(&self, key: u32) -> (r: bool)
        ensures
            r == self.spec_pressed_this_frame(key),
    {
        let held = match self.keys.get(&key) {
            None => false,
            Some(b) => *b,
        };
        let changed = match self.this_frame.get(&key) {
            None => false,
            Some(b) => *b,
        };
        held && changed
    }

    /// Returns whether this key went up during the current tick.
    pub fn released_this_frame(&self, key: u32) -> (r: bool)
        ensures
            r == self.spec_released_this_frame(key),
    {
        let held = match self.keys.get(&key) {
            None => false,
            Some(b) => *b,
        };
        let changed = match self.this_frame.get(&key) {
            None => false,
            Some(b) => *b,
        };
        !held && changed
    }

    /// Returns whether the key is currently held down.
    pub fn is_pressed(&self, key: u32) -> (r: bool)
        ensures
            r == self.spec_is_pressed(key),
    {
        match self.keys.get(&key) {
            None => false,
            Some(b) => *b,
        }
    }

    /// Reset the tracker for the next tick: the edge map is cleared
    /// wholesale, the held map survives. Call exactly once per tick, after
    /// the update/render phase — the application loop does so
    /// automatically.
    pub fn next_frame(&mut self)
        ensures
            final(self).held_map() == old(self).held_map(),
            final(self).changed_map() == Map::<u32, bool>::empty(),
    {
        self.this_frame.clear();
    }
}

/// A key that no handled event has ever named — absent from both maps — is
/// not down, did not go down this frame, and did not go up this frame.
pub proof fn lemma_untouched_key_unpressed(kb: Keyboard, key: u32)
    requires
        !kb.held_map().contains_key(key),
        !kb.changed_map().contains_key(key),
    ensures
        !kb.spec_is_pressed(key),
        !kb.spec_pressed_this_frame(key),
        !kb.spec_released_this_frame(key),
{
}

/// An event that does not name `key` leaves `key` absent from both maps,
/// and clearing the edge map keeps it absent: a key stays untouched until
/// an event names it.
pub proof fn lemma_untouched_key_preserved(
    held: Map<u32, bool>,
    changed: Map<u32, bool>,
    e: InputEvent,
    key: u32,
)
    requires
        !held.contains_key(key),
        !changed.contains_key(key),
        match e {
            InputEvent::Key { code, .. } => code != key,
            _ => true,
        },
    ensures
        !held_after(held, e).contains_key(key),
        !changed_after(changed, e).contains_key(key),
        !Map::<u32, bool>::empty().contains_key(key),
{
}

/// Pressing a key makes it held and edge-marked at once: both
/// `is_pressed` and `pressed_this_frame` report true. After the tracker
/// is reset for the next tick, the key is still held but no longer
/// edge-marked: `is_pressed` stays true, `pressed_this_frame` and
/// `released_this_frame` turn false. Here `mid` is the tracker after it
/// handled a press of `key`, as `handle_event` leaves it, and `after` is
/// `mid` after `next_frame`.
pub proof fn lemma_press_survives_edge_does_not(
    before: Keyboard,
    mid: Keyboard,
    after: Keyboard,
    key: u32,
)
    requires
        mid.held_map() == held_after(
            before.held_map(),
            InputEvent::Key { code: key, pressed: true },
        ),
        mid.changed_map() == changed_after(
            before.changed_map(),
            InputEvent::Key { code: key, pressed: true },
        ),
        after.held_map() == mid.held_map(),
        after.changed_map() == Map::<u32, bool>::empty(),
    ensures
        mid.spec_is_pressed(key),
        mid.spec_pressed_this_frame(key),
        after.spec_is_pressed(key),
        !after.spec_pressed_this_frame(key),
        !after.spec_released_this_frame(key),
{
}

/// Pressing and then releasing a key within one tick, before the tracker
/// is reset, leaves the key up but edge-marked: `is_pressed` reports
/// false and `released_this_frame` reports true. Here `mid` is the
/// tracker after it handled the press and `after` is `mid` after it
/// handled the release, each as `handle_event` leaves it.
pub proof fn lemma_press_release_same_tick(
    before: Keyboard,
    mid: Keyboard,
    after: Keyboard,
    key: u32,
)
    requires
        mid.held_map() == held_after(
            before.held_map(),
            InputEvent::Key { code: key, pressed: true },
        ),
        mid.changed_map() == changed_after(
            before.changed_map(),
            InputEvent::Key { code: key, pressed: true },
        ),
        after.held_map() == held_after(
            mid.held_map(),
            InputEvent::Key { code: key, pressed: false },
        ),
        after.changed_map() == changed_after(
            mid.changed_map(),
            InputEvent::Key { code: key, pressed: false },
        ),
    ensures
        !after.spec_is_pressed(key),
        after.spec_released_this_frame(key),
        !after.spec_pressed_this_frame(key),
{
}

} // verus!
