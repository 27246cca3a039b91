//! Key debouncing: a raw key state is taken over once it has held for the
//! debounce interval. Times are milliseconds on a monotonic clock.

use vstd::prelude::*;
use crate::types::ButtonState;

verus! {

/// Time a raw state must hold before it is taken over, in milliseconds.
pub const BUTTON_DEBOUNCE_MS: u64 = 20;

/// Per-key debouncing state.
pub struct ButtonDebouncer {
    current: [bool; 32],
    raw: [bool; 32],
    last_change: [u64; 32],
}

impl ButtonDebouncer {
    pub closed spec fn current(&self) -> Seq<bool> {
        self.current@
    }

    pub closed spec fn raw(&self) -> Seq<bool> {
        self.raw@
    }

    pub closed spec fn last_change(&self) -> Seq<u64> {
        self.last_change@
    }

    /// Every key released, as last seen at `now_ms`.
    pub fn new(now_ms: u64) -> (r: Self)
        ensures
            r.wf(),
            forall|i: int| 0 <= i < 32 ==> !r.current()[i] && !r.raw()[i] && r.last_change()[i] == now_ms,
    {
        ButtonDebouncer { current: [false; 32], raw: [false; 32], last_change: [now_ms; 32] }
    }

    /// Feeds the raw state of `key` read at `now_ms`; returns whether its
    /// debounced state changed.
    pub fn update(&mut self, key: usize, raw_state: bool, now_ms: u64) -> (r: bool)
        requires
            key < 32,
        ensures
            ({
                let k = key as int;
                let since = if raw_state != old(self).raw()[k] {
                    now_ms
                } else {
                    old(self).last_change()[k]
                };
                let settled = since <= now_ms && now_ms - since >= BUTTON_DEBOUNCE_MS;
                &&& final(self).raw() == old(self).raw().update(k, raw_state)
                &&& final(self).last_change() == old(self).last_change().update(k, since)
                &&& final(self).current() == if settled {
                    old(self).current().update(k, raw_state)
                } else {
                    old(self).current()
                }
                &&& r == (settled && old(self).current()[k] != raw_state)
            }),
    {
        if raw_state != self.raw[key] {
            self.raw[key] = raw_state;
            self.last_change[key] = now_ms;
        }
        let since = self.last_change[key];
        if since <= now_ms && now_ms - since >= BUTTON_DEBOUNCE_MS {
            let changed = self.current[key] != raw_state;
            self.current[key] = raw_state;
            changed
        } else {
            false
        }
    }

    /// Debounced state of `key`.
    pub fn get_state(&self, key: usize) -> (r: bool)
        requires
            key < 32,
        ensures
            r == self.current()[key as int],
    {
        self.current[key]
    }

    /// Time from which the raw state of `key` counts as held, once `raw`
    /// has been read at `now_ms`.
    pub open spec fn held_since(&self, key: int, raw: bool, now_ms: u64) -> u64 {
        if raw != self.raw()[key] {
            now_ms
        } else {
            self.last_change()[key]
        }
    }

    /// Whether reading `raw` for `key` at `now_ms` settles the key.
    pub open spec fn settles(&self, key: int, raw: bool, now_ms: u64) -> bool {
        let since = self.held_since(key, raw, now_ms);
        since <= now_ms && now_ms - since >= BUTTON_DEBOUNCE_MS
    }

    /// Whether reading `raw` for `key` at `now_ms` changes its debounced
    /// state.
    pub open spec fn changes(&self, key: int, raw: bool, now_ms: u64) -> bool {
        self.settles(key, raw, now_ms) && self.current()[key] != raw
    }

    pub open spec fn wf(&self) -> bool {
        self.current().len() == 32 && self.raw().len() == 32 && self.last_change().len() == 32
    }

    /// Feeds one scan of the first `active_keys` keys read at `now_ms`.
    /// Returns the debounced state of every active key, marked changed,
    /// when some key's debounced state changed, and `None` otherwise.
    pub fn scan_step(&mut self, raw_states: &[bool; 32], active_keys: usize, now_ms: u64) -> (r: Option<ButtonState>)
        requires
            active_keys <= 32,
            old(self).wf(),
        ensures
            final(self).wf(),
            forall|k: int| 0 <= k < 32 ==> #[trigger] key_scanned(*old(self), *final(self), raw_states@, now_ms, active_keys as int, k),
            r is Some <==> exists|k: int| 0 <= k < active_keys && #[trigger] old(self).changes(k, raw_states@[k], now_ms),
            r matches Some(st) ==> {
                &&& st.changed
                &&& st.active_count == active_keys
                &&& forall|k: int| 0 <= k < 32 ==> #[trigger] st.buttons@[k] == (k < active_keys && final(self).current()[k])
            },
    {
        let mut changed = false;
        let mut buttons = [false; 32];
        let mut i: usize = 0;
        while i < active_keys
            invariant
                i <= active_keys <= 32,
                self.wf(),
                buttons@.len() == 32,
                forall|k: int| 0 <= k < 32 ==> #[trigger] key_scanned(*old(self), *self, raw_states@, now_ms, i as int, k),
                forall|k: int| 0 <= k < 32 ==> #[trigger] buttons@[k] == (k < i && self.current()[k]),
                changed <==> exists|k: int| 0 <= k < i && #[trigger] old(self).changes(k, raw_states@[k], now_ms),
            decreases active_keys - i,
        {
            let ghost pre = *self;
            proof {
                assert(key_scanned(*old(self), pre, raw_states@, now_ms, i as int, i as int));
            }
            let c = self.update(i, raw_states[i], now_ms);
            if c {
                changed = true;
            }
            buttons[i] = self.get_state(i);
            proof {
                assert forall|k: int| 0 <= k < 32 implies #[trigger] key_scanned(*old(self), *self, raw_states@, now_ms, i + 1, k) by {
                    assert(key_scanned(*old(self), pre, raw_states@, now_ms, i as int, k));
                }
                assert forall|k: int| 0 <= k < 32 implies #[trigger] buttons@[k] == (k < i + 1 && self.current()[k]) by {
                    assert(key_scanned(*old(self), pre, raw_states@, now_ms, i as int, k));
                }
                if c {
                    assert(old(self).changes(i as int, raw_states@[i as int], now_ms));
                }
                if changed {
                    if !c {
                        let k = choose|k: int| 0 <= k < i && #[trigger] old(self).changes(k, raw_states@[k], now_ms);
                        assert(0 <= k < i + 1 && old(self).changes(k, raw_states@[k], now_ms));
                    }
                } else {
                    assert forall|k: int| 0 <= k < i + 1 implies !#[trigger] old(self).changes(k, raw_states@[k], now_ms) by {
                        if k == i {
                            assert(!c);
                        }
                    }
                }
            }
            i = i + 1;
        }
        if changed {
            Some(ButtonState { buttons, changed: true, active_count: active_keys })
        } else {
            None
        }
    }
}

/// Key `k` after the first `n` keys of a scan: keys already fed hold the
/// raw state read, the time it is held since, and the debounced state it
/// settled to; the others are as before.
pub open spec fn key_scanned(
    prev: ButtonDebouncer,
    cur: ButtonDebouncer,
    raw: Seq<bool>,
    now_ms: u64,
    n: int,
    k: int,
) -> bool {
    if k < n {
        &&& cur.raw()[k] == raw[k]
        &&& cur.last_change()[k] == prev.held_since(k, raw[k], now_ms)
        &&& cur.current()[k] == if prev.settles(k, raw[k], now_ms) {
            raw[k]
        } else {
            prev.current()[k]
        }
    } else {
        &&& cur.raw()[k] == prev.raw()[k]
        &&& cur.last_change()[k] == prev.last_change()[k]
        &&& cur.current()[k] == prev.current()[k]
    }
}

} // verus!
