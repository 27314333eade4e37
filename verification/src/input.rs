//! Input normalizer: turns a stream of raw key/mouse signals into a queue of
//! logical events (key-down, key-up, synthetic key-press, mouse) for one
//! frame, keeping a key-state table of which codes are currently held.

use vstd::prelude::*;

verus! {

/// Key code that denotes a printable-character key; only signals with this
/// code carry a printable character into the events derived from them.
pub const CODE_CHAR: u16 = 65;

/// Key code of the Enter key.
pub const CODE_ENTER: u16 = 4;

/// Key code of the Up arrow key.
pub const CODE_UP: u16 = 14;

/// Key code of the Left arrow key.
pub const CODE_LEFT: u16 = 15;

/// Key code of the Right arrow key.
pub const CODE_RIGHT: u16 = 16;

/// Key code of the Down arrow key.
pub const CODE_DOWN: u16 = 17;

/// Modifier flags captured from a raw key signal.
#[derive(Debug, Clone, Copy, PartialEq, Eq, Structural)]
pub struct Modifiers {
    pub shift: bool,
    pub alt: bool,
    pub ctrl: bool,
}

/// A logical input event for one frame. `KeyPress` is synthetic and
/// edge-triggered: it marks a completed "tap", never a raw level signal.
#[derive(Debug, Clone, PartialEq, Eq)]
pub enum Event {
    KeyPress(u16, Option<char>, Modifiers),
    KeyDown(u16, Option<char>, Modifiers),
    KeyUp(u16, Option<char>, Modifiers),
    Mouse,
}

/// One raw key signal as the signal source reports it.
#[derive(Debug, Clone, Copy, PartialEq, Eq, Structural)]
pub struct RawKey {
    pub code: u16,
    pub printable: char,
    pub pressed: bool,
    pub shift: bool,
    pub alt: bool,
    pub ctrl: bool,
}

/// One raw signal: a key signal, or an opaque mouse signal.
#[derive(Debug, Clone, Copy, PartialEq, Eq)]
pub enum RawSignal {
    Key(RawKey),
    Mouse,
}

/// The printable character a raw key signal contributes to its events.
pub open spec fn key_char(k: RawKey) -> Option<char> {
    if k.code == CODE_CHAR {
        Some(k.printable)
    } else {
        None
    }
}

/// The modifier flags a raw key signal contributes to its events.
pub open spec fn key_modifiers(k: RawKey) -> Modifiers {
    Modifiers { shift: k.shift, alt: k.alt, ctrl: k.ctrl }
}

/// Events one raw signal yields, given the set of codes held before it:
/// a repeated press (code already held) yields KeyDown then KeyPress, a
/// first press yields only KeyDown, a release yields KeyUp then KeyPress,
/// and a mouse signal yields one opaque Mouse event.
pub open spec fn signal_events(held: Set<u16>, s: RawSignal) -> Seq<Event> {
    match s {
        RawSignal::Key(k) => {
            let c = key_char(k);
            let m = key_modifiers(k);
            if k.pressed {
                if held.contains(k.code) {
                    seq![Event::KeyDown(k.code, c, m), Event::KeyPress(k.code, c, m)]
                } else {
                    seq![Event::KeyDown(k.code, c, m)]
                }
            } else {
                seq![Event::KeyUp(k.code, c, m), Event::KeyPress(k.code, c, m)]
            }
        },
        RawSignal::Mouse => seq![Event::Mouse],
    }
}

/// The set of held codes after one raw signal: a press marks the code held,
/// a release removes it (idempotent if absent), a mouse signal changes nothing.
pub open spec fn held_after_signal(held: Set<u16>, s: RawSignal) -> Set<u16> {
    match s {
        RawSignal::Key(k) => if k.pressed {
            held.insert(k.code)
        } else {
            held.remove(k.code)
        },
        RawSignal::Mouse => held,
    }
}

/// Events a whole sequence of raw signals yields, in signal order; the
/// events of each signal appear contiguously, a synthetic KeyPress
/// immediately after the KeyDown/KeyUp that triggered it.
pub open spec fn events_of(held: Set<u16>, signals: Seq<RawSignal>) -> Seq<Event>
    decreases signals.len(),
{
    if signals.len() == 0 {
        Seq::empty()
    } else {
        signal_events(held, signals[0]) + events_of(
            held_after_signal(held, signals[0]),
            signals.skip(1),
        )
    }
}

/// The set of held codes after a whole sequence of raw signals.
pub open spec fn held_after(held: Set<u16>, signals: Seq<RawSignal>) -> Set<u16>
    decreases signals.len(),
{
    if signals.len() == 0 {
        held
    } else {
        held_after(held_after_signal(held, signals[0]), signals.skip(1))
    }
}

/// The input normalizer. Owns the key-state table: a code is recorded if and
/// only if the corresponding physical key is currently down.
pub struct Input {
    key_states: Vec<u16>,
}

impl Input {
    /// The key-state table holds each code at most once.
    pub closed spec fn wf(&self) -> bool {
        forall|i: int, j: int|
            0 <= i < j < self.key_states@.len() ==> self.key_states@[i] != self.key_states@[j]
    }

    /// The set of key codes currently held.
    pub closed spec fn held(&self) -> Set<u16> {
        Set::new(|c: u16| self.key_states@.contains(c))
    }

    pub fn new() -> (r: Input)
        ensures
            r.wf(),
            r.held() == Set::<u16>::empty(),
    {
        let r = Input { key_states: Vec::new() };
        proof {
            assert(r.held() =~= Set::<u16>::empty());
        }
        r
    }

    /// Whether `code` is currently recorded as held.
    fn is_held(&self, code: u16) -> (r: bool)
        ensures
            r == self.held().contains(code),
    {
        let n = self.key_states.len();
        let mut i: usize = 0;
        while i < n
            invariant
                n == self.key_states@.len(),
                0 <= i <= n,
                forall|j: int| 0 <= j < i ==> self.key_states@[j] != code,
            decreases n - i,
        {
            if self.key_states[i] == code {
                return true;
            }
            i += 1;
        }
        false
    }

    /// Record `code` as held (no change if it already is).
    fn set_held(&mut self, code: u16)
        requires
            old(self).wf(),
        ensures
            final(self).wf(),
            final(self).held() == old(self).held().insert(code),
    {
        if !self.is_held(code) {
            self.key_states.push(code);
            proof {
                assert forall|a: int, b: int|
                    0 <= a < b < self.key_states@.len() implies self.key_states@[a]
                    != self.key_states@[b] by {
                    if b == self.key_states@.len() - 1 {
                        assert(self.key_states@[a] == old(self).key_states@[a]);
                    }
                }
                assert forall|c: u16| #[trigger] self.held().contains(c)
                    <==> old(self).held().insert(code).contains(c) by {
                    if self.key_states@.contains(c) {
                        let j = choose|j: int|
                            0 <= j < self.key_states@.len() && self.key_states@[j] == c;
                        if j < old(self).key_states@.len() {
                            assert(old(self).key_states@[j] == c);
                        }
                    }
                    if old(self).key_states@.contains(c) {
                        let j = choose|j: int|
                            0 <= j < old(self).key_states@.len() && old(self).key_states@[j] == c;
                        assert(self.key_states@[j] == c);
                    }
                    assert(self.key_states@[self.key_states@.len() - 1] == code);
                }
                assert(self.held() =~= old(self).held().insert(code));
            }
        } else {
            proof {
                assert(self.held() =~= old(self).held().insert(code));
            }
        }
    }

    /// Remove `code` from the key-state table (no change if absent).
    fn clear_held(&mut self, code: u16)
        requires
            old(self).wf(),
        ensures
            final(self).wf(),
            final(self).held() == old(self).held().remove(code),
    {
        let n = self.key_states.len();
        let mut i: usize = 0;
        while i < n
            invariant
                n == self.key_states@.len(),
                0 <= i <= n,
                forall|j: int| 0 <= j < i ==> self.key_states@[j] != code,
                self.wf(),
                self == old(self),
            decreases n - i,
        {
            if self.key_states[i] == code {
                self.key_states.remove(i);
                proof {
                    assert forall|a: int, b: int|
                        0 <= a < b < self.key_states@.len() implies self.key_states@[a]
                        != self.key_states@[b] by {
                        if b < i {
                        } else if a < i {
                            assert(self.key_states@[b] == old(self).key_states@[b + 1]);
                        } else {
                            assert(self.key_states@[a] == old(self).key_states@[a + 1]);
                            assert(self.key_states@[b] == old(self).key_states@[b + 1]);
                        }
                    }
                    assert forall|c: u16| self.held().contains(c) <==> old(self).held().remove(
                        code,
                    ).contains(c) by {
                        if self.key_states@.contains(c) {
                            let j = choose|j: int|
                                0 <= j < self.key_states@.len() && self.key_states@[j] == c;
                            if j < i {
                                assert(old(self).key_states@[j] == c);
                            } else {
                                assert(old(self).key_states@[j + 1] == c);
                            }
                        }
                        if old(self).held().remove(code).contains(c) {
                            let j = choose|j: int|
                                0 <= j < old(self).key_states@.len() && old(self).key_states@[j]
                                    == c;
                            assert(j != i);
                            if j < i {
                                assert(self.key_states@[j] == c);
                            } else {
                                assert(self.key_states@[j - 1] == c);
                            }
                        }
                    }
                    assert(self.held() =~= old(self).held().remove(code));
                }
                return ;
            }
            i += 1;
        }
        proof {
            assert(!self.key_states@.contains(code));
            assert(self.held() =~= old(self).held().remove(code));
        }
    }

    /// Edge detector for one KeyDown/KeyUp event. Returns the synthetic
    /// KeyPress the event completes, if any, and updates the key-state table.
    /// Calling it with a KeyPress or Mouse event would be an invariant
    /// violation; that input is excluded outright.
    fn detect_keypress(&mut self, e: &Event) -> (r: Option<Event>)
        requires
            old(self).wf(),
            e is KeyDown || e is KeyUp,
        ensures
            final(self).wf(),
            ({
                match e {
                    Event::KeyDown(code, ch, m) => if old(self).held().contains(*code) {
                        r == Some(Event::KeyPress(*code, *ch, *m)) && final(self).held() == old(
                            self,
                        ).held().insert(*code)
                    } else {
                        r is None && final(self).held() == old(self).held().insert(*code)
                    },
                    Event::KeyUp(code, ch, m) => r == Some(Event::KeyPress(*code, *ch, *m))
                        && final(self).held() == old(self).held().remove(*code),
                    _ => false,
                }
            }),
    {
        match e {
            Event::KeyDown(code, character, modifiers) => {
                let was_held = self.is_held(*code);
                self.set_held(*code);
                if was_held {
                    Some(Event::KeyPress(*code, *character, modifiers.clone()))
                } else {
                    None
                }
            },
            Event::KeyUp(code, character, modifiers) => {
                self.clear_held(*code);
                Some(Event::KeyPress(*code, *character, modifiers.clone()))
            },
            _ => {
                proof {
                    assert(false);
                }
                None
            },
        }
    }

    /// Normalize one frame's raw signals into logical events, in signal
    /// order, updating the key-state table as each signal is absorbed.
    pub fn events(&mut self, signals: &Vec<RawSignal>) -> (r: Vec<Event>)
        requires
            old(self).wf(),
        ensures
            final(self).wf(),
            r@ == events_of(old(self).held(), signals@),
            final(self).held() == held_after(old(self).held(), signals@),
    {
        let mut r: Vec<Event> = Vec::new();
        let n = signals.len();
        let mut i: usize = 0;
        proof {
            assert(signals@.take(0) =~= Seq::<RawSignal>::empty());
        }
        while i < n
            invariant
                old(self).wf(),
                self.wf(),
                n == signals@.len(),
                0 <= i <= n,
                r@ == events_of(old(self).held(), signals@.take(i as int)),
                self.held() == held_after(old(self).held(), signals@.take(i as int)),
            decreases n - i,
        {
            let ghost held_before = self.held();
            let ghost prefix = signals@.take(i as int);
            match &signals[i] {
                RawSignal::Key(k) => {
                    let modifiers = Modifiers { shift: k.shift, alt: k.alt, ctrl: k.ctrl };
                    let character: Option<char> = if k.code == CODE_CHAR {
                        Some(k.printable)
                    } else {
                        None
                    };
                    let e = if k.pressed {
                        Event::KeyDown(k.code, character, modifiers)
                    } else {
                        Event::KeyUp(k.code, character, modifiers)
                    };
                    let e2_option = self.detect_keypress(&e);
                    r.push(e);
                    match e2_option {
                        Some(e2) => r.push(e2),
                        None => (),
                    }
                },
                RawSignal::Mouse => {
                    r.push(Event::Mouse);
                },
            }
            proof {
                assert(r@ =~= events_of(old(self).held(), prefix) + signal_events(
                    held_before,
                    signals@[i as int],
                ));
                assert(self.held() == held_after_signal(held_before, signals@[i as int]));
                lemma_events_of_snoc(old(self).held(), signals@, i as int);
            }
            i += 1;
        }
        proof {
            assert(signals@.take(n as int) =~= signals@);
        }
        r
    }
}

proof fn lemma_events_of_empty(h: Set<u16>)
    ensures
        events_of(h, Seq::<RawSignal>::empty()) == Seq::<Event>::empty(),
        held_after(h, Seq::<RawSignal>::empty()) == h,
{
}

proof fn lemma_events_of_one(h: Set<u16>, s: RawSignal)
    ensures
        events_of(h, seq![s]) == signal_events(h, s),
        held_after(h, seq![s]) == held_after_signal(h, s),
{
    assert(seq![s][0] == s);
    assert(seq![s].skip(1) =~= Seq::<RawSignal>::empty());
    lemma_events_of_empty(held_after_signal(h, s));
    assert(events_of(h, seq![s]) =~= signal_events(h, s));
}

/// Extending a signal sequence by one more signal appends that signal's
/// events and applies its key-state change.
proof fn lemma_events_of_snoc(held: Set<u16>, signals: Seq<RawSignal>, i: int)
    requires
        0 <= i < signals.len(),
    ensures
        events_of(held, signals.take(i + 1)) == events_of(held, signals.take(i)) + signal_events(
            held_after(held, signals.take(i)),
            signals[i],
        ),
        held_after(held, signals.take(i + 1)) == held_after_signal(
            held_after(held, signals.take(i)),
            signals[i],
        ),
    decreases i,
{
    let a = signals.take(i + 1);
    let b = signals.take(i);
    if i == 0 {
        assert(b =~= Seq::<RawSignal>::empty());
        assert(a =~= seq![signals[0]]);
        lemma_events_of_empty(held);
        lemma_events_of_one(held, signals[0]);
        assert(events_of(held, a) =~= events_of(held, b) + signal_events(
            held_after(held, b),
            signals[0],
        ));
    } else {
        let h1 = held_after_signal(held, signals[0]);
        lemma_events_of_snoc(h1, signals.skip(1), i - 1);
        assert(a.skip(1) =~= signals.skip(1).take(i));
        assert(b.skip(1) =~= signals.skip(1).take(i - 1));
        assert(signals.skip(1)[i - 1] == signals[i]);
        assert(a[0] == signals[0] && b[0] == signals[0]);
        assert(events_of(held, a) == signal_events(held, signals[0]) + events_of(
            h1,
            signals.skip(1).take(i),
        ));
        assert(events_of(held, b) == signal_events(held, signals[0]) + events_of(
            h1,
            signals.skip(1).take(i - 1),
        ));
        assert(events_of(held, a) =~= events_of(held, b) + signal_events(
            held_after(held, b),
            signals[i],
        ));
        assert(held_after(held, a) == held_after(h1, signals.skip(1).take(i)));
        assert(held_after(held, b) == held_after(h1, signals.skip(1).take(i - 1)));
    }
}

/// A raw press for a code that is already held (a repeated press with no
/// intervening release) yields KeyDown then KeyPress; a first press yields
/// only KeyDown.
pub proof fn lemma_repeat_press_edge(held: Set<u16>, k1: RawKey, k2: RawKey)
    requires
        k1.pressed,
        k2.pressed,
        k1.code == k2.code,
    ensures
        events_of(held, seq![RawSignal::Key(k1), RawSignal::Key(k2)]) == events_of(
            held,
            seq![RawSignal::Key(k1)],
        ) + seq![
            Event::KeyDown(k2.code, key_char(k2), key_modifiers(k2)),
            Event::KeyPress(k2.code, key_char(k2), key_modifiers(k2)),
        ],
        !held.contains(k1.code) ==> events_of(held, seq![RawSignal::Key(k1)]) == seq![
            Event::KeyDown(k1.code, key_char(k1), key_modifiers(k1)),
        ],
{
    let two = seq![RawSignal::Key(k1), RawSignal::Key(k2)];
    let one = seq![RawSignal::Key(k1)];
    let h1 = held_after_signal(held, RawSignal::Key(k1));
    assert(h1.contains(k2.code));
    assert(two[0] == RawSignal::Key(k1) && two.len() == 2);
    assert(two.skip(1) =~= seq![RawSignal::Key(k2)]);
    lemma_events_of_one(held, RawSignal::Key(k1));
    lemma_events_of_one(h1, RawSignal::Key(k2));
    assert(signal_events(h1, RawSignal::Key(k2)) == seq![
        Event::KeyDown(k2.code, key_char(k2), key_modifiers(k2)),
        Event::KeyPress(k2.code, key_char(k2), key_modifiers(k2)),
    ]);
    assert(events_of(held, two) == signal_events(held, RawSignal::Key(k1)) + events_of(
        h1,
        two.skip(1),
    ));
    assert(events_of(held, two) =~= events_of(held, one) + seq![
        Event::KeyDown(k2.code, key_char(k2), key_modifiers(k2)),
        Event::KeyPress(k2.code, key_char(k2), key_modifiers(k2)),
    ]);
    if !held.contains(k1.code) {
        assert(events_of(held, one) =~= seq![
            Event::KeyDown(k1.code, key_char(k1), key_modifiers(k1)),
        ]);
    }
}

/// A raw release yields KeyUp then KeyPress, and afterwards the key-state
/// table no longer holds that code, whatever its prior state was.
pub proof fn lemma_release_edge(held: Set<u16>, k: RawKey)
    requires
        !k.pressed,
    ensures
        signal_events(held, RawSignal::Key(k)) == seq![
            Event::KeyUp(k.code, key_char(k), key_modifiers(k)),
            Event::KeyPress(k.code, key_char(k), key_modifiers(k)),
        ],
        !held_after_signal(held, RawSignal::Key(k)).contains(k.code),
{
}

} // verus!
