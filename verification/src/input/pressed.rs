//! The keys and buttons that are held down.

use crate::input::{InputEvent, MouseButton};
use crate::text::same_text;
use vstd::prelude::*;

verus! {

/// `held` and `item`, which comes last unless it is there already.
pub open spec fn with<T>(held: Seq<T>, item: T) -> Seq<T> {
    if held.contains(item) {
        held
    } else {
        held.push(item)
    }
}

/// `held` without `item`.
pub open spec fn without<T>(held: Seq<T>, item: T) -> Seq<T> {
    if held.contains(item) {
        held.remove(held.index_of(item))
    } else {
        held
    }
}

/// The keys that are held after `event`, in the order in which they went down.
pub open spec fn keys_after(keys: Seq<Seq<char>>, event: InputEvent) -> Seq<Seq<char>> {
    match event {
        InputEvent::KDown { code } => with(keys, code@),
        InputEvent::KUp { code } => without(keys, code@),
        _ => keys,
    }
}

/// The buttons that are held after `event`, in the order in which they went
/// down.
pub open spec fn buttons_after(buttons: Seq<MouseButton>, event: InputEvent) -> Seq<MouseButton> {
    match event {
        InputEvent::MDown { button } => with(buttons, button),
        InputEvent::MUp { button } => without(buttons, button),
        _ => buttons,
    }
}

/// `event` is the release of the key `code`.
pub open spec fn releases_key(event: InputEvent, code: Seq<char>) -> bool {
    event matches InputEvent::KUp { code: c } && c@ == code
}

/// `events` release each of `keys`, then each of `buttons`.
pub open spec fn are_releases(
    events: Seq<InputEvent>,
    keys: Seq<Seq<char>>,
    buttons: Seq<MouseButton>,
) -> bool {
    &&& events.len() == keys.len() + buttons.len()
    &&& forall|i: int| 0 <= i < keys.len() ==> releases_key(#[trigger] events[i], keys[i])
    &&& forall|i: int|
        keys.len() <= i < events.len() ==> #[trigger] events[i] == (InputEvent::MUp {
            button: buttons[i - keys.len()],
        })
}

proof fn lemma_with<T>(held: Seq<T>, item: T)
    requires
        held.no_duplicates(),
    ensures
        with(held, item).no_duplicates(),
        forall|x: T| with(held, item).contains(x) <==> held.contains(x) || x == item,
{
    let after = with(held, item);
    if !held.contains(item) {
        assert forall|x: T| after.contains(x) <==> held.contains(x) || x == item by {
            if held.contains(x) {
                let i = held.index_of(x);
                assert(after[i] == x);
            }
            assert(after[held.len() as int] == item);
            if after.contains(x) {
                let i = after.index_of(x);
                if i < held.len() {
                    assert(held[i] == x);
                }
            }
        }
        assert forall|i: int, j: int|
            0 <= i < after.len() && 0 <= j < after.len() && i != j implies after[i] != after[j] by {
            if i == held.len() {
                assert(held[j] != item);
            } else if j == held.len() {
                assert(held[i] != item);
            }
        }
    }
}

proof fn lemma_without<T>(held: Seq<T>, item: T)
    requires
        held.no_duplicates(),
    ensures
        without(held, item).no_duplicates(),
        forall|x: T| without(held, item).contains(x) <==> held.contains(x) && x != item,
{
    if held.contains(item) {
        let at = held.index_of(item);
        let after = held.remove(at);
        assert(held[at] == item);
        assert forall|x: T| after.contains(x) <==> held.contains(x) && x != item by {
            if held.contains(x) && x != item {
                let i = held.index_of(x);
                assert(held[i] == x);
                if i < at {
                    assert(after[i] == x);
                } else {
                    assert(after[i - 1] == x);
                }
            }
            if after.contains(x) {
                let i = after.index_of(x);
                assert(after[i] == x);
                if i < at {
                    assert(held[i] == x);
                } else {
                    assert(held[i + 1] == x);
                }
            }
        }
    }
}

/// Tracks which keys and buttons are pressed, so that they can be released when
/// the other side goes away while it holds them: a modifier or a button would
/// stick otherwise.
pub struct PressedState {
    keys: Vec<String>,
    buttons: Vec<MouseButton>,
}

impl PressedState {
    /// The codes of the held keys, in the order in which they went down.
    pub closed spec fn held_keys(&self) -> Seq<Seq<char>> {
        self.keys@.map_values(|code: String| code@)
    }

    /// The held buttons, in the order in which they went down.
    pub closed spec fn held_buttons(&self) -> Seq<MouseButton> {
        self.buttons@
    }

    /// Nothing is held twice.
    pub open spec fn well_formed(&self) -> bool {
        self.held_keys().no_duplicates() && self.held_buttons().no_duplicates()
    }

    /// At the start nothing is held.
    pub fn new() -> (s: PressedState)
        ensures
            s.well_formed(),
            s.held_keys() == Seq::<Seq<char>>::empty(),
            s.held_buttons() == Seq::<MouseButton>::empty(),
    {
        let s: PressedState = PressedState { keys: Vec::new(), buttons: Vec::new() };
        assert(s.held_keys() =~= Seq::<Seq<char>>::empty());
        s
    }

    fn find_key(&self, code: &str) -> (at: Option<usize>)
        ensures
            match at {
                Some(i) => i < self.held_keys().len() && self.held_keys()[i as int] == code@,
                None => !self.held_keys().contains(code@),
            },
    {
        let mut i: usize = 0;
        while i < self.keys.len()
            invariant
                i <= self.keys@.len(),
                forall|j: int| 0 <= j < i ==> self.held_keys()[j] != code@,
            decreases self.keys@.len() - i,
        {
            if same_text(self.keys[i].as_str(), code) {
                return Some(i);
            }
            i += 1;
        }
        None
    }

    fn find_button(&self, button: MouseButton) -> (at: Option<usize>)
        ensures
            match at {
                Some(i) => i < self.held_buttons().len() && self.held_buttons()[i as int] == button,
                None => !self.held_buttons().contains(button),
            },
    {
        let mut i: usize = 0;
        while i < self.buttons.len()
            invariant
                i <= self.buttons@.len(),
                forall|j: int| 0 <= j < i ==> self.held_buttons()[j] != button,
            decreases self.buttons@.len() - i,
        {
            if self.buttons[i] == button {
                return Some(i);
            }
            i += 1;
        }
        None
    }

    /// Take note of an event.
    pub fn apply(&mut self, ev: &InputEvent)
        requires
            old(self).well_formed(),
        ensures
            final(self).well_formed(),
            final(self).held_keys() == keys_after(old(self).held_keys(), *ev),
            final(self).held_buttons() == buttons_after(old(self).held_buttons(), *ev),
    {
        let ghost keys = self.held_keys();
        let ghost buttons = self.held_buttons();
        match ev {
            InputEvent::KDown { code } => {
                proof {
                    lemma_with(keys, code@);
                }
                if self.find_key(code.as_str()).is_none() {
                    self.keys.push(code.clone());
                    assert(self.held_keys() =~= keys.push(code@));
                }
            },
            InputEvent::KUp { code } => {
                proof {
                    lemma_without(keys, code@);
                }
                if let Some(at) = self.find_key(code.as_str()) {
                    let _ = self.keys.remove(at);
                    assert(keys.index_of(code@) == at);
                    assert(self.held_keys() =~= keys.remove(at as int));
                }
            },
            InputEvent::MDown { button } => {
                proof {
                    lemma_with(buttons, *button);
                }
                if self.find_button(*button).is_none() {
                    self.buttons.push(*button);
                }
            },
            InputEvent::MUp { button } => {
                proof {
                    lemma_without(buttons, *button);
                }
                if let Some(at) = self.find_button(*button) {
                    let _ = self.buttons.remove(at);
                    assert(buttons.index_of(*button) == at);
                }
            },
            _ => {},
        }
    }

    /// The events that release whatever is held.
    pub fn pending_releases(&self) -> (out: Vec<InputEvent>)
        ensures
            are_releases(out@, self.held_keys(), self.held_buttons()),
    {
        let mut out: Vec<InputEvent> = Vec::new();
        let mut i: usize = 0;
        while i < self.keys.len()
            invariant
                i <= self.keys@.len(),
                are_releases(out@, self.held_keys().take(i as int), Seq::empty()),
            decreases self.keys@.len() - i,
        {
            out.push(InputEvent::KUp { code: self.keys[i].clone() });
            i += 1;
        }
        assert(self.held_keys().take(i as int) =~= self.held_keys());
        let mut j: usize = 0;
        while j < self.buttons.len()
            invariant
                j <= self.buttons@.len(),
                are_releases(out@, self.held_keys(), self.held_buttons().take(j as int)),
            decreases self.buttons@.len() - j,
        {
            out.push(InputEvent::MUp { button: self.buttons[j] });
            j += 1;
        }
        assert(self.held_buttons().take(j as int) =~= self.held_buttons());
        out
    }
}

impl Default for PressedState {
    fn default() -> (s: PressedState)
        ensures
            s.well_formed(),
            s.held_keys() == Seq::<Seq<char>>::empty(),
            s.held_buttons() == Seq::<MouseButton>::empty(),
    {
        PressedState::new()
    }
}

/// The keys that are held after `events`, when `keys` were held before.
pub open spec fn keys_after_all(keys: Seq<Seq<char>>, events: Seq<InputEvent>) -> Seq<Seq<char>>
    decreases events.len(),
{
    if events.len() == 0 {
        keys
    } else {
        keys_after(keys_after_all(keys, events.drop_last()), events.last())
    }
}

/// The buttons that are held after `events`, when `buttons` were held before.
pub open spec fn buttons_after_all(
    buttons: Seq<MouseButton>,
    events: Seq<InputEvent>,
) -> Seq<MouseButton>
    decreases events.len(),
{
    if events.len() == 0 {
        buttons
    } else {
        buttons_after(buttons_after_all(buttons, events.drop_last()), events.last())
    }
}

/// `event` is the press of the key `code`.
pub open spec fn presses_key(event: InputEvent, code: Seq<char>) -> bool {
    event matches InputEvent::KDown { code: c } && c@ == code
}

/// The key `code` went down in `events` and has not come up since.
pub open spec fn key_left_down(events: Seq<InputEvent>, code: Seq<char>) -> bool {
    exists|i: int|
        0 <= i < events.len() && presses_key(#[trigger] events[i], code) && forall|j: int|
            i < j < events.len() ==> !releases_key(#[trigger] events[j], code)
}

/// The button went down in `events` and has not come up since.
pub open spec fn button_left_down(events: Seq<InputEvent>, button: MouseButton) -> bool {
    exists|i: int|
        0 <= i < events.len() && #[trigger] events[i] == (InputEvent::MDown { button })
            && forall|j: int|
            i < j < events.len() ==> #[trigger] events[j] != (InputEvent::MUp { button })
}

/// The keys that are held are those that went down and have not come up since.
pub proof fn law_held_keys(events: Seq<InputEvent>, code: Seq<char>)
    ensures
        keys_after_all(Seq::empty(), events).no_duplicates(),
        keys_after_all(Seq::empty(), events).contains(code) <==> key_left_down(events, code),
    decreases events.len(),
{
    if events.len() > 0 {
        let before = events.drop_last();
        let last = events.len() - 1;
        let held = keys_after_all(Seq::empty(), before);
        law_held_keys(before, code);
        match events[last] {
            InputEvent::KDown { code: c } => lemma_with(held, c@),
            InputEvent::KUp { code: c } => lemma_without(held, c@),
            _ => {},
        }
        if presses_key(events[last], code) {
            assert(key_left_down(events, code));
        } else if releases_key(events[last], code) {
            assert(!key_left_down(events, code));
        } else {
            if key_left_down(before, code) {
                let i = choose|i: int|
                    0 <= i < before.len() && presses_key(#[trigger] before[i], code)
                        && forall|j: int|
                        i < j < before.len() ==> !releases_key(#[trigger] before[j], code);
                assert(presses_key(events[i], code));
                assert forall|j: int| i < j < events.len() implies !releases_key(
                    #[trigger] events[j],
                    code,
                ) by {
                    if j < last {
                        assert(!releases_key(before[j], code));
                    }
                }
            }
            if key_left_down(events, code) {
                let i = choose|i: int|
                    0 <= i < events.len() && presses_key(#[trigger] events[i], code)
                        && forall|j: int|
                        i < j < events.len() ==> !releases_key(#[trigger] events[j], code);
                assert(presses_key(before[i], code));
                assert forall|j: int| i < j < before.len() implies !releases_key(
                    #[trigger] before[j],
                    code,
                ) by {
                    assert(!releases_key(events[j], code));
                }
            }
        }
    }
}

/// The buttons that are held are those that went down and have not come up
/// since.
pub proof fn law_held_buttons(events: Seq<InputEvent>, button: MouseButton)
    ensures
        buttons_after_all(Seq::empty(), events).no_duplicates(),
        buttons_after_all(Seq::empty(), events).contains(button) <==> button_left_down(
            events,
            button,
        ),
    decreases events.len(),
{
    if events.len() > 0 {
        let before = events.drop_last();
        let last = events.len() - 1;
        let held = buttons_after_all(Seq::empty(), before);
        law_held_buttons(before, button);
        match events[last] {
            InputEvent::MDown { button: b } => lemma_with(held, b),
            InputEvent::MUp { button: b } => lemma_without(held, b),
            _ => {},
        }
        if events[last] == (InputEvent::MDown { button }) {
            assert(button_left_down(events, button));
        } else if events[last] == (InputEvent::MUp { button }) {
            assert(!button_left_down(events, button));
        } else {
            if button_left_down(before, button) {
                let i = choose|i: int|
                    0 <= i < before.len() && #[trigger] before[i] == (InputEvent::MDown { button })
                        && forall|j: int|
                        i < j < before.len() ==> #[trigger] before[j] != (InputEvent::MUp {
                            button,
                        });
                assert(events[i] == before[i]);
                assert forall|j: int| i < j < events.len() implies #[trigger] events[j] != (
                InputEvent::MUp { button }) by {
                    if j < last {
                        assert(before[j] == events[j]);
                    }
                }
            }
            if button_left_down(events, button) {
                let i = choose|i: int|
                    0 <= i < events.len() && #[trigger] events[i] == (InputEvent::MDown { button })
                        && forall|j: int|
                        i < j < events.len() ==> #[trigger] events[j] != (InputEvent::MUp {
                            button,
                        });
                assert(before[i] == events[i]);
                assert forall|j: int| i < j < before.len() implies #[trigger] before[j] != (
                InputEvent::MUp { button }) by {
                    assert(before[j] == events[j]);
                }
            }
        }
    }
}

/// After the pending releases nothing is held any more: no key and no button
/// sticks.
pub proof fn law_releases_leave_nothing_held(
    events: Seq<InputEvent>,
    keys: Seq<Seq<char>>,
    buttons: Seq<MouseButton>,
)
    requires
        keys.no_duplicates(),
        buttons.no_duplicates(),
        are_releases(events, keys, buttons),
    ensures
        keys_after_all(keys, events) == Seq::<Seq<char>>::empty(),
        buttons_after_all(buttons, events) == Seq::<MouseButton>::empty(),
{
    lemma_released_so_far(events, keys, buttons, events.len() as int);
    assert(events.take(events.len() as int) =~= events);
}

/// What is still held after the first `n` of the pending releases.
proof fn lemma_released_so_far(
    events: Seq<InputEvent>,
    keys: Seq<Seq<char>>,
    buttons: Seq<MouseButton>,
    n: int,
)
    requires
        0 <= n <= events.len(),
        keys.no_duplicates(),
        buttons.no_duplicates(),
        are_releases(events, keys, buttons),
    ensures
        keys_after_all(keys, events.take(n)) == if n < keys.len() {
            keys.skip(n)
        } else {
            Seq::empty()
        },
        buttons_after_all(buttons, events.take(n)) == if n < keys.len() {
            buttons
        } else {
            buttons.skip(n - keys.len())
        },
    decreases n,
{
    if n == 0 {
        assert(keys.skip(0) =~= keys);
        assert(buttons.skip(0) =~= buttons);
        assert(keys.len() == 0 ==> keys =~= Seq::<Seq<char>>::empty());
    } else {
        lemma_released_so_far(events, keys, buttons, n - 1);
        assert(events.take(n).drop_last() =~= events.take(n - 1));
        assert(events.take(n).last() == events[n - 1]);
        if n - 1 < keys.len() {
            assert(releases_key(events[n - 1], keys[n - 1]));
            let held = keys.skip(n - 1);
            assert(held[0] == keys[n - 1]);
            assert(held.contains(keys[n - 1]));
            assert(held.index_of(keys[n - 1]) == 0);
            assert(held.remove(0) =~= keys.skip(n));
            assert(n == keys.len() ==> keys.skip(n) =~= Seq::<Seq<char>>::empty());
            assert(buttons.skip(0) =~= buttons);
        } else {
            let k = n - 1 - keys.len();
            let held = buttons.skip(k);
            assert(held[0] == buttons[k]);
            assert(held.contains(buttons[k]));
            assert(held.index_of(buttons[k]) == 0);
            assert(held.remove(0) =~= buttons.skip(k + 1));
        }
    }
}

/// A key or button that goes down is held, and one that comes up is not; all
/// others stay as they were.
pub proof fn law_presses_and_releases(
    keys: Seq<Seq<char>>,
    buttons: Seq<MouseButton>,
    code: String,
    button: MouseButton,
    other_key: Seq<char>,
    other_button: MouseButton,
)
    requires
        keys.no_duplicates(),
        buttons.no_duplicates(),
        other_key != code@,
        other_button != button,
    ensures
        keys_after(keys, InputEvent::KDown { code }).contains(code@),
        !keys_after(keys, InputEvent::KUp { code }).contains(code@),
        keys_after(keys, InputEvent::KDown { code }).contains(other_key) == keys.contains(
            other_key,
        ),
        keys_after(keys, InputEvent::KUp { code }).contains(other_key) == keys.contains(other_key),
        buttons_after(buttons, InputEvent::MDown { button }).contains(button),
        !buttons_after(buttons, InputEvent::MUp { button }).contains(button),
        buttons_after(buttons, InputEvent::MDown { button }).contains(other_button)
            == buttons.contains(other_button),
        buttons_after(buttons, InputEvent::MUp { button }).contains(other_button)
            == buttons.contains(other_button),
        keys_after(keys, InputEvent::MDown { button }) == keys,
        keys_after(keys, InputEvent::MUp { button }) == keys,
        buttons_after(buttons, InputEvent::KDown { code }) == buttons,
        buttons_after(buttons, InputEvent::KUp { code }) == buttons,
{
    lemma_with(keys, code@);
    lemma_without(keys, code@);
    lemma_with(buttons, button);
    lemma_without(buttons, button);
}

/// Each held key and each held button is released, once, and nothing else
/// happens.
pub proof fn law_only_what_is_held_is_released(
    events: Seq<InputEvent>,
    keys: Seq<Seq<char>>,
    buttons: Seq<MouseButton>,
    i: int,
)
    requires
        are_releases(events, keys, buttons),
    ensures
        events.len() == keys.len() + buttons.len(),
        0 <= i < keys.len() ==> (events[i] matches InputEvent::KUp { code } && code@ == keys[i]),
        0 <= i < buttons.len() ==> events[keys.len() + i] == (InputEvent::MUp {
            button: buttons[i],
        }),
{
    if 0 <= i < keys.len() {
        assert(releases_key(events[i], keys[i]));
    }
}

} // verus!
