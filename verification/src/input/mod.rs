//! Mouse and keyboard events, and what is injected for them.

use crate::double::Double;
use crate::platform::Platform;
use vstd::arithmetic::power2::pow2;
use vstd::prelude::*;

pub mod key_laws;
pub mod keys;
pub mod pressed;

pub use crate::input::keys::{code_to_key, code_to_macos_keycode, Key};
pub use crate::input::pressed::PressedState;

verus! {

/// A mouse button of the browser.
#[derive(Clone, Copy, Debug, PartialEq, Eq, Hash, Structural)]
pub enum MouseButton {
    Left,
    Right,
    Middle,
}

/// An input event of the controlling side. Positions are shares of the
/// display, from 0 to 1; wheel deltas are in pixels.
#[derive(Debug, PartialEq, Eq)]
pub enum InputEvent {
    MMove { x: Double, y: Double },
    MDown { button: MouseButton },
    MUp { button: MouseButton },
    Wheel { dx: Double, dy: Double },
    KDown { code: String },
    KUp { code: String },
}

/// A mouse button of this machine.
#[derive(Clone, Copy, Debug, PartialEq, Eq, Structural)]
pub enum Button {
    Left,
    Right,
    Middle,
}

/// The button of this machine that stands for a button of the browser.
pub open spec fn button_for(b: MouseButton) -> Button {
    match b {
        MouseButton::Left => Button::Left,
        MouseButton::Right => Button::Right,
        MouseButton::Middle => Button::Middle,
    }
}

pub fn map_button(b: &MouseButton) -> (button: Button)
    ensures
        button == button_for(*b),
{
    match b {
        MouseButton::Left => Button::Left,
        MouseButton::Right => Button::Right,
        MouseButton::Middle => Button::Middle,
    }
}

/// The pixel at the share `x` of a side of `side` pixels: the nearest one that
/// is on the screen.
pub open spec fn pixel(x: Double, side: int) -> int {
    if side <= 0 {
        0
    } else if x.share_of(side as nat) >= side {
        side - 1
    } else {
        x.share_of(side as nat) as int
    }
}

fn map_side(x: Double, side: i32) -> (p: i32)
    ensures
        p == pixel(x, side as int),
{
    if side <= 0 {
        return 0;
    }
    let part: u32 = x.part_of(side as u32);
    if part >= side as u32 {
        side - 1
    } else {
        part as i32
    }
}

/// Map relative coordinates (0 to 1) to absolute pixels on a display of `w` x
/// `h`, clamping both the input and the result to what is on the screen.
pub fn map_coord(x: Double, y: Double, w: i32, h: i32) -> (p: (i32, i32))
    ensures
        p.0 == pixel(x, w as int),
        p.1 == pixel(y, h as int),
{
    (map_side(x, w), map_side(y, h))
}

/// The pointer never leaves the screen, whatever position came in.
pub proof fn law_pointer_stays_on_screen(x: Double, side: int)
    requires
        side > 0,
    ensures
        0 <= pixel(x, side) < side,
{
}

/// The pointer goes where it points: for a share under 1 of the side it is less
/// than a pixel away from the exact place. The share is `mantissa / 2^shift`.
pub proof fn law_pointer_is_where_it_points(x: Double, side: i32)
    requires
        side > 0,
        !x.negative(),
        x.exponent() < 1023,
    ensures
        side * x.mantissa() < (pixel(x, side as int) + 1) * pow2(x.shift()),
        pixel(x, side as int) * pow2(x.shift()) < side * x.mantissa()
            + pow2(x.shift()),
{
    let unit = pow2(x.shift());
    let share = x.share_of(side as nat);
    crate::double::lemma_share_is_near(x, side as nat);
    if share >= side {
        // the last pixel stands for the end of the side
        crate::double::lemma_below_one(x);
        assert(side * x.mantissa() < side * unit) by (nonlinear_arith)
            requires
                side > 0,
                x.mantissa() < unit,
        ;
        assert((side - 1) * unit < share * unit) by (nonlinear_arith)
            requires
                side - 1 < share,
                unit > 0,
        ;
    }
}

/// Pointing further to the right or further down never moves the pointer back:
/// a larger share of a side never gives a smaller pixel.
pub proof fn law_pointer_keeps_its_order(x1: Double, x2: Double, side: i32)
    requires
        x1.at_most(x2),
    ensures
        pixel(x1, side as int) <= pixel(x2, side as int),
{
    if side > 0 {
        crate::double::lemma_shares_ordered(x1, x2, side as nat);
    }
}

/// The clicks of a wheel that moved by `delta` pixels: a hundred make one, and
/// a wheel that moved at all makes at least one.
pub open spec fn clicks(delta: Double) -> int {
    if delta.is_zero() {
        0
    } else if delta.negative() || delta.is_nan() {
        let c = delta.hundredth_within(0x8000_0000);
        if c == 0 {
            -1
        } else {
            -c
        }
    } else {
        let c = delta.hundredth_within(0x7fff_ffff);
        if c == 0 {
            1
        } else {
            c as int
        }
    }
}

/// Convert a browser's wheel delta (about 100 pixels per notch) into clicks.
/// Any delta but zero yields at least one, in its direction.
pub fn pixels_to_clicks(delta: Double) -> (r: i32)
    ensures
        r == clicks(delta),
{
    if delta.is_exactly_zero() {
        return 0;
    }
    if delta.is_negative() || delta.is_not_a_number() {
        let c: u32 = delta.hundredths(0x8000_0000);
        if c == 0 {
            -1
        } else if c == 0x8000_0000 {
            i32::MIN
        } else {
            -(c as i32)
        }
    } else {
        let c: u32 = delta.hundredths(0x7fff_ffff);
        if c == 0 {
            1
        } else {
            c as i32
        }
    }
}

/// A wheel that moved makes at least one click, in the direction in which it
/// moved; one that did not makes none. What is no number counts as a movement
/// backwards.
pub proof fn law_every_wheel_movement_clicks(delta: Double)
    ensures
        clicks(delta) == 0 <==> delta.is_zero(),
        clicks(delta) > 0 ==> !delta.negative(),
        clicks(delta) < 0 ==> delta.negative() || delta.is_nan(),
{
}

/// A wheel that moves back by as much as it moved makes as many clicks the other
/// way, as long as they can be counted in both directions.
pub proof fn law_opposite_movements_make_opposite_clicks(delta: Double)
    requires
        !delta.is_nan(),
        clicks(delta) != i32::MIN,
        clicks(delta.opposite()) != i32::MIN,
    ensures
        clicks(delta.opposite()) == -clicks(delta),
{
    crate::double::lemma_opposite(delta);
}

/// How a key is injected.
#[derive(Clone, Copy, Debug, PartialEq, Eq, Structural)]
pub enum KeyInjection {
    /// By its virtual keycode.
    Raw(u16),
    /// By what it types or does.
    Key(Key),
    /// Not at all: the code is not handled.
    Unmapped,
}

/// How the key of a `KeyboardEvent.code` is injected on `platform`. macOS goes
/// by the position of the key where it is known.
pub open spec fn key_injection(platform: Platform, code: Seq<char>) -> KeyInjection {
    match (platform, keys::macos_keycode_of(code), keys::key_of(platform, code)) {
        (Platform::MacOs, Some(keycode), _) => KeyInjection::Raw(keycode),
        (_, _, Some(key)) => KeyInjection::Key(key),
        (_, _, None) => KeyInjection::Unmapped,
    }
}

/// How the key of a `KeyboardEvent.code` is injected on `platform`.
pub fn inject_key(platform: Platform, code: &str) -> (injection: KeyInjection)
    ensures
        injection == key_injection(platform, code@),
{
    if let Platform::MacOs = platform {
        if let Some(keycode) = code_to_macos_keycode(code) {
            return KeyInjection::Raw(keycode);
        }
    }
    match code_to_key(platform, code) {
        Some(key) => KeyInjection::Key(key),
        None => KeyInjection::Unmapped,
    }
}

/// Whether a key or button goes down or up.
#[derive(Clone, Copy, Debug, PartialEq, Eq, Structural)]
pub enum Direction {
    Press,
    Release,
}

/// The direction of a wheel.
#[derive(Clone, Copy, Debug, PartialEq, Eq, Structural)]
pub enum Axis {
    Vertical,
    Horizontal,
}

/// A turn of a wheel.
#[derive(Clone, Copy, Debug, PartialEq, Eq, Structural)]
pub struct Scroll {
    pub axis: Axis,
    pub clicks: i32,
}

/// What is injected for an event.
#[derive(Debug, PartialEq, Eq)]
pub enum Injection {
    /// Move the pointer to this share of the display.
    MoveTo { x: Double, y: Double },
    Button { button: Button, direction: Direction },
    /// Turn the wheels, one after the other.
    Scroll(Vec<Scroll>),
    Key { key: KeyInjection, direction: Direction },
}

/// The turns of the wheels for a movement of `dx` and `dy`: the vertical one
/// first, and only those that turn at all.
pub open spec fn scrolls(dx: Double, dy: Double) -> Seq<Scroll> {
    let vertical = if clicks(dy) == 0 {
        Seq::empty()
    } else {
        seq![Scroll { axis: Axis::Vertical, clicks: clicks(dy) as i32 }]
    };
    let horizontal = if clicks(dx) == 0 {
        Seq::empty()
    } else {
        seq![Scroll { axis: Axis::Horizontal, clicks: clicks(dx) as i32 }]
    };
    vertical + horizontal
}

/// `injection` is what is injected for `event` on `platform`.
pub open spec fn is_injection_of(platform: Platform, event: InputEvent, injection: Injection) -> bool {
    match event {
        InputEvent::MMove { x, y } => injection == (Injection::MoveTo { x, y }),
        InputEvent::MDown { button } => injection == (Injection::Button {
            button: button_for(button),
            direction: Direction::Press,
        }),
        InputEvent::MUp { button } => injection == (Injection::Button {
            button: button_for(button),
            direction: Direction::Release,
        }),
        InputEvent::Wheel { dx, dy } => injection matches Injection::Scroll(turns) && turns@
            == scrolls(dx, dy),
        InputEvent::KDown { code } => injection == (Injection::Key {
            key: key_injection(platform, code@),
            direction: Direction::Press,
        }),
        InputEvent::KUp { code } => injection == (Injection::Key {
            key: key_injection(platform, code@),
            direction: Direction::Release,
        }),
    }
}

/// Decide what is injected for `event` on `platform`.
pub fn inject(platform: Platform, event: &InputEvent) -> (injection: Injection)
    ensures
        is_injection_of(platform, *event, injection),
{
    match event {
        InputEvent::MMove { x, y } => Injection::MoveTo { x: *x, y: *y },
        InputEvent::MDown { button } => Injection::Button {
            button: map_button(button),
            direction: Direction::Press,
        },
        InputEvent::MUp { button } => Injection::Button {
            button: map_button(button),
            direction: Direction::Release,
        },
        InputEvent::Wheel { dx, dy } => {
            let mut turns: Vec<Scroll> = Vec::new();
            let vertical: i32 = pixels_to_clicks(*dy);
            if vertical != 0 {
                turns.push(Scroll { axis: Axis::Vertical, clicks: vertical });
            }
            let horizontal: i32 = pixels_to_clicks(*dx);
            if horizontal != 0 {
                turns.push(Scroll { axis: Axis::Horizontal, clicks: horizontal });
            }
            assert(turns@ =~= scrolls(*dx, *dy));
            Injection::Scroll(turns)
        },
        InputEvent::KDown { code } => Injection::Key {
            key: inject_key(platform, code.as_str()),
            direction: Direction::Press,
        },
        InputEvent::KUp { code } => Injection::Key {
            key: inject_key(platform, code.as_str()),
            direction: Direction::Release,
        },
    }
}

/// What is injected for the events of a session, one after the other. Where
/// injection is not available events are dropped, so that those who send them
/// need not know.
pub struct InputInjector {
    platform: Platform,
    available: bool,
    pressed: PressedState,
}

impl InputInjector {
    pub closed spec fn platform(&self) -> Platform {
        self.platform
    }

    /// Input can be injected.
    pub closed spec fn available(&self) -> bool {
        self.available
    }

    /// The codes of the keys that are held.
    pub closed spec fn held_keys(&self) -> Seq<Seq<char>> {
        self.pressed.held_keys()
    }

    /// The buttons that are held.
    pub closed spec fn held_buttons(&self) -> Seq<MouseButton> {
        self.pressed.held_buttons()
    }

    /// Nothing is held twice.
    pub open spec fn well_formed(&self) -> bool {
        self.held_keys().no_duplicates() && self.held_buttons().no_duplicates()
    }

    /// An injector that holds nothing. `available` tells whether the system
    /// lets it inject.
    pub fn start(platform: Platform, available: bool) -> (i: InputInjector)
        ensures
            i.well_formed(),
            i.platform() == platform,
            i.available() == available,
            i.held_keys() == Seq::<Seq<char>>::empty(),
            i.held_buttons() == Seq::<MouseButton>::empty(),
    {
        InputInjector { platform, available, pressed: PressedState::new() }
    }

    /// Take in an event and decide what is injected for it.
    pub fn on_event(&mut self, event: &InputEvent) -> (injection: Option<Injection>)
        requires
            old(self).well_formed(),
        ensures
            final(self).well_formed(),
            final(self).platform() == old(self).platform(),
            final(self).available() == old(self).available(),
            old(self).available() ==> {
                &&& injection matches Some(i) && is_injection_of(old(self).platform(), *event, i)
                &&& final(self).held_keys() == pressed::keys_after(old(self).held_keys(), *event)
                &&& final(self).held_buttons() == pressed::buttons_after(
                    old(self).held_buttons(),
                    *event,
                )
            },
            !old(self).available() ==> injection is None && *final(self) == *old(self),
    {
        if !self.available {
            return None;
        }
        self.pressed.apply(event);
        Some(inject(self.platform, event))
    }

    /// The other side is gone: the releases of whatever is still held, so that
    /// no key and no button sticks.
    pub fn on_close(&self) -> (injections: Vec<Injection>)
        ensures
            !self.available() ==> injections@.len() == 0,
            self.available() ==> {
                &&& injections@.len() == self.held_keys().len() + self.held_buttons().len()
                &&& forall|i: int|
                    0 <= i < self.held_keys().len() ==> #[trigger] injections@[i] == (
                    Injection::Key {
                        key: key_injection(self.platform(), self.held_keys()[i]),
                        direction: Direction::Release,
                    })
                &&& forall|i: int|
                    self.held_keys().len() <= i < injections@.len()
                        ==> #[trigger] injections@[i] == (Injection::Button {
                        button: button_for(self.held_buttons()[i - self.held_keys().len()]),
                        direction: Direction::Release,
                    })
            },
    {
        let mut injections: Vec<Injection> = Vec::new();
        if !self.available {
            return injections;
        }
        let releases: Vec<InputEvent> = self.pressed.pending_releases();
        let mut i: usize = 0;
        while i < releases.len()
            invariant
                i <= releases@.len(),
                injections@.len() == i,
                pressed::are_releases(releases@, self.held_keys(), self.held_buttons()),
                forall|j: int|
                    0 <= j < i ==> is_injection_of(
                        self.platform(),
                        releases@[j],
                        #[trigger] injections@[j],
                    ),
            decreases releases@.len() - i,
        {
            injections.push(inject(self.platform, &releases[i]));
            i += 1;
        }
        assert forall|j: int| 0 <= j < self.held_keys().len() implies #[trigger] injections@[j] == (
        Injection::Key {
            key: key_injection(self.platform(), self.held_keys()[j]),
            direction: Direction::Release,
        }) by {
            assert(pressed::releases_key(releases@[j], self.held_keys()[j]));
        }
        injections
    }
}

/// The pointer goes to the nearest pixel: for a share under 1 it is at most half
/// a pixel away from the exact place, but for what 53 bits cannot hold of it, or
/// it is on the last pixel. A place between two pixels goes to the higher one.
pub proof fn law_the_pointer_goes_to_the_nearest_pixel(x: Double, side: i32, j: nat)
    requires
        side > 0,
        !x.negative(),
        x.exponent() < 1023,
    ensures
        ({
            let exact = side * x.mantissa();
            let unit = pow2(x.shift());
            let p = pixel(x, side as int);
            &&& pow2(52) * (2 * (p * unit - exact) - unit) <= exact
            &&& p < side - 1 ==> pow2(52) * (2 * (exact - p * unit) - unit) <= exact
            &&& 2 * exact == (2 * j + 1) * unit && j + 1 < side ==> p == j + 1
        }),
{
    let exact = side * x.mantissa();
    let unit = pow2(x.shift());
    let share = x.share_of(side as nat);
    let p = pixel(x, side as int);
    crate::double::lemma_share_is_nearest(x, side as nat);
    vstd::arithmetic::power2::lemma2_to64();
    vstd::arithmetic::power2::lemma2_to64_rest();
    assert(p * unit <= share * unit) by (nonlinear_arith)
        requires
            p <= share,
            unit >= 0,
    ;
    if 2 * exact == (2 * j + 1) * unit {
        crate::double::lemma_halves_go_up(x, side as nat, j);
    }
}

/// Positions beyond the edges of the screen are at the edges; what is no number
/// is at the first one, and there is only one place where there is no screen.
pub proof fn law_positions_beyond_the_edges(x: Double, side: int)
    ensures
        side > 0 && (x.negative() || x.is_nan()) ==> pixel(x, side) == 0,
        side > 0 && !x.negative() && !x.is_nan() && x.exponent() >= 1023 ==> pixel(x, side) == side
            - 1,
        side <= 0 ==> pixel(x, side) == 0,
{
}

/// A wheel clicks once for every hundred pixels, rounded to the nearest whole
/// number, but for what 53 bits cannot hold; once at least, and no more often
/// than can be counted.
pub proof fn law_a_hundred_pixels_make_a_click(delta: Double)
    requires
        !delta.is_nan(),
        !delta.is_zero(),
    ensures
        ({
            let c = if clicks(delta) < 0 {
                -clicks(delta)
            } else {
                clicks(delta)
            };
            let most = if delta.negative() {
                0x8000_0000int
            } else {
                0x7fff_ffffint
            };
            let exact = delta.mantissa();
            let hundred = 100 * pow2(delta.shift());
            &&& 1 <= c <= most
            &&& delta.exponent() < 1023 ==> c == 1
            &&& delta.exponent() >= 1062 ==> c == most
            &&& 1023 <= delta.exponent() < 1062 ==> {
                &&& c > 1 ==> pow2(52) * (2 * (c * hundred - exact) - hundred) <= exact
                &&& c < most ==> pow2(52) * (2 * (exact - c * hundred) - hundred) <= exact
            }
        }),
{
    if 1023 <= delta.exponent() < 1062 {
        let hundred = 100 * pow2(delta.shift());
        let h = delta.hundredth();
        let c = if clicks(delta) < 0 {
            -clicks(delta)
        } else {
            clicks(delta)
        };
        crate::double::lemma_hundredth_is_nearest(delta);
        vstd::arithmetic::power2::lemma2_to64();
        vstd::arithmetic::power2::lemma2_to64_rest();
        assert(c < h ==> c * hundred <= h * hundred) by (nonlinear_arith)
            requires
                hundred >= 0,
        ;
        assert(h < c ==> h * hundred <= c * hundred) by (nonlinear_arith)
            requires
                hundred >= 0,
        ;
    }
}

/// Half a click counts as a whole one, in either direction.
pub proof fn law_half_clicks_count(delta: Double, j: nat)
    requires
        1023 <= delta.exponent() < 1062,
        2 * delta.mantissa() == (2 * j + 1) * (100 * pow2(delta.shift())),
        j < 0x7fff_ffff,
    ensures
        clicks(delta) == if delta.negative() {
            -(j + 1)
        } else {
            (j + 1) as int
        },
{
    crate::double::lemma_hundredth_halves_go_up(delta, j);
}

/// What is injected for an event is the event itself: the pointer goes where it
/// is sent, buttons and keys go down and up as they do on the other side.
pub proof fn law_events_are_injected_as_they_are(
    platform: Platform,
    event: InputEvent,
    injection: Injection,
)
    requires
        is_injection_of(platform, event, injection),
    ensures
        match event {
            InputEvent::MMove { x, y } => injection == (Injection::MoveTo { x, y }),
            InputEvent::MDown { button } => injection matches Injection::Button {
                button: b,
                direction: Direction::Press,
            } && b == button_for(button),
            InputEvent::MUp { button } => injection matches Injection::Button {
                button: b,
                direction: Direction::Release,
            } && b == button_for(button),
            InputEvent::Wheel { .. } => injection is Scroll,
            InputEvent::KDown { code } => injection matches Injection::Key {
                key,
                direction: Direction::Press,
            } && key == key_injection(platform, code@),
            InputEvent::KUp { code } => injection matches Injection::Key {
                key,
                direction: Direction::Release,
            } && key == key_injection(platform, code@),
        },
{
}

/// Each button of the browser stands for the button in the same place.
pub proof fn law_buttons_stay_in_place(button: MouseButton)
    ensures
        button is Left <==> button_for(button) is Left,
        button is Right <==> button_for(button) is Right,
        button is Middle <==> button_for(button) is Middle,
{
}

/// A wheel that moves in both directions turns vertically first, by the clicks
/// of each direction; a direction without movement does not turn.
pub proof fn law_wheels_turn_in_their_direction(
    platform: Platform,
    dx: Double,
    dy: Double,
    turns: Vec<Scroll>,
)
    requires
        is_injection_of(platform, InputEvent::Wheel { dx, dy }, Injection::Scroll(turns)),
    ensures
        dx.is_zero() && dy.is_zero() ==> turns@.len() == 0,
        !dx.is_zero() && dy.is_zero() ==> turns@.len() == 1 && turns@[0].axis is Horizontal
            && turns@[0].clicks == clicks(dx),
        dx.is_zero() && !dy.is_zero() ==> turns@.len() == 1 && turns@[0].axis is Vertical
            && turns@[0].clicks == clicks(dy),
        !dx.is_zero() && !dy.is_zero() ==> turns@.len() == 2 && turns@[0].axis is Vertical
            && turns@[0].clicks == clicks(dy) && turns@[1].axis is Horizontal && turns@[1].clicks
            == clicks(dx),
{
    if !dx.is_nan() && !dx.is_zero() {
        law_a_hundred_pixels_make_a_click(dx);
    }
    if !dy.is_nan() && !dy.is_zero() {
        law_a_hundred_pixels_make_a_click(dy);
    }
}

/// macOS goes by the position of a key where it knows it, and by what the key
/// types or does otherwise; the other systems always go by the latter. A code
/// that stands for no key is not injected.
pub proof fn law_keys_are_injected(platform: Platform, code: Seq<char>)
    ensures
        platform is MacOs ==> (keys::macos_keycode_of(code) matches Some(keycode) ==> key_injection(
            platform,
            code,
        ) == KeyInjection::Raw(keycode)),
        !(platform is MacOs) || keys::macos_keycode_of(code) is None ==> {
            &&& keys::key_of(platform, code) matches Some(key) ==> key_injection(platform, code)
                == KeyInjection::Key(key)
            &&& keys::key_of(platform, code) is None ==> key_injection(platform, code)
                is Unmapped
        },
{
}

} // verus!
