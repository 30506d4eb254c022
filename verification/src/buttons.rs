//! The brick's buttons: sets of buttons, turning them with the brick's
//! orientation, and the button events.
use vstd::prelude::*;
use core::marker::PhantomData;
use crate::glyph::LcdTopSide;
use crate::layout::LcdTopSideProvider;
use crate::value::ValueCell;

verus! {

#[derive(Clone, Copy, PartialEq, Eq, Structural, Debug)]
pub enum Button {
    UP,
    DOWN,
    LEFT,
    RIGHT,
    ENTER,
    BACK,
}

/// The bit of a button in a `ButtonFlags`.
pub open spec fn button_bit(b: Button) -> u8 {
    match b {
        Button::UP => 1,
        Button::DOWN => 2,
        Button::LEFT => 4,
        Button::RIGHT => 8,
        Button::ENTER => 16,
        Button::BACK => 32,
    }
}

/// The bits that stand for buttons.
pub const ALL_BUTTON_BITS: u8 = 0b111111;

/// A set of buttons, one bit per button.
#[derive(Clone, Copy, PartialEq, Eq, Structural, Debug)]
pub struct ButtonFlags {
    pub bits: u8,
}

/// The empty set.
impl Default for ButtonFlags {
    fn default() -> (r: Self)
        ensures
            r.bits == 0,
    {
        ButtonFlags { bits: 0 }
    }
}

/// `bits` holds button `b`.
pub open spec fn has_button(bits: u8, b: Button) -> bool {
    bits & button_bit(b) != 0
}

impl ButtonFlags {
    /// The empty set.
    pub fn empty() -> (r: Self)
        ensures
            r.bits == 0,
    {
        ButtonFlags { bits: 0 }
    }

    /// The set of `b` alone.
    pub fn from_button(b: Button) -> (r: Self)
        ensures
            r.bits == button_bit(b),
    {
        let bits = match b {
            Button::UP => 1,
            Button::DOWN => 2,
            Button::LEFT => 4,
            Button::RIGHT => 8,
            Button::ENTER => 16,
            Button::BACK => 32,
        };
        ButtonFlags { bits }
    }

    pub fn union(self, other: Self) -> (r: Self)
        ensures
            r.bits == self.bits | other.bits,
    {
        ButtonFlags { bits: self.bits | other.bits }
    }

    pub fn intersection(self, other: Self) -> (r: Self)
        ensures
            r.bits == self.bits & other.bits,
    {
        ButtonFlags { bits: self.bits & other.bits }
    }

    /// Every bit not in the set.
    pub fn complement(self) -> (r: Self)
        ensures
            r.bits == !self.bits,
    {
        ButtonFlags { bits: !self.bits }
    }

    /// Every button of `other` is in the set.
    pub fn contains(self, other: Self) -> (r: bool)
        ensures
            r == (self.bits & other.bits == other.bits),
    {
        self.bits & other.bits == other.bits
    }

    pub fn is_empty(self) -> (r: bool)
        ensures
            r == (self.bits == 0),
    {
        self.bits == 0
    }
}

/// The button that pressing physical button `b` means when `top` is up.
pub open spec fn turned_button(top: LcdTopSide, b: Button) -> Button {
    match top {
        LcdTopSide::Up => b,
        LcdTopSide::Right => match b {
            Button::RIGHT => Button::UP,
            Button::DOWN => Button::RIGHT,
            Button::LEFT => Button::DOWN,
            Button::UP => Button::LEFT,
            _ => b,
        },
        LcdTopSide::Down => match b {
            Button::DOWN => Button::UP,
            Button::LEFT => Button::RIGHT,
            Button::UP => Button::DOWN,
            Button::RIGHT => Button::LEFT,
            _ => b,
        },
        LcdTopSide::Left => match b {
            Button::LEFT => Button::UP,
            Button::UP => Button::RIGHT,
            Button::RIGHT => Button::DOWN,
            Button::DOWN => Button::LEFT,
            _ => b,
        },
    }
}

/// `turned` holds exactly the buttons that the presses `pressed` mean when
/// `top` is up.
pub open spec fn turned_buttons(top: LcdTopSide, pressed: u8, turned: u8) -> bool {
    &&& turned & !ALL_BUTTON_BITS == 0
    &&& forall|b: Button| #[trigger] has_button(turned, turned_button(top, b)) == has_button(pressed, b)
}

/// The buttons `buttons` as they read with `TOP`'s side up: ENTER and BACK
/// stay, the arrows turn with the brick.
pub fn transpose_buttons<TOP: LcdTopSideProvider>(buttons: ButtonFlags) -> (r: ButtonFlags)
    ensures
        turned_buttons(TOP::layout().top_side, buttons.bits, r.bits),
{
    let up = ButtonFlags::from_button(Button::UP);
    let down = ButtonFlags::from_button(Button::DOWN);
    let left = ButtonFlags::from_button(Button::LEFT);
    let right = ButtonFlags::from_button(Button::RIGHT);
    let kept = ButtonFlags::from_button(Button::ENTER).union(ButtonFlags::from_button(Button::BACK));
    let mut result = buttons.intersection(kept);
    let ghost r0 = result.bits;
    let (to_up, to_right, to_down, to_left) = match TOP::top_side() {
        LcdTopSide::Up => (up, right, down, left),
        LcdTopSide::Right => (right, down, left, up),
        LcdTopSide::Down => (down, left, up, right),
        LcdTopSide::Left => (left, up, right, down),
    };
    let pu = buttons.contains(to_up);
    if pu {
        result = result.union(up);
    }
    let ghost r1 = result.bits;
    let pr = buttons.contains(to_right);
    if pr {
        result = result.union(right);
    }
    let ghost r2 = result.bits;
    let pd = buttons.contains(to_down);
    if pd {
        result = result.union(down);
    }
    let ghost r3 = result.bits;
    let pl = buttons.contains(to_left);
    if pl {
        result = result.union(left);
    }
    proof {
        let b = buttons.bits;
        let r = result.bits;
        let top = TOP::layout().top_side;
        assert(r & !ALL_BUTTON_BITS == 0 && (r & 16u8 != 0) == (b & 16u8 != 0) && (r & 32u8 != 0) == (b
            & 32u8 != 0) && (r & 1u8 != 0) == pu && (r & 8u8 != 0) == pr && (r & 2u8 != 0) == pd && (r
            & 4u8 != 0) == pl) by (bit_vector)
            requires
                r0 == b & (16u8 | 32u8),
                r1 == if pu { r0 | 1u8 } else { r0 },
                r2 == if pr { r1 | 8u8 } else { r1 },
                r3 == if pd { r2 | 2u8 } else { r2 },
                r == if pl { r3 | 4u8 } else { r3 },
        ;
        assert forall|m: u8| m == 1u8 || m == 2u8 || m == 4u8 || m == 8u8 || m == 16u8 || m == 32u8 implies (
        #[trigger] (b & m) == m) == (b & m != 0) by {
            assert((m == 1u8 || m == 2u8 || m == 4u8 || m == 8u8 || m == 16u8 || m == 32u8) ==> ((b & m
                == m) == (b & m != 0))) by (bit_vector);
        }
        assert forall|btn: Button| #[trigger] has_button(r, turned_button(top, btn)) == has_button(b, btn) by {
            let m = button_bit(btn);
            assert((b & m) == m || (b & m) != m);
        }
    }
    result
}

/// Two button sets with the same buttons and no other bits are equal.
proof fn lemma_same_buttons(x: u8, y: u8)
    requires
        x & !ALL_BUTTON_BITS == 0,
        y & !ALL_BUTTON_BITS == 0,
        forall|b: Button| #[trigger] has_button(x, b) == has_button(y, b),
    ensures
        x == y,
{
    assert(has_button(x, Button::UP) == has_button(y, Button::UP));
    assert(has_button(x, Button::DOWN) == has_button(y, Button::DOWN));
    assert(has_button(x, Button::LEFT) == has_button(y, Button::LEFT));
    assert(has_button(x, Button::RIGHT) == has_button(y, Button::RIGHT));
    assert(has_button(x, Button::ENTER) == has_button(y, Button::ENTER));
    assert(has_button(x, Button::BACK) == has_button(y, Button::BACK));
    assert(x == y) by (bit_vector)
        requires
            x & !0b111111u8 == 0,
            y & !0b111111u8 == 0,
            (x & 1u8 != 0) == (y & 1u8 != 0),
            (x & 2u8 != 0) == (y & 2u8 != 0),
            (x & 4u8 != 0) == (y & 4u8 != 0),
            (x & 8u8 != 0) == (y & 8u8 != 0),
            (x & 16u8 != 0) == (y & 16u8 != 0),
            (x & 32u8 != 0) == (y & 32u8 != 0),
    ;
}

/// With the top side up the buttons keep their meaning.
pub proof fn lemma_turn_up_keeps(pressed: u8, turned: u8)
    requires
        turned_buttons(LcdTopSide::Up, pressed, turned),
    ensures
        turned == pressed & ALL_BUTTON_BITS,
{
    assert forall|b: Button| #[trigger] has_button(turned, b) == has_button(pressed & ALL_BUTTON_BITS, b) by {
        assert(turned_button(LcdTopSide::Up, b) == b);
        let m = button_bit(b);
        assert((m == 1u8 || m == 2u8 || m == 4u8 || m == 8u8 || m == 16u8 || m == 32u8) ==> ((pressed
            & 0b111111u8) & m != 0) == (pressed & m != 0)) by (bit_vector);
    }
    assert((pressed & 0b111111u8) & !0b111111u8 == 0) by (bit_vector);
    lemma_same_buttons(turned, pressed & ALL_BUTTON_BITS);
}

/// Turning the buttons for the right side up and then for the left side up
/// gives back the buttons pressed.
pub proof fn lemma_turn_left_undoes_right(pressed: u8, once: u8, twice: u8)
    requires
        turned_buttons(LcdTopSide::Right, pressed, once),
        turned_buttons(LcdTopSide::Left, once, twice),
    ensures
        twice == pressed & ALL_BUTTON_BITS,
{
    assert forall|b: Button| #[trigger] has_button(twice, b) == has_button(pressed & ALL_BUTTON_BITS, b) by {
        assert(turned_button(LcdTopSide::Left, turned_button(LcdTopSide::Right, b)) == b);
        assert(has_button(twice, turned_button(LcdTopSide::Left, turned_button(LcdTopSide::Right, b))) == has_button(once, turned_button(LcdTopSide::Right, b)));
        let m = button_bit(b);
        assert((m == 1u8 || m == 2u8 || m == 4u8 || m == 8u8 || m == 16u8 || m == 32u8) ==> ((pressed
            & 0b111111u8) & m != 0) == (pressed & m != 0)) by (bit_vector);
    }
    assert((pressed & 0b111111u8) & !0b111111u8 == 0) by (bit_vector);
    lemma_same_buttons(twice, pressed & ALL_BUTTON_BITS);
}

/// Turning the buttons for the bottom side up twice gives back the buttons
/// pressed.
pub proof fn lemma_turn_down_twice(pressed: u8, once: u8, twice: u8)
    requires
        turned_buttons(LcdTopSide::Down, pressed, once),
        turned_buttons(LcdTopSide::Down, once, twice),
    ensures
        twice == pressed & ALL_BUTTON_BITS,
{
    assert forall|b: Button| #[trigger] has_button(twice, b) == has_button(pressed & ALL_BUTTON_BITS, b) by {
        assert(turned_button(LcdTopSide::Down, turned_button(LcdTopSide::Down, b)) == b);
        assert(has_button(twice, turned_button(LcdTopSide::Down, turned_button(LcdTopSide::Down, b))) == has_button(once, turned_button(LcdTopSide::Down, b)));
        let m = button_bit(b);
        assert((m == 1u8 || m == 2u8 || m == 4u8 || m == 8u8 || m == 16u8 || m == 32u8) ==> ((pressed
            & 0b111111u8) & m != 0) == (pressed & m != 0)) by (bit_vector);
    }
    assert((pressed & 0b111111u8) & !0b111111u8 == 0) by (bit_vector);
    lemma_same_buttons(twice, pressed & ALL_BUTTON_BITS);
}

/// An arrow button, as opposed to ENTER and BACK.
pub open spec fn is_arrow(b: Button) -> bool {
    b == Button::UP || b == Button::DOWN || b == Button::LEFT || b == Button::RIGHT
}

/// With the right side up the arrows turn a quarter turn: the right-hand
/// button reads as up, and so round; four turns bring every arrow back, one
/// or two turns move every arrow; ENTER and BACK never turn.
pub proof fn lemma_turn_right_is_quarter_turn(b: Button)
    ensures
        turned_button(LcdTopSide::Right, Button::RIGHT) == Button::UP,
        is_arrow(b) ==> turned_button(LcdTopSide::Right, b) != b,
        is_arrow(b) ==> turned_button(LcdTopSide::Right, turned_button(LcdTopSide::Right, b)) != b,
        turned_button(
            LcdTopSide::Right,
            turned_button(LcdTopSide::Right, turned_button(LcdTopSide::Right, turned_button(LcdTopSide::Right, b))),
        ) == b,
        !is_arrow(b) ==> turned_button(LcdTopSide::Right, b) == b,
        !is_arrow(b) ==> turned_button(LcdTopSide::Down, b) == b && turned_button(LcdTopSide::Left, b) == b,
{
}

/// With the bottom side up the arrows turn half a turn: what the buttons
/// read is what two quarter turns for the right side up make of them.
pub proof fn lemma_turn_down_is_right_twice(pressed: u8, once: u8, twice: u8, down: u8)
    requires
        turned_buttons(LcdTopSide::Right, pressed, once),
        turned_buttons(LcdTopSide::Right, once, twice),
        turned_buttons(LcdTopSide::Down, pressed, down),
    ensures
        down == twice,
{
    assert forall|b: Button| #[trigger] has_button(down, b) == has_button(twice, b) by {
        let r1 = turned_button(LcdTopSide::Right, b);
        let r2 = turned_button(LcdTopSide::Right, r1);
        assert(turned_button(LcdTopSide::Down, b) == r2);
        assert(has_button(down, turned_button(LcdTopSide::Down, b)) == has_button(pressed, b));
        assert(has_button(once, r1) == has_button(pressed, b));
        assert(has_button(twice, turned_button(LcdTopSide::Right, r1)) == has_button(once, r1));
        // every button is the double turn of some button
        let b0 = turned_button(LcdTopSide::Down, b);
        assert(turned_button(LcdTopSide::Down, b0) == b);
        assert(has_button(down, turned_button(LcdTopSide::Down, b0)) == has_button(pressed, b0));
        let q1 = turned_button(LcdTopSide::Right, b0);
        assert(turned_button(LcdTopSide::Right, q1) == b);
        assert(has_button(once, q1) == has_button(pressed, b0));
        assert(has_button(twice, turned_button(LcdTopSide::Right, q1)) == has_button(once, q1));
    }
    lemma_same_buttons(down, twice);
}

/// With the left side up the arrows turn three quarter turns.
pub proof fn lemma_turn_left_is_right_thrice(pressed: u8, once: u8, twice: u8, thrice: u8, left: u8)
    requires
        turned_buttons(LcdTopSide::Right, pressed, once),
        turned_buttons(LcdTopSide::Right, once, twice),
        turned_buttons(LcdTopSide::Right, twice, thrice),
        turned_buttons(LcdTopSide::Left, pressed, left),
    ensures
        left == thrice,
{
    assert forall|b: Button| #[trigger] has_button(left, b) == has_button(thrice, b) by {
        let b0 = turned_button(LcdTopSide::Right, b);
        assert(turned_button(LcdTopSide::Left, b0) == b);
        assert(has_button(left, turned_button(LcdTopSide::Left, b0)) == has_button(pressed, b0));
        let q1 = turned_button(LcdTopSide::Right, b0);
        let q2 = turned_button(LcdTopSide::Right, q1);
        assert(turned_button(LcdTopSide::Right, q2) == b);
        assert(has_button(once, q1) == has_button(pressed, b0));
        assert(has_button(twice, turned_button(LcdTopSide::Right, q1)) == has_button(once, q1));
        assert(has_button(thrice, turned_button(LcdTopSide::Right, q2)) == has_button(twice, q2));
    }
    lemma_same_buttons(left, thrice);
}

/// Button states and events, turned with the brick's orientation.
pub struct ButtonsController<TOP: LcdTopSideProvider> {
    pub top: PhantomData<TOP>,
    pub previous: ButtonFlags,
    pub down: ValueCell<ButtonFlags>,
    pub pressed_event: ValueCell<ButtonFlags>,
    pub released_event: ValueCell<ButtonFlags>,
    pub flltered_pressed_event: ValueCell<()>,
}

impl<TOP: LcdTopSideProvider> ButtonsController<TOP> {
    pub fn new() -> (r: Self)
        ensures
            r.previous.bits == 0,
            r.down.count() == 0,
            r.down.current().bits == 0,
            r.pressed_event.count() == 0,
            r.pressed_event.current().bits == 0,
            r.released_event.count() == 0,
            r.released_event.current().bits == 0,
            r.flltered_pressed_event.count() == 0,
    {
        ButtonsController {
            top: PhantomData,
            previous: ButtonFlags::empty(),
            down: ValueCell::new(),
            pressed_event: ValueCell::new(),
            released_event: ValueCell::new(),
            flltered_pressed_event: ValueCell::new(),
        }
    }

    /// Takes in the buttons that are down now (`raw`, as the brick reads
    /// them): records them turned with the brick, and the buttons pressed
    /// and released since `previous`; a press of some button not already
    /// held is also signalled on `flltered_pressed_event`.
    pub fn update(&mut self, raw: ButtonFlags)
        requires
            old(self).down.count() < usize::MAX,
            old(self).pressed_event.count() < usize::MAX,
            old(self).released_event.count() < usize::MAX,
            old(self).flltered_pressed_event.count() < usize::MAX,
        ensures
            turned_buttons(TOP::layout().top_side, raw.bits, final(self).down.current().bits),
            final(self).down.count() == old(self).down.count() + 1,
            final(self).pressed_event.current().bits == final(self).down.current().bits & !old(self).previous.bits,
            final(self).pressed_event.count() == old(self).pressed_event.count() + 1,
            final(self).released_event.current().bits == old(self).previous.bits & !final(self).down.current().bits,
            final(self).released_event.count() == old(self).released_event.count() + 1,
            final(self).flltered_pressed_event.count() == old(self).flltered_pressed_event.count() + (if (
            final(self).down.current().bits & !old(self).previous.bits) != 0 {
                1int
            } else {
                0
            }),
            final(self).previous == old(self).previous,
    {
        let previous = self.previous;
        let current = transpose_buttons::<TOP>(raw);
        self.down.update(current);
        self.pressed_event.update(current.intersection(previous.complement()));
        self.released_event.update(previous.intersection(current.complement()));
        if current != previous {
            let pressed = current.intersection(previous.complement());
            if !pressed.is_empty() {
                self.flltered_pressed_event.update(());
            }
        } else {
            let c = current.bits;
            assert(c & !c == 0) by (bit_vector);
        }
    }
}

} // verus!
