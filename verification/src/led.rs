//! The eight user LEDs of the board, which sit on pins 8 to 15 of one GPIO
//! port, and the register words that configure and drive them.

use vstd::prelude::*;

verus! {

/// A user LED, named as on the board's silk screen. Going clockwise from
/// north-west: LD4, LD3, LD5, LD7, LD9, LD10, LD8, LD6.
#[derive(Clone, Copy, Debug, PartialEq, Eq)]
pub enum Led {
    LD4,
    LD3,
    LD5,
    LD7,
    LD9,
    LD10,
    LD8,
    LD6,
}

impl Led {
    /// The port pin that drives this LED.
    pub open spec fn spec_pin(self) -> u8 {
        match self {
            Led::LD4 => 8,
            Led::LD3 => 9,
            Led::LD5 => 10,
            Led::LD7 => 11,
            Led::LD9 => 12,
            Led::LD10 => 13,
            Led::LD8 => 14,
            Led::LD6 => 15,
        }
    }

    /// The port pin that drives this LED.
    #[verifier::when_used_as_spec(spec_pin)]
    pub fn pin(self) -> (pin: u8)
        ensures
            pin == self.spec_pin(),
            8 <= pin <= 15,
    {
        match self {
            Led::LD4 => 8,
            Led::LD3 => 9,
            Led::LD5 => 10,
            Led::LD7 => 11,
            Led::LD9 => 12,
            Led::LD10 => 13,
            Led::LD8 => 14,
            Led::LD6 => 15,
        }
    }
}

/// The mode register with the two mode bits of `pin` set to 01, general
/// purpose output, and every other bit as in `moder`.
pub open spec fn output_mode(moder: u32, pin: u8) -> u32 {
    (moder & !(0b11u32 << (pin * 2) as u32)) | (0b01u32 << (pin * 2) as u32)
}

/// The set/reset word that drives `pin` high: its bit in the lower half.
pub open spec fn set_word(pin: u8) -> u32 {
    1u32 << pin as u32
}

/// The set/reset word that drives `pin` low: its bit in the upper half.
pub open spec fn reset_word(pin: u8) -> u32 {
    1u32 << (pin + 16) as u32
}

/// Whether `pin` is low in the output data register `odr`.
pub open spec fn pin_is_low(odr: u32, pin: u8) -> bool {
    odr & (1u32 << pin as u32) == 0
}

/// The new value of the port's mode register that makes the LED's pin an
/// output, given the register's current value.
pub fn led_init(led: Led, moder: u32) -> (word: u32)
    ensures
        word == output_mode(moder, led.spec_pin()),
{
    let pin: u8 = led.pin();
    let shift: u32 = (pin * 2) as u32;
    let mask: u32 = !(0b11u32 << shift);
    let mode: u32 = 0b01u32 << shift;
    (moder & mask) | mode
}

/// The word to write to the port's set/reset register to switch the LED on
/// (`state` true) or off.
pub fn led_set(led: Led, state: bool) -> (word: u32)
    ensures
        word == if state { set_word(led.spec_pin()) } else { reset_word(led.spec_pin()) },
{
    if state {
        led_on(led)
    } else {
        led_off(led)
    }
}

/// The word to write to the port's set/reset register to switch the LED on.
pub fn led_on(led: Led) -> (word: u32)
    ensures
        word == set_word(led.spec_pin()),
{
    let pin: u32 = led.pin() as u32;
    1u32 << pin
}

/// The word to write to the port's set/reset register to switch the LED off.
pub fn led_off(led: Led) -> (word: u32)
    ensures
        word == reset_word(led.spec_pin()),
{
    let pin: u32 = (led.pin() + 16) as u32;
    1u32 << pin
}

/// The word to write to the port's set/reset register to invert the LED,
/// given the current value `odr` of the port's output data register: on if
/// the pin is low now, off if it is high.
pub fn led_toggle(led: Led, odr: u32) -> (word: u32)
    ensures
        word == if pin_is_low(odr, led.spec_pin()) {
            set_word(led.spec_pin())
        } else {
            reset_word(led.spec_pin())
        },
{
    let pin: u32 = led.pin() as u32;
    let new_state: bool = (odr & (1u32 << pin)) == 0;
    led_set(led, new_state)
}

/// Bit `k` of `word`.
pub open spec fn bit(word: u32, k: u32) -> bool {
    (word >> k) & 1 == 1
}

/// The set word of an LED has the LED's own bit set and no other.
pub proof fn lemma_set_word_bits(led: Led, k: u32)
    requires
        k < 32,
    ensures
        bit(set_word(led.spec_pin()), k) <==> k == led.spec_pin(),
{
    let pin: u32 = led.spec_pin() as u32;
    assert(((1u32 << pin) >> k) & 1 == 1 <==> k == pin) by (bit_vector)
        requires
            k < 32,
            8 <= pin <= 15,
    ;
}

/// The reset word of an LED has the bit sixteen places above the LED's own
/// set and no other.
pub proof fn lemma_reset_word_bits(led: Led, k: u32)
    requires
        k < 32,
    ensures
        bit(reset_word(led.spec_pin()), k) <==> k == led.spec_pin() + 16,
{
    let pin: u32 = (led.spec_pin() + 16) as u32;
    assert(((1u32 << pin) >> k) & 1 == 1 <==> k == pin) by (bit_vector)
        requires
            k < 32,
            24 <= pin <= 31,
    ;
}

/// Making an LED's pin an output writes 01 into the pin's two mode bits and
/// leaves the mode bits of every other pin as they were.
pub proof fn lemma_output_mode_bits(led: Led, moder: u32, k: u32)
    requires
        k < 32,
    ensures
        bit(output_mode(moder, led.spec_pin()), k) == if k == 2 * led.spec_pin() {
            true
        } else if k == 2 * led.spec_pin() + 1 {
            false
        } else {
            bit(moder, k)
        },
{
    let shift: u32 = (led.spec_pin() * 2) as u32;
    assert((((moder & !(0b11u32 << shift)) | (0b01u32 << shift)) >> k) & 1 == 1 <==> if k
        == shift {
        true
    } else if k == shift + 1 {
        false
    } else {
        (moder >> k) & 1 == 1
    }) by (bit_vector)
        requires
            k < 32,
            16 <= shift <= 30,
    ;
}

} // verus!
