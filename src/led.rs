use vstd::prelude::*;

verus! {

/// The three user LEDs on GPIO port K, pins 5 to 7, lit while their pin is
/// driven low.
#[derive(Clone, Copy, Debug, PartialEq, Eq, Structural)]
pub enum Led {
    Red,
    Green,
    Blue,
}

impl Led {
    /// The LED's pin as a one-bit mask of the port.
    pub open spec fn pin_mask(self) -> u32 {
        match self {
            Led::Red => 0x20,
            Led::Green => 0x40,
            Led::Blue => 0x80,
        }
    }

    /// The LED is lit: its pin reads low in the output data word `odr`.
    pub open spec fn lit(self, odr: u32) -> bool {
        odr & self.pin_mask() == 0
    }

    /// The bit-set/reset word that lights the LED: it resets the pin.
    pub fn on(self) -> (r: u32)
        ensures
            r == self.pin_mask() << 16,
    {
        self.off() << 16
    }

    /// The bit-set/reset word that darkens the LED: it sets the pin.
    pub fn off(self) -> (r: u32)
        ensures
            r == self.pin_mask(),
    {
        match self {
            Led::Red => 0x20u32,
            Led::Green => 0x40u32,
            Led::Blue => 0x80u32,
        }
    }

    /// Whether the LED is lit, given the port's output data word.
    pub fn state(&self, odr: u32) -> (r: bool)
        ensures
            r == self.lit(odr),
    {
        let mask: u32 = match self {
            Led::Red => 0x20u32,
            Led::Green => 0x40u32,
            Led::Blue => 0x80u32,
        };
        odr & mask == 0
    }

    /// The bit-set/reset word that flips the LED, given the port's output
    /// data word: it darkens a lit LED and lights a dark one.
    pub fn toggle(self, odr: u32) -> (r: u32)
        ensures
            r == if self.lit(odr) {
                self.pin_mask()
            } else {
                self.pin_mask() << 16
            },
    {
        if self.state(odr) {
            self.off()
        } else {
            self.on()
        }
    }
}

} // verus!
