//! HID keyboard reports: the fixed-layout packet that tells the host which
//! keys are currently down, and its wire encoding.

use vstd::prelude::*;

verus! {

/// A keyboard input report: modifier bitmask, a reserved byte, the LED state
/// byte (unused here, always zero), and six slots for simultaneously pressed
/// usage codes, zero-padded when fewer keys are down.
#[derive(Clone, Copy, Debug, PartialEq, Eq)]
pub struct KeyReport {
    pub modifier: u8,
    pub reserved: u8,
    pub leds: u8,
    pub keycodes: [u8; 6],
}

impl KeyReport {
    /// The wire layout of this report: modifier, reserved and LED bytes first,
    /// then the six usage-code slots in order.
    pub open spec fn bytes(self) -> Seq<u8> {
        seq![self.modifier, self.reserved, self.leds] + self.keycodes@
    }

    /// The report that announces a single pressed key: `usage` in the first
    /// slot, everything else zero.
    pub open spec fn spec_key_down(usage: u8) -> KeyReport {
        KeyReport { modifier: 0, reserved: 0, leds: 0, keycodes: [usage, 0, 0, 0, 0, 0] }
    }

    /// The all-zero report: no key pressed.
    pub open spec fn spec_released() -> KeyReport {
        KeyReport { modifier: 0, reserved: 0, leds: 0, keycodes: [0, 0, 0, 0, 0, 0] }
    }

    /// Build the report announcing that the key with `usage` is down and no
    /// other key is.
    pub fn key_down(usage: u8) -> (r: KeyReport)
        ensures
            r == Self::spec_key_down(usage),
    {
        KeyReport { modifier: 0, reserved: 0, leds: 0, keycodes: [usage, 0, 0, 0, 0, 0] }
    }

    /// Build the report announcing that every key is up.
    pub fn released() -> (r: KeyReport)
        ensures
            r == Self::spec_released(),
    {
        KeyReport { modifier: 0, reserved: 0, leds: 0, keycodes: [0, 0, 0, 0, 0, 0] }
    }

    /// Serialize the report in its wire layout.
    pub fn to_bytes(&self) -> (b: Vec<u8>)
        ensures
            b@ == self.bytes(),
    {
        let mut b: Vec<u8> = Vec::new();
        b.push(self.modifier);
        b.push(self.reserved);
        b.push(self.leds);
        let mut i: usize = 0;
        while i < 6
            invariant
                i <= 6,
                b@ == seq![self.modifier, self.reserved, self.leds] + self.keycodes@.take(
                    i as int,
                ),
            decreases 6 - i,
        {
            b.push(self.keycodes[i]);
            i = i + 1;
            proof {
                assert(self.keycodes@.take(i as int) == self.keycodes@.take(i - 1).push(
                    self.keycodes@[i - 1],
                ));
            }
        }
        proof {
            assert(self.keycodes@.take(6) == self.keycodes@);
        }
        b
    }
}

} // verus!
