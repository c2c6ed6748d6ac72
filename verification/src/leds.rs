//! The configuration of the four player LEDs of a Wii remote.

use vstd::prelude::*;

verus! {

/// Which of the four LEDs (1 to 4) are lit.
#[derive(Clone, Copy)]
pub struct WiimoteLeds(pub bool, pub bool, pub bool, pub bool);

/// The bits that LED `k` (1 to 4) contributes to the bitmask when lit.
pub open spec fn led_bits(k: int) -> i32 {
    if k == 1 {
        0x10
    } else if k == 2 {
        0x20
    } else if k == 3 {
        0x30
    } else if k == 4 {
        0x40
    } else {
        0
    }
}

impl WiimoteLeds {
    /// Whether LED `k` (1 to 4) is lit.
    pub open spec fn is_on(self, k: int) -> bool {
        if k == 1 {
            self.0
        } else if k == 2 {
            self.1
        } else if k == 3 {
            self.2
        } else if k == 4 {
            self.3
        } else {
            false
        }
    }

    /// This configuration with LED `k` (1 to 4) lit as well.
    pub open spec fn with_on(self, k: int) -> WiimoteLeds {
        WiimoteLeds(
            self.0 || k == 1,
            self.1 || k == 2,
            self.2 || k == 3,
            self.3 || k == 4,
        )
    }

    /// The bitmask handed to the C library: the bits of each lit LED,
    /// combined with `|`.
    pub open spec fn spec_bitmask(self) -> i32 {
        (if self.0 { led_bits(1) } else { 0i32 }) | (if self.1 { led_bits(2) } else { 0i32 }) | (
        if self.2 { led_bits(3) } else { 0i32 }) | (if self.3 { led_bits(4) } else { 0i32 })
    }

    /// All four LEDs off.
    pub fn new() -> (leds: Self)
        ensures
            leds == WiimoteLeds(false, false, false, false),
    {
        WiimoteLeds::default()
    }

    /// Lights LED 1 as well.
    pub fn on_1(self) -> (leds: Self)
        ensures
            leds == self.with_on(1),
    {
        let mut leds = self;
        leds.0 = true;
        leds
    }

    /// Lights LED 2 as well.
    pub fn on_2(self) -> (leds: Self)
        ensures
            leds == self.with_on(2),
    {
        let mut leds = self;
        leds.1 = true;
        leds
    }

    /// Lights LED 3 as well.
    pub fn on_3(self) -> (leds: Self)
        ensures
            leds == self.with_on(3),
    {
        let mut leds = self;
        leds.2 = true;
        leds
    }

    /// Lights LED 4 as well.
    pub fn on_4(self) -> (leds: Self)
        ensures
            leds == self.with_on(4),
    {
        let mut leds = self;
        leds.3 = true;
        leds
    }

    /// The LED bitmask that the C library's `wiiuse_set_leds` takes:
    /// `0x10`, `0x20`, `0x30` and `0x40` for LEDs 1 to 4, or-ed together.
    pub fn bitmask(&self) -> (mask: i32)
        ensures
            mask == self.spec_bitmask(),
            mask & !0x70i32 == 0,
            (mask & 0x10i32 != 0) <==> (self.0 || self.2),
            (mask & 0x20i32 != 0) <==> (self.1 || self.2),
            (mask & 0x40i32 != 0) <==> self.3,
    {
        proof {
            lemma_bitmask_bits(*self);
        }
        let l1: i32 = if self.0 { 0x10 } else { 0 };
        let l2: i32 = if self.1 { 0x20 } else { 0 };
        let l3: i32 = if self.2 { 0x30 } else { 0 };
        let l4: i32 = if self.3 { 0x40 } else { 0 };
        l1 | l2 | l3 | l4
    }
}

impl Default for WiimoteLeds {
    fn default() -> (leds: Self)
        ensures
            leds == WiimoteLeds(false, false, false, false),
    {
        WiimoteLeds(false, false, false, false)
    }
}

/// Lighting LEDs is order-independent and idempotent: lighting `j` then
/// `k` gives the same configuration as lighting `k` then `j`, and lighting
/// an LED twice is the same as lighting it once.
pub proof fn lemma_with_on_commutes_and_idempotent(leds: WiimoteLeds, j: int, k: int)
    ensures
        leds.with_on(j).with_on(k) == leds.with_on(k).with_on(j),
        leds.with_on(k).with_on(k) == leds.with_on(k),
{
}

/// Lighting LED `k` lights exactly that LED and leaves every other LED as
/// it was.
pub proof fn lemma_with_on_only_touches_k(leds: WiimoteLeds, k: int, i: int)
    requires
        1 <= k <= 4,
    ensures
        leds.with_on(k).is_on(k),
        i != k ==> leds.with_on(k).is_on(i) == leds.is_on(i),
{
}

/// Which bits the LED bitmask holds, for every configuration: bit `0x10`
/// exactly when LED 1 or LED 3 is lit, bit `0x20` exactly when LED 2 or
/// LED 3 is lit, bit `0x40` exactly when LED 4 is lit, and no bit outside
/// `0x70`. So the mask is the OR of `0x10`, `0x20`, `0x30` and `0x40` over
/// the lit LEDs 1 to 4 (LEDs 2 and 4 give `0x60`; LED 3 gives `0x30`).
pub proof fn lemma_bitmask_bits(leds: WiimoteLeds)
    ensures
        leds.spec_bitmask() & !0x70i32 == 0,
        (leds.spec_bitmask() & 0x10i32 != 0) <==> (leds.0 || leds.2),
        (leds.spec_bitmask() & 0x20i32 != 0) <==> (leds.1 || leds.2),
        (leds.spec_bitmask() & 0x40i32 != 0) <==> leds.3,
{
    let (a, b, c, d) = (leds.0, leds.1, leds.2, leds.3);
    let mask = leds.spec_bitmask();
    assert(mask & !0x70i32 == 0 && ((mask & 0x10i32 != 0) <==> (a || c)) && ((mask & 0x20i32
        != 0) <==> (b || c)) && ((mask & 0x40i32 != 0) <==> d)) by (bit_vector)
        requires
            mask == (if a { 0x10i32 } else { 0i32 }) | (if b { 0x20i32 } else { 0i32 }) | (if c {
                0x30i32
            } else {
                0i32
            }) | (if d { 0x40i32 } else { 0i32 }),
    ;
}

/// The bitmask lies between `0` and `0x70`; it is `0` exactly when no LED
/// is lit; and lighting an LED never clears a bit of the mask.
pub proof fn lemma_bitmask_bounds_and_monotone(leds: WiimoteLeds, k: int)
    requires
        1 <= k <= 4,
    ensures
        0 <= leds.spec_bitmask() <= 0x70,
        leds.spec_bitmask() == 0 <==> !(leds.0 || leds.1 || leds.2 || leds.3),
        leds.with_on(k).spec_bitmask() & leds.spec_bitmask() == leds.spec_bitmask(),
        leds.with_on(k).spec_bitmask() & led_bits(k) == led_bits(k),
{
    let (a, b, c, d) = (leds.0, leds.1, leds.2, leds.3);
    let mask = leds.spec_bitmask();
    assert(0 <= mask <= 0x70 && (mask == 0 <==> !(a || b || c || d))) by (bit_vector)
        requires
            mask == (if a { 0x10i32 } else { 0i32 }) | (if b { 0x20i32 } else { 0i32 }) | (if c {
                0x30i32
            } else {
                0i32
            }) | (if d { 0x40i32 } else { 0i32 }),
    ;
    let m = leds.with_on(k);
    let (a2, b2, c2, d2) = (m.0, m.1, m.2, m.3);
    let mask2 = m.spec_bitmask();
    let bits = led_bits(k);
    assert(mask2 & mask == mask && mask2 & bits == bits) by (bit_vector)
        requires
            mask == (if a { 0x10i32 } else { 0i32 }) | (if b { 0x20i32 } else { 0i32 }) | (if c {
                0x30i32
            } else {
                0i32
            }) | (if d { 0x40i32 } else { 0i32 }),
            mask2 == (if a2 { 0x10i32 } else { 0i32 }) | (if b2 { 0x20i32 } else { 0i32 }) | (
            if c2 { 0x30i32 } else { 0i32 }) | (if d2 { 0x40i32 } else { 0i32 }),
            a ==> a2,
            b ==> b2,
            c ==> c2,
            d ==> d2,
            (bits == 0x10i32 && a2) || (bits == 0x20i32 && b2) || (bits == 0x30i32 && c2) || (
            bits == 0x40i32 && d2),
    ;
}

} // verus!
