//! The colours in which a row of circles is drawn, one after another.

use vstd::prelude::*;

verus! {

/// No channel of a drawn colour is darker than this.
pub const SHADE_FLOOR: u8 = 50;

/// Three running channel values.
#[derive(Clone, Copy, Debug, PartialEq, Eq, Structural)]
pub struct Palette {
    pub r: u8,
    pub g: u8,
    pub b: u8,
}

/// `c + 1`, starting again at zero after 255.
pub open spec fn bumped(c: u8) -> u8 {
    if c == 255 {
        0u8
    } else {
        (c + 1) as u8
    }
}

/// `c`, raised to the floor where it lies below.
pub open spec fn lifted(c: u8) -> u8 {
    if c < SHADE_FLOOR {
        SHADE_FLOOR
    } else {
        c
    }
}

impl Palette {
    /// The palette for the circle after this one: red moves on by one; green
    /// moves on whenever red has come to 255; blue moves on whenever green
    /// stands at 255.
    pub open spec fn stepped(self) -> Palette {
        let r = bumped(self.r);
        let g = if r == 255 {
            bumped(self.g)
        } else {
            self.g
        };
        let b = if g == 255 {
            bumped(self.b)
        } else {
            self.b
        };
        Palette { r, g, b }
    }

    /// The palette for circle `k` of a row, the first being circle 0.
    pub open spec fn nth(k: nat) -> Palette
        decreases k,
    {
        if k == 0 {
            Palette { r: 0, g: 0, b: 0 }
        } else {
            Palette::nth((k - 1) as nat).stepped()
        }
    }

    /// The colour drawn for this palette.
    pub open spec fn shade_of(self) -> (u8, u8, u8) {
        (lifted(self.r), lifted(self.g), lifted(self.b))
    }

    pub fn new() -> (p: Palette)
        ensures
            p == Palette::nth(0),
    {
        Palette { r: 0, g: 0, b: 0 }
    }

    pub fn shade(&self) -> (c: (u8, u8, u8))
        ensures
            c == self.shade_of(),
    {
        (Palette::lift(self.r), Palette::lift(self.g), Palette::lift(self.b))
    }

    pub fn advance(&mut self)
        ensures
            *final(self) == old(self).stepped(),
    {
        self.r = Palette::bump(self.r);
        if self.r == 255 {
            self.g = Palette::bump(self.g);
        }
        if self.g == 255 {
            self.b = Palette::bump(self.b);
        }
    }

    fn bump(c: u8) -> (r: u8)
        ensures
            r == bumped(c),
    {
        if c == 255 {
            0
        } else {
            c + 1
        }
    }

    fn lift(c: u8) -> (r: u8)
        ensures
            r == lifted(c),
    {
        if c < SHADE_FLOOR {
            SHADE_FLOOR
        } else {
            c
        }
    }

    /// The colours of a row of `count` circles, in the order of the row.
    pub fn shades(count: usize) -> (row: Vec<(u8, u8, u8)>)
        ensures
            row@.len() == count,
            forall|k: int| 0 <= k < count ==> row@[k] == Palette::nth(k as nat).shade_of(),
    {
        let mut row: Vec<(u8, u8, u8)> = Vec::new();
        let mut palette = Palette::new();
        let mut i: usize = 0;
        while i < count
            invariant
                i <= count,
                row@.len() == i,
                palette == Palette::nth(i as nat),
                forall|k: int| 0 <= k < i ==> row@[k] == Palette::nth(k as nat).shade_of(),
            decreases count - i,
        {
            row.push(palette.shade());
            palette.advance();
            i += 1;
        }
        row
    }
}

} // verus!
