//! The colour table that turns an iteration count into a colour.

use vstd::prelude::*;

verus! {

/// One colour: red, green, blue.
pub type Rgb8 = (u8, u8, u8);

/// Number of entries of the table.
pub const HUE_STEPS: usize = 720;

/// The rising and falling channel of the hue sweep at step `h`: it climbs from 0
/// to 255 over 60 steps and falls back over the next 60. Fractions are cut off.
pub open spec fn hue_ramp(h: int) -> int {
    let t = h % 120;
    if t <= 60 {
        255 * t / 60
    } else {
        255 * (120 - t) / 60
    }
}

/// Entry `h` of the table: the fully saturated, fully bright colour whose hue is
/// `h` degrees, for `h` below 360, and black from there on.
pub open spec fn hue_color(h: int) -> Rgb8 {
    let x = hue_ramp(h) as u8;
    let sector = h / 60;
    if sector == 0 {
        (255u8, x, 0u8)
    } else if sector == 1 {
        (x, 255u8, 0u8)
    } else if sector == 2 {
        (0u8, 255u8, x)
    } else if sector == 3 {
        (0u8, x, 255u8)
    } else if sector == 4 {
        (x, 0u8, 255u8)
    } else if sector == 5 {
        (255u8, 0u8, x)
    } else {
        (0u8, 0u8, 0u8)
    }
}

/// The whole table: `hue_color` at 0, 1, .., 719.
pub open spec fn hue_sweep() -> Seq<Rgb8> {
    Seq::new(HUE_STEPS as nat, |h: int| hue_color(h))
}

/// The colour that a table gives to an iteration count: the entry at the count
/// taken modulo the table's length.
pub open spec fn color_of(table: Seq<Rgb8>, iteration: u32) -> Rgb8 {
    table[iteration as int % table.len() as int]
}

/// A colour table. It is never empty.
pub struct Palette {
    colors: Vec<Rgb8>,
}

impl View for Palette {
    type V = Seq<Rgb8>;

    closed spec fn view(&self) -> Seq<Rgb8> {
        self.colors@
    }
}

impl Palette {
    #[verifier::type_invariant]
    spec fn nonempty(self) -> bool {
        self.colors@.len() > 0
    }

    /// Builds the table by a hue sweep.
    pub fn build() -> (p: Palette)
        ensures
            p@ == hue_sweep(),
    {
        let mut colors: Vec<Rgb8> = Vec::with_capacity(HUE_STEPS);
        let mut h: usize = 0;
        while h < HUE_STEPS
            invariant
                h <= HUE_STEPS,
                colors@.len() == h,
                forall|i: int| 0 <= i < h ==> colors@[i] == hue_color(i),
            decreases HUE_STEPS - h,
        {
            let t: usize = h % 120;
            let rise: usize = if t <= 60 {
                t
            } else {
                120 - t
            };
            let x: u8 = (255 * rise / 60) as u8;
            let sector: usize = h / 60;
            let color: Rgb8 = if sector == 0 {
                (255, x, 0)
            } else if sector == 1 {
                (x, 255, 0)
            } else if sector == 2 {
                (0, 255, x)
            } else if sector == 3 {
                (0, x, 255)
            } else if sector == 4 {
                (x, 0, 255)
            } else if sector == 5 {
                (255, 0, x)
            } else {
                (0, 0, 0)
            };
            assert(color == hue_color(h as int));
            colors.push(color);
            h += 1;
        }
        assert(colors@ =~= hue_sweep());
        Palette { colors }
    }

    /// Number of entries.
    pub fn len(&self) -> (n: usize)
        ensures
            n == self@.len(),
            n > 0,
    {
        proof {
            use_type_invariant(self);
        }
        self.colors.len()
    }

    /// The colour of a point that took `iteration` steps.
    pub fn color_at(&self, iteration: u32) -> (c: Rgb8)
        ensures
            self@.len() > 0,
            c == color_of(self@, iteration),
    {
        proof {
            use_type_invariant(self);
        }
        let n: usize = self.colors.len();
        let index: usize = iteration as usize % n;
        self.colors[index]
    }
}

} // verus!
