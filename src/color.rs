use vstd::prelude::*;

use crate::escape::EscapeOutcome;

verus! {

/// Number of entries of a palette.
pub const PALETTE_LEN: usize = 6;

/// An RGB color with 8-bit channels.
#[derive(Clone, Copy, Debug, PartialEq, Eq, Structural, Hash)]
pub struct Color {
    pub red: u8,
    pub green: u8,
    pub blue: u8,
}

/// The color of points whose orbit did not escape.
pub open spec fn black() -> Color {
    Color { red: 0, green: 0, blue: 0 }
}

impl Color {
    pub fn new(red: u8, green: u8, blue: u8) -> (r: Color)
        ensures
            r == (Color { red, green, blue }),
    {
        Color { red, green, blue }
    }

    /// The color given to points whose orbit stayed bounded.
    pub fn black() -> (r: Color)
        ensures
            r == black(),
    {
        Color { red: 0, green: 0, blue: 0 }
    }
}

/// A fixed cyclic table of colors, indexed by escape iteration.
#[derive(Clone, Copy, Debug)]
pub struct Palette {
    pub colors: [Color; 6],
}

impl Palette {
    pub open spec fn entry(self, k: int) -> Color {
        self.colors@[k % (PALETTE_LEN as int)]
    }

    /// The color that an evaluation outcome receives: palette entry
    /// `i mod 6` for an escape at iteration `i`, black otherwise.
    pub open spec fn color_of(self, outcome: EscapeOutcome) -> Color {
        match outcome {
            EscapeOutcome::Escaped { at_iteration } => self.entry(at_iteration as int),
            EscapeOutcome::Bounded => black(),
        }
    }

    /// Whether `c` may be the color of a point: one of the entries, or black.
    pub open spec fn admits(self, c: Color) -> bool {
        c == black() || exists|k: int| 0 <= k < PALETTE_LEN as int && self.colors@[k] == c
    }

    pub fn new(colors: [Color; 6]) -> (r: Palette)
        ensures
            r.colors@ == colors@,
    {
        Palette { colors }
    }

    /// The blue-to-green palette the renderers use.
    pub fn standard() -> (r: Palette)
        ensures
            r.colors@ == seq![
                Color { red: 0, green: 0, blue: 255 },
                Color { red: 32, green: 107, blue: 203 },
                Color { red: 255, green: 100, blue: 100 },
                Color { red: 255, green: 170, blue: 100 },
                Color { red: 255, green: 200, blue: 100 },
                Color { red: 0, green: 255, blue: 0 },
            ],
    {
        let r = Palette {
            colors: [
                Color::new(0, 0, 255),
                Color::new(32, 107, 203),
                Color::new(255, 100, 100),
                Color::new(255, 170, 100),
                Color::new(255, 200, 100),
                Color::new(0, 255, 0),
            ],
        };
        assert(r.colors@ =~= seq![
            Color { red: 0, green: 0, blue: 255 },
            Color { red: 32, green: 107, blue: 203 },
            Color { red: 255, green: 100, blue: 100 },
            Color { red: 255, green: 170, blue: 100 },
            Color { red: 255, green: 200, blue: 100 },
            Color { red: 0, green: 255, blue: 0 },
        ]);
        r
    }

    /// The color of a pixel with the given evaluation outcome.
    pub fn color_for(&self, outcome: EscapeOutcome) -> (r: Color)
        ensures
            r == self.color_of(outcome),
    {
        match outcome {
            EscapeOutcome::Escaped { at_iteration } => {
                self.colors[at_iteration as usize % PALETTE_LEN]
            },
            EscapeOutcome::Bounded => Color::black(),
        }
    }
}


/// An escape at iteration `i` takes palette entry `i mod 6`, so escapes six
/// iterations apart share their color.
pub proof fn lemma_palette_cycles(palette: Palette, i: u32)
    ensures
        palette.color_of(EscapeOutcome::Escaped { at_iteration: i }) == palette.colors@[i as int % 6],
        i + 6 <= u32::MAX ==> palette.color_of(EscapeOutcome::Escaped { at_iteration: i })
            == palette.color_of(EscapeOutcome::Escaped { at_iteration: (i + 6) as u32 }),
{
}

/// Every outcome is colored with a palette entry or with black.
pub proof fn lemma_color_admitted(palette: Palette, outcome: EscapeOutcome)
    ensures
        palette.admits(palette.color_of(outcome)),
{
    if let EscapeOutcome::Escaped { at_iteration } = outcome {
        let k = at_iteration as int % 6;
        assert(0 <= k < PALETTE_LEN as int && palette.colors@[k] == palette.color_of(outcome));
    }
}

} // verus!
