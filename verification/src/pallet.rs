//! Color pallets: ordered collections of colors, the named pallets the
//! animation offers, and the wiring from a pallet choice to its colors.

use vstd::prelude::*;
use crate::chooser::select;
use crate::color::Color;
use crate::math::{div_floor, lemma_scale_index_bound, UNIT};

verus! {

/// A collection of colors ordered by brightness.
pub struct Pallet {
    values: Vec<Color>,
}

impl View for Pallet {
    type V = Seq<Color>;

    /// The colors of the pallet.
    closed spec fn view(&self) -> Seq<Color> {
        self.values@
    }
}

impl Pallet {
    /// The pallet holds at least one color, and few enough to scale.
    pub open spec fn wf(&self) -> bool {
        0 < self@.len() <= 1_000_000
    }

    /// Creates a new pallet over the given colors.
    pub fn new(values: Vec<Color>) -> (p: Pallet)
        ensures
            p@ == values@,
    {
        Pallet { values }
    }

    /// The red pallet.
    pub fn red() -> (p: Pallet)
        ensures
            p@ == seq![Color::Yellow, Color::DarkYellow, Color::Red],
    {
        let p = Pallet::new(vec![Color::Yellow, Color::DarkYellow, Color::Red]);
        proof {
            assert(p@ =~= seq![Color::Yellow, Color::DarkYellow, Color::Red]);
        }
        p
    }

    /// The light red pallet.
    pub fn red_light() -> (p: Pallet)
        ensures
            p@ == seq![Color::White, Color::Yellow, Color::Red],
    {
        let p = Pallet::new(vec![Color::White, Color::Yellow, Color::Red]);
        proof {
            assert(p@ =~= seq![Color::White, Color::Yellow, Color::Red]);
        }
        p
    }

    /// The green pallet.
    pub fn green() -> (p: Pallet)
        ensures
            p@ == seq![Color::Cyan, Color::DarkGreen, Color::Green],
    {
        let p = Pallet::new(vec![Color::Cyan, Color::DarkGreen, Color::Green]);
        proof {
            assert(p@ =~= seq![Color::Cyan, Color::DarkGreen, Color::Green]);
        }
        p
    }

    /// The light green pallet.
    pub fn green_light() -> (p: Pallet)
        ensures
            p@ == seq![Color::White, Color::Cyan, Color::Green],
    {
        let p = Pallet::new(vec![Color::White, Color::Cyan, Color::Green]);
        proof {
            assert(p@ =~= seq![Color::White, Color::Cyan, Color::Green]);
        }
        p
    }

    /// The blue pallet.
    pub fn blue() -> (p: Pallet)
        ensures
            p@ == seq![Color::Magenta, Color::DarkBlue, Color::Blue],
    {
        let p = Pallet::new(vec![Color::Magenta, Color::DarkBlue, Color::Blue]);
        proof {
            assert(p@ =~= seq![Color::Magenta, Color::DarkBlue, Color::Blue]);
        }
        p
    }

    /// The light blue pallet.
    pub fn blue_light() -> (p: Pallet)
        ensures
            p@ == seq![Color::White, Color::Magenta, Color::Blue],
    {
        let p = Pallet::new(vec![Color::White, Color::Magenta, Color::Blue]);
        proof {
            assert(p@ =~= seq![Color::White, Color::Magenta, Color::Blue]);
        }
        p
    }

    /// The white pallet.
    pub fn white() -> (p: Pallet)
        ensures
            p@ == seq![Color::Black, Color::Grey, Color::White],
    {
        let p = Pallet::new(vec![Color::Black, Color::Grey, Color::White]);
        proof {
            assert(p@ =~= seq![Color::Black, Color::Grey, Color::White]);
        }
        p
    }

    /// The rainbow pallet.
    pub fn rainbow() -> (p: Pallet)
        ensures
            p@ == seq![Color::Magenta, Color::Blue, Color::Green, Color::Yellow, Color::Red],
    {
        let p = Pallet::new(
            vec![Color::Magenta, Color::Blue, Color::Green, Color::Yellow, Color::Red],
        );
        proof {
            assert(p@ =~= seq![
                Color::Magenta,
                Color::Blue,
                Color::Green,
                Color::Yellow,
                Color::Red,
            ]);
        }
        p
    }

    /// Gets the color for the given fill level below one unit; a negative
    /// level picks the first color.
    pub fn sample(&self, fill: i64) -> (c: Color)
        requires
            self.wf(),
            fill < UNIT,
        ensures
            c == self@[if fill < 0 {
                0int
            } else {
                (fill * self@.len()) / (UNIT as int)
            }],
    {
        if fill < 0 {
            self.values[0]
        } else {
            let len: i64 = self.values.len() as i64;
            proof {
                assert(0 <= (fill as int) * (len as int) <= 1_000_000_000_000int)
                    by (nonlinear_arith)
                    requires
                        0 <= (fill as int) < 1_000_000int,
                        0 < (len as int) <= 1_000_000int,
                ;
                lemma_scale_index_bound(fill as int, len as int, UNIT as int);
            }
            let index = div_floor(fill * len, UNIT);
            self.values[index as usize]
        }
    }
}

/// All pallet choices of the animation.
#[derive(Copy, Clone, PartialEq, Eq, Structural, Debug)]
pub enum PalletEnum {
    Red,
    RedLight,
    Green,
    GreenLight,
    Blue,
    BlueLight,
    White,
    Rainbow,
}

/// The pallet choices in their declared order, the fallback when no
/// options are given.
pub open spec fn default_pallets() -> Seq<PalletEnum> {
    seq![
        PalletEnum::Red,
        PalletEnum::RedLight,
        PalletEnum::Green,
        PalletEnum::GreenLight,
        PalletEnum::Blue,
        PalletEnum::BlueLight,
        PalletEnum::White,
        PalletEnum::Rainbow,
    ]
}

/// Chooses a pallet: the pick, wrapped around the number of options,
/// points into the given options, or into all pallets when none are
/// given.
pub fn choose_pallet(options: Vec<PalletEnum>, pick: usize) -> (r: PalletEnum)
    ensures
        r == (if options@.len() > 0 {
            options@[pick as int % options@.len() as int]
        } else {
            default_pallets()[pick as int % 8]
        }),
{
    if options.len() > 0 {
        select(options, pick)
    } else {
        let defaults = vec![
            PalletEnum::Red,
            PalletEnum::RedLight,
            PalletEnum::Green,
            PalletEnum::GreenLight,
            PalletEnum::Blue,
            PalletEnum::BlueLight,
            PalletEnum::White,
            PalletEnum::Rainbow,
        ];
        proof {
            assert(defaults@ =~= default_pallets());
        }
        select(defaults, pick)
    }
}

/// The colors of each pallet choice.
pub open spec fn pallet_seq(pallet: PalletEnum) -> Seq<Color> {
    match pallet {
        PalletEnum::Red => seq![Color::Yellow, Color::DarkYellow, Color::Red],
        PalletEnum::RedLight => seq![Color::White, Color::Yellow, Color::Red],
        PalletEnum::Green => seq![Color::Cyan, Color::DarkGreen, Color::Green],
        PalletEnum::GreenLight => seq![Color::White, Color::Cyan, Color::Green],
        PalletEnum::Blue => seq![Color::Magenta, Color::DarkBlue, Color::Blue],
        PalletEnum::BlueLight => seq![Color::White, Color::Magenta, Color::Blue],
        PalletEnum::White => seq![Color::Black, Color::Grey, Color::White],
        PalletEnum::Rainbow => seq![
            Color::Magenta,
            Color::Blue,
            Color::Green,
            Color::Yellow,
            Color::Red,
        ],
    }
}

/// Every color table the command line offers: bright and dark ramps of
/// each base color, two-color blends, rainbows and grays.
#[derive(Copy, Clone, PartialEq, Eq, Structural, Debug)]
pub enum PalletKind {
    Red,
    Yellow,
    Green,
    Blue,
    Magenta,
    Cyan,
    Rainbow,
    DarkRed,
    DarkYellow,
    DarkGreen,
    DarkBlue,
    DarkMagenta,
    DarkCyan,
    DarkRainbow,
    RedYellow,
    YellowGreen,
    GreenBlue,
    BlueCyan,
    CyanMagenta,
    MagentaRed,
    Gray,
}

/// The colors of each pallet kind, darkest to brightest.
pub open spec fn pallet_kind_seq(kind: PalletKind) -> Seq<Color> {
    match kind {
        PalletKind::Red => seq![Color::DarkRed, Color::Red, Color::White],
        PalletKind::Yellow => seq![Color::DarkYellow, Color::Yellow, Color::White],
        PalletKind::Green => seq![Color::DarkGreen, Color::Green, Color::White],
        PalletKind::Blue => seq![Color::DarkBlue, Color::Blue, Color::White],
        PalletKind::Magenta => seq![Color::DarkMagenta, Color::Magenta, Color::White],
        PalletKind::Cyan => seq![Color::DarkCyan, Color::Cyan, Color::White],
        PalletKind::Rainbow => seq![
            Color::Red,
            Color::Yellow,
            Color::Green,
            Color::Blue,
            Color::Cyan,
            Color::Magenta,
        ],
        PalletKind::DarkRed => seq![Color::Black, Color::DarkRed, Color::Red],
        PalletKind::DarkYellow => seq![Color::Black, Color::DarkYellow, Color::Yellow],
        PalletKind::DarkGreen => seq![Color::Black, Color::DarkGreen, Color::Green],
        PalletKind::DarkBlue => seq![Color::Black, Color::DarkBlue, Color::Blue],
        PalletKind::DarkMagenta => seq![Color::Black, Color::DarkMagenta, Color::Magenta],
        PalletKind::DarkCyan => seq![Color::Black, Color::DarkCyan, Color::Cyan],
        PalletKind::DarkRainbow => seq![
            Color::DarkRed,
            Color::DarkYellow,
            Color::DarkGreen,
            Color::DarkBlue,
            Color::DarkCyan,
            Color::DarkMagenta,
        ],
        PalletKind::RedYellow => seq![
            Color::Red,
            Color::DarkRed,
            Color::DarkYellow,
            Color::Yellow,
        ],
        PalletKind::YellowGreen => seq![
            Color::Yellow,
            Color::DarkYellow,
            Color::DarkGreen,
            Color::Green,
        ],
        PalletKind::GreenBlue => seq![
            Color::Green,
            Color::DarkGreen,
            Color::DarkBlue,
            Color::Blue,
        ],
        PalletKind::BlueCyan => seq![
            Color::Blue,
            Color::DarkBlue,
            Color::DarkCyan,
            Color::Cyan,
        ],
        PalletKind::CyanMagenta => seq![
            Color::Cyan,
            Color::DarkCyan,
            Color::DarkMagenta,
            Color::Magenta,
        ],
        PalletKind::MagentaRed => seq![
            Color::Magenta,
            Color::DarkMagenta,
            Color::DarkRed,
            Color::Red,
        ],
        PalletKind::Gray => seq![Color::Black, Color::DarkGrey, Color::Grey, Color::White],
    }
}

/// Returns the colors for the requested pallet kind.
pub fn pallet_colors(kind: PalletKind) -> (v: Vec<Color>)
    ensures
        v@ == pallet_kind_seq(kind),
        0 < v@.len() <= 6,
{
    let v = match kind {
        PalletKind::Red => vec![Color::DarkRed, Color::Red, Color::White],
        PalletKind::Yellow => vec![Color::DarkYellow, Color::Yellow, Color::White],
        PalletKind::Green => vec![Color::DarkGreen, Color::Green, Color::White],
        PalletKind::Blue => vec![Color::DarkBlue, Color::Blue, Color::White],
        PalletKind::Magenta => vec![Color::DarkMagenta, Color::Magenta, Color::White],
        PalletKind::Cyan => vec![Color::DarkCyan, Color::Cyan, Color::White],
        PalletKind::Rainbow => vec![
            Color::Red,
            Color::Yellow,
            Color::Green,
            Color::Blue,
            Color::Cyan,
            Color::Magenta,
        ],
        PalletKind::DarkRed => vec![Color::Black, Color::DarkRed, Color::Red],
        PalletKind::DarkYellow => vec![Color::Black, Color::DarkYellow, Color::Yellow],
        PalletKind::DarkGreen => vec![Color::Black, Color::DarkGreen, Color::Green],
        PalletKind::DarkBlue => vec![Color::Black, Color::DarkBlue, Color::Blue],
        PalletKind::DarkMagenta => vec![Color::Black, Color::DarkMagenta, Color::Magenta],
        PalletKind::DarkCyan => vec![Color::Black, Color::DarkCyan, Color::Cyan],
        PalletKind::DarkRainbow => vec![
            Color::DarkRed,
            Color::DarkYellow,
            Color::DarkGreen,
            Color::DarkBlue,
            Color::DarkCyan,
            Color::DarkMagenta,
        ],
        PalletKind::RedYellow => vec![
            Color::Red,
            Color::DarkRed,
            Color::DarkYellow,
            Color::Yellow,
        ],
        PalletKind::YellowGreen => vec![
            Color::Yellow,
            Color::DarkYellow,
            Color::DarkGreen,
            Color::Green,
        ],
        PalletKind::GreenBlue => vec![
            Color::Green,
            Color::DarkGreen,
            Color::DarkBlue,
            Color::Blue,
        ],
        PalletKind::BlueCyan => vec![
            Color::Blue,
            Color::DarkBlue,
            Color::DarkCyan,
            Color::Cyan,
        ],
        PalletKind::CyanMagenta => vec![
            Color::Cyan,
            Color::DarkCyan,
            Color::DarkMagenta,
            Color::Magenta,
        ],
        PalletKind::MagentaRed => vec![
            Color::Magenta,
            Color::DarkMagenta,
            Color::DarkRed,
            Color::Red,
        ],
        PalletKind::Gray => vec![Color::Black, Color::DarkGrey, Color::Grey, Color::White],
    };
    proof {
        assert(v@ =~= pallet_kind_seq(kind));
    }
    v
}

/// Creates the requested pallet.
pub fn create_pallet(pallet: PalletEnum) -> (p: Pallet)
    ensures
        p@ == pallet_seq(pallet),
        p.wf(),
{
    match pallet {
        PalletEnum::Red => Pallet::red(),
        PalletEnum::RedLight => Pallet::red_light(),
        PalletEnum::Green => Pallet::green(),
        PalletEnum::GreenLight => Pallet::green_light(),
        PalletEnum::Blue => Pallet::blue(),
        PalletEnum::BlueLight => Pallet::blue_light(),
        PalletEnum::White => Pallet::white(),
        PalletEnum::Rainbow => Pallet::rainbow(),
    }
}

} // verus!
