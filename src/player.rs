use vstd::prelude::*;

verus! {

/// A stone as placed: the side that owns it and how strongly it leans that way.
#[derive(Clone, Copy, PartialEq, Eq, Structural, Debug)]
pub enum Color {
    Black(PColor),
    White(PColor),
}

/// The strength of a stone.
#[derive(Clone, Copy, PartialEq, Eq, Structural, Debug)]
pub enum PColor {
    Strong,
    Weak,
}

/// One of the two sides of a game.
#[derive(Clone, Copy, PartialEq, Eq, Structural, Hash, Debug)]
pub enum PlayerKind {
    Black,
    White,
}

/// What a side will place next.
pub struct Player {
    kind: PlayerKind,
    next_stone: PColor,
}

/// The other strength.
pub open spec fn flip_strength(c: PColor) -> PColor {
    match c {
        PColor::Strong => PColor::Weak,
        PColor::Weak => PColor::Strong,
    }
}

/// The other side.
pub open spec fn opponent(k: PlayerKind) -> PlayerKind {
    match k {
        PlayerKind::Black => PlayerKind::White,
        PlayerKind::White => PlayerKind::Black,
    }
}

/// The stone that side `k` places with strength `c`.
pub open spec fn stone_of(k: PlayerKind, c: PColor) -> Color {
    match k {
        PlayerKind::Black => Color::Black(c),
        PlayerKind::White => Color::White(c),
    }
}

/// The side that owns a stone.
pub open spec fn owner(c: Color) -> PlayerKind {
    match c {
        Color::Black(_) => PlayerKind::Black,
        Color::White(_) => PlayerKind::White,
    }
}

/// The strength of a stone.
pub open spec fn strength(c: Color) -> PColor {
    match c {
        Color::Black(s) => s,
        Color::White(s) => s,
    }
}

/// Percent chance that a stone is observed as Black.
pub open spec fn black_percent(c: Color) -> u8 {
    match c {
        Color::Black(PColor::Strong) => 90,
        Color::Black(PColor::Weak) => 70,
        Color::White(PColor::Strong) => 10,
        Color::White(PColor::Weak) => 30,
    }
}

impl Player {
    /// The side this player plays.
    pub closed spec fn spec_kind(&self) -> PlayerKind {
        self.kind
    }

    /// The strength of the stone this player places next.
    pub closed spec fn spec_next(&self) -> PColor {
        self.next_stone
    }

    pub fn new(kind: PlayerKind, init_stone: PColor) -> (r: Player)
        ensures
            r.spec_kind() == kind,
            r.spec_next() == init_stone,
    {
        Player { kind, next_stone: init_stone }
    }

    /// Hands out the pending strength and switches to the other one.
    pub fn consume_stone(&mut self) -> (r: PColor)
        ensures
            r == old(self).spec_next(),
            final(self).spec_next() == flip_strength(old(self).spec_next()),
            final(self).spec_kind() == old(self).spec_kind(),
    {
        let stone = self.next_stone;
        self.next_stone = match self.next_stone {
            PColor::Strong => PColor::Weak,
            PColor::Weak => PColor::Strong,
        };
        stone
    }

    pub fn next_stone(&self) -> (r: PColor)
        ensures
            r == self.spec_next(),
    {
        self.next_stone
    }
}

impl Color {
    pub fn as_player_kind(&self) -> (r: PlayerKind)
        ensures
            r == owner(*self),
    {
        match self {
            Color::Black(_) => PlayerKind::Black,
            Color::White(_) => PlayerKind::White,
        }
    }

    /// Percent chance, out of 100, that this stone is observed as Black.
    pub fn percent(&self) -> (r: u8)
        ensures
            r == black_percent(*self),
    {
        match self {
            Color::Black(PColor::Strong) => 90,
            Color::Black(PColor::Weak) => 70,
            Color::White(PColor::Strong) => 10,
            Color::White(PColor::Weak) => 30,
        }
    }
}

impl From<Color> for u8 {
    fn from(value: Color) -> (r: u8) {
        value.percent()
    }
}

impl vstd::std_specs::convert::FromSpecImpl<Color> for u8 {
    open spec fn obeys_from_spec() -> bool {
        true
    }

    open spec fn from_spec(v: Color) -> u8 {
        black_percent(v)
    }
}

impl PlayerKind {
    /// The side's name in lower case.
    pub fn to_string(&self) -> (r: String)
        ensures
            *self == PlayerKind::Black ==> r@ == "black"@,
            *self == PlayerKind::White ==> r@ == "white"@,
    {
        match self {
            PlayerKind::Black => "black".to_string(),
            PlayerKind::White => "white".to_string(),
        }
    }
}

} // verus!
