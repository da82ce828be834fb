//! The layer table: every layer a shape can be drawn on, with its name and colour.

use vstd::prelude::*;

verus! {

/// The named layers that every shape is drawn on.
#[derive(Clone, Copy, Debug, PartialEq, Eq, Structural)]
pub enum Layer {
    Walls,
    WallsInner,
    Doors,
    Windows,
    Dimensions,
    Text,
    Annotation,
    Deck,
    DeckPattern,
    HotTub,
    Fixtures,
    TitleBlock,
    Elevation,
    Section,
    Roof,
}

/// Layer names, after the AIA naming convention.
pub open spec fn layer_name(l: Layer) -> Seq<char> {
    match l {
        Layer::Walls => "A-WALL"@,
        Layer::WallsInner => "A-WALL-INTR"@,
        Layer::Doors => "A-DOOR"@,
        Layer::Windows => "A-GLAZ"@,
        Layer::Dimensions => "A-DIMS"@,
        Layer::Text => "A-TEXT"@,
        Layer::Annotation => "A-ANNO"@,
        Layer::Deck => "A-DECK"@,
        Layer::DeckPattern => "A-DECK-PATT"@,
        Layer::HotTub => "A-PLMB-FIXT"@,
        Layer::Fixtures => "A-FIXT"@,
        Layer::TitleBlock => "A-ANNO-TTLB"@,
        Layer::Elevation => "A-ELEV"@,
        Layer::Section => "A-SECT"@,
        Layer::Roof => "A-ROOF"@,
    }
}

/// Colour index of each layer: 1 red, 2 yellow, 3 green, 4 cyan, 7 white,
/// 8 grey, 30 brown.
pub open spec fn layer_color(l: Layer) -> u8 {
    match l {
        Layer::Walls => 7,
        Layer::WallsInner => 8,
        Layer::Doors => 3,
        Layer::Windows => 4,
        Layer::Dimensions => 2,
        Layer::Text => 7,
        Layer::Annotation => 7,
        Layer::Deck => 30,
        Layer::DeckPattern => 8,
        Layer::HotTub => 4,
        Layer::Fixtures => 1,
        Layer::TitleBlock => 7,
        Layer::Elevation => 7,
        Layer::Section => 7,
        Layer::Roof => 1,
    }
}

/// Every layer, in the order the layer table declares them.
pub open spec fn layer_table() -> Seq<Layer> {
    seq![
        Layer::Walls,
        Layer::WallsInner,
        Layer::Doors,
        Layer::Windows,
        Layer::Dimensions,
        Layer::Text,
        Layer::Annotation,
        Layer::Deck,
        Layer::DeckPattern,
        Layer::HotTub,
        Layer::Fixtures,
        Layer::TitleBlock,
        Layer::Elevation,
        Layer::Section,
        Layer::Roof,
    ]
}

impl Layer {
    pub fn name(&self) -> (r: &'static str)
        ensures
            r@ == layer_name(*self),
    {
        match self {
            Layer::Walls => "A-WALL",
            Layer::WallsInner => "A-WALL-INTR",
            Layer::Doors => "A-DOOR",
            Layer::Windows => "A-GLAZ",
            Layer::Dimensions => "A-DIMS",
            Layer::Text => "A-TEXT",
            Layer::Annotation => "A-ANNO",
            Layer::Deck => "A-DECK",
            Layer::DeckPattern => "A-DECK-PATT",
            Layer::HotTub => "A-PLMB-FIXT",
            Layer::Fixtures => "A-FIXT",
            Layer::TitleBlock => "A-ANNO-TTLB",
            Layer::Elevation => "A-ELEV",
            Layer::Section => "A-SECT",
            Layer::Roof => "A-ROOF",
        }
    }

    pub fn color_index(&self) -> (r: u8)
        ensures
            r == layer_color(*self),
    {
        match self {
            Layer::Walls => 7,
            Layer::WallsInner => 8,
            Layer::Doors => 3,
            Layer::Windows => 4,
            Layer::Dimensions => 2,
            Layer::Text => 7,
            Layer::Annotation => 7,
            Layer::Deck => 30,
            Layer::DeckPattern => 8,
            Layer::HotTub => 4,
            Layer::Fixtures => 1,
            Layer::TitleBlock => 7,
            Layer::Elevation => 7,
            Layer::Section => 7,
            Layer::Roof => 1,
        }
    }
}

/// The layer table, in declaration order; it holds every layer, so every shape's
/// layer is a declared one.
pub fn all_layers() -> (r: Vec<Layer>)
    ensures
        r@ == layer_table(),
        forall|l: Layer| r@.contains(l),
{
    let r = vec![
        Layer::Walls,
        Layer::WallsInner,
        Layer::Doors,
        Layer::Windows,
        Layer::Dimensions,
        Layer::Text,
        Layer::Annotation,
        Layer::Deck,
        Layer::DeckPattern,
        Layer::HotTub,
        Layer::Fixtures,
        Layer::TitleBlock,
        Layer::Elevation,
        Layer::Section,
        Layer::Roof,
    ];
    assert(r@ =~= layer_table());
    assert forall|l: Layer| r@.contains(l) by {
        let i: int = match l {
            Layer::Walls => 0,
            Layer::WallsInner => 1,
            Layer::Doors => 2,
            Layer::Windows => 3,
            Layer::Dimensions => 4,
            Layer::Text => 5,
            Layer::Annotation => 6,
            Layer::Deck => 7,
            Layer::DeckPattern => 8,
            Layer::HotTub => 9,
            Layer::Fixtures => 10,
            Layer::TitleBlock => 11,
            Layer::Elevation => 12,
            Layer::Section => 13,
            Layer::Roof => 14,
        };
        assert(r@[i] == l);
    }
    r
}

} // verus!
