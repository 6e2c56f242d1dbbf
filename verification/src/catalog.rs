//! The region catalog: one ordered, immutable sequence of split regions per
//! supported map. Coordinates are in thousandths of a game unit.

use vstd::prelude::*;
use crate::geometry::{Rect, Vector2};

verus! {

/// Identifies which region sequence is bound as the active one.
#[derive(Clone, Copy, Debug, PartialEq, Eq, Structural)]
pub enum MapId {
    /// The default map, entered through the Main scene.
    MainMap,
    /// The "Cavern" custom map (extended map identifier 1).
    CavernMap,
}

/// A rectangle from its four bounds: bottom-left and top-right corners.
pub open spec fn spec_rect(left: i64, right: i64, bottom: i64, top: i64) -> Rect {
    Rect { c1: Vector2 { x: left, y: bottom }, c2: Vector2 { x: right, y: top } }
}

/// The split regions of the default map, in traversal order.
pub open spec fn default_regions() -> Seq<Rect> {
    seq![
        spec_rect(-12000i64, -8000i64, 7000, 22000),  // Tutorial
        spec_rect(24000, 28000, 82000, 96000),  // Chimney
        spec_rect(12000, 18000, 123000, 128000),  // Slide
        spec_rect(4000, 6000, 162000, 167000),  // Furni
        spec_rect(18000, 24000, 216000, 240000),  // Orange
        spec_rect(73000, 77000, 249000, 259000),  // Anvil
        spec_rect(18000, 22000, 281000, 295000),  // Bucket
        spec_rect(42000, 46000, 317000, 331000),  // Ice
        spec_rect(0, 200000, 359000, 361000),  // Tower
        spec_rect(0, 200000, 470000, 472000),  // Space
    ]
}

/// The split regions of the Cavern map, in traversal order.
pub open spec fn cavern_regions() -> Seq<Rect> {
    seq![
        spec_rect(367750, 373750, 59000, 62000),  // One Penny
        spec_rect(365250, 368250, 120500, 126500),  // Revolving Doors
        spec_rect(360000, 363000, 138500, 144500),  // Three
        spec_rect(346500, 349500, 172000, 178000),  // Swag sector
        spec_rect(345500, 348500, 210500, 216500),  // The obamid
        spec_rect(352500, 355000, 230250, 236250),  // Red
        spec_rect(339500, 342000, 270500, 276500),  // Blue
    ]
}

/// The region sequence owned by a map; no sequence at all before the first
/// scene-entry edge binds one.
pub open spec fn regions_of(active: Option<MapId>) -> Seq<Rect> {
    match active {
        None => Seq::empty(),
        Some(MapId::MainMap) => default_regions(),
        Some(MapId::CavernMap) => cavern_regions(),
    }
}

/// Every sequence the catalog owns is at most as long as the default map's.
pub proof fn lemma_regions_len_bounded(active: Option<MapId>)
    ensures
        regions_of(active).len() <= default_regions().len(),
{
}

pub struct Splits;

impl Splits {
    /// The default map's split regions, in traversal order.
    pub fn default_map() -> (v: Vec<Rect>)
        ensures
            v@ == default_regions(),
    {
        let mut v: Vec<Rect> = Vec::new();
        v.push(Rect::new(-12000, -8000, 7000, 22000));
        v.push(Rect::new(24000, 28000, 82000, 96000));
        v.push(Rect::new(12000, 18000, 123000, 128000));
        v.push(Rect::new(4000, 6000, 162000, 167000));
        v.push(Rect::new(18000, 24000, 216000, 240000));
        v.push(Rect::new(73000, 77000, 249000, 259000));
        v.push(Rect::new(18000, 22000, 281000, 295000));
        v.push(Rect::new(42000, 46000, 317000, 331000));
        v.push(Rect::new(0, 200000, 359000, 361000));
        v.push(Rect::new(0, 200000, 470000, 472000));
        proof {
            assert(v@ =~= default_regions());
        }
        v
    }

    /// The Cavern map's split regions, in traversal order.
    pub fn cavern_map() -> (v: Vec<Rect>)
        ensures
            v@ == cavern_regions(),
    {
        let mut v: Vec<Rect> = Vec::new();
        v.push(Rect::new(367750, 373750, 59000, 62000));
        v.push(Rect::new(365250, 368250, 120500, 126500));
        v.push(Rect::new(360000, 363000, 138500, 144500));
        v.push(Rect::new(346500, 349500, 172000, 178000));
        v.push(Rect::new(345500, 348500, 210500, 216500));
        v.push(Rect::new(352500, 355000, 230250, 236250));
        v.push(Rect::new(339500, 342000, 270500, 276500));
        proof {
            assert(v@ =~= cavern_regions());
        }
        v
    }
}

} // verus!
