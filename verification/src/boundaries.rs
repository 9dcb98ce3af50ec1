//! The shards' regions for the boundary overlay: whether they are polled, what
//! a poll leaves of them, and how they are drawn.

use tonic::codegen::http::uri::InvalidUri;
use tonic::transport::Channel;
use vstd::prelude::*;

use crate::config::ViewerConfig;
use crate::render::Rgb;

verus! {

/// A rectangle on the map. The edges are single-precision bit patterns.
#[derive(Debug, Clone, Copy, PartialEq, Eq, Structural)]
pub struct Region {
    pub x_min: u32,
    pub x_max: u32,
    pub z_min: u32,
    pub z_max: u32,
}

/// A shard as the coordinator lists it. A shard may have no region. `S` is the
/// type of text; in contracts it is `Seq<char>`.
#[derive(Debug, Clone)]
pub struct ShardInfo<S = String> {
    pub shard_id: S,
    pub region: Option<Region>,
}

/// One shard's region, in world coordinates.
#[derive(Debug, Clone)]
pub struct ShardRegion<S = String> {
    pub shard_id: S,
    pub x_min: u32,
    pub x_max: u32,
    pub z_min: u32,
    pub z_max: u32,
}

impl View for ShardInfo<String> {
    type V = ShardInfo<Seq<char>>;

    open spec fn view(&self) -> ShardInfo<Seq<char>> {
        ShardInfo { shard_id: self.shard_id@, region: self.region }
    }
}

impl View for ShardRegion<String> {
    type V = ShardRegion<Seq<char>>;

    open spec fn view(&self) -> ShardRegion<Seq<char>> {
        ShardRegion {
            shard_id: self.shard_id@,
            x_min: self.x_min,
            x_max: self.x_max,
            z_min: self.z_min,
            z_max: self.z_max,
        }
    }
}

/// Why a text is no address.
#[verifier::external_type_specification]
#[verifier::external_body]
pub struct ExInvalidUri(tonic::codegen::http::uri::InvalidUri);

/// The text is an address that an endpoint can be made of.
pub uninterp spec fn is_address(url: Seq<char>) -> bool;

/// Calls `tonic::transport::Channel::from_shared`, which parses an address.
/// Believed of it: whether it succeeds rests on the text alone. Why a text is
/// refused is left unsaid.
#[verifier::external_body]
fn check_address(url: &String) -> (checked: Result<(), InvalidUri>)
    ensures
        checked is Ok <==> is_address(url@),
{
    match Channel::from_shared(url.clone()) {
        Ok(_) => Ok(()),
        Err(why) => Err(why),
    }
}

/// What becomes of the overlay.
#[derive(Debug)]
pub enum Overlay {
    /// It was not asked for.
    Off,
    /// The coordinator's address is none.
    Invalid { url: String, why: InvalidUri },
    /// The coordinator is polled.
    Polled { url: String },
}

/// What becomes of the overlay if `url` is set, by what the check of it gave.
pub fn overlay_at(url: String, checked: Result<(), InvalidUri>) -> (plan: Overlay)
    ensures
        plan == match checked {
            Ok(_) => Overlay::Polled { url },
            Err(why) => Overlay::Invalid { url, why },
        },
{
    match checked {
        Ok(_) => Overlay::Polled { url },
        Err(why) => Overlay::Invalid { url, why },
    }
}

/// Whether the coordinator is polled: if an address is set and it is one.
pub fn plan_overlay(cfg: &ViewerConfig) -> (plan: Overlay)
    ensures
        plan is Off <==> cfg@.world_coord_url.len() == 0,
        plan is Polled <==> cfg@.world_coord_url.len() > 0 && is_address(cfg@.world_coord_url),
        plan matches Overlay::Polled { url } ==> url@ == cfg@.world_coord_url,
        plan matches Overlay::Invalid { url, .. } ==> url@ == cfg@.world_coord_url,
{
    if cfg.world_coord_url.as_str().is_empty() {
        Overlay::Off
    } else {
        let url = cfg.world_coord_url.clone();
        let checked = check_address(&url);
        overlay_at(url, checked)
    }
}

/// The models of a listing.
pub open spec fn info_models(shards: Seq<ShardInfo>) -> Seq<ShardInfo<Seq<char>>> {
    shards.map_values(|s: ShardInfo| s@)
}

/// The models of a list of regions.
pub open spec fn region_models(regions: Seq<ShardRegion>) -> Seq<ShardRegion<Seq<char>>> {
    regions.map_values(|r: ShardRegion| r@)
}

/// The region of a shard, if it has one.
pub open spec fn region_of<S>(shard: ShardInfo<S>) -> Option<ShardRegion<S>> {
    match shard.region {
        Some(r) => Some(
            ShardRegion {
                shard_id: shard.shard_id,
                x_min: r.x_min,
                x_max: r.x_max,
                z_min: r.z_min,
                z_max: r.z_max,
            },
        ),
        None => None,
    }
}

/// The regions of the shards that have one, in the order of the listing.
pub open spec fn regions_of<S>(shards: Seq<ShardInfo<S>>) -> Seq<ShardRegion<S>> {
    shards.filter_map(|s: ShardInfo<S>| region_of(s))
}

/// The regions of the shards that have one, in the order of the listing.
pub fn collect_regions(shards: &Vec<ShardInfo>) -> (regions: Vec<ShardRegion>)
    ensures
        region_models(regions@) == regions_of(info_models(shards@)),
{
    let ghost all = info_models(shards@);
    let mut regions: Vec<ShardRegion> = Vec::new();
    let mut i: usize = 0;
    assert(region_models(regions@) =~= regions_of(all.take(0)));
    while i < shards.len()
        invariant
            i <= shards.len(),
            all == info_models(shards@),
            region_models(regions@) == regions_of(all.take(i as int)),
        decreases shards.len() - i,
    {
        assert(all.take(i + 1).drop_last() =~= all.take(i as int));
        let ghost before = regions@;
        if let Some(r) = shards[i].region {
            let region = ShardRegion {
                shard_id: shards[i].shard_id.clone(),
                x_min: r.x_min,
                x_max: r.x_max,
                z_min: r.z_min,
                z_max: r.z_max,
            };
            regions.push(region);
            assert(region_models(regions@) =~= region_models(before) + seq![region@]);
        }
        i = i + 1;
    }
    assert(all.take(i as int) =~= all);
    regions
}

/// The overlay after a poll: a listing replaces it, a failure keeps it.
pub fn refresh(overlay: &mut Vec<ShardRegion>, listing: Option<Vec<ShardInfo>>)
    ensures
        listing is None ==> *final(overlay) == *old(overlay),
        listing matches Some(shards) ==> region_models(final(overlay)@) == regions_of(
            info_models(shards@),
        ),
{
    if let Some(shards) = listing {
        *overlay = collect_regions(&shards);
    }
}

/// The djb2 hash, modulo the range of 32 bits.
pub open spec fn djb2(bytes: Seq<u8>) -> int
    decreases bytes.len(),
{
    if bytes.len() == 0 {
        5381
    } else {
        (djb2(bytes.drop_last()) * 33 + bytes.last()) % 0x1_0000_0000
    }
}

/// Saturated colours that stand out on the dark background; no yellow, which
/// marks combat, and no pure red, which marks entities.
pub open spec fn palette(index: int) -> Rgb {
    if index == 0 {
        Rgb { r: 0, g: 80, b: 100 }
    } else if index == 1 {
        Rgb { r: 30, g: 90, b: 30 }
    } else if index == 2 {
        Rgb { r: 100, g: 20, b: 85 }
    } else if index == 3 {
        Rgb { r: 100, g: 55, b: 0 }
    } else if index == 4 {
        Rgb { r: 30, g: 70, b: 100 }
    } else if index == 5 {
        Rgb { r: 20, g: 85, b: 55 }
    } else if index == 6 {
        Rgb { r: 60, g: 50, b: 100 }
    } else if index == 7 {
        Rgb { r: 100, g: 40, b: 70 }
    } else if index == 8 {
        Rgb { r: 10, g: 60, b: 65 }
    } else if index == 9 {
        Rgb { r: 45, g: 55, b: 95 }
    } else if index == 10 {
        Rgb { r: 70, g: 30, b: 70 }
    } else {
        Rgb { r: 20, g: 95, b: 85 }
    }
}

/// The size of the palette.
pub const PALETTE_SIZE: u32 = 12;

/// The entry of the palette.
fn palette_entry(index: u32) -> (c: Rgb)
    requires
        index < PALETTE_SIZE,
    ensures
        c == palette(index as int),
{
    match index {
        0 => Rgb { r: 0, g: 80, b: 100 },
        1 => Rgb { r: 30, g: 90, b: 30 },
        2 => Rgb { r: 100, g: 20, b: 85 },
        3 => Rgb { r: 100, g: 55, b: 0 },
        4 => Rgb { r: 30, g: 70, b: 100 },
        5 => Rgb { r: 20, g: 85, b: 55 },
        6 => Rgb { r: 60, g: 50, b: 100 },
        7 => Rgb { r: 100, g: 40, b: 70 },
        8 => Rgb { r: 10, g: 60, b: 65 },
        9 => Rgb { r: 45, g: 55, b: 95 },
        10 => Rgb { r: 70, g: 30, b: 70 },
        _ => Rgb { r: 20, g: 95, b: 85 },
    }
}

/// Where in the palette a shard's colour stands.
pub open spec fn colour_index(shard_id: Seq<char>) -> int {
    djb2(vstd::utf8::encode_utf8(shard_id)) % PALETTE_SIZE as int
}

/// A shard's colour, the same in every run.
pub fn shard_colour(shard_id: &str) -> (c: Rgb)
    ensures
        c == palette(colour_index(shard_id@)),
{
    let bytes = shard_id.as_bytes();
    let mut h: u32 = 5381;
    let mut i: usize = 0;
    assert(bytes@.take(0) =~= seq![]);
    while i < bytes.len()
        invariant
            i <= bytes.len(),
            h == djb2(bytes@.take(i as int)),
        decreases bytes.len() - i,
    {
        assert(bytes@.take(i + 1).drop_last() =~= bytes@.take(i as int));
        h = h.wrapping_mul(33).wrapping_add(bytes[i] as u32);
        i = i + 1;
    }
    assert(bytes@.take(i as int) =~= bytes@);
    palette_entry(h % PALETTE_SIZE)
}

/// A region as drawn: a rectangle in its shard's colour.
#[derive(Debug, Clone, Copy, PartialEq, Eq, Structural)]
pub struct Outline {
    pub region: Region,
    pub colour: Rgb,
}

/// How a shard's region is drawn.
pub open spec fn outline_of(r: ShardRegion<Seq<char>>) -> Outline {
    Outline {
        region: Region { x_min: r.x_min, x_max: r.x_max, z_min: r.z_min, z_max: r.z_max },
        colour: palette(colour_index(r.shard_id)),
    }
}

/// The rectangles of the overlay: one for each region, in their order, or none
/// if the overlay is hidden.
pub fn outlines(regions: &Vec<ShardRegion>, shown: bool) -> (out: Vec<Outline>)
    ensures
        shown ==> out@ == region_models(regions@).map_values(
            |r: ShardRegion<Seq<char>>| outline_of(r),
        ),
        !shown ==> out@ == Seq::<Outline>::empty(),
{
    let mut out: Vec<Outline> = Vec::new();
    if shown {
        let ghost all = region_models(regions@).map_values(
            |r: ShardRegion<Seq<char>>| outline_of(r),
        );
        let mut i: usize = 0;
        while i < regions.len()
            invariant
                i <= regions.len(),
                all == region_models(regions@).map_values(
                    |r: ShardRegion<Seq<char>>| outline_of(r),
                ),
                out@ == all.take(i as int),
            decreases regions.len() - i,
        {
            let r = &regions[i];
            let region = Region { x_min: r.x_min, x_max: r.x_max, z_min: r.z_min, z_max: r.z_max };
            out.push(Outline { region, colour: shard_colour(r.shard_id.as_str()) });
            i = i + 1;
            assert(out@ =~= all.take(i as int));
        }
        assert(all.take(i as int) =~= all);
    }
    out
}

/// A shard keeps its colour when its region is resized.
pub proof fn resizing_keeps_the_colour(
    before: ShardRegion<Seq<char>>,
    after: ShardRegion<Seq<char>>,
)
    requires
        before.shard_id == after.shard_id,
    ensures
        outline_of(before).colour == outline_of(after).colour,
{
}

/// Two entries of the palette are different colours.
pub proof fn palette_is_distinct(i: int, j: int)
    requires
        0 <= i < PALETTE_SIZE,
        0 <= j < PALETTE_SIZE,
        i != j,
    ensures
        palette(i) != palette(j),
{
}

/// Two shards have the same colour exactly if they share an entry of the
/// palette.
pub proof fn shards_are_told_apart(a: Seq<char>, b: Seq<char>)
    ensures
        palette(colour_index(a)) == palette(colour_index(b)) <==> colour_index(a) == colour_index(
            b,
        ),
{
    if colour_index(a) != colour_index(b) {
        palette_is_distinct(colour_index(a), colour_index(b));
    }
}

} // verus!
