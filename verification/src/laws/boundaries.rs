//! What holds of the boundary overlay.

use vstd::prelude::*;

use crate::boundaries::{ShardInfo, ShardRegion};

verus! {

/// The hash goes on byte by byte: a further byte multiplies it by 33 and is added,
/// modulo the range of 32 bits. It begins with 5381.
pub proof fn the_hash_goes_on_byte_by_byte(bytes: Seq<u8>, next: u8)
    ensures
        crate::boundaries::djb2(seq![]) == 5381,
        crate::boundaries::djb2(bytes.push(next)) == (33 * crate::boundaries::djb2(bytes) + next)
            % 0x1_0000_0000,
{
    assert(bytes.push(next).drop_last() =~= bytes);
}

/// A shard's place in the palette is the hash of its id's bytes, modulo twelve.
pub proof fn the_colour_goes_by_the_hash(shard_id: Seq<char>)
    ensures
        0 <= crate::boundaries::colour_index(shard_id) < 12,
        (crate::boundaries::djb2(vstd::utf8::encode_utf8(shard_id))
            - crate::boundaries::colour_index(shard_id)) % 12 == 0,
{
}

/// The palette: cyan, lime, magenta, orange, sky blue, mint, lavender, pink, teal,
/// periwinkle, plum, aqua.
pub proof fn the_palette_is_the_chosen_one(index: int)
    requires
        0 <= index < 12,
    ensures
        ({
            let c = crate::boundaries::palette(index);
            (c.r as int, c.g as int, c.b as int) == seq![
                (0int, 80int, 100int),
                (30int, 90int, 30int),
                (100int, 20int, 85int),
                (100int, 55int, 0int),
                (30int, 70int, 100int),
                (20int, 85int, 55int),
                (60int, 50int, 100int),
                (100int, 40int, 70int),
                (10int, 60int, 65int),
                (45int, 55int, 95int),
                (70int, 30int, 70int),
                (20int, 95int, 85int),
            ][index]
        }),
{
}

/// The overlay is made shard by shard and in order: that of two listings in a row
/// is that of the first and then of the second; a shard with a region adds that
/// region, edge for edge, under its own id; one without adds nothing.
pub proof fn the_overlay_is_made_shard_by_shard(
    first: Seq<ShardInfo<Seq<char>>>,
    second: Seq<ShardInfo<Seq<char>>>,
    shard: ShardInfo<Seq<char>>,
)
    ensures
        crate::boundaries::regions_of(first + second) == crate::boundaries::regions_of(first)
            + crate::boundaries::regions_of(second),
        shard.region is None ==> crate::boundaries::regions_of(seq![shard]).len() == 0,
        shard.region matches Some(r) ==> {
            let made = crate::boundaries::regions_of(seq![shard]);
            &&& made.len() == 1
            &&& made[0].shard_id == shard.shard_id
            &&& made[0].x_min == r.x_min
            &&& made[0].x_max == r.x_max
            &&& made[0].z_min == r.z_min
            &&& made[0].z_max == r.z_max
        },
{
    let f = |s: ShardInfo<Seq<char>>| crate::boundaries::region_of(s);
    crate::laws::net::lemma_filter_map_joined(first, second, f);
    crate::laws::net::lemma_filter_map_single(shard, f);
}

/// A region is outlined edge for edge, in the colour of its shard.
pub proof fn a_region_is_outlined_edge_for_edge(r: ShardRegion<Seq<char>>)
    ensures
        ({
            let drawn = crate::boundaries::outline_of(r);
            &&& drawn.region.x_min == r.x_min
            &&& drawn.region.x_max == r.x_max
            &&& drawn.region.z_min == r.z_min
            &&& drawn.region.z_max == r.z_max
            &&& drawn.colour == crate::boundaries::palette(
                crate::boundaries::colour_index(r.shard_id),
            )
        }),
{
}

} // verus!
