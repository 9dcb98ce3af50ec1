use mmo_viewer::boundaries::{
    collect_regions, outlines, overlay_at, plan_overlay, refresh, shard_colour, Overlay, Region,
    ShardInfo, ShardRegion,
};
use mmo_viewer::config::ViewerConfig;
use mmo_viewer::render::Rgb;

fn reference_index(id: &str) -> usize {
    let mut h: u32 = 5381;
    for b in id.as_bytes() {
        h = h.wrapping_mul(33).wrapping_add(*b as u32);
    }
    (h as usize) % 12
}

fn reference_colour(id: &str) -> Rgb {
    let palette: [(u8, u8, u8); 12] = [
        (0, 80, 100),
        (30, 90, 30),
        (100, 20, 85),
        (100, 55, 0),
        (30, 70, 100),
        (20, 85, 55),
        (60, 50, 100),
        (100, 40, 70),
        (10, 60, 65),
        (45, 55, 95),
        (70, 30, 70),
        (20, 95, 85),
    ];
    let (r, g, b) = palette[reference_index(id)];
    Rgb { r, g, b }
}

#[test]
fn empty_id_has_the_colour_of_the_seed() {
    // 5381 is 5 modulo 12: mint.
    assert_eq!(shard_colour(""), Rgb { r: 20, g: 85, b: 55 });
}

#[test]
fn colours_follow_the_hash() {
    let ids = [
        "a",
        "b",
        "shard-1",
        "shard-2",
        "3f2504e0-4f89-11d3-9a0c-0305e82c3301",
        "zażółć gęślą jaźń",
        "⟳",
    ];
    for id in ids {
        assert_eq!(shard_colour(id), reference_colour(id));
        assert_eq!(shard_colour(id), shard_colour(id));
    }
}

#[test]
fn ids_that_share_an_entry_share_the_colour() {
    assert_eq!(shard_colour("a"), shard_colour("m"));
    assert_ne!(shard_colour("a"), shard_colour("b"));
}

#[test]
fn hundredths_give_back_the_single_precision_intensities() {
    let written: [(u8, f32); 8] = [
        (80, 0.80),
        (30, 0.30),
        (85, 0.85),
        (55, 0.55),
        (65, 0.65),
        (45, 0.45),
        (95, 0.95),
        (88, 0.88),
    ];
    for (hundredths, intensity) in written {
        assert_eq!(hundredths as f32 / 100.0, intensity);
    }
}

fn info(id: &str, region: Option<Region>) -> ShardInfo {
    ShardInfo { shard_id: id.to_string(), region }
}

#[test]
fn shards_without_a_region_are_left_out() {
    let r = Region { x_min: 1, x_max: 2, z_min: 3, z_max: 4 };
    let q = Region { x_min: 5, x_max: 6, z_min: 7, z_max: 8 };
    let listing = vec![info("one", Some(r)), info("two", None), info("three", Some(q))];
    let regions = collect_regions(&listing);
    assert_eq!(regions.len(), 2);
    assert_eq!(regions[0].shard_id, "one");
    assert_eq!((regions[0].x_min, regions[0].x_max, regions[0].z_min, regions[0].z_max), (1, 2, 3, 4));
    assert_eq!(regions[1].shard_id, "three");
    assert_eq!((regions[1].x_min, regions[1].x_max, regions[1].z_min, regions[1].z_max), (5, 6, 7, 8));
}

#[test]
fn failed_poll_keeps_the_overlay() {
    let r = Region { x_min: 1, x_max: 2, z_min: 3, z_max: 4 };
    let mut overlay: Vec<ShardRegion> = Vec::new();
    refresh(&mut overlay, Some(vec![info("one", Some(r))]));
    assert_eq!(overlay.len(), 1);
    refresh(&mut overlay, None);
    assert_eq!(overlay.len(), 1);
    assert_eq!(overlay[0].shard_id, "one");
    refresh(&mut overlay, Some(vec![]));
    assert_eq!(overlay.len(), 0);
}

fn plan(url: &str) -> Overlay {
    let mut cfg = ViewerConfig::default();
    cfg.world_coord_url = url.to_string();
    plan_overlay(&cfg)
}

#[test]
fn overlay_is_polled_at_a_valid_address_only() {
    assert!(matches!(plan(""), Overlay::Off));
    match plan("http://127.0.0.1:50052") {
        Overlay::Polled { url } => assert_eq!(url, "http://127.0.0.1:50052"),
        other => panic!("{:?}", other),
    }
    match plan("http://not an address") {
        Overlay::Invalid { url, .. } => assert_eq!(url, "http://not an address"),
        other => panic!("{:?}", other),
    }
    assert!(matches!(overlay_at("x".to_string(), Ok(())), Overlay::Polled { .. }));
}

#[test]
fn regions_are_outlined_in_their_colours_while_shown() {
    let r = Region { x_min: 1, x_max: 2, z_min: 3, z_max: 4 };
    let q = Region { x_min: 5, x_max: 6, z_min: 7, z_max: 8 };
    let regions = collect_regions(&vec![info("one", Some(r)), info("two", Some(q))]);
    let drawn = outlines(&regions, true);
    assert_eq!(drawn.len(), 2);
    assert_eq!((drawn[0].region, drawn[0].colour), (r, shard_colour("one")));
    assert_eq!((drawn[1].region, drawn[1].colour), (q, shard_colour("two")));
    assert_eq!(outlines(&regions, false).len(), 0);
    // A resized region keeps its colour.
    let resized = collect_regions(&vec![info("one", Some(q))]);
    assert_eq!(outlines(&resized, true)[0].colour, drawn[0].colour);
}

#[test]
fn no_shard_is_yellow_or_pure_red() {
    for i in 0..200u32 {
        let c = shard_colour(&format!("shard-{}", i));
        assert_ne!(c, Rgb { r: 100, g: 90, b: 20 });
        assert!(!(c.r > 0 && c.g == 0 && c.b == 0));
    }
}
