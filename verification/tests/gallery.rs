use std::collections::BTreeMap;
use std::sync::Arc;

use thumbgrid::image::Image;
use thumbgrid::render::{Canvas, Texture, TileCache};
use thumbgrid::select::pick_level;
use thumbgrid::viewport::Viewport;
use thumbgrid::{File, Metadata, MetadataState, Thumb};

fn pyramid(levels: &[(u32, &[u64])]) -> Metadata {
    Metadata {
        thumbs: levels
            .iter()
            .map(|(size, tiles)| Thumb {
                size: *size,
                tiles: tiles.to_vec(),
            })
            .collect(),
    }
}

fn three_level_pyramid() -> Metadata {
    pyramid(&[(100, &[10, 11]), (200, &[20, 21]), (400, &[30, 31, 32])])
}

fn texture() -> Texture {
    Texture {
        width: 64,
        height: 64,
    }
}

fn slot(metadata: MetadataState) -> Image {
    Image::from(0, Arc::new(File { id: 7 }), metadata)
}

#[test]
fn unknown_slot_is_not_missing_and_draw_fails() {
    let img = slot(MetadataState::Unknown);
    assert!(!img.is_missing());
    let tiles = TileCache::new();
    let mut canvas = Canvas::new();
    assert!(!img.draw(&Viewport { scale: 100 }, &tiles, &mut canvas));
    assert!(canvas.painted.is_empty());
}

#[test]
fn missing_slot_reports_missing_and_draw_still_fails() {
    let mut img = slot(MetadataState::Missing);
    assert!(img.is_missing());
    assert!(img.get_metadata().is_none());
    // Selection has nothing to choose from; the slot stays unselected.
    img.select(&Viewport { scale: 100 });
    let tiles = TileCache::new();
    let mut canvas = Canvas::new();
    assert!(!img.draw(&Viewport { scale: 100 }, &tiles, &mut canvas));
    assert!(canvas.painted.is_empty());
}

#[test]
fn loaded_slot_is_not_missing() {
    let img = slot(MetadataState::Loaded(three_level_pyramid()));
    assert!(!img.is_missing());
    assert!(img.get_metadata().is_some());
    assert_eq!(img.get_metadata().unwrap().thumbs.len(), 3);
}

#[test]
fn select_then_draw_then_reset_then_draw() {
    let mut img = slot(MetadataState::Loaded(three_level_pyramid()));
    // Scale 150 needs more than level 0 (100 px) and is covered by level 1
    // (200 px): the smallest sufficient level is chosen.
    img.select(&Viewport { scale: 150 });
    assert_eq!(img.size, Some(1));
    let tiles = TileCache::new();
    let mut canvas = Canvas::new();
    assert!(img.draw(&Viewport { scale: 150 }, &tiles, &mut canvas));
    img.reset();
    assert_eq!(img.size, None);
    assert!(!img.draw(&Viewport { scale: 150 }, &tiles, &mut canvas));
}

#[test]
fn reset_clears_selection_whatever_the_state() {
    let mut unknown = slot(MetadataState::Unknown);
    unknown.reset();
    assert_eq!(unknown.size, None);

    let mut loaded = slot(MetadataState::Loaded(three_level_pyramid()));
    loaded.select(&Viewport { scale: 80 });
    assert_eq!(loaded.size, Some(0));
    loaded.reset();
    assert_eq!(loaded.size, None);
}

#[test]
fn selection_is_idempotent() {
    let mut img = slot(MetadataState::Loaded(three_level_pyramid()));
    let vp = Viewport { scale: 300 };
    img.select(&vp);
    let first = img.size;
    img.select(&vp);
    assert_eq!(img.size, first);
    assert_eq!(img.size, Some(2));
}

#[test]
fn zooming_in_never_selects_a_smaller_level() {
    let md = three_level_pyramid();
    let mut previous = 0;
    for scale in [1, 50, 100, 101, 199, 200, 250, 400, 401, 10_000] {
        let mut img = slot(MetadataState::Loaded(md.clone()));
        img.select(&Viewport { scale });
        let n = img.size.expect("loaded metadata always selects a level");
        assert!(n >= previous, "scale {} chose {} after {}", scale, n, previous);
        previous = n;
    }
}

#[test]
fn pick_level_prefers_smallest_sufficient_level() {
    let md = three_level_pyramid();
    assert_eq!(pick_level(&md.thumbs, 0), 0);
    assert_eq!(pick_level(&md.thumbs, 100), 0);
    assert_eq!(pick_level(&md.thumbs, 101), 1);
    assert_eq!(pick_level(&md.thumbs, 200), 1);
    assert_eq!(pick_level(&md.thumbs, 201), 2);
    assert_eq!(pick_level(&md.thumbs, 400), 2);
}

#[test]
fn pick_level_falls_back_to_largest_level() {
    let md = three_level_pyramid();
    assert_eq!(pick_level(&md.thumbs, 401), 2);
    assert_eq!(pick_level(&md.thumbs, u32::MAX), 2);
    let single = pyramid(&[(128, &[1])]);
    assert_eq!(pick_level(&single.thumbs, u32::MAX), 0);
    assert_eq!(pick_level(&single.thumbs, 1), 0);
}

#[test]
fn draw_succeeds_with_every_tile_absent() {
    let mut img = slot(MetadataState::Loaded(three_level_pyramid()));
    img.select(&Viewport { scale: 150 });
    assert_eq!(img.size, Some(1));
    let tiles = TileCache::new();
    let mut canvas = Canvas::new();
    // Best-effort contract: a level was attempted, so the call succeeds,
    // even though nothing could be painted.
    assert!(img.draw(&Viewport { scale: 150 }, &tiles, &mut canvas));
    assert!(canvas.painted.is_empty());
}

#[test]
fn draw_paints_exactly_the_resident_tiles_in_order() {
    let mut img = slot(MetadataState::Loaded(three_level_pyramid()));
    img.select(&Viewport { scale: 300 });
    assert_eq!(img.size, Some(2));
    let mut tiles: TileCache = BTreeMap::new();
    tiles.insert(30, texture());
    tiles.insert(32, texture());
    tiles.insert(99, texture()); // not referenced by any level
    let mut canvas = Canvas::new();
    assert!(img.draw(&Viewport { scale: 300 }, &tiles, &mut canvas));
    assert_eq!(canvas.painted, vec![30, 32]);
}

#[test]
fn draw_appends_to_what_is_already_painted() {
    let mut img = slot(MetadataState::Loaded(three_level_pyramid()));
    img.select(&Viewport { scale: 50 });
    assert_eq!(img.size, Some(0));
    let mut tiles: TileCache = BTreeMap::new();
    tiles.insert(10, texture());
    tiles.insert(11, texture());
    let mut canvas = Canvas::new();
    canvas.painted.push(5);
    assert!(img.draw(&Viewport { scale: 50 }, &tiles, &mut canvas));
    assert_eq!(canvas.painted, vec![5, 10, 11]);
}

#[test]
fn cache_eviction_between_draws_is_tolerated() {
    let mut img = slot(MetadataState::Loaded(three_level_pyramid()));
    img.select(&Viewport { scale: 150 });
    let mut tiles: TileCache = BTreeMap::new();
    tiles.insert(20, texture());
    tiles.insert(21, texture());
    let mut canvas = Canvas::new();
    assert!(img.draw(&Viewport { scale: 150 }, &tiles, &mut canvas));
    assert_eq!(canvas.painted, vec![20, 21]);
    // The external loader evicts one tile; the next draw still succeeds and
    // paints only what is left.
    tiles.remove(&20);
    let mut second = Canvas::new();
    assert!(img.draw(&Viewport { scale: 150 }, &tiles, &mut second));
    assert_eq!(second.painted, vec![21]);
}

#[test]
fn slots_share_one_file_identity() {
    let file = Arc::new(File { id: 42 });
    let a = Image::from(0, Arc::clone(&file), MetadataState::Unknown);
    let b = Image::from(1, Arc::clone(&file), MetadataState::Unknown);
    assert_eq!(a.file.id, b.file.id);
    assert_eq!(a.i, 0);
    assert_eq!(b.i, 1);
}
