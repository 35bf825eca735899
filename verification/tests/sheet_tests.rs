use walk_the_dog::segments::SegmentFactory;
use walk_the_dog::sheet::{Cell, Sheet, SheetRect};

fn cell(w: i16, h: i16) -> Cell {
    Cell {
        frame: SheetRect { x: 0, y: 0, w, h },
        sprite_source_size: SheetRect { x: 0, y: 0, w: 0, h: 0 },
    }
}

#[test]
fn an_empty_sheet_resolves_nothing() {
    let sheet = Sheet::new();
    assert!(sheet.cell(&String::from("Run (1).png")).is_none());
}

#[test]
fn lookup_finds_a_bound_cell_and_only_that_name() {
    let mut sheet = Sheet::new();
    sheet.add_cell(String::from("Run (1).png"), cell(68, 74));
    assert_eq!(sheet.cell(&String::from("Run (1).png")).unwrap().frame.w, 68);
    assert!(sheet.cell(&String::from("Run (2).png")).is_none());
}

#[test]
fn the_first_binding_of_a_name_wins() {
    let mut sheet = Sheet::new();
    sheet.add_cell(String::from("Run (1).png"), cell(68, 74));
    sheet.add_cell(String::from("Run (1).png"), cell(99, 99));
    assert_eq!(sheet.cell(&String::from("Run (1).png")).unwrap().frame.w, 68);
}

#[test]
fn a_kind_outside_the_catalog_builds_nothing() {
    let mut factory = SegmentFactory::new(146, 54);
    let segment = factory.select(17, 0);
    assert!(segment.is_empty());
    // The id counter still advanced, as for any built segment.
    assert_eq!(factory.id, 1);
}

#[test]
fn every_catalog_kind_builds_its_documented_shape() {
    let mut factory = SegmentFactory::new(146, 54);
    // Segment lengths of the six shapes: platform-and-stone, platform high,
    // platform low, stone, stone-and-platform, stone-on-platform.
    let expected_lengths = [4, 1, 1, 3, 5, 2];
    for (kind, expected) in expected_lengths.iter().enumerate() {
        let segment = factory.select(kind as i32, 100);
        assert_eq!(segment.len(), *expected);
    }
    assert_eq!(factory.id, 6);
}

#[test]
fn segment_ids_carry_the_counter() {
    let mut factory = SegmentFactory::new(146, 54);
    let _ = factory.first();
    let second = factory.select(3, 800);
    let ids: Vec<String> = second.iter().map(|o| o.id().clone()).collect();
    assert_eq!(ids, vec!["b2_lm", "b2", "b2_rm"]);
}

#[test]
fn context_info_renders_the_diagnostic_line() {
    let ctx = walk_the_dog::dog::context::DogContext::new();
    assert_eq!(ctx.info(), "pos=(10,519) v=(4,0) floor=600");
    let mut moved = ctx;
    moved.position.x = -35;
    assert_eq!(moved.info(), "pos=(-35,519) v=(4,0) floor=600");
}
