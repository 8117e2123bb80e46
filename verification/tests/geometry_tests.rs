use cellrs::geometry::{battery_size, battery_top_left};

#[test]
fn undersized_terminal_gives_sentinel() {
    // Every width below 10 is rejected, whatever the height.
    for w in 0..10u16 {
        assert_eq!(battery_size(w, 50), (0, 0));
        assert_eq!(battery_size(w, 7), (0, 0));
        assert_eq!(battery_size(w, 65535), (0, 0));
    }
    // Every height below 7 is rejected, whatever the width.
    for h in 0..7u16 {
        assert_eq!(battery_size(80, h), (0, 0));
        assert_eq!(battery_size(10, h), (0, 0));
        assert_eq!(battery_size(65535, h), (0, 0));
    }
    assert_eq!(battery_size(9, 6), (0, 0));
}

#[test]
fn glyph_width_is_multiple_of_five_below_terminal_width() {
    let sizes = [
        (10u16, 7u16),
        (24, 10),
        (25, 11),
        (49, 25),
        (50, 26),
        (99, 50),
        (100, 51),
        (300, 100),
        (1000, 101),
        (65535, 65535),
    ];
    for &(w, h) in sizes.iter() {
        let (gw, gh) = battery_size(w, h);
        assert_eq!(gw % 5, 0);
        assert!(gw >= 5);
        assert!(gw < w);
        assert!(gh >= 3);
        assert!(gh < h);
    }
}

#[test]
fn glyph_size_bands() {
    // Width bands: slots subtracted are 1, 2, 5 and 10.
    assert_eq!(battery_size(10, 20).0, 5);
    assert_eq!(battery_size(24, 20).0, 15);
    assert_eq!(battery_size(25, 20).0, 15);
    assert_eq!(battery_size(49, 20).0, 35);
    assert_eq!(battery_size(50, 20).0, 25);
    assert_eq!(battery_size(99, 20).0, 70);
    assert_eq!(battery_size(100, 20).0, 50);
    assert_eq!(battery_size(65535, 20).0, 65485);
    // Height bands: scaled below 11 rows, then fixed 7, 8, 9, 10.
    assert_eq!(battery_size(80, 7).1, 3);
    assert_eq!(battery_size(80, 10).1, 6);
    assert_eq!(battery_size(80, 11).1, 7);
    assert_eq!(battery_size(80, 25).1, 7);
    assert_eq!(battery_size(80, 26).1, 8);
    assert_eq!(battery_size(80, 50).1, 8);
    assert_eq!(battery_size(80, 51).1, 9);
    assert_eq!(battery_size(80, 100).1, 9);
    assert_eq!(battery_size(80, 101).1, 10);
    assert_eq!(battery_size(80, 65535).1, 10);
}

#[test]
fn anchor_centres_the_glyph() {
    // 80x24 terminal: glyph 55x7, centre (40, 12).
    assert_eq!(battery_top_left(80, 24), (40 - 55 / 2 + 1, 12 - 7 / 2));
    // Smallest valid terminal.
    assert_eq!(battery_top_left(10, 7), (5 - 2 + 1, 3 - 1));
}
