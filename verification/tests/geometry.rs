use progress_gauge::screen::{frame_geometry, ScreenRect, GAUGE_HEIGHT};

#[test]
fn frame_regions_of_a_small_screen() {
    let area = ScreenRect { x: 0, y: 0, width: 100, height: 10 };
    let g = frame_geometry(area);
    assert_eq!(g.header, ScreenRect { x: 0, y: 0, width: 100, height: 2 });
    assert_eq!(g.gauge, ScreenRect { x: 0, y: 2, width: 100, height: 3 });
}

#[test]
fn frame_regions_keep_the_screen_offset() {
    let area = ScreenRect { x: 5, y: 3, width: 80, height: 20 };
    let g = frame_geometry(area);
    assert_eq!(g.header, ScreenRect { x: 5, y: 3, width: 80, height: 4 });
    assert_eq!(g.gauge, ScreenRect { x: 5, y: 7, width: 80, height: GAUGE_HEIGHT });
}

#[test]
fn gauge_strip_height_is_fixed() {
    let area = ScreenRect { x: 0, y: 0, width: 40, height: 40 };
    let g = frame_geometry(area);
    assert_eq!(g.header.height, 8);
    assert_eq!(g.gauge.y, 8);
    assert_eq!(g.gauge.height, GAUGE_HEIGHT);
}
