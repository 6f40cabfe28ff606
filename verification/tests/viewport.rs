use bevy_viewcube::viewcube::{update_view, SmallView, UVec2, Viewport};

#[test]
fn viewcube_view_of_a_window() {
    let viewport = update_view(SmallView::Viewcube, 1280, 720);
    assert_eq!(
        viewport,
        Viewport {
            physical_position: UVec2 { x: 0, y: 432 },
            physical_size: UVec2 { x: 384, y: 288 },
        }
    );
}

#[test]
fn trident_view_of_a_window() {
    let viewport = update_view(SmallView::Trident, 1280, 720);
    assert_eq!(
        viewport,
        Viewport {
            physical_position: UVec2 { x: 0, y: 648 },
            physical_size: UVec2 { x: 128, y: 72 },
        }
    );
}

#[test]
fn shares_of_a_window_are_rounded_down() {
    let viewport = update_view(SmallView::Viewcube, 1005, 777);
    assert_eq!(viewport.physical_position, UVec2 { x: 0, y: 466 });
    assert_eq!(viewport.physical_size, UVec2 { x: 301, y: 310 });
    let viewport = update_view(SmallView::Trident, 9, 9);
    assert_eq!(viewport.physical_position, UVec2 { x: 0, y: 8 });
    assert_eq!(viewport.physical_size, UVec2 { x: 0, y: 0 });
}

#[test]
fn doubling_the_width_doubles_the_view() {
    for width in [0u32, 10, 640, 1280, 1920, 100_000] {
        let narrow = update_view(SmallView::Viewcube, width, 720);
        let wide = update_view(SmallView::Viewcube, 2 * width, 720);
        assert_eq!(wide.physical_size.x, 2 * narrow.physical_size.x);
        assert_eq!(wide.physical_position.x, 2 * narrow.physical_position.x);
        assert_eq!(wide.physical_position.y, narrow.physical_position.y);
        assert_eq!(wide.physical_size.y, narrow.physical_size.y);
    }
    for view in [SmallView::Trident, SmallView::Viewcube] {
        let percent = if view == SmallView::Trident { 10 } else { 30 };
        for width in 0..2000u32 {
            let narrow = update_view(view, width, 720);
            let wide = update_view(view, 2 * width, 720);
            let rounded = if (width * percent) % 100 >= 50 { 1 } else { 0 };
            assert_eq!(wide.physical_size.x, 2 * narrow.physical_size.x + rounded);
        }
    }
    assert_eq!(update_view(SmallView::Viewcube, 5, 720).physical_size.x, 1);
    assert_eq!(update_view(SmallView::Viewcube, 10, 720).physical_size.x, 3);
    assert_eq!(update_view(SmallView::Viewcube, 4, 720).physical_size.x, 1);
    assert_eq!(update_view(SmallView::Viewcube, 8, 720).physical_size.x, 2);
}

#[test]
fn doubling_the_height_doubles_the_view() {
    for height in 0..2000u32 {
        let low = update_view(SmallView::Viewcube, 1280, height);
        let high = update_view(SmallView::Viewcube, 1280, 2 * height);
        let top = if (height * 60) % 100 >= 50 { 1 } else { 0 };
        let size = if (height * 40) % 100 >= 50 { 1 } else { 0 };
        assert_eq!(high.physical_position.y, 2 * low.physical_position.y + top);
        assert_eq!(high.physical_size.y, 2 * low.physical_size.y + size);
        assert_eq!(high.physical_size.x, low.physical_size.x);
        assert_eq!(high.physical_position.x, 0);
    }
}

#[test]
fn view_of_the_largest_window_stays_inside() {
    let viewport = update_view(SmallView::Viewcube, u32::MAX, u32::MAX);
    assert_eq!(viewport.physical_position.y, 2576980377);
    assert_eq!(viewport.physical_size, UVec2 { x: 1288490188, y: 1717986918 });
    assert_eq!(viewport.physical_position.y + viewport.physical_size.y, u32::MAX);
}

#[test]
fn whole_pixel_shares_match_the_fractions() {
    // Where the share is the product of the length and a fraction, cut to a
    // whole pixel, both ways of reckoning agree on windows of ordinary size.
    for length in 0..5000u32 {
        let viewport = update_view(SmallView::Viewcube, length, length);
        assert_eq!(viewport.physical_position.y, (length as f32 * 0.6) as u32);
        assert_eq!(viewport.physical_size.x, (length as f32 * 0.3) as u32);
        assert_eq!(viewport.physical_size.y, (length as f32 * 0.4) as u32);
        let viewport = update_view(SmallView::Trident, length, length);
        assert_eq!(viewport.physical_position.y, (length as f32 * 0.9) as u32);
        assert_eq!(viewport.physical_size.x, (length as f32 * 0.1) as u32);
    }
}
