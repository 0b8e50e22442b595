use xr3wm::tall::{complement, scale};
use xr3wm::{Layout, LayoutMsg, ProtocolClient, Rect, Stack, TallLayout, RATIO_ONE};

fn area() -> Rect {
    Rect { x: 0, y: 0, width: 1000, height: 800 }
}

fn r(x: u32, y: u32, width: u32, height: u32) -> Rect {
    Rect { x, y, width, height }
}

fn place(layout: &Layout, area: Rect, n: u64) -> Vec<Rect> {
    let stack = Stack::new((1..=n).collect(), 1);
    let mut client = ProtocolClient::new(Vec::new());
    let rects = layout.apply(area, &mut client, &stack);
    assert!(client.lowered.is_empty() || layout.name() != "Tall");
    rects
}

fn state(layout: &Layout) -> TallLayout {
    match layout {
        Layout::Tall(tall) => *tall,
        _ => panic!("not a tall layout"),
    }
}

#[test]
fn scale_rounds_down() {
    assert_eq!(scale(1000, 500_000), 500);
    assert_eq!(scale(1000, 618_000), 618);
    assert_eq!(scale(3, 500_000), 1);
    assert_eq!(scale(1, 999_999), 0);
    assert_eq!(scale(1_000_000, 1), 1);
    assert_eq!(scale(999_999, 1), 0);
    assert_eq!(scale(0, 700_000), 0);
    assert_eq!(scale(1000, 0), 0);
    assert_eq!(scale(1000, RATIO_ONE), 1000);
}

#[test]
fn scale_stops_at_the_largest_value() {
    assert_eq!(scale(u32::MAX, RATIO_ONE), u32::MAX);
    assert_eq!(scale(u32::MAX, 2_000_000), u32::MAX);
    assert_eq!(scale(u32::MAX, u32::MAX), u32::MAX);
    assert_eq!(scale(u32::MAX, 500_000), 2_147_483_647);
}

#[test]
fn complement_is_what_is_left_of_one() {
    assert_eq!(complement(0), 1_000_000);
    assert_eq!(complement(400_000), 600_000);
    assert_eq!(complement(RATIO_ONE), 0);
    assert_eq!(complement(RATIO_ONE + 1), 0);
    assert_eq!(complement(u32::MAX), 0);
}

#[test]
fn tall_is_called_tall() {
    assert_eq!(TallLayout::new(1, 500_000, 50_000).name(), "Tall");
}

#[test]
fn tall_one_master_two_others() {
    let layout = TallLayout::new(1, 500_000, 50_000);
    let rects = place(&layout, area(), 3);
    assert_eq!(rects.len(), 3);
    assert!(rects[0] == r(0, 0, 500, 800));
    assert!(rects[1] == r(500, 0, 500, 400));
    assert!(rects[2] == r(500, 400, 500, 400));
}

#[test]
fn tall_no_window_no_rectangle() {
    let layout = TallLayout::new(1, 500_000, 50_000);
    assert!(place(&layout, area(), 0).is_empty());
    assert!(place(&TallLayout::new(0, 0, 0), area(), 0).is_empty());
}

#[test]
fn tall_single_window_fills_the_area() {
    let layout = TallLayout::new(1, 300_000, 50_000);
    let rects = place(&layout, area(), 1);
    assert_eq!(rects.len(), 1);
    assert!(rects[0] == r(0, 0, 1000, 800));
}

#[test]
fn tall_every_window_a_master() {
    let layout = TallLayout::new(5, 300_000, 50_000);
    let rects = place(&layout, area(), 3);
    assert_eq!(rects.len(), 3);
    assert!(rects[0] == r(0, 0, 1000, 266));
    assert!(rects[1] == r(0, 266, 1000, 266));
    assert!(rects[2] == r(0, 532, 1000, 266));
}

#[test]
fn tall_as_many_masters_as_windows() {
    let layout = TallLayout::new(2, 300_000, 50_000);
    let rects = place(&layout, area(), 2);
    assert_eq!(rects.len(), 2);
    assert!(rects[0] == r(0, 0, 1000, 400));
    assert!(rects[1] == r(0, 400, 1000, 400));
}

#[test]
fn tall_two_masters_three_others() {
    let layout = TallLayout::new(2, 600_000, 50_000);
    let rects = place(&layout, r(100, 50, 1000, 900), 5);
    assert_eq!(rects.len(), 5);
    assert!(rects[0] == r(100, 50, 600, 450));
    assert!(rects[1] == r(100, 500, 600, 450));
    assert!(rects[2] == r(700, 50, 400, 300));
    assert!(rects[3] == r(700, 350, 400, 300));
    assert!(rects[4] == r(700, 650, 400, 300));
}

#[test]
fn tall_widths_round_down() {
    let layout = TallLayout::new(1, 333_333, 50_000);
    let rects = place(&layout, r(0, 0, 10, 10), 2);
    assert!(rects[0] == r(0, 0, 3, 10));
    assert!(rects[1] == r(3, 0, 6, 10));
}

#[test]
fn tall_without_masters_has_one_column() {
    let layout = TallLayout::new(0, 250_000, 50_000);
    let rects = place(&layout, area(), 2);
    assert_eq!(rects.len(), 2);
    assert!(rects[0] == r(250, 0, 750, 400));
    assert!(rects[1] == r(250, 400, 750, 400));
}

#[test]
fn tall_more_windows_than_pixels() {
    let layout = TallLayout::new(1, 500_000, 50_000);
    let rects = place(&layout, r(0, 0, 100, 2), 4);
    assert_eq!(rects.len(), 4);
    assert!(rects[0] == r(0, 0, 50, 2));
    assert!(rects[1] == r(50, 0, 50, 0));
    assert!(rects[2] == r(50, 0, 50, 0));
    assert!(rects[3] == r(50, 0, 50, 0));
}

#[test]
fn tall_ratio_above_one() {
    let layout = TallLayout::new(1, 1_500_000, 50_000);
    let rects = place(&layout, area(), 2);
    assert!(rects[0] == r(0, 0, 1500, 800));
    assert!(rects[1] == r(1500, 0, 0, 800));
}

#[test]
fn tall_coordinates_stop_at_the_largest_value() {
    let layout = TallLayout::new(1, 500_000, 50_000);
    let rects = place(&layout, r(u32::MAX - 10, u32::MAX - 10, 100, 100), 3);
    assert!(rects[0] == r(u32::MAX - 10, u32::MAX - 10, 50, 100));
    assert!(rects[1] == r(u32::MAX, u32::MAX - 10, 50, 50));
    assert!(rects[2] == r(u32::MAX, u32::MAX, 50, 50));
}

#[test]
fn tall_simple_apply_needs_only_the_windows() {
    let tall = TallLayout { num_masters: 1, ratio: 500_000, ratio_increment: 50_000 };
    let rects = tall.simple_apply(area(), &[7, 8, 9]);
    assert_eq!(rects.len(), 3);
    assert!(rects[0] == r(0, 0, 500, 800));
    assert!(rects[1] == r(500, 0, 500, 400));
    assert!(rects[2] == r(500, 400, 500, 400));
}

#[test]
fn tall_apply_leaves_the_client_alone() {
    let tall = TallLayout { num_masters: 1, ratio: 500_000, ratio_increment: 50_000 };
    let stack = Stack::new(vec![1, 2], 2);
    let mut client = ProtocolClient::new(Vec::new());
    client.lower_window(77);
    let rects = tall.apply(area(), &mut client, &stack);
    assert_eq!(rects.len(), 2);
    assert_eq!(client.lowered, vec![77]);
    assert!(client.struts.is_empty());
}

#[test]
fn increase_adds_the_increment() {
    let mut layout = TallLayout::new(1, 500_000, 50_000);
    layout.send_msg(LayoutMsg::Increase);
    assert_eq!(state(&layout).ratio, 550_000);
    assert_eq!(state(&layout).ratio_increment, 50_000);
    assert_eq!(state(&layout).num_masters, 1);
}

#[test]
fn increase_never_reaches_one() {
    let mut layout = TallLayout::new(1, 500_000, 50_000);
    for _ in 0..100 {
        layout.send_msg(LayoutMsg::Increase);
        assert!(state(&layout).ratio < RATIO_ONE);
    }
    assert_eq!(state(&layout).ratio, 950_000);
}

#[test]
fn increase_to_exactly_one_is_refused() {
    let mut layout = TallLayout::new(1, 900_000, 100_000);
    layout.send_msg(LayoutMsg::Increase);
    assert_eq!(state(&layout).ratio, 900_000);
    let mut layout = TallLayout::new(1, 899_999, 100_000);
    layout.send_msg(LayoutMsg::Increase);
    assert_eq!(state(&layout).ratio, 999_999);
}

#[test]
fn increase_with_a_huge_increment_is_refused() {
    let mut layout = TallLayout::new(1, 500_000, u32::MAX);
    layout.send_msg(LayoutMsg::Increase);
    assert_eq!(state(&layout).ratio, 500_000);
}

#[test]
fn decrease_takes_the_increment_off() {
    let mut layout = TallLayout::new(1, 500_000, 50_000);
    layout.send_msg(LayoutMsg::Decrease);
    assert_eq!(state(&layout).ratio, 450_000);
}

#[test]
fn decrease_never_reaches_the_increment() {
    let mut layout = TallLayout::new(1, 500_000, 50_000);
    for _ in 0..100 {
        layout.send_msg(LayoutMsg::Decrease);
        assert!(state(&layout).ratio > 50_000);
    }
    assert_eq!(state(&layout).ratio, 100_000);
}

#[test]
fn decrease_below_the_increment_is_refused() {
    let mut layout = TallLayout::new(1, 100_000, 50_000);
    layout.send_msg(LayoutMsg::Decrease);
    assert_eq!(state(&layout).ratio, 100_000);
    let mut layout = TallLayout::new(1, 100_001, 50_000);
    layout.send_msg(LayoutMsg::Decrease);
    assert_eq!(state(&layout).ratio, 50_001);
    let mut layout = TallLayout::new(1, 10, 50_000);
    layout.send_msg(LayoutMsg::Decrease);
    assert_eq!(state(&layout).ratio, 10);
}

#[test]
fn increase_master_counts_up() {
    let mut layout = TallLayout::new(1, 500_000, 50_000);
    layout.send_msg(LayoutMsg::IncreaseMaster);
    layout.send_msg(LayoutMsg::IncreaseMaster);
    assert_eq!(state(&layout).num_masters, 3);
    assert_eq!(state(&layout).ratio, 500_000);
}

#[test]
fn increase_master_stops_at_the_largest_count() {
    let mut layout = TallLayout::new(usize::MAX - 1, 500_000, 50_000);
    layout.send_msg(LayoutMsg::IncreaseMaster);
    assert_eq!(state(&layout).num_masters, usize::MAX);
    layout.send_msg(LayoutMsg::IncreaseMaster);
    assert_eq!(state(&layout).num_masters, usize::MAX);
}

#[test]
fn decrease_master_stops_at_one() {
    let mut layout = TallLayout::new(3, 500_000, 50_000);
    layout.send_msg(LayoutMsg::DecreaseMaster);
    assert_eq!(state(&layout).num_masters, 2);
    layout.send_msg(LayoutMsg::DecreaseMaster);
    assert_eq!(state(&layout).num_masters, 1);
    layout.send_msg(LayoutMsg::DecreaseMaster);
    assert_eq!(state(&layout).num_masters, 1);
}

#[test]
fn tall_ignores_the_other_messages() {
    let mut layout = TallLayout::new(2, 500_000, 50_000);
    for msg in [
        LayoutMsg::SplitHorizontal,
        LayoutMsg::SplitVertical,
        LayoutMsg::NextLayout,
        LayoutMsg::PrevLayout,
        LayoutMsg::FirstLayout,
        LayoutMsg::LastLayout,
        LayoutMsg::Custom("Increase".to_string()),
    ] {
        layout.send_msg(msg);
    }
    assert!(
        state(&layout) == TallLayout { num_masters: 2, ratio: 500_000, ratio_increment: 50_000 }
    );
}

#[test]
fn messages_show_in_the_geometry() {
    let mut layout = TallLayout::new(1, 500_000, 100_000);
    layout.send_msg(LayoutMsg::Increase);
    layout.send_msg(LayoutMsg::IncreaseMaster);
    let rects = place(&layout, area(), 3);
    assert!(rects[0] == r(0, 0, 600, 400));
    assert!(rects[1] == r(0, 400, 600, 400));
    assert!(rects[2] == r(600, 0, 400, 800));
}

#[test]
fn tall_copy_has_the_state() {
    let tall = TallLayout { num_masters: 4, ratio: 123_456, ratio_increment: 7 };
    assert!(state(&tall.copy()) == tall);
}
