use xr3wm::text::decimal_string;
use xr3wm::{LayoutMsg, Rect};

fn rect(x: u32, y: u32, width: u32, height: u32) -> Rect {
    Rect { x, y, width, height }
}

#[test]
fn decimal_of_zero_is_one_digit() {
    assert_eq!(decimal_string(0), "0");
}

#[test]
fn decimal_has_no_leading_zeros() {
    assert_eq!(decimal_string(7), "7");
    assert_eq!(decimal_string(10), "10");
    assert_eq!(decimal_string(970), "970");
    assert_eq!(decimal_string(1_000_000), "1000000");
}

#[test]
fn decimal_of_the_largest_value() {
    assert_eq!(decimal_string(u64::MAX), "18446744073709551615");
}

#[test]
fn decimal_agrees_with_std_on_many_values() {
    let mut n: u64 = 1;
    for step in 0..200u64 {
        assert_eq!(decimal_string(n), format!("{}", n));
        n = n.wrapping_mul(6364136223846793005).wrapping_add(step);
    }
}

#[test]
fn rect_fmt_lists_the_four_fields() {
    assert_eq!(rect(0, 0, 1000, 800).fmt(), "{ x: 0, y: 0, width: 1000, height: 800 }");
    assert_eq!(rect(15, 7, 960, 3).fmt(), "{ x: 15, y: 7, width: 960, height: 3 }");
}

#[test]
fn rect_fmt_of_the_largest_values() {
    assert_eq!(
        rect(u32::MAX, u32::MAX, u32::MAX, u32::MAX).fmt(),
        "{ x: 4294967295, y: 4294967295, width: 4294967295, height: 4294967295 }"
    );
}

#[test]
fn layout_msg_fmt_names_each_message() {
    assert_eq!(LayoutMsg::Increase.fmt(), "Increase");
    assert_eq!(LayoutMsg::Decrease.fmt(), "Decrease");
    assert_eq!(LayoutMsg::IncreaseMaster.fmt(), "IncreasMaster");
    assert_eq!(LayoutMsg::DecreaseMaster.fmt(), "DecreaseMaster");
    assert_eq!(LayoutMsg::SplitHorizontal.fmt(), "SplitHorizontal");
    assert_eq!(LayoutMsg::SplitVertical.fmt(), "SplitVertical");
    assert_eq!(LayoutMsg::NextLayout.fmt(), "NextLayout");
    assert_eq!(LayoutMsg::PrevLayout.fmt(), "PrevLayout");
    assert_eq!(LayoutMsg::FirstLayout.fmt(), "FirstLayout");
    assert_eq!(LayoutMsg::LastLayout.fmt(), "LastLayout");
}

#[test]
fn layout_msg_fmt_wraps_custom_text() {
    assert_eq!(LayoutMsg::Custom("swap".to_string()).fmt(), "Custom(swap)");
    assert_eq!(LayoutMsg::Custom(String::new()).fmt(), "Custom()");
}

#[test]
fn layout_msg_clone_keeps_the_message() {
    let msg = LayoutMsg::Custom("x".to_string());
    assert_eq!(msg.clone().fmt(), msg.fmt());
}

#[test]
fn inset_moves_every_side_inwards() {
    assert!(rect(0, 0, 1000, 800).inset(10) == rect(10, 10, 980, 780));
    assert!(rect(10, 10, 980, 780).inset(5) == rect(15, 15, 970, 770));
    assert!(rect(3, 4, 5, 6).inset(0) == rect(3, 4, 5, 6));
}

#[test]
fn inset_stops_at_an_empty_extent() {
    assert!(rect(0, 0, 19, 20).inset(10) == rect(10, 10, 0, 0));
    assert!(rect(0, 0, 5, 100).inset(10) == rect(10, 10, 0, 80));
    assert!(rect(0, 0, 10, 10).inset(u32::MAX) == rect(u32::MAX, u32::MAX, 0, 0));
}

#[test]
fn inset_stops_at_the_largest_coordinate() {
    assert!(rect(u32::MAX - 3, 0, 100, 100).inset(10) == rect(u32::MAX, 10, 80, 80));
}

#[test]
fn mirror_reflects_within_the_span() {
    assert!(rect(0, 0, 400, 800).mirror(1000) == rect(600, 0, 400, 800));
    assert!(rect(600, 0, 400, 800).mirror(1000) == rect(0, 0, 400, 800));
    assert!(rect(100, 5, 300, 7).mirror(1000) == rect(600, 5, 300, 7));
}

#[test]
fn mirror_twice_is_the_rectangle_itself() {
    let r = rect(123, 9, 456, 78);
    assert!(r.mirror(1000).mirror(1000) == r);
}

#[test]
fn mirror_is_zero_beyond_the_span() {
    assert!(rect(900, 0, 400, 800).mirror(1000) == rect(0, 0, 400, 800));
    assert!(rect(u32::MAX, 0, u32::MAX, 1).mirror(10) == rect(0, 0, u32::MAX, 1));
}

#[test]
fn without_margins_cuts_each_edge() {
    assert!(rect(0, 0, 1000, 800).without_margins(10, 20, 30, 40) == rect(10, 30, 970, 730));
    assert!(rect(5, 5, 100, 100).without_margins(0, 0, 0, 0) == rect(5, 5, 100, 100));
}

#[test]
fn without_margins_stops_at_an_empty_extent() {
    assert!(rect(0, 0, 100, 100).without_margins(60, 60, 0, 200) == rect(60, 0, 0, 0));
    assert!(
        rect(u32::MAX, 1, 10, 10).without_margins(u32::MAX, u32::MAX, 0, 0)
            == rect(u32::MAX, 1, 0, 10)
    );
}
