use xr3wm::{ProtocolClient, Rect, Strut, StrutPartial};

fn screen() -> Rect {
    Rect { x: 0, y: 0, width: 1920, height: 1080 }
}

fn none() -> StrutPartial {
    StrutPartial {
        left: 0,
        right: 0,
        top: 0,
        bottom: 0,
        left_start_y: 0,
        left_end_y: 0,
        right_start_y: 0,
        right_end_y: 0,
        top_start_x: 0,
        top_end_x: 0,
        bottom_start_x: 0,
        bottom_end_x: 0,
    }
}

fn top(width: u64, start_x: u64, end_x: u64) -> StrutPartial {
    StrutPartial { top: width, top_start_x: start_x, top_end_x: end_x, ..none() }
}

fn bottom(width: u64, start_x: u64, end_x: u64) -> StrutPartial {
    StrutPartial { bottom: width, bottom_start_x: start_x, bottom_end_x: end_x, ..none() }
}

fn left(width: u64, start_y: u64, end_y: u64) -> StrutPartial {
    StrutPartial { left: width, left_start_y: start_y, left_end_y: end_y, ..none() }
}

fn right(width: u64, start_y: u64, end_y: u64) -> StrutPartial {
    StrutPartial { right: width, right_start_y: start_y, right_end_y: end_y, ..none() }
}

fn reserved(struts: Vec<StrutPartial>, screen: Rect) -> Strut {
    ProtocolClient::new(struts).get_strut(screen)
}

#[test]
fn from_property_reads_twelve_values() {
    let values: Vec<u64> = (1..=12).collect();
    let strut = StrutPartial::from_property(&values).unwrap();
    assert_eq!(strut.left, 1);
    assert_eq!(strut.right, 2);
    assert_eq!(strut.top, 3);
    assert_eq!(strut.bottom, 4);
    assert_eq!(strut.left_start_y, 5);
    assert_eq!(strut.left_end_y, 6);
    assert_eq!(strut.right_start_y, 7);
    assert_eq!(strut.right_end_y, 8);
    assert_eq!(strut.top_start_x, 9);
    assert_eq!(strut.top_end_x, 10);
    assert_eq!(strut.bottom_start_x, 11);
    assert_eq!(strut.bottom_end_x, 12);
}

#[test]
fn from_property_ignores_what_follows_the_twelfth_value() {
    let values: Vec<u64> = (1..=20).collect();
    let strut = StrutPartial::from_property(&values).unwrap();
    assert_eq!(strut.left, 1);
    assert_eq!(strut.bottom_end_x, 12);
}

#[test]
fn from_property_refuses_a_short_property() {
    let values: Vec<u64> = (1..=11).collect();
    assert!(StrutPartial::from_property(&values).is_none());
    assert!(StrutPartial::from_property(&[]).is_none());
    assert!(StrutPartial::from_property(&[0, 0, 0, 0]).is_none());
}

#[test]
fn margins_keep_the_low_32_bits() {
    let strut = StrutPartial { left: (1 << 32) + 5, right: u64::MAX, top: 7, ..none() };
    assert!(strut.margins() == Strut(5, u32::MAX, 7, 0));
}

#[test]
fn a_reservation_without_width_concerns_no_screen() {
    assert!(!none().applies(screen()));
    assert!(!top(0, 0, 1919).applies(screen()));
}

#[test]
fn a_span_that_starts_on_the_screen_concerns_it() {
    assert!(top(20, 0, 5000).applies(screen()));
    assert!(top(20, 1919, 5000).applies(screen()));
    assert!(!top(20, 1920, 5000).applies(screen()));
}

#[test]
fn a_span_that_ends_on_the_screen_concerns_it() {
    let second = Rect { x: 1920, y: 0, width: 1280, height: 1024 };
    assert!(top(20, 0, 1920).applies(second));
    assert!(top(20, 0, 3200).applies(second));
    assert!(!top(20, 0, 3201).applies(second));
    assert!(!top(20, 0, 1919).applies(second));
}

#[test]
fn left_and_right_spans_are_vertical() {
    let lower = Rect { x: 0, y: 1080, width: 1920, height: 1080 };
    assert!(left(30, 1080, 2159).applies(lower));
    assert!(!left(30, 0, 1079).applies(lower));
    assert!(right(30, 1500, 9999).applies(lower));
    assert!(!right(30, 0, 500).applies(lower));
    assert!(!left(30, 0, 500).applies(Rect { x: 0, y: 600, width: 5000, height: 10 }));
}

#[test]
fn top_and_bottom_spans_are_horizontal() {
    let second = Rect { x: 1920, y: 0, width: 1280, height: 1024 };
    assert!(bottom(25, 1920, 3199).applies(second));
    assert!(!bottom(25, 0, 1919).applies(second));
    assert!(!bottom(25, 0, 100).applies(Rect { x: 200, y: 0, width: 10, height: 5000 }));
}

#[test]
fn nothing_is_reserved_without_reservations() {
    assert!(reserved(Vec::new(), screen()) == Strut(0, 0, 0, 0));
}

#[test]
fn one_panel_reserves_its_edge() {
    assert!(reserved(vec![top(24, 0, 1919)], screen()) == Strut(0, 0, 24, 0));
    assert!(reserved(vec![bottom(30, 0, 1919)], screen()) == Strut(0, 0, 0, 30));
    assert!(reserved(vec![left(64, 0, 1079)], screen()) == Strut(64, 0, 0, 0));
    assert!(reserved(vec![right(48, 0, 1079)], screen()) == Strut(0, 48, 0, 0));
}

#[test]
fn the_largest_width_counts_not_the_sum() {
    let struts = vec![top(24, 0, 1919), top(30, 0, 1919), top(10, 0, 1919)];
    assert!(reserved(struts, screen()) == Strut(0, 0, 30, 0));
}

#[test]
fn each_edge_has_its_own_largest_width() {
    let struts = vec![
        top(24, 0, 1919),
        left(64, 0, 1079),
        bottom(30, 0, 1919),
        left(32, 0, 1079),
        right(5, 0, 1079),
        bottom(31, 0, 1919),
    ];
    assert!(reserved(struts, screen()) == Strut(64, 5, 24, 31));
}

#[test]
fn a_panel_of_another_screen_is_ignored() {
    let second = Rect { x: 1920, y: 0, width: 1280, height: 1024 };
    let struts = vec![top(24, 0, 1919), top(40, 1920, 3199)];
    assert!(reserved(struts.clone(), second) == Strut(0, 0, 40, 0));
    assert!(reserved(vec![top(24, 0, 1919)], second) == Strut(0, 0, 0, 0));
    assert!(reserved(struts, Rect { x: 5000, y: 0, width: 100, height: 100 }) == Strut(0, 0, 0, 0));
}

#[test]
fn a_reservation_that_concerns_the_screen_counts_at_every_edge() {
    let both = StrutPartial {
        left: 10,
        left_start_y: 0,
        left_end_y: 100,
        top: 7,
        top_start_x: 9000,
        top_end_x: 9001,
        ..none()
    };
    assert!(reserved(vec![both], screen()) == Strut(10, 0, 7, 0));
}

#[test]
fn get_strut_changes_nothing() {
    let client = ProtocolClient::new(vec![top(24, 0, 1919)]);
    assert!(client.get_strut(screen()) == Strut(0, 0, 24, 0));
    assert!(client.get_strut(screen()) == Strut(0, 0, 24, 0));
    assert_eq!(client.struts.len(), 1);
    assert!(client.lowered.is_empty());
}

#[test]
fn lower_window_records_the_requests_in_order() {
    let mut client = ProtocolClient::new(vec![top(24, 0, 1919)]);
    client.lower_window(3);
    client.lower_window(1);
    client.lower_window(3);
    assert_eq!(client.lowered, vec![3, 1, 3]);
    assert_eq!(client.struts.len(), 1);
}

#[test]
fn strut_max_is_edgewise() {
    assert!(Strut(1, 20, 3, 40).max(Strut(10, 2, 30, 4)) == Strut(10, 20, 30, 40));
    assert!(Strut(0, 0, 0, 0).max(Strut(0, 0, 0, 0)) == Strut(0, 0, 0, 0));
}
