use path_planner::geometry::{displacement, is_on_field, to_feet, Alliance, Point};
use path_planner::path::{next_action, Action, Planner, Waypoint};
use path_planner::text::{action_string, format_items};

fn px(x: i64, y: i64) -> Point {
    Point { x: x * 100, y: y * 100 }
}

#[test]
fn clicks_on_field_add_one_waypoint_each() {
    let mut planner = Planner::new();
    let clicks = [px(10, 10), px(100, 200), px(1084, 527), px(6, 6), px(500, 300)];
    for (n, c) in clicks.iter().enumerate() {
        assert!(planner.click(*c));
        assert_eq!(planner.items().len(), n + 1);
    }
    assert_eq!(planner.items().len(), clicks.len());
}

#[test]
fn first_waypoint_is_start() {
    let mut planner = Planner::new();
    planner.set_angle(90);
    assert!(planner.click(px(100, 100)));
    assert_eq!(planner.items()[0].action, Action::Start);
    assert_eq!(planner.angle(), 0);
    planner.click(px(200, 100));
    planner.click(px(300, 100));
    assert_eq!(planner.items()[0].action, Action::Start);
    planner.reset();
    planner.set_angle(45);
    planner.click(px(400, 400));
    assert_eq!(planner.items()[0].action, Action::Start);
    assert_eq!(planner.items()[0].position, px(400, 400));
}

#[test]
fn blue_displacement_signs() {
    assert_eq!(displacement(Alliance::Blue, px(100, 100), px(200, 150)), (4_175_988, -2_087_994));
    assert_eq!(displacement(Alliance::Blue, px(200, 150), px(100, 100)), (-4_175_988, 2_087_994));
}

#[test]
fn red_displacement_flips_both_signs() {
    let pairs = [(px(100, 100), px(200, 150)), (px(7, 500), px(1000, 6)), (px(300, 300), px(300, 300))];
    for (a, b) in pairs.iter() {
        let blue = displacement(Alliance::Blue, *a, *b);
        let red = displacement(Alliance::Red, *a, *b);
        assert_eq!(red, (-blue.0, -blue.1));
    }
    assert_eq!(displacement(Alliance::Red, px(100, 100), px(200, 150)), (-4_175_988, 2_087_994));
}

#[test]
fn two_waypoint_path_text() {
    let items = vec![
        Waypoint { position: px(100, 100), action: Action::Start },
        Waypoint { position: px(200, 150), action: Action::Translate(4_175_988, -2_087_994) },
    ];
    assert_eq!(format_items(&items), "{Action::None, Action::Translate(4.175988, -2.087994)}");
}

#[test]
fn reset_gives_empty_text() {
    let mut planner = Planner::new();
    planner.click(px(100, 100));
    planner.click(px(200, 150));
    planner.reset();
    assert!(planner.items().is_empty());
    assert_eq!(format_items(planner.items()), "{}");
    planner.reset();
    assert_eq!(format_items(planner.items()), "{}");
}

#[test]
fn clicks_off_field_are_ignored() {
    let mut planner = Planner::new();
    planner.click(px(100, 100));
    planner.set_angle(30);
    assert!(!planner.click(Point { x: 490, y: 10_000 }));
    assert!(!planner.click(Point { x: 10_000, y: 53_000 }));
    assert_eq!(planner.items().len(), 1);
    assert_eq!(planner.angle(), 30);
}

#[test]
fn blue_click_example() {
    let mut planner = Planner::new();
    assert_eq!(planner.alliance(), Alliance::Blue);
    planner.click(px(100, 100));
    planner.click(px(200, 150));
    assert_eq!(planner.items()[1].action, Action::Translate(4_175_988, -2_087_994));
    assert_eq!(action_string(planner.items()[1].action), "Action::Translate(4.175988, -2.087994)");
}

#[test]
fn rotation_is_attached_and_consumed() {
    let mut planner = Planner::new();
    planner.set_alliance(Alliance::Red);
    planner.click(px(100, 100));
    planner.set_angle(-90);
    planner.click(px(200, 150));
    planner.click(px(200, 100));
    assert_eq!(planner.items()[1].action, Action::TranslateAndRotate(-4_175_988, 2_087_994, -90));
    assert_eq!(planner.items()[2].action, Action::Translate(0, -2_087_994));
    assert_eq!(
        format_items(planner.items()),
        "{Action::None, Action::TranslateAndRotate(-4.175988, 2.087994, -90), Action::Translate(0, -2.087994)}"
    );
}

#[test]
fn angle_is_clamped_to_a_full_turn() {
    let mut planner = Planner::new();
    planner.set_angle(400);
    assert_eq!(planner.angle(), 360);
    planner.set_angle(-500);
    assert_eq!(planner.angle(), -360);
    planner.set_angle(360);
    assert_eq!(planner.angle(), 360);
    planner.click(px(10, 10));
    planner.set_angle(360);
    planner.click(px(20, 10));
    assert_eq!(planner.items()[1].action, Action::TranslateAndRotate(417_599, 0, 360));
}

#[test]
fn field_bounds_are_open() {
    assert!(!is_on_field(Point { x: 500, y: 1000 }));
    assert!(is_on_field(Point { x: 501, y: 1000 }));
    assert!(!is_on_field(Point { x: 108_500, y: 1000 }));
    assert!(is_on_field(Point { x: 108_499, y: 52_799 }));
    assert!(!is_on_field(Point { x: 1000, y: 52_800 }));
    assert!(!is_on_field(Point { x: 1000, y: 500 }));
    assert!(!is_on_field(Point { x: -1000, y: -1000 }));
}

#[test]
fn feet_conversion_rounds_to_nearest() {
    assert_eq!(to_feet(0), 0);
    assert_eq!(to_feet(1), 418);
    assert_eq!(to_feet(-1), -418);
    assert_eq!(to_feet(100), 41_760);
    assert_eq!(to_feet(13_410), 5_600_000);
    assert_eq!(to_feet(67_050), 28_000_000);
    assert_eq!(to_feet(44_700), 18_666_667);
    assert_eq!(to_feet(-108_500), -45_309_471);
}

#[test]
fn number_text_forms() {
    assert_eq!(action_string(Action::Translate(5_600_000, -28_000_000)), "Action::Translate(5.6, -28)");
    assert_eq!(action_string(Action::Translate(418, -418)), "Action::Translate(0.000418, -0.000418)");
    assert_eq!(action_string(Action::Translate(18_666_667, 10)), "Action::Translate(18.666667, 0.00001)");
    assert_eq!(
        action_string(Action::TranslateAndRotate(1_000_000, 0, 360)),
        "Action::TranslateAndRotate(1, 0, 360)"
    );
    assert_eq!(action_string(Action::Start), "Action::None");
    assert_eq!(
        action_string(Action::Translate(i64::MIN, i64::MAX)),
        "Action::Translate(-9223372036854.775808, 9223372036854.775807)"
    );
}

#[test]
fn next_action_uses_pending_angle() {
    assert_eq!(next_action(Alliance::Blue, px(100, 100), px(200, 150), 0), Action::Translate(4_175_988, -2_087_994));
    assert_eq!(
        next_action(Alliance::Blue, px(100, 100), px(200, 150), 15),
        Action::TranslateAndRotate(4_175_988, -2_087_994, 15)
    );
}
