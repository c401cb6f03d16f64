use jerry::error::MoveError;
use jerry::geometry::{BoundingBox, Direction, Point, Rectangle};
use jerry::monitor::structs::Monitor;

fn monitor(name: &str, x: i32, y: i32, w: i32, h: i32) -> Monitor {
    Monitor::new(name.to_string(), x, y, w, h).unwrap()
}

#[test]
fn direction_parses_whatever_the_case() {
    assert_eq!(Direction::from_str("Up"), Ok(Direction::Up));
    assert_eq!(Direction::from_str("UP"), Ok(Direction::Up));
    assert_eq!(Direction::from_str("up"), Ok(Direction::Up));
    assert_eq!(Direction::from_str("LEFT"), Ok(Direction::Left));
    assert_eq!(Direction::from_str("Right"), Ok(Direction::Right));
    assert_eq!(Direction::from_str("dOwN"), Ok(Direction::Down));
}

#[test]
fn direction_rejects_other_tokens() {
    assert_eq!(
        Direction::from_str("diagonal"),
        Err(MoveError::InvalidDirection("diagonal".to_string()))
    );
    assert_eq!(Direction::from_str(""), Err(MoveError::InvalidDirection(String::new())));
    assert_eq!(
        Direction::from_str(" up"),
        Err(MoveError::InvalidDirection(" up".to_string()))
    );
}

#[test]
fn direction_error_holds_the_token_in_lower_case() {
    assert_eq!(
        Direction::from_str("DiAgOnAl"),
        Err(MoveError::InvalidDirection("diagonal".to_string()))
    );
}

#[test]
fn from_token_matches_exactly() {
    assert_eq!(Direction::from_token("left".to_string()), Ok(Direction::Left));
    assert_eq!(Direction::from_token("right".to_string()), Ok(Direction::Right));
    assert_eq!(Direction::from_token("up".to_string()), Ok(Direction::Up));
    assert_eq!(Direction::from_token("down".to_string()), Ok(Direction::Down));
    assert_eq!(
        Direction::from_token("Up".to_string()),
        Err(MoveError::InvalidDirection("Up".to_string()))
    );
}

#[test]
fn corners_of_a_monitor() {
    let m = monitor("A", 10, 20, 300, 400);
    assert_eq!(m.top_left(), Point { x: 10, y: 20 });
    assert_eq!(m.top_right(), Point { x: 310, y: 20 });
    assert_eq!(m.bottom_left(), Point { x: 10, y: 420 });
    assert_eq!(m.bottom_right(), Point { x: 310, y: 420 });
}

#[test]
fn bounding_box_holds_the_four_corners() {
    let m = monitor("A", -100, 50, 1920, 1080);
    let expected = BoundingBox {
        top_left: Point { x: -100, y: 50 },
        top_right: Point { x: 1820, y: 50 },
        bottom_left: Point { x: -100, y: 1130 },
        bottom_right: Point { x: 1820, y: 1130 },
    };
    assert_eq!(BoundingBox::new(&m), expected);
    assert_eq!(m.bounding_box(), expected);
}

#[test]
fn contains_point_includes_all_four_edges() {
    let m = monitor("A", 0, 0, 1920, 1080);
    assert!(m.contains_point(0, 0));
    assert!(m.contains_point(1920, 0));
    assert!(m.contains_point(0, 1080));
    assert!(m.contains_point(1920, 1080));
    assert!(m.contains_point(960, 540));
    assert!(!m.contains_point(-1, 0));
    assert!(!m.contains_point(0, -1));
    assert!(!m.contains_point(1921, 0));
    assert!(!m.contains_point(0, 1081));
}

#[test]
fn monitor_keeps_what_it_was_made_with() {
    let m = monitor("eDP-1", 5, -7, 1920, 1080);
    assert_eq!(m.name(), "eDP-1");
    assert_eq!(m.x(), 5);
    assert_eq!(m.y(), -7);
    assert_eq!(m.width_px(), 1920);
    assert_eq!(m.height_px(), 1080);
    assert_eq!(m.clone(), m);
}

#[test]
fn monitor_needs_its_corners_in_range() {
    assert!(Monitor::new("A".to_string(), i32::MAX, 0, 1, 10).is_none());
    assert!(Monitor::new("A".to_string(), 0, i32::MAX, 10, 1).is_none());
    assert!(Monitor::new("A".to_string(), i32::MIN, 0, -1, 10).is_none());
    assert!(Monitor::new("A".to_string(), 0, i32::MIN, 10, -1).is_none());
    assert!(Monitor::new("A".to_string(), i32::MAX, i32::MAX, 0, 0).is_some());
    assert!(Monitor::new("A".to_string(), i32::MAX - 1, 0, 1, 10).is_some());
    assert!(Monitor::new("A".to_string(), i32::MIN, i32::MIN, -1 - i32::MIN, i32::MAX).is_some());
}

#[test]
fn center_is_the_midpoint() {
    assert_eq!(monitor("A", 0, 0, 1920, 1080).center(), Point { x: 960, y: 540 });
    assert_eq!(monitor("B", 1920, 0, 1920, 1080).center(), Point { x: 2880, y: 540 });
    assert_eq!(monitor("C", 0, 0, 0, 0).center(), Point { x: 0, y: 0 });
}

#[test]
fn center_rounds_towards_zero() {
    assert_eq!(monitor("A", 0, 0, 3, 5).center(), Point { x: 1, y: 2 });
    assert_eq!(monitor("A", -4, -6, 1, 3).center(), Point { x: -3, y: -4 });
    assert_eq!(monitor("A", -5, -5, 2, 2).center(), Point { x: -4, y: -4 });
    assert_eq!(monitor("A", -2, -1, 3, 1).center(), Point { x: 0, y: 0 });
}

#[test]
fn center_of_the_largest_rectangle() {
    let m = monitor("A", i32::MAX - 10, i32::MIN, 10, i32::MAX);
    assert_eq!(m.center(), Point { x: i32::MAX - 5, y: i32::MIN / 2 });
}
