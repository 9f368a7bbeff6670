use samba_canaster_web::cards::{CardType, Color, Rank};
use samba_canaster_web::containment::Slot;
use samba_canaster_web::drag::{use_draggable, DragController, DragState};
use samba_canaster_web::geometry::{Point, Rect, COORD_LIMIT};
use samba_canaster_web::table::Table;
use samba_canaster_web::zorder::{ZOrder, BASELINE_PRIORITY, ELEVATED_PRIORITY};

fn pt(x: i64, y: i64) -> Point {
    Point::new(x, y)
}

#[test]
fn card_drag_scenario() {
    let mut t = Table::new();
    let id = t.add_card(pt(100, 100));
    t.pointer_moved(pt(120, 130));
    assert!(t.press(id));
    assert_eq!(t.live_position(id), pt(100, 100));
    t.pointer_moved(pt(200, 130));
    assert_eq!(t.live_position(id), pt(180, 100));
    assert_eq!(t.z_priority(id), ELEVATED_PRIORITY);
    assert!(t.release(id));
    assert_eq!(t.anchor_position(id), pt(180, 100));
    assert_eq!(t.z_priority(id), BASELINE_PRIORITY);
    assert!(!t.is_dragging(id));
}

#[test]
fn controller_captures_offset_at_press() {
    let mut c = use_draggable(pt(100, 100));
    c.on_pointer_move(pt(120, 130));
    assert_eq!(c.offset, pt(20, 30));
    assert!(c.on_press_start(pt(120, 130)));
    assert_eq!(c.offset, pt(20, 30));
    assert_eq!(c.state, DragState::Dragging);
    assert_eq!(c.live_position(pt(200, 130)), pt(180, 100));
}

#[test]
fn slot_boundary_scenario() {
    let mut s = Slot::new();
    s.measure(Rect::new(50, 50, 250, 150));
    assert!(s.is_inside(pt(250, 150)));
    assert!(!s.is_outside(pt(250, 150)));
    assert!(!s.is_inside(pt(251, 150)));
    assert!(s.is_outside(pt(251, 150)));
}

#[test]
fn slot_corners_and_edges() {
    let mut s = Slot::new();
    s.measure(Rect::new(50, 50, 250, 150));
    assert!(s.is_inside(pt(50, 50)));
    assert!(s.is_inside(pt(250, 150)));
    assert!(s.is_outside(pt(49, 50)));
    assert!(s.is_outside(pt(50, 49)));
    assert!(s.is_outside(pt(251, 150)));
    assert!(s.is_outside(pt(250, 151)));
    assert!(s.is_inside(pt(150, 100)));
}

#[test]
fn unmeasured_slot_is_outside() {
    let mut s = Slot::new();
    assert!(s.is_outside(pt(0, 0)));
    assert!(!s.is_inside(pt(0, 0)));
    s.measure(Rect::new(-10, -10, 10, 10));
    assert!(s.is_inside(pt(0, 0)));
    s.unmeasure();
    assert!(s.is_outside(pt(0, 0)));
}

#[test]
fn rect_from_origin_size() {
    let r = Rect::from_origin_size(pt(10, 20), 30, 40);
    assert_eq!(r, Rect::new(10, 20, 40, 60));
    assert!(r.contains(pt(40, 60)));
    assert!(!r.contains(pt(41, 60)));
}

#[test]
fn offset_preserved_while_dragging() {
    let mut t = Table::new();
    let id = t.add_card(pt(300, 40));
    t.pointer_moved(pt(310, 55));
    assert!(t.press(id));
    assert_eq!(t.live_position(id), pt(300, 40));
    t.pointer_moved(pt(310 - 25, 55 + 7));
    assert_eq!(t.live_position(id), pt(300 - 25, 40 + 7));
}

#[test]
fn anchor_stays_until_next_release() {
    let mut t = Table::new();
    let id = t.add_card(pt(0, 0));
    t.pointer_moved(pt(5, 5));
    assert!(t.press(id));
    t.pointer_moved(pt(15, 25));
    let last = t.live_position(id);
    assert!(t.release(id));
    assert_eq!(t.anchor_position(id), last);
    t.pointer_moved(pt(500, 500));
    assert_eq!(t.anchor_position(id), last);
    assert_eq!(t.live_position(id), last);
    assert!(t.press(id));
    assert_eq!(t.anchor_position(id), last);
    assert_eq!(t.live_position(id), last);
}

#[test]
fn double_press_is_one_press() {
    let mut once = DragController::new(pt(100, 100));
    once.on_press_start(pt(120, 130));
    let mut twice = DragController::new(pt(100, 100));
    assert!(twice.on_press_start(pt(120, 130)));
    assert!(!twice.on_press_start(pt(140, 170)));
    assert_eq!(once, twice);
}

#[test]
fn release_while_idle_changes_nothing() {
    let mut c = DragController::new(pt(7, 8));
    c.on_pointer_move(pt(10, 10));
    let before = c;
    assert!(!c.on_press_end(pt(90, 90)));
    assert_eq!(c, before);

    let mut t = Table::new();
    let id = t.add_card(pt(7, 8));
    assert!(!t.release(id));
    assert_eq!(t.anchor_position(id), pt(7, 8));
    assert_eq!(t.z_priority(id), BASELINE_PRIORITY);
}

#[test]
fn only_one_card_dragged() {
    let mut t = Table::new();
    let a = t.add_card(pt(0, 0));
    let b = t.add_card(pt(100, 0));
    assert!(t.press(a));
    assert!(!t.press(b));
    assert!(!t.press(a));
    assert_eq!(t.dragged(), Some(a));
    assert!(t.is_dragging(a));
    assert!(!t.is_dragging(b));
    assert!(!t.release(b));
    assert!(t.release(a));
    assert_eq!(t.dragged(), None);
    assert!(t.press(b));
    assert_eq!(t.dragged(), Some(b));
    assert!(!t.is_dragging(a));
}

#[test]
fn raised_card_is_the_dragged_one() {
    let mut t = Table::new();
    let a = t.add_card(pt(0, 0));
    let b = t.add_card(pt(50, 50));
    assert_eq!(t.z_priority(a), BASELINE_PRIORITY);
    assert_eq!(t.z_priority(b), BASELINE_PRIORITY);
    t.press(b);
    assert_eq!(t.z_priority(a), BASELINE_PRIORITY);
    assert_eq!(t.z_priority(b), ELEVATED_PRIORITY);
    t.release(b);
    t.press(a);
    assert_eq!(t.z_priority(a), ELEVATED_PRIORITY);
    assert_eq!(t.z_priority(b), BASELINE_PRIORITY);
    t.release(a);
    assert_eq!(t.z_priority(a), BASELINE_PRIORITY);
    assert_eq!(t.z_priority(b), BASELINE_PRIORITY);
}

#[test]
fn press_out_of_range_is_ignored() {
    let mut t = Table::new();
    assert!(!t.press(0));
    let a = t.add_card(pt(1, 1));
    assert!(!t.press(a + 1));
    assert_eq!(t.dragged(), None);
    assert_eq!(t.card_count(), 1);
}

#[test]
fn pointer_lost_releases_drag() {
    let mut t = Table::new();
    let a = t.add_card(pt(10, 10));
    assert_eq!(t.pointer_lost(), None);
    t.pointer_moved(pt(12, 12));
    t.press(a);
    t.pointer_moved(pt(40, 20));
    assert_eq!(t.pointer_lost(), Some(a));
    assert_eq!(t.anchor_position(a), pt(38, 18));
    assert_eq!(t.dragged(), None);
    assert_eq!(t.z_priority(a), BASELINE_PRIORITY);
}

#[test]
fn card_over_slot_follows_drag() {
    let mut s = Slot::new();
    s.measure(Rect::new(50, 50, 250, 150));
    let mut t = Table::new();
    let a = t.add_card(pt(0, 0));
    assert!(!t.card_over_slot(a, &s));
    t.press(a);
    t.pointer_moved(pt(250, 150));
    assert!(t.card_over_slot(a, &s));
    assert!(t.pointer_over_slot(&s));
    t.pointer_moved(pt(251, 150));
    assert!(!t.card_over_slot(a, &s));
}

#[test]
fn positions_stay_in_range() {
    let mut t = Table::new();
    let a = t.add_card(pt(COORD_LIMIT, 0));
    t.pointer_moved(pt(0, 0));
    t.press(a);
    t.pointer_moved(pt(COORD_LIMIT, 0));
    assert_eq!(t.live_position(a), pt(COORD_LIMIT, 0));
    t.release(a);
    assert_eq!(t.anchor_position(a), pt(COORD_LIMIT, 0));
    assert_eq!(Point::clamped(i64::MAX, i64::MIN), pt(COORD_LIMIT, -COORD_LIMIT));
    assert_eq!(Point::clamped(3, -4), pt(3, -4));
}

#[test]
fn point_basics() {
    assert_eq!(Point::default(), pt(0, 0));
    assert_eq!(Point::origin(), pt(0, 0));
    assert_eq!(pt(120, 130).offset_from(pt(100, 100)), pt(20, 30));
    assert_eq!(pt(200, 130).minus_clamped(pt(20, 30)), pt(180, 100));
}

#[test]
fn zorder_release_of_other_keeps_raised() {
    let mut z = ZOrder::new();
    z.elevate(3);
    z.release(4);
    assert!(z.is_elevated(3));
    z.elevate(5);
    assert!(!z.is_elevated(3));
    assert_eq!(z.priority(5), ELEVATED_PRIORITY);
    z.release(5);
    assert_eq!(z.priority(5), BASELINE_PRIORITY);
}

#[test]
fn card_class_names() {
    assert_eq!(CardType::Hearts(Rank::Two).to_string(), "card-2-hearts");
    assert_eq!(CardType::Diamonds(Rank::Ten).to_string(), "card-10-diamonds");
    assert_eq!(CardType::Clubs(Rank::Queen).to_string(), "card-Q-clubs");
    assert_eq!(CardType::Spades(Rank::Ace).to_string(), "card-A-spades");
    assert_eq!(CardType::Joker(Color::Red).to_string(), "card-red-joker");
    assert_eq!(CardType::Joker(Color::Black).to_string(), "card-black-joker");
}

#[test]
fn rank_and_color_labels() {
    let ranks = [
        (Rank::Two, "2"),
        (Rank::Three, "3"),
        (Rank::Four, "4"),
        (Rank::Five, "5"),
        (Rank::Six, "6"),
        (Rank::Seven, "7"),
        (Rank::Eight, "8"),
        (Rank::Nine, "9"),
        (Rank::Ten, "10"),
        (Rank::Jack, "J"),
        (Rank::Queen, "Q"),
        (Rank::King, "K"),
        (Rank::Ace, "A"),
    ];
    for (r, s) in ranks.iter() {
        assert_eq!(r.as_str(), *s);
    }
    assert!(Rank::Two < Rank::Ace);
    assert_eq!(Color::Red.as_str(), "red");
    assert_eq!(Color::Black.as_str(), "black");
}
