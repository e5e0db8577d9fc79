use babysleep::layout::{ButtonLayout, Region};
use babysleep::session::{ButtonId, Instant, SessionController};

fn layout() -> ButtonLayout {
    ButtonLayout {
        start: Region { x: 300, y: 250, w: 200, h: 100 },
        resume: Region { x: 100, y: 450, w: 600, h: 100 },
        stop: Region { x: 300, y: 450, w: 200, h: 100 },
    }
}

fn at(seconds: u64) -> Instant {
    Instant { nanos: seconds * 1_000_000_000 }
}

#[test]
fn a_region_contains_its_inner_points() {
    let r = Region { x: 10, y: 20, w: 30, h: 40 };
    assert!(r.contains(11, 21));
    assert!(r.contains(25, 40));
    assert!(r.contains(39, 59));
}

#[test]
fn a_region_does_not_contain_its_edges() {
    let r = Region { x: 10, y: 20, w: 30, h: 40 };
    assert!(!r.contains(10, 40));
    assert!(!r.contains(40, 40));
    assert!(!r.contains(25, 20));
    assert!(!r.contains(25, 60));
}

#[test]
fn a_region_does_not_contain_points_outside() {
    let r = Region { x: 10, y: 20, w: 30, h: 40 };
    assert!(!r.contains(0, 0));
    assert!(!r.contains(41, 40));
    assert!(!r.contains(25, 61));
    assert!(!r.contains(-25, 40));
}

#[test]
fn a_region_takes_its_height_not_its_width_downwards() {
    let r = Region { x: 100, y: 450, w: 600, h: 100 };
    assert!(r.contains(400, 549));
    assert!(!r.contains(400, 550));
    assert!(!r.contains(400, 900));
}

#[test]
fn a_region_at_the_ends_of_the_coordinates() {
    let r = Region { x: i32::MAX - 1, y: i32::MAX - 1, w: i32::MAX, h: i32::MAX };
    assert!(r.contains(i32::MAX, i32::MAX));
    let empty = Region { x: 5, y: 5, w: 0, h: 0 };
    assert!(!empty.contains(5, 5));
    let negative = Region { x: 5, y: 5, w: -10, h: -10 };
    assert!(!negative.contains(0, 0));
}

#[test]
fn on_standby_only_start_can_be_hit_at_first() {
    let c = SessionController::new();
    assert_eq!(layout().button_at(&c, 400, 300), Some(ButtonId::Start));
    assert_eq!(layout().button_at(&c, 400, 500), None);
    assert_eq!(layout().button_at(&c, 150, 500), None);
    assert_eq!(layout().button_at(&c, 10, 10), None);
}

#[test]
fn while_running_only_stop_can_be_hit() {
    let mut c = SessionController::new();
    c.start_clicked(at(0), Ok(0));
    assert_eq!(layout().button_at(&c, 400, 300), None);
    assert_eq!(layout().button_at(&c, 400, 500), Some(ButtonId::Stop));
    assert_eq!(layout().button_at(&c, 150, 500), None);
}

#[test]
fn after_a_stop_resume_can_be_hit_too() {
    let mut c = SessionController::new();
    c.start_clicked(at(0), Ok(0));
    c.stop_clicked(at(5));
    assert_eq!(layout().button_at(&c, 400, 300), Some(ButtonId::Start));
    assert_eq!(layout().button_at(&c, 400, 500), Some(ButtonId::Resume));
    assert_eq!(layout().button_at(&c, 150, 500), Some(ButtonId::Resume));
    assert_eq!(layout().button_at(&c, 10, 10), None);
}

#[test]
fn start_goes_before_resume_where_they_overlap() {
    let overlapping = ButtonLayout {
        start: Region { x: 0, y: 0, w: 100, h: 100 },
        resume: Region { x: 50, y: 50, w: 100, h: 100 },
        stop: Region { x: 0, y: 0, w: 100, h: 100 },
    };
    let mut c = SessionController::new();
    c.start_clicked(at(0), Ok(0));
    c.stop_clicked(at(5));
    assert_eq!(overlapping.button_at(&c, 75, 75), Some(ButtonId::Start));
    assert_eq!(overlapping.button_at(&c, 125, 125), Some(ButtonId::Resume));
    assert_eq!(overlapping.button_at(&c, 25, 25), Some(ButtonId::Start));
}

#[test]
fn a_hit_button_always_moves_the_session() {
    let mut c = SessionController::new();
    let clicks = [(400, 300), (400, 500), (150, 500), (400, 500), (400, 300), (400, 500)];
    let mut tick: u64 = 0;
    for (x, y) in clicks {
        if let Some(button) = layout().button_at(&c, x, y) {
            let before = c.state();
            assert!(c.is_actionable(button));
            c.handle_event(babysleep::session::Event::ButtonClicked(button), at(tick), Ok(0));
            assert!(c.state() != before);
        }
        tick += 1;
    }
}

#[test]
fn a_new_region_keeps_ordinary_values() {
    assert_eq!(Region::new(300, 250, 200, 100), Region { x: 300, y: 250, w: 200, h: 100 });
    assert_eq!(Region::new(-5, 0, 1, 1), Region { x: -5, y: 0, w: 1, h: 1 });
}

#[test]
fn a_new_region_is_never_empty() {
    assert_eq!(Region::new(2, 3, 0, 0), Region { x: 2, y: 3, w: 1, h: 1 });
}

#[test]
fn a_new_region_stays_within_half_of_i32() {
    let half = i32::MAX / 2;
    assert_eq!(
        Region::new(i32::MAX, i32::MIN, u32::MAX, half as u32 + 1),
        Region { x: half, y: i32::MIN / 2, w: half, h: half }
    );
    assert_eq!(
        Region::new(half, i32::MIN / 2, half as u32, half as u32),
        Region { x: half, y: i32::MIN / 2, w: half, h: half }
    );
    assert_eq!(Region::new(half + 1, i32::MIN / 2 - 1, 5, 5).x, half);
    assert_eq!(Region::new(half + 1, i32::MIN / 2 - 1, 5, 5).y, i32::MIN / 2);
}
