use walk_the_dog::dog::Dog;
use walk_the_dog::event_queue::{EventPublisher, GameEvent};
use walk_the_dog::image::Image;
use walk_the_dog::obstacles::barrier::Barrier;
use walk_the_dog::obstacles::obstacle_mark::{ObstacleMark, ObstacleMarkDirection};
use walk_the_dog::obstacles::platform::Platform;
use walk_the_dog::rect::{Point, Rect};
use walk_the_dog::red_hat_boy::context::RedHatBoyContext;
use walk_the_dog::red_hat_boy::state_machine::RedHatBoyStateMachine;
use walk_the_dog::red_hat_boy::states::{Jumping, RedHatBoyState, Running};
use walk_the_dog::red_hat_boy::RedHatBoy;
use walk_the_dog::sheet::{Cell, Sheet, SheetRect};

fn cell(w: i16, h: i16) -> Cell {
    Cell {
        frame: SheetRect { x: 0, y: 0, w, h },
        sprite_source_size: SheetRect { x: 0, y: 0, w: 0, h: 0 },
    }
}

fn boy_sheet() -> Sheet {
    let mut sheet = Sheet::new();
    for (base, count) in [("Idle", 10), ("Run", 8), ("Jump", 12), ("Slide", 5), ("Dead", 10)] {
        for i in 1..=count {
            sheet.add_cell(format!("{} ({}).png", base, i), cell(68, 74));
        }
    }
    sheet
}

fn dog_sheet() -> Sheet {
    let mut sheet = Sheet::new();
    for i in 0..=20 {
        sheet.add_cell(format!("rr_{:03}.png", i), cell(130, 89));
        sheet.add_cell(format!("l_{:03}.png", i), cell(130, 89));
    }
    sheet
}

/// A Runner whose machine was put into the given state directly, so a
/// scenario can start mid-flight. The sheet's cells are 68 by 74 pixels
/// with no source offset, so at position (x, y) the gameplay bounding box
/// is `{x+18, y+14, 40, 60}`.
fn boy_in(machine: RedHatBoyStateMachine) -> RedHatBoy {
    RedHatBoy { sprite_sheet: boy_sheet(), state_machine: machine }
}

#[test]
fn platform_landing_scenario() {
    // Runner falling (vy = 5) with bounding box {x:100, y:300, w:40, h:60}:
    // sprite position (82, 286).
    let boy_machine = RedHatBoyStateMachine::Jumping(RedHatBoyState {
        context: RedHatBoyContext {
            frame: 0,
            position: Point { x: 82, y: 286 },
            velocity: Point { x: 4, y: 5 },
            floor: 600,
        },
        _state: Jumping,
    });
    let mut boy = boy_in(boy_machine);
    assert_eq!(boy.bounding_box(), Rect::new_from_x_y(100, 300, 40, 60));

    // A platform whose single sub-rectangle is {x:90, y:350, w:200, h:10},
    // with the Runner's sprite position (286) above the platform's (350).
    let platform = Platform::new(
        String::from("p1"),
        Point { x: 90, y: 350 },
        &vec![Rect::new_from_x_y(0, 0, 200, 10)],
    );
    let mut events = EventPublisher::new();
    platform.check_intersection(&mut boy, &mut events);

    // The Runner lands: Running, floor set to the sub-rectangle's top (350),
    // vertical velocity reset to 0 — not knocked out.
    assert!(matches!(boy.state_machine, RedHatBoyStateMachine::Running(_)));
    assert!(!boy.knocked_out());
    assert_eq!(boy.state_machine.context().floor, 350);
    assert_eq!(boy.velocity_y(), 0);
    assert_eq!(boy.position_y(), 350 - 121);
    assert_eq!(events.len(), 0);
}

#[test]
fn platform_hit_from_the_side_knocks_out() {
    // Same geometry, but the Runner is below the platform's position and
    // not falling: the collision is a hit, not a landing.
    let boy_machine = RedHatBoyStateMachine::Running(RedHatBoyState {
        context: RedHatBoyContext {
            frame: 0,
            position: Point { x: 82, y: 400 },
            velocity: Point { x: 4, y: 0 },
            floor: 600,
        },
        _state: Running,
    });
    let mut boy = boy_in(boy_machine);
    let platform = Platform::new(
        String::from("p1"),
        Point { x: 90, y: 390 },
        &vec![Rect::new_from_x_y(0, 0, 200, 100)],
    );
    let mut events = EventPublisher::new();
    platform.check_intersection(&mut boy, &mut events);

    assert!(matches!(boy.state_machine, RedHatBoyStateMachine::Falling(_)));
    let event = events.pop_front().unwrap();
    assert_eq!(event, GameEvent::BoyHitsObstacle);
}

#[test]
fn barrier_hit_scenario() {
    // A moving Runner intersecting a barrier is knocked out regardless of
    // velocity, and BoyHitsObstacle is in the bus after the tick.
    let boy_machine = RedHatBoyStateMachine::Running(RedHatBoyState {
        context: RedHatBoyContext {
            frame: 0,
            position: Point { x: 82, y: 479 },
            velocity: Point { x: 4, y: 0 },
            floor: 600,
        },
        _state: Running,
    });
    let mut boy = boy_in(boy_machine);
    let barrier = Barrier::new(
        String::from("b1"),
        Image::new(Point { x: 110, y: 500 }, 50, 50),
    );
    let mut events = EventPublisher::new();
    barrier.check_intersection(&mut boy, &mut events);

    // Falling first...
    assert!(matches!(boy.state_machine, RedHatBoyStateMachine::Falling(_)));
    assert_eq!(events.pop_front().unwrap(), GameEvent::BoyHitsObstacle);

    // ...and knocked out for good once the falling animation's frame
    // ceiling elapses.
    for _ in 0..29 {
        boy.update();
    }
    assert!(boy.knocked_out());
}

#[test]
fn barrier_ignores_an_idle_boy() {
    let mut boy = RedHatBoy::new(boy_sheet());
    let barrier = Barrier::new(
        String::from("b1"),
        Image::new(Point { x: -100, y: 400 }, 600, 300),
    );
    let mut events = EventPublisher::new();
    barrier.check_intersection(&mut boy, &mut events);
    assert!(matches!(boy.state_machine, RedHatBoyStateMachine::Idle(_)));
    assert_eq!(events.len(), 0);
}

#[test]
fn mark_edge_triggering_is_idempotent() {
    // The Companion's box keeps intersecting the mark tick after tick:
    // exactly one DogHitMark is published.
    let dog = Dog::new(dog_sheet());
    // Fresh Companion at (10, 519), moving right, box {45, 527, 80, 81}.
    let mark = ObstacleMark::new(
        Point { x: 50, y: 300 },
        ObstacleMarkDirection::Left,
        String::from("b1"),
    );
    let mut events = EventPublisher::new();

    mark.navigate(&dog, &mut events);
    let hit = events.pop_front().unwrap();
    assert_eq!(hit, GameEvent::DogHitMark { id: String::from("b1_lm") });
    assert_eq!(events.len(), 0);

    // The mark's own event is drained back to it on the next tick...
    let mut mark = mark;
    mark.process_event(&hit);
    assert!(mark.has_dog);

    // ...and while the intersection lasts, no further event is published.
    for _ in 0..5 {
        mark.navigate(&dog, &mut events);
        assert_eq!(events.len(), 0);
    }
}

#[test]
fn mark_publishes_the_falling_edge_once() {
    let dog = Dog::new(dog_sheet());
    let mut mark = ObstacleMark::new(
        Point { x: 50, y: 300 },
        ObstacleMarkDirection::Left,
        String::from("b1"),
    );
    let mut events = EventPublisher::new();
    mark.navigate(&dog, &mut events);
    let hit = events.pop_front().unwrap();
    mark.process_event(&hit);

    // The mark scrolls far away: the Companion is off it.
    mark.move_horizontally(-2000);
    mark.navigate(&dog, &mut events);
    let off = events.pop_front().unwrap();
    assert_eq!(off, GameEvent::DogOffMark { id: String::from("b1_lm") });
    mark.process_event(&off);
    assert!(!mark.has_dog);
    mark.navigate(&dog, &mut events);
    assert_eq!(events.len(), 0);
}

#[test]
fn marks_ignore_other_marks_events() {
    let mut mark = ObstacleMark::new(
        Point { x: 50, y: 300 },
        ObstacleMarkDirection::Left,
        String::from("b1"),
    );
    mark.process_event(&GameEvent::DogHitMark { id: String::from("b2_lm") });
    assert!(!mark.has_dog);
    mark.process_event(&GameEvent::DogHitMark { id: String::from("b1_lm") });
    assert!(mark.has_dog);
}

#[test]
fn platform_remembers_the_dog_between_edge_events() {
    let mut platform = Platform::new(
        String::from("p3"),
        Point { x: 0, y: 400 },
        &vec![Rect::new_from_x_y(0, 0, 384, 93)],
    );
    platform.process_event(&GameEvent::DogLandedOnPlatform {
        id: String::from("p3"),
        platform_top: 400,
    });
    assert!(platform.has_dog);
    platform.process_event(&GameEvent::DogExitsPlatform);
    assert!(!platform.has_dog);
}
