use walk_the_dog::dog::state_machine::DogStateMachine;
use walk_the_dog::dog::Dog;
use walk_the_dog::event_queue::{EventPublisher, GameEvent};
use walk_the_dog::game_states::game_over::{GameOver, GameOverEndState};
use walk_the_dog::game_states::ready::ReadyEndState;
use walk_the_dog::game_states::walking::{Walking, WalkingEndState};
use walk_the_dog::game_states::{KeyState, WalkTheDogState, WalkTheDogStateMachine};
use walk_the_dog::image::Image;
use walk_the_dog::obstacles::barrier::Barrier;
use walk_the_dog::obstacles::obstacle_mark::{ObstacleMark, ObstacleMarkDirection};
use walk_the_dog::obstacles::Obstacle;
use walk_the_dog::rect::Point;
use walk_the_dog::red_hat_boy::state_machine::RedHatBoyStateMachine;
use walk_the_dog::red_hat_boy::RedHatBoy;
use walk_the_dog::segments::SegmentFactory;
use walk_the_dog::sheet::{Cell, Sheet, SheetRect};
use walk_the_dog::walk::{rightmost, Walk};

fn cell(w: i16, h: i16) -> Cell {
    Cell {
        frame: SheetRect { x: 0, y: 0, w, h },
        sprite_source_size: SheetRect { x: 0, y: 0, w: 0, h: 0 },
    }
}

fn boy_sheet() -> Sheet {
    let mut sheet = Sheet::new();
    for (base, count) in [("Idle", 10), ("Run", 8), ("Jump", 12), ("Slide", 5), ("Dead", 10)] {
        for i in 1..=count {
            sheet.add_cell(format!("{} ({}).png", base, i), cell(68, 74));
        }
    }
    sheet
}

fn dog_sheet() -> Sheet {
    let mut sheet = Sheet::new();
    for i in 0..=20 {
        sheet.add_cell(format!("rr_{:03}.png", i), cell(130, 89));
        sheet.add_cell(format!("l_{:03}.png", i), cell(130, 89));
    }
    sheet
}

fn fresh_walk() -> Walk {
    Walk::new(
        RedHatBoy::new(boy_sheet()),
        Dog::new(dog_sheet()),
        600,
        600,
        146,
        54,
    )
}

const NO_KEYS: KeyState = KeyState { arrow_right: false, arrow_down: false, space: false };

#[test]
fn a_fresh_walk_carries_the_opening_segment() {
    let walk = fresh_walk();
    // The deterministic opening segment: stone with both marks, then the
    // low platform with its right mark, ids counted from 1.
    let ids: Vec<String> = walk.obstacles.iter().map(|o| o.id().clone()).collect();
    assert_eq!(ids, vec!["b1_lm", "b1", "b1_rm", "p1", "p1_rm"]);
    // Stone at x 130 on the ground; platform at (240, 420) whose right edge
    // is 240 + 384; its right mark sits 80 past that, one pixel wide.
    assert_eq!(walk.obstacles[1].right(), 130 + 146);
    assert_eq!(walk.obstacles[3].right(), 240 + 384);
    assert_eq!(walk.obstacles[4].right(), 240 + 384 + 80 + 1);
    assert_eq!(walk.timeline, 705);
    assert_eq!(walk.timeline, rightmost(&walk.obstacles));
}

#[test]
fn event_ordering_within_one_drain() {
    // Two events published in the same tick are observed in publish order:
    // a mark that receives its own HitMark and then its own OffMark ends
    // with the Companion forgotten...
    let mut walk = fresh_walk();
    let mark = ObstacleMark::new(
        Point { x: 2000, y: 300 },
        ObstacleMarkDirection::Left,
        String::from("b9"),
    );
    walk.obstacles.push(Obstacle::Mark(mark));
    let index = walk.obstacles.len() - 1;
    walk.events.publish(GameEvent::DogHitMark { id: String::from("b9_lm") });
    walk.events.publish(GameEvent::DogOffMark { id: String::from("b9_lm") });
    walk.process_events();
    match &walk.obstacles[index] {
        Obstacle::Mark(m) => assert!(!m.has_dog),
        _ => panic!("expected the mark"),
    }

    // ...while the reverse order ends with the Companion remembered.
    let mut walk = fresh_walk();
    let mark = ObstacleMark::new(
        Point { x: 2000, y: 300 },
        ObstacleMarkDirection::Left,
        String::from("b9"),
    );
    walk.obstacles.push(Obstacle::Mark(mark));
    let index = walk.obstacles.len() - 1;
    walk.events.publish(GameEvent::DogOffMark { id: String::from("b9_lm") });
    walk.events.publish(GameEvent::DogHitMark { id: String::from("b9_lm") });
    walk.process_events();
    match &walk.obstacles[index] {
        Obstacle::Mark(m) => assert!(m.has_dog),
        _ => panic!("expected the mark"),
    }
}

#[test]
fn obstacle_retirement_scenario() {
    let mut walk = fresh_walk();
    walk.obstacles.clear();
    walk.obstacles.push(Obstacle::Barrier(Barrier::new(
        String::from("b7"),
        Image::new(Point { x: -60, y: 546 }, 50, 50),
    )));
    walk.obstacles.push(Obstacle::Barrier(Barrier::new(
        String::from("b8"),
        Image::new(Point { x: 400, y: 546 }, 50, 50),
    )));

    // b7's right edge (-10) is at or past the left screen edge: after the
    // pass it is absent from the registry (which doubles as the subscriber
    // list), so it never receives further events.
    walk.drop_surpassed_obstacles();
    assert_eq!(walk.obstacles.len(), 1);
    assert_eq!(walk.obstacles[0].id(), "b8");
    assert!(walk.obstacles.iter().all(|o| o.right() > 0));
}

#[test]
fn segment_horizon_scenario() {
    // timeline = 900 is below the minimum of 1000: one Walking tick (scroll
    // speed 4) generates a new segment and the timeline becomes the new
    // rightmost obstacle edge, beyond the minimum.
    let mut walk = fresh_walk();
    let mut started = WalkTheDogState::<walk_the_dog::game_states::ready::Ready>::new(walk);
    let walking = match started.update(&KeyState { arrow_right: true, arrow_down: false, space: false }) {
        ReadyEndState::Complete(walking) => walking,
        ReadyEndState::Continue(_) => panic!("the run should have started"),
    };
    let mut walking = walking;
    walking.walk.timeline = 900;
    walking.walk.obstacles.clear();

    let next = match walking.update(&NO_KEYS) {
        WalkingEndState::Continue(next) => next,
        WalkingEndState::Complete(_) => panic!("the run should continue"),
    };
    assert!(next.walk.timeline > 1000);
    assert_eq!(next.walk.timeline, rightmost(&next.walk.obstacles));
    assert!(!next.walk.obstacles.is_empty());
}

#[test]
fn timeline_scrolls_with_the_course_above_the_horizon() {
    let mut walk = fresh_walk();
    walk.timeline = 1200;
    let mut boy = RedHatBoy::new(boy_sheet());
    boy.run_right();
    walk.boy = boy;
    let walking = WalkTheDogState { walk, _state: Walking };
    let next = match walking.update(&NO_KEYS) {
        WalkingEndState::Continue(next) => next,
        WalkingEndState::Complete(_) => panic!("the run should continue"),
    };
    // Scroll speed is the opposite of the Runner's speed (4).
    assert_eq!(next.walk.timeline, 1196);
}

#[test]
fn game_started_event_reaches_the_companion() {
    let walk = fresh_walk();
    let ready = WalkTheDogState::<walk_the_dog::game_states::ready::Ready>::new(walk);
    let walking = match ready.update(&KeyState { arrow_right: true, arrow_down: false, space: false }) {
        ReadyEndState::Complete(walking) => walking,
        ReadyEndState::Continue(_) => panic!("the run should have started"),
    };
    // The start published GameStarted; the first Walking tick drains it and
    // the Companion starts fleeing (it is well within the return threshold).
    let next = match walking.update(&NO_KEYS) {
        WalkingEndState::Continue(next) => next,
        WalkingEndState::Complete(_) => panic!("the run should continue"),
    };
    assert!(matches!(next.walk.dog.state_machine, DogStateMachine::Fleeing(_)));
}

#[test]
fn full_reset_scenario() {
    // Play a short run into GameOver, then trigger "new game".
    let mut walk = fresh_walk();
    // Knock the Runner out by hand and let the falling animation elapse.
    walk.boy.run_right();
    walk.boy.knock_out();
    for _ in 0..29 {
        walk.boy.update();
    }
    assert!(walk.knocked_out());
    // Scramble the run a little so the reset is observable.
    walk.events.publish(GameEvent::BoyHitsObstacle);
    walk.segment_factory.id = 9;
    walk.obstacles.clear();

    let game_over = WalkTheDogState { walk, _state: GameOver };
    let ready = match game_over.update(true) {
        GameOverEndState::Complete(ready) => ready,
        GameOverEndState::Continue(_) => panic!("new game should reset"),
    };

    // The Runner is back at the initial idle position with frame 0.
    assert!(matches!(ready.walk.boy.state_machine, RedHatBoyStateMachine::Idle(_)));
    assert_eq!(ready.walk.boy.state_machine.context().position.x, -20);
    assert_eq!(ready.walk.boy.state_machine.context().position.y, 479);
    assert_eq!(ready.walk.boy.state_machine.context().frame, 0);
    // The event queue is empty and the Companion patrols again.
    assert_eq!(ready.walk.events.len(), 0);
    assert!(matches!(ready.walk.dog.state_machine, DogStateMachine::Running(_)));

    // The obstacle set equals exactly the first segment's output, with ids
    // restarting from the factory's initial counter value.
    let mut reference = SegmentFactory::new(146, 54);
    let expected = reference.first();
    assert_eq!(ready.walk.segment_factory.id, 1);
    assert_eq!(ready.walk.obstacles.len(), expected.len());
    for (actual, wanted) in ready.walk.obstacles.iter().zip(expected.iter()) {
        assert_eq!(actual.id(), wanted.id());
        assert_eq!(actual.right(), wanted.right());
    }
}

#[test]
fn game_over_keeps_only_the_companion_moving() {
    let mut walk = fresh_walk();
    walk.boy.run_right();
    walk.boy.knock_out();
    for _ in 0..29 {
        walk.boy.update();
    }
    let boy_before = *walk.boy.state_machine.context();
    let dog_frame_before = walk.dog.state_machine.context().frame;
    let game_over = WalkTheDogState { walk, _state: GameOver };
    let next = match game_over.update(false) {
        GameOverEndState::Continue(next) => next,
        GameOverEndState::Complete(_) => panic!("no new game was requested"),
    };
    assert_eq!(*next.walk.boy.state_machine.context(), boy_before);
    assert_eq!(next.walk.dog.state_machine.context().frame, dog_frame_before + 1);
}

#[test]
fn whole_game_runs_through_the_machine() {
    let mut game = walk_the_dog::game_states::WalkTheDog::new();
    game.start(fresh_walk());
    game.update(&KeyState { arrow_right: true, arrow_down: false, space: false }, false);
    assert!(matches!(
        game.machine,
        Some(WalkTheDogStateMachine::Walking(_))
    ));
    for _ in 0..50 {
        game.update(&NO_KEYS, false);
    }
    match &game.machine {
        Some(machine) => match machine {
            WalkTheDogStateMachine::Walking(state) => {
                // The course has scrolled: the stone has moved left from 130.
                assert!(state.walk.obstacles[1].right() < 130 + 146);
            },
            _ => panic!("the run should still be walking"),
        },
        None => panic!("the game was started"),
    }
}

#[test]
fn random_segments_are_never_empty() {
    // Every draw of the segment factory falls inside the catalog: each of
    // the six shapes builds at least one obstacle.
    let mut factory = SegmentFactory::new(146, 54);
    let _ = factory.first();
    for _ in 0..40 {
        let segment = factory.random(500);
        assert!(!segment.is_empty());
        assert!(segment.len() <= 5);
    }
}
