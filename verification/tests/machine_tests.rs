use walk_the_dog::dog::context::{DogContext, DOG_GROUND};
use walk_the_dog::dog::state_machine::DogStateMachine;
use walk_the_dog::dog::Dog;
use walk_the_dog::event_queue::EventPublisher;
use walk_the_dog::red_hat_boy::context::FLOOR;
use walk_the_dog::red_hat_boy::state_machine::RedHatBoyStateMachine;
use walk_the_dog::red_hat_boy::RedHatBoy;
use walk_the_dog::sheet::{Cell, Sheet, SheetRect};

fn cell(w: i16, h: i16) -> Cell {
    Cell {
        frame: SheetRect { x: 0, y: 0, w, h },
        sprite_source_size: SheetRect { x: 0, y: 0, w, h },
    }
}

fn boy_sheet() -> Sheet {
    let mut sheet = Sheet::new();
    for (base, count) in [("Idle", 10), ("Run", 8), ("Jump", 12), ("Slide", 5), ("Dead", 10)] {
        for i in 1..=count {
            sheet.add_cell(format!("{} ({}).png", base, i), cell(68, 74));
        }
    }
    sheet
}

fn dog_sheet() -> Sheet {
    let mut sheet = Sheet::new();
    for i in 0..=20 {
        sheet.add_cell(format!("rr_{:03}.png", i), cell(130, 89));
        sheet.add_cell(format!("l_{:03}.png", i), cell(130, 89));
    }
    sheet
}

#[test]
fn boy_starts_idle_at_the_starting_point() {
    let boy = RedHatBoy::new(boy_sheet());
    assert!(matches!(boy.state_machine, RedHatBoyStateMachine::Idle(_)));
    let ctx = boy.state_machine.context();
    assert_eq!(ctx.position.x, -20);
    assert_eq!(ctx.position.y, FLOOR);
    assert_eq!(ctx.frame, 0);
}

#[test]
fn idle_frame_counter_wraps_after_ceiling_plus_one_updates() {
    // Frame-count ceiling of the idle animation is 29: the counter climbs to
    // 29 and the next update loops it back to 0.
    let mut boy = RedHatBoy::new(boy_sheet());
    for expected in 1..=29u8 {
        boy.update();
        assert_eq!(boy.state_machine.context().frame, expected);
    }
    boy.update();
    assert_eq!(boy.state_machine.context().frame, 0);
}

#[test]
fn sliding_completes_exactly_once_at_its_frame_ceiling() {
    let mut boy = RedHatBoy::new(boy_sheet());
    boy.run_right();
    boy.slide();
    assert!(matches!(boy.state_machine, RedHatBoyStateMachine::Sliding(_)));
    // The sliding animation's ceiling is 14: thirteen updates stay sliding...
    for _ in 0..13 {
        boy.update();
        assert!(matches!(boy.state_machine, RedHatBoyStateMachine::Sliding(_)));
    }
    // ...and the fourteenth stands the Runner back up, exactly once, with a
    // fresh animation.
    boy.update();
    assert!(matches!(boy.state_machine, RedHatBoyStateMachine::Running(_)));
    assert_eq!(boy.state_machine.context().frame, 0);
}

#[test]
fn boy_floor_clamp_holds_after_every_update() {
    let mut boy = RedHatBoy::new(boy_sheet());
    boy.run_right();
    boy.jump();
    for _ in 0..120 {
        boy.update();
        let ctx = *boy.state_machine.context();
        assert!(ctx.position.y <= ctx.floor);
        assert!((ctx.position.y as i32) <= ctx.floor as i32 - 121);
    }
    // Back on the ground after the jump has run its course.
    assert_eq!(boy.state_machine.context().position.y, FLOOR);
}

#[test]
fn jump_rises_and_lands_back_into_running() {
    let mut boy = RedHatBoy::new(boy_sheet());
    boy.run_right();
    boy.jump();
    assert!(matches!(boy.state_machine, RedHatBoyStateMachine::Jumping(_)));
    boy.update();
    assert!(boy.state_machine.context().position.y < FLOOR);
    for _ in 0..100 {
        boy.update();
    }
    assert!(matches!(boy.state_machine, RedHatBoyStateMachine::Running(_)));
    assert_eq!(boy.state_machine.context().position.y, FLOOR);
    assert_eq!(boy.state_machine.context().floor, 600);
}

#[test]
fn events_without_a_rule_leave_the_state_unchanged() {
    let mut boy = RedHatBoy::new(boy_sheet());
    // Jump and Slide have no rule in Idle.
    boy.jump();
    assert!(matches!(boy.state_machine, RedHatBoyStateMachine::Idle(_)));
    boy.slide();
    assert!(matches!(boy.state_machine, RedHatBoyStateMachine::Idle(_)));
}

#[test]
fn knocked_out_is_terminal() {
    let mut boy = RedHatBoy::new(boy_sheet());
    boy.run_right();
    boy.knock_out();
    assert!(matches!(boy.state_machine, RedHatBoyStateMachine::Falling(_)));
    for _ in 0..30 {
        boy.update();
    }
    assert!(boy.knocked_out());
    boy.run_right();
    boy.jump();
    boy.slide();
    boy.update();
    assert!(boy.knocked_out());
}

#[test]
fn boy_frame_names_follow_the_sheet_key_format() {
    let mut boy = RedHatBoy::new(boy_sheet());
    assert_eq!(boy.frame_name(), "Idle (1).png");
    boy.update();
    boy.update();
    boy.update();
    assert_eq!(boy.frame_name(), "Idle (2).png");
    boy.run_right();
    assert_eq!(boy.frame_name(), "Run (1).png");
}

#[test]
fn dog_starts_patrolling_on_the_ground() {
    let dog = Dog::new(dog_sheet());
    assert!(matches!(dog.state_machine, DogStateMachine::Running(_)));
    let ctx = dog.state_machine.context();
    assert_eq!(ctx.position.x, 10);
    assert_eq!(ctx.position.y, DOG_GROUND);
    assert!(dog.moving_right());
}

#[test]
fn dog_frame_names_are_zero_padded() {
    let dog = Dog::new(dog_sheet());
    assert_eq!(dog.state_machine.frame_name(), "rr_000.png");
    assert_eq!(dog.state_machine.state_name(), "Running");
}

#[test]
fn dog_floor_clamp_holds_after_every_update() {
    let mut dog = Dog::new(dog_sheet());
    let mut events = EventPublisher::new();
    dog.process_event(&walk_the_dog::event_queue::GameEvent::DogHitMark {
        id: String::from("b1_lm"),
    });
    assert!(matches!(dog.state_machine, DogStateMachine::Jumping(_)));
    for _ in 0..120 {
        dog.update(&mut events);
        let ctx = *dog.state_machine.context();
        assert!(ctx.position.y <= ctx.floor);
        assert!((ctx.position.y as i32) <= ctx.floor as i32 - 81);
    }
}

#[test]
fn dog_lands_back_into_running_through_the_landing_event() {
    let mut dog = Dog::new(dog_sheet());
    let mut events = EventPublisher::new();
    dog.process_event(&walk_the_dog::event_queue::GameEvent::DogHitMark {
        id: String::from("p1_lm"),
    });
    // Tick until the context publishes the landing, then hand the event back.
    let mut landed = false;
    for _ in 0..120 {
        dog.update(&mut events);
        while let Some(event) = events.pop_front() {
            if matches!(event, walk_the_dog::event_queue::GameEvent::DogLandedOnGround) {
                landed = true;
            }
            dog.process_event(&event);
        }
        if landed {
            break;
        }
    }
    assert!(landed);
    assert!(matches!(dog.state_machine, DogStateMachine::Running(_)));
    assert_eq!(dog.state_machine.context().position.y, DOG_GROUND);
}

#[test]
fn flee_decision_depends_on_the_return_threshold() {
    // Near the screen edge the Companion settles into fleeing directly.
    let mut near = Dog::new(dog_sheet());
    near.process_event(&walk_the_dog::event_queue::GameEvent::GameStarted);
    assert!(matches!(near.state_machine, DogStateMachine::Fleeing(_)));
    assert_eq!(near.state_machine.context().velocity.x, 0);
    assert_eq!(near.state_machine.context().scrolling_velocity, -4);

    // Beyond the threshold it first runs back at double speed.
    let mut far = Dog::new(dog_sheet());
    far.state_machine = DogStateMachine::Running(
        walk_the_dog::dog::states::DogState {
            context: DogContext {
                position: walk_the_dog::rect::Point { x: 700, y: DOG_GROUND },
                ..DogContext::new()
            },
            _state: walk_the_dog::dog::states::running::Running,
        },
    );
    far.process_event(&walk_the_dog::event_queue::GameEvent::GameStarted);
    assert!(matches!(far.state_machine, DogStateMachine::ReturningToFlee(_)));
    assert_eq!(far.state_machine.context().velocity.x, -8);
}

#[test]
fn worry_moves_the_patrol_closer() {
    let mut dog = Dog::new(dog_sheet());
    dog.process_event(&walk_the_dog::event_queue::GameEvent::BoyHitsObstacle);
    assert!(matches!(dog.state_machine, DogStateMachine::RunningWorried(_)));
    let ctx = dog.state_machine.context();
    assert_eq!(ctx.distance_min, 50);
    assert_eq!(ctx.velocity.x, 4);
    assert_eq!(ctx.scrolling_velocity, 0);
}

#[test]
fn too_far_turns_the_patrol_around() {
    let mut dog = Dog::new(dog_sheet());
    dog.state_machine = DogStateMachine::Running(
        walk_the_dog::dog::states::DogState {
            context: DogContext {
                position: walk_the_dog::rect::Point { x: 999, y: DOG_GROUND },
                ..DogContext::new()
            },
            _state: walk_the_dog::dog::states::running::Running,
        },
    );
    let mut events = EventPublisher::new();
    dog.update(&mut events);
    // x passed 1000 while moving right on the floor: the tick publishes
    // DogTooFar.
    let event = events.pop_front().unwrap();
    assert!(matches!(event, walk_the_dog::event_queue::GameEvent::DogTooFar));
    dog.process_event(&event);
    assert!(matches!(dog.state_machine, DogStateMachine::Returning(_)));
    assert_eq!(dog.state_machine.context().velocity.x, -4);
}

#[test]
fn dog_frame_wraps_at_the_running_ceiling() {
    let mut dog = Dog::new(dog_sheet());
    let mut events = EventPublisher::new();
    for expected in 1..=60u8 {
        dog.update(&mut events);
        assert_eq!(dog.state_machine.context().frame, expected);
    }
    dog.update(&mut events);
    assert_eq!(dog.state_machine.context().frame, 0);
}
