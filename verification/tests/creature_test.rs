//! The creature on its own: position, velocity, facing, health, hands.

use aether_of_enclaves::creature::{Creature, CreatureState};
use aether_of_enclaves::input::{ButtonState, Key};
use aether_of_enclaves::item::{FoodType, InteractableType, Item, ItemType};
use aether_of_enclaves::misc::{Direction, Moveable};

#[test]
fn position_updates() {
    let mut test_player = Creature::new();

    // Player's position initialized to 0.
    assert_eq!(test_player.x, 0);
    assert_eq!(test_player.y, 0);

    test_player.self_vel_x = 5;
    test_player.self_vel_y = 7;
    test_player.update_position();

    // Player's position should move according to its velocity.
    assert_eq!(test_player.x, 5);
    assert_eq!(test_player.y, 7);

    test_player.other_vel_x = 4;
    test_player.other_vel_y = 4;

    test_player.update_position();

    // Player's position should move according to its velocity and velocities acting on it.
    assert_eq!(test_player.x, 14);
    assert_eq!(test_player.y, 18);

    test_player.self_vel_x = 0;
    test_player.self_vel_y = 0;

    test_player.update_position();

    // Player's position should move according only to velocities acting on it.
    assert_eq!(test_player.x, 18);
    assert_eq!(test_player.y, 22);

    drop(test_player);
}

#[test]
fn self_velocity_updates() {
    let mut test_player = Creature::new();

    // Player's velocity initialized to 0.
    assert_eq!(test_player.self_vel_x, 0);
    assert_eq!(test_player.self_vel_y, 0);

    test_player.speed = 3;
    test_player.directions = vec![Direction::N, Direction::E];

    test_player.update_self_velocity();

    // Player's velocity should update based on direction it's moving.
    assert_eq!(test_player.self_vel_x, 3);
    assert_eq!(test_player.self_vel_y, -3);

    drop(test_player);
}

#[test]
fn control_state_changes() {
    let mut test_player = Creature::new();

    // Player's state initialized to Normal.
    assert_eq!(test_player.creature_state, CreatureState::Normal);

    test_player.self_vel_y = 3;
    test_player.self_vel_x = 3;
    test_player.change_control_state();

    // State should toggle.
    assert_eq!(test_player.creature_state, CreatureState::ControllingShip);

    // If player was moving, should no longer be.
    assert_eq!(test_player.self_vel_x, 0);
    assert_eq!(test_player.self_vel_y, 0);

    test_player.change_control_state();

    //Toggle again.
    assert_eq!(test_player.creature_state, CreatureState::Normal);

    drop(test_player);
}

#[test]
fn new_creature_has_the_defaults() {
    let c = Creature::new();
    assert_eq!(c.creature_state, CreatureState::Normal);
    assert_eq!((c.x, c.y), (0, 0));
    assert_eq!((c.other_vel_x, c.other_vel_y), (0, 0));
    assert!(c.directions.is_empty());
    assert_eq!(c.speed, 2);
    assert_eq!(c.health, 3);
    assert!(c.inventory.is_none());
    assert_eq!(c.facing(), Direction::S);
    assert!(!c.is_moving());
    assert!(!c.is_dead());
    assert_eq!((c.sprite_index, c.frames_since_last_draw, c.animation_rate), (0, 0, 5));
}

#[test]
fn taking_the_helm_clears_directions() {
    let mut c = Creature::new();
    c.handle_input(&ButtonState::Press, &Some(Key::D));
    c.handle_input(&ButtonState::Press, &Some(Key::W));
    c.update_self_velocity();
    assert_eq!((c.self_vel_x, c.self_vel_y), (2, -2));
    c.change_control_state();
    assert_eq!(c.creature_state, CreatureState::ControllingShip);
    assert_eq!((c.self_vel_x, c.self_vel_y), (0, 0));
    assert!(c.directions.is_empty());
    // Leaving the helm brings nothing back.
    c.change_control_state();
    assert_eq!(c.creature_state, CreatureState::Normal);
    assert_eq!((c.self_vel_x, c.self_vel_y), (0, 0));
    assert!(c.directions.is_empty());
}

#[test]
fn speed_is_never_exceeded() {
    let keys = [Key::W, Key::A, Key::S, Key::D, Key::E, Key::Other];
    let states = [ButtonState::Press, ButtonState::Release];
    let mut c = Creature::new();
    c.speed = 7;
    c.self_vel_x = 1000;
    c.self_vel_y = -1000;
    let mut n: usize = 0;
    while n < 200 {
        let key = keys[(n * 7 + n / 3) % keys.len()];
        let state = states[(n / 2 + n / 5) % 2];
        c.handle_input(&state, &Some(key));
        c.update_self_velocity();
        assert!(c.self_vel_x.abs() <= 7, "x velocity {} after {} events", c.self_vel_x, n);
        assert!(c.self_vel_y.abs() <= 7, "y velocity {} after {} events", c.self_vel_y, n);
        n += 1;
    }
}

#[test]
fn velocity_replaces_and_opposites_cancel() {
    let mut c = Creature::new();
    c.speed = 4;
    c.self_vel_x = 99;
    c.directions = vec![Direction::E, Direction::W, Direction::S];
    c.update_self_velocity();
    assert_eq!((c.self_vel_x, c.self_vel_y), (0, 4));
    c.directions = vec![];
    c.update_self_velocity();
    assert_eq!((c.self_vel_x, c.self_vel_y), (0, 0));
    // A direction held twice counts once.
    c.directions = vec![Direction::W, Direction::W];
    c.update_self_velocity();
    assert_eq!((c.self_vel_x, c.self_vel_y), (-4, 0));
}

#[test]
fn key_events_toggle_directions() {
    let mut c = Creature::new();
    c.handle_input(&ButtonState::Press, &Some(Key::W));
    assert_eq!(c.directions, vec![Direction::N]);
    c.handle_input(&ButtonState::Press, &Some(Key::W));
    assert_eq!(c.directions, vec![Direction::N]);
    c.handle_input(&ButtonState::Press, &Some(Key::A));
    c.handle_input(&ButtonState::Press, &Some(Key::S));
    c.handle_input(&ButtonState::Press, &Some(Key::D));
    assert_eq!(c.directions, vec![Direction::N, Direction::W, Direction::S, Direction::E]);
    c.handle_input(&ButtonState::Release, &Some(Key::A));
    assert_eq!(c.directions, vec![Direction::N, Direction::S, Direction::E]);
    c.handle_input(&ButtonState::Release, &Some(Key::A));
    assert_eq!(c.directions, vec![Direction::N, Direction::S, Direction::E]);
    c.handle_input(&ButtonState::Press, &Some(Key::E));
    c.handle_input(&ButtonState::Press, &None);
    assert_eq!(c.directions, vec![Direction::N, Direction::S, Direction::E]);
}

#[test]
fn idle_creature_keeps_its_facing() {
    for dir in [Direction::N, Direction::E, Direction::S, Direction::W] {
        let mut c = Creature::new();
        c.dir = dir;
        let mut n = 0;
        while n < 10 {
            c.update_direction();
            assert_eq!(c.facing(), dir);
            n += 1;
        }
    }
}

#[test]
fn vertical_movement_overrides_horizontal_facing() {
    let mut c = Creature::new();
    c.self_vel_x = 2;
    c.update_direction();
    assert_eq!(c.facing(), Direction::E);
    c.self_vel_x = -2;
    c.update_direction();
    assert_eq!(c.facing(), Direction::W);
    c.self_vel_y = 2;
    c.update_direction();
    assert_eq!(c.facing(), Direction::S);
    c.self_vel_x = 2;
    c.self_vel_y = -2;
    c.update_direction();
    assert_eq!(c.facing(), Direction::N);
}

#[test]
fn to_be_location_is_position_plus_velocity() {
    let mut c = Creature::new();
    c.x = 10;
    c.y = -4;
    c.self_vel_x = 3;
    c.self_vel_y = -2;
    assert_eq!(c.x_to_be_location(), 13);
    assert_eq!(c.y_to_be_location(), -6);
    assert_eq!((c.x, c.y), (10, -4));
    c.x = i64::MAX - 1;
    assert_eq!(c.x_to_be_location(), i64::MAX);
}

#[test]
fn carried_item_follows_the_creature() {
    let mut c = Creature::new();
    let item = Item::new(ItemType::Food(FoodType::Bisket), 1, true, 10).generate_clone(50, 60);
    assert!(c.pickup_item(item));
    c.self_vel_x = 2;
    c.self_vel_y = 1;
    c.update_position_self();
    assert_eq!((c.x, c.y), (2, 1));
    let held = c.inventory.unwrap();
    assert_eq!((held.x, held.y), (2, 1));
    // Being carried takes the item along as well.
    c.other_vel_x = 5;
    c.update_position_other();
    assert_eq!((c.x, c.y), (7, 1));
    let held = c.inventory.unwrap();
    assert_eq!((held.x, held.y), (7, 1));
    c.update_position();
    assert_eq!((c.x, c.y), (14, 2));
    let held = c.inventory.unwrap();
    assert_eq!((held.x, held.y), (14, 2));
    assert_eq!(held.item_type, ItemType::Food(FoodType::Bisket));
}

#[test]
fn inventory_holds_one_item() {
    let mut c = Creature::new();
    assert_eq!(c.drop_item(), None);
    let bisket = Item::new(ItemType::Food(FoodType::Bisket), 1, true, 10);
    let sword = Item::new(ItemType::Interactable(InteractableType::Sword), 10, true, 50);
    assert!(c.pickup_item(bisket));
    assert!(!c.pickup_item(sword));
    assert_eq!(c.inventory, Some(bisket));
    assert_eq!(c.drop_item(), Some(bisket));
    assert_eq!(c.inventory, None);
    assert_eq!(c.drop_item(), None);
}

#[test]
fn food_heals_and_is_gone() {
    let mut c = Creature::new();
    c.use_item();
    assert_eq!(c.health, 3);
    let sword = Item::new(ItemType::Interactable(InteractableType::Sword), 10, true, 50);
    c.pickup_item(sword);
    c.use_item();
    assert_eq!(c.health, 3);
    assert_eq!(c.inventory, Some(sword));
    c.drop_item();
    c.pickup_item(Item::new(ItemType::Food(FoodType::Bisket), 1, true, 10));
    c.use_item();
    assert_eq!(c.health, 4);
    assert_eq!(c.inventory, None);
    c.health = u32::MAX;
    c.pickup_item(Item::new(ItemType::Food(FoodType::Bisket), 1, true, 10));
    c.use_item();
    assert_eq!(c.health, u32::MAX);
    assert_eq!(c.inventory, None);
}

#[test]
fn damage_stops_at_zero() {
    let mut c = Creature::new();
    c.take_damage(1);
    assert_eq!(c.health, 2);
    assert!(!c.is_dead());
    c.take_damage(5);
    assert_eq!(c.health, 0);
    assert!(c.is_dead());
    c.take_damage(1);
    assert_eq!(c.health, 0);
}

#[test]
fn animation_cycles_three_pictures() {
    let mut c = Creature::new();
    let mut seen = vec![];
    let mut n = 0;
    while n < 21 {
        c.advance_animation();
        seen.push(c.sprite_index);
        n += 1;
    }
    // The picture stays for six draws, then the next one is shown.
    assert_eq!(&seen[0..6], &[0, 0, 0, 0, 0, 0]);
    assert_eq!(&seen[6..12], &[1, 1, 1, 1, 1, 1]);
    assert_eq!(&seen[12..18], &[2, 2, 2, 2, 2, 2]);
    assert_eq!(&seen[18..21], &[0, 0, 0]);
}

#[test]
fn leaving_the_helm_carries_nothing_over() {
    let mut c = Creature::new();
    c.change_control_state();
    assert_eq!(c.creature_state, CreatureState::ControllingShip);
    // Motion left over on the creature while it steers.
    c.self_vel_x = 2;
    c.self_vel_y = -2;
    c.directions = vec![Direction::E];
    c.x = 40;
    c.health = 2;
    c.change_control_state();
    assert_eq!(c.creature_state, CreatureState::Normal);
    assert_eq!((c.self_vel_x, c.self_vel_y), (0, 0));
    assert!(c.directions.is_empty());
    // Nothing else is touched.
    assert_eq!((c.x, c.y), (40, 0));
    assert_eq!(c.health, 2);
    assert_eq!(c.speed, 2);
    assert_eq!(c.facing(), Direction::S);
}

#[test]
fn keys_recorded_at_the_helm_are_dropped_on_leaving() {
    let mut c = Creature::new();
    c.change_control_state();
    c.handle_input(&ButtonState::Press, &Some(Key::D));
    c.handle_input(&ButtonState::Press, &Some(Key::S));
    c.update_self_velocity();
    assert_eq!((c.self_vel_x, c.self_vel_y), (2, 2));
    c.change_control_state();
    assert_eq!(c.creature_state, CreatureState::Normal);
    assert_eq!((c.self_vel_x, c.self_vel_y), (0, 0));
    assert!(c.directions.is_empty());
    c.update_self_velocity();
    assert_eq!((c.self_vel_x, c.self_vel_y), (0, 0));
}

#[test]
fn leave_helm_stops_a_steering_creature_only() {
    let mut walking = Creature::new();
    walking.self_vel_x = 2;
    walking.directions = vec![Direction::E];
    walking.leave_helm();
    assert_eq!(walking.creature_state, CreatureState::Normal);
    assert_eq!((walking.self_vel_x, walking.self_vel_y), (2, 0));
    assert_eq!(walking.directions, vec![Direction::E]);

    let mut steering = Creature::new();
    steering.change_control_state();
    steering.self_vel_x = 2;
    steering.directions = vec![Direction::E];
    steering.leave_helm();
    assert_eq!(steering.creature_state, CreatureState::Normal);
    assert_eq!((steering.self_vel_x, steering.self_vel_y), (0, 0));
    assert!(steering.directions.is_empty());
}
