//! Time-based decay, death, and actions on dead or missing pets.

use tamagotchi::Error;
use tamagotchi::OwnerState;
use tamagotchi::TamagotchiContract;
use tamagotchi::MAX_STAT;

#[test]
fn test_stat_decay_and_death() {
    let mut state = OwnerState::new();
    TamagotchiContract::create(&mut state, 1, "Doomed".to_string(), 0).unwrap();

    // Hunger decays by 1 every hour. It needs 100 hours to reach 0.
    let now: u64 = 360000;

    // Any read triggers the decay calculation.
    let pet = TamagotchiContract::get_pet(&mut state, now).unwrap();
    assert_eq!(pet.is_alive, false);
    assert_eq!(pet.hunger, 0);
}

#[test]
fn test_action_on_dead_pet() {
    let mut state = OwnerState::new();
    TamagotchiContract::create(&mut state, 1, "Ghost".to_string(), 0).unwrap();

    // Advance time enough to kill the pet (100 hours for hunger)
    let now: u64 = 360000;

    // This read updates the state to dead
    let pet = TamagotchiContract::get_pet(&mut state, now).unwrap();
    assert_eq!(pet.is_alive, false);

    assert_eq!(TamagotchiContract::feed(&mut state, now), Err(Error::Deceased));
}

#[test]
fn test_play_dead_pet() {
    let mut state = OwnerState::new();
    TamagotchiContract::create(&mut state, 1, "DeadPet".to_string(), 0).unwrap();
    let now: u64 = 360000; // Kill pet
    TamagotchiContract::get_pet(&mut state, now).unwrap(); // Update death status
    assert_eq!(TamagotchiContract::play(&mut state, now), Err(Error::Deceased));
}

#[test]
fn test_sleep_dead_pet() {
    let mut state = OwnerState::new();
    TamagotchiContract::create(&mut state, 1, "DeadPet".to_string(), 0).unwrap();
    let now: u64 = 360000; // Kill pet
    TamagotchiContract::get_pet(&mut state, now).unwrap(); // Update death status
    assert_eq!(TamagotchiContract::sleep(&mut state, now), Err(Error::Deceased));
}

#[test]
fn test_work_dead_pet() {
    let mut state = OwnerState::new();
    TamagotchiContract::create(&mut state, 1, "DeadPet".to_string(), 0).unwrap();
    let now: u64 = 360000; // Kill pet
    TamagotchiContract::get_pet(&mut state, now).unwrap(); // Update death status
    assert_eq!(TamagotchiContract::work(&mut state, now), Err(Error::Deceased));
}

#[test]
fn test_mint_glasses_dead_pet() {
    let mut state = OwnerState::new();
    TamagotchiContract::create(&mut state, 1, "DeadPet".to_string(), 0).unwrap();
    let now: u64 = 360000; // Kill pet
    TamagotchiContract::get_pet(&mut state, now).unwrap(); // Update death status
    assert_eq!(TamagotchiContract::mint_glasses(&mut state, now), Err(Error::Deceased));
}

#[test]
fn test_time_progression_accuracy() {
    let mut state = OwnerState::new();
    let mut now: u64 = 0;

    TamagotchiContract::create(&mut state, 1, "TimeTest".to_string(), now).unwrap();

    // Test 1-hour progression
    now += 3600; // 1 hour
    let pet = TamagotchiContract::get_pet(&mut state, now).unwrap();
    assert_eq!(pet.hunger, 99); // 100 - 1
    assert_eq!(pet.happiness, 100); // 100 - 0 (decay every 2 hours)

    // Test 2-hour progression (total 3 hours)
    now += 3600 * 2; // 2 more hours
    let pet = TamagotchiContract::get_pet(&mut state, now).unwrap();
    assert_eq!(pet.hunger, 97); // 100 - 3
    assert_eq!(pet.happiness, 99); // 100 - 1 (3/2 = 1)

    // Test 24-hour progression (total 27 hours)
    now += 3600 * 24; // 24 more hours
    let pet = TamagotchiContract::get_pet(&mut state, now).unwrap();
    assert_eq!(pet.hunger, 73); // 100 - 27
    assert_eq!(pet.happiness, 87); // 100 - 13 (27/2 = 13)
}

#[test]
fn test_death_by_happiness() {
    let mut state = OwnerState::new();
    let mut now: u64 = 0;

    TamagotchiContract::create(&mut state, 1, "Sad".to_string(), now).unwrap();

    // Feed regularly to keep hunger up, but don't play
    for _i in 0..50 {
        now += 3600 * 4; // 4 hours

        // Check if pet is dead first
        let pet = TamagotchiContract::get_pet(&mut state, now).unwrap();
        if !pet.is_alive {
            // Should die from happiness, not hunger
            assert!(pet.happiness == 0);
            assert!(pet.hunger > 0);
            return;
        }

        // Only feed if pet is still alive
        TamagotchiContract::feed(&mut state, now).unwrap(); // Keep hunger high
    }
    panic!("Pet should have died from low happiness");
}

#[test]
fn test_edge_case_zero_time_elapsed() {
    let mut state = OwnerState::new();
    TamagotchiContract::create(&mut state, 1, "Instant".to_string(), 0).unwrap();

    // Read the pet twice without time advancement
    let pet1 = TamagotchiContract::get_pet(&mut state, 0).unwrap();
    let pet2 = TamagotchiContract::get_pet(&mut state, 0).unwrap();

    // Stats should be identical
    assert_eq!(pet1.hunger, pet2.hunger);
    assert_eq!(pet1.happiness, pet2.happiness);
    assert_eq!(pet1.energy, pet2.energy);
    assert_eq!(pet1.is_alive, pet2.is_alive);
}

#[test]
fn test_maximum_stat_decay() {
    let mut state = OwnerState::new();
    TamagotchiContract::create(&mut state, 1, "Maximum".to_string(), 0).unwrap();

    // Test hunger reaching exactly 0
    let now: u64 = 3600 * 100; // 100 hours
    let pet = TamagotchiContract::get_pet(&mut state, now).unwrap();
    assert_eq!(pet.hunger, 0);
    assert_eq!(pet.is_alive, false);

    // Test happiness reaching exactly 0
    let mut state2 = OwnerState::new();
    TamagotchiContract::create(&mut state2, 2, "Maximum2".to_string(), now).unwrap();
    let later: u64 = now + 3600 * 200; // 200 hours (happiness decays every 2 hours)
    let pet2 = TamagotchiContract::get_pet(&mut state2, later).unwrap();
    assert_eq!(pet2.happiness, 0);
    assert_eq!(pet2.is_alive, false);
}

#[test]
fn test_clock_behind_record_is_no_decay() {
    let mut state = OwnerState::new();
    TamagotchiContract::create(&mut state, 1, "Steady".to_string(), 7200).unwrap();

    // A clock reading behind last_updated decays nothing.
    let pet = TamagotchiContract::get_pet(&mut state, 0).unwrap();
    assert_eq!(pet.hunger, MAX_STAT);
    assert_eq!(pet.happiness, MAX_STAT);
    assert_eq!(pet.is_alive, true);
    assert_eq!(pet.last_updated, 7200);
}

#[test]
fn test_very_long_dormancy() {
    let mut state = OwnerState::new();
    TamagotchiContract::create(&mut state, 1, "Relic".to_string(), 0).unwrap();

    // The single-step decay formula handles arbitrarily long gaps: after
    // billions of hours the stats have long bottomed out.
    let now: u64 = 3600 * (1u64 << 32);
    let pet = TamagotchiContract::get_pet(&mut state, now).unwrap();
    assert_eq!(pet.hunger, 0);
    assert_eq!(pet.happiness, 0);
    assert_eq!(pet.is_alive, false);
    assert_eq!(pet.energy, MAX_STAT);
}

#[test]
fn test_one_hour_exact_decay() {
    let mut state = OwnerState::new();
    TamagotchiContract::create(&mut state, 1, "Hourly".to_string(), 0).unwrap();

    // 3599 seconds: not a whole hour, no decay yet.
    let pet = TamagotchiContract::get_pet(&mut state, 3599).unwrap();
    assert_eq!(pet.hunger, 100);
    assert_eq!(pet.last_updated, 0);

    // 3600 seconds: exactly one hour, one hunger point.
    let pet = TamagotchiContract::get_pet(&mut state, 3600).unwrap();
    assert_eq!(pet.hunger, 99);
    assert_eq!(pet.happiness, 100);
    assert_eq!(pet.energy, 100);
    assert_eq!(pet.is_alive, true);
    assert_eq!(pet.last_updated, 3600);
}
