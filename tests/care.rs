use cat_manager::calendar::Date;
use cat_manager::cat::CatInfo;
use cat_manager::kinds::{ColorType, Gender, Race};

fn cat(name: &str, gender: Gender, sleep: bool) -> CatInfo {
    CatInfo {
        cat_image_byte: "cat pngs/a.png".to_string(),
        arrived_date: Date::new(2020, 3, 4),
        bd_date: Date::new(2018, 7, 9),
        name: name.to_string(),
        age: 5,
        color_type: ColorType::Tabby,
        race: Race::Bengal,
        weight: 400,
        sleep,
        health: 5000,
        food: 3000,
        gender,
        last_updated: 1_000_000,
    }
}

#[test]
fn feed_awake_raises_weight_health_and_food() {
    let mut c = cat("Felix", Gender::Male, false);
    let msg = c.feed(10, 500);
    assert_eq!(c.weight, 410);
    assert_eq!(c.health, 5500);
    assert_eq!(c.food, 3010);
    assert_eq!(msg, "Felix a été nourri. Nouveau poids: 4.1 kg, Santé: 55, Nourriture: 30.1");
}

#[test]
fn feed_asleep_changes_nothing() {
    let mut c = cat("Luna", Gender::Female, true);
    let msg = c.feed(10, 500);
    assert_eq!((c.weight, c.health, c.food), (400, 5000, 3000));
    assert_eq!(msg, "Luna dort et ne peut pas manger.");
}

#[test]
fn play_awake_lowers_weight_and_raises_health() {
    let mut c = cat("Felix", Gender::Male, false);
    let msg = c.play(5, 200);
    assert_eq!(c.weight, 395);
    assert_eq!(c.health, 5200);
    assert_eq!(c.food, 3000);
    assert_eq!(msg, "Felix a joué. Nouveau poids: 4.0 kg, Santé: 52");
}

#[test]
fn play_asleep_changes_nothing() {
    let mut c = cat("Luna", Gender::Female, true);
    let msg = c.play(5, 200);
    assert_eq!((c.weight, c.health, c.food), (400, 5000, 3000));
    assert_eq!(msg, "Luna dort et ne peut pas jouer.");
}

#[test]
fn play_can_take_weight_below_zero() {
    let mut c = cat("Felix", Gender::Male, false);
    c.weight = 3;
    c.play(5, 0);
    assert_eq!(c.weight, -2);
    assert!(c.describe().contains("- Weight: -0.02 kg"));
}

#[test]
fn toggle_sleep_gives_health_when_falling_asleep() {
    let mut c = cat("Felix", Gender::Male, false);
    let msg = c.toggle_sleep(1000);
    assert!(c.sleep);
    assert_eq!(c.health, 6000);
    assert_eq!(msg, "Felix fait maintenant dodo. Santé: 60");
    let msg = c.toggle_sleep(1000);
    assert!(!c.sleep);
    assert_eq!(c.health, 6000);
    assert_eq!(msg, "Felix est maintenant réveillé.");
}

#[test]
fn update_at_ceiling_always_dies() {
    let mut c = cat("Felix", Gender::Male, false);
    c.age = 20;
    c.health = 10000;
    c.food = 10000;
    assert_eq!(c.update_at(1_000_000), None);
    assert_eq!((c.age, c.health, c.food), (20, 10000, 10000));
    c.age = 200;
    assert_eq!(c.update(), None);
}

#[test]
fn update_without_elapsed_time_eats_and_decays() {
    let mut c = cat("Felix", Gender::Male, false);
    assert_eq!(c.update_at(1_000_000 + 299), Some(()));
    assert_eq!(c.age, 5);
    assert_eq!(c.food, 2950);
    assert_eq!(c.health, 4800);
    assert_eq!(c.last_updated, 1_000_000);
}

#[test]
fn update_ages_one_year_per_five_minutes() {
    let mut c = cat("Felix", Gender::Male, false);
    assert_eq!(c.update_at(1_000_000 + 2 * 300 + 59), Some(()));
    assert_eq!(c.age, 7);
    assert_eq!(c.health, 5000 - 1000 - 200);
    assert_eq!(c.food, 2950);
    assert_eq!(c.last_updated, 1_000_000 + 659);
}

#[test]
fn update_with_clock_behind_does_not_age() {
    let mut c = cat("Felix", Gender::Male, false);
    assert_eq!(c.update_at(0), Some(()));
    assert_eq!(c.age, 5);
    assert_eq!(c.last_updated, 1_000_000);
}

#[test]
fn update_reaching_ceiling_dies() {
    let mut c = cat("Felix", Gender::Male, false);
    assert_eq!(c.update_at(1_000_000 + 15 * 300), None);
    assert_eq!(c.age, 20);
}

#[test]
fn update_hungry_cat_loses_health() {
    let mut c = cat("Felix", Gender::Male, false);
    c.food = 0;
    assert_eq!(c.update_at(1_000_000), Some(()));
    assert_eq!(c.food, 0);
    assert_eq!(c.health, 5000 - 1000 - 200);
}

#[test]
fn update_food_never_below_zero() {
    let mut c = cat("Felix", Gender::Male, false);
    c.food = 30;
    assert_eq!(c.update_at(1_000_000), Some(()));
    assert_eq!(c.food, 0);
}

#[test]
fn update_health_clamped_and_death_signalled() {
    let mut c = cat("Felix", Gender::Male, false);
    c.food = 0;
    c.health = 700;
    assert_eq!(c.update_at(1_000_000), None);
    assert_eq!(c.health, 0);
    let mut d = cat("Oscar", Gender::Male, false);
    d.health = 150;
    assert_eq!(d.update_at(1_000_000), Some(()));
    assert_eq!(d.health, 0);
    assert_eq!(d.update_at(1_000_000), None);
}

#[test]
fn vitals_stay_nonnegative_over_a_sequence() {
    let mut c = cat("Felix", Gender::Male, false);
    c.food = 60;
    c.health = 900;
    let mut t: i64 = 1_000_000;
    for step in 0..40 {
        match step % 4 {
            0 => {
                c.feed(1, 1);
            }
            1 => {
                c.play(5, 2);
            }
            _ => {
                t += 400;
                c.update_at(t);
            }
        }
        assert!(c.health >= 0);
        assert!(c.food >= 0);
    }
}

#[test]
fn minimal_info_lists_vitals() {
    let c = cat("Felix", Gender::Male, true);
    assert_eq!(
        c.minimal_info(),
        "Name: Felix\n- Genre: Male\n- Age: 5\n- Sleep: YES\n- Health: 50.00\n- Food: 30.00"
    );
}

#[test]
fn describe_lists_everything() {
    let c = cat("Luna", Gender::Female, false);
    assert_eq!(
        c.describe(),
        "Name: Luna\n- Age: 5 an(s)\n- Color: Tabby\n- Race: Bengal\n- Weight: 4.00 kg\n- Sleep: NO\n- Health: 50.00\n- Food: 30.00\n- Sexe: Female\n- Entrance: 2020-03-04\n- Bd: 2018-07-09"
    );
}

#[test]
fn feed_message_of_an_empty_cat() {
    let mut c = cat("A", Gender::Male, false);
    c.health = 0;
    c.food = 0;
    let msg = c.feed(0, 0);
    assert_eq!(msg, "A a été nourri. Nouveau poids: 4.0 kg, Santé: 0, Nourriture: 0.0");
}

#[test]
fn care_messages_show_fractional_health() {
    let mut c = cat("A", Gender::Male, false);
    c.health = 8700;
    assert_eq!(c.play(0, 50), "A a joué. Nouveau poids: 4.0 kg, Santé: 87.5");
    c.health = 0;
    assert_eq!(c.toggle_sleep(5), "A fait maintenant dodo. Santé: 0.05");
}
