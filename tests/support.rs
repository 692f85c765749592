use cat_manager::calendar::{
    calculate_age, date_in_range, generate_dates, generate_random_date_in_range, Date,
};
use cat_manager::cat::CatInfo;
use cat_manager::herd::{tick_due, update_herd};
use cat_manager::inventory::Inventory;
use cat_manager::kinds::{ColorType, Gender, Race};
use cat_manager::text::{date_string, hundredths, shortest, tenths};

#[test]
fn age_counts_whole_years() {
    assert_eq!(calculate_age(Date::new(2010, 6, 15), Date::new(2020, 6, 14)), 9);
    assert_eq!(calculate_age(Date::new(2010, 6, 15), Date::new(2020, 6, 15)), 10);
    assert_eq!(calculate_age(Date::new(2010, 6, 15), Date::new(2020, 5, 30)), 9);
    assert_eq!(calculate_age(Date::new(2010, 6, 15), Date::new(2020, 7, 1)), 10);
    assert_eq!(calculate_age(Date::new(2020, 1, 1), Date::new(2010, 1, 1)), 0);
    assert_eq!(calculate_age(Date::new(1000, 1, 1), Date::new(2000, 1, 1)), 255);
}

#[test]
fn later_of_is_chronological() {
    let a = Date::new(2015, 1, 1);
    assert_eq!(a.later_of(Date::new(2014, 12, 31)), a);
    assert_eq!(a.later_of(Date::new(2015, 1, 2)), Date::new(2015, 1, 2));
}

#[test]
fn random_date_in_a_one_day_range_is_that_day() {
    let d = Date::new(2024, 2, 29);
    assert_eq!(generate_random_date_in_range(d, d), d);
}

#[test]
fn random_date_stays_in_range() {
    let s = Date::new(2019, 12, 30);
    let e = Date::new(2020, 1, 2);
    for _ in 0..30 {
        let r = generate_random_date_in_range(s, e);
        assert!([s, Date::new(2019, 12, 31), Date::new(2020, 1, 1), e].contains(&r));
    }
    assert_eq!(generate_random_date_in_range(e, s), e);
}

#[test]
fn generated_dates_are_ordered() {
    for _ in 0..20 {
        let (b, a) = generate_dates(Date::new(2024, 6, 30));
        assert!((b.year, b.month, b.day) <= (2024, 6, 30));
        assert!((a.year, a.month, a.day) <= (2024, 6, 30));
        assert!((2010, 1, 1) <= (b.year, b.month, b.day));
        assert!((2015, 1, 1) <= (a.year, a.month, a.day));
        assert!((b.year, b.month, b.day) <= (a.year, a.month, a.day));
    }
}

#[test]
fn hundredths_are_shown_with_two_decimals() {
    assert_eq!(hundredths(1234), "12.34");
    assert_eq!(hundredths(5), "0.05");
    assert_eq!(hundredths(-5), "-0.05");
    assert_eq!(hundredths(10000), "100.00");
    assert_eq!(hundredths(i64::MIN), "-92233720368547758.08");
}

#[test]
fn dates_are_written_year_month_day() {
    assert_eq!(date_string(Date::new(2024, 2, 9)), "2024-02-09");
    assert_eq!(date_string(Date::new(2015, 11, 30)), "2015-11-30");
}

#[test]
fn fill_inventory_appends_numbered_rations() {
    let mut inv = Inventory::get_inventory();
    assert!(inv.slot.is_empty());
    inv.fill_inventory(3);
    inv.fill_inventory(2);
    let ids: Vec<u32> = inv.slot.iter().map(|e| e.id).collect();
    assert_eq!(ids, vec![0, 1, 2, 0, 1]);
    assert!(inv.slot.iter().all(|e| e.name == "CatEat" && e.food_value == 200));
}

fn cat(name: &str, age: u8, health: i64) -> CatInfo {
    CatInfo {
        cat_image_byte: "a.png".to_string(),
        arrived_date: Date::new(2020, 3, 4),
        bd_date: Date::new(2018, 7, 9),
        name: name.to_string(),
        age,
        color_type: ColorType::Grey,
        race: Race::Siamese,
        weight: 400,
        sleep: false,
        health,
        food: 1000,
        gender: Gender::Female,
        last_updated: 0,
    }
}

#[test]
fn update_herd_removes_the_dead_and_reports_all() {
    let cats = vec![cat("Luna", 3, 5000), cat("Bella", 20, 5000), cat("Nala", 3, 0), cat("Cleo", 4, 100)];
    let (kept, reports) = update_herd(cats, 10);
    let names: Vec<&str> = kept.iter().map(|c| c.name.as_str()).collect();
    assert_eq!(names, vec!["Luna", "Cleo"]);
    assert_eq!(kept[0].health, 4800);
    assert_eq!(kept[1].health, 0);
    let alive: Vec<bool> = reports.iter().map(|r| r.0).collect();
    assert_eq!(alive, vec![true, false, false, true]);
    assert!(reports[0].1.starts_with("Name: Luna\n- Genre: Female"));
    assert!(reports[1].1.contains("- Age: 20 an(s)"));
}

#[test]
fn generated_dates_on_an_early_day_stay_valid() {
    let (b, a) = generate_dates(Date::new(2012, 5, 5));
    assert!((2010, 1, 1) <= (b.year, b.month, b.day));
    assert!((b.year, b.month, b.day) <= (2012, 5, 5));
    assert!(a.month >= 1 && a.month <= 12);
}

#[test]
fn date_in_range_adds_the_offset() {
    let s = Date::new(2019, 12, 30);
    let e = Date::new(2020, 3, 1);
    assert_eq!(date_in_range(s, e, 0), s);
    assert_eq!(date_in_range(s, e, 2), Date::new(2020, 1, 1));
    assert_eq!(date_in_range(s, e, 61), Date::new(2020, 2, 29));
    assert_eq!(date_in_range(s, e, 62), e);
    assert_eq!(date_in_range(s, e, 63), s);
    assert_eq!(date_in_range(s, e, -1), s);
    assert_eq!(date_in_range(e, s, 1), e);
}

#[test]
fn years_outside_four_digits_are_signed() {
    assert_eq!(date_string(Date::new(5, 1, 1)), "0005-01-01");
    assert_eq!(date_string(Date::new(-1, 1, 1)), "-0001-01-01");
    assert_eq!(date_string(Date::new(10000, 12, 31)), "+10000-12-31");
}

#[test]
fn new_cat_at_is_placed_on_the_given_day() {
    let images = vec!["a.png".to_string()];
    let today = Date::new(2020, 6, 15);
    for _ in 0..20 {
        let c = CatInfo::new_cat_at(&images, today, 1234);
        assert_eq!(c.last_updated, 1234);
        assert_eq!(c.age, calculate_age(c.bd_date, today));
        assert!((2010, 1, 1) <= (c.bd_date.year, c.bd_date.month, c.bd_date.day));
        assert!((2015, 1, 1) <= (c.arrived_date.year, c.arrived_date.month, c.arrived_date.day));
        assert!((c.bd_date.year, c.bd_date.month, c.bd_date.day) <= (c.arrived_date.year, c.arrived_date.month, c.arrived_date.day));
        assert!((c.arrived_date.year, c.arrived_date.month, c.arrived_date.day) <= (2020, 6, 15));
    }
    let cats = CatInfo::spawn_new_cat_at(4, &images, today, 99);
    assert_eq!(cats.len(), 4);
    assert!(cats.iter().all(|c| c.last_updated == 99 && c.age == calculate_age(c.bd_date, today)));
}

#[test]
fn tenths_round_half_away_from_zero() {
    assert_eq!(tenths(1234), "12.3");
    assert_eq!(tenths(1235), "12.4");
    assert_eq!(tenths(400), "4.0");
    assert_eq!(tenths(0), "0.0");
    assert_eq!(tenths(99), "1.0");
    assert_eq!(tenths(-5), "-0.1");
    assert_eq!(tenths(-4), "-0.0");
}

#[test]
fn shortest_drops_trailing_zeros() {
    assert_eq!(shortest(10500), "105");
    assert_eq!(shortest(8750), "87.5");
    assert_eq!(shortest(5), "0.05");
    assert_eq!(shortest(0), "0");
    assert_eq!(shortest(1234), "12.34");
    assert_eq!(shortest(-250), "-2.5");
}

#[test]
fn tick_due_after_thirty_seconds() {
    assert!(!tick_due(0));
    assert!(!tick_due(29_999));
    assert!(tick_due(30_000));
    assert!(tick_due(u64::MAX));
}

#[test]
fn spawning_no_cats_needs_no_pictures() {
    assert!(CatInfo::spawn_new_cat(0, &Vec::new()).is_empty());
}
