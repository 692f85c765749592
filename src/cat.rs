//! A cat's record and the care, breeding and ageing rules that change it.
//!
//! Weight is counted in hundredths of a kilogram, health and food in hundredths of a
//! point (a fresh cat has `10000`, that is 100 points), and times in whole seconds
//! since the Unix epoch.
use vstd::prelude::*;
use vstd::string::StringExecFns;
use crate::calendar::{age_in_byte, dates_bounded, usable_today, years_between, Date};
use crate::kinds::{color_text, gender_text, race_text, ColorType, Gender, Race};
use crate::text::{
    date_string, date_text, decimal_text, hundredths, hundredths_text, int_text, shortest,
    shortest_text, tenths, tenths_text,
};

verus! {

/// The age from which a cat dies at its next update.
pub const AGE_CEILING: u8 = 20;

/// Seconds of real time per year of a cat's age.
pub const SECONDS_PER_YEAR: i64 = 300;

/// Health lost with each year of age.
pub const HEALTH_PER_YEAR: i64 = 500;

/// Food eaten at each update.
pub const FOOD_PER_UPDATE: i64 = 50;

/// Health lost at an update when there is no food left.
pub const HUNGER_PENALTY: i64 = 1000;

/// Health lost at each update that the cat survives.
pub const HEALTH_DECAY: i64 = 200;

/// Health and food of a fresh cat.
pub const FULL: i64 = 10000;

#[derive(Clone)]
pub struct CatInfo {
    /// The path of the cat's picture.
    pub cat_image_byte: String,
    pub arrived_date: Date,
    pub bd_date: Date,
    pub name: String,
    pub age: u8,
    pub color_type: ColorType,
    pub race: Race,
    /// In hundredths of a kilogram.
    pub weight: i64,
    pub sleep: bool,
    /// In hundredths of a point; never negative.
    pub health: i64,
    /// In hundredths of a point; never negative.
    pub food: i64,
    pub gender: Gender,
    /// When the cat last aged, in seconds since the Unix epoch.
    pub last_updated: i64,
}

pub open spec fn sat_add(a: int, d: int) -> int {
    if a + d > i64::MAX { i64::MAX as int } else { a + d }
}

pub open spec fn sat_sub(a: int, d: int) -> int {
    if a - d < i64::MIN { i64::MIN as int } else { a - d }
}

pub open spec fn floor_zero(v: int) -> int {
    if v < 0 { 0 } else { v }
}

/// The cat after `feed(weight, health)`: awake, it gains the weight, the health and
/// as much food as weight; asleep, nothing changes.
pub open spec fn fed(c: CatInfo, weight: u32, health: u32) -> CatInfo {
    if c.sleep {
        c
    } else {
        CatInfo {
            weight: sat_add(c.weight as int, weight as int) as i64,
            health: sat_add(c.health as int, health as int) as i64,
            food: sat_add(c.food as int, weight as int) as i64,
            ..c
        }
    }
}

/// The cat after `play(weight, health)`: awake, it loses the weight and gains the
/// health; asleep, nothing changes.
pub open spec fn played(c: CatInfo, weight: u32, health: u32) -> CatInfo {
    if c.sleep {
        c
    } else {
        CatInfo {
            weight: sat_sub(c.weight as int, weight as int) as i64,
            health: sat_add(c.health as int, health as int) as i64,
            ..c
        }
    }
}

/// The cat after `toggle_sleep(health)`: the flag flips, and falling asleep gains the health.
pub open spec fn sleep_toggled(c: CatInfo, health: u32) -> CatInfo {
    if c.sleep {
        CatInfo { sleep: false, ..c }
    } else {
        CatInfo { sleep: true, health: sat_add(c.health as int, health as int) as i64, ..c }
    }
}

/// Whole years of age that pass from `last` to `now`: one per five whole minutes.
pub open spec fn years_elapsed(last: int, now: int) -> int {
    if now - last >= SECONDS_PER_YEAR { (now - last) / SECONDS_PER_YEAR as int } else { 0 }
}

/// The cat after ageing up to `now`: each year passed adds to its age (held in a
/// byte, so at most 255) and takes health, never below zero.
pub open spec fn aged(c: CatInfo, now: int) -> CatInfo {
    let years = years_elapsed(c.last_updated as int, now);
    if years >= 1 {
        CatInfo {
            age: (if c.age + years > 255 { 255 } else { c.age + years }) as u8,
            health: floor_zero(c.health - HEALTH_PER_YEAR * years) as i64,
            last_updated: now as i64,
            ..c
        }
    } else {
        c
    }
}

/// The cat after eating at an update: it eats from its food, or, with none left,
/// loses health; neither goes below zero.
pub open spec fn nourished(c: CatInfo) -> CatInfo {
    if c.food > 0 {
        CatInfo { food: floor_zero(c.food - FOOD_PER_UPDATE) as i64, ..c }
    } else {
        CatInfo { health: floor_zero(c.health - HUNGER_PENALTY) as i64, ..c }
    }
}

/// The cat after an update at time `now`, and whether it is still alive. A cat at the
/// age ceiling dies unchanged. Otherwise it ages; at the ceiling it dies; else it
/// eats, and it lives on, losing the constant decay, exactly when its health is
/// still above zero.
pub open spec fn ticked(c: CatInfo, now: int) -> (CatInfo, bool) {
    if c.age >= AGE_CEILING {
        (c, false)
    } else {
        let a = aged(c, now);
        if a.age >= AGE_CEILING {
            (a, false)
        } else {
            let b = nourished(a);
            if b.health > 0 {
                (CatInfo { health: floor_zero(b.health - HEALTH_DECAY) as i64, ..b }, true)
            } else {
                (b, false)
            }
        }
    }
}

/// The message after a meal, with the new weight, health and food.
pub open spec fn fed_message(c: CatInfo) -> Seq<char> {
    c.name@ + " a été nourri. Nouveau poids: "@ + tenths_text(c.weight as int)
        + " kg, Santé: "@ + shortest_text(c.health as int) + ", Nourriture: "@
        + tenths_text(c.food as int)
}

/// The message when a sleeping cat is offered food.
pub open spec fn asleep_no_food_message(c: CatInfo) -> Seq<char> {
    c.name@ + " dort et ne peut pas manger."@
}

/// The message after play, with the new weight and health.
pub open spec fn played_message(c: CatInfo) -> Seq<char> {
    c.name@ + " a joué. Nouveau poids: "@ + tenths_text(c.weight as int) + " kg, Santé: "@
        + shortest_text(c.health as int)
}

/// The message when a sleeping cat is asked to play.
pub open spec fn asleep_no_play_message(c: CatInfo) -> Seq<char> {
    c.name@ + " dort et ne peut pas jouer."@
}

/// The message when a cat falls asleep, with its new health.
pub open spec fn dozing_message(c: CatInfo) -> Seq<char> {
    c.name@ + " fait maintenant dodo. Santé: "@ + shortest_text(c.health as int)
}

/// The message when a cat wakes up.
pub open spec fn woken_message(c: CatInfo) -> Seq<char> {
    c.name@ + " est maintenant réveillé."@
}

/// Two cats can mate when their genders differ and neither sleeps.
pub open spec fn can_mate(a: CatInfo, b: CatInfo) -> bool {
    a.gender != b.gender && !a.sleep && !b.sleep
}

/// The reason given for a refused mating: one line per broken condition.
pub open spec fn refusal_text(a: CatInfo, b: CatInfo) -> Seq<char> {
    "\nCan't mate "@ + a.name@ + " with "@ + b.name@ + "\nbecause:"@
        + (if a.gender == b.gender { "\n- Same Sexe"@ } else { Seq::empty() })
        + (if a.sleep { "\n- "@ + a.name@ + " sleep"@ } else { Seq::empty() })
        + (if b.sleep { "\n- "@ + b.name@ + " sleep"@ } else { Seq::empty() })
}

/// `path` is one of the picture paths of `images`.
pub open spec fn is_one_of(path: Seq<char>, images: Seq<String>) -> bool {
    exists|i: int| 0 <= i < images.len() && path == #[trigger] images[i]@
}

/// What holds of every cat made by this library, whatever was drawn at random: its
/// name comes from its gender's pool, its picture from `images`, its dates are real,
/// it has full food and does not have negative health.
pub open spec fn well_made(c: CatInfo, images: Seq<String>) -> bool {
    &&& c.wf()
    &&& crate::kinds::is_pool_name(c.gender, c.name@)
    &&& is_one_of(c.cat_image_byte@, images)
    &&& c.food == FULL
}

/// A generated cat as it stands on `today` at time `now`: its age is counted on
/// `today`, it was last updated at `now`, and, where cats can be generated on `today`,
/// its dates lie within the bounds of the draw.
pub open spec fn placed(c: CatInfo, today: Date, now: i64) -> bool {
    &&& c.age == age_in_byte(years_between(c.bd_date, today))
    &&& c.last_updated == now
    &&& usable_today(today) ==> dates_bounded(c.bd_date, c.arrived_date, today)
}

/// Cats as `spawn_new_cat_at` makes them on `today` at time `now`.
pub open spec fn spawned(cats: Seq<CatInfo>, images: Seq<String>, today: Date, now: i64) -> bool {
    forall|i: int| 0 <= i < cats.len() ==> {
        &&& well_made(#[trigger] cats[i], images)
        &&& placed(cats[i], today, now)
        &&& 1000 <= cats[i].health < FULL
        &&& 150 <= cats[i].weight < 700
    }
}

/// A cat born on `today` at time `now`: aged one, weighing one kilogram, awake, with
/// full health and food.
pub open spec fn is_newborn(k: CatInfo, today: Date, now: i64) -> bool {
    &&& k.age == 1
    &&& k.weight == 100
    &&& !k.sleep
    &&& k.health == FULL
    &&& k.food == FULL
    &&& k.arrived_date == today
    &&& k.bd_date == today
    &&& k.last_updated == now
}

pub open spec fn yes_no_text(b: bool) -> Seq<char> {
    if b { "YES"@ } else { "NO"@ }
}

/// The short summary of a cat: name, gender, age, sleep, health and food.
pub open spec fn minimal_info_text(c: CatInfo) -> Seq<char> {
    "Name: "@ + c.name@ + "\n- Genre: "@ + gender_text(c.gender) + "\n- Age: "@
        + decimal_text(c.age as int) + "\n- Sleep: "@ + yes_no_text(c.sleep)
        + "\n- Health: "@ + hundredths_text(c.health as int) + "\n- Food: "@
        + hundredths_text(c.food as int)
}

/// The full description of a cat.
pub open spec fn description_text(c: CatInfo) -> Seq<char> {
    "Name: "@ + c.name@ + "\n- Age: "@ + decimal_text(c.age as int) + " an(s)\n- Color: "@
        + color_text(c.color_type) + "\n- Race: "@ + race_text(c.race) + "\n- Weight: "@
        + hundredths_text(c.weight as int) + " kg\n- Sleep: "@ + yes_no_text(c.sleep)
        + "\n- Health: "@ + hundredths_text(c.health as int) + "\n- Food: "@
        + hundredths_text(c.food as int) + "\n- Sexe: "@ + gender_text(c.gender)
        + "\n- Entrance: "@ + date_text(c.arrived_date) + "\n- Bd: "@ + date_text(c.bd_date)
}

fn yes_no(b: bool) -> (r: &'static str)
    ensures
        r@ == yes_no_text(b),
{
    if b { "YES" } else { "NO" }
}

/// Picks a picture path at random among `files`.
pub fn get_cat_image(files: &Vec<String>) -> (r: String)
    requires
        files.len() > 0,
    ensures
        is_one_of(r@, files@),
{
    let i = crate::chance::random_below(files.len() as u64) as usize;
    let r = files[i].clone();
    assert(r@ == files@[i as int]@);
    r
}

impl CatInfo {
    /// Health and food are not negative.
    pub open spec fn wf(&self) -> bool {
        &&& self.health >= 0
        &&& self.food >= 0
        &&& self.arrived_date.wf() && self.arrived_date.in_range()
        &&& self.bd_date.wf() && self.bd_date.in_range()
    }

    /// Feeds the cat: awake, it gains `weight` (in weight and in food) and `health`,
    /// and the message gives the new values; asleep, nothing changes and the message
    /// says that it sleeps.
    pub fn feed(&mut self, weight: u32, health: u32) -> (r: String)
        requires
            old(self).wf(),
        ensures
            *final(self) == fed(*old(self), weight, health),
            final(self).wf(),
            r@ == (if old(self).sleep { asleep_no_food_message(*old(self)) } else {
                fed_message(*final(self)) }),
    {
        if !self.sleep {
            self.weight = add_sat(self.weight, weight);
            self.health = add_sat(self.health, health);
            self.food = add_sat(self.food, weight);
            let mut s = self.name.clone();
            s.append(" a été nourri. Nouveau poids: ");
            let w = tenths(self.weight);
            s.append(w.as_str());
            s.append(" kg, Santé: ");
            let h = shortest(self.health);
            s.append(h.as_str());
            s.append(", Nourriture: ");
            let f = tenths(self.food);
            s.append(f.as_str());
            assert(s@ =~= fed_message(*self));
            s
        } else {
            let mut s = self.name.clone();
            s.append(" dort et ne peut pas manger.");
            assert(s@ =~= asleep_no_food_message(*self));
            s
        }
    }

    /// Plays with the cat: awake, it loses `weight` and gains `health`, and the
    /// message gives the new values; asleep, nothing changes and the message says
    /// that it sleeps.
    pub fn play(&mut self, weight: u32, health: u32) -> (r: String)
        requires
            old(self).wf(),
        ensures
            *final(self) == played(*old(self), weight, health),
            final(self).wf(),
            r@ == (if old(self).sleep { asleep_no_play_message(*old(self)) } else {
                played_message(*final(self)) }),
    {
        if !self.sleep {
            self.weight = sub_sat(self.weight, weight);
            self.health = add_sat(self.health, health);
            let mut s = self.name.clone();
            s.append(" a joué. Nouveau poids: ");
            let w = tenths(self.weight);
            s.append(w.as_str());
            s.append(" kg, Santé: ");
            let h = shortest(self.health);
            s.append(h.as_str());
            assert(s@ =~= played_message(*self));
            s
        } else {
            let mut s = self.name.clone();
            s.append(" dort et ne peut pas jouer.");
            assert(s@ =~= asleep_no_play_message(*self));
            s
        }
    }

    /// Flips the sleep flag; falling asleep gains `health`.
    pub fn toggle_sleep(&mut self, health: u32) -> (r: String)
        requires
            old(self).wf(),
        ensures
            *final(self) == sleep_toggled(*old(self), health),
            final(self).wf(),
            r@ == (if final(self).sleep { dozing_message(*final(self)) } else {
                woken_message(*final(self)) }),
    {
        self.sleep = !self.sleep;
        if self.sleep {
            self.health = add_sat(self.health, health);
            let mut s = self.name.clone();
            s.append(" fait maintenant dodo. Santé: ");
            let h = shortest(self.health);
            s.append(h.as_str());
            assert(s@ =~= dozing_message(*self));
            s
        } else {
            let mut s = self.name.clone();
            s.append(" est maintenant réveillé.");
            assert(s@ =~= woken_message(*self));
            s
        }
    }

    /// Updates the cat at time `now` (seconds since the Unix epoch): `None` when it
    /// dies, that is when its age reaches the ceiling or its health runs out.
    pub fn update_at(&mut self, now: i64) -> (r: Option<()>)
        requires
            old(self).wf(),
        ensures
            (*final(self), r is Some) == ticked(*old(self), now as int),
            final(self).wf(),
            old(self).age >= AGE_CEILING ==> r is None && *final(self) == *old(self),
    {
        if self.age >= AGE_CEILING {
            return None;
        }
        let elapsed: i128 = now as i128 - self.last_updated as i128;
        if elapsed >= SECONDS_PER_YEAR as i128 {
            let years: i128 = elapsed / SECONDS_PER_YEAR as i128;
            assert(0 < years <= elapsed) by (nonlinear_arith)
                requires elapsed >= 300, years == elapsed / 300;
            let new_age: i128 = self.age as i128 + years;
            self.age = if new_age > 255 { 255 } else { new_age as u8 };
            let h: i128 = self.health as i128 - HEALTH_PER_YEAR as i128 * years;
            self.health = if h < 0 { 0 } else { h as i64 };
            self.last_updated = now;
        }
        if self.age >= AGE_CEILING {
            return None;
        }
        if self.food > 0 {
            let f = self.food - FOOD_PER_UPDATE;
            self.food = if f < 0 { 0 } else { f };
        } else {
            let h = self.health - HUNGER_PENALTY;
            self.health = if h < 0 { 0 } else { h };
        }
        if self.health > 0 {
            let h = self.health - HEALTH_DECAY;
            self.health = if h < 0 { 0 } else { h };
            Some(())
        } else {
            None
        }
    }

    /// Updates the cat at the current time: `None` when it dies. Whatever the clock
    /// reads, the result is that of `update_at` at some time, so a cat at the age
    /// ceiling always dies.
    pub fn update(&mut self) -> (r: Option<()>)
        requires
            old(self).wf(),
        ensures
            exists|now: i64| (*final(self), r is Some) == ticked(*old(self), now as int),
            final(self).wf(),
            old(self).age >= AGE_CEILING ==> r is None,
    {
        let (_, now) = crate::calendar::clock_now();
        self.update_at(now)
    }

    /// The reason why this cat cannot mate with `other`, or `None` when it can.
    pub fn mate_refusal(&self, other: &CatInfo) -> (r: Option<String>)
        ensures
            r is None <==> can_mate(*self, *other),
            r matches Some(e) ==> e@ == refusal_text(*self, *other),
    {
        let same = self.gender == other.gender;
        if same || self.sleep || other.sleep {
            let mut s = String::from_str("\nCan't mate ");
            s.append(self.name.as_str());
            s.append(" with ");
            s.append(other.name.as_str());
            s.append("\nbecause:");
            if same {
                s.append("\n- Same Sexe");
            }
            if self.sleep {
                s.append("\n- ");
                s.append(self.name.as_str());
                s.append(" sleep");
            }
            if other.sleep {
                s.append("\n- ");
                s.append(other.name.as_str());
                s.append(" sleep");
            }
            assert(s@ =~= refusal_text(*self, *other));
            Some(s)
        } else {
            None
        }
    }

    /// A kitten with the given draws, born on `today` at time `now`.
    pub fn newborn(
        name: String,
        gender: Gender,
        color_type: ColorType,
        race: Race,
        image: String,
        today: Date,
        now: i64,
    ) -> (r: CatInfo)
        ensures
            is_newborn(r, today, now),
            r.name == name,
            r.gender == gender,
            r.color_type == color_type,
            r.race == race,
            r.cat_image_byte == image,
    {
        CatInfo {
            cat_image_byte: image,
            arrived_date: today,
            bd_date: today,
            name,
            age: 1,
            color_type,
            race,
            weight: 100,
            sleep: false,
            health: FULL,
            food: FULL,
            gender,
            last_updated: now,
        }
    }

    /// Breeds this cat with `other`. It fails, with the reasons, when both have the
    /// same gender or either sleeps; otherwise the kitten gets a random name and
    /// gender, the colour and the breed of one parent or the other, and fresh vitals.
    pub fn mate(&self, other: &CatInfo, images: &Vec<String>) -> (r: Result<CatInfo, String>)
        requires
            can_mate(*self, *other) ==> images.len() > 0,
        ensures
            r is Err <==> !can_mate(*self, *other),
            r matches Err(e) ==> e@ == refusal_text(*self, *other),
            r matches Ok(k) ==> {
                &&& well_made(k, images@)
                &&& k.age == 1
                &&& k.weight == 100
                &&& !k.sleep
                &&& k.health == FULL
                &&& k.arrived_date == k.bd_date
                &&& (k.color_type == self.color_type || k.color_type == other.color_type)
                &&& (k.race == self.race || k.race == other.race)
                &&& exists|today: Date, now: i64|
                    today.wf() && today.in_range() && #[trigger] is_newborn(k, today, now)
            },
    {
        match self.mate_refusal(other) {
            Some(e) => Err(e),
            None => {
                let (name, gender) = Gender::get_random_name_and_gender();
                let color_type = if crate::chance::coin() { self.color_type } else { other.color_type };
                let race = if crate::chance::coin() { self.race } else { other.race };
                let image = get_cat_image(images);
                let (today, now) = crate::calendar::clock_now();
                Ok(CatInfo::newborn(name, gender, color_type, race, image, today, now))
            },
        }
    }

    /// A new cat on `today` at time `now`, with random name, gender, dates, colour,
    /// breed and weight (from 0.50 to 6.99 kg), awake, with full health and food.
    pub fn new_cat_at(images: &Vec<String>, today: Date, now: i64) -> (r: CatInfo)
        requires
            images.len() > 0,
        ensures
            well_made(r, images@),
            placed(r, today, now),
            !r.sleep,
            r.health == FULL,
            50 <= r.weight < 700,
    {
        let (name, gender) = Gender::get_random_name_and_gender();
        let (birth_date, arrival_date) = crate::calendar::generate_dates(today);
        let weight = crate::chance::random_between(50, 699);
        CatInfo {
            cat_image_byte: get_cat_image(images),
            arrived_date: arrival_date,
            bd_date: birth_date,
            name,
            age: crate::calendar::calculate_age(birth_date, today),
            color_type: ColorType::random(),
            race: Race::random(),
            weight,
            sleep: false,
            health: FULL,
            food: FULL,
            gender,
            last_updated: now,
        }
    }

    /// A new cat made now: `new_cat_at` on the clock's date and time.
    pub fn new_cat(images: &Vec<String>) -> (r: CatInfo)
        requires
            images.len() > 0,
        ensures
            exists|today: Date, now: i64| today.wf() && today.in_range() && #[trigger] placed(r, today, now),
            well_made(r, images@),
            !r.sleep,
            r.health == FULL,
            50 <= r.weight < 700,
    {
        let (today, now) = crate::calendar::clock_now();
        CatInfo::new_cat_at(images, today, now)
    }

    /// `nb_cat` new cats on `today` at time `now`, each with random attributes, a random
    /// sleep flag, health from 10.00 to 99.99, weight from 1.50 to 6.99 kg, and full food.
    pub fn spawn_new_cat_at(nb_cat: u8, images: &Vec<String>, today: Date, now: i64) -> (r: Vec<CatInfo>)
        requires
            nb_cat > 0 ==> images.len() > 0,
        ensures
            r.len() == nb_cat,
            spawned(r@, images@, today, now),
    {
        let mut cat_vec: Vec<CatInfo> = Vec::new();
        let mut n: u8 = 0;
        while n < nb_cat
            invariant
                n <= nb_cat,
                cat_vec.len() == n,
                nb_cat > 0 ==> images.len() > 0,
                forall|i: int| 0 <= i < cat_vec.len() ==> {
                    &&& well_made(#[trigger] cat_vec[i], images@)
                    &&& placed(cat_vec[i], today, now)
                    &&& 1000 <= cat_vec[i].health < FULL
                    &&& 150 <= cat_vec[i].weight < 700
                },
            decreases nb_cat - n,
        {
            let color_type = ColorType::random();
            let race = Race::random();
            let sleep = crate::chance::coin();
            let health = crate::chance::random_between(1000, 9999);
            let (name, gender) = Gender::get_random_name_and_gender();
            let (birth_date, arrival_date) = crate::calendar::generate_dates(today);
            let weight = crate::chance::random_between(150, 699);
            cat_vec.push(CatInfo {
                cat_image_byte: get_cat_image(images),
                arrived_date: arrival_date,
                bd_date: birth_date,
                name,
                age: crate::calendar::calculate_age(birth_date, today),
                color_type,
                race,
                weight,
                sleep,
                health,
                food: FULL,
                gender,
                last_updated: now,
            });
            n = n + 1;
        }
        cat_vec
    }

    /// `nb_cat` new cats made now: `spawn_new_cat_at` on the clock's date and time.
    pub fn spawn_new_cat(nb_cat: u8, images: &Vec<String>) -> (r: Vec<CatInfo>)
        requires
            nb_cat > 0 ==> images.len() > 0,
        ensures
            r.len() == nb_cat,
            exists|today: Date, now: i64| today.wf() && today.in_range() && #[trigger] spawned(r@, images@, today, now),
    {
        let (today, now) = crate::calendar::clock_now();
        CatInfo::spawn_new_cat_at(nb_cat, images, today, now)
    }

    /// The short summary shown under a cat's picture.
    pub fn minimal_info(&self) -> (r: String)
        ensures
            r@ == minimal_info_text(*self),
    {
        let mut s = String::from_str("Name: ");
        s.append(self.name.as_str());
        s.append("\n- Genre: ");
        s.append(self.gender.label());
        s.append("\n- Age: ");
        let a = int_text(self.age as i64);
        s.append(a.as_str());
        s.append("\n- Sleep: ");
        s.append(yes_no(self.sleep));
        s.append("\n- Health: ");
        let h = hundredths(self.health);
        s.append(h.as_str());
        s.append("\n- Food: ");
        let f = hundredths(self.food);
        s.append(f.as_str());
        assert(s@ =~= minimal_info_text(*self));
        s
    }

    /// The full description of the cat.
    pub fn describe(&self) -> (r: String)
        requires
            self.wf(),
        ensures
            r@ == description_text(*self),
    {
        let mut s = String::from_str("Name: ");
        s.append(self.name.as_str());
        s.append("\n- Age: ");
        let a = int_text(self.age as i64);
        s.append(a.as_str());
        s.append(" an(s)\n- Color: ");
        s.append(self.color_type.label());
        s.append("\n- Race: ");
        s.append(self.race.label());
        s.append("\n- Weight: ");
        let w = hundredths(self.weight);
        s.append(w.as_str());
        s.append(" kg\n- Sleep: ");
        s.append(yes_no(self.sleep));
        s.append("\n- Health: ");
        let h = hundredths(self.health);
        s.append(h.as_str());
        s.append("\n- Food: ");
        let f = hundredths(self.food);
        s.append(f.as_str());
        s.append("\n- Sexe: ");
        s.append(self.gender.label());
        s.append("\n- Entrance: ");
        let e = date_string(self.arrived_date);
        s.append(e.as_str());
        s.append("\n- Bd: ");
        let b = date_string(self.bd_date);
        s.append(b.as_str());
        assert(s@ =~= description_text(*self));
        s
    }
}

fn add_sat(a: i64, d: u32) -> (r: i64)
    ensures
        r == sat_add(a as int, d as int),
{
    if a > i64::MAX - d as i64 { i64::MAX } else { a + d as i64 }
}

fn sub_sat(a: i64, d: u32) -> (r: i64)
    ensures
        r == sat_sub(a as int, d as int),
{
    if a < i64::MIN + d as i64 { i64::MIN } else { a - d as i64 }
}

} // verus!
