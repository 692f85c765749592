//! The categorical attributes of a cat: gender, coat colour, breed, and the names
//! that each gender draws from.
use vstd::prelude::*;
use crate::chance::{coin, random_below};

verus! {

#[derive(Clone, Copy, Debug, Default, PartialEq, Eq, Structural)]
pub enum Gender {
    #[default]
    Female,
    Male,
}

/// How many names each gender's pool holds.
pub const NAME_POOL_SIZE: u64 = 8;

/// The `i`-th name of the pool of gender `g`.
pub open spec fn pool_name(g: Gender, i: int) -> Seq<char> {
    match g {
        Gender::Male => if i == 0 { "Felix"@ } else if i == 1 { "Oscar"@ } else if i == 2 {
            "Milo"@ } else if i == 3 { "Simba"@ } else if i == 4 { "Leo"@ } else if i == 5 {
            "Tigrou"@ } else if i == 6 { "Oliver"@ } else { "Gribouille"@ },
        Gender::Female => if i == 0 { "Luna"@ } else if i == 1 { "Bella"@ } else if i == 2 {
            "Nala"@ } else if i == 3 { "Chloe"@ } else if i == 4 { "Misty"@ } else if i == 5 {
            "Cleo"@ } else if i == 6 { "Minette"@ } else { "Praline"@ },
    }
}

/// `name` is one of the names of gender `g`.
pub open spec fn is_pool_name(g: Gender, name: Seq<char>) -> bool {
    exists|i: int| 0 <= i < NAME_POOL_SIZE && name == #[trigger] pool_name(g, i)
}

pub open spec fn gender_text(g: Gender) -> Seq<char> {
    match g {
        Gender::Female => "Female"@,
        Gender::Male => "Male"@,
    }
}

impl Gender {
    /// The gender's name as it is shown to a user.
    pub fn label(&self) -> (r: &'static str)
        ensures
            r@ == gender_text(*self),
    {
        match self {
            Gender::Female => "Female",
            Gender::Male => "Male",
        }
    }

    /// The gender that a coin flip picks: heads is female.
    pub fn from_coin(heads: bool) -> (r: Gender)
        ensures
            r == (if heads { Gender::Female } else { Gender::Male }),
    {
        if heads { Gender::Female } else { Gender::Male }
    }

    /// A gender picked at random.
    pub fn get_random_gender() -> (r: Gender) {
        Gender::from_coin(coin())
    }

    /// The `i`-th name of this gender's pool.
    pub fn name_at(&self, i: u64) -> (r: &'static str)
        requires
            i < NAME_POOL_SIZE,
        ensures
            r@ == pool_name(*self, i as int),
    {
        match self {
            Gender::Male => if i == 0 { "Felix" } else if i == 1 { "Oscar" } else if i == 2 {
                "Milo" } else if i == 3 { "Simba" } else if i == 4 { "Leo" } else if i == 5 {
                "Tigrou" } else if i == 6 { "Oliver" } else { "Gribouille" },
            Gender::Female => if i == 0 { "Luna" } else if i == 1 { "Bella" } else if i == 2 {
                "Nala" } else if i == 3 { "Chloe" } else if i == 4 { "Misty" } else if i == 5 {
                "Cleo" } else if i == 6 { "Minette" } else { "Praline" },
        }
    }

    /// A gender picked at random, and a name drawn from that gender's pool.
    pub fn get_random_name_and_gender() -> (r: (String, Gender))
        ensures
            is_pool_name(r.1, r.0@),
    {
        let gender = Gender::get_random_gender();
        let i = random_below(NAME_POOL_SIZE);
        let name = String::from_str(gender.name_at(i));
        (name, gender)
    }
}

/// How many coat colours there are.
pub const COLOR_KINDS: u64 = 6;

#[derive(Clone, Copy, Debug, PartialEq, Eq, Structural)]
pub enum ColorType {
    Black,
    White,
    Orange,
    Grey,
    Tabby,
    Calico,
}

pub open spec fn color_text(c: ColorType) -> Seq<char> {
    match c {
        ColorType::Black => "Black"@,
        ColorType::White => "White"@,
        ColorType::Orange => "Orange"@,
        ColorType::Grey => "Grey"@,
        ColorType::Tabby => "Tabby"@,
        ColorType::Calico => "Calico"@,
    }
}

impl ColorType {
    /// The colours in the order Black, White, Orange, Grey, Tabby, Calico.
    pub fn from_index(i: u64) -> (r: ColorType)
        requires
            i < COLOR_KINDS,
        ensures
            i == 0 ==> r == ColorType::Black,
            i == 1 ==> r == ColorType::White,
            i == 2 ==> r == ColorType::Orange,
            i == 3 ==> r == ColorType::Grey,
            i == 4 ==> r == ColorType::Tabby,
            i == 5 ==> r == ColorType::Calico,
    {
        if i == 0 { ColorType::Black } else if i == 1 { ColorType::White } else if i == 2 {
            ColorType::Orange } else if i == 3 { ColorType::Grey } else if i == 4 {
            ColorType::Tabby } else { ColorType::Calico }
    }

    /// A colour picked at random.
    pub fn random() -> (r: ColorType) {
        ColorType::from_index(random_below(COLOR_KINDS))
    }

    pub fn label(&self) -> (r: &'static str)
        ensures
            r@ == color_text(*self),
    {
        match self {
            ColorType::Black => "Black",
            ColorType::White => "White",
            ColorType::Orange => "Orange",
            ColorType::Grey => "Grey",
            ColorType::Tabby => "Tabby",
            ColorType::Calico => "Calico",
        }
    }
}

/// How many breeds there are.
pub const RACE_KINDS: u64 = 6;

#[derive(Clone, Copy, Debug, PartialEq, Eq, Structural)]
pub enum Race {
    Siamese,
    Persian,
    MaineCoon,
    Bengal,
    Sphynx,
    Europeen,
}

pub open spec fn race_text(r: Race) -> Seq<char> {
    match r {
        Race::Siamese => "Siamese"@,
        Race::Persian => "Persian"@,
        Race::MaineCoon => "Maine Coon"@,
        Race::Bengal => "Bengal"@,
        Race::Sphynx => "Sphynx"@,
        Race::Europeen => "Europeen"@,
    }
}

impl Race {
    /// The breeds in the order Siamese, Persian, MaineCoon, Bengal, Sphynx, Europeen.
    pub fn from_index(i: u64) -> (r: Race)
        requires
            i < RACE_KINDS,
        ensures
            i == 0 ==> r == Race::Siamese,
            i == 1 ==> r == Race::Persian,
            i == 2 ==> r == Race::MaineCoon,
            i == 3 ==> r == Race::Bengal,
            i == 4 ==> r == Race::Sphynx,
            i == 5 ==> r == Race::Europeen,
    {
        if i == 0 { Race::Siamese } else if i == 1 { Race::Persian } else if i == 2 {
            Race::MaineCoon } else if i == 3 { Race::Bengal } else if i == 4 { Race::Sphynx
        } else { Race::Europeen }
    }

    /// A breed picked at random.
    pub fn random() -> (r: Race) {
        Race::from_index(random_below(RACE_KINDS))
    }

    pub fn label(&self) -> (r: &'static str)
        ensures
            r@ == race_text(*self),
    {
        match self {
            Race::Siamese => "Siamese",
            Race::Persian => "Persian",
            Race::MaineCoon => "Maine Coon",
            Race::Bengal => "Bengal",
            Race::Sphynx => "Sphynx",
            Race::Europeen => "Europeen",
        }
    }
}

} // verus!
