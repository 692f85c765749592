//! A store of cat food.
use vstd::prelude::*;
use vstd::string::StringExecFns;

verus! {

/// The food value of one ration, in hundredths of a point.
pub const RATION_FOOD_VALUE: u32 = 200;

/// One ration of food.
pub struct Eat {
    pub id: u32,
    pub name: String,
    /// In hundredths of a point.
    pub food_value: u32,
}

pub struct Inventory {
    pub slot: Vec<Eat>,
}

/// The `j`-th ration that a filling adds: numbered `j`, named "CatEat", worth 2 points.
pub open spec fn is_ration(e: Eat, j: int) -> bool {
    e.id == j && e.name@ == "CatEat"@ && e.food_value == RATION_FOOD_VALUE
}

impl Inventory {
    /// An empty inventory.
    pub fn get_inventory() -> (r: Inventory)
        ensures
            r.slot.len() == 0,
    {
        Inventory { slot: Vec::new() }
    }

    /// Adds `amount` rations, numbered from 0, after those already held.
    pub fn fill_inventory(&mut self, amount: u32)
        ensures
            final(self).slot.len() == old(self).slot.len() + amount,
            forall|i: int| 0 <= i < old(self).slot.len() ==> final(self).slot[i] == old(self).slot[i],
            forall|j: int| 0 <= j < amount ==> is_ration(
                #[trigger] final(self).slot[old(self).slot.len() + j], j),
    {
        let ghost start = self.slot@;
        let mut x: u32 = 0;
        while x < amount
            invariant
                x <= amount,
                self.slot.len() == start.len() + x,
                forall|i: int| 0 <= i < start.len() ==> self.slot[i] == start[i],
                forall|j: int| 0 <= j < x ==> is_ration(#[trigger] self.slot[start.len() + j], j),
            decreases amount - x,
        {
            self.slot.push(Eat { id: x, name: String::from_str("CatEat"), food_value: RATION_FOOD_VALUE });
            x = x + 1;
        }
    }
}

} // verus!
