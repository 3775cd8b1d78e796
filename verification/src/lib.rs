use vstd::prelude::*;

mod front_of_house;

pub mod back_of_house;
pub mod coins;
pub mod messages;
pub mod numbers;
pub mod rectangles;
pub mod strings;

pub use crate::front_of_house::hosting;
use crate::front_of_house::hosting::add_to_waitlist;

verus! {

pub(crate) fn deliver_order() {
}

/// A full visit: the party is put on the waitlist (reached through an
/// absolute path, a relative path, the re-exported module, and the imported
/// name, all resolving to the same operation), a summer breakfast is ordered
/// with rye toast, and the choice is then changed to wheat. The hidden fruit
/// choice is untouched by the change of mind.
pub fn eat_at_restaurant() -> (meal: back_of_house::Breakfast)
    ensures
        meal.toast_view() == "Wheat"@,
        meal.fruit_view() == "peaches"@,
{
    // Absolute path:
    crate::front_of_house::hosting::add_to_waitlist();

    // Relative path:
    front_of_house::hosting::add_to_waitlist();

    let mut meal = back_of_house::Breakfast::summer("Rye");
    // Change our mind about what bread we want.
    meal.set_toast("Wheat".to_owned());

    let _order1 = back_of_house::Appetizer::Soup;
    let _order2 = back_of_house::Appetizer::Salad;

    // Through the re-exported module:
    hosting::add_to_waitlist();

    // Through the imported name:
    add_to_waitlist();

    meal
}

} // verus!
