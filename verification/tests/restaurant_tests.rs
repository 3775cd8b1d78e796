use restaurant::back_of_house::Appetizer;
use restaurant::back_of_house::Breakfast;
use restaurant::eat_at_restaurant;
use restaurant::hosting;

#[test]
fn summer_with_rye_gives_rye_toast() {
    let meal = Breakfast::summer("Rye");
    assert_eq!(meal.toast, "Rye");
    // The seasonal fruit cannot be read here: that field is private to
    // back_of_house. Its value is pinned to "peaches" by the contract of
    // `summer`.
}

#[test]
fn changing_the_public_field_shows_on_later_reads() {
    let mut meal = Breakfast::summer("Rye");
    meal.toast = String::from("Wheat");
    assert_eq!(meal.toast, "Wheat");
}

#[test]
fn set_toast_changes_the_bread() {
    let mut meal = Breakfast::summer("Rye");
    meal.set_toast(String::from("Wheat"));
    assert_eq!(meal.toast, "Wheat");
}

#[test]
fn waitlist_reachable_through_reexport() {
    // The re-exported module gives one public path to the operation; the
    // absolute and relative paths inside the crate are both exercised by
    // eat_at_restaurant below. All are no-ops with the same (empty) effect.
    hosting::add_to_waitlist();
}

#[test]
fn eat_at_restaurant_ends_with_wheat_toast() {
    let meal = eat_at_restaurant();
    assert_eq!(meal.toast, "Wheat");
}

#[test]
fn appetizer_menu_has_exactly_soup_and_salad() {
    let order1 = Appetizer::Soup;
    let order2 = Appetizer::Salad;
    // An exhaustive match with no wildcard arm: these two are the whole menu.
    let mut seen: u32 = 0;
    for order in [order1, order2] {
        match order {
            Appetizer::Soup => seen += 1,
            Appetizer::Salad => seen += 10,
        }
    }
    assert_eq!(seen, 11);
}
