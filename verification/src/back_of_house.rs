use vstd::prelude::*;

verus! {

/// A breakfast order: the customer picks the toast, the kitchen fixes the
/// seasonal fruit at construction time and never exposes it afterwards.
pub struct Breakfast {
    pub toast: String,
    seasonal_fruit: String,
}

impl Breakfast {
    /// What the public toast choice reads. The private fruit field makes the
    /// whole record opaque to callers, so contracts go through this accessor.
    pub closed spec fn toast_view(&self) -> Seq<char> {
        self.toast@
    }

    /// What the hidden fruit choice reads. The field itself stays private;
    /// only specifications can speak of its contents.
    pub closed spec fn fruit_view(&self) -> Seq<char> {
        self.seasonal_fruit@
    }

    /// The summer menu: the caller's choice of toast, with the seasonal
    /// fruit fixed to peaches.
    pub fn summer(toast: &str) -> (meal: Breakfast)
        ensures
            meal.toast_view() == toast@,
            meal.fruit_view() == "peaches"@,
    {
        Breakfast {
            toast: toast.to_owned(),
            seasonal_fruit: "peaches".to_owned(),
        }
    }

    /// Changing one's mind about the bread: the public choice moves, the
    /// hidden fruit choice stays exactly as it was.
    pub fn set_toast(&mut self, toast: String)
        ensures
            final(self).toast_view() == toast@,
            final(self).fruit_view() == old(self).fruit_view(),
    {
        self.toast = toast;
    }
}

pub enum Appetizer {
    Soup,
    Salad,
}

/// The appetizer menu is closed: every possible order is soup or salad,
/// and never both at once.
pub proof fn lemma_appetizer_two_members(order: Appetizer)
    ensures
        order is Soup || order is Salad,
        !(order is Soup && order is Salad),
{
}

#[allow(dead_code)]
fn fix_incorrect_order() {
    cook_order();
    super::deliver_order();
}

#[allow(dead_code)]
fn cook_order() {
}

} // verus!
