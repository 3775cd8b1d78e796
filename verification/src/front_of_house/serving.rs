use vstd::prelude::*;

verus! {

#[allow(dead_code)]
pub(crate) fn take_order() {
}

#[allow(dead_code)]
pub(crate) fn serve_order() {
}

#[allow(dead_code)]
pub(crate) fn take_payment() {
}

} // verus!
