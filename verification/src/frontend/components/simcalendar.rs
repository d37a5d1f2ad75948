//! The state of the week calendar: one action code per hour of the week.

use vstd::prelude::*;

verus! {

#[verifier::external_type_specification]
#[verifier::external_body]
pub struct ExJsonNumber(serde_json::Number);

/// One action code for each of the 24 hours of each of the 7 days.
#[derive(Clone, Copy, PartialEq)]
pub struct SimCalendarState {
    action_codes: [i32; 168],
}

/// What happens to the calendar.
pub enum SimCalendarAction {
    SetAction(serde_json::Number, String),
}

impl View for SimCalendarState {
    type V = Seq<i32>;

    closed spec fn view(&self) -> Seq<i32> {
        self.action_codes@
    }
}

impl Default for SimCalendarState {
    /// Every hour has the code 0.
    fn default() -> (c: Self)
        ensures
            c@.len() == 168,
            forall|i: int| 0 <= i < 168 ==> c@[i] == 0,
    {
        SimCalendarState { action_codes: [0i32; 168] }
    }
}

impl SimCalendarState {
    /// The state after `action`: every action leaves the calendar as it is.
    pub fn reduce(&self, action: SimCalendarAction) -> (c: Self)
        ensures
            c@ == self@,
    {
        SimCalendarState { action_codes: self.action_codes }
    }
}

} // verus!
