//! The records of the store as the library sees them: for each column of a
//! record to write, whether it is set, kept or left out.

pub mod gate;
pub mod service;

use vstd::prelude::*;

verus! {

/// `chrono::NaiveDateTime`, a date and time without zone. The library
/// carries such values from the clock into records and never looks inside
/// them.
#[verifier::external_type_specification]
#[verifier::external_body]
pub struct ExNaiveDateTime(chrono::NaiveDateTime);

/// The state of one column in a record that is about to be written.
#[derive(Debug, PartialEq, Eq)]
pub enum ActiveValue<V> {
    /// The column is written with this value.
    Assigned(V),
    /// The column holds this value and is not written.
    Unchanged(V),
    /// The column is left to the store.
    NotSet,
}

/// Turns a value into the state of a column.
pub trait IntoActiveValue<T>: Sized {
    /// The column state that the value stands for.
    spec fn active_value(self) -> T;

    fn into_active_value(self) -> (value: T)
        ensures
            value == self.active_value(),
    ;
}

/// A value sets its column.
impl<T> IntoActiveValue<ActiveValue<T>> for T {
    open spec fn active_value(self) -> ActiveValue<T> {
        ActiveValue::Assigned(self)
    }

    fn into_active_value(self) -> ActiveValue<T> {
        ActiveValue::Assigned(self)
    }
}

/// An optional value sets its column if it is there and leaves the column
/// out if it is not.
impl<T> IntoActiveValue<ActiveValue<T>> for Option<T> {
    open spec fn active_value(self) -> ActiveValue<T> {
        match self {
            Some(v) => ActiveValue::Assigned(v),
            None => ActiveValue::NotSet,
        }
    }

    fn into_active_value(self) -> ActiveValue<T> {
        match self {
            Some(v) => ActiveValue::Assigned(v),
            None => ActiveValue::NotSet,
        }
    }
}

/// The current time in UTC, without its zone.
///
/// Calls `chrono::Utc::now` and takes `DateTime::naive_utc` of it. Nothing
/// is claimed of the value. `Utc::now` does not return on a machine whose
/// clock stands before 1970.
#[verifier::external_body]
pub fn current_time() -> (now: chrono::NaiveDateTime) {
    chrono::Utc::now().naive_utc()
}

} // verus!
