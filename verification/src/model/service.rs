//! The record of a service: the upstream endpoint that gates relay to.

use crate::model::ActiveValue;
use chrono::NaiveDateTime;
use vstd::prelude::*;

verus! {

/// A service record that is about to be written, column by column.
#[derive(Debug, PartialEq, Eq)]
pub struct ActiveModel {
    pub id: ActiveValue<i32>,
    pub created_at: ActiveValue<NaiveDateTime>,
    pub updated_at: ActiveValue<Option<NaiveDateTime>>,
    pub deleted_at: ActiveValue<Option<NaiveDateTime>>,
    pub host: ActiveValue<String>,
    pub port: ActiveValue<i32>,
}

impl ActiveModel {
    /// The record that writes no column.
    pub open spec fn empty() -> Self {
        ActiveModel {
            id: ActiveValue::NotSet,
            created_at: ActiveValue::NotSet,
            updated_at: ActiveValue::NotSet,
            deleted_at: ActiveValue::NotSet,
            host: ActiveValue::NotSet,
            port: ActiveValue::NotSet,
        }
    }
}

impl Default for ActiveModel {
    fn default() -> (model: Self)
        ensures
            model == ActiveModel::empty(),
    {
        ActiveModel {
            id: ActiveValue::NotSet,
            created_at: ActiveValue::NotSet,
            updated_at: ActiveValue::NotSet,
            deleted_at: ActiveValue::NotSet,
            host: ActiveValue::NotSet,
            port: ActiveValue::NotSet,
        }
    }
}

} // verus!
