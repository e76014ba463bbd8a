//! The inputs of the web interface.

use crate::model::service;
use vstd::prelude::*;

verus! {

/// A service as the web interface takes it.
pub struct ServiceInputDTO {
    pub host: String,
    pub port: i32,
}

impl ServiceInputDTO {
    /// The record for this input. It writes no column: host and port of
    /// the input are not taken over.
    pub fn into_active_model(self) -> (model: service::ActiveModel)
        ensures
            model == service::ActiveModel::empty(),
    {
        service::ActiveModel::default()
    }
}

} // verus!
