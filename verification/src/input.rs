//! What callers hand in to create or change a service or a gate, and the
//! record that each input writes.

use crate::model::{gate, service, ActiveValue, IntoActiveValue};
use vstd::prelude::*;

verus! {

/// Turns an input into the record that it writes.
pub trait IntoActiveModel<T>: Sized {
    /// The record that the input writes.
    spec fn active_model(self) -> T;

    fn into_active_model(self) -> (model: T)
        ensures
            model == self.active_model(),
    ;
}

/// A service to create.
pub struct CreateServiceInput {
    pub host: String,
    pub port: i32,
}

/// The changes to a service; what is `None` stays as it is.
pub struct UpdateServiceInput {
    pub host: Option<String>,
    pub port: Option<i32>,
}

/// A gate to create, for the service of the given id.
pub struct CreateGateInput {
    pub service_id: i32,
    pub host: String,
    pub port: i32,
}

/// The changes to a gate; what is `None` stays as it is.
pub struct UpdateGateInput {
    pub service_id: Option<i32>,
    pub host: Option<String>,
    pub port: Option<i32>,
}

/// A new service sets host and port and leaves the rest to the store.
impl IntoActiveModel<service::ActiveModel> for CreateServiceInput {
    open spec fn active_model(self) -> service::ActiveModel {
        service::ActiveModel {
            host: ActiveValue::Assigned(self.host),
            port: ActiveValue::Assigned(self.port),
            ..service::ActiveModel::empty()
        }
    }

    fn into_active_model(self) -> service::ActiveModel {
        let mut model = service::ActiveModel::default();
        model.host = self.host.into_active_value();
        model.port = self.port.into_active_value();
        model
    }
}

/// A change to a service sets the columns that it names.
impl IntoActiveModel<service::ActiveModel> for UpdateServiceInput {
    open spec fn active_model(self) -> service::ActiveModel {
        service::ActiveModel {
            host: self.host.active_value(),
            port: self.port.active_value(),
            ..service::ActiveModel::empty()
        }
    }

    fn into_active_model(self) -> service::ActiveModel {
        let mut model = service::ActiveModel::default();
        model.host = self.host.into_active_value();
        model.port = self.port.into_active_value();
        model
    }
}

/// A new gate sets its service, host and port and leaves the rest to the
/// store.
impl IntoActiveModel<gate::ActiveModel> for CreateGateInput {
    open spec fn active_model(self) -> gate::ActiveModel {
        gate::ActiveModel {
            service_id: ActiveValue::Assigned(self.service_id),
            host: ActiveValue::Assigned(self.host),
            port: ActiveValue::Assigned(self.port),
            ..gate::ActiveModel::empty()
        }
    }

    fn into_active_model(self) -> gate::ActiveModel {
        let mut model = gate::ActiveModel::default();
        model.service_id = self.service_id.into_active_value();
        model.host = self.host.into_active_value();
        model.port = self.port.into_active_value();
        model
    }
}

/// A change to a gate sets the columns that it names.
impl IntoActiveModel<gate::ActiveModel> for UpdateGateInput {
    open spec fn active_model(self) -> gate::ActiveModel {
        gate::ActiveModel {
            service_id: self.service_id.active_value(),
            host: self.host.active_value(),
            port: self.port.active_value(),
            ..gate::ActiveModel::empty()
        }
    }

    fn into_active_model(self) -> gate::ActiveModel {
        let mut model = gate::ActiveModel::default();
        model.service_id = self.service_id.into_active_value();
        model.host = self.host.into_active_value();
        model.port = self.port.into_active_value();
        model
    }
}

} // verus!
