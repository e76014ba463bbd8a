//! What is decided between the store and the proxies: the record of an
//! update, the status of a gate, the error for a record that is not there.

use crate::address::signed_decimal;
use crate::input::{IntoActiveModel, UpdateGateInput, UpdateServiceInput};
use crate::model::{current_time, gate, service, ActiveValue};
use chrono::NaiveDateTime;
use vstd::prelude::*;
use vstd::string::StringExecFns;

verus! {

/// The record that changes service `id` as `update` says, at time `now`.
pub open spec fn service_update_at(
    id: i32,
    update: UpdateServiceInput,
    now: NaiveDateTime,
) -> service::ActiveModel {
    service::ActiveModel {
        id: ActiveValue::Unchanged(id),
        updated_at: ActiveValue::Assigned(Some(now)),
        ..update.active_model()
    }
}

/// The record that changes gate `id` as `update` says, at time `now`.
pub open spec fn gate_update_at(id: i32, update: UpdateGateInput, now: NaiveDateTime) -> gate::ActiveModel {
    gate::ActiveModel {
        id: ActiveValue::Unchanged(id),
        updated_at: ActiveValue::Assigned(Some(now)),
        ..update.active_model()
    }
}

/// The record of a change to a service: the columns that the change names,
/// the id kept as the key, and the time of the change.
pub fn service_update(id: i32, update: UpdateServiceInput, now: NaiveDateTime) -> (model:
    service::ActiveModel)
    ensures
        model == service_update_at(id, update, now),
{
    let mut model = update.into_active_model();
    model.id = ActiveValue::Unchanged(id);
    model.updated_at = ActiveValue::Assigned(Some(now));
    model
}

/// The record of a change to a service that is made now.
pub fn service_update_now(id: i32, update: UpdateServiceInput) -> (model: service::ActiveModel)
    ensures
        exists|now: NaiveDateTime| model == service_update_at(id, update, now),
{
    let now = current_time();
    service_update(id, update, now)
}

/// The record of a change to a gate: the columns that the change names,
/// the id kept as the key, and the time of the change.
pub fn gate_update(id: i32, update: UpdateGateInput, now: NaiveDateTime) -> (model:
    gate::ActiveModel)
    ensures
        model == gate_update_at(id, update, now),
{
    let mut model = update.into_active_model();
    model.id = ActiveValue::Unchanged(id);
    model.updated_at = ActiveValue::Assigned(Some(now));
    model
}

/// The record of a change to a gate that is made now.
pub fn gate_update_now(id: i32, update: UpdateGateInput) -> (model: gate::ActiveModel)
    ensures
        exists|now: NaiveDateTime| model == gate_update_at(id, update, now),
{
    let now = current_time();
    gate_update(id, update, now)
}

/// The status of a gate whose proxy is, or is not, registered.
pub fn gate_status(proxy_ready: bool) -> (status: gate::Status)
    ensures
        status == (if proxy_ready {
            gate::Status::Active
        } else {
            gate::Status::InActive
        }),
{
    if proxy_ready {
        gate::Status::Active
    } else {
        gate::Status::InActive
    }
}

/// A record that the store does not hold.
#[derive(Clone, Copy, Debug, PartialEq, Eq, Structural)]
pub enum Missing {
    /// A service that was looked up by this id.
    Service(i32),
    /// A gate that was looked up by this id.
    Gate(i32),
    /// The service behind a gate, looked up for a gate of this id or by
    /// this service id.
    ServiceOfGate(i32),
    /// A service that was to be deleted.
    DeletedService,
    /// A gate that was to be deleted.
    DeletedGate,
}

impl Missing {
    /// The text shown for the missing record.
    pub open spec fn text(self) -> Seq<char> {
        match self {
            Missing::Service(id) => "service "@ + signed_decimal(id as int) + " not found"@,
            Missing::Gate(id) => "gate "@ + signed_decimal(id as int) + " not found"@,
            Missing::ServiceOfGate(id) => "service for gate "@ + signed_decimal(id as int)
                + " not found"@,
            Missing::DeletedService => "service not found"@,
            Missing::DeletedGate => "gate not found"@,
        }
    }

    /// A human-readable description of what is missing.
    pub fn message(&self) -> (message: String)
        ensures
            message@ == self.text(),
    {
        match self {
            Missing::Service(id) => numbered("service ", *id),
            Missing::Gate(id) => numbered("gate ", *id),
            Missing::ServiceOfGate(id) => numbered("service for gate ", *id),
            Missing::DeletedService => String::from_str("service not found"),
            Missing::DeletedGate => String::from_str("gate not found"),
        }
    }
}

fn numbered(what: &str, id: i32) -> (message: String)
    ensures
        message@ == what@ + signed_decimal(id as int) + " not found"@,
{
    let mut message = String::from_str(what);
    crate::address::push_signed_decimal(&mut message, id);
    message.append(" not found");
    message
}

} // verus!
