use chrono::NaiveDate;
use porter::db::{database_url, MAX_CONNECTIONS};
use porter::dto::ServiceInputDTO;
use porter::input::{
    CreateGateInput, CreateServiceInput, IntoActiveModel, UpdateGateInput, UpdateServiceInput,
};
use porter::model::{current_time, gate, service, ActiveValue, IntoActiveValue};
use porter::porter::{
    gate_status, gate_update, gate_update_now, service_update, service_update_now, Missing,
};

fn service_with(host: ActiveValue<String>, port: ActiveValue<i32>) -> service::ActiveModel {
    service::ActiveModel { host, port, ..Default::default() }
}

#[test]
fn value_sets_and_option_sets_or_leaves_out() {
    let set: ActiveValue<i32> = 5i32.into_active_value();
    assert_eq!(set, ActiveValue::Assigned(5));
    let set: ActiveValue<i32> = Some(6i32).into_active_value();
    assert_eq!(set, ActiveValue::Assigned(6));
    let nested: ActiveValue<Option<i32>> = Some(7i32).into_active_value();
    assert_eq!(nested, ActiveValue::Assigned(Some(7)));
    let none: Option<i32> = None;
    let left_out: ActiveValue<i32> = none.into_active_value();
    assert_eq!(left_out, ActiveValue::NotSet);
}

#[test]
fn default_records_write_nothing() {
    let service = service::ActiveModel::default();
    assert_eq!(service.id, ActiveValue::NotSet);
    assert_eq!(service.created_at, ActiveValue::NotSet);
    assert_eq!(service.updated_at, ActiveValue::NotSet);
    assert_eq!(service.deleted_at, ActiveValue::NotSet);
    assert_eq!(service.host, ActiveValue::NotSet);
    assert_eq!(service.port, ActiveValue::NotSet);
    let gate = gate::ActiveModel::default();
    assert_eq!(gate.id, ActiveValue::NotSet);
    assert_eq!(gate.service_id, ActiveValue::NotSet);
    assert_eq!(gate.host, ActiveValue::NotSet);
    assert_eq!(gate.port, ActiveValue::NotSet);
    assert_eq!(gate.updated_at, ActiveValue::NotSet);
}

#[test]
fn create_service_sets_host_and_port() {
    let input = CreateServiceInput { host: "example.invalid".to_string(), port: 80 };
    assert_eq!(
        input.into_active_model(),
        service_with(
            ActiveValue::Assigned("example.invalid".to_string()),
            ActiveValue::Assigned(80)
        )
    );
}

#[test]
fn update_service_sets_what_it_names() {
    let input = UpdateServiceInput { host: None, port: Some(81) };
    assert_eq!(
        input.into_active_model(),
        service_with(ActiveValue::NotSet, ActiveValue::Assigned(81))
    );
    let input = UpdateServiceInput { host: Some("h".to_string()), port: None };
    assert_eq!(
        input.into_active_model(),
        service_with(ActiveValue::Assigned("h".to_string()), ActiveValue::NotSet)
    );
}

#[test]
fn create_gate_sets_service_host_and_port() {
    let input = CreateGateInput { service_id: 3, host: "127.0.0.1".to_string(), port: 18080 };
    assert_eq!(
        input.into_active_model(),
        gate::ActiveModel {
            service_id: ActiveValue::Assigned(3),
            host: ActiveValue::Assigned("127.0.0.1".to_string()),
            port: ActiveValue::Assigned(18080),
            ..Default::default()
        }
    );
}

#[test]
fn update_gate_sets_what_it_names() {
    let input = UpdateGateInput { service_id: Some(4), host: None, port: None };
    assert_eq!(
        input.into_active_model(),
        gate::ActiveModel { service_id: ActiveValue::Assigned(4), ..Default::default() }
    );
}

#[test]
fn web_input_writes_no_column() {
    let input = ServiceInputDTO { host: "example.invalid".to_string(), port: 80 };
    assert_eq!(input.into_active_model(), service::ActiveModel::default());
}

#[test]
fn update_keeps_id_and_stamps_time() {
    let now = NaiveDate::from_ymd_opt(2024, 2, 29).unwrap().and_hms_opt(12, 30, 0).unwrap();
    let model = service_update(7, UpdateServiceInput { host: None, port: Some(81) }, now);
    assert_eq!(
        model,
        service::ActiveModel {
            id: ActiveValue::Unchanged(7),
            updated_at: ActiveValue::Assigned(Some(now)),
            port: ActiveValue::Assigned(81),
            ..Default::default()
        }
    );
    let model = gate_update(
        9,
        UpdateGateInput { service_id: None, host: Some("0.0.0.0".to_string()), port: None },
        now,
    );
    assert_eq!(
        model,
        gate::ActiveModel {
            id: ActiveValue::Unchanged(9),
            updated_at: ActiveValue::Assigned(Some(now)),
            host: ActiveValue::Assigned("0.0.0.0".to_string()),
            ..Default::default()
        }
    );
}

#[test]
fn update_made_now_carries_the_current_time() {
    let before = chrono::Utc::now().naive_utc();
    let service = service_update_now(7, UpdateServiceInput { host: None, port: None });
    let gate = gate_update_now(8, UpdateGateInput { service_id: None, host: None, port: None });
    let after = chrono::Utc::now().naive_utc();
    assert_eq!(service.id, ActiveValue::Unchanged(7));
    assert_eq!(gate.id, ActiveValue::Unchanged(8));
    for stamp in [service.updated_at, gate.updated_at] {
        match stamp {
            ActiveValue::Assigned(Some(at)) => assert!(before <= at && at <= after),
            other => panic!("no time was set: {:?}", other),
        }
    }
}

#[test]
fn current_time_moves_with_the_clock() {
    let before = chrono::Utc::now().naive_utc();
    let now = current_time();
    let after = chrono::Utc::now().naive_utc();
    assert!(before <= now && now <= after);
}

#[test]
fn gate_status_follows_proxy() {
    assert_eq!(gate_status(true), gate::Status::Active);
    assert_eq!(gate_status(false), gate::Status::InActive);
}

#[test]
fn missing_records_are_named() {
    assert_eq!(Missing::Service(12).message(), "service 12 not found");
    assert_eq!(Missing::Gate(0).message(), "gate 0 not found");
    assert_eq!(Missing::ServiceOfGate(-4).message(), "service for gate -4 not found");
    assert_eq!(Missing::DeletedService.message(), "service not found");
    assert_eq!(Missing::DeletedGate.message(), "gate not found");
}

#[test]
fn store_address() {
    assert_eq!(MAX_CONNECTIONS, 5);
    assert_eq!(database_url(true, None), Some("sqlite://:memory:".to_string()));
    assert_eq!(
        database_url(true, Some("sqlite://porter.db".to_string())),
        Some("sqlite://:memory:".to_string())
    );
    assert_eq!(
        database_url(false, Some("sqlite://porter.db".to_string())),
        Some("sqlite://porter.db".to_string())
    );
    assert_eq!(database_url(false, None), None);
}
