use azvm_manager::{
    get_opt, next_poll_step, power_state, refresh_complete, AppError, InstanceStatus,
    OperationStatus, PollStep, Store, VmCommand,
};

#[test]
fn only_in_progress_is_non_terminal() {
    assert!(OperationStatus::Succeeded.is_terminal());
    assert!(OperationStatus::Failed.is_terminal());
    assert!(OperationStatus::Canceled.is_terminal());
    assert!(OperationStatus::Invalid.is_terminal());
    assert!(OperationStatus::Unknown("Paused".to_string()).is_terminal());
    assert!(!OperationStatus::InProgress.is_terminal());
}

#[test]
fn only_succeeded_counts_as_success() {
    assert!(OperationStatus::Succeeded.is_succeeded());
    assert!(!OperationStatus::Failed.is_succeeded());
    assert!(!OperationStatus::Unknown("Done".to_string()).is_succeeded());
}

#[test]
fn poll_retries_until_a_terminal_status() {
    assert!(matches!(next_poll_step(None), PollStep::Retry));
    assert!(matches!(
        next_poll_step(Some(OperationStatus::InProgress)),
        PollStep::Retry
    ));
    match next_poll_step(Some(OperationStatus::Succeeded)) {
        PollStep::Complete(OperationStatus::Succeeded) => {}
        _ => panic!("expected completion with the observed status"),
    }
    match next_poll_step(Some(OperationStatus::Unknown("Odd".to_string()))) {
        PollStep::Complete(OperationStatus::Unknown(text)) => assert_eq!(text, "Odd"),
        _ => panic!("an unrecognized status must end the poll"),
    }
}

#[test]
fn refresh_waits_for_no_content() {
    assert!(refresh_complete(204));
    assert!(!refresh_complete(200));
    assert!(!refresh_complete(202));
    assert!(!refresh_complete(404));
}

fn status(code: Option<&str>, display: Option<&str>) -> InstanceStatus {
    InstanceStatus {
        code: code.map(|s| s.to_string()),
        display_status: display.map(|s| s.to_string()),
    }
}

#[test]
fn power_state_takes_the_first_power_status() {
    let statuses = vec![
        status(Some("ProvisioningState/succeeded"), Some("Provisioning succeeded")),
        status(Some("PowerState/running"), Some("VM running")),
        status(Some("PowerState/starting"), Some("VM starting")),
    ];
    assert_eq!(power_state(&statuses), "VM running");
}

#[test]
fn power_state_without_power_status_is_unknown() {
    let statuses = vec![status(
        Some("ProvisioningState/succeeded"),
        Some("Provisioning succeeded"),
    )];
    assert_eq!(power_state(&statuses), "Unknown");
    assert_eq!(power_state(&Vec::new()), "Unknown");
}

#[test]
fn power_state_without_display_text_is_unknown() {
    let statuses = vec![status(Some("PowerState/running"), None)];
    assert_eq!(power_state(&statuses), "Unknown");
}

#[test]
fn power_state_ignores_codeless_statuses() {
    let statuses = vec![
        status(None, Some("VM deallocated")),
        status(Some("PowerState/deallocated"), Some("VM deallocated")),
    ];
    assert_eq!(power_state(&statuses), "VM deallocated");
}

#[test]
fn commands_name_their_target_states() {
    assert_eq!(VmCommand::Start.target_state(), "VM running");
    assert_eq!(VmCommand::Stop.target_state(), "VM deallocated");
    assert_eq!(VmCommand::Start.progress_prefix(), "Started");
    assert_eq!(VmCommand::Stop.progress_prefix(), "Stopped");
}

#[test]
fn store_keeps_what_is_set() {
    let mut store = Store::new();
    assert_eq!(store.get_subscription_id(), None);
    assert_eq!(store.get_resource_group(), None);
    assert_eq!(store.get_vault_resource_group(), None);
    assert_eq!(store.get_vault_name(), None);
    store.set_subscription_id("sub-1");
    store.set_resource_group("rg-1");
    store.set_vault_resource_group("vault-rg");
    store.set_vault_name("vault-1");
    assert_eq!(store.get_subscription_id(), Some("sub-1"));
    assert_eq!(store.get_resource_group(), Some("rg-1"));
    assert_eq!(store.get_vault_resource_group(), Some("vault-rg"));
    assert_eq!(store.get_vault_name(), Some("vault-1"));
}

#[test]
fn default_store_is_empty() {
    let store = Store::default();
    assert_eq!(store.get_subscription_id(), None);
    assert_eq!(store.get_resource_group(), None);
}

#[test]
fn applying_no_settings_changes_nothing() {
    let mut store = Store::new();
    let changed = store.apply_settings(&None, &None, &None, &None);
    assert!(!changed);
    assert_eq!(store.get_subscription_id(), None);
}

#[test]
fn applying_settings_overrides_only_what_is_given() {
    let mut store = Store::new();
    store.set_resource_group("old-rg");
    let changed = store.apply_settings(&Some("sub-2".to_string()), &None, &None, &None);
    assert!(changed);
    assert_eq!(store.get_subscription_id(), Some("sub-2"));
    assert_eq!(store.get_resource_group(), Some("old-rg"));
}

#[test]
fn get_opt_prefers_the_given_value() {
    let given = Some("from-args".to_string());
    let r = get_opt(&given, || Err(AppError::NoSub));
    assert_eq!(r.unwrap(), "from-args");
}

#[test]
fn get_opt_falls_back_when_nothing_is_given() {
    let store = {
        let mut s = Store::new();
        s.set_subscription_id("from-store");
        s
    };
    let r = get_opt(&None, || store.get_subscription_id().ok_or(AppError::NoSub));
    assert_eq!(r.unwrap(), "from-store");

    let empty = Store::new();
    let r = get_opt(&None, || empty.get_subscription_id().ok_or(AppError::NoSub));
    assert!(matches!(r.unwrap_err(), AppError::NoSub));
}
