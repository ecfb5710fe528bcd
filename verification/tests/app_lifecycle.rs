use fiducia_desktop::{
    AppEffectKind, AppEvent, AppLifecycleMachine, AppPhase, AppSnapshot, TransitionDisposition,
};
use std::collections::HashSet;

fn boot_ready() -> AppLifecycleMachine {
    let mut machine = AppLifecycleMachine::default();
    let launch = machine.dispatch(&AppEvent::LaunchRequested);
    let bootstrap = machine.dispatch(&AppEvent::BootstrapSucceeded {
        operation_id: launch.effect.expect("bootstrap effect").operation_id,
        authenticated: true,
        has_tenant: true,
        online: true,
    });
    machine.dispatch(&AppEvent::OperationSucceeded {
        operation_id: bootstrap.effect.expect("sync effect").operation_id,
    });
    assert_eq!(machine.snapshot().phase(), AppPhase::ReadyOnline);
    machine
}

fn bounded_events(snapshot: &AppSnapshot) -> Vec<AppEvent> {
    let active = snapshot.active_operation_id().unwrap_or(snapshot.generation());
    vec![
        AppEvent::LaunchRequested,
        AppEvent::BootstrapSucceeded {
            operation_id: active,
            authenticated: false,
            has_tenant: false,
            online: true,
        },
        AppEvent::BootstrapSucceeded {
            operation_id: active,
            authenticated: true,
            has_tenant: false,
            online: true,
        },
        AppEvent::BootstrapSucceeded {
            operation_id: active,
            authenticated: true,
            has_tenant: true,
            online: true,
        },
        AppEvent::BootstrapSucceeded {
            operation_id: active,
            authenticated: true,
            has_tenant: true,
            online: false,
        },
        AppEvent::SignInRequested,
        AppEvent::AuthenticationSucceeded {
            operation_id: active,
            has_tenant: false,
            online: true,
        },
        AppEvent::AuthenticationSucceeded {
            operation_id: active,
            has_tenant: true,
            online: true,
        },
        AppEvent::TenantSelected,
        AppEvent::ConnectivityChanged { online: false },
        AppEvent::ConnectivityChanged { online: true },
        AppEvent::SyncRequested,
        AppEvent::ActionRequested {
            action_id: "bounded-action".to_owned(),
        },
        AppEvent::ActionRequested {
            action_id: String::new(),
        },
        AppEvent::ActionConfirmed,
        AppEvent::ActionCancelled,
        AppEvent::OperationSucceeded {
            operation_id: active,
        },
        AppEvent::OperationSucceeded {
            operation_id: snapshot.generation().saturating_add(7),
        },
        AppEvent::OperationFailed {
            operation_id: active,
            reason: "bounded failure".to_owned(),
            retryable: false,
            ambiguous: false,
        },
        AppEvent::OperationFailed {
            operation_id: active,
            reason: "ambiguous bounded failure".to_owned(),
            retryable: true,
            ambiguous: true,
        },
        AppEvent::SignOutRequested,
        AppEvent::SessionRevoked,
        AppEvent::RecoveryRequested,
        AppEvent::RecoverySucceeded {
            operation_id: active,
            authenticated: false,
            has_tenant: false,
            online: true,
        },
        AppEvent::RecoverySucceeded {
            operation_id: active,
            authenticated: true,
            has_tenant: true,
            online: true,
        },
    ]
}

#[test]
fn happy_path_requires_auth_tenant_sync_and_confirmation() {
    let mut machine = AppLifecycleMachine::default();
    let launch = machine.dispatch(&AppEvent::LaunchRequested);
    let launch_token = launch.effect.expect("bootstrap effect").operation_id;
    machine.dispatch(&AppEvent::BootstrapSucceeded {
        operation_id: launch_token,
        authenticated: false,
        has_tenant: false,
        online: true,
    });
    let auth = machine.dispatch(&AppEvent::SignInRequested);
    machine.dispatch(&AppEvent::AuthenticationSucceeded {
        operation_id: auth.effect.expect("auth effect").operation_id,
        has_tenant: false,
        online: true,
    });
    assert_eq!(machine.snapshot().phase(), AppPhase::SelectingTenant);
    let selected = machine.dispatch(&AppEvent::TenantSelected);
    machine.dispatch(&AppEvent::OperationSucceeded {
        operation_id: selected.effect.expect("sync effect").operation_id,
    });
    assert_eq!(machine.snapshot().phase(), AppPhase::ReadyOnline);
    machine.dispatch(&AppEvent::ActionRequested {
        action_id: "rotate-api-key".to_owned(),
    });
    let execute = machine.dispatch(&AppEvent::ActionConfirmed);
    let effect = execute.effect.expect("execute effect");
    assert_eq!(effect.kind, AppEffectKind::ExecuteAction);
    assert_eq!(
        effect.authority_epoch,
        Some(machine.snapshot().authority_epoch())
    );
    machine.dispatch(&AppEvent::OperationSucceeded {
        operation_id: effect.operation_id,
    });
    assert_eq!(machine.snapshot().phase(), AppPhase::ReadyOnline);
    assert!(machine.snapshot().pending_action().is_none());
}

#[test]
fn offline_mode_is_read_only() {
    let mut machine = boot_ready();
    machine.dispatch(&AppEvent::ConnectivityChanged { online: false });
    assert_eq!(machine.snapshot().phase(), AppPhase::ReadyOffline);
    assert!(machine.snapshot().capabilities().can_read_cached_data);
    assert!(
        !machine
            .snapshot()
            .capabilities()
            .can_request_privileged_action
    );
    let rejected = machine.dispatch(&AppEvent::ActionRequested {
        action_id: "rotate-api-key".to_owned(),
    });
    assert_eq!(rejected.disposition, TransitionDisposition::Rejected);
    assert_eq!(rejected.after, rejected.before);
}

#[test]
fn sign_out_fences_stale_completions_and_revokes_authority_first() {
    let mut machine = AppLifecycleMachine::default();
    let launch = machine.dispatch(&AppEvent::LaunchRequested);
    machine.dispatch(&AppEvent::BootstrapSucceeded {
        operation_id: launch.effect.expect("bootstrap effect").operation_id,
        authenticated: false,
        has_tenant: false,
        online: true,
    });
    let auth = machine.dispatch(&AppEvent::SignInRequested);
    let auth_token = auth.effect.expect("auth effect").operation_id;
    let sign_out = machine.dispatch(&AppEvent::SessionRevoked);
    assert_eq!(machine.snapshot().phase(), AppPhase::SigningOut);
    assert!(!machine.snapshot().has_session());
    assert!(!machine.snapshot().has_tenant());
    let stale = machine.dispatch(&AppEvent::AuthenticationSucceeded {
        operation_id: auth_token,
        has_tenant: true,
        online: true,
    });
    assert_eq!(stale.disposition, TransitionDisposition::Stale);
    machine.dispatch(&AppEvent::OperationSucceeded {
        operation_id: sign_out.effect.expect("clear effect").operation_id,
    });
    assert_eq!(machine.snapshot().phase(), AppPhase::SignedOut);
}

#[test]
fn ambiguous_action_requires_reconciliation() {
    let mut machine = boot_ready();
    machine.dispatch(&AppEvent::ActionRequested {
        action_id: "move-leader".to_owned(),
    });
    let execute = machine.dispatch(&AppEvent::ActionConfirmed);
    let execute_token = execute.effect.expect("execute effect").operation_id;
    machine.dispatch(&AppEvent::ConnectivityChanged { online: false });
    assert_eq!(machine.snapshot().phase(), AppPhase::ReconciliationRequired);
    let stale = machine.dispatch(&AppEvent::OperationSucceeded {
        operation_id: execute_token,
    });
    assert_eq!(stale.disposition, TransitionDisposition::Stale);
    let reconcile = machine.dispatch(&AppEvent::ConnectivityChanged { online: true });
    assert_eq!(
        reconcile.effect.as_ref().map(|effect| effect.kind),
        Some(AppEffectKind::ReconcileAction)
    );
    machine.dispatch(&AppEvent::OperationSucceeded {
        operation_id: reconcile.effect.expect("reconcile effect").operation_id,
    });
    assert_eq!(machine.snapshot().phase(), AppPhase::ReadyOnline);
    assert!(machine.snapshot().pending_action().is_none());
}

#[test]
fn corrupt_snapshot_fails_closed() {
    let corrupt = AppSnapshot {
        phase: AppPhase::ReadyOnline,
        generation: 4,
        authority_epoch: 2,
        has_session: false,
        has_tenant: true,
        online: true,
        active_operation: None,
        active_operation_id: None,
        pending_action: None,
        failure: None,
    };
    assert!(corrupt.validate().is_err());
    let transition = AppLifecycleMachine::transition(
        &corrupt,
        &AppEvent::ActionRequested {
            action_id: "unsafe".to_owned(),
        },
    );
    assert_eq!(transition.disposition, TransitionDisposition::FailedClosed);
    assert_eq!(transition.after.phase(), AppPhase::Failed);
    assert!(!transition.after.has_session());
    assert!(!transition.after.has_tenant());
    assert!(transition.after.pending_action().is_none());
    assert!(transition.after.validate().is_ok());
}

#[test]
fn app_lifecycle_bounded_graph_is_total_deterministic_and_invariant_preserving() {
    let initial = AppSnapshot::default();
    let mut visited = HashSet::from([initial.clone()]);
    let mut frontier = HashSet::from([initial]);
    let mut phases = HashSet::from([AppPhase::Cold]);
    let mut dispositions = HashSet::new();

    for _depth in 0..9 {
        let mut next = HashSet::new();
        for snapshot in frontier {
            for event in bounded_events(&snapshot) {
                let first = AppLifecycleMachine::transition(&snapshot, &event);
                let second = AppLifecycleMachine::transition(&snapshot, &event);
                assert_eq!(first, second, "transition must be deterministic");
                assert!(
                    first.after.validate().is_ok(),
                    "{:?} + {:?} produced {:?}",
                    snapshot.phase(),
                    event,
                    first.after.validate()
                );
                assert!(first.after.generation() >= snapshot.generation());
                if matches!(
                    first.disposition,
                    TransitionDisposition::Rejected | TransitionDisposition::Stale
                ) {
                    assert_eq!(first.after, snapshot);
                    assert!(first.effect.is_none());
                }
                if first
                    .effect
                    .as_ref()
                    .is_some_and(|effect| effect.kind == AppEffectKind::ExecuteAction)
                {
                    assert_eq!(first.after.phase(), AppPhase::ExecutingAction);
                    assert!(first.after.has_session());
                    assert!(first.after.has_tenant());
                    assert!(first.after.online());
                    assert_eq!(
                        first
                            .effect
                            .as_ref()
                            .and_then(|effect| effect.authority_epoch),
                        Some(first.after.authority_epoch())
                    );
                }
                phases.insert(first.after.phase());
                dispositions.insert(first.disposition);
                if visited.insert(first.after.clone()) {
                    next.insert(first.after);
                }
            }
        }
        frontier = next;
        if frontier.is_empty() {
            break;
        }
    }

    assert_eq!(phases.len(), 15, "every declared phase must be reachable");
    assert_eq!(
        dispositions,
        HashSet::from([
            TransitionDisposition::Applied,
            TransitionDisposition::Rejected,
            TransitionDisposition::Stale,
            TransitionDisposition::FailedClosed,
        ])
    );
    assert!(visited.len() < 5_000);
}
