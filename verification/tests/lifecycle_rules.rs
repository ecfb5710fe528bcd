use fiducia_desktop::app_lifecycle::MAX_PORTABLE_COUNTER;
use std::collections::HashSet;
use fiducia_desktop::{
    AppCapabilities, AppEffectKind, AppEvent, AppLifecycleMachine, AppOperation, AppPhase,
    AppSnapshot, TransitionDisposition,
};

fn signed_out_online() -> AppLifecycleMachine {
    let mut machine = AppLifecycleMachine::default();
    let launch = machine.dispatch(&AppEvent::LaunchRequested);
    machine.dispatch(&AppEvent::BootstrapSucceeded {
        operation_id: launch.effect.expect("bootstrap effect").operation_id,
        authenticated: false,
        has_tenant: false,
        online: true,
    });
    machine
}

fn ready_online() -> AppLifecycleMachine {
    let mut machine = AppLifecycleMachine::default();
    let launch = machine.dispatch(&AppEvent::LaunchRequested);
    let bootstrap = machine.dispatch(&AppEvent::BootstrapSucceeded {
        operation_id: launch.effect.expect("bootstrap effect").operation_id,
        authenticated: true,
        has_tenant: true,
        online: true,
    });
    machine.dispatch(&AppEvent::OperationSucceeded {
        operation_id: bootstrap.effect.expect("sync effect").operation_id,
    });
    machine
}

fn failed() -> AppLifecycleMachine {
    let mut machine = AppLifecycleMachine::default();
    let launch = machine.dispatch(&AppEvent::LaunchRequested);
    machine.dispatch(&AppEvent::OperationFailed {
        operation_id: launch.effect.expect("bootstrap effect").operation_id,
        reason: "  storage unavailable \n".to_owned(),
        retryable: false,
        ambiguous: false,
    });
    machine
}

fn cold_with(generation: u64, authority_epoch: u64) -> AppSnapshot {
    AppSnapshot {
        generation,
        authority_epoch,
        ..AppSnapshot::default()
    }
}

#[test]
fn launch_emits_load_session_under_next_generation() {
    let mut machine = AppLifecycleMachine::default();
    let launch = machine.dispatch(&AppEvent::LaunchRequested);
    assert_eq!(launch.disposition, TransitionDisposition::Applied);
    assert_eq!(launch.reason, "session bootstrap started");
    let effect = launch.effect.expect("effect");
    assert_eq!(effect.kind, AppEffectKind::LoadSession);
    assert_eq!(effect.operation, AppOperation::Bootstrap);
    assert_eq!(effect.operation_id, 1);
    assert_eq!(effect.action_id, None);
    assert_eq!(machine.snapshot().phase(), AppPhase::Bootstrapping);
    assert_eq!(machine.snapshot().active_operation(), Some(AppOperation::Bootstrap));
    assert_eq!(machine.snapshot().active_operation_id(), Some(1));
    let again = machine.dispatch(&AppEvent::LaunchRequested);
    assert_eq!(again.disposition, TransitionDisposition::Rejected);
    assert_eq!(again.reason, "launch is available only from cold state");
}

#[test]
fn unauthenticated_bootstrap_signs_out_with_reason() {
    let machine = signed_out_online();
    assert_eq!(machine.snapshot().phase(), AppPhase::SignedOut);
    assert!(machine.snapshot().online());
    assert_eq!(machine.snapshot().authority_epoch(), 0);
}

#[test]
fn bootstrap_reason_texts() {
    let mut machine = AppLifecycleMachine::default();
    let launch = machine.dispatch(&AppEvent::LaunchRequested);
    let t = machine.dispatch(&AppEvent::BootstrapSucceeded {
        operation_id: launch.effect.expect("effect").operation_id,
        authenticated: true,
        has_tenant: true,
        online: false,
    });
    assert_eq!(t.reason, "session bootstrap completed into controlled read-only offline mode");
    assert_eq!(machine.snapshot().phase(), AppPhase::ReadyOffline);
    assert_eq!(machine.snapshot().authority_epoch(), 1);
}

#[test]
fn failure_text_is_trimmed_and_bounded() {
    let machine = failed();
    assert_eq!(machine.snapshot().phase(), AppPhase::Failed);
    assert_eq!(machine.snapshot().failure(), Some("storage unavailable"));
    assert!(machine.snapshot().validate().is_ok());

    let mut machine = AppLifecycleMachine::default();
    let launch = machine.dispatch(&AppEvent::LaunchRequested);
    let t = machine.dispatch(&AppEvent::OperationFailed {
        operation_id: launch.effect.expect("effect").operation_id,
        reason: " \t ".to_owned(),
        retryable: false,
        ambiguous: false,
    });
    assert_eq!(t.disposition, TransitionDisposition::FailedClosed);
    assert_eq!(t.reason, "lifecycle failed closed");
    assert_eq!(machine.snapshot().failure(), Some("unspecified controlled failure"));

    let mut machine = AppLifecycleMachine::default();
    let launch = machine.dispatch(&AppEvent::LaunchRequested);
    machine.dispatch(&AppEvent::OperationFailed {
        operation_id: launch.effect.expect("effect").operation_id,
        reason: "é".repeat(300),
        retryable: false,
        ambiguous: false,
    });
    assert_eq!(machine.snapshot().failure(), Some("é".repeat(256).as_str()));
}

#[test]
fn recovery_path_from_failed() {
    let mut machine = failed();
    assert!(machine.snapshot().capabilities().can_recover);
    let recover = machine.dispatch(&AppEvent::RecoveryRequested);
    let effect = recover.effect.expect("recover effect");
    assert_eq!(effect.kind, AppEffectKind::RecoverSession);
    let done = machine.dispatch(&AppEvent::RecoverySucceeded {
        operation_id: effect.operation_id,
        authenticated: true,
        has_tenant: false,
        online: true,
    });
    assert_eq!(done.reason, "explicit recovery completed; tenant selection required");
    assert_eq!(machine.snapshot().phase(), AppPhase::SelectingTenant);
}

#[test]
fn tenant_selection_offline_is_read_only_mode() {
    let mut machine = signed_out_online();
    machine.dispatch(&AppEvent::ConnectivityChanged { online: false });
    let auth = machine.dispatch(&AppEvent::SignInRequested);
    machine.dispatch(&AppEvent::AuthenticationSucceeded {
        operation_id: auth.effect.expect("auth effect").operation_id,
        has_tenant: false,
        online: false,
    });
    let selected = machine.dispatch(&AppEvent::TenantSelected);
    assert_eq!(selected.reason, "tenant selected for offline mode");
    assert_eq!(selected.effect, None);
    assert_eq!(machine.snapshot().phase(), AppPhase::ReadyOffline);
    assert!(!machine.snapshot().online());
}

#[test]
fn action_ids_are_trimmed_and_bounded_in_bytes() {
    let mut machine = ready_online();
    let t = machine.dispatch(&AppEvent::ActionRequested {
        action_id: "  rotate-api-key\t".to_owned(),
    });
    assert_eq!(t.reason, "privileged action awaits explicit confirmation");
    assert_eq!(
        machine.snapshot().pending_action().map(|a| a.id()),
        Some("rotate-api-key")
    );
    assert_eq!(
        machine.snapshot().pending_action().map(|a| a.authority_epoch()),
        Some(machine.snapshot().authority_epoch())
    );
    let cancel = machine.dispatch(&AppEvent::ActionCancelled);
    assert_eq!(cancel.reason, "pending action cancelled without execution");

    let long = machine.dispatch(&AppEvent::ActionRequested {
        action_id: "é".repeat(65),
    });
    assert_eq!(long.disposition, TransitionDisposition::Rejected);
    assert_eq!(long.reason, "action id must contain 1 to 128 bytes");
    let fits = machine.dispatch(&AppEvent::ActionRequested {
        action_id: "é".repeat(64),
    });
    assert_eq!(fits.disposition, TransitionDisposition::Applied);
    machine.dispatch(&AppEvent::ActionCancelled);
    let blank = machine.dispatch(&AppEvent::ActionRequested {
        action_id: "   ".to_owned(),
    });
    assert_eq!(blank.disposition, TransitionDisposition::Rejected);
}

#[test]
fn confirmation_is_required_before_execution() {
    let mut machine = ready_online();
    let confirm = machine.dispatch(&AppEvent::ActionConfirmed);
    assert_eq!(confirm.disposition, TransitionDisposition::Rejected);
    assert_eq!(confirm.reason, "confirmation requires a bound online pending action");
    machine.dispatch(&AppEvent::ActionRequested {
        action_id: "rotate-api-key".to_owned(),
    });
    let execute = machine.dispatch(&AppEvent::ActionConfirmed);
    let effect = execute.effect.expect("execute effect");
    assert_eq!(effect.action_id.as_deref(), Some("rotate-api-key"));
    assert_eq!(effect.operation_id, machine.snapshot().generation());
}

#[test]
fn ambiguous_failure_starts_reconciliation_and_blocks_new_actions() {
    let mut machine = ready_online();
    machine.dispatch(&AppEvent::ActionRequested {
        action_id: "move-leader".to_owned(),
    });
    let execute = machine.dispatch(&AppEvent::ActionConfirmed);
    let token = execute.effect.expect("execute effect").operation_id;
    let failed = machine.dispatch(&AppEvent::OperationFailed {
        operation_id: token,
        reason: "timeout".to_owned(),
        retryable: true,
        ambiguous: true,
    });
    assert_eq!(failed.reason, "ambiguous action result requires reconciliation");
    assert_eq!(
        failed.effect.as_ref().map(|e| e.kind),
        Some(AppEffectKind::ReconcileAction)
    );
    assert_eq!(machine.snapshot().phase(), AppPhase::ReconcilingAction);
    let blocked = machine.dispatch(&AppEvent::ActionRequested {
        action_id: "rotate-api-key".to_owned(),
    });
    assert_eq!(blocked.disposition, TransitionDisposition::Rejected);
    assert_eq!(
        machine.snapshot().pending_action().map(|a| a.id()),
        Some("move-leader")
    );
}

#[test]
fn definitive_action_failure_keeps_authority() {
    let mut machine = ready_online();
    machine.dispatch(&AppEvent::ActionRequested {
        action_id: "rotate-api-key".to_owned(),
    });
    let execute = machine.dispatch(&AppEvent::ActionConfirmed);
    let failed = machine.dispatch(&AppEvent::OperationFailed {
        operation_id: execute.effect.expect("effect").operation_id,
        reason: " denied ".to_owned(),
        retryable: false,
        ambiguous: false,
    });
    assert_eq!(failed.reason, "action failed definitively without committing: denied");
    assert_eq!(machine.snapshot().phase(), AppPhase::ReadyOnline);
}

#[test]
fn retryable_sync_failure_enters_offline_mode() {
    let mut machine = ready_online();
    let sync = machine.dispatch(&AppEvent::SyncRequested);
    assert_eq!(sync.reason, "manual synchronization started");
    let failed = machine.dispatch(&AppEvent::OperationFailed {
        operation_id: sync.effect.expect("effect").operation_id,
        reason: "network down".to_owned(),
        retryable: true,
        ambiguous: false,
    });
    assert_eq!(failed.reason, "sync failure entered read-only offline mode: network down");
    assert_eq!(machine.snapshot().phase(), AppPhase::ReadyOffline);
    let back = machine.dispatch(&AppEvent::ConnectivityChanged { online: true });
    assert_eq!(back.reason, "connectivity restored; synchronization started");
}

#[test]
fn sign_out_reason_and_effect() {
    let mut machine = ready_online();
    let epoch = machine.snapshot().authority_epoch();
    let t = machine.dispatch(&AppEvent::SignOutRequested);
    assert_eq!(t.reason, "sign-out requested; local authority revoked before cleanup");
    assert_eq!(t.effect.as_ref().map(|e| e.kind), Some(AppEffectKind::ClearSession));
    assert_eq!(machine.snapshot().authority_epoch(), epoch + 1);
    let again = machine.dispatch(&AppEvent::SignOutRequested);
    assert_eq!(again.disposition, TransitionDisposition::Rejected);
    let failed = machine.dispatch(&AppEvent::OperationFailed {
        operation_id: t.effect.expect("effect").operation_id,
        reason: "remote".to_owned(),
        retryable: false,
        ambiguous: false,
    });
    assert_eq!(failed.reason, "local authority remains revoked despite cleanup failure");
    assert_eq!(machine.snapshot().phase(), AppPhase::SignedOut);
}

#[test]
fn stale_failure_is_ignored() {
    let mut machine = ready_online();
    let before = machine.snapshot().clone();
    let t = machine.dispatch(&AppEvent::OperationFailed {
        operation_id: 99,
        reason: "late".to_owned(),
        retryable: false,
        ambiguous: false,
    });
    assert_eq!(t.disposition, TransitionDisposition::Stale);
    assert_eq!(t.reason, "stale operation failure ignored");
    assert_eq!(machine.snapshot(), &before);
}

#[test]
fn typed_completion_is_required() {
    let mut machine = AppLifecycleMachine::default();
    let launch = machine.dispatch(&AppEvent::LaunchRequested);
    let t = machine.dispatch(&AppEvent::OperationSucceeded {
        operation_id: launch.effect.expect("effect").operation_id,
    });
    assert_eq!(t.disposition, TransitionDisposition::Rejected);
    assert_eq!(t.reason, "typed completion is required for this operation");
}

#[test]
fn generation_exhaustion_fails_closed() {
    let t = AppLifecycleMachine::transition(
        &cold_with(MAX_PORTABLE_COUNTER, 3),
        &AppEvent::LaunchRequested,
    );
    assert_eq!(t.disposition, TransitionDisposition::FailedClosed);
    assert_eq!(t.after.failure(), Some("operation generation exhausted"));
    assert_eq!(t.after.generation(), MAX_PORTABLE_COUNTER);
    assert_eq!(t.after.authority_epoch(), 4);
    assert!(t.after.validate().is_ok());
}

#[test]
fn out_of_range_generation_is_clamped_when_failing_closed() {
    let corrupt = cold_with(MAX_PORTABLE_COUNTER + 5, 0);
    assert_eq!(corrupt.validate(), Err("generation is outside the portable domain"));
    let t = AppLifecycleMachine::transition(&corrupt, &AppEvent::LaunchRequested);
    assert_eq!(t.after.generation(), MAX_PORTABLE_COUNTER);
    assert_eq!(
        t.after.failure(),
        Some("invalid lifecycle snapshot: generation is outside the portable domain")
    );
}

#[test]
fn validate_reports_the_first_broken_rule() {
    let mut s = cold_with(0, MAX_PORTABLE_COUNTER + 1);
    assert_eq!(s.validate(), Err("authority epoch is outside the portable domain"));
    s = AppSnapshot {
        phase: AppPhase::Bootstrapping,
        ..AppSnapshot::default()
    };
    assert_eq!(
        s.validate(),
        Err("transitional phases require exactly one active operation")
    );
    s = AppSnapshot {
        active_operation_id: Some(1),
        generation: 1,
        ..AppSnapshot::default()
    };
    assert_eq!(s.validate(), Err("active operation and id must appear together"));
    s = AppSnapshot {
        phase: AppPhase::Bootstrapping,
        active_operation: Some(AppOperation::Bootstrap),
        active_operation_id: Some(2),
        generation: 1,
        ..AppSnapshot::default()
    };
    assert_eq!(s.validate(), Err("active operation id must equal the current generation"));
    s = AppSnapshot {
        phase: AppPhase::Bootstrapping,
        active_operation: Some(AppOperation::Recover),
        active_operation_id: Some(1),
        generation: 1,
        ..AppSnapshot::default()
    };
    assert_eq!(s.validate(), Err("active operation is incompatible with the current phase"));
    s = AppSnapshot {
        has_tenant: true,
        ..AppSnapshot::default()
    };
    assert_eq!(s.validate(), Err("tenant authority requires an authenticated session"));
    s = AppSnapshot {
        has_session: true,
        ..AppSnapshot::default()
    };
    assert_eq!(s.validate(), Err("session presence is incompatible with the current phase"));
    s = AppSnapshot {
        phase: AppPhase::ReadyOffline,
        has_session: true,
        has_tenant: true,
        online: true,
        ..AppSnapshot::default()
    };
    assert_eq!(s.validate(), Err("offline readiness cannot claim online connectivity"));
    s = AppSnapshot {
        phase: AppPhase::ReadyOnline,
        has_session: true,
        has_tenant: true,
        ..AppSnapshot::default()
    };
    assert_eq!(s.validate(), Err("the current phase requires verified online connectivity"));
    s = AppSnapshot {
        phase: AppPhase::ReconciliationRequired,
        has_session: true,
        has_tenant: true,
        ..AppSnapshot::default()
    };
    assert_eq!(
        s.validate(),
        Err("pending action presence is incompatible with the current phase")
    );
    s = AppSnapshot {
        phase: AppPhase::Failed,
        ..AppSnapshot::default()
    };
    assert_eq!(s.validate(), Err("failure details must exist exactly in the failed phase"));
    assert_eq!(AppSnapshot::default().validate(), Ok(()));
}

#[test]
fn capabilities_follow_the_phase() {
    let cold = AppSnapshot::default().capabilities();
    assert_eq!(
        cold,
        AppCapabilities {
            can_launch: true,
            can_sign_in: false,
            can_select_tenant: false,
            can_read_cached_data: false,
            can_request_privileged_action: false,
            can_confirm_action: false,
            can_cancel_action: false,
            can_recover: false,
            can_sign_out: false,
        }
    );
    let ready = ready_online();
    let caps = ready.snapshot().capabilities();
    assert!(caps.can_request_privileged_action && caps.can_read_cached_data && caps.can_sign_out);
    assert!(!caps.can_confirm_action && !caps.can_launch);
    let failed = failed();
    let caps = failed.snapshot().capabilities();
    assert!(caps.can_recover && caps.can_sign_out && !caps.can_read_cached_data);
}

#[test]
fn busy_phases() {
    let busy = [
        AppPhase::Bootstrapping,
        AppPhase::Authenticating,
        AppPhase::Synchronizing,
        AppPhase::ExecutingAction,
        AppPhase::ReconcilingAction,
        AppPhase::Recovering,
        AppPhase::SigningOut,
    ];
    let idle = [
        AppPhase::Cold,
        AppPhase::SignedOut,
        AppPhase::SelectingTenant,
        AppPhase::ReadyOnline,
        AppPhase::ReadyOffline,
        AppPhase::ConfirmingAction,
        AppPhase::ReconciliationRequired,
        AppPhase::Failed,
    ];
    assert!(busy.iter().all(|p| p.is_busy()));
    assert!(idle.iter().all(|p| !p.is_busy()));
}

#[test]
fn connectivity_rules() {
    let mut machine = signed_out_online();
    let same = machine.dispatch(&AppEvent::ConnectivityChanged { online: true });
    assert_eq!(same.reason, "connectivity state is unchanged");
    let lost = machine.dispatch(&AppEvent::ConnectivityChanged { online: false });
    assert_eq!(lost.reason, "connectivity lost");
    let restored = machine.dispatch(&AppEvent::ConnectivityChanged { online: true });
    assert_eq!(restored.reason, "connectivity restored");
    let auth = machine.dispatch(&AppEvent::SignInRequested);
    let fenced = machine.dispatch(&AppEvent::ConnectivityChanged { online: false });
    assert_eq!(fenced.reason, "authentication fenced after connectivity loss");
    assert_eq!(machine.snapshot().phase(), AppPhase::SignedOut);
    let stale = machine.dispatch(&AppEvent::AuthenticationSucceeded {
        operation_id: auth.effect.expect("effect").operation_id,
        has_tenant: true,
        online: true,
    });
    assert_eq!(stale.disposition, TransitionDisposition::Stale);
}

#[test]
fn capabilities_agree_with_refusals_on_reachable_snapshots() {
    let events = |s: &AppSnapshot| {
        let active = s.active_operation_id().unwrap_or(s.generation());
        vec![
            AppEvent::LaunchRequested,
            AppEvent::BootstrapSucceeded { operation_id: active, authenticated: true, has_tenant: false, online: true },
            AppEvent::BootstrapSucceeded { operation_id: active, authenticated: true, has_tenant: true, online: true },
            AppEvent::SignInRequested,
            AppEvent::TenantSelected,
            AppEvent::ConnectivityChanged { online: false },
            AppEvent::ActionRequested { action_id: "rotate-api-key".to_owned() },
            AppEvent::ActionConfirmed,
            AppEvent::OperationSucceeded { operation_id: active },
            AppEvent::OperationFailed { operation_id: active, reason: "x".to_owned(), retryable: false, ambiguous: false },
            AppEvent::SignOutRequested,
            AppEvent::RecoveryRequested,
        ]
    };
    let refused = |s: &AppSnapshot, e: AppEvent| {
        AppLifecycleMachine::transition(s, &e).disposition == TransitionDisposition::Rejected
    };
    let mut seen = HashSet::from([AppSnapshot::default()]);
    let mut frontier = vec![AppSnapshot::default()];
    for _ in 0..6 {
        let mut next = Vec::new();
        for s in &frontier {
            let c = s.capabilities();
            assert_eq!(c.can_launch, !refused(s, AppEvent::LaunchRequested));
            assert_eq!(c.can_sign_in, !refused(s, AppEvent::SignInRequested));
            assert_eq!(c.can_select_tenant, !refused(s, AppEvent::TenantSelected));
            assert_eq!(
                c.can_request_privileged_action,
                !refused(s, AppEvent::ActionRequested { action_id: "a".to_owned() })
            );
            assert_eq!(c.can_confirm_action, !refused(s, AppEvent::ActionConfirmed));
            assert_eq!(c.can_cancel_action, !refused(s, AppEvent::ActionCancelled));
            assert_eq!(c.can_recover, !refused(s, AppEvent::RecoveryRequested));
            assert!(!c.can_sign_out || !refused(s, AppEvent::SignOutRequested));
            for e in events(s) {
                let after = AppLifecycleMachine::transition(s, &e).after;
                if seen.insert(after.clone()) {
                    next.push(after);
                }
            }
        }
        frontier = next;
    }
    assert!(seen.len() > 10);
}

#[test]
fn effects_start_operations_under_the_next_generation_on_reachable_snapshots() {
    let kind_of = |op: AppOperation| match op {
        AppOperation::Bootstrap => AppEffectKind::LoadSession,
        AppOperation::Authenticate => AppEffectKind::Authenticate,
        AppOperation::Synchronize => AppEffectKind::Synchronize,
        AppOperation::ExecuteAction => AppEffectKind::ExecuteAction,
        AppOperation::ReconcileAction => AppEffectKind::ReconcileAction,
        AppOperation::Recover => AppEffectKind::RecoverSession,
        AppOperation::SignOut => AppEffectKind::ClearSession,
    };
    let events = |s: &AppSnapshot| {
        let active = s.active_operation_id().unwrap_or(s.generation());
        vec![
            AppEvent::LaunchRequested,
            AppEvent::BootstrapSucceeded { operation_id: active, authenticated: true, has_tenant: true, online: true },
            AppEvent::BootstrapSucceeded { operation_id: active, authenticated: false, has_tenant: false, online: true },
            AppEvent::SignInRequested,
            AppEvent::TenantSelected,
            AppEvent::ConnectivityChanged { online: false },
            AppEvent::ConnectivityChanged { online: true },
            AppEvent::ActionRequested { action_id: "rotate-api-key".to_owned() },
            AppEvent::ActionConfirmed,
            AppEvent::ActionCancelled,
            AppEvent::OperationSucceeded { operation_id: active },
            AppEvent::OperationSucceeded { operation_id: active + 7 },
            AppEvent::OperationFailed { operation_id: active, reason: "x".to_owned(), retryable: false, ambiguous: true },
            AppEvent::OperationFailed { operation_id: active, reason: "y".to_owned(), retryable: true, ambiguous: false },
            AppEvent::SignOutRequested,
            AppEvent::RecoveryRequested,
        ]
    };
    let mut seen = HashSet::from([AppSnapshot::default()]);
    let mut frontier = vec![AppSnapshot::default()];
    let mut effects = 0;
    for _ in 0..6 {
        let mut next = Vec::new();
        for s in &frontier {
            for e in events(s) {
                let t = AppLifecycleMachine::transition(s, &e);
                assert_eq!(&t.before, s);
                if let Some(f) = &t.effect {
                    effects += 1;
                    assert_eq!(t.disposition, TransitionDisposition::Applied);
                    assert_eq!(f.operation_id, s.generation() + 1);
                    assert_eq!(t.after.generation(), f.operation_id);
                    assert_eq!(t.after.active_operation(), Some(f.operation));
                    assert_eq!(t.after.active_operation_id(), Some(f.operation_id));
                    assert_eq!(f.kind, kind_of(f.operation));
                }
                if seen.insert(t.after.clone()) {
                    next.push(t.after);
                }
            }
        }
        frontier = next;
    }
    assert!(effects > 10);
}
