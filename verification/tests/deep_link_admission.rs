use fiducia_desktop::app_lifecycle::MAX_PORTABLE_COUNTER;
use fiducia_desktop::{
    AppEvent, AppLifecycleMachine, AppPhase, DeepLinkAdmissionMachine, DeepLinkDisposition,
    DeepLinkIntent, DeepLinkPhase, DeepLinkReason, DeepLinkSnapshot, DeepLinkTransition,
};
use std::collections::HashSet;

fn boot_ready() -> AppLifecycleMachine {
    let mut machine = AppLifecycleMachine::default();
    let launch = machine.dispatch(&AppEvent::LaunchRequested);
    let launch_effect = launch.effect.expect("bootstrap effect");
    let bootstrap = machine.dispatch(&AppEvent::BootstrapSucceeded {
        operation_id: launch_effect.operation_id,
        authenticated: true,
        has_tenant: true,
        online: true,
    });
    let sync_effect = bootstrap.effect.expect("sync effect");
    machine.dispatch(&AppEvent::OperationSucceeded {
        operation_id: sync_effect.operation_id,
    });
    machine
}

#[derive(Clone, Debug)]
enum BoundedEvent {
    Begin(&'static str),
    Complete(u64),
    Consume(u64),
}

fn bounded_events(snapshot: &DeepLinkSnapshot) -> Vec<BoundedEvent> {
    vec![
        BoundedEvent::Begin("https://fiducia.cloud/open?action=rotate-api-key"),
        BoundedEvent::Begin("https://fiducia.cloud/open?action=review-reconciliation"),
        BoundedEvent::Begin("https://fiducia.cloud/open?action=delete-company"),
        BoundedEvent::Begin(""),
        BoundedEvent::Complete(snapshot.generation()),
        BoundedEvent::Complete(snapshot.generation().saturating_add(1)),
        BoundedEvent::Consume(snapshot.generation()),
        BoundedEvent::Consume(snapshot.generation().saturating_add(1)),
    ]
}

fn apply(snapshot: &DeepLinkSnapshot, event: &BoundedEvent) -> DeepLinkTransition {
    let mut machine = DeepLinkAdmissionMachine::from_snapshot(snapshot.clone());
    match event {
        BoundedEvent::Begin(raw) => machine.begin(raw),
        BoundedEvent::Complete(generation) => machine.complete(*generation),
        BoundedEvent::Consume(generation) => machine.consume(*generation),
    }
}

#[test]
fn newer_capture_fences_stale_completion() {
    let mut machine = DeepLinkAdmissionMachine::default();
    let first = machine.begin("https://fiducia.cloud/open?action=rotate-api-key");
    let second = machine.begin("https://fiducia.cloud/open?action=review-reconciliation");
    let before_stale = machine.snapshot().clone();

    let stale = machine.complete(first.effect.expect("first resolve effect").generation);
    assert_eq!(stale.disposition, DeepLinkDisposition::Stale);
    assert_eq!(stale.after, before_stale);

    let accepted = machine.complete(second.effect.expect("second resolve effect").generation);
    assert_eq!(
        accepted.intent.expect("accepted intent").action(),
        "review-reconciliation"
    );
}

#[test]
fn rejected_input_preserves_last_accepted_intent() {
    let mut machine = DeepLinkAdmissionMachine::default();
    let accepted = machine.begin("https://fiducia.cloud/open?action=rotate-api-key");
    machine.complete(accepted.effect.expect("resolve effect").generation);
    let generation = machine.snapshot().generation();
    machine.consume(generation);

    let invalid = machine.begin("https://fiducia.cloud/open?action=delete-company");
    let rejected = machine.complete(invalid.effect.expect("resolve effect").generation);
    assert_eq!(rejected.reason, DeepLinkReason::UnknownAction);
    assert_eq!(machine.snapshot().phase(), DeepLinkPhase::Idle);
    assert_eq!(
        machine
            .snapshot()
            .last_accepted()
            .map(DeepLinkIntent::action),
        Some("rotate-api-key")
    );
}

#[test]
fn lifecycle_authority_retains_link_until_action_is_legal() {
    let mut links = DeepLinkAdmissionMachine::default();
    let begin = links.begin("https://fiducia.cloud/open?action=rotate-api-key");
    links.complete(begin.effect.expect("resolve effect").generation);

    let mut lifecycle = AppLifecycleMachine::default();
    let rejected = links.handoff_to(&mut lifecycle);
    assert!(!rejected.delivered());
    assert_eq!(links.snapshot().phase(), DeepLinkPhase::Pending);
    assert_eq!(lifecycle.snapshot().phase(), AppPhase::Cold);

    let mut ready = boot_ready();
    let delivered = links.handoff_to(&mut ready);
    assert!(delivered.delivered());
    assert_eq!(links.snapshot().phase(), DeepLinkPhase::Idle);
    assert_eq!(ready.snapshot().phase(), AppPhase::ConfirmingAction);
    assert_eq!(
        ready.snapshot().pending_action().map(|action| action.id()),
        Some("rotate-api-key")
    );
}

#[test]
fn invalid_snapshot_fails_closed() {
    let corrupt = DeepLinkSnapshot {
        phase: DeepLinkPhase::Pending,
        generation: 9,
        candidate: Some("not allowed".to_owned()),
        last_accepted: None,
    };
    let machine = DeepLinkAdmissionMachine::from_snapshot(corrupt);
    assert!(machine.snapshot().validate());
    assert_eq!(machine.snapshot().phase(), DeepLinkPhase::Idle);
    assert!(machine.snapshot().last_accepted().is_none());
    assert_eq!(machine.snapshot().generation(), 10);

    let out_of_domain = DeepLinkSnapshot {
        phase: DeepLinkPhase::Idle,
        generation: MAX_PORTABLE_COUNTER + 1,
        candidate: None,
        last_accepted: None,
    };
    let normalized = DeepLinkAdmissionMachine::from_snapshot(out_of_domain);
    assert_eq!(normalized.snapshot(), &DeepLinkSnapshot::default());
}

#[test]
fn generation_exhaustion_fails_closed_without_token_reuse() {
    let mut machine = DeepLinkAdmissionMachine::from_snapshot(DeepLinkSnapshot {
        phase: DeepLinkPhase::Idle,
        generation: MAX_PORTABLE_COUNTER,
        candidate: None,
        last_accepted: Some(DeepLinkIntent::new("rotate-api-key")),
    });

    let exhausted = machine.begin("https://fiducia.cloud/open?action=review-reconciliation");
    assert_eq!(exhausted.disposition, DeepLinkDisposition::FailedClosed);
    assert_eq!(exhausted.reason, DeepLinkReason::InvalidSnapshot);
    assert_eq!(exhausted.effect, None);
    assert_eq!(exhausted.after.generation(), MAX_PORTABLE_COUNTER);
    assert_eq!(exhausted.after.last_accepted(), None);
}

#[test]
fn deep_link_admission_bounded_graph_is_total_deterministic_and_invariant_preserving() {
    let initial = DeepLinkAdmissionMachine::default().snapshot().clone();
    let mut visited = HashSet::from([initial.clone()]);
    let mut frontier = HashSet::from([initial]);
    let mut phases = HashSet::new();
    let mut dispositions = HashSet::new();

    for _depth in 0..7 {
        let mut next = HashSet::new();
        for snapshot in &frontier {
            phases.insert(snapshot.phase());
            for event in bounded_events(snapshot) {
                let first = apply(snapshot, &event);
                let second = apply(snapshot, &event);
                assert_eq!(first.after, second.after);
                assert_eq!(first.disposition, second.disposition);
                assert_eq!(first.reason, second.reason);
                assert!(first.after.validate());
                assert!(first.after.generation() >= snapshot.generation());
                if first.disposition == DeepLinkDisposition::Stale {
                    assert_eq!(&first.after, snapshot);
                }
                phases.insert(first.after.phase());
                dispositions.insert(first.disposition);
                if visited.insert(first.after.clone()) {
                    next.insert(first.after);
                }
            }
        }
        frontier = next;
        if frontier.is_empty() {
            break;
        }
    }

    assert_eq!(
        phases,
        HashSet::from([
            DeepLinkPhase::Idle,
            DeepLinkPhase::Resolving,
            DeepLinkPhase::Pending,
        ])
    );
    for expected in [
        DeepLinkDisposition::Began,
        DeepLinkDisposition::Accepted,
        DeepLinkDisposition::Rejected,
        DeepLinkDisposition::Stale,
        DeepLinkDisposition::Consumed,
    ] {
        assert!(dispositions.contains(&expected), "{expected:?}");
    }
    assert!(visited.len() < 2_000);
}
