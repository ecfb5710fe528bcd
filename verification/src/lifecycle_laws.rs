//! Properties of the lifecycle transition relation that hold for every
//! snapshot and event.
use crate::app_lifecycle::{
    AppEffectKind, AppEventView, AppOperation, AppPhase, AppSnapshotView, MAX_PORTABLE_COUNTER, phase_requires_online,
    TransitionDisposition, PendingActionView, capabilities_of, initial_snapshot, controlled_reason_view, failed_closed_view,
    action_cancelled_view, action_confirmed_view, action_requested_view, connectivity_changed_view,
    establish_authority_view, failed_snapshot, launch_view, operation_failed_view,
    operation_matches, operation_succeeded_view, recovery_requested_view, sign_in_view,
    sign_out_view, snapshot_valid, snapshot_violation, step_view, sync_requested_view,
    tenant_selected_view, transition_view,
};
use crate::text::{trim, utf8_len};
use vstd::prelude::*;

verus! {

/// The controlled failed state always satisfies the invariant.
pub proof fn lemma_failed_snapshot_valid(s: AppSnapshotView, reason: Seq<char>)
    ensures
        snapshot_valid(failed_snapshot(s, reason)),
{
}

/// Every transition, from any snapshot whatsoever, ends in a snapshot that
/// satisfies the lifecycle invariant.
pub proof fn law_transition_result_is_valid(s: AppSnapshotView, e: AppEventView)
    ensures
        snapshot_valid(transition_view(s, e).after),
{
    lemma_failed_snapshot_valid(s, "invalid lifecycle snapshot: "@ + snapshot_violation(s)->0);
    if snapshot_valid(s) {
        let r = step_view(s, e);
        if !snapshot_valid(r.after) {
            lemma_failed_snapshot_valid(
                s,
                "transition produced invalid lifecycle snapshot: "@ + snapshot_violation(r.after)->0,
            );
        }
    }
}

/// A snapshot that violates the invariant fails closed: the failed phase,
/// with no session, tenant, connectivity claim, pending action or effect.
pub proof fn law_invalid_snapshot_fails_closed(s: AppSnapshotView, e: AppEventView)
    requires
        !snapshot_valid(s),
    ensures
        transition_view(s, e).disposition == TransitionDisposition::FailedClosed,
        transition_view(s, e).after.phase == AppPhase::Failed,
        !transition_view(s, e).after.has_session,
        !transition_view(s, e).after.has_tenant,
        !transition_view(s, e).after.online,
        transition_view(s, e).after.pending_action is None,
        transition_view(s, e).effect is None,
        snapshot_valid(transition_view(s, e).after),
{
    law_transition_result_is_valid(s, e);
}


proof fn lemma_launch_keeps_valid(s: AppSnapshotView)
    requires
        snapshot_valid(s),
    ensures
        snapshot_valid(launch_view(s).after),
{
}

proof fn lemma_sign_in_keeps_valid(s: AppSnapshotView)
    requires
        snapshot_valid(s),
    ensures
        snapshot_valid(sign_in_view(s).after),
{
}

proof fn lemma_tenant_selected_keeps_valid(s: AppSnapshotView)
    requires
        snapshot_valid(s),
    ensures
        snapshot_valid(tenant_selected_view(s).after),
{
}

proof fn lemma_connectivity_keeps_valid(s: AppSnapshotView, online: bool)
    requires
        snapshot_valid(s),
    ensures
        snapshot_valid(connectivity_changed_view(s, online).after),
{
}

proof fn lemma_sync_requested_keeps_valid(s: AppSnapshotView)
    requires
        snapshot_valid(s),
    ensures
        snapshot_valid(sync_requested_view(s).after),
{
}

proof fn lemma_action_requested_keeps_valid(s: AppSnapshotView, id: Seq<char>)
    requires
        snapshot_valid(s),
    ensures
        snapshot_valid(action_requested_view(s, id).after),
{
}

proof fn lemma_action_confirmed_keeps_valid(s: AppSnapshotView)
    requires
        snapshot_valid(s),
    ensures
        snapshot_valid(action_confirmed_view(s).after),
{
}

proof fn lemma_action_cancelled_keeps_valid(s: AppSnapshotView)
    requires
        snapshot_valid(s),
    ensures
        snapshot_valid(action_cancelled_view(s).after),
{
}

proof fn lemma_operation_succeeded_keeps_valid(s: AppSnapshotView, id: u64)
    requires
        snapshot_valid(s),
    ensures
        snapshot_valid(operation_succeeded_view(s, id).after),
{
}

proof fn lemma_operation_failed_keeps_valid(
    s: AppSnapshotView,
    id: u64,
    reason: Seq<char>,
    retryable: bool,
    ambiguous: bool,
)
    requires
        snapshot_valid(s),
    ensures
        snapshot_valid(operation_failed_view(s, id, reason, retryable, ambiguous).after),
{
}

proof fn lemma_sign_out_keeps_valid(s: AppSnapshotView, reason: Seq<char>)
    requires
        snapshot_valid(s),
    ensures
        snapshot_valid(sign_out_view(s, reason).after),
{
}

proof fn lemma_recovery_requested_keeps_valid(s: AppSnapshotView)
    requires
        snapshot_valid(s),
    ensures
        snapshot_valid(recovery_requested_view(s).after),
{
}

proof fn lemma_establish_keeps_valid(
    s: AppSnapshotView,
    op: AppOperation,
    id: u64,
    authenticated: bool,
    has_tenant: bool,
    online: bool,
    reason: Seq<char>,
)
    requires
        snapshot_valid(s),
        operation_matches(s, op, id),
    ensures
        snapshot_valid(establish_authority_view(s, authenticated, has_tenant, online, reason).after),
{
}

/// Every step from a snapshot that satisfies the invariant yields a snapshot
/// that satisfies it, so the closing check of the transition never fires.
pub proof fn law_step_preserves_validity(s: AppSnapshotView, e: AppEventView)
    requires
        snapshot_valid(s),
    ensures
        snapshot_valid(step_view(s, e).after),
        transition_view(s, e) == step_view(s, e),
{
    match e {
        AppEventView::LaunchRequested => lemma_launch_keeps_valid(s),
        AppEventView::BootstrapSucceeded { operation_id, authenticated, has_tenant, online } => {
            if operation_matches(s, AppOperation::Bootstrap, operation_id) {
                lemma_establish_keeps_valid(
                    s,
                    AppOperation::Bootstrap,
                    operation_id,
                    authenticated,
                    has_tenant,
                    online,
                    "session bootstrap completed"@,
                );
            }
        },
        AppEventView::SignInRequested => lemma_sign_in_keeps_valid(s),
        AppEventView::AuthenticationSucceeded { operation_id, has_tenant, online } => {
            if operation_matches(s, AppOperation::Authenticate, operation_id) {
                lemma_establish_keeps_valid(
                    s,
                    AppOperation::Authenticate,
                    operation_id,
                    true,
                    has_tenant,
                    online,
                    "authentication completed"@,
                );
            }
        },
        AppEventView::TenantSelected => lemma_tenant_selected_keeps_valid(s),
        AppEventView::ConnectivityChanged { online } => lemma_connectivity_keeps_valid(s, online),
        AppEventView::SyncRequested => lemma_sync_requested_keeps_valid(s),
        AppEventView::ActionRequested { action_id } => lemma_action_requested_keeps_valid(
            s,
            action_id,
        ),
        AppEventView::ActionConfirmed => lemma_action_confirmed_keeps_valid(s),
        AppEventView::ActionCancelled => lemma_action_cancelled_keeps_valid(s),
        AppEventView::OperationSucceeded { operation_id } => lemma_operation_succeeded_keeps_valid(
            s,
            operation_id,
        ),
        AppEventView::OperationFailed { operation_id, reason, retryable, ambiguous } =>
            lemma_operation_failed_keeps_valid(s, operation_id, reason, retryable, ambiguous),
        AppEventView::SignOutRequested => lemma_sign_out_keeps_valid(s, "sign-out requested"@),
        AppEventView::SessionRevoked => lemma_sign_out_keeps_valid(s, "session revoked"@),
        AppEventView::RecoveryRequested => lemma_recovery_requested_keeps_valid(s),
        AppEventView::RecoverySucceeded { operation_id, authenticated, has_tenant, online } => {
            if operation_matches(s, AppOperation::Recover, operation_id) {
                lemma_establish_keeps_valid(
                    s,
                    AppOperation::Recover,
                    operation_id,
                    authenticated,
                    has_tenant,
                    online,
                    "explicit recovery completed"@,
                );
            }
        },
    }
}


/// What one step from a valid snapshot does, in the terms the laws below use.
spec fn step_outcome_facts(s: AppSnapshotView, e: AppEventView) -> bool {
    let t = step_view(s, e);
    &&& t.before == s
    &&& t.effect matches Some(f) ==> {
        &&& t.disposition == TransitionDisposition::Applied
        &&& f.operation_id == s.generation + 1
        &&& t.after.generation == f.operation_id
        &&& t.after.active_operation == Some(f.operation)
        &&& t.after.active_operation_id == Some(f.operation_id)
        &&& f.kind == effect_kind_of(f.operation)
    }
    &&& (t.disposition == TransitionDisposition::Rejected || t.disposition
        == TransitionDisposition::Stale) ==> t.after == s && t.before == s && t.effect is None
    &&& t.after.generation >= s.generation
    &&& t.after.authority_epoch >= s.authority_epoch
    &&& (t.effect matches Some(f) && f.kind == AppEffectKind::ExecuteAction) ==> {
        &&& s.phase == AppPhase::ConfirmingAction
        &&& s.online
        &&& e is ActionConfirmed
        &&& t.after.phase == AppPhase::ExecutingAction
        &&& t.after.has_session && t.after.has_tenant && t.after.online
        &&& t.after.pending_action == s.pending_action
        &&& t.after.authority_epoch == s.authority_epoch
        &&& t.effect->0.authority_epoch == Some(t.after.authority_epoch)
        &&& t.effect->0.action_id == Some(s.pending_action->0.id)
        &&& t.effect->0.operation_id == t.after.generation
    }
    &&& (s.pending_action is None && t.after.pending_action is Some) ==> {
        &&& s.phase == AppPhase::ReadyOnline
        &&& s.online
        &&& e is ActionRequested
        &&& t.after.phase == AppPhase::ConfirmingAction
    }
}

/// The one case split over events that the laws below share.
proof fn lemma_step_outcome(s: AppSnapshotView, e: AppEventView)
    requires
        snapshot_valid(s),
    ensures
        step_outcome_facts(s, e),
{
        match e {
            AppEventView::LaunchRequested => {},
            AppEventView::BootstrapSucceeded { .. } => {},
            AppEventView::SignInRequested => {},
            AppEventView::AuthenticationSucceeded { .. } => {},
            AppEventView::TenantSelected => {},
            AppEventView::ConnectivityChanged { .. } => {},
            AppEventView::SyncRequested => {},
            AppEventView::ActionRequested { .. } => {},
            AppEventView::ActionConfirmed => {},
            AppEventView::ActionCancelled => {},
            AppEventView::OperationSucceeded { .. } => {},
            AppEventView::OperationFailed { .. } => {},
            AppEventView::SignOutRequested => {},
            AppEventView::SessionRevoked => {},
            AppEventView::RecoveryRequested => {},
            AppEventView::RecoverySucceeded { .. } => {},
        }
}

/// Rejected and stale transitions change nothing and request no outside work.
pub proof fn law_rejected_and_stale_stutter(s: AppSnapshotView, e: AppEventView)
    ensures
        ({
            let t = transition_view(s, e);
            (t.disposition == TransitionDisposition::Rejected || t.disposition
                == TransitionDisposition::Stale) ==> t.after == s && t.before == s && t.effect is None
        }),
{
    if snapshot_valid(s) {
        law_step_preserves_validity(s, e);
        lemma_step_outcome(s, e);
    }
}

/// From a snapshot that satisfies the invariant, neither the operation
/// generation nor the authority epoch ever decreases.
pub proof fn law_counters_never_decrease(s: AppSnapshotView, e: AppEventView)
    requires
        snapshot_valid(s),
    ensures
        transition_view(s, e).after.generation >= s.generation,
        transition_view(s, e).after.authority_epoch >= s.authority_epoch,
{
    law_step_preserves_validity(s, e);
        lemma_step_outcome(s, e);
}

/// A privileged action is executed only when an explicitly confirmed, online,
/// pending action exists, and the execution effect carries the action and the
/// authority epoch it is bound to.
pub proof fn law_execution_requires_confirmation(s: AppSnapshotView, e: AppEventView)
    requires
        transition_view(s, e).effect matches Some(f) && f.kind == AppEffectKind::ExecuteAction,
    ensures
        snapshot_valid(s),
        s.phase == AppPhase::ConfirmingAction,
        s.online,
        e is ActionConfirmed,
        ({
            let t = transition_view(s, e);
            let f = t.effect->0;
            &&& t.after.phase == AppPhase::ExecutingAction
            &&& t.after.has_session && t.after.has_tenant && t.after.online
            &&& t.after.pending_action == s.pending_action
            &&& t.after.authority_epoch == s.authority_epoch
            &&& f.authority_epoch == Some(t.after.authority_epoch)
            &&& f.action_id == Some(s.pending_action->0.id)
            &&& f.operation_id == t.after.generation
        }),
{
    if snapshot_valid(s) {
        law_step_preserves_validity(s, e);
        lemma_step_outcome(s, e);
    }
}

/// Offline readiness is read-only: it never yields a pending action, and the
/// only outside work it may start is synchronization once connectivity returns.
pub proof fn law_offline_mode_is_read_only(s: AppSnapshotView, e: AppEventView)
    requires
        snapshot_valid(s),
        s.phase == AppPhase::ReadyOffline,
    ensures
        transition_view(s, e).after.pending_action is None,
        transition_view(s, e).effect matches Some(f) ==> f.kind == AppEffectKind::Synchronize
            || f.kind == AppEffectKind::ClearSession,
        e is ActionRequested ==> transition_view(s, e).disposition
            == TransitionDisposition::Rejected,
{
    law_step_preserves_validity(s, e);
}

/// A completion whose operation id is not the one outstanding is ignored.
pub proof fn law_stale_completions_stutter(s: AppSnapshotView, e: AppEventView)
    requires
        snapshot_valid(s),
        match e {
            AppEventView::OperationSucceeded { operation_id } => s.active_operation_id != Some(
                operation_id,
            ),
            AppEventView::OperationFailed { operation_id, .. } => s.active_operation_id != Some(
                operation_id,
            ),
            AppEventView::BootstrapSucceeded { operation_id, .. } => !operation_matches(
                s,
                AppOperation::Bootstrap,
                operation_id,
            ),
            AppEventView::AuthenticationSucceeded { operation_id, .. } => !operation_matches(
                s,
                AppOperation::Authenticate,
                operation_id,
            ),
            AppEventView::RecoverySucceeded { operation_id, .. } => !operation_matches(
                s,
                AppOperation::Recover,
                operation_id,
            ),
            _ => false,
        },
    ensures
        transition_view(s, e).disposition == TransitionDisposition::Stale,
        transition_view(s, e).after == s,
        transition_view(s, e).effect is None,
{
    law_step_preserves_validity(s, e);
}

/// Sign-out revokes local authority before any cleanup runs: the session,
/// tenant and pending action are gone and the authority epoch advances in the
/// same step that requests the cleanup.
pub proof fn law_sign_out_revokes_authority_first(s: AppSnapshotView, e: AppEventView)
    requires
        snapshot_valid(s),
        e is SignOutRequested || e is SessionRevoked,
        transition_view(s, e).disposition == TransitionDisposition::Applied,
    ensures
        ({
            let t = transition_view(s, e);
            &&& t.after.phase == AppPhase::SigningOut
            &&& !t.after.has_session && !t.after.has_tenant
            &&& t.after.pending_action is None
            &&& t.after.authority_epoch == s.authority_epoch + 1
            &&& t.effect matches Some(f) && f.kind == AppEffectKind::ClearSession
        }),
{
    law_step_preserves_validity(s, e);
}

/// While the outcome of an executed action is unknown, new privileged actions
/// are refused and the pending action is kept.
pub proof fn law_ambiguous_outcome_blocks_new_writes(s: AppSnapshotView, e: AppEventView)
    requires
        snapshot_valid(s),
        s.phase == AppPhase::ReconciliationRequired || s.phase == AppPhase::ReconcilingAction,
        e is ActionRequested || e is ActionConfirmed,
    ensures
        transition_view(s, e).disposition == TransitionDisposition::Rejected,
        transition_view(s, e).after.pending_action == s.pending_action,
{
    law_step_preserves_validity(s, e);
}

/// An ambiguous execution failure keeps the pending action for reconciliation
/// instead of releasing it.
pub proof fn law_ambiguous_failure_requires_reconciliation(s: AppSnapshotView, e: AppEventView)
    requires
        snapshot_valid(s),
        s.phase == AppPhase::ExecutingAction,
        e matches AppEventView::OperationFailed { operation_id, ambiguous, .. } && ambiguous
            && s.active_operation_id == Some(operation_id),
        s.generation < MAX_PORTABLE_COUNTER,
    ensures
        transition_view(s, e).after.phase == AppPhase::ReconcilingAction,
        transition_view(s, e).after.pending_action == s.pending_action,
        transition_view(s, e).effect matches Some(f) && f.kind == AppEffectKind::ReconcileAction,
{
    law_step_preserves_validity(s, e);
}

/// A privileged action can only become pending by an explicit request made in
/// online readiness; it then awaits confirmation.
pub proof fn law_pending_actions_start_from_online_readiness(s: AppSnapshotView, e: AppEventView)
    requires
        s.pending_action is None,
        transition_view(s, e).after.pending_action is Some,
    ensures
        snapshot_valid(s),
        s.phase == AppPhase::ReadyOnline,
        s.online,
        e is ActionRequested,
        transition_view(s, e).after.phase == AppPhase::ConfirmingAction,
{
    if snapshot_valid(s) {
        law_step_preserves_validity(s, e);
        lemma_step_outcome(s, e);
    }
}

/// After every transition, a pending action is bound to the authority epoch
/// then in force.
pub proof fn law_pending_action_bound_to_current_authority(s: AppSnapshotView, e: AppEventView)
    ensures
        transition_view(s, e).after.pending_action matches Some(p) ==> p.authority_epoch
            == transition_view(s, e).after.authority_epoch,
{
    law_transition_result_is_valid(s, e);
}

/// Failing closed revokes everything: the failed phase with no session,
/// tenant, connectivity claim or pending action, no effect, both counters
/// advanced by one up to the portable maximum, and the controlled failure text.
pub proof fn law_failing_closed_revokes_everything(s: AppSnapshotView, reason: Seq<char>)
    ensures
        ({
            let t = failed_closed_view(s, reason);
            &&& t.before == s
            &&& t.disposition == TransitionDisposition::FailedClosed
            &&& t.effect is None
            &&& t.after.phase == AppPhase::Failed
            &&& !t.after.has_session && !t.after.has_tenant && !t.after.online
            &&& t.after.pending_action is None
            &&& t.after.active_operation is None
            &&& t.after.generation == (if s.generation + 1 <= MAX_PORTABLE_COUNTER {
                s.generation + 1
            } else {
                MAX_PORTABLE_COUNTER as int
            })
            &&& t.after.authority_epoch == (if s.authority_epoch + 1 <= MAX_PORTABLE_COUNTER {
                s.authority_epoch + 1
            } else {
                MAX_PORTABLE_COUNTER as int
            })
            &&& t.after.failure == Some(controlled_reason_view(reason))
            &&& snapshot_valid(t.after)
        }),
{
    lemma_failed_snapshot_valid(s, reason);
}

/// An event is refused (not merely stale or failed closed).
pub open spec fn refused(s: AppSnapshotView, e: AppEventView) -> bool {
    transition_view(s, e).disposition == TransitionDisposition::Rejected
}

/// The capabilities shown for a valid snapshot are exactly the requests the
/// lifecycle would not refuse. Sign-out is offered exactly where it is not
/// refused, except while bootstrapping, authenticating or recovering, where it
/// is accepted but not offered.
pub proof fn law_capabilities_match_transitions(s: AppSnapshotView, action_id: Seq<char>)
    requires
        snapshot_valid(s),
        trim(action_id).len() > 0,
        utf8_len(trim(action_id)) <= 128,
    ensures
        ({
            let c = capabilities_of(s.phase);
            &&& c.can_launch == !refused(s, AppEventView::LaunchRequested)
            &&& c.can_sign_in == !refused(s, AppEventView::SignInRequested)
            &&& c.can_select_tenant == !refused(s, AppEventView::TenantSelected)
            &&& c.can_request_privileged_action == !refused(
                s,
                AppEventView::ActionRequested { action_id },
            )
            &&& c.can_confirm_action == !refused(s, AppEventView::ActionConfirmed)
            &&& c.can_cancel_action == !refused(s, AppEventView::ActionCancelled)
            &&& c.can_recover == !refused(s, AppEventView::RecoveryRequested)
            &&& c.can_sign_out ==> !refused(s, AppEventView::SignOutRequested)
            &&& !(s.phase is Bootstrapping || s.phase is Authenticating || s.phase is Recovering)
                ==> (c.can_sign_out == !refused(s, AppEventView::SignOutRequested))
        }),
{
    law_step_preserves_validity(s, AppEventView::LaunchRequested);
    law_step_preserves_validity(s, AppEventView::SignInRequested);
    law_step_preserves_validity(s, AppEventView::TenantSelected);
    law_step_preserves_validity(s, AppEventView::ActionRequested { action_id });
    law_step_preserves_validity(s, AppEventView::ActionConfirmed);
    law_step_preserves_validity(s, AppEventView::ActionCancelled);
    law_step_preserves_validity(s, AppEventView::RecoveryRequested);
    law_step_preserves_validity(s, AppEventView::SignOutRequested);
}

/// The snapshot reached from `s` by applying `events` in order.
#[verifier::opaque]
pub open spec fn run_events(s: AppSnapshotView, events: Seq<AppEventView>) -> AppSnapshotView
    decreases events.len(),
{
    if events.len() == 0 {
        s
    } else {
        transition_view(run_events(s, events.drop_last()), events.last()).after
    }
}

proof fn lemma_run_empty(s: AppSnapshotView)
    ensures
        run_events(s, Seq::empty()) == s,
{
    reveal(run_events);
}

proof fn lemma_run_push(s: AppSnapshotView, events: Seq<AppEventView>, e: AppEventView)
    ensures
        run_events(s, events.push(e)) == transition_view(run_events(s, events), e).after,
{
    reveal(run_events);
    assert(events.push(e).drop_last() =~= events);
}

/// Applying `e` after `events` from a valid snapshot lands on `next` when one
/// step does.
proof fn lemma_run_step(
    s: AppSnapshotView,
    events: Seq<AppEventView>,
    e: AppEventView,
    current: AppSnapshotView,
    next: AppSnapshotView,
)
    requires
        run_events(s, events) == current,
        snapshot_valid(current),
        step_view(current, e).after == next,
    ensures
        run_events(s, events.push(e)) == next,
        snapshot_valid(next),
{
    lemma_run_push(s, events, e);
    law_step_preserves_validity(current, e);
}

/// A snapshot with no failure, whose operation (if any) runs under the current generation.
spec fn snap(
    phase: AppPhase,
    generation: u64,
    authority_epoch: u64,
    has_session: bool,
    has_tenant: bool,
    online: bool,
    operation: Option<AppOperation>,
    pending_action: Option<PendingActionView>,
) -> AppSnapshotView {
    AppSnapshotView {
        phase,
        generation,
        authority_epoch,
        has_session,
        has_tenant,
        online,
        active_operation: operation,
        active_operation_id: if operation is Some { Some(generation) } else { None },
        pending_action,
        failure: None,
    }
}

spec fn witness_action() -> PendingActionView {
    PendingActionView { id: seq!['a'], authority_epoch: 1 }
}

proof fn lemma_witness_id()
    ensures
        trim(seq!['a']) == seq!['a'],
        utf8_len(seq!['a']) == 1,
{
    let a = seq!['a'];
    assert(a[0] == 'a');
    assert(a.last() == 'a');
    assert(!crate::text::is_unicode_whitespace('a'));
    assert(crate::text::trim_start(a) == a);
    assert(crate::text::trim_end(a) == a);
    assert(a.drop_last() =~= Seq::<char>::empty());
    assert(utf8_len(a.drop_last()) == 0);
    assert(crate::text::utf8_width('a') == 1);
}

spec fn s_bootstrapping() -> AppSnapshotView {
    snap(AppPhase::Bootstrapping, 1, 0, false, false, false, Some(AppOperation::Bootstrap), None)
}

proof fn reach_bootstrapping() -> (r: Seq<AppEventView>)
    ensures
        r.len() == 1,
        run_events(initial_snapshot(), r) == s_bootstrapping(),
{
    let ev: Seq<AppEventView> = Seq::empty();
    lemma_run_empty(initial_snapshot());
    let current = initial_snapshot();
    let e = AppEventView::LaunchRequested;
    let next = s_bootstrapping();
    assert(step_view(current, e).after == next);
    lemma_run_step(initial_snapshot(), ev, e, current, next);
    ev.push(e)
}

proof fn reach_signed_out() -> (r: Seq<AppEventView>)
    ensures
        r.len() == 2,
        run_events(initial_snapshot(), r) == snap(AppPhase::SignedOut, 1, 0, false, false, true, None, None),
{
    let ev = reach_bootstrapping();
    let current = s_bootstrapping();
    let e = AppEventView::BootstrapSucceeded { operation_id: 1, authenticated: false, has_tenant: false, online: true };
    let next = snap(AppPhase::SignedOut, 1, 0, false, false, true, None, None);
    assert(step_view(current, e).after == next);
    lemma_run_step(initial_snapshot(), ev, e, current, next);
    ev.push(e)
}

proof fn reach_authenticating() -> (r: Seq<AppEventView>)
    ensures
        r.len() == 3,
        run_events(initial_snapshot(), r) == snap(AppPhase::Authenticating, 2, 0, false, false, true, Some(AppOperation::Authenticate), None),
{
    let ev = reach_signed_out();
    let current = snap(AppPhase::SignedOut, 1, 0, false, false, true, None, None);
    let e = AppEventView::SignInRequested;
    let next = snap(AppPhase::Authenticating, 2, 0, false, false, true, Some(AppOperation::Authenticate), None);
    assert(step_view(current, e).after == next);
    lemma_run_step(initial_snapshot(), ev, e, current, next);
    ev.push(e)
}

proof fn reach_selecting_tenant() -> (r: Seq<AppEventView>)
    ensures
        r.len() == 4,
        run_events(initial_snapshot(), r) == snap(AppPhase::SelectingTenant, 2, 1, true, false, true, None, None),
{
    let ev = reach_authenticating();
    let current = snap(AppPhase::Authenticating, 2, 0, false, false, true, Some(AppOperation::Authenticate), None);
    let e = AppEventView::AuthenticationSucceeded { operation_id: 2, has_tenant: false, online: true };
    let next = snap(AppPhase::SelectingTenant, 2, 1, true, false, true, None, None);
    assert(step_view(current, e).after == next);
    lemma_run_step(initial_snapshot(), ev, e, current, next);
    ev.push(e)
}

proof fn reach_synchronizing() -> (r: Seq<AppEventView>)
    ensures
        r.len() == 5,
        run_events(initial_snapshot(), r) == snap(AppPhase::Synchronizing, 3, 2, true, true, true, Some(AppOperation::Synchronize), None),
{
    let ev = reach_selecting_tenant();
    let current = snap(AppPhase::SelectingTenant, 2, 1, true, false, true, None, None);
    let e = AppEventView::TenantSelected;
    let next = snap(AppPhase::Synchronizing, 3, 2, true, true, true, Some(AppOperation::Synchronize), None);
    assert(step_view(current, e).after == next);
    lemma_run_step(initial_snapshot(), ev, e, current, next);
    ev.push(e)
}

proof fn reach_ready_online() -> (r: Seq<AppEventView>)
    ensures
        r.len() == 6,
        run_events(initial_snapshot(), r) == snap(AppPhase::ReadyOnline, 3, 2, true, true, true, None, None),
{
    let ev = reach_synchronizing();
    let current = snap(AppPhase::Synchronizing, 3, 2, true, true, true, Some(AppOperation::Synchronize), None);
    let e = AppEventView::OperationSucceeded { operation_id: 3 };
    let next = snap(AppPhase::ReadyOnline, 3, 2, true, true, true, None, None);
    assert(step_view(current, e).after == next);
    lemma_run_step(initial_snapshot(), ev, e, current, next);
    ev.push(e)
}

proof fn reach_confirming() -> (r: Seq<AppEventView>)
    ensures
        r.len() == 7,
        run_events(initial_snapshot(), r) == snap(AppPhase::ConfirmingAction, 3, 2, true, true, true, None, Some(PendingActionView { id: seq!['a'], authority_epoch: 2 })),
{
    let ev = reach_ready_online();
    let current = snap(AppPhase::ReadyOnline, 3, 2, true, true, true, None, None);
    let e = AppEventView::ActionRequested { action_id: seq!['a'] };
    lemma_witness_id();
    let next = snap(AppPhase::ConfirmingAction, 3, 2, true, true, true, None, Some(PendingActionView { id: seq!['a'], authority_epoch: 2 }));
    assert(step_view(current, e).after == next);
    lemma_run_step(initial_snapshot(), ev, e, current, next);
    ev.push(e)
}

proof fn reach_executing() -> (r: Seq<AppEventView>)
    ensures
        r.len() == 8,
        run_events(initial_snapshot(), r) == snap(AppPhase::ExecutingAction, 4, 2, true, true, true, Some(AppOperation::ExecuteAction), Some(PendingActionView { id: seq!['a'], authority_epoch: 2 })),
{
    lemma_witness_id();
    let ev = reach_confirming();
    let current = snap(AppPhase::ConfirmingAction, 3, 2, true, true, true, None, Some(PendingActionView { id: seq!['a'], authority_epoch: 2 }));
    let e = AppEventView::ActionConfirmed;
    let next = snap(AppPhase::ExecutingAction, 4, 2, true, true, true, Some(AppOperation::ExecuteAction), Some(PendingActionView { id: seq!['a'], authority_epoch: 2 }));
    assert(step_view(current, e).after == next);
    lemma_run_step(initial_snapshot(), ev, e, current, next);
    ev.push(e)
}

proof fn reach_reconciliation_required() -> (r: Seq<AppEventView>)
    ensures
        r.len() == 9,
        run_events(initial_snapshot(), r) == snap(AppPhase::ReconciliationRequired, 5, 2, true, true, false, None, Some(PendingActionView { id: seq!['a'], authority_epoch: 2 })),
{
    lemma_witness_id();
    let ev = reach_executing();
    let current = snap(AppPhase::ExecutingAction, 4, 2, true, true, true, Some(AppOperation::ExecuteAction), Some(PendingActionView { id: seq!['a'], authority_epoch: 2 }));
    let e = AppEventView::ConnectivityChanged { online: false };
    let next = snap(AppPhase::ReconciliationRequired, 5, 2, true, true, false, None, Some(PendingActionView { id: seq!['a'], authority_epoch: 2 }));
    assert(step_view(current, e).after == next);
    lemma_run_step(initial_snapshot(), ev, e, current, next);
    ev.push(e)
}

proof fn reach_reconciling() -> (r: Seq<AppEventView>)
    ensures
        r.len() == 9,
        run_events(initial_snapshot(), r) == snap(AppPhase::ReconcilingAction, 5, 2, true, true, true, Some(AppOperation::ReconcileAction), Some(PendingActionView { id: seq!['a'], authority_epoch: 2 })),
{
    lemma_witness_id();
    let ev = reach_executing();
    let current = snap(AppPhase::ExecutingAction, 4, 2, true, true, true, Some(AppOperation::ExecuteAction), Some(PendingActionView { id: seq!['a'], authority_epoch: 2 }));
    let e = AppEventView::OperationFailed { operation_id: 4, reason: seq!['x'], retryable: true, ambiguous: true };
    let next = snap(AppPhase::ReconcilingAction, 5, 2, true, true, true, Some(AppOperation::ReconcileAction), Some(PendingActionView { id: seq!['a'], authority_epoch: 2 }));
    assert(step_view(current, e).after == next);
    lemma_run_step(initial_snapshot(), ev, e, current, next);
    ev.push(e)
}

proof fn reach_ready_offline() -> (r: Seq<AppEventView>)
    ensures
        r.len() == 7,
        run_events(initial_snapshot(), r) == snap(AppPhase::ReadyOffline, 3, 2, true, true, false, None, None),
{
    let ev = reach_ready_online();
    let current = snap(AppPhase::ReadyOnline, 3, 2, true, true, true, None, None);
    let e = AppEventView::ConnectivityChanged { online: false };
    let next = snap(AppPhase::ReadyOffline, 3, 2, true, true, false, None, None);
    assert(step_view(current, e).after == next);
    lemma_run_step(initial_snapshot(), ev, e, current, next);
    ev.push(e)
}

proof fn reach_signing_out() -> (r: Seq<AppEventView>)
    ensures
        r.len() == 7,
        run_events(initial_snapshot(), r) == snap(AppPhase::SigningOut, 4, 3, false, false, true, Some(AppOperation::SignOut), None),
{
    let ev = reach_ready_online();
    let current = snap(AppPhase::ReadyOnline, 3, 2, true, true, true, None, None);
    let e = AppEventView::SignOutRequested;
    let next = snap(AppPhase::SigningOut, 4, 3, false, false, true, Some(AppOperation::SignOut), None);
    assert(step_view(current, e).after == next);
    lemma_run_step(initial_snapshot(), ev, e, current, next);
    ev.push(e)
}

proof fn reach_failed() -> (r: Seq<AppEventView>)
    ensures
        r.len() == 2,
        run_events(initial_snapshot(), r) == failed_snapshot(s_bootstrapping(), controlled_reason_view(seq!['x'])),
{
    let ev = reach_bootstrapping();
    let current = s_bootstrapping();
    let e = AppEventView::OperationFailed { operation_id: 1, reason: seq!['x'], retryable: false, ambiguous: false };
    let next = failed_snapshot(s_bootstrapping(), controlled_reason_view(seq!['x']));
    assert(step_view(current, e).after == next);
    lemma_run_step(initial_snapshot(), ev, e, current, next);
    ev.push(e)
}

proof fn reach_recovering() -> (r: Seq<AppEventView>)
    ensures
        r.len() == 3,
        run_events(initial_snapshot(), r) == snap(AppPhase::Recovering, 3, 1, false, false, false, Some(AppOperation::Recover), None),
{
    let ev = reach_failed();
    let current = failed_snapshot(s_bootstrapping(), controlled_reason_view(seq!['x']));
    let e = AppEventView::RecoveryRequested;
    let next = snap(AppPhase::Recovering, 3, 1, false, false, false, Some(AppOperation::Recover), None);
    assert(step_view(current, e).after == next);
    lemma_run_step(initial_snapshot(), ev, e, current, next);
    ev.push(e)
}

/// Every phase can be reached from the cold state in at most nine events.
pub proof fn law_every_phase_is_reachable(p: AppPhase)
    ensures
        exists|events: Seq<AppEventView>|
            events.len() <= 9 && (#[trigger] run_events(initial_snapshot(), events)).phase == p,
{
    let ev = match p {
        AppPhase::Cold => {
            let e0: Seq<AppEventView> = Seq::empty();
            lemma_run_empty(initial_snapshot());
            e0
        },
        AppPhase::Bootstrapping => reach_bootstrapping(),
        AppPhase::SignedOut => reach_signed_out(),
        AppPhase::Authenticating => reach_authenticating(),
        AppPhase::SelectingTenant => reach_selecting_tenant(),
        AppPhase::Synchronizing => reach_synchronizing(),
        AppPhase::ReadyOnline => reach_ready_online(),
        AppPhase::ReadyOffline => reach_ready_offline(),
        AppPhase::ConfirmingAction => reach_confirming(),
        AppPhase::ExecutingAction => reach_executing(),
        AppPhase::ReconciliationRequired => reach_reconciliation_required(),
        AppPhase::ReconcilingAction => reach_reconciling(),
        AppPhase::Recovering => reach_recovering(),
        AppPhase::SigningOut => reach_signing_out(),
        AppPhase::Failed => reach_failed(),
    };
    assert(run_events(initial_snapshot(), ev).phase == p);
}

/// Every disposition occurs on some event from some snapshot reachable from
/// the cold state.
pub proof fn law_every_disposition_occurs(d: TransitionDisposition)
    ensures
        exists|events: Seq<AppEventView>, e: AppEventView|
            events.len() <= 9 && (#[trigger] transition_view(
                run_events(initial_snapshot(), events),
                e,
            )).disposition == d,
{
    let s0 = initial_snapshot();
    let e0: Seq<AppEventView> = Seq::empty();
    lemma_run_empty(s0);
    assert(snapshot_valid(s0));
    let ev1 = reach_bootstrapping();
    let e = match d {
        TransitionDisposition::Applied => AppEventView::LaunchRequested,
        TransitionDisposition::Rejected => AppEventView::ActionCancelled,
        TransitionDisposition::Stale => AppEventView::OperationSucceeded { operation_id: 7 },
        TransitionDisposition::FailedClosed => AppEventView::OperationFailed {
            operation_id: 1,
            reason: seq!['x'],
            retryable: false,
            ambiguous: false,
        },
    };
    let ev = if d == TransitionDisposition::FailedClosed { ev1 } else { e0 };
    assert(snapshot_valid(s_bootstrapping()));
    law_step_preserves_validity(run_events(s0, ev), e);
    assert(transition_view(run_events(s0, ev), e).disposition == d);
}

/// The kind of outside work each operation asks for.
pub open spec fn effect_kind_of(op: AppOperation) -> AppEffectKind {
    match op {
        AppOperation::Bootstrap => AppEffectKind::LoadSession,
        AppOperation::Authenticate => AppEffectKind::Authenticate,
        AppOperation::Synchronize => AppEffectKind::Synchronize,
        AppOperation::ExecuteAction => AppEffectKind::ExecuteAction,
        AppOperation::ReconcileAction => AppEffectKind::ReconcileAction,
        AppOperation::Recover => AppEffectKind::RecoverSession,
        AppOperation::SignOut => AppEffectKind::ClearSession,
    }
}

/// Every transition reports the snapshot it started from as `before`.
pub proof fn law_before_is_the_current_snapshot(s: AppSnapshotView, e: AppEventView)
    ensures
        transition_view(s, e).before == s,
{
    if snapshot_valid(s) {
        law_step_preserves_validity(s, e);
        lemma_step_outcome(s, e);
    }
}

/// Outside work is requested only by an applied step that starts an operation
/// under the next generation, and the effect's kind matches that operation.
pub proof fn law_effects_start_operations_under_next_generation(s: AppSnapshotView, e: AppEventView)
    ensures
        ({
            let t = transition_view(s, e);
            t.effect matches Some(f) ==> {
                &&& t.disposition == TransitionDisposition::Applied
                &&& f.operation_id == s.generation + 1
                &&& t.after.generation == f.operation_id
                &&& t.after.active_operation == Some(f.operation)
                &&& t.after.active_operation_id == Some(f.operation_id)
                &&& f.kind == effect_kind_of(f.operation)
            }
        }),
{
    if snapshot_valid(s) {
        law_step_preserves_validity(s, e);
        lemma_step_outcome(s, e);
    }
}

/// A failed authentication grants nothing and takes nothing else away: the
/// lifecycle is signed out again with the same connectivity, generation and
/// authority epoch, records no failure, asks for no outside work, and offers
/// sign-in once more.
pub proof fn law_failed_authentication_returns_to_signed_out(
    s: AppSnapshotView,
    operation_id: u64,
    reason: Seq<char>,
    retryable: bool,
    ambiguous: bool,
)
    requires
        snapshot_valid(s),
        s.active_operation == Some(AppOperation::Authenticate),
        s.active_operation_id == Some(operation_id),
    ensures
        ({
            let t = transition_view(
                s,
                AppEventView::OperationFailed { operation_id, reason, retryable, ambiguous },
            );
            &&& t.disposition == TransitionDisposition::Applied
            &&& t.after.phase == AppPhase::SignedOut
            &&& !t.after.has_session && !t.after.has_tenant
            &&& t.after.online == s.online
            &&& t.after.generation == s.generation
            &&& t.after.authority_epoch == s.authority_epoch
            &&& t.after.pending_action is None
            &&& t.after.failure is None
            &&& t.effect is None
            &&& !refused(t.after, AppEventView::SignInRequested)
        }),
{
    let e = AppEventView::OperationFailed { operation_id, reason, retryable, ambiguous };
    law_step_preserves_validity(s, e);
    law_step_preserves_validity(transition_view(s, e).after, AppEventView::SignInRequested);
}

/// What a failure report for the outstanding operation leads to. Only a failed
/// bootstrap, recovery or reconciliation, a synchronization failure that cannot
/// be retried, or an exhausted generation fails closed; every other failure keeps the
/// authority epoch and lands in a phase from which the operator can go on.
pub proof fn law_operation_failure_outcomes(
    s: AppSnapshotView,
    operation_id: u64,
    reason: Seq<char>,
    retryable: bool,
    ambiguous: bool,
)
    requires
        snapshot_valid(s),
        s.active_operation_id == Some(operation_id),
    ensures
        ({
            let op = s.active_operation->0;
            let t = transition_view(
                s,
                AppEventView::OperationFailed { operation_id, reason, retryable, ambiguous },
            );
            &&& (t.disposition == TransitionDisposition::FailedClosed) <==> (
            op == AppOperation::Bootstrap || op == AppOperation::Recover || op
                == AppOperation::ReconcileAction || (op == AppOperation::Synchronize && !retryable)
                || (op == AppOperation::ExecuteAction && ambiguous && s.generation
                >= MAX_PORTABLE_COUNTER))
            &&& t.disposition == TransitionDisposition::FailedClosed ==> {
                &&& t.after.phase == AppPhase::Failed
                &&& t.after.failure is Some
                &&& !t.after.has_session && !t.after.has_tenant && !t.after.online
                &&& t.effect is None
            }
            &&& t.disposition != TransitionDisposition::FailedClosed ==> {
                &&& t.disposition == TransitionDisposition::Applied
                &&& t.after.authority_epoch == s.authority_epoch
                &&& t.after.failure is None
            }
            &&& (op == AppOperation::SignOut || op == AppOperation::Authenticate) ==> {
                &&& t.after.phase == AppPhase::SignedOut
                &&& !t.after.has_session && !t.after.has_tenant
                &&& t.after.online == s.online
                &&& t.effect is None
            }
            &&& (op == AppOperation::Synchronize && retryable) ==> {
                &&& t.after.phase == AppPhase::ReadyOffline
                &&& t.after.has_session && t.after.has_tenant
                &&& !t.after.online
                &&& t.effect is None
            }
            &&& (op == AppOperation::ExecuteAction && !ambiguous) ==> {
                &&& t.after.phase == (if s.online {
                    AppPhase::ReadyOnline
                } else {
                    AppPhase::ReadyOffline
                })
                &&& t.after.has_session && t.after.has_tenant
                &&& t.after.online == s.online
                &&& t.after.pending_action is None
                &&& t.effect is None
            }
            &&& (op == AppOperation::ExecuteAction && ambiguous && s.generation
                < MAX_PORTABLE_COUNTER) ==> {
                &&& t.after.pending_action == s.pending_action
                &&& t.after.generation == s.generation + 1
                &&& if s.online {
                    &&& t.after.phase == AppPhase::ReconcilingAction
                    &&& t.effect matches Some(f) && f.kind == AppEffectKind::ReconcileAction
                } else {
                    &&& t.after.phase == AppPhase::ReconciliationRequired
                    &&& t.effect is None
                }
            }
        }),
{
    let e = AppEventView::OperationFailed { operation_id, reason, retryable, ambiguous };
    law_step_preserves_validity(s, e);
    lemma_failed_snapshot_valid(s, reason);
}

/// Losing connectivity is never ignored while anything uses it: from a valid
/// online snapshot that is signed out, selecting a tenant, authenticating, or in
/// a phase that needs connectivity, the result no longer claims connectivity
/// and is in no phase that needs it. An outstanding authentication,
/// synchronization, execution or reconciliation is fenced by a new generation,
/// so its late completion is stale; synchronization falls back to read-only
/// offline mode with the session, tenant and authority epoch kept.
pub proof fn law_connectivity_loss_is_honoured(s: AppSnapshotView)
    requires
        snapshot_valid(s),
        s.online,
    ensures
        ({
            let t = transition_view(s, AppEventView::ConnectivityChanged { online: false });
            &&& (phase_requires_online(s.phase) || s.phase is SignedOut || s.phase is SelectingTenant
                || s.phase is Authenticating) ==> {
                &&& t.disposition != TransitionDisposition::Rejected
                &&& !t.after.online
                &&& !phase_requires_online(t.after.phase)
                &&& t.effect is None
            }
            &&& t.disposition == TransitionDisposition::Rejected ==> (s.phase is Cold
                || s.phase is Bootstrapping || s.phase is Recovering || s.phase is SigningOut
                || s.phase is Failed || s.phase is ReconciliationRequired)
            &&& ((s.phase is Synchronizing || s.phase is ExecutingAction
                || s.phase is ReconcilingAction || s.phase is Authenticating) && s.generation
                < MAX_PORTABLE_COUNTER) ==> {
                &&& t.disposition == TransitionDisposition::Applied
                &&& t.after.generation == s.generation + 1
                &&& t.after.active_operation is None
                &&& t.after.authority_epoch == s.authority_epoch
            }
            &&& (s.phase is Synchronizing && s.generation < MAX_PORTABLE_COUNTER) ==> {
                &&& t.after.phase == AppPhase::ReadyOffline
                &&& t.after.has_session && t.after.has_tenant
            }
            &&& s.phase is ReadyOnline ==> {
                &&& t.disposition == TransitionDisposition::Applied
                &&& t.after.phase == AppPhase::ReadyOffline
                &&& t.after.has_session && t.after.has_tenant
                &&& t.after.generation == s.generation
                &&& t.after.authority_epoch == s.authority_epoch
            }
        }),
{
    law_step_preserves_validity(s, AppEventView::ConnectivityChanged { online: false });
}

/// Manual synchronization starts only from online readiness; from any other
/// phase it is refused and the snapshot, connectivity included, is unchanged.
/// From online readiness it starts synchronizing under the next generation.
pub proof fn law_manual_sync_only_from_online_readiness(s: AppSnapshotView)
    requires
        snapshot_valid(s),
    ensures
        ({
            let t = transition_view(s, AppEventView::SyncRequested);
            &&& s.phase != AppPhase::ReadyOnline ==> {
                &&& t.disposition == TransitionDisposition::Rejected
                &&& t.after == s
                &&& t.effect is None
            }
            &&& (s.phase == AppPhase::ReadyOnline && s.generation < MAX_PORTABLE_COUNTER) ==> {
                &&& t.disposition == TransitionDisposition::Applied
                &&& t.after.phase == AppPhase::Synchronizing
                &&& t.after.online
                &&& t.after.generation == s.generation + 1
                &&& t.after.authority_epoch == s.authority_epoch
                &&& t.effect matches Some(f) && f.kind == AppEffectKind::Synchronize
            }
        }),
{
    law_step_preserves_validity(s, AppEventView::SyncRequested);
}

/// The lifecycle never claims connectivity it was not told about: from a valid
/// offline snapshot, a step ends online only on a report that connectivity is
/// back, or on a bootstrap, authentication or recovery completion that reports
/// the device online.
pub proof fn law_connectivity_is_claimed_only_when_reported(s: AppSnapshotView, e: AppEventView)
    requires
        snapshot_valid(s),
        !s.online,
        transition_view(s, e).after.online,
    ensures
        ({
            ||| e == AppEventView::ConnectivityChanged { online: true }
            ||| e matches AppEventView::BootstrapSucceeded { online, .. } && online
            ||| e matches AppEventView::AuthenticationSucceeded { online, .. } && online
            ||| e matches AppEventView::RecoverySucceeded { online, .. } && online
        }),
{
    law_step_preserves_validity(s, e);
}

/// What a success report for the outstanding operation leads to: a finished
/// synchronization, execution or reconciliation returns to online readiness
/// with the session, tenant, generation and authority epoch kept and the
/// pending action released; a finished sign-out leaves the lifecycle signed
/// out; bootstrap, authentication and recovery need their own typed
/// completion, so a plain success report for them is refused.
pub proof fn law_operation_success_outcomes(s: AppSnapshotView, operation_id: u64)
    requires
        snapshot_valid(s),
        s.active_operation_id == Some(operation_id),
    ensures
        ({
            let op = s.active_operation->0;
            let t = transition_view(s, AppEventView::OperationSucceeded { operation_id });
            &&& t.effect is None
            &&& (op == AppOperation::Synchronize || op == AppOperation::ExecuteAction || op
                == AppOperation::ReconcileAction) ==> {
                &&& t.disposition == TransitionDisposition::Applied
                &&& t.after.phase == AppPhase::ReadyOnline
                &&& t.after.has_session && t.after.has_tenant && t.after.online
                &&& t.after.pending_action is None
                &&& t.after.generation == s.generation
                &&& t.after.authority_epoch == s.authority_epoch
            }
            &&& op == AppOperation::SignOut ==> {
                &&& t.disposition == TransitionDisposition::Applied
                &&& t.after.phase == AppPhase::SignedOut
                &&& !t.after.has_session && !t.after.has_tenant
                &&& t.after.online == s.online
                &&& t.after.authority_epoch == s.authority_epoch
            }
            &&& (op == AppOperation::Bootstrap || op == AppOperation::Authenticate || op
                == AppOperation::Recover) ==> {
                &&& t.disposition == TransitionDisposition::Rejected
                &&& t.after == s
            }
        }),
{
    law_step_preserves_validity(s, AppEventView::OperationSucceeded { operation_id });
}

/// The completion of a bootstrap, authentication or recovery, when it matches
/// the outstanding operation: without a session the lifecycle is signed out
/// with the authority epoch unchanged; with a session the authority epoch
/// advances and the lifecycle asks for a tenant, enters read-only offline mode,
/// or starts synchronizing, by what the completion reports. Connectivity is
/// taken from the report.
pub proof fn law_authority_is_established_as_reported(s: AppSnapshotView, e: AppEventView)
    requires
        snapshot_valid(s),
        s.generation < MAX_PORTABLE_COUNTER,
        s.authority_epoch < MAX_PORTABLE_COUNTER,
        match e {
            AppEventView::BootstrapSucceeded { operation_id, .. } => operation_matches(
                s,
                AppOperation::Bootstrap,
                operation_id,
            ),
            AppEventView::AuthenticationSucceeded { operation_id, .. } => operation_matches(
                s,
                AppOperation::Authenticate,
                operation_id,
            ),
            AppEventView::RecoverySucceeded { operation_id, .. } => operation_matches(
                s,
                AppOperation::Recover,
                operation_id,
            ),
            _ => false,
        },
    ensures
        ({
            let (authenticated, tenant, online) = match e {
                AppEventView::BootstrapSucceeded { authenticated, has_tenant, online, .. } => (
                    authenticated,
                    has_tenant,
                    online,
                ),
                AppEventView::AuthenticationSucceeded { has_tenant, online, .. } => (
                    true,
                    has_tenant,
                    online,
                ),
                AppEventView::RecoverySucceeded { authenticated, has_tenant, online, .. } => (
                    authenticated,
                    has_tenant,
                    online,
                ),
                _ => (false, false, false),
            };
            let t = transition_view(s, e);
            &&& t.disposition == TransitionDisposition::Applied
            &&& t.after.online == online
            &&& t.after.has_session == authenticated
            &&& t.after.has_tenant == (authenticated && tenant)
            &&& !authenticated ==> {
                &&& t.after.phase == AppPhase::SignedOut
                &&& t.after.authority_epoch == s.authority_epoch
                &&& t.effect is None
            }
            &&& authenticated ==> t.after.authority_epoch == s.authority_epoch + 1
            &&& (authenticated && !tenant) ==> t.after.phase == AppPhase::SelectingTenant
                && t.effect is None
            &&& (authenticated && tenant && !online) ==> t.after.phase == AppPhase::ReadyOffline
                && t.effect is None
            &&& (authenticated && tenant && online) ==> {
                &&& t.after.phase == AppPhase::Synchronizing
                &&& t.effect matches Some(f) && f.kind == AppEffectKind::Synchronize
                    && f.operation_id == s.generation + 1
            }
        }),
{
    law_step_preserves_validity(s, e);
}

/// Selecting a tenant is possible only while a tenant is being chosen; it
/// advances the authority epoch and then synchronizes when online, or enters
/// read-only offline mode when not.
pub proof fn law_tenant_selection_outcomes(s: AppSnapshotView)
    requires
        snapshot_valid(s),
    ensures
        ({
            let t = transition_view(s, AppEventView::TenantSelected);
            &&& s.phase != AppPhase::SelectingTenant ==> t.disposition
                == TransitionDisposition::Rejected && t.after == s
            &&& (s.phase == AppPhase::SelectingTenant && s.authority_epoch < MAX_PORTABLE_COUNTER
                && s.generation < MAX_PORTABLE_COUNTER) ==> {
                &&& t.disposition == TransitionDisposition::Applied
                &&& t.after.has_session && t.after.has_tenant
                &&& t.after.online == s.online
                &&& t.after.authority_epoch == s.authority_epoch + 1
                &&& if s.online {
                    &&& t.after.phase == AppPhase::Synchronizing
                    &&& t.effect matches Some(f) && f.kind == AppEffectKind::Synchronize
                } else {
                    &&& t.after.phase == AppPhase::ReadyOffline
                    &&& t.effect is None
                }
            }
        }),
{
    law_step_preserves_validity(s, AppEventView::TenantSelected);
}

/// A privileged action request in online readiness with a usable id holds the
/// trimmed id, bound to the current authority epoch, for confirmation and asks
/// for no outside work; cancelling it returns to online readiness with nothing
/// pending and nothing executed.
pub proof fn law_action_request_and_cancellation(s: AppSnapshotView, action_id: Seq<char>)
    requires
        snapshot_valid(s),
    ensures
        ({
            let t = transition_view(s, AppEventView::ActionRequested { action_id });
            let id = trim(action_id);
            (s.phase == AppPhase::ReadyOnline && id.len() > 0 && utf8_len(id) <= 128) ==> {
                &&& t.disposition == TransitionDisposition::Applied
                &&& t.after.phase == AppPhase::ConfirmingAction
                &&& t.after.pending_action == Some(
                    PendingActionView { id, authority_epoch: s.authority_epoch },
                )
                &&& t.after.generation == s.generation
                &&& t.after.authority_epoch == s.authority_epoch
                &&& t.after.online
                &&& t.effect is None
            }
        }),
        ({
            let t = transition_view(s, AppEventView::ActionRequested { action_id });
            let id = trim(action_id);
            (id.len() == 0 || utf8_len(id) > 128) ==> t.disposition
                == TransitionDisposition::Rejected
        }),
        ({
            let t = transition_view(s, AppEventView::ActionCancelled);
            &&& s.phase == AppPhase::ConfirmingAction ==> {
                &&& t.disposition == TransitionDisposition::Applied
                &&& t.after.phase == AppPhase::ReadyOnline
                &&& t.after.pending_action is None
                &&& t.after.generation == s.generation
                &&& t.after.authority_epoch == s.authority_epoch
                &&& t.effect is None
            }
            &&& s.phase != AppPhase::ConfirmingAction ==> t.disposition
                == TransitionDisposition::Rejected
        }),
{
    law_step_preserves_validity(s, AppEventView::ActionRequested { action_id });
    law_step_preserves_validity(s, AppEventView::ActionCancelled);
}

/// Launch, sign-in and recovery each start their operation from exactly one
/// phase, under the next generation, with the effect that asks for it and the
/// authority epoch unchanged; sign-in keeps the connectivity it found.
pub proof fn law_operations_start_from_their_phase(s: AppSnapshotView, e: AppEventView)
    requires
        snapshot_valid(s),
        s.generation < MAX_PORTABLE_COUNTER,
        e is LaunchRequested || e is SignInRequested || e is RecoveryRequested,
    ensures
        ({
            let (from, to, kind) = if e is LaunchRequested {
                (AppPhase::Cold, AppPhase::Bootstrapping, AppEffectKind::LoadSession)
            } else if e is SignInRequested {
                (AppPhase::SignedOut, AppPhase::Authenticating, AppEffectKind::Authenticate)
            } else {
                (AppPhase::Failed, AppPhase::Recovering, AppEffectKind::RecoverSession)
            };
            let t = transition_view(s, e);
            &&& s.phase != from ==> t.disposition == TransitionDisposition::Rejected && t.after
                == s
            &&& s.phase == from ==> {
                &&& t.disposition == TransitionDisposition::Applied
                &&& t.after.phase == to
                &&& t.after.generation == s.generation + 1
                &&& t.after.authority_epoch == s.authority_epoch
                &&& !t.after.has_session && !t.after.has_tenant
                &&& t.after.failure is None
                &&& t.effect matches Some(f) && f.kind == kind && f.operation_id
                    == t.after.generation
                &&& e is SignInRequested ==> t.after.online == s.online
            }
        }),
{
    law_step_preserves_validity(s, e);
}

/// When connectivity returns, a signed-out or tenant-selecting lifecycle simply
/// records it, read-only offline mode starts synchronizing, and an action
/// awaiting reconciliation starts reconciling with its pending action kept.
pub proof fn law_connectivity_restoration_outcomes(s: AppSnapshotView)
    requires
        snapshot_valid(s),
        !s.online,
    ensures
        ({
            let t = transition_view(s, AppEventView::ConnectivityChanged { online: true });
            &&& (s.phase is SignedOut || s.phase is SelectingTenant) ==> {
                &&& t.disposition == TransitionDisposition::Applied
                &&& t.after.phase == s.phase
                &&& t.after.online
                &&& t.after.generation == s.generation
                &&& t.after.authority_epoch == s.authority_epoch
                &&& t.effect is None
            }
            &&& (s.phase is ReadyOffline && s.generation < MAX_PORTABLE_COUNTER) ==> {
                &&& t.disposition == TransitionDisposition::Applied
                &&& t.after.phase == AppPhase::Synchronizing
                &&& t.after.online
                &&& t.effect matches Some(f) && f.kind == AppEffectKind::Synchronize
            }
            &&& (s.phase is ReconciliationRequired && s.generation < MAX_PORTABLE_COUNTER) ==> {
                &&& t.disposition == TransitionDisposition::Applied
                &&& t.after.phase == AppPhase::ReconcilingAction
                &&& t.after.pending_action == s.pending_action
                &&& t.effect matches Some(f) && f.kind == AppEffectKind::ReconcileAction
            }
        }),
{
    law_step_preserves_validity(s, AppEventView::ConnectivityChanged { online: true });
}

} // verus!
