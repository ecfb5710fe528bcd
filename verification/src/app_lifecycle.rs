//! Total, deterministic lifecycle shared by the native Fiducia desktop shell.
//!
//! The transition relation is pure. Authentication, networking, storage, and
//! privileged API calls are explicit effects whose completions carry the exact
//! operation generation that created them. Unsupported requests reject;
//! stale completions stutter; corrupt snapshots revoke local authority and
//! enter a controlled failed state.
use crate::text::{
    chars_of, concat_str, opt_string_view, take_chars, trim, trimmed, utf8_len, utf8_len_exceeds,
};
use vstd::prelude::*;
use vstd::string::*;

verus! {

/// Largest counter value that stays exact in every client's number domain.
pub const MAX_PORTABLE_COUNTER: u64 = 9_007_199_254_740_991;

#[derive(Clone, Copy, Debug, PartialEq, Eq, Hash, Structural)]
pub enum AppPhase {
    Cold,
    Bootstrapping,
    SignedOut,
    Authenticating,
    SelectingTenant,
    Synchronizing,
    ReadyOnline,
    ReadyOffline,
    ConfirmingAction,
    ExecutingAction,
    ReconciliationRequired,
    ReconcilingAction,
    Recovering,
    SigningOut,
    Failed,
}

#[derive(Clone, Copy, Debug, PartialEq, Eq, Hash, Structural)]
pub enum AppOperation {
    Bootstrap,
    Authenticate,
    Synchronize,
    ExecuteAction,
    ReconcileAction,
    Recover,
    SignOut,
}

#[derive(Clone, Copy, Debug, PartialEq, Eq, Hash, Structural)]
pub enum AppEffectKind {
    LoadSession,
    Authenticate,
    Synchronize,
    ExecuteAction,
    ReconcileAction,
    RecoverSession,
    ClearSession,
}

#[derive(Clone, Copy, Debug, PartialEq, Eq, Hash, Structural)]
pub enum TransitionDisposition {
    Applied,
    Rejected,
    Stale,
    FailedClosed,
}

/// Phases in which exactly one asynchronous operation is outstanding.
pub open spec fn phase_is_busy(p: AppPhase) -> bool {
    ||| p is Bootstrapping
    ||| p is Authenticating
    ||| p is Synchronizing
    ||| p is ExecutingAction
    ||| p is ReconcilingAction
    ||| p is Recovering
    ||| p is SigningOut
}

/// The operation that a busy phase is waiting for.
pub open spec fn phase_operation(p: AppPhase) -> Option<AppOperation> {
    match p {
        AppPhase::Bootstrapping => Some(AppOperation::Bootstrap),
        AppPhase::Authenticating => Some(AppOperation::Authenticate),
        AppPhase::Synchronizing => Some(AppOperation::Synchronize),
        AppPhase::ExecutingAction => Some(AppOperation::ExecuteAction),
        AppPhase::ReconcilingAction => Some(AppOperation::ReconcileAction),
        AppPhase::Recovering => Some(AppOperation::Recover),
        AppPhase::SigningOut => Some(AppOperation::SignOut),
        _ => None,
    }
}

pub open spec fn phase_requires_session(p: AppPhase) -> bool {
    ||| p is SelectingTenant
    ||| phase_requires_tenant(p)
}

pub open spec fn phase_requires_tenant(p: AppPhase) -> bool {
    ||| p is Synchronizing
    ||| p is ReadyOnline
    ||| p is ReadyOffline
    ||| p is ConfirmingAction
    ||| p is ExecutingAction
    ||| p is ReconciliationRequired
    ||| p is ReconcilingAction
}

pub open spec fn phase_requires_online(p: AppPhase) -> bool {
    ||| p is Synchronizing
    ||| p is ReadyOnline
    ||| p is ConfirmingAction
    ||| p is ExecutingAction
    ||| p is ReconcilingAction
}

pub open spec fn phase_requires_pending_action(p: AppPhase) -> bool {
    ||| p is ConfirmingAction
    ||| p is ExecutingAction
    ||| p is ReconciliationRequired
    ||| p is ReconcilingAction
}

impl AppPhase {
    pub fn is_busy(self) -> (b: bool)
        ensures
            b == phase_is_busy(self),
    {
        match self {
            AppPhase::Bootstrapping | AppPhase::Authenticating | AppPhase::Synchronizing
            | AppPhase::ExecutingAction | AppPhase::ReconcilingAction | AppPhase::Recovering
            | AppPhase::SigningOut => true,
            _ => false,
        }
    }
}

/// A privileged action awaiting confirmation, execution or reconciliation,
/// bound to the authority epoch that requested it.
#[derive(Clone, Debug, PartialEq, Eq, Hash)]
pub struct PendingAction {
    id: String,
    authority_epoch: u64,
}

pub struct PendingActionView {
    pub id: Seq<char>,
    pub authority_epoch: u64,
}

impl View for PendingAction {
    type V = PendingActionView;

    closed spec fn view(&self) -> PendingActionView {
        PendingActionView { id: self.id@, authority_epoch: self.authority_epoch }
    }
}

impl PendingAction {
    pub fn id(&self) -> (r: &str)
        ensures
            r@ == self@.id,
    {
        self.id.as_str()
    }

    pub fn authority_epoch(&self) -> (r: u64)
        ensures
            r == self@.authority_epoch,
    {
        self.authority_epoch
    }

    fn duplicate(&self) -> (r: PendingAction)
        ensures
            r@ == self@,
    {
        PendingAction { id: self.id.clone(), authority_epoch: self.authority_epoch }
    }
}

pub open spec fn pending_view(p: Option<PendingAction>) -> Option<PendingActionView> {
    match p {
        Some(a) => Some(a@),
        None => None,
    }
}

fn duplicate_pending(p: &Option<PendingAction>) -> (r: Option<PendingAction>)
    ensures
        pending_view(r) == pending_view(*p),
{
    match p {
        Some(a) => Some(a.duplicate()),
        None => None,
    }
}

#[derive(Clone, Copy, Debug, PartialEq, Eq, Structural)]
pub struct AppCapabilities {
    pub can_launch: bool,
    pub can_sign_in: bool,
    pub can_select_tenant: bool,
    pub can_read_cached_data: bool,
    pub can_request_privileged_action: bool,
    pub can_confirm_action: bool,
    pub can_cancel_action: bool,
    pub can_recover: bool,
    pub can_sign_out: bool,
}

/// What the operator may do in each phase.
pub open spec fn capabilities_of(p: AppPhase) -> AppCapabilities {
    AppCapabilities {
        can_launch: p is Cold,
        can_sign_in: p is SignedOut,
        can_select_tenant: p is SelectingTenant,
        can_read_cached_data: phase_requires_tenant(p) && !(p is Synchronizing),
        can_request_privileged_action: p is ReadyOnline,
        can_confirm_action: p is ConfirmingAction,
        can_cancel_action: p is ConfirmingAction,
        can_recover: p is Failed,
        can_sign_out: phase_requires_session(p) || p is Failed,
    }
}

#[derive(Clone, Debug, PartialEq, Eq, Hash)]
pub struct AppSnapshot {
    pub phase: AppPhase,
    pub generation: u64,
    pub authority_epoch: u64,
    pub has_session: bool,
    pub has_tenant: bool,
    pub online: bool,
    pub active_operation: Option<AppOperation>,
    pub active_operation_id: Option<u64>,
    pub pending_action: Option<PendingAction>,
    pub failure: Option<String>,
}

pub struct AppSnapshotView {
    pub phase: AppPhase,
    pub generation: u64,
    pub authority_epoch: u64,
    pub has_session: bool,
    pub has_tenant: bool,
    pub online: bool,
    pub active_operation: Option<AppOperation>,
    pub active_operation_id: Option<u64>,
    pub pending_action: Option<PendingActionView>,
    pub failure: Option<Seq<char>>,
}

impl View for AppSnapshot {
    type V = AppSnapshotView;

    open spec fn view(&self) -> AppSnapshotView {
        AppSnapshotView {
            phase: self.phase,
            generation: self.generation,
            authority_epoch: self.authority_epoch,
            has_session: self.has_session,
            has_tenant: self.has_tenant,
            online: self.online,
            active_operation: self.active_operation,
            active_operation_id: self.active_operation_id,
            pending_action: pending_view(self.pending_action),
            failure: opt_string_view(self.failure),
        }
    }
}

/// The cold, empty snapshot a fresh lifecycle starts from.
pub open spec fn initial_snapshot() -> AppSnapshotView {
    AppSnapshotView {
        phase: AppPhase::Cold,
        generation: 0,
        authority_epoch: 0,
        has_session: false,
        has_tenant: false,
        online: false,
        active_operation: None,
        active_operation_id: None,
        pending_action: None,
        failure: None,
    }
}

/// A pending action is bound to the current authority and has a 1 to 128 byte id.
pub open spec fn pending_action_bound(s: AppSnapshotView) -> bool {
    s.pending_action matches Some(a) ==> {
        &&& a.id.len() > 0
        &&& utf8_len(a.id) <= 128
        &&& a.authority_epoch == s.authority_epoch
    }
}

/// The lifecycle invariant: every field agrees with the phase.
pub open spec fn snapshot_valid(s: AppSnapshotView) -> bool {
    &&& s.generation <= MAX_PORTABLE_COUNTER
    &&& s.authority_epoch <= MAX_PORTABLE_COUNTER
    &&& s.active_operation == phase_operation(s.phase)
    &&& (s.active_operation is Some <==> s.active_operation_id is Some)
    &&& s.active_operation_id matches Some(id) ==> id != 0 && id == s.generation
    &&& s.has_tenant ==> s.has_session
    &&& phase_requires_session(s.phase) == s.has_session
    &&& phase_requires_tenant(s.phase) == s.has_tenant
    &&& phase_requires_online(s.phase) ==> s.online
    &&& s.phase is ReadyOffline ==> !s.online
    &&& phase_requires_pending_action(s.phase) == (s.pending_action is Some)
    &&& pending_action_bound(s)
    &&& (s.phase is Failed) == (s.failure is Some)
}

/// The message of the first invariant check that `s` fails, in checking order.
pub open spec fn snapshot_violation(s: AppSnapshotView) -> Option<Seq<char>> {
    if s.generation > MAX_PORTABLE_COUNTER {
        Some("generation is outside the portable domain"@)
    } else if s.authority_epoch > MAX_PORTABLE_COUNTER {
        Some("authority epoch is outside the portable domain"@)
    } else if phase_is_busy(s.phase) != (s.active_operation is Some && s.active_operation_id is Some) {
        Some("transitional phases require exactly one active operation"@)
    } else if (s.active_operation is Some) != (s.active_operation_id is Some) {
        Some("active operation and id must appear together"@)
    } else if s.active_operation_id matches Some(id) && (id == 0 || id != s.generation) {
        Some("active operation id must equal the current generation"@)
    } else if s.active_operation != phase_operation(s.phase) {
        Some("active operation is incompatible with the current phase"@)
    } else if s.has_tenant && !s.has_session {
        Some("tenant authority requires an authenticated session"@)
    } else if phase_requires_session(s.phase) != s.has_session {
        Some("session presence is incompatible with the current phase"@)
    } else if phase_requires_tenant(s.phase) != s.has_tenant {
        Some("tenant selection is incompatible with the current phase"@)
    } else if phase_requires_online(s.phase) && !s.online {
        Some("the current phase requires verified online connectivity"@)
    } else if s.phase is ReadyOffline && s.online {
        Some("offline readiness cannot claim online connectivity"@)
    } else if phase_requires_pending_action(s.phase) != (s.pending_action is Some) {
        Some("pending action presence is incompatible with the current phase"@)
    } else if !pending_action_bound(s) {
        Some("pending action is not bound to current authority"@)
    } else if (s.phase is Failed) != (s.failure is Some) {
        Some("failure details must exist exactly in the failed phase"@)
    } else {
        None
    }
}

impl AppSnapshot {
    pub fn phase(&self) -> (r: AppPhase)
        ensures
            r == self.phase,
    {
        self.phase
    }

    pub fn generation(&self) -> (r: u64)
        ensures
            r == self.generation,
    {
        self.generation
    }

    pub fn authority_epoch(&self) -> (r: u64)
        ensures
            r == self.authority_epoch,
    {
        self.authority_epoch
    }

    pub fn has_session(&self) -> (r: bool)
        ensures
            r == self.has_session,
    {
        self.has_session
    }

    pub fn has_tenant(&self) -> (r: bool)
        ensures
            r == self.has_tenant,
    {
        self.has_tenant
    }

    pub fn online(&self) -> (r: bool)
        ensures
            r == self.online,
    {
        self.online
    }

    pub fn active_operation(&self) -> (r: Option<AppOperation>)
        ensures
            r == self.active_operation,
    {
        self.active_operation
    }

    pub fn active_operation_id(&self) -> (r: Option<u64>)
        ensures
            r == self.active_operation_id,
    {
        self.active_operation_id
    }

    pub fn pending_action(&self) -> (r: Option<&PendingAction>)
        ensures
            r is Some == self.pending_action is Some,
            r matches Some(a) ==> a@ == self.pending_action->0@,
    {
        match &self.pending_action {
            Some(a) => Some(a),
            None => None,
        }
    }

    pub fn failure(&self) -> (r: Option<&str>)
        ensures
            r is Some == self.failure is Some,
            r matches Some(f) ==> f@ == self.failure->0@,
    {
        match &self.failure {
            Some(f) => Some(f.as_str()),
            None => None,
        }
    }

    pub fn capabilities(&self) -> (r: AppCapabilities)
        ensures
            r == capabilities_of(self.phase),
    {
        let p = self.phase;
        AppCapabilities {
            can_launch: p == AppPhase::Cold,
            can_sign_in: p == AppPhase::SignedOut,
            can_select_tenant: p == AppPhase::SelectingTenant,
            can_read_cached_data: match p {
                AppPhase::ReadyOnline | AppPhase::ReadyOffline | AppPhase::ConfirmingAction
                | AppPhase::ExecutingAction | AppPhase::ReconciliationRequired
                | AppPhase::ReconcilingAction => true,
                _ => false,
            },
            can_request_privileged_action: p == AppPhase::ReadyOnline,
            can_confirm_action: p == AppPhase::ConfirmingAction,
            can_cancel_action: p == AppPhase::ConfirmingAction,
            can_recover: p == AppPhase::Failed,
            can_sign_out: match p {
                AppPhase::SelectingTenant | AppPhase::Synchronizing | AppPhase::ReadyOnline
                | AppPhase::ReadyOffline | AppPhase::ConfirmingAction | AppPhase::ExecutingAction
                | AppPhase::ReconciliationRequired | AppPhase::ReconcilingAction
                | AppPhase::Failed => true,
                _ => false,
            },
        }
    }

    /// Runtime invariant checked before and after every transition.
    pub fn validate(&self) -> (r: Result<(), &'static str>)
        ensures
            r is Ok == snapshot_valid(self@),
            r is Ok == snapshot_violation(self@) is None,
            r matches Err(m) ==> snapshot_violation(self@) == Some(m@),
    {
        if self.generation > MAX_PORTABLE_COUNTER {
            return Err("generation is outside the portable domain");
        }
        if self.authority_epoch > MAX_PORTABLE_COUNTER {
            return Err("authority epoch is outside the portable domain");
        }
        let has_complete_operation = self.active_operation.is_some()
            && self.active_operation_id.is_some();
        if self.phase.is_busy() != has_complete_operation {
            return Err("transitional phases require exactly one active operation");
        }
        if self.active_operation.is_some() != self.active_operation_id.is_some() {
            return Err("active operation and id must appear together");
        }
        match self.active_operation_id {
            Some(id) => {
                if id == 0 || id != self.generation {
                    return Err("active operation id must equal the current generation");
                }
            },
            None => {},
        }
        let operation_matches_phase = match self.phase {
            AppPhase::Bootstrapping => self.active_operation == Some(AppOperation::Bootstrap),
            AppPhase::Authenticating => self.active_operation == Some(AppOperation::Authenticate),
            AppPhase::Synchronizing => self.active_operation == Some(AppOperation::Synchronize),
            AppPhase::ExecutingAction => self.active_operation == Some(
                AppOperation::ExecuteAction,
            ),
            AppPhase::ReconcilingAction => self.active_operation == Some(
                AppOperation::ReconcileAction,
            ),
            AppPhase::Recovering => self.active_operation == Some(AppOperation::Recover),
            AppPhase::SigningOut => self.active_operation == Some(AppOperation::SignOut),
            _ => self.active_operation.is_none(),
        };
        if !operation_matches_phase {
            return Err("active operation is incompatible with the current phase");
        }
        if self.has_tenant && !self.has_session {
            return Err("tenant authority requires an authenticated session");
        }
        let requires_session = match self.phase {
            AppPhase::SelectingTenant | AppPhase::Synchronizing | AppPhase::ReadyOnline
            | AppPhase::ReadyOffline | AppPhase::ConfirmingAction | AppPhase::ExecutingAction
            | AppPhase::ReconciliationRequired | AppPhase::ReconcilingAction => true,
            _ => false,
        };
        if requires_session != self.has_session {
            return Err("session presence is incompatible with the current phase");
        }
        let requires_tenant = match self.phase {
            AppPhase::Synchronizing | AppPhase::ReadyOnline | AppPhase::ReadyOffline
            | AppPhase::ConfirmingAction | AppPhase::ExecutingAction
            | AppPhase::ReconciliationRequired | AppPhase::ReconcilingAction => true,
            _ => false,
        };
        if requires_tenant != self.has_tenant {
            return Err("tenant selection is incompatible with the current phase");
        }
        let requires_online = match self.phase {
            AppPhase::Synchronizing | AppPhase::ReadyOnline | AppPhase::ConfirmingAction
            | AppPhase::ExecutingAction | AppPhase::ReconcilingAction => true,
            _ => false,
        };
        if requires_online && !self.online {
            return Err("the current phase requires verified online connectivity");
        }
        if self.phase == AppPhase::ReadyOffline && self.online {
            return Err("offline readiness cannot claim online connectivity");
        }
        let requires_pending_action = match self.phase {
            AppPhase::ConfirmingAction | AppPhase::ExecutingAction
            | AppPhase::ReconciliationRequired | AppPhase::ReconcilingAction => true,
            _ => false,
        };
        if requires_pending_action != self.pending_action.is_some() {
            return Err("pending action presence is incompatible with the current phase");
        }
        match &self.pending_action {
            Some(action) => {
                let id = chars_of(action.id.as_str());
                if id.len() == 0 || utf8_len_exceeds(&id, 128) || action.authority_epoch
                    != self.authority_epoch {
                    return Err("pending action is not bound to current authority");
                }
            },
            None => {},
        }
        if (self.phase == AppPhase::Failed) != self.failure.is_some() {
            return Err("failure details must exist exactly in the failed phase");
        }
        Ok(())
    }

    fn duplicate(&self) -> (r: AppSnapshot)
        ensures
            r@ == self@,
    {
        AppSnapshot {
            phase: self.phase,
            generation: self.generation,
            authority_epoch: self.authority_epoch,
            has_session: self.has_session,
            has_tenant: self.has_tenant,
            online: self.online,
            active_operation: self.active_operation,
            active_operation_id: self.active_operation_id,
            pending_action: duplicate_pending(&self.pending_action),
            failure: match &self.failure {
                Some(f) => Some(f.clone()),
                None => None,
            },
        }
    }
}

impl Default for AppSnapshot {
    fn default() -> (r: AppSnapshot)
        ensures
            r@ == initial_snapshot(),
    {
        AppSnapshot {
            phase: AppPhase::Cold,
            generation: 0,
            authority_epoch: 0,
            has_session: false,
            has_tenant: false,
            online: false,
            active_operation: None,
            active_operation_id: None,
            pending_action: None,
            failure: None,
        }
    }
}


#[derive(Clone, Debug, PartialEq, Eq, Hash)]
pub enum AppEvent {
    LaunchRequested,
    BootstrapSucceeded { operation_id: u64, authenticated: bool, has_tenant: bool, online: bool },
    SignInRequested,
    AuthenticationSucceeded { operation_id: u64, has_tenant: bool, online: bool },
    TenantSelected,
    ConnectivityChanged { online: bool },
    SyncRequested,
    ActionRequested { action_id: String },
    ActionConfirmed,
    ActionCancelled,
    OperationSucceeded { operation_id: u64 },
    OperationFailed { operation_id: u64, reason: String, retryable: bool, ambiguous: bool },
    SignOutRequested,
    SessionRevoked,
    RecoveryRequested,
    RecoverySucceeded { operation_id: u64, authenticated: bool, has_tenant: bool, online: bool },
}

pub enum AppEventView {
    LaunchRequested,
    BootstrapSucceeded { operation_id: u64, authenticated: bool, has_tenant: bool, online: bool },
    SignInRequested,
    AuthenticationSucceeded { operation_id: u64, has_tenant: bool, online: bool },
    TenantSelected,
    ConnectivityChanged { online: bool },
    SyncRequested,
    ActionRequested { action_id: Seq<char> },
    ActionConfirmed,
    ActionCancelled,
    OperationSucceeded { operation_id: u64 },
    OperationFailed { operation_id: u64, reason: Seq<char>, retryable: bool, ambiguous: bool },
    SignOutRequested,
    SessionRevoked,
    RecoveryRequested,
    RecoverySucceeded { operation_id: u64, authenticated: bool, has_tenant: bool, online: bool },
}

impl View for AppEvent {
    type V = AppEventView;

    open spec fn view(&self) -> AppEventView {
        match self {
            AppEvent::LaunchRequested => AppEventView::LaunchRequested,
            AppEvent::BootstrapSucceeded { operation_id, authenticated, has_tenant, online } =>
                AppEventView::BootstrapSucceeded {
                operation_id: *operation_id,
                authenticated: *authenticated,
                has_tenant: *has_tenant,
                online: *online,
            },
            AppEvent::SignInRequested => AppEventView::SignInRequested,
            AppEvent::AuthenticationSucceeded { operation_id, has_tenant, online } =>
                AppEventView::AuthenticationSucceeded {
                operation_id: *operation_id,
                has_tenant: *has_tenant,
                online: *online,
            },
            AppEvent::TenantSelected => AppEventView::TenantSelected,
            AppEvent::ConnectivityChanged { online } => AppEventView::ConnectivityChanged {
                online: *online,
            },
            AppEvent::SyncRequested => AppEventView::SyncRequested,
            AppEvent::ActionRequested { action_id } => AppEventView::ActionRequested {
                action_id: action_id@,
            },
            AppEvent::ActionConfirmed => AppEventView::ActionConfirmed,
            AppEvent::ActionCancelled => AppEventView::ActionCancelled,
            AppEvent::OperationSucceeded { operation_id } => AppEventView::OperationSucceeded {
                operation_id: *operation_id,
            },
            AppEvent::OperationFailed { operation_id, reason, retryable, ambiguous } =>
                AppEventView::OperationFailed {
                operation_id: *operation_id,
                reason: reason@,
                retryable: *retryable,
                ambiguous: *ambiguous,
            },
            AppEvent::SignOutRequested => AppEventView::SignOutRequested,
            AppEvent::SessionRevoked => AppEventView::SessionRevoked,
            AppEvent::RecoveryRequested => AppEventView::RecoveryRequested,
            AppEvent::RecoverySucceeded { operation_id, authenticated, has_tenant, online } =>
                AppEventView::RecoverySucceeded {
                operation_id: *operation_id,
                authenticated: *authenticated,
                has_tenant: *has_tenant,
                online: *online,
            },
        }
    }
}

/// An explicit request for outside work, tagged with the generation of the
/// operation whose completion the lifecycle will accept.
#[derive(Clone, Debug, PartialEq, Eq)]
pub struct AppEffect {
    pub kind: AppEffectKind,
    pub operation: AppOperation,
    pub operation_id: u64,
    pub action_id: Option<String>,
    pub authority_epoch: Option<u64>,
}

pub struct AppEffectView {
    pub kind: AppEffectKind,
    pub operation: AppOperation,
    pub operation_id: u64,
    pub action_id: Option<Seq<char>>,
    pub authority_epoch: Option<u64>,
}

impl View for AppEffect {
    type V = AppEffectView;

    open spec fn view(&self) -> AppEffectView {
        AppEffectView {
            kind: self.kind,
            operation: self.operation,
            operation_id: self.operation_id,
            action_id: opt_string_view(self.action_id),
            authority_epoch: self.authority_epoch,
        }
    }
}

pub open spec fn effect_view(e: Option<AppEffect>) -> Option<AppEffectView> {
    match e {
        Some(x) => Some(x@),
        None => None,
    }
}

#[derive(Clone, Debug, PartialEq, Eq)]
pub struct AppTransition {
    pub before: AppSnapshot,
    pub after: AppSnapshot,
    pub disposition: TransitionDisposition,
    pub reason: String,
    pub effect: Option<AppEffect>,
}

pub struct AppTransitionView {
    pub before: AppSnapshotView,
    pub after: AppSnapshotView,
    pub disposition: TransitionDisposition,
    pub reason: Seq<char>,
    pub effect: Option<AppEffectView>,
}

impl View for AppTransition {
    type V = AppTransitionView;

    open spec fn view(&self) -> AppTransitionView {
        AppTransitionView {
            before: self.before@,
            after: self.after@,
            disposition: self.disposition,
            reason: self.reason@,
            effect: effect_view(self.effect),
        }
    }
}

/* ---------------------------------------------------------------------------
 * The transition relation over views.
 * ------------------------------------------------------------------------- */

/// `s` with the given stable (operation-free) fields; the generation is kept.
pub open spec fn stable_view(
    s: AppSnapshotView,
    phase: AppPhase,
    has_session: bool,
    has_tenant: bool,
    online: bool,
    authority_epoch: u64,
    pending_action: Option<PendingActionView>,
) -> AppSnapshotView {
    AppSnapshotView {
        phase,
        generation: s.generation,
        authority_epoch,
        has_session,
        has_tenant,
        online,
        active_operation: None,
        active_operation_id: None,
        pending_action,
        failure: None,
    }
}

pub open spec fn applied_view(
    before: AppSnapshotView,
    after: AppSnapshotView,
    reason: Seq<char>,
    effect: Option<AppEffectView>,
) -> AppTransitionView {
    AppTransitionView {
        before,
        after,
        disposition: TransitionDisposition::Applied,
        reason,
        effect,
    }
}

pub open spec fn rejected_view(s: AppSnapshotView, reason: Seq<char>) -> AppTransitionView {
    AppTransitionView {
        before: s,
        after: s,
        disposition: TransitionDisposition::Rejected,
        reason,
        effect: None,
    }
}

pub open spec fn stale_view(s: AppSnapshotView, reason: Seq<char>) -> AppTransitionView {
    AppTransitionView {
        before: s,
        after: s,
        disposition: TransitionDisposition::Stale,
        reason,
        effect: None,
    }
}

/// A counter advanced by one, saturating at the portable maximum.
pub open spec fn bumped_counter(x: u64) -> u64 {
    if x < MAX_PORTABLE_COUNTER {
        (x + 1) as u64
    } else {
        MAX_PORTABLE_COUNTER
    }
}

/// A failure text as it is recorded: trimmed, at most 256 characters, never empty.
pub open spec fn controlled_reason_view(reason: Seq<char>) -> Seq<char> {
    let t = trim(reason);
    if t.len() == 0 {
        "unspecified controlled failure"@
    } else if t.len() > 256 {
        t.take(256)
    } else {
        t
    }
}

/// The controlled failed state: no session, tenant, connectivity claim or
/// pending action, with both counters advanced.
pub open spec fn failed_snapshot(s: AppSnapshotView, reason: Seq<char>) -> AppSnapshotView {
    AppSnapshotView {
        phase: AppPhase::Failed,
        generation: bumped_counter(s.generation),
        authority_epoch: bumped_counter(s.authority_epoch),
        has_session: false,
        has_tenant: false,
        online: false,
        active_operation: None,
        active_operation_id: None,
        pending_action: None,
        failure: Some(controlled_reason_view(reason)),
    }
}

pub open spec fn failed_closed_view(s: AppSnapshotView, reason: Seq<char>) -> AppTransitionView {
    AppTransitionView {
        before: s,
        after: failed_snapshot(s, reason),
        disposition: TransitionDisposition::FailedClosed,
        reason: "lifecycle failed closed"@,
        effect: None,
    }
}

pub struct BeginView {
    pub phase: AppPhase,
    pub operation: AppOperation,
    pub effect: AppEffectKind,
    pub has_session: bool,
    pub has_tenant: bool,
    pub online: bool,
    pub pending_action: Option<PendingActionView>,
    pub authority_epoch: u64,
    pub reason: Seq<char>,
}

/// Starts an operation under the next generation and emits its effect.
pub open spec fn begin_view(s: AppSnapshotView, b: BeginView) -> AppTransitionView {
    if s.generation >= MAX_PORTABLE_COUNTER {
        failed_closed_view(s, "operation generation exhausted"@)
    } else {
        let id = (s.generation + 1) as u64;
        applied_view(
            s,
            AppSnapshotView {
                phase: b.phase,
                generation: id,
                authority_epoch: b.authority_epoch,
                has_session: b.has_session,
                has_tenant: b.has_tenant,
                online: b.online,
                active_operation: Some(b.operation),
                active_operation_id: Some(id),
                pending_action: b.pending_action,
                failure: None,
            },
            b.reason,
            Some(
                AppEffectView {
                    kind: b.effect,
                    operation: b.operation,
                    operation_id: id,
                    action_id: match b.pending_action {
                        Some(a) => Some(a.id),
                        None => None,
                    },
                    authority_epoch: match b.pending_action {
                        Some(a) => Some(a.authority_epoch),
                        None => None,
                    },
                },
            ),
        )
    }
}

/// Moves to a stable phase under a new generation, fencing any outstanding completion.
pub open spec fn fence_view(
    s: AppSnapshotView,
    phase: AppPhase,
    has_session: bool,
    has_tenant: bool,
    online: bool,
    pending_action: Option<PendingActionView>,
    reason: Seq<char>,
) -> AppTransitionView {
    if s.generation >= MAX_PORTABLE_COUNTER {
        failed_closed_view(s, "operation generation exhausted"@)
    } else {
        applied_view(
            s,
            AppSnapshotView {
                phase,
                generation: (s.generation + 1) as u64,
                authority_epoch: s.authority_epoch,
                has_session,
                has_tenant,
                online,
                active_operation: None,
                active_operation_id: None,
                pending_action,
                failure: None,
            },
            reason,
            None,
        )
    }
}

pub open spec fn with_before_view(t: AppTransitionView, before: AppSnapshotView) -> AppTransitionView {
    AppTransitionView { before, ..t }
}

pub open spec fn next_authority_view(s: AppSnapshotView) -> Option<u64> {
    if s.authority_epoch < MAX_PORTABLE_COUNTER {
        Some((s.authority_epoch + 1) as u64)
    } else {
        None
    }
}

pub open spec fn operation_matches(s: AppSnapshotView, op: AppOperation, id: u64) -> bool {
    s.active_operation == Some(op) && s.active_operation_id == Some(id)
}

pub open spec fn launch_view(s: AppSnapshotView) -> AppTransitionView {
    if s.phase != AppPhase::Cold {
        rejected_view(s, "launch is available only from cold state"@)
    } else {
        begin_view(
            s,
            BeginView {
                phase: AppPhase::Bootstrapping,
                operation: AppOperation::Bootstrap,
                effect: AppEffectKind::LoadSession,
                has_session: false,
                has_tenant: false,
                online: false,
                pending_action: None,
                authority_epoch: s.authority_epoch,
                reason: "session bootstrap started"@,
            },
        )
    }
}

pub open spec fn sign_in_view(s: AppSnapshotView) -> AppTransitionView {
    if s.phase != AppPhase::SignedOut {
        rejected_view(s, "sign-in requires signed-out state"@)
    } else {
        begin_view(
            s,
            BeginView {
                phase: AppPhase::Authenticating,
                operation: AppOperation::Authenticate,
                effect: AppEffectKind::Authenticate,
                has_session: false,
                has_tenant: false,
                online: s.online,
                pending_action: None,
                authority_epoch: s.authority_epoch,
                reason: "authentication started"@,
            },
        )
    }
}

pub open spec fn sync_begin(s: AppSnapshotView, authority_epoch: u64, reason: Seq<char>) -> BeginView {
    BeginView {
        phase: AppPhase::Synchronizing,
        operation: AppOperation::Synchronize,
        effect: AppEffectKind::Synchronize,
        has_session: true,
        has_tenant: true,
        online: true,
        pending_action: None,
        authority_epoch,
        reason,
    }
}

pub open spec fn tenant_selected_view(s: AppSnapshotView) -> AppTransitionView {
    if s.phase != AppPhase::SelectingTenant {
        rejected_view(s, "tenant selection is not currently available"@)
    } else if next_authority_view(s) is None {
        failed_closed_view(s, "authority epoch exhausted"@)
    } else {
        let a = next_authority_view(s)->0;
        let selected = stable_view(
            s,
            if s.online { AppPhase::ReadyOnline } else { AppPhase::ReadyOffline },
            true,
            true,
            s.online,
            a,
            None,
        );
        if !s.online {
            applied_view(s, selected, "tenant selected for offline mode"@, None)
        } else {
            with_before_view(
                begin_view(selected, sync_begin(s, a, "tenant selected; synchronization started"@)),
                s,
            )
        }
    }
}

pub open spec fn begin_sync_view(s: AppSnapshotView, reason: Seq<char>) -> AppTransitionView {
    begin_view(s, sync_begin(s, s.authority_epoch, reason))
}

pub open spec fn begin_reconciliation_view(s: AppSnapshotView, reason: Seq<char>) -> AppTransitionView {
    begin_view(
        s,
        BeginView {
            phase: AppPhase::ReconcilingAction,
            operation: AppOperation::ReconcileAction,
            effect: AppEffectKind::ReconcileAction,
            has_session: true,
            has_tenant: true,
            online: true,
            pending_action: s.pending_action,
            authority_epoch: s.authority_epoch,
            reason,
        },
    )
}

pub open spec fn connectivity_changed_view(s: AppSnapshotView, online: bool) -> AppTransitionView {
    if s.online == online {
        rejected_view(s, "connectivity state is unchanged"@)
    } else if online {
        match s.phase {
            AppPhase::SignedOut | AppPhase::SelectingTenant => applied_view(
                s,
                stable_view(s, s.phase, s.has_session, s.has_tenant, true, s.authority_epoch, None),
                "connectivity restored"@,
                None,
            ),
            AppPhase::ReadyOffline => begin_sync_view(
                s,
                "connectivity restored; synchronization started"@,
            ),
            AppPhase::ReconciliationRequired => begin_reconciliation_view(
                s,
                "connectivity restored; action reconciliation started"@,
            ),
            _ => rejected_view(s, "connectivity restoration is not applicable in this phase"@),
        }
    } else {
        match s.phase {
            AppPhase::SignedOut | AppPhase::SelectingTenant => applied_view(
                s,
                stable_view(s, s.phase, s.has_session, s.has_tenant, false, s.authority_epoch, None),
                "connectivity lost"@,
                None,
            ),
            AppPhase::ReadyOnline => applied_view(
                s,
                stable_view(s, AppPhase::ReadyOffline, true, true, false, s.authority_epoch, None),
                "entered controlled read-only offline mode"@,
                None,
            ),
            AppPhase::Synchronizing => fence_view(
                s,
                AppPhase::ReadyOffline,
                true,
                true,
                false,
                None,
                "sync fenced after connectivity loss"@,
            ),
            AppPhase::ConfirmingAction => applied_view(
                s,
                stable_view(s, AppPhase::ReadyOffline, true, true, false, s.authority_epoch, None),
                "unexecuted action cancelled before entering offline mode"@,
                None,
            ),
            AppPhase::ExecutingAction | AppPhase::ReconcilingAction => fence_view(
                s,
                AppPhase::ReconciliationRequired,
                true,
                true,
                false,
                s.pending_action,
                "ambiguous action fenced pending online reconciliation"@,
            ),
            AppPhase::Authenticating => fence_view(
                s,
                AppPhase::SignedOut,
                false,
                false,
                false,
                None,
                "authentication fenced after connectivity loss"@,
            ),
            _ => rejected_view(s, "connectivity loss is not applicable in this phase"@),
        }
    }
}

pub open spec fn sync_requested_view(s: AppSnapshotView) -> AppTransitionView {
    if s.phase != AppPhase::ReadyOnline {
        rejected_view(s, "manual sync requires online readiness"@)
    } else {
        begin_sync_view(s, "manual synchronization started"@)
    }
}

pub open spec fn action_requested_view(s: AppSnapshotView, raw_id: Seq<char>) -> AppTransitionView {
    let id = trim(raw_id);
    if s.phase != AppPhase::ReadyOnline {
        rejected_view(s, "privileged actions require online readiness"@)
    } else if id.len() == 0 || utf8_len(id) > 128 {
        rejected_view(s, "action id must contain 1 to 128 bytes"@)
    } else {
        applied_view(
            s,
            stable_view(
                s,
                AppPhase::ConfirmingAction,
                true,
                true,
                true,
                s.authority_epoch,
                Some(PendingActionView { id, authority_epoch: s.authority_epoch }),
            ),
            "privileged action awaits explicit confirmation"@,
            None,
        )
    }
}

pub open spec fn action_confirmed_view(s: AppSnapshotView) -> AppTransitionView {
    if s.phase != AppPhase::ConfirmingAction || s.pending_action is None || !s.online {
        rejected_view(s, "confirmation requires a bound online pending action"@)
    } else {
        begin_view(
            s,
            BeginView {
                phase: AppPhase::ExecutingAction,
                operation: AppOperation::ExecuteAction,
                effect: AppEffectKind::ExecuteAction,
                has_session: true,
                has_tenant: true,
                online: true,
                pending_action: s.pending_action,
                authority_epoch: s.authority_epoch,
                reason: "confirmed privileged action started"@,
            },
        )
    }
}

pub open spec fn action_cancelled_view(s: AppSnapshotView) -> AppTransitionView {
    if s.phase != AppPhase::ConfirmingAction {
        rejected_view(s, "no action is awaiting confirmation"@)
    } else {
        applied_view(
            s,
            stable_view(s, AppPhase::ReadyOnline, true, true, true, s.authority_epoch, None),
            "pending action cancelled without execution"@,
            None,
        )
    }
}

pub open spec fn operation_succeeded_view(s: AppSnapshotView, id: u64) -> AppTransitionView {
    if s.active_operation is None || s.active_operation_id != Some(id) {
        stale_view(s, "stale operation success ignored"@)
    } else {
        match s.active_operation->0 {
            AppOperation::Synchronize => applied_view(
                s,
                stable_view(s, AppPhase::ReadyOnline, true, true, true, s.authority_epoch, None),
                "synchronization completed"@,
                None,
            ),
            AppOperation::ExecuteAction => applied_view(
                s,
                stable_view(s, AppPhase::ReadyOnline, true, true, true, s.authority_epoch, None),
                "privileged action completed"@,
                None,
            ),
            AppOperation::ReconcileAction => applied_view(
                s,
                stable_view(s, AppPhase::ReadyOnline, true, true, true, s.authority_epoch, None),
                "ambiguous action reconciled"@,
                None,
            ),
            AppOperation::SignOut => applied_view(
                s,
                stable_view(s, AppPhase::SignedOut, false, false, s.online, s.authority_epoch, None),
                "local and remote sign-out completed"@,
                None,
            ),
            _ => rejected_view(s, "typed completion is required for this operation"@),
        }
    }
}

pub open spec fn operation_failed_view(
    s: AppSnapshotView,
    id: u64,
    reason: Seq<char>,
    retryable: bool,
    ambiguous: bool,
) -> AppTransitionView {
    let controlled = controlled_reason_view(reason);
    if s.active_operation is None || s.active_operation_id != Some(id) {
        stale_view(s, "stale operation failure ignored"@)
    } else {
        match s.active_operation->0 {
            AppOperation::Authenticate => applied_view(
                s,
                stable_view(s, AppPhase::SignedOut, false, false, s.online, s.authority_epoch, None),
                "authentication failed without granting authority"@,
                None,
            ),
            AppOperation::Synchronize => if retryable {
                applied_view(
                    s,
                    stable_view(s, AppPhase::ReadyOffline, true, true, false, s.authority_epoch, None),
                    "sync failure entered read-only offline mode: "@ + controlled,
                    None,
                )
            } else {
                failed_closed_view(s, controlled)
            },
            AppOperation::ExecuteAction => if ambiguous {
                if s.online {
                    begin_reconciliation_view(s, "ambiguous action result requires reconciliation"@)
                } else {
                    fence_view(
                        s,
                        AppPhase::ReconciliationRequired,
                        true,
                        true,
                        false,
                        s.pending_action,
                        "ambiguous action awaits online reconciliation"@,
                    )
                }
            } else {
                applied_view(
                    s,
                    stable_view(
                        s,
                        if s.online { AppPhase::ReadyOnline } else { AppPhase::ReadyOffline },
                        true,
                        true,
                        s.online,
                        s.authority_epoch,
                        None,
                    ),
                    "action failed definitively without committing: "@ + controlled,
                    None,
                )
            },
            AppOperation::SignOut => applied_view(
                s,
                stable_view(s, AppPhase::SignedOut, false, false, s.online, s.authority_epoch, None),
                "local authority remains revoked despite cleanup failure"@,
                None,
            ),
            _ => failed_closed_view(s, controlled),
        }
    }
}

pub open spec fn sign_out_view(s: AppSnapshotView, reason: Seq<char>) -> AppTransitionView {
    if s.phase is Cold || s.phase is SignedOut || s.phase is SigningOut {
        rejected_view(s, "sign-out is not applicable in this phase"@)
    } else if next_authority_view(s) is None {
        failed_closed_view(s, "authority epoch exhausted"@)
    } else {
        begin_view(
            s,
            BeginView {
                phase: AppPhase::SigningOut,
                operation: AppOperation::SignOut,
                effect: AppEffectKind::ClearSession,
                has_session: false,
                has_tenant: false,
                online: s.online,
                pending_action: None,
                authority_epoch: next_authority_view(s)->0,
                reason: reason + "; local authority revoked before cleanup"@,
            },
        )
    }
}

pub open spec fn recovery_requested_view(s: AppSnapshotView) -> AppTransitionView {
    if s.phase != AppPhase::Failed {
        rejected_view(s, "recovery requires controlled failed state"@)
    } else {
        begin_view(
            s,
            BeginView {
                phase: AppPhase::Recovering,
                operation: AppOperation::Recover,
                effect: AppEffectKind::RecoverSession,
                has_session: false,
                has_tenant: false,
                online: false,
                pending_action: None,
                authority_epoch: s.authority_epoch,
                reason: "explicit recovery started"@,
            },
        )
    }
}

pub open spec fn establish_authority_view(
    s: AppSnapshotView,
    authenticated: bool,
    has_tenant: bool,
    online: bool,
    reason: Seq<char>,
) -> AppTransitionView {
    if !authenticated {
        applied_view(
            s,
            stable_view(s, AppPhase::SignedOut, false, false, online, s.authority_epoch, None),
            reason + " without an authenticated session"@,
            None,
        )
    } else if next_authority_view(s) is None {
        failed_closed_view(s, "authority epoch exhausted"@)
    } else {
        let a = next_authority_view(s)->0;
        if !has_tenant {
            applied_view(
                s,
                stable_view(s, AppPhase::SelectingTenant, true, false, online, a, None),
                reason + "; tenant selection required"@,
                None,
            )
        } else {
            let authorized = stable_view(
                s,
                if online { AppPhase::ReadyOnline } else { AppPhase::ReadyOffline },
                true,
                true,
                online,
                a,
                None,
            );
            if !online {
                applied_view(s, authorized, reason + " into controlled read-only offline mode"@, None)
            } else {
                with_before_view(
                    begin_view(authorized, sync_begin(s, a, reason + "; synchronization started"@)),
                    s,
                )
            }
        }
    }
}

/// One step of the lifecycle on a snapshot that satisfies the invariant.
pub open spec fn step_view(s: AppSnapshotView, e: AppEventView) -> AppTransitionView {
    match e {
        AppEventView::LaunchRequested => launch_view(s),
        AppEventView::BootstrapSucceeded { operation_id, authenticated, has_tenant, online } =>
            if !operation_matches(s, AppOperation::Bootstrap, operation_id) {
            stale_view(s, "stale bootstrap completion ignored"@)
        } else {
            establish_authority_view(s, authenticated, has_tenant, online, "session bootstrap completed"@)
        },
        AppEventView::SignInRequested => sign_in_view(s),
        AppEventView::AuthenticationSucceeded { operation_id, has_tenant, online } =>
            if !operation_matches(s, AppOperation::Authenticate, operation_id) {
            stale_view(s, "stale authentication completion ignored"@)
        } else {
            establish_authority_view(s, true, has_tenant, online, "authentication completed"@)
        },
        AppEventView::TenantSelected => tenant_selected_view(s),
        AppEventView::ConnectivityChanged { online } => connectivity_changed_view(s, online),
        AppEventView::SyncRequested => sync_requested_view(s),
        AppEventView::ActionRequested { action_id } => action_requested_view(s, action_id),
        AppEventView::ActionConfirmed => action_confirmed_view(s),
        AppEventView::ActionCancelled => action_cancelled_view(s),
        AppEventView::OperationSucceeded { operation_id } => operation_succeeded_view(s, operation_id),
        AppEventView::OperationFailed { operation_id, reason, retryable, ambiguous } =>
            operation_failed_view(s, operation_id, reason, retryable, ambiguous),
        AppEventView::SignOutRequested => sign_out_view(s, "sign-out requested"@),
        AppEventView::SessionRevoked => sign_out_view(s, "session revoked"@),
        AppEventView::RecoveryRequested => recovery_requested_view(s),
        AppEventView::RecoverySucceeded { operation_id, authenticated, has_tenant, online } =>
            if !operation_matches(s, AppOperation::Recover, operation_id) {
            stale_view(s, "stale recovery completion ignored"@)
        } else {
            establish_authority_view(s, authenticated, has_tenant, online, "explicit recovery completed"@)
        },
    }
}

/// The total transition relation: invalid snapshots, and any step whose result
/// would break the invariant, fail closed.
pub open spec fn transition_view(s: AppSnapshotView, e: AppEventView) -> AppTransitionView {
    if !snapshot_valid(s) {
        failed_closed_view(s, "invalid lifecycle snapshot: "@ + snapshot_violation(s)->0)
    } else {
        let r = step_view(s, e);
        if !snapshot_valid(r.after) {
            failed_closed_view(
                s,
                "transition produced invalid lifecycle snapshot: "@ + snapshot_violation(r.after)->0,
            )
        } else {
            r
        }
    }
}


/* ---------------------------------------------------------------------------
 * The executable machine.
 * ------------------------------------------------------------------------- */

struct Begin {
    phase: AppPhase,
    operation: AppOperation,
    effect: AppEffectKind,
    has_session: bool,
    has_tenant: bool,
    online: bool,
    pending_action: Option<PendingAction>,
    authority_epoch: u64,
    reason: String,
}

impl View for Begin {
    type V = BeginView;

    closed spec fn view(&self) -> BeginView {
        BeginView {
            phase: self.phase,
            operation: self.operation,
            effect: self.effect,
            has_session: self.has_session,
            has_tenant: self.has_tenant,
            online: self.online,
            pending_action: pending_view(self.pending_action),
            authority_epoch: self.authority_epoch,
            reason: self.reason@,
        }
    }
}

impl AppSnapshot {
    fn stable(
        &self,
        phase: AppPhase,
        has_session: bool,
        has_tenant: bool,
        online: bool,
        authority_epoch: u64,
        pending_action: Option<PendingAction>,
    ) -> (r: AppSnapshot)
        ensures
            r@ == stable_view(
                self@,
                phase,
                has_session,
                has_tenant,
                online,
                authority_epoch,
                pending_view(pending_action),
            ),
    {
        AppSnapshot {
            phase,
            generation: self.generation,
            authority_epoch,
            has_session,
            has_tenant,
            online,
            active_operation: None,
            active_operation_id: None,
            pending_action,
            failure: None,
        }
    }
}

impl AppTransition {
    fn with_before(self, before: &AppSnapshot) -> (r: AppTransition)
        ensures
            r@ == with_before_view(self@, before@),
    {
        AppTransition { before: before.duplicate(), ..self }
    }
}

/// The lifecycle state machine; its view is the current snapshot.
#[derive(Clone, Debug)]
pub struct AppLifecycleMachine {
    snapshot: AppSnapshot,
}

impl View for AppLifecycleMachine {
    type V = AppSnapshotView;

    closed spec fn view(&self) -> AppSnapshotView {
        self.snapshot@
    }
}

impl Default for AppLifecycleMachine {
    fn default() -> (r: AppLifecycleMachine)
        ensures
            r@ == initial_snapshot(),
    {
        AppLifecycleMachine { snapshot: AppSnapshot::default() }
    }
}

impl AppLifecycleMachine {
    pub fn snapshot(&self) -> (r: &AppSnapshot)
        ensures
            r@ == self@,
    {
        &self.snapshot
    }

    /// Applies `event` to the current snapshot and keeps the result.
    pub fn dispatch(&mut self, event: &AppEvent) -> (r: AppTransition)
        ensures
            r@ == transition_view(old(self)@, event@),
            final(self)@ == r@.after,
    {
        let transition = Self::transition(&self.snapshot, event);
        self.snapshot = transition.after.duplicate();
        transition
    }

    /// Pure, total transition relation for every snapshot and event value.
    pub fn transition(current: &AppSnapshot, event: &AppEvent) -> (r: AppTransition)
        ensures
            r@ == transition_view(current@, event@),
    {
        match current.validate() {
            Err(violation) => {
                let reason = concat_str("invalid lifecycle snapshot: ", violation);
                return Self::failed_closed(current, reason.as_str());
            },
            Ok(()) => {},
        }
        let result = Self::step(current, event);
        match result.after.validate() {
            Err(violation) => {
                let reason = concat_str("transition produced invalid lifecycle snapshot: ", violation);
                Self::failed_closed(current, reason.as_str())
            },
            Ok(()) => result,
        }
    }

    fn step(current: &AppSnapshot, event: &AppEvent) -> (r: AppTransition)
        ensures
            r@ == step_view(current@, event@),
    {
        match event {
            AppEvent::LaunchRequested => Self::launch(current),
            AppEvent::BootstrapSucceeded { operation_id, authenticated, has_tenant, online } => {
                if !Self::matches(current, AppOperation::Bootstrap, *operation_id) {
                    Self::stale(current, "stale bootstrap completion ignored")
                } else {
                    Self::establish_authority(
                        current,
                        *authenticated,
                        *has_tenant,
                        *online,
                        "session bootstrap completed",
                    )
                }
            },
            AppEvent::SignInRequested => Self::sign_in(current),
            AppEvent::AuthenticationSucceeded { operation_id, has_tenant, online } => {
                if !Self::matches(current, AppOperation::Authenticate, *operation_id) {
                    Self::stale(current, "stale authentication completion ignored")
                } else {
                    Self::establish_authority(
                        current,
                        true,
                        *has_tenant,
                        *online,
                        "authentication completed",
                    )
                }
            },
            AppEvent::TenantSelected => Self::tenant_selected(current),
            AppEvent::ConnectivityChanged { online } => Self::connectivity_changed(
                current,
                *online,
            ),
            AppEvent::SyncRequested => Self::sync_requested(current),
            AppEvent::ActionRequested { action_id } => Self::action_requested(
                current,
                action_id.as_str(),
            ),
            AppEvent::ActionConfirmed => Self::action_confirmed(current),
            AppEvent::ActionCancelled => Self::action_cancelled(current),
            AppEvent::OperationSucceeded { operation_id } => Self::operation_succeeded(
                current,
                *operation_id,
            ),
            AppEvent::OperationFailed { operation_id, reason, retryable, ambiguous } =>
                Self::operation_failed(
                current,
                *operation_id,
                reason.as_str(),
                *retryable,
                *ambiguous,
            ),
            AppEvent::SignOutRequested => Self::sign_out(current, "sign-out requested"),
            AppEvent::SessionRevoked => Self::sign_out(current, "session revoked"),
            AppEvent::RecoveryRequested => Self::recovery_requested(current),
            AppEvent::RecoverySucceeded { operation_id, authenticated, has_tenant, online } => {
                if !Self::matches(current, AppOperation::Recover, *operation_id) {
                    Self::stale(current, "stale recovery completion ignored")
                } else {
                    Self::establish_authority(
                        current,
                        *authenticated,
                        *has_tenant,
                        *online,
                        "explicit recovery completed",
                    )
                }
            },
        }
    }

    fn launch(current: &AppSnapshot) -> (r: AppTransition)
        ensures
            r@ == launch_view(current@),
    {
        if current.phase != AppPhase::Cold {
            return Self::rejected(current, "launch is available only from cold state");
        }
        Self::begin(
            current,
            Begin {
                phase: AppPhase::Bootstrapping,
                operation: AppOperation::Bootstrap,
                effect: AppEffectKind::LoadSession,
                has_session: false,
                has_tenant: false,
                online: false,
                pending_action: None,
                authority_epoch: current.authority_epoch,
                reason: "session bootstrap started".to_owned(),
            },
        )
    }

    fn sign_in(current: &AppSnapshot) -> (r: AppTransition)
        ensures
            r@ == sign_in_view(current@),
    {
        if current.phase != AppPhase::SignedOut {
            return Self::rejected(current, "sign-in requires signed-out state");
        }
        Self::begin(
            current,
            Begin {
                phase: AppPhase::Authenticating,
                operation: AppOperation::Authenticate,
                effect: AppEffectKind::Authenticate,
                has_session: false,
                has_tenant: false,
                online: current.online,
                pending_action: None,
                authority_epoch: current.authority_epoch,
                reason: "authentication started".to_owned(),
            },
        )
    }

    fn tenant_selected(current: &AppSnapshot) -> (r: AppTransition)
        ensures
            r@ == tenant_selected_view(current@),
    {
        if current.phase != AppPhase::SelectingTenant {
            return Self::rejected(current, "tenant selection is not currently available");
        }
        let authority_epoch = match Self::next_authority(current) {
            Some(a) => a,
            None => {
                return Self::failed_closed(current, "authority epoch exhausted");
            },
        };
        let selected = current.stable(
            if current.online {
                AppPhase::ReadyOnline
            } else {
                AppPhase::ReadyOffline
            },
            true,
            true,
            current.online,
            authority_epoch,
            None,
        );
        if !current.online {
            return Self::applied(current, selected, "tenant selected for offline mode", None);
        }
        Self::begin(
            &selected,
            Begin {
                phase: AppPhase::Synchronizing,
                operation: AppOperation::Synchronize,
                effect: AppEffectKind::Synchronize,
                has_session: true,
                has_tenant: true,
                online: true,
                pending_action: None,
                authority_epoch,
                reason: "tenant selected; synchronization started".to_owned(),
            },
        ).with_before(current)
    }

    fn connectivity_changed(current: &AppSnapshot, online: bool) -> (r: AppTransition)
        ensures
            r@ == connectivity_changed_view(current@, online),
    {
        if current.online == online {
            return Self::rejected(current, "connectivity state is unchanged");
        }
        if online {
            return match current.phase {
                AppPhase::SignedOut | AppPhase::SelectingTenant => Self::applied(
                    current,
                    current.stable(
                        current.phase,
                        current.has_session,
                        current.has_tenant,
                        true,
                        current.authority_epoch,
                        None,
                    ),
                    "connectivity restored",
                    None,
                ),
                AppPhase::ReadyOffline => Self::begin_sync(
                    current,
                    "connectivity restored; synchronization started",
                ),
                AppPhase::ReconciliationRequired => Self::begin_reconciliation(
                    current,
                    "connectivity restored; action reconciliation started",
                ),
                _ => Self::rejected(
                    current,
                    "connectivity restoration is not applicable in this phase",
                ),
            };
        }
        match current.phase {
            AppPhase::SignedOut | AppPhase::SelectingTenant => Self::applied(
                current,
                current.stable(
                    current.phase,
                    current.has_session,
                    current.has_tenant,
                    false,
                    current.authority_epoch,
                    None,
                ),
                "connectivity lost",
                None,
            ),
            AppPhase::ReadyOnline => Self::applied(
                current,
                current.stable(
                    AppPhase::ReadyOffline,
                    true,
                    true,
                    false,
                    current.authority_epoch,
                    None,
                ),
                "entered controlled read-only offline mode",
                None,
            ),
            AppPhase::Synchronizing => Self::fence_to_stable(
                current,
                AppPhase::ReadyOffline,
                true,
                true,
                false,
                None,
                "sync fenced after connectivity loss",
            ),
            AppPhase::ConfirmingAction => Self::applied(
                current,
                current.stable(
                    AppPhase::ReadyOffline,
                    true,
                    true,
                    false,
                    current.authority_epoch,
                    None,
                ),
                "unexecuted action cancelled before entering offline mode",
                None,
            ),
            AppPhase::ExecutingAction | AppPhase::ReconcilingAction => Self::fence_to_stable(
                current,
                AppPhase::ReconciliationRequired,
                true,
                true,
                false,
                duplicate_pending(&current.pending_action),
                "ambiguous action fenced pending online reconciliation",
            ),
            AppPhase::Authenticating => Self::fence_to_stable(
                current,
                AppPhase::SignedOut,
                false,
                false,
                false,
                None,
                "authentication fenced after connectivity loss",
            ),
            _ => Self::rejected(current, "connectivity loss is not applicable in this phase"),
        }
    }

    fn sync_requested(current: &AppSnapshot) -> (r: AppTransition)
        ensures
            r@ == sync_requested_view(current@),
    {
        if current.phase != AppPhase::ReadyOnline {
            return Self::rejected(current, "manual sync requires online readiness");
        }
        Self::begin_sync(current, "manual synchronization started")
    }

    fn action_requested(current: &AppSnapshot, action_id: &str) -> (r: AppTransition)
        ensures
            r@ == action_requested_view(current@, action_id@),
    {
        let action_id = trimmed(action_id);
        if current.phase != AppPhase::ReadyOnline {
            return Self::rejected(current, "privileged actions require online readiness");
        }
        let id_chars = chars_of(action_id.as_str());
        if id_chars.len() == 0 || utf8_len_exceeds(&id_chars, 128) {
            return Self::rejected(current, "action id must contain 1 to 128 bytes");
        }
        Self::applied(
            current,
            current.stable(
                AppPhase::ConfirmingAction,
                true,
                true,
                true,
                current.authority_epoch,
                Some(PendingAction { id: action_id, authority_epoch: current.authority_epoch }),
            ),
            "privileged action awaits explicit confirmation",
            None,
        )
    }

    fn action_confirmed(current: &AppSnapshot) -> (r: AppTransition)
        ensures
            r@ == action_confirmed_view(current@),
    {
        if current.phase != AppPhase::ConfirmingAction || current.pending_action.is_none()
            || !current.online {
            return Self::rejected(current, "confirmation requires a bound online pending action");
        }
        Self::begin(
            current,
            Begin {
                phase: AppPhase::ExecutingAction,
                operation: AppOperation::ExecuteAction,
                effect: AppEffectKind::ExecuteAction,
                has_session: true,
                has_tenant: true,
                online: true,
                pending_action: duplicate_pending(&current.pending_action),
                authority_epoch: current.authority_epoch,
                reason: "confirmed privileged action started".to_owned(),
            },
        )
    }

    fn action_cancelled(current: &AppSnapshot) -> (r: AppTransition)
        ensures
            r@ == action_cancelled_view(current@),
    {
        if current.phase != AppPhase::ConfirmingAction {
            return Self::rejected(current, "no action is awaiting confirmation");
        }
        Self::applied(
            current,
            current.stable(AppPhase::ReadyOnline, true, true, true, current.authority_epoch, None),
            "pending action cancelled without execution",
            None,
        )
    }

    fn operation_succeeded(current: &AppSnapshot, operation_id: u64) -> (r: AppTransition)
        ensures
            r@ == operation_succeeded_view(current@, operation_id),
    {
        let operation = match current.active_operation {
            Some(op) => op,
            None => {
                return Self::stale(current, "stale operation success ignored");
            },
        };
        if current.active_operation_id != Some(operation_id) {
            return Self::stale(current, "stale operation success ignored");
        }
        match operation {
            AppOperation::Synchronize => Self::applied(
                current,
                current.stable(AppPhase::ReadyOnline, true, true, true, current.authority_epoch, None),
                "synchronization completed",
                None,
            ),
            AppOperation::ExecuteAction => Self::applied(
                current,
                current.stable(AppPhase::ReadyOnline, true, true, true, current.authority_epoch, None),
                "privileged action completed",
                None,
            ),
            AppOperation::ReconcileAction => Self::applied(
                current,
                current.stable(AppPhase::ReadyOnline, true, true, true, current.authority_epoch, None),
                "ambiguous action reconciled",
                None,
            ),
            AppOperation::SignOut => Self::applied(
                current,
                current.stable(
                    AppPhase::SignedOut,
                    false,
                    false,
                    current.online,
                    current.authority_epoch,
                    None,
                ),
                "local and remote sign-out completed",
                None,
            ),
            AppOperation::Bootstrap | AppOperation::Authenticate | AppOperation::Recover => {
                Self::rejected(current, "typed completion is required for this operation")
            },
        }
    }

    fn operation_failed(
        current: &AppSnapshot,
        operation_id: u64,
        reason: &str,
        retryable: bool,
        ambiguous: bool,
    ) -> (r: AppTransition)
        ensures
            r@ == operation_failed_view(current@, operation_id, reason@, retryable, ambiguous),
    {
        let operation = match current.active_operation {
            Some(op) => op,
            None => {
                return Self::stale(current, "stale operation failure ignored");
            },
        };
        if current.active_operation_id != Some(operation_id) {
            return Self::stale(current, "stale operation failure ignored");
        }
        let controlled = Self::controlled_reason(reason);
        match operation {
            AppOperation::Authenticate => Self::applied(
                current,
                current.stable(
                    AppPhase::SignedOut,
                    false,
                    false,
                    current.online,
                    current.authority_epoch,
                    None,
                ),
                "authentication failed without granting authority",
                None,
            ),
            AppOperation::Synchronize if retryable => {
                let text = concat_str(
                    "sync failure entered read-only offline mode: ",
                    controlled.as_str(),
                );
                Self::applied(
                    current,
                    current.stable(
                        AppPhase::ReadyOffline,
                        true,
                        true,
                        false,
                        current.authority_epoch,
                        None,
                    ),
                    text.as_str(),
                    None,
                )
            },
            AppOperation::ExecuteAction if ambiguous => {
                if current.online {
                    Self::begin_reconciliation(
                        current,
                        "ambiguous action result requires reconciliation",
                    )
                } else {
                    Self::fence_to_stable(
                        current,
                        AppPhase::ReconciliationRequired,
                        true,
                        true,
                        false,
                        duplicate_pending(&current.pending_action),
                        "ambiguous action awaits online reconciliation",
                    )
                }
            },
            AppOperation::ExecuteAction => {
                let text = concat_str(
                    "action failed definitively without committing: ",
                    controlled.as_str(),
                );
                Self::applied(
                    current,
                    current.stable(
                        if current.online {
                            AppPhase::ReadyOnline
                        } else {
                            AppPhase::ReadyOffline
                        },
                        true,
                        true,
                        current.online,
                        current.authority_epoch,
                        None,
                    ),
                    text.as_str(),
                    None,
                )
            },
            AppOperation::SignOut => Self::applied(
                current,
                current.stable(
                    AppPhase::SignedOut,
                    false,
                    false,
                    current.online,
                    current.authority_epoch,
                    None,
                ),
                "local authority remains revoked despite cleanup failure",
                None,
            ),
            AppOperation::Bootstrap | AppOperation::Synchronize | AppOperation::ReconcileAction
            | AppOperation::Recover => Self::failed_closed(current, controlled.as_str()),
        }
    }

    fn sign_out(current: &AppSnapshot, reason: &str) -> (r: AppTransition)
        ensures
            r@ == sign_out_view(current@, reason@),
    {
        match current.phase {
            AppPhase::Cold | AppPhase::SignedOut | AppPhase::SigningOut => {
                return Self::rejected(current, "sign-out is not applicable in this phase");
            },
            _ => {},
        }
        let authority_epoch = match Self::next_authority(current) {
            Some(a) => a,
            None => {
                return Self::failed_closed(current, "authority epoch exhausted");
            },
        };
        Self::begin(
            current,
            Begin {
                phase: AppPhase::SigningOut,
                operation: AppOperation::SignOut,
                effect: AppEffectKind::ClearSession,
                has_session: false,
                has_tenant: false,
                online: current.online,
                pending_action: None,
                authority_epoch,
                reason: concat_str(reason, "; local authority revoked before cleanup"),
            },
        )
    }

    fn recovery_requested(current: &AppSnapshot) -> (r: AppTransition)
        ensures
            r@ == recovery_requested_view(current@),
    {
        if current.phase != AppPhase::Failed {
            return Self::rejected(current, "recovery requires controlled failed state");
        }
        Self::begin(
            current,
            Begin {
                phase: AppPhase::Recovering,
                operation: AppOperation::Recover,
                effect: AppEffectKind::RecoverSession,
                has_session: false,
                has_tenant: false,
                online: false,
                pending_action: None,
                authority_epoch: current.authority_epoch,
                reason: "explicit recovery started".to_owned(),
            },
        )
    }

    fn establish_authority(
        current: &AppSnapshot,
        authenticated: bool,
        has_tenant: bool,
        online: bool,
        reason: &str,
    ) -> (r: AppTransition)
        ensures
            r@ == establish_authority_view(current@, authenticated, has_tenant, online, reason@),
    {
        if !authenticated {
            let text = concat_str(reason, " without an authenticated session");
            return Self::applied(
                current,
                current.stable(
                    AppPhase::SignedOut,
                    false,
                    false,
                    online,
                    current.authority_epoch,
                    None,
                ),
                text.as_str(),
                None,
            );
        }
        let authority_epoch = match Self::next_authority(current) {
            Some(a) => a,
            None => {
                return Self::failed_closed(current, "authority epoch exhausted");
            },
        };
        if !has_tenant {
            let text = concat_str(reason, "; tenant selection required");
            return Self::applied(
                current,
                current.stable(AppPhase::SelectingTenant, true, false, online, authority_epoch, None),
                text.as_str(),
                None,
            );
        }
        let authorized = current.stable(
            if online {
                AppPhase::ReadyOnline
            } else {
                AppPhase::ReadyOffline
            },
            true,
            true,
            online,
            authority_epoch,
            None,
        );
        if !online {
            let text = concat_str(reason, " into controlled read-only offline mode");
            return Self::applied(current, authorized, text.as_str(), None);
        }
        Self::begin(
            &authorized,
            Begin {
                phase: AppPhase::Synchronizing,
                operation: AppOperation::Synchronize,
                effect: AppEffectKind::Synchronize,
                has_session: true,
                has_tenant: true,
                online: true,
                pending_action: None,
                authority_epoch,
                reason: concat_str(reason, "; synchronization started"),
            },
        ).with_before(current)
    }

    fn begin_sync(current: &AppSnapshot, reason: &str) -> (r: AppTransition)
        ensures
            r@ == begin_sync_view(current@, reason@),
    {
        Self::begin(
            current,
            Begin {
                phase: AppPhase::Synchronizing,
                operation: AppOperation::Synchronize,
                effect: AppEffectKind::Synchronize,
                has_session: true,
                has_tenant: true,
                online: true,
                pending_action: None,
                authority_epoch: current.authority_epoch,
                reason: reason.to_owned(),
            },
        )
    }

    fn begin_reconciliation(current: &AppSnapshot, reason: &str) -> (r: AppTransition)
        ensures
            r@ == begin_reconciliation_view(current@, reason@),
    {
        Self::begin(
            current,
            Begin {
                phase: AppPhase::ReconcilingAction,
                operation: AppOperation::ReconcileAction,
                effect: AppEffectKind::ReconcileAction,
                has_session: true,
                has_tenant: true,
                online: true,
                pending_action: duplicate_pending(&current.pending_action),
                authority_epoch: current.authority_epoch,
                reason: reason.to_owned(),
            },
        )
    }

    fn matches(current: &AppSnapshot, operation: AppOperation, operation_id: u64) -> (r: bool)
        ensures
            r == operation_matches(current@, operation, operation_id),
    {
        current.active_operation == Some(operation) && current.active_operation_id == Some(
            operation_id,
        )
    }

    fn next_authority(current: &AppSnapshot) -> (r: Option<u64>)
        ensures
            r == next_authority_view(current@),
    {
        if current.authority_epoch < MAX_PORTABLE_COUNTER {
            Some(current.authority_epoch + 1)
        } else {
            None
        }
    }

    fn begin(current: &AppSnapshot, begin: Begin) -> (r: AppTransition)
        ensures
            r@ == begin_view(current@, begin@),
    {
        if current.generation >= MAX_PORTABLE_COUNTER {
            return Self::failed_closed(current, "operation generation exhausted");
        }
        let operation_id = current.generation + 1;
        let (action_id, action_authority) = match &begin.pending_action {
            Some(action) => (Some(action.id.clone()), Some(action.authority_epoch)),
            None => (None, None),
        };
        let after = AppSnapshot {
            phase: begin.phase,
            generation: operation_id,
            authority_epoch: begin.authority_epoch,
            has_session: begin.has_session,
            has_tenant: begin.has_tenant,
            online: begin.online,
            active_operation: Some(begin.operation),
            active_operation_id: Some(operation_id),
            pending_action: begin.pending_action,
            failure: None,
        };
        Self::applied(
            current,
            after,
            begin.reason.as_str(),
            Some(
                AppEffect {
                    kind: begin.effect,
                    operation: begin.operation,
                    operation_id,
                    action_id,
                    authority_epoch: action_authority,
                },
            ),
        )
    }

    fn fence_to_stable(
        current: &AppSnapshot,
        phase: AppPhase,
        has_session: bool,
        has_tenant: bool,
        online: bool,
        pending_action: Option<PendingAction>,
        reason: &str,
    ) -> (r: AppTransition)
        ensures
            r@ == fence_view(
                current@,
                phase,
                has_session,
                has_tenant,
                online,
                pending_view(pending_action),
                reason@,
            ),
    {
        if current.generation >= MAX_PORTABLE_COUNTER {
            return Self::failed_closed(current, "operation generation exhausted");
        }
        Self::applied(
            current,
            AppSnapshot {
                phase,
                generation: current.generation + 1,
                authority_epoch: current.authority_epoch,
                has_session,
                has_tenant,
                online,
                active_operation: None,
                active_operation_id: None,
                pending_action,
                failure: None,
            },
            reason,
            None,
        )
    }

    fn applied(before: &AppSnapshot, after: AppSnapshot, reason: &str, effect: Option<AppEffect>) -> (r:
        AppTransition)
        ensures
            r@ == applied_view(before@, after@, reason@, effect_view(effect)),
    {
        AppTransition {
            before: before.duplicate(),
            after,
            disposition: TransitionDisposition::Applied,
            reason: reason.to_owned(),
            effect,
        }
    }

    fn rejected(current: &AppSnapshot, reason: &str) -> (r: AppTransition)
        ensures
            r@ == rejected_view(current@, reason@),
    {
        AppTransition {
            before: current.duplicate(),
            after: current.duplicate(),
            disposition: TransitionDisposition::Rejected,
            reason: reason.to_owned(),
            effect: None,
        }
    }

    fn stale(current: &AppSnapshot, reason: &str) -> (r: AppTransition)
        ensures
            r@ == stale_view(current@, reason@),
    {
        AppTransition {
            before: current.duplicate(),
            after: current.duplicate(),
            disposition: TransitionDisposition::Stale,
            reason: reason.to_owned(),
            effect: None,
        }
    }

    fn failed_closed(current: &AppSnapshot, reason: &str) -> (r: AppTransition)
        ensures
            r@ == failed_closed_view(current@, reason@),
    {
        let generation = if current.generation < MAX_PORTABLE_COUNTER {
            current.generation + 1
        } else {
            MAX_PORTABLE_COUNTER
        };
        let authority_epoch = if current.authority_epoch < MAX_PORTABLE_COUNTER {
            current.authority_epoch + 1
        } else {
            MAX_PORTABLE_COUNTER
        };
        AppTransition {
            before: current.duplicate(),
            after: AppSnapshot {
                phase: AppPhase::Failed,
                generation,
                authority_epoch,
                has_session: false,
                has_tenant: false,
                online: false,
                active_operation: None,
                active_operation_id: None,
                pending_action: None,
                failure: Some(Self::controlled_reason(reason)),
            },
            disposition: TransitionDisposition::FailedClosed,
            reason: "lifecycle failed closed".to_owned(),
            effect: None,
        }
    }

    fn controlled_reason(reason: &str) -> (r: String)
        ensures
            r@ == controlled_reason_view(reason@),
    {
        let reason = trimmed(reason);
        if reason.as_str().unicode_len() == 0 {
            return "unspecified controlled failure".to_owned();
        }
        take_chars(reason.as_str(), 256)
    }
}

} // verus!
