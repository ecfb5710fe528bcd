//! Deep-link admission: a raw link captured from the operating system is
//! preflighted, resolved under a generation token, admitted only when it is
//! the canonical URL of an allowed action, and handed to the lifecycle only
//! when the lifecycle accepts the action.
use crate::app_lifecycle::{
    AppEvent, AppEventView, AppLifecycleMachine, AppSnapshotView, AppTransition,
    AppTransitionView, MAX_PORTABLE_COUNTER, TransitionDisposition, transition_view,
};
use crate::link_parsing::{
    ParsedUrlView, admission_result, parse, preflight, preflight_reason, url_parse,
};
use crate::text::{chars_of, concat_str, opt_string_view, range_equals};
use vstd::prelude::*;
use vstd::string::*;

verus! {

pub const DEEP_LINK_CONTRACT_VERSION: u8 = 1;

pub const MAXIMUM_DEEP_LINK_BYTES: usize = 2048;

pub const ALLOWED_DEEP_LINK_ACTIONS: [&'static str; 2] = ["rotate-api-key", "review-reconciliation"];

/// The actions a deep link may request.
pub open spec fn is_allowed_action(a: Seq<char>) -> bool {
    a == "rotate-api-key"@ || a == "review-reconciliation"@
}

/// The only form in which a link for `action` is admitted.
pub open spec fn canonical_url_view(action: Seq<char>) -> Seq<char> {
    "https://fiducia.cloud/open?action="@ + action
}

#[derive(Clone, Copy, Debug, PartialEq, Eq, Hash, Structural)]
pub enum DeepLinkPhase {
    Idle,
    Resolving,
    Pending,
}

#[derive(Clone, Copy, Debug, PartialEq, Eq, Hash, Structural)]
pub enum DeepLinkDisposition {
    Began,
    Accepted,
    Rejected,
    Stale,
    Consumed,
    FailedClosed,
}

pub open spec fn disposition_wire_name(d: DeepLinkDisposition) -> Seq<char> {
    match d {
        DeepLinkDisposition::Began => "began"@,
        DeepLinkDisposition::Accepted => "accepted"@,
        DeepLinkDisposition::Rejected => "rejected"@,
        DeepLinkDisposition::Stale => "stale"@,
        DeepLinkDisposition::Consumed => "consumed"@,
        DeepLinkDisposition::FailedClosed => "failedClosed"@,
    }
}

impl DeepLinkDisposition {
    pub fn wire_name(self) -> (r: &'static str)
        ensures
            r@ == disposition_wire_name(self),
    {
        match self {
            DeepLinkDisposition::Began => "began",
            DeepLinkDisposition::Accepted => "accepted",
            DeepLinkDisposition::Rejected => "rejected",
            DeepLinkDisposition::Stale => "stale",
            DeepLinkDisposition::Consumed => "consumed",
            DeepLinkDisposition::FailedClosed => "failedClosed",
        }
    }
}

#[derive(Clone, Copy, Debug, PartialEq, Eq, Hash, Structural)]
pub enum DeepLinkReason {
    Resolving,
    Accepted,
    Consumed,
    Empty,
    TooLong,
    Malformed,
    InsecureScheme,
    UnexpectedOrigin,
    CredentialsForbidden,
    UnexpectedPort,
    UnexpectedPath,
    FragmentForbidden,
    UnexpectedParameter,
    DuplicateParameter,
    MissingAction,
    UnknownAction,
    NonCanonical,
    NotPending,
    StaleGeneration,
    InvalidSnapshot,
    LifecycleRejected,
}

pub open spec fn reason_wire_name(r: DeepLinkReason) -> Seq<char> {
    match r {
        DeepLinkReason::Resolving => "resolving"@,
        DeepLinkReason::Accepted => "accepted"@,
        DeepLinkReason::Consumed => "consumed"@,
        DeepLinkReason::Empty => "empty"@,
        DeepLinkReason::TooLong => "too_long"@,
        DeepLinkReason::Malformed => "malformed"@,
        DeepLinkReason::InsecureScheme => "insecure_scheme"@,
        DeepLinkReason::UnexpectedOrigin => "unexpected_origin"@,
        DeepLinkReason::CredentialsForbidden => "credentials_forbidden"@,
        DeepLinkReason::UnexpectedPort => "unexpected_port"@,
        DeepLinkReason::UnexpectedPath => "unexpected_path"@,
        DeepLinkReason::FragmentForbidden => "fragment_forbidden"@,
        DeepLinkReason::UnexpectedParameter => "unexpected_parameter"@,
        DeepLinkReason::DuplicateParameter => "duplicate_parameter"@,
        DeepLinkReason::MissingAction => "missing_action"@,
        DeepLinkReason::UnknownAction => "unknown_action"@,
        DeepLinkReason::NonCanonical => "non_canonical"@,
        DeepLinkReason::NotPending => "not_pending"@,
        DeepLinkReason::StaleGeneration => "stale_generation"@,
        DeepLinkReason::InvalidSnapshot => "invalid_snapshot"@,
        DeepLinkReason::LifecycleRejected => "lifecycle_rejected"@,
    }
}

impl DeepLinkReason {
    pub fn wire_name(self) -> (r: &'static str)
        ensures
            r@ == reason_wire_name(self),
    {
        match self {
            DeepLinkReason::Resolving => "resolving",
            DeepLinkReason::Accepted => "accepted",
            DeepLinkReason::Consumed => "consumed",
            DeepLinkReason::Empty => "empty",
            DeepLinkReason::TooLong => "too_long",
            DeepLinkReason::Malformed => "malformed",
            DeepLinkReason::InsecureScheme => "insecure_scheme",
            DeepLinkReason::UnexpectedOrigin => "unexpected_origin",
            DeepLinkReason::CredentialsForbidden => "credentials_forbidden",
            DeepLinkReason::UnexpectedPort => "unexpected_port",
            DeepLinkReason::UnexpectedPath => "unexpected_path",
            DeepLinkReason::FragmentForbidden => "fragment_forbidden",
            DeepLinkReason::UnexpectedParameter => "unexpected_parameter",
            DeepLinkReason::DuplicateParameter => "duplicate_parameter",
            DeepLinkReason::MissingAction => "missing_action",
            DeepLinkReason::UnknownAction => "unknown_action",
            DeepLinkReason::NonCanonical => "non_canonical",
            DeepLinkReason::NotPending => "not_pending",
            DeepLinkReason::StaleGeneration => "stale_generation",
            DeepLinkReason::InvalidSnapshot => "invalid_snapshot",
            DeepLinkReason::LifecycleRejected => "lifecycle_rejected",
        }
    }
}

/// An admitted request to perform an action; its view is the action name.
#[derive(Clone, Debug, PartialEq, Eq, Hash)]
pub struct DeepLinkIntent {
    action: String,
}

impl View for DeepLinkIntent {
    type V = Seq<char>;

    closed spec fn view(&self) -> Seq<char> {
        self.action@
    }
}

pub open spec fn intent_view(i: Option<DeepLinkIntent>) -> Option<Seq<char>> {
    match i {
        Some(x) => Some(x@),
        None => None,
    }
}

impl DeepLinkIntent {
    pub fn new(action: &str) -> (r: DeepLinkIntent)
        ensures
            r@ == action@,
    {
        DeepLinkIntent { action: action.to_owned() }
    }

    pub fn action(&self) -> (r: &str)
        ensures
            r@ == self@,
    {
        self.action.as_str()
    }

    pub fn kind(&self) -> (r: &'static str)
        ensures
            r@ == "request_action"@,
    {
        "request_action"
    }

    pub fn canonical_url(&self) -> (r: String)
        ensures
            r@ == canonical_url_view(self@),
    {
        concat_str("https://fiducia.cloud/open?action=", self.action.as_str())
    }

    fn duplicate(&self) -> (r: DeepLinkIntent)
        ensures
            r@ == self@,
    {
        DeepLinkIntent { action: self.action.clone() }
    }
}

/// Whether `a` names one of the allowed actions.
pub fn action_is_allowed(a: &str) -> (b: bool)
    ensures
        b == is_allowed_action(a@),
{
    let v = chars_of(a);
    let allowed = ALLOWED_DEEP_LINK_ACTIONS;
    assert(allowed[0] == "rotate-api-key");
    assert(allowed[1] == "review-reconciliation");
    let first = chars_of(allowed[0]);
    let second = chars_of(allowed[1]);
    assert(v@.subrange(0, v@.len() as int) =~= v@);
    range_equals(&v, 0, v.len(), &first) || range_equals(&v, 0, v.len(), &second)
}


#[derive(Clone, Debug, PartialEq, Eq, Hash)]
pub struct DeepLinkSnapshot {
    pub phase: DeepLinkPhase,
    pub generation: u64,
    pub candidate: Option<String>,
    pub last_accepted: Option<DeepLinkIntent>,
}

pub struct DeepLinkSnapshotView {
    pub phase: DeepLinkPhase,
    pub generation: u64,
    pub candidate: Option<Seq<char>>,
    pub last_accepted: Option<Seq<char>>,
}

impl View for DeepLinkSnapshot {
    type V = DeepLinkSnapshotView;

    open spec fn view(&self) -> DeepLinkSnapshotView {
        DeepLinkSnapshotView {
            phase: self.phase,
            generation: self.generation,
            candidate: opt_string_view(self.candidate),
            last_accepted: intent_view(self.last_accepted),
        }
    }
}

/// The admission invariant: counters in range, only allowed actions remembered,
/// a candidate exactly while resolving (and one that passes preflight), and an
/// admitted intent while pending.
pub open spec fn link_snapshot_valid(s: DeepLinkSnapshotView) -> bool {
    &&& s.generation <= MAX_PORTABLE_COUNTER
    &&& s.last_accepted matches Some(a) ==> is_allowed_action(a)
    &&& match s.phase {
        DeepLinkPhase::Idle => s.candidate is None,
        DeepLinkPhase::Resolving => s.candidate matches Some(c) && preflight_reason(c) is None,
        DeepLinkPhase::Pending => s.candidate is None && s.last_accepted is Some,
    }
}

pub open spec fn initial_link_snapshot() -> DeepLinkSnapshotView {
    DeepLinkSnapshotView {
        phase: DeepLinkPhase::Idle,
        generation: 0,
        candidate: None,
        last_accepted: None,
    }
}

pub open spec fn link_can_handoff(s: DeepLinkSnapshotView) -> bool {
    s.phase == DeepLinkPhase::Pending && s.last_accepted is Some
}

/// The generation a failed-closed snapshot resumes from: advanced when there
/// is room, kept at the maximum, and reset when it was out of range.
pub open spec fn closed_generation_view(g: u64) -> u64 {
    if g > MAX_PORTABLE_COUNTER {
        0
    } else if g == MAX_PORTABLE_COUNTER {
        g
    } else {
        (g + 1) as u64
    }
}

pub open spec fn closed_link_snapshot(g: u64) -> DeepLinkSnapshotView {
    DeepLinkSnapshotView {
        phase: DeepLinkPhase::Idle,
        generation: closed_generation_view(g),
        candidate: None,
        last_accepted: None,
    }
}

impl DeepLinkSnapshot {
    pub fn phase(&self) -> (r: DeepLinkPhase)
        ensures
            r == self.phase,
    {
        self.phase
    }

    pub fn generation(&self) -> (r: u64)
        ensures
            r == self.generation,
    {
        self.generation
    }

    pub fn candidate(&self) -> (r: Option<&str>)
        ensures
            r is Some == self.candidate is Some,
            r matches Some(c) ==> c@ == self.candidate->0@,
    {
        match &self.candidate {
            Some(c) => Some(c.as_str()),
            None => None,
        }
    }

    pub fn last_accepted(&self) -> (r: Option<&DeepLinkIntent>)
        ensures
            r is Some == self.last_accepted is Some,
            r matches Some(i) ==> i@ == self.last_accepted->0@,
    {
        match &self.last_accepted {
            Some(i) => Some(i),
            None => None,
        }
    }

    pub fn can_handoff(&self) -> (r: bool)
        ensures
            r == link_can_handoff(self@),
    {
        self.phase == DeepLinkPhase::Pending && self.last_accepted.is_some()
    }

    /// Whether the snapshot satisfies the admission invariant.
    pub fn validate(&self) -> (r: bool)
        ensures
            r == link_snapshot_valid(self@),
    {
        if self.generation > MAX_PORTABLE_COUNTER {
            return false;
        }
        match &self.last_accepted {
            Some(intent) => {
                if !action_is_allowed(intent.action()) {
                    return false;
                }
            },
            None => {},
        }
        match self.phase {
            DeepLinkPhase::Idle => self.candidate.is_none(),
            DeepLinkPhase::Resolving => match &self.candidate {
                Some(c) => preflight(c.as_str()).is_none(),
                None => false,
            },
            DeepLinkPhase::Pending => self.candidate.is_none() && self.last_accepted.is_some(),
        }
    }

    fn duplicate(&self) -> (r: DeepLinkSnapshot)
        ensures
            r@ == self@,
    {
        DeepLinkSnapshot {
            phase: self.phase,
            generation: self.generation,
            candidate: match &self.candidate {
                Some(c) => Some(c.clone()),
                None => None,
            },
            last_accepted: duplicate_intent(&self.last_accepted),
        }
    }
}

fn duplicate_intent(i: &Option<DeepLinkIntent>) -> (r: Option<DeepLinkIntent>)
    ensures
        intent_view(r) == intent_view(*i),
{
    match i {
        Some(x) => Some(x.duplicate()),
        None => None,
    }
}

impl Default for DeepLinkSnapshot {
    fn default() -> (r: DeepLinkSnapshot)
        ensures
            r@ == initial_link_snapshot(),
    {
        DeepLinkSnapshot {
            phase: DeepLinkPhase::Idle,
            generation: 0,
            candidate: None,
            last_accepted: None,
        }
    }
}

/// The generation token that a resolution completes under.
#[derive(Clone, Copy, Debug, PartialEq, Eq, Hash, Structural)]
pub struct DeepLinkEffect {
    pub generation: u64,
}

pub open spec fn link_effect_view(e: Option<DeepLinkEffect>) -> Option<u64> {
    match e {
        Some(x) => Some(x.generation),
        None => None,
    }
}

#[derive(Clone, Debug, PartialEq, Eq)]
pub struct DeepLinkTransition {
    pub before: DeepLinkSnapshot,
    pub after: DeepLinkSnapshot,
    pub disposition: DeepLinkDisposition,
    pub reason: DeepLinkReason,
    pub effect: Option<DeepLinkEffect>,
    pub intent: Option<DeepLinkIntent>,
}

pub struct DeepLinkTransitionView {
    pub before: DeepLinkSnapshotView,
    pub after: DeepLinkSnapshotView,
    pub disposition: DeepLinkDisposition,
    pub reason: DeepLinkReason,
    pub effect: Option<u64>,
    pub intent: Option<Seq<char>>,
}

impl View for DeepLinkTransition {
    type V = DeepLinkTransitionView;

    open spec fn view(&self) -> DeepLinkTransitionView {
        DeepLinkTransitionView {
            before: self.before@,
            after: self.after@,
            disposition: self.disposition,
            reason: self.reason,
            effect: link_effect_view(self.effect),
            intent: intent_view(self.intent),
        }
    }
}

pub open spec fn fail_closed_link_view(s: DeepLinkSnapshotView) -> DeepLinkTransitionView {
    DeepLinkTransitionView {
        before: s,
        after: closed_link_snapshot(s.generation),
        disposition: DeepLinkDisposition::FailedClosed,
        reason: DeepLinkReason::InvalidSnapshot,
        effect: None,
        intent: None,
    }
}

pub open spec fn unchanged_link_view(
    s: DeepLinkSnapshotView,
    disposition: DeepLinkDisposition,
    reason: DeepLinkReason,
    intent: Option<Seq<char>>,
) -> DeepLinkTransitionView {
    DeepLinkTransitionView { before: s, after: s, disposition, reason, effect: None, intent }
}

/// Capturing `raw`: it is preflighted and, if it passes, resolution starts
/// under a fresh generation.
pub open spec fn begin_link_view(s: DeepLinkSnapshotView, raw: Seq<char>) -> DeepLinkTransitionView {
    if !link_snapshot_valid(s) || s.generation >= MAX_PORTABLE_COUNTER {
        fail_closed_link_view(s)
    } else if preflight_reason(raw) is Some {
        unchanged_link_view(s, DeepLinkDisposition::Rejected, preflight_reason(raw)->0, None)
    } else {
        let g = (s.generation + 1) as u64;
        DeepLinkTransitionView {
            before: s,
            after: DeepLinkSnapshotView {
                phase: DeepLinkPhase::Resolving,
                generation: g,
                candidate: Some(raw),
                last_accepted: s.last_accepted,
            },
            disposition: DeepLinkDisposition::Began,
            reason: DeepLinkReason::Resolving,
            effect: Some(g),
            intent: None,
        }
    }
}

/// Completing the resolution started under `g`, given the parser's report on
/// the candidate.
pub open spec fn complete_link_view(
    s: DeepLinkSnapshotView,
    g: u64,
    parsed: Option<ParsedUrlView>,
) -> DeepLinkTransitionView {
    if !link_snapshot_valid(s) {
        fail_closed_link_view(s)
    } else if s.phase != DeepLinkPhase::Resolving || g != s.generation {
        unchanged_link_view(s, DeepLinkDisposition::Stale, DeepLinkReason::StaleGeneration, None)
    } else {
        match admission_result(s.candidate->0, parsed) {
            Ok(action) => DeepLinkTransitionView {
                before: s,
                after: DeepLinkSnapshotView {
                    phase: DeepLinkPhase::Pending,
                    generation: s.generation,
                    candidate: None,
                    last_accepted: Some(action),
                },
                disposition: DeepLinkDisposition::Accepted,
                reason: DeepLinkReason::Accepted,
                effect: None,
                intent: Some(action),
            },
            Err(reason) => DeepLinkTransitionView {
                before: s,
                after: DeepLinkSnapshotView {
                    phase: DeepLinkPhase::Idle,
                    generation: s.generation,
                    candidate: None,
                    last_accepted: s.last_accepted,
                },
                disposition: DeepLinkDisposition::Rejected,
                reason,
                effect: None,
                intent: None,
            },
        }
    }
}

/// Consuming the pending intent under generation `g`.
pub open spec fn consume_link_view(s: DeepLinkSnapshotView, g: u64) -> DeepLinkTransitionView {
    if !link_snapshot_valid(s) {
        fail_closed_link_view(s)
    } else if g != s.generation {
        unchanged_link_view(s, DeepLinkDisposition::Stale, DeepLinkReason::StaleGeneration, None)
    } else if !link_can_handoff(s) {
        unchanged_link_view(s, DeepLinkDisposition::Rejected, DeepLinkReason::NotPending, None)
    } else {
        DeepLinkTransitionView {
            before: s,
            after: DeepLinkSnapshotView {
                phase: DeepLinkPhase::Idle,
                generation: s.generation,
                candidate: None,
                last_accepted: s.last_accepted,
            },
            disposition: DeepLinkDisposition::Consumed,
            reason: DeepLinkReason::Consumed,
            effect: None,
            intent: s.last_accepted,
        }
    }
}

/// The lifecycle transition a handoff dispatches, if it dispatches one.
pub open spec fn handoff_lifecycle_view(s: DeepLinkSnapshotView, l: AppSnapshotView) -> Option<
    AppTransitionView,
> {
    if !link_can_handoff(s) {
        None
    } else {
        Some(transition_view(l, AppEventView::ActionRequested { action_id: s.last_accepted->0 }))
    }
}

/// The admission outcome of a handoff: the pending intent is consumed only
/// when the lifecycle applied the requested action.
pub open spec fn handoff_admission_view(s: DeepLinkSnapshotView, l: AppSnapshotView) -> DeepLinkTransitionView {
    if !link_can_handoff(s) {
        consume_link_view(s, s.generation)
    } else if handoff_lifecycle_view(s, l)->0.disposition != TransitionDisposition::Applied {
        unchanged_link_view(
            s,
            DeepLinkDisposition::Rejected,
            DeepLinkReason::LifecycleRejected,
            s.last_accepted,
        )
    } else {
        consume_link_view(s, s.generation)
    }
}

/// The result of handing an admitted intent to the lifecycle.
#[derive(Clone, Debug, PartialEq, Eq)]
pub struct DeepLinkHandoff {
    pub admission: DeepLinkTransition,
    pub lifecycle: Option<AppTransition>,
}

pub open spec fn app_transition_opt_view(t: Option<AppTransition>) -> Option<AppTransitionView> {
    match t {
        Some(x) => Some(x@),
        None => None,
    }
}

impl DeepLinkHandoff {
    pub fn delivered(&self) -> (r: bool)
        ensures
            r == (self.admission.disposition == DeepLinkDisposition::Consumed && (match self.lifecycle {
                Some(t) => t.disposition == TransitionDisposition::Applied,
                None => false,
            })),
    {
        self.admission.disposition == DeepLinkDisposition::Consumed && match &self.lifecycle {
            Some(t) => t.disposition == TransitionDisposition::Applied,
            None => false,
        }
    }
}

#[derive(Clone, Debug)]
pub struct DeepLinkAdmissionMachine {
    snapshot: DeepLinkSnapshot,
}

impl View for DeepLinkAdmissionMachine {
    type V = DeepLinkSnapshotView;

    closed spec fn view(&self) -> DeepLinkSnapshotView {
        self.snapshot@
    }
}

impl Default for DeepLinkAdmissionMachine {
    fn default() -> (r: DeepLinkAdmissionMachine)
        ensures
            r@ == initial_link_snapshot(),
    {
        DeepLinkAdmissionMachine { snapshot: DeepLinkSnapshot::default() }
    }
}

fn closed_generation(generation: u64) -> (r: u64)
    ensures
        r == closed_generation_view(generation),
{
    if generation > MAX_PORTABLE_COUNTER {
        return 0;
    }
    if generation == MAX_PORTABLE_COUNTER {
        return generation;
    }
    generation + 1
}

fn unchanged(
    snapshot: DeepLinkSnapshot,
    disposition: DeepLinkDisposition,
    reason: DeepLinkReason,
    intent: Option<DeepLinkIntent>,
) -> (r: DeepLinkTransition)
    ensures
        r@ == unchanged_link_view(snapshot@, disposition, reason, intent_view(intent)),
{
    DeepLinkTransition {
        before: snapshot.duplicate(),
        after: snapshot,
        disposition,
        reason,
        effect: None,
        intent,
    }
}

impl DeepLinkAdmissionMachine {
    /// Restores a machine from a snapshot; a snapshot that breaks the
    /// invariant is replaced by an empty one under a fresh generation.
    pub fn from_snapshot(snapshot: DeepLinkSnapshot) -> (r: DeepLinkAdmissionMachine)
        ensures
            r@ == (if link_snapshot_valid(snapshot@) {
                snapshot@
            } else {
                closed_link_snapshot(snapshot.generation)
            }),
    {
        if snapshot.validate() {
            return DeepLinkAdmissionMachine { snapshot };
        }
        DeepLinkAdmissionMachine {
            snapshot: DeepLinkSnapshot {
                phase: DeepLinkPhase::Idle,
                generation: closed_generation(snapshot.generation),
                candidate: None,
                last_accepted: None,
            },
        }
    }

    pub fn snapshot(&self) -> (r: &DeepLinkSnapshot)
        ensures
            r@ == self@,
    {
        &self.snapshot
    }

    /// Captures a raw link and starts resolving it.
    pub fn begin(&mut self, raw: &str) -> (r: DeepLinkTransition)
        ensures
            r@ == begin_link_view(old(self)@, raw@),
            final(self)@ == r@.after,
    {
        let before = self.snapshot.duplicate();
        if !before.validate() {
            return self.fail_closed(before);
        }
        if before.generation >= MAX_PORTABLE_COUNTER {
            return self.fail_closed(before);
        }
        match preflight(raw) {
            Some(reason) => {
                return unchanged(before, DeepLinkDisposition::Rejected, reason, None);
            },
            None => {},
        }
        let generation = before.generation + 1;
        let after = DeepLinkSnapshot {
            phase: DeepLinkPhase::Resolving,
            generation,
            candidate: Some(raw.to_owned()),
            last_accepted: duplicate_intent(&before.last_accepted),
        };
        self.snapshot = after.duplicate();
        DeepLinkTransition {
            before,
            after,
            disposition: DeepLinkDisposition::Began,
            reason: DeepLinkReason::Resolving,
            effect: Some(DeepLinkEffect { generation }),
            intent: None,
        }
    }

    /// Completes the resolution started under `generation`.
    pub fn complete(&mut self, generation: u64) -> (r: DeepLinkTransition)
        ensures
            r@ == complete_link_view(
                old(self)@,
                generation,
                url_parse(old(self)@.candidate->0),
            ),
            final(self)@ == r@.after,
    {
        let before = self.snapshot.duplicate();
        if !before.validate() {
            return self.fail_closed(before);
        }
        if before.phase != DeepLinkPhase::Resolving || generation != before.generation {
            return unchanged(
                before,
                DeepLinkDisposition::Stale,
                DeepLinkReason::StaleGeneration,
                None,
            );
        }
        let result = match &before.candidate {
            Some(c) => parse(c.as_str()),
            None => Err(DeepLinkReason::Malformed),
        };
        match result {
            Ok(intent) => {
                let after = DeepLinkSnapshot {
                    phase: DeepLinkPhase::Pending,
                    generation: before.generation,
                    candidate: None,
                    last_accepted: Some(intent.duplicate()),
                };
                self.snapshot = after.duplicate();
                DeepLinkTransition {
                    before,
                    after,
                    disposition: DeepLinkDisposition::Accepted,
                    reason: DeepLinkReason::Accepted,
                    effect: None,
                    intent: Some(intent),
                }
            },
            Err(reason) => {
                let after = DeepLinkSnapshot {
                    phase: DeepLinkPhase::Idle,
                    generation: before.generation,
                    candidate: None,
                    last_accepted: duplicate_intent(&before.last_accepted),
                };
                self.snapshot = after.duplicate();
                DeepLinkTransition {
                    before,
                    after,
                    disposition: DeepLinkDisposition::Rejected,
                    reason,
                    effect: None,
                    intent: None,
                }
            },
        }
    }

    /// Consumes the pending intent under `generation`.
    pub fn consume(&mut self, generation: u64) -> (r: DeepLinkTransition)
        ensures
            r@ == consume_link_view(old(self)@, generation),
            final(self)@ == r@.after,
    {
        let before = self.snapshot.duplicate();
        if !before.validate() {
            return self.fail_closed(before);
        }
        if generation != before.generation {
            return unchanged(
                before,
                DeepLinkDisposition::Stale,
                DeepLinkReason::StaleGeneration,
                None,
            );
        }
        if !before.can_handoff() {
            return unchanged(before, DeepLinkDisposition::Rejected, DeepLinkReason::NotPending, None);
        }
        let intent = duplicate_intent(&before.last_accepted);
        let after = DeepLinkSnapshot {
            phase: DeepLinkPhase::Idle,
            generation: before.generation,
            candidate: None,
            last_accepted: duplicate_intent(&before.last_accepted),
        };
        self.snapshot = after.duplicate();
        DeepLinkTransition {
            before,
            after,
            disposition: DeepLinkDisposition::Consumed,
            reason: DeepLinkReason::Consumed,
            effect: None,
            intent,
        }
    }

    /// Offers the pending intent to the lifecycle as an action request; the
    /// intent is consumed only if the lifecycle applies it.
    pub fn handoff_to(&mut self, lifecycle: &mut AppLifecycleMachine) -> (r: DeepLinkHandoff)
        ensures
            r.admission@ == handoff_admission_view(old(self)@, old(lifecycle)@),
            app_transition_opt_view(r.lifecycle) == handoff_lifecycle_view(old(self)@, old(lifecycle)@),
            final(self)@ == r.admission@.after,
            final(lifecycle)@ == (match handoff_lifecycle_view(old(self)@, old(lifecycle)@) {
                Some(t) => t.after,
                None => old(lifecycle)@,
            }),
    {
        let before = self.snapshot.duplicate();
        let intent = match &before.last_accepted {
            Some(i) => {
                if !before.can_handoff() {
                    let generation = before.generation;
                    return DeepLinkHandoff { admission: self.consume(generation), lifecycle: None };
                }
                i.duplicate()
            },
            None => {
                let generation = before.generation;
                return DeepLinkHandoff { admission: self.consume(generation), lifecycle: None };
            },
        };
        let lifecycle_transition = lifecycle.dispatch(
            &AppEvent::ActionRequested { action_id: intent.action.clone() },
        );
        if lifecycle_transition.disposition != TransitionDisposition::Applied {
            return DeepLinkHandoff {
                admission: unchanged(
                    before,
                    DeepLinkDisposition::Rejected,
                    DeepLinkReason::LifecycleRejected,
                    Some(intent),
                ),
                lifecycle: Some(lifecycle_transition),
            };
        }
        let generation = before.generation;
        DeepLinkHandoff { admission: self.consume(generation), lifecycle: Some(lifecycle_transition) }
    }

    fn fail_closed(&mut self, before: DeepLinkSnapshot) -> (r: DeepLinkTransition)
        ensures
            r@ == fail_closed_link_view(before@),
            final(self)@ == r@.after,
    {
        let after = DeepLinkSnapshot {
            phase: DeepLinkPhase::Idle,
            generation: closed_generation(before.generation),
            candidate: None,
            last_accepted: None,
        };
        self.snapshot = after.duplicate();
        DeepLinkTransition {
            before,
            after,
            disposition: DeepLinkDisposition::FailedClosed,
            reason: DeepLinkReason::InvalidSnapshot,
            effect: None,
            intent: None,
        }
    }
}

} // verus!
