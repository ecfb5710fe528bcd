use fiducia_desktop::link_parsing::{ParsedUrl, admit_parsed, preflight};
use fiducia_desktop::{
    AppLifecycleMachine, DeepLinkAdmissionMachine, DeepLinkDisposition, DeepLinkIntent,
    DeepLinkPhase, DeepLinkReason, DeepLinkSnapshot, DeepLinkTransition,
    ALLOWED_DEEP_LINK_ACTIONS, DEEP_LINK_CONTRACT_VERSION, MAXIMUM_DEEP_LINK_BYTES,
};

const CANONICAL: &str = "https://fiducia.cloud/open?action=rotate-api-key";

fn good_parts(raw: &str) -> ParsedUrl {
    ParsedUrl {
        scheme: "https".to_owned(),
        username: String::new(),
        password: None,
        host: Some("fiducia.cloud".to_owned()),
        port: None,
        fragment: None,
        path: "/open".to_owned(),
        serialization: raw.to_owned(),
    }
}

fn resolve(raw: &str) -> DeepLinkTransition {
    let mut machine = DeepLinkAdmissionMachine::default();
    let begin = machine.begin(raw);
    match begin.effect {
        Some(effect) => machine.complete(effect.generation),
        None => begin,
    }
}

fn reason_of(raw: &str, parts: Option<ParsedUrl>) -> Option<DeepLinkReason> {
    admit_parsed(raw, parts).err()
}

#[test]
fn constants_describe_the_contract() {
    assert_eq!(DEEP_LINK_CONTRACT_VERSION, 1);
    assert_eq!(MAXIMUM_DEEP_LINK_BYTES, 2048);
    assert_eq!(ALLOWED_DEEP_LINK_ACTIONS, ["rotate-api-key", "review-reconciliation"]);
}

#[test]
fn admitted_intent_has_kind_and_canonical_url() {
    let intent = admit_parsed(CANONICAL, Some(good_parts(CANONICAL))).expect("admitted");
    assert_eq!(intent.action(), "rotate-api-key");
    assert_eq!(intent.kind(), "request_action");
    assert_eq!(intent.canonical_url(), CANONICAL);
    assert_eq!(
        DeepLinkIntent::new("review-reconciliation").canonical_url(),
        "https://fiducia.cloud/open?action=review-reconciliation"
    );
}

#[test]
fn parser_failure_is_malformed() {
    assert_eq!(reason_of(CANONICAL, None), Some(DeepLinkReason::Malformed));
}

#[test]
fn each_url_part_is_checked_in_order() {
    let mut parts = good_parts(CANONICAL);
    parts.scheme = "http".to_owned();
    assert_eq!(reason_of(CANONICAL, Some(parts)), Some(DeepLinkReason::InsecureScheme));

    let raw = "HTTPS://fiducia.cloud/open?action=rotate-api-key";
    assert_eq!(reason_of(raw, Some(good_parts(raw))), Some(DeepLinkReason::NonCanonical));

    let raw = "https://user@fiducia.cloud/open?action=rotate-api-key";
    assert_eq!(
        reason_of(raw, Some(good_parts(raw))),
        Some(DeepLinkReason::CredentialsForbidden)
    );
    let mut parts = good_parts(CANONICAL);
    parts.username = "user".to_owned();
    assert_eq!(
        reason_of(CANONICAL, Some(parts)),
        Some(DeepLinkReason::CredentialsForbidden)
    );
    let mut parts = good_parts(CANONICAL);
    parts.password = Some(String::new());
    assert_eq!(
        reason_of(CANONICAL, Some(parts)),
        Some(DeepLinkReason::CredentialsForbidden)
    );

    let raw = "https://fiducia.cloud:443/open?action=rotate-api-key";
    assert_eq!(reason_of(raw, Some(good_parts(raw))), Some(DeepLinkReason::UnexpectedPort));

    let raw = "https://Fiducia.Cloud/open?action=rotate-api-key";
    assert_eq!(reason_of(raw, Some(good_parts(raw))), Some(DeepLinkReason::NonCanonical));

    let raw = "https://fiducia.example/open?action=rotate-api-key";
    assert_eq!(reason_of(raw, Some(good_parts(raw))), Some(DeepLinkReason::UnexpectedOrigin));
    let mut parts = good_parts(CANONICAL);
    parts.host = Some("other.example".to_owned());
    assert_eq!(reason_of(CANONICAL, Some(parts)), Some(DeepLinkReason::UnexpectedOrigin));
    let mut parts = good_parts(CANONICAL);
    parts.host = None;
    assert_eq!(reason_of(CANONICAL, Some(parts)), Some(DeepLinkReason::UnexpectedOrigin));

    let mut parts = good_parts(CANONICAL);
    parts.port = Some(8443);
    assert_eq!(reason_of(CANONICAL, Some(parts)), Some(DeepLinkReason::UnexpectedPort));

    let raw = "https://fiducia.cloud/open?action=rotate-api-key#top";
    assert_eq!(reason_of(raw, Some(good_parts(raw))), Some(DeepLinkReason::FragmentForbidden));
    let mut parts = good_parts(CANONICAL);
    parts.fragment = Some(String::new());
    assert_eq!(reason_of(CANONICAL, Some(parts)), Some(DeepLinkReason::FragmentForbidden));

    let mut parts = good_parts(CANONICAL);
    parts.path = "/close".to_owned();
    assert_eq!(reason_of(CANONICAL, Some(parts)), Some(DeepLinkReason::UnexpectedPath));

    let raw = "https://fiducia.cloud/open?action=rotate%2Dapi-key";
    assert_eq!(reason_of(raw, Some(good_parts(raw))), Some(DeepLinkReason::NonCanonical));
    let raw = "https://fiducia.cloud/open?action=rotate+api-key";
    assert_eq!(reason_of(raw, Some(good_parts(raw))), Some(DeepLinkReason::NonCanonical));
}

#[test]
fn query_rules() {
    let cases = [
        ("https://fiducia.cloud/open", DeepLinkReason::MissingAction),
        ("https://fiducia.cloud/open?", DeepLinkReason::MissingAction),
        ("https://fiducia.cloud/open?&action=rotate-api-key", DeepLinkReason::NonCanonical),
        ("https://fiducia.cloud/open?action=rotate-api-key&", DeepLinkReason::NonCanonical),
        ("https://fiducia.cloud/open?action", DeepLinkReason::NonCanonical),
        ("https://fiducia.cloud/open?action=a=b", DeepLinkReason::NonCanonical),
        ("https://fiducia.cloud/open?=rotate-api-key", DeepLinkReason::NonCanonical),
        ("https://fiducia.cloud/open?verb=rotate-api-key", DeepLinkReason::UnexpectedParameter),
        (
            "https://fiducia.cloud/open?action=rotate-api-key&action=rotate-api-key",
            DeepLinkReason::DuplicateParameter,
        ),
        ("https://fiducia.cloud/open?action=", DeepLinkReason::MissingAction),
        ("https://fiducia.cloud/open?action=delete-company", DeepLinkReason::UnknownAction),
        ("https://fiducia.cloud//open?action=rotate-api-key", DeepLinkReason::NonCanonical),
    ];
    for (raw, reason) in cases {
        assert_eq!(reason_of(raw, Some(good_parts(raw))), Some(reason), "{raw}");
    }
    let mut parts = good_parts(CANONICAL);
    parts.serialization = "https://fiducia.cloud/open?action=rotate-api-key/".to_owned();
    assert_eq!(reason_of(CANONICAL, Some(parts)), Some(DeepLinkReason::NonCanonical));
}

#[test]
fn preflight_rules() {
    assert_eq!(preflight(""), Some(DeepLinkReason::Empty));
    assert_eq!(preflight(&"a".repeat(2049)), Some(DeepLinkReason::TooLong));
    assert_eq!(preflight(&"a".repeat(2048)), None);
    assert_eq!(preflight(&"é".repeat(1025)), Some(DeepLinkReason::TooLong));
    assert_eq!(preflight(&"é".repeat(1024)), None);
    assert_eq!(preflight(" https://fiducia.cloud"), Some(DeepLinkReason::Malformed));
    assert_eq!(preflight("https://fiducia.cloud\u{3000}"), Some(DeepLinkReason::Malformed));
    assert_eq!(preflight("https://fiducia\u{7}.cloud"), Some(DeepLinkReason::Malformed));
    assert_eq!(preflight("https://fiducia.cloud/a b"), None);
    assert_eq!(preflight(CANONICAL), None);
}

#[test]
fn resolution_through_the_url_parser() {
    let accepted = resolve(CANONICAL);
    assert_eq!(accepted.disposition, DeepLinkDisposition::Accepted);
    assert_eq!(accepted.reason, DeepLinkReason::Accepted);
    assert_eq!(accepted.intent.expect("intent").action(), "rotate-api-key");

    let cases = [
        ("", DeepLinkDisposition::Rejected, DeepLinkReason::Empty),
        (" https://x", DeepLinkDisposition::Rejected, DeepLinkReason::Malformed),
        ("not a url", DeepLinkDisposition::Rejected, DeepLinkReason::Malformed),
        (
            "http://fiducia.cloud/open?action=rotate-api-key",
            DeepLinkDisposition::Rejected,
            DeepLinkReason::InsecureScheme,
        ),
        (
            "fiducia://open?action=rotate-api-key",
            DeepLinkDisposition::Rejected,
            DeepLinkReason::InsecureScheme,
        ),
        (
            "https://fiducia.cloud:443/open?action=rotate-api-key",
            DeepLinkDisposition::Rejected,
            DeepLinkReason::UnexpectedPort,
        ),
        (
            "https://FIDUCIA.cloud/open?action=rotate-api-key",
            DeepLinkDisposition::Rejected,
            DeepLinkReason::NonCanonical,
        ),
        (
            "https://evil.example/open?action=rotate-api-key",
            DeepLinkDisposition::Rejected,
            DeepLinkReason::UnexpectedOrigin,
        ),
        (
            "https://user:pw@fiducia.cloud/open?action=rotate-api-key",
            DeepLinkDisposition::Rejected,
            DeepLinkReason::CredentialsForbidden,
        ),
        (
            "https://fiducia.cloud/close?action=rotate-api-key",
            DeepLinkDisposition::Rejected,
            DeepLinkReason::UnexpectedPath,
        ),
        (
            "https://fiducia.cloud/open?action=rotate-api-key#x",
            DeepLinkDisposition::Rejected,
            DeepLinkReason::FragmentForbidden,
        ),
        (
            "https://fiducia.cloud/x/../open?action=rotate-api-key",
            DeepLinkDisposition::Rejected,
            DeepLinkReason::NonCanonical,
        ),
        (
            "https://fiducia.cloud/open?action=review-reconciliation",
            DeepLinkDisposition::Accepted,
            DeepLinkReason::Accepted,
        ),
    ];
    for (raw, disposition, reason) in cases {
        let result = resolve(raw);
        assert_eq!(result.disposition, disposition, "{raw}");
        assert_eq!(result.reason, reason, "{raw}");
    }
}

#[test]
fn wire_names() {
    let dispositions = [
        (DeepLinkDisposition::Began, "began"),
        (DeepLinkDisposition::Accepted, "accepted"),
        (DeepLinkDisposition::Rejected, "rejected"),
        (DeepLinkDisposition::Stale, "stale"),
        (DeepLinkDisposition::Consumed, "consumed"),
        (DeepLinkDisposition::FailedClosed, "failedClosed"),
    ];
    for (d, name) in dispositions {
        assert_eq!(d.wire_name(), name);
    }
    let reasons = [
        (DeepLinkReason::Resolving, "resolving"),
        (DeepLinkReason::Accepted, "accepted"),
        (DeepLinkReason::Consumed, "consumed"),
        (DeepLinkReason::Empty, "empty"),
        (DeepLinkReason::TooLong, "too_long"),
        (DeepLinkReason::Malformed, "malformed"),
        (DeepLinkReason::InsecureScheme, "insecure_scheme"),
        (DeepLinkReason::UnexpectedOrigin, "unexpected_origin"),
        (DeepLinkReason::CredentialsForbidden, "credentials_forbidden"),
        (DeepLinkReason::UnexpectedPort, "unexpected_port"),
        (DeepLinkReason::UnexpectedPath, "unexpected_path"),
        (DeepLinkReason::FragmentForbidden, "fragment_forbidden"),
        (DeepLinkReason::UnexpectedParameter, "unexpected_parameter"),
        (DeepLinkReason::DuplicateParameter, "duplicate_parameter"),
        (DeepLinkReason::MissingAction, "missing_action"),
        (DeepLinkReason::UnknownAction, "unknown_action"),
        (DeepLinkReason::NonCanonical, "non_canonical"),
        (DeepLinkReason::NotPending, "not_pending"),
        (DeepLinkReason::StaleGeneration, "stale_generation"),
        (DeepLinkReason::InvalidSnapshot, "invalid_snapshot"),
        (DeepLinkReason::LifecycleRejected, "lifecycle_rejected"),
    ];
    for (r, name) in reasons {
        assert_eq!(r.wire_name(), name);
    }
}

#[test]
fn consume_rules_and_stale_tokens() {
    let mut machine = DeepLinkAdmissionMachine::default();
    let idle = machine.consume(0);
    assert_eq!(idle.disposition, DeepLinkDisposition::Rejected);
    assert_eq!(idle.reason, DeepLinkReason::NotPending);
    let begin = machine.begin(CANONICAL);
    let token = begin.effect.expect("token").generation;
    assert_eq!(token, 1);
    assert_eq!(begin.after.candidate(), Some(CANONICAL));
    let early = machine.consume(token);
    assert_eq!(early.reason, DeepLinkReason::NotPending);
    machine.complete(token);
    assert!(machine.snapshot().can_handoff());
    let stale = machine.consume(token + 1);
    assert_eq!(stale.disposition, DeepLinkDisposition::Stale);
    assert_eq!(stale.after, stale.before);
    let consumed = machine.consume(token);
    assert_eq!(consumed.disposition, DeepLinkDisposition::Consumed);
    assert_eq!(consumed.intent.expect("intent").action(), "rotate-api-key");
    assert_eq!(machine.snapshot().phase(), DeepLinkPhase::Idle);
    assert!(!machine.snapshot().can_handoff());
    let again = machine.complete(token);
    assert_eq!(again.disposition, DeepLinkDisposition::Stale);
}

#[test]
fn preflight_rejection_leaves_state_unchanged() {
    let mut machine = DeepLinkAdmissionMachine::default();
    machine.begin(CANONICAL);
    let before = machine.snapshot().clone();
    let rejected = machine.begin("");
    assert_eq!(rejected.disposition, DeepLinkDisposition::Rejected);
    assert_eq!(rejected.reason, DeepLinkReason::Empty);
    assert_eq!(rejected.effect, None);
    assert_eq!(machine.snapshot(), &before);
}

#[test]
fn valid_snapshot_is_restored_as_is() {
    let snapshot = DeepLinkSnapshot {
        phase: DeepLinkPhase::Pending,
        generation: 7,
        candidate: None,
        last_accepted: Some(DeepLinkIntent::new("review-reconciliation")),
    };
    let machine = DeepLinkAdmissionMachine::from_snapshot(snapshot.clone());
    assert_eq!(machine.snapshot(), &snapshot);
    let unknown = DeepLinkSnapshot {
        phase: DeepLinkPhase::Idle,
        generation: 7,
        candidate: None,
        last_accepted: Some(DeepLinkIntent::new("delete-company")),
    };
    assert!(!unknown.validate());
    let machine = DeepLinkAdmissionMachine::from_snapshot(unknown);
    assert_eq!(machine.snapshot().generation(), 8);
    assert_eq!(machine.snapshot().last_accepted(), None);
}

#[test]
fn handoff_without_pending_link_is_not_delivered() {
    let mut links = DeepLinkAdmissionMachine::default();
    let mut lifecycle = AppLifecycleMachine::default();
    let handoff = links.handoff_to(&mut lifecycle);
    assert!(!handoff.delivered());
    assert!(handoff.lifecycle.is_none());
    assert_eq!(handoff.admission.reason, DeepLinkReason::NotPending);
}
