//! Properties of deep-link admission that hold for every snapshot and input.
use crate::app_lifecycle::{
    AppPhase, AppSnapshotView, MAX_PORTABLE_COUNTER, TransitionDisposition, snapshot_valid, transition_view,
};
use crate::deep_link_admission::{
    DeepLinkDisposition, DeepLinkPhase, DeepLinkReason, DeepLinkSnapshotView, begin_link_view,
    canonical_url_view, closed_link_snapshot, complete_link_view, consume_link_view,
    handoff_admission_view, handoff_lifecycle_view, is_allowed_action, link_can_handoff,
    link_snapshot_valid,
};
use crate::lifecycle_laws::law_step_preserves_validity;
use crate::link_parsing::{
    url_parse, preflight_reason,
    ParsedUrlView, admission_result, authority_len, has_prefix, is_first_terminator, query_action,
    raw_authority, segment_value, segment_values,
};
use crate::text::{
    first_index_of, is_first_index, is_unicode_whitespace, split_seq, trim, trim_end, trim_start,
};
use vstd::prelude::*;

verus! {

/// Admission accepts only the canonical URL of an allowed action.
pub proof fn law_admitted_links_are_canonical(raw: Seq<char>, parsed: Option<ParsedUrlView>)
    ensures
        admission_result(raw, parsed) matches Ok(action) ==> is_allowed_action(action) && raw
            == canonical_url_view(action),
{
}

/// An accepted resolution remembers exactly the admitted allowed action, and
/// the candidate it came from was that action's canonical URL.
pub proof fn law_accepted_intent_is_canonical(
    s: DeepLinkSnapshotView,
    g: u64,
    parsed: Option<ParsedUrlView>,
)
    requires
        complete_link_view(s, g, parsed).disposition == DeepLinkDisposition::Accepted,
    ensures
        ({
            let t = complete_link_view(s, g, parsed);
            &&& t.intent matches Some(a)
            &&& is_allowed_action(a)
            &&& s.candidate == Some(canonical_url_view(a))
            &&& t.after.phase == DeepLinkPhase::Pending
            &&& t.after.last_accepted == Some(a)
        }),
{
    law_admitted_links_are_canonical(s.candidate->0, parsed);
}

/// The empty snapshot that a failure resumes from satisfies the invariant.
pub proof fn lemma_closed_snapshot_valid(g: u64)
    ensures
        link_snapshot_valid(closed_link_snapshot(g)),
{
}

/// Capturing, completing and consuming always leave a snapshot that satisfies
/// the admission invariant, from any snapshot whatsoever.
pub proof fn law_operations_keep_snapshot_valid(
    s: DeepLinkSnapshotView,
    raw: Seq<char>,
    g: u64,
    parsed: Option<ParsedUrlView>,
)
    ensures
        link_snapshot_valid(begin_link_view(s, raw).after),
        link_snapshot_valid(complete_link_view(s, g, parsed).after),
        link_snapshot_valid(consume_link_view(s, g).after),
{
    lemma_closed_snapshot_valid(s.generation);
    law_admitted_links_are_canonical(s.candidate->0, parsed);
}

/// A stale completion or consumption changes nothing.
pub proof fn law_stale_tokens_stutter(
    s: DeepLinkSnapshotView,
    g: u64,
    parsed: Option<ParsedUrlView>,
)
    ensures
        complete_link_view(s, g, parsed).disposition == DeepLinkDisposition::Stale
            ==> complete_link_view(s, g, parsed).after == s,
        consume_link_view(s, g).disposition == DeepLinkDisposition::Stale ==> consume_link_view(
            s,
            g,
        ).after == s,
{
}

/// A rejected capture or resolution keeps the last accepted intent.
pub proof fn law_rejection_preserves_last_accepted(
    s: DeepLinkSnapshotView,
    raw: Seq<char>,
    g: u64,
    parsed: Option<ParsedUrlView>,
)
    ensures
        begin_link_view(s, raw).disposition == DeepLinkDisposition::Rejected ==> begin_link_view(
            s,
            raw,
        ).after == s,
        complete_link_view(s, g, parsed).disposition == DeepLinkDisposition::Rejected
            ==> complete_link_view(s, g, parsed).after.last_accepted == s.last_accepted,
{
}

/// From a valid snapshot the generation never goes back, and every resolution
/// starts under a generation no earlier token used.
pub proof fn law_generations_are_never_reused(
    s: DeepLinkSnapshotView,
    raw: Seq<char>,
    g: u64,
    parsed: Option<ParsedUrlView>,
)
    requires
        link_snapshot_valid(s),
    ensures
        begin_link_view(s, raw).after.generation >= s.generation,
        complete_link_view(s, g, parsed).after.generation >= s.generation,
        consume_link_view(s, g).after.generation >= s.generation,
        begin_link_view(s, raw).effect matches Some(token) ==> token > s.generation && token
            == begin_link_view(s, raw).after.generation,
{
}

/// When the generation is exhausted, capturing fails closed at the maximum
/// generation, forgets the last intent, and hands out no token.
pub proof fn law_generation_exhaustion_fails_closed(s: DeepLinkSnapshotView, raw: Seq<char>)
    requires
        link_snapshot_valid(s),
        s.generation == MAX_PORTABLE_COUNTER,
    ensures
        begin_link_view(s, raw).disposition == DeepLinkDisposition::FailedClosed,
        begin_link_view(s, raw).reason == DeepLinkReason::InvalidSnapshot,
        begin_link_view(s, raw).effect is None,
        begin_link_view(s, raw).after.generation == s.generation,
        begin_link_view(s, raw).after.last_accepted is None,
{
}

/// A pending intent leaves admission only when the lifecycle applies it; when
/// the lifecycle refuses, the link stays pending, unchanged.
pub proof fn law_handoff_retains_link_until_lifecycle_applies(
    s: DeepLinkSnapshotView,
    l: AppSnapshotView,
)
    requires
        link_snapshot_valid(s),
        link_can_handoff(s),
    ensures
        ({
            let t = handoff_lifecycle_view(s, l)->0;
            let a = handoff_admission_view(s, l);
            &&& handoff_lifecycle_view(s, l) is Some
            &&& (a.disposition == DeepLinkDisposition::Consumed) == (t.disposition
                == TransitionDisposition::Applied)
            &&& t.disposition != TransitionDisposition::Applied ==> a.after == s
                && a.disposition == DeepLinkDisposition::Rejected
        }),
{
}

proof fn lemma_allowed_actions_are_trimmed(a: Seq<char>)
    requires
        is_allowed_action(a),
    ensures
        trim(a) == a,
{
    reveal_strlit("rotate-api-key");
    reveal_strlit("review-reconciliation");
    assert(!is_unicode_whitespace(a[0]));
    assert(!is_unicode_whitespace(a.last()));
    assert(trim_start(a) == a);
    assert(trim_end(a) == a);
}

/// A delivered handoff leaves the lifecycle awaiting confirmation of exactly
/// the admitted action, bound to the current authority.
pub proof fn law_delivered_handoff_requests_the_admitted_action(
    s: DeepLinkSnapshotView,
    l: AppSnapshotView,
)
    requires
        link_snapshot_valid(s),
        link_can_handoff(s),
        snapshot_valid(l),
        handoff_lifecycle_view(s, l)->0.disposition == TransitionDisposition::Applied,
    ensures
        ({
            let t = handoff_lifecycle_view(s, l)->0;
            &&& t.after.phase == AppPhase::ConfirmingAction
            &&& t.after.pending_action matches Some(p) && p.id == s.last_accepted->0
                && p.authority_epoch == l.authority_epoch
            &&& handoff_admission_view(s, l).disposition == DeepLinkDisposition::Consumed
        }),
{
    let action = s.last_accepted->0;
    law_step_preserves_validity(
        l,
        crate::app_lifecycle::AppEventView::ActionRequested { action_id: action },
    );
    lemma_allowed_actions_are_trimmed(action);
}

/// None of the characters that structure a link occurs in `a`.
spec fn plain_text(a: Seq<char>) -> bool {
    forall|i: int|
        0 <= i < a.len() ==> a[i] != '&' && a[i] != '=' && a[i] != '#' && a[i] != '%' && a[i]
            != '+' && a[i] != '?' && a[i] != '@' && a[i] != '/'
}

proof fn lemma_allowed_actions_are_plain(a: Seq<char>)
    requires
        is_allowed_action(a),
    ensures
        plain_text(a),
        a.len() > 0,
{
    reveal_strlit("rotate-api-key");
    reveal_strlit("review-reconciliation");
}

/// `s` has no occurrence of `c`.
proof fn lemma_no_first_index(s: Seq<char>, c: char)
    requires
        !s.contains(c),
    ensures
        first_index_of(s, c) is None,
{
    if exists|i: int| is_first_index(s, c, i) {
        let i = choose|i: int| is_first_index(s, c, i);
        assert(s[i] == c);
    }
}

/// The first `c` in `s` is at `k`.
proof fn lemma_first_index_at(s: Seq<char>, c: char, k: int)
    requires
        is_first_index(s, c, k),
    ensures
        first_index_of(s, c) == Some(k),
{
    let i = choose|i: int| is_first_index(s, c, i);
    crate::text::lemma_first_index_unique(s, c, i, k);
}

proof fn lemma_plain_split(s: Seq<char>, c: char)
    requires
        !s.contains(c),
    ensures
        split_seq(s, c) == seq![s],
{
    lemma_no_first_index(s, c);
}

/// The query `action=<a>` requests `a` when `a` is an allowed action.
proof fn lemma_query_of_allowed_action(a: Seq<char>)
    requires
        is_allowed_action(a),
    ensures
        query_action("action="@ + a) == Ok::<Seq<char>, DeepLinkReason>(a),
{
    reveal_strlit("action=");
    reveal_strlit("action");
    lemma_allowed_actions_are_plain(a);
    let q = "action="@ + a;
    assert(!q.contains('&')) by {
        if q.contains('&') {
            let i = choose|i: int| 0 <= i < q.len() && q[i] == '&';
            if i >= 7 {
                assert(a[i - 7] == '&');
            }
        }
    }
    lemma_plain_split(q, '&');
    let segs = split_seq(q, '&');
    assert(segs == seq![q]);
    assert(is_first_index(q, '=', 6));
    lemma_first_index_at(q, '=', 6);
    assert(q.skip(7) =~= a);
    assert(!a.contains('=')) by {
        if a.contains('=') {
            let i = choose|i: int| 0 <= i < a.len() && a[i] == '=';
            assert(a[i] != '=');
        }
    }
    lemma_plain_split(a, '=');
    assert(split_seq(q, '=') == seq![q.take(6)] + split_seq(q.skip(7), '='));
    assert(q.take(6) =~= "action"@);
    assert(split_seq(q, '=') =~= seq!["action"@, a]);
    assert(segment_value(q) == Ok::<Seq<char>, DeepLinkReason>(a));
    assert(segs[0] == q);
    assert(segs.drop_first() =~= Seq::<Seq<char>>::empty());
    assert(segment_values(segs.drop_first()) == Ok::<Seq<Seq<char>>, DeepLinkReason>(
        Seq::<Seq<char>>::empty(),
    ));
    assert(segment_values(segs) == Ok::<Seq<Seq<char>>, DeepLinkReason>(seq![a] + Seq::<Seq<char>>::empty()));
    assert(seq![a] + Seq::<Seq<char>>::empty() =~= seq![a]);
}

/// The canonical link of an allowed action is admitted, whenever the URL
/// parser reports it as an `https` URL on `fiducia.cloud` with no
/// credentials, port or fragment, the path `/open`, and the link itself as its
/// serialization.
pub proof fn law_canonical_links_are_admitted(a: Seq<char>, u: ParsedUrlView)
    requires
        is_allowed_action(a),
        u.scheme == "https"@,
        u.username.len() == 0,
        u.password is None,
        u.host == Some("fiducia.cloud"@),
        u.port is None,
        u.fragment is None,
        u.path == "/open"@,
        u.serialization == canonical_url_view(a),
    ensures
        admission_result(canonical_url_view(a), Some(u)) == Ok::<Seq<char>, DeepLinkReason>(a),
{
    reveal_strlit("https://fiducia.cloud/open?action=");
    reveal_strlit("https://");
    reveal_strlit("fiducia.cloud");
    reveal_strlit("fiducia.cloud:");
    lemma_allowed_actions_are_plain(a);
    let p = "https://fiducia.cloud/open?action="@;
    let raw = canonical_url_view(a);
    assert(raw == p + a);
    assert(p.len() == 34);
    assert(has_prefix(raw, "https://"@)) by {
        assert(raw.take(8) =~= "https://"@);
    }
    let rest = raw.skip(8);
    assert(is_first_terminator(rest, 13));
    assert(authority_len(rest) == 13) by {
        let i = choose|i: int| is_first_terminator(rest, i);
        if i < 13 {
            assert(rest[i] == raw[8 + i]);
        }
        if i > 13 {
            assert(rest[13] == '/');
        }
    }
    let authority = raw_authority(raw);
    assert(authority =~= "fiducia.cloud"@);
    assert(!authority.contains('@'));
    assert(!has_prefix(authority, "fiducia.cloud:"@));
    assert(!raw.contains('#') && !raw.contains('%') && !raw.contains('+')) by {
        assert forall|i: int| 0 <= i < raw.len() implies raw[i] != '#' && raw[i] != '%'
            && raw[i] != '+' by {
            if i >= 34 {
                assert(raw[i] == a[i - 34]);
            }
        }
    }
    assert(is_first_index(raw, '?', 26));
    lemma_first_index_at(raw, '?', 26);
    assert(raw.skip(27) =~= "action="@ + a) by {
        reveal_strlit("action=");
    }
    lemma_query_of_allowed_action(a);
}

/// Resolving the canonical link of an allowed action accepts it, whenever the
/// URL parser reports that link as `law_canonical_links_are_admitted` describes.
pub proof fn law_canonical_capture_is_accepted(s: DeepLinkSnapshotView, a: Seq<char>)
    requires
        link_snapshot_valid(s),
        s.phase == DeepLinkPhase::Resolving,
        s.candidate == Some(canonical_url_view(a)),
        is_allowed_action(a),
        url_parse(canonical_url_view(a)) matches Some(u) && u.scheme == "https"@
            && u.username.len() == 0 && u.password is None && u.host == Some("fiducia.cloud"@)
            && u.port is None && u.fragment is None && u.path == "/open"@ && u.serialization
            == canonical_url_view(a),
    ensures
        complete_link_view(s, s.generation, url_parse(canonical_url_view(a))).disposition
            == DeepLinkDisposition::Accepted,
        complete_link_view(s, s.generation, url_parse(canonical_url_view(a))).intent == Some(a),
{
    law_canonical_links_are_admitted(a, url_parse(canonical_url_view(a))->0);
}

/// A newer capture always supersedes whatever is in progress: from a valid
/// snapshot with room for another generation, a raw link that passes preflight
/// starts resolving under the next generation, whether the machine was idle,
/// resolving an earlier link or holding a pending intent, and the remembered
/// intent is kept. A capture is refused only by preflight, with its reason.
pub proof fn law_capture_supersedes_whatever_is_in_progress(s: DeepLinkSnapshotView, raw: Seq<char>)
    requires
        link_snapshot_valid(s),
        s.generation < MAX_PORTABLE_COUNTER,
    ensures
        ({
            let t = begin_link_view(s, raw);
            &&& preflight_reason(raw) is None ==> {
                &&& t.disposition == DeepLinkDisposition::Began
                &&& t.reason == DeepLinkReason::Resolving
                &&& t.after.phase == DeepLinkPhase::Resolving
                &&& t.after.candidate == Some(raw)
                &&& t.after.generation == s.generation + 1
                &&& t.effect == Some((s.generation + 1) as u64)
                &&& t.after.last_accepted == s.last_accepted
                &&& t.intent is None
            }
            &&& t.disposition == DeepLinkDisposition::Rejected ==> {
                &&& preflight_reason(raw) == Some(t.reason)
                &&& t.after == s
                &&& t.effect is None
            }
            &&& t.disposition == DeepLinkDisposition::Began || t.disposition
                == DeepLinkDisposition::Rejected
        }),
{
}

/// Completing the resolution that is in progress under its own token ends it
/// either way without moving the generation: an admitted link becomes the
/// pending intent, a refused one returns to idle keeping the last accepted
/// intent. Any other token, or no resolution in progress, is stale and changes
/// nothing.
pub proof fn law_completion_ends_the_resolution_in_progress(
    s: DeepLinkSnapshotView,
    g: u64,
    parsed: Option<ParsedUrlView>,
)
    requires
        link_snapshot_valid(s),
    ensures
        ({
            let t = complete_link_view(s, g, parsed);
            &&& (s.phase != DeepLinkPhase::Resolving || g != s.generation) ==> {
                &&& t.disposition == DeepLinkDisposition::Stale
                &&& t.reason == DeepLinkReason::StaleGeneration
                &&& t.after == s
            }
            &&& (s.phase == DeepLinkPhase::Resolving && g == s.generation) ==> {
                &&& t.after.generation == s.generation
                &&& t.after.candidate is None
                &&& t.effect is None
                &&& (t.disposition == DeepLinkDisposition::Accepted) == (admission_result(
                    s.candidate->0,
                    parsed,
                ) is Ok)
                &&& t.disposition == DeepLinkDisposition::Accepted ==> {
                    &&& t.after.phase == DeepLinkPhase::Pending
                    &&& t.after.last_accepted == t.intent
                    &&& t.intent == Some(admission_result(s.candidate->0, parsed)->Ok_0)
                }
                &&& t.disposition != DeepLinkDisposition::Accepted ==> {
                    &&& t.disposition == DeepLinkDisposition::Rejected
                    &&& t.after.phase == DeepLinkPhase::Idle
                    &&& t.after.last_accepted == s.last_accepted
                    &&& t.intent is None
                }
            }
        }),
{
}

/// Consuming under the current token hands out the pending intent exactly
/// once: it returns to idle with the generation kept, and a second consumption
/// is refused. Without a pending intent it is refused, and under another token
/// it is stale; neither changes anything.
pub proof fn law_pending_intent_is_consumed_once(s: DeepLinkSnapshotView, g: u64)
    requires
        link_snapshot_valid(s),
    ensures
        ({
            let t = consume_link_view(s, g);
            &&& g != s.generation ==> t.disposition == DeepLinkDisposition::Stale && t.after == s
                && t.intent is None
            &&& (g == s.generation && s.phase != DeepLinkPhase::Pending) ==> {
                &&& t.disposition == DeepLinkDisposition::Rejected
                &&& t.reason == DeepLinkReason::NotPending
                &&& t.after == s
                &&& t.intent is None
            }
            &&& (g == s.generation && s.phase == DeepLinkPhase::Pending) ==> {
                &&& t.disposition == DeepLinkDisposition::Consumed
                &&& t.intent == s.last_accepted
                &&& t.intent is Some
                &&& t.after.phase == DeepLinkPhase::Idle
                &&& t.after.generation == s.generation
                &&& consume_link_view(t.after, g).disposition == DeepLinkDisposition::Rejected
            }
        }),
{
    law_operations_keep_snapshot_valid(s, Seq::empty(), g, None);
}

} // verus!
