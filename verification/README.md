# Fiducia desktop core

The headless core of the native Fiducia operator desktop: the application
lifecycle state machine and the deep-link admission machine, written in Verus
and proved against their specifications.

## Layout

- `src/app_lifecycle.rs` — lifecycle types, the transition relation as spec
  functions over views (`transition_view`), and the executable machine proved
  to compute exactly that relation.
- `src/lifecycle_laws.rs` — properties of the relation: every transition ends
  in a valid snapshot, steps preserve the invariant, rejected and stale events
  stutter, offline mode is read-only, execution needs confirmation, sign-out
  revokes authority first, ambiguous outcomes block new writes, capabilities
  match what is not refused, and every phase and disposition is reachable from
  the cold state.
- `src/link_parsing.rs` — preflight and admission of captured links. The `url`
  crate parses; its report is carried in `ParsedUrl` and every admission rule
  applied to it is verified (`admit_parsed`).
- `src/deep_link_admission.rs` — the admission machine: capture, resolution
  under a generation token, consumption, and handoff to the lifecycle.
- `src/deep_link_laws.rs` — admitted links are canonical URLs of allowed
  actions, operations keep the snapshot valid, tokens are never reused, and a
  link is retained until the lifecycle applies it; the canonical link of an
  allowed action is admitted whenever the parser reports it as such.
- `src/text.rs` — Unicode whitespace and control classes, UTF-8 byte length,
  trimming, splitting and searching over characters.
- `app/main.rs` — the GPUI window that renders the state.
