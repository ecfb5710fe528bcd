//! Fiducia desktop core: the verified application lifecycle and deep-link
//! admission state machines shared by the native desktop shell.

pub mod app_lifecycle;
pub mod deep_link_admission;
pub mod deep_link_laws;
pub mod lifecycle_laws;
pub mod link_parsing;
pub mod text;

pub use app_lifecycle::{
    AppCapabilities, AppEffect, AppEffectKind, AppEvent, AppLifecycleMachine, AppOperation,
    AppPhase, AppSnapshot, AppTransition, PendingAction, TransitionDisposition,
};
pub use deep_link_admission::{
    ALLOWED_DEEP_LINK_ACTIONS, DEEP_LINK_CONTRACT_VERSION, DeepLinkAdmissionMachine,
    DeepLinkDisposition, DeepLinkEffect, DeepLinkHandoff, DeepLinkIntent, DeepLinkPhase,
    DeepLinkReason, DeepLinkSnapshot, DeepLinkTransition, MAXIMUM_DEEP_LINK_BYTES,
};
