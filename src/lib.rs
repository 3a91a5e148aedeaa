//! A resilient subscriber client core: message rendering, lifecycle-event
//! decisions and the supervision state machine that drives reconnection.

mod formatter;
mod laws;
mod lifecycle;
mod settings;
mod supervisor;

pub use formatter::{choose_display, format_ql_json, formatted, json_compact, json_parses, json_pretty};
pub use settings::{
    client_identity, identity_from, is_hyphenated_uuid, lemma_stripped_uuid, strip_hyphens,
    subscriber_settings,
    without_hyphens, SubscriberSettings, HEARTBEAT_MS, PLAIN_USERNAME, ZAP_DOMAIN,
};
pub use lifecycle::{
    classify, connecting_text, handle_event, reconnect_error_text, EventKind, HandlerOutcome,
    LifecycleEvent, Reaction,
};
pub use supervisor::{Config, LoopAction, Phase, StepOutput, Supervisor};
pub use laws::{
    fatal_event_stops, one_notice_per_outage, reconnecting_notices, shutdown_flushes,
    stopped_stays_stopped,
};
