//! The decisions of the Nelomai client: incident detection and reporting,
//! connection recovery, tray presentation, protected storage frames and the
//! projections shown to the user. Everything here is a function of plain
//! values; reading clocks, files and sockets is left to the caller.
pub mod android_laws;
pub mod android_projection;
pub mod android_provision;
pub mod android_runtime;
pub mod app_responses;
pub mod archive_laws;
pub mod automatic_diagnostics;
pub mod command_records;
pub mod commands;
pub mod connection_commands;
pub mod connection_intent;
pub mod connection_metrics;
pub mod container;
pub mod core_state;
pub mod defender;
pub mod detection_laws;
pub mod diagnostics;
pub mod errors;
pub mod identifiers;
pub mod incident_archive;
pub mod incident_compaction;
pub mod incident_laws;
pub mod intent_attempt;
pub mod intent_laws;
pub mod intent_runtime;
pub mod message_laws;
pub mod metrics_laws;
pub mod metrics_scheduler;
pub mod network_incidents;
pub mod owner_laws;
pub mod platform;
pub mod platform_laws;
pub mod preferences;
pub mod private_storage;
pub mod record_laws;
pub mod recovery_gate;
pub mod recovery_laws;
pub mod report_delivery;
pub mod report_laws;
pub mod report_logs;
pub mod resource_usage;
pub mod runtime_commands;
pub mod schedulers;
pub mod service_laws;
pub mod service_recovery;
pub mod split_tunnel;
pub mod stall_recovery;
pub mod text;
pub mod text_laws;
pub mod tray;
pub mod tunnel;
pub mod usage_laws;
pub mod versions;
