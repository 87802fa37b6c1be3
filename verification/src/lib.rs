//! Verified core of a host for VST3 audio plugins.
//!
//! The modules here hold the host-side logic that a VST3 plugin drives
//! through the COM interfaces the host hands it: the in-memory state stream,
//! sample-accurate parameter queues, the event list, the data-exchange block
//! queues, the host application identity, and the decisions the plugin
//! lifecycle makes on the codes a plugin returns. Raw COM plumbing (vtables,
//! pointers, dynamic loading) lives outside this crate's verified part and
//! calls into these types with plain values.

pub mod attributes;
pub mod bundle;
pub mod constants;
pub mod data_exchange;
pub mod error;
pub mod event_list;
pub mod events;
pub mod handlers;
pub mod helpers;
pub mod host_app;
pub mod info;
pub mod inline_lists;
pub mod param_changes;
pub mod param_queue;
pub mod parameter_flags;
pub mod params;
pub mod processing;
pub mod rt_cell;
pub mod stream;
pub mod transport;

pub use error::{LoadStage, Vst3Error};
pub use params::{ParameterChanges, ParameterPoint, ParameterQueue};
pub use stream::BStream;
