//! Addon synchronisation, as a library of verified steps.
//!
//! A run settles its two settings ([`settings`]), reads the identifiers off
//! the addon list ([`addon_list`]), and hands them to the driver
//! ([`driver`]). The driver names, one after the other, the actions that the
//! caller has to carry out: request an archive ([`fetch`]), unpack the bytes
//! that came back ([`extract`], on top of [`archive`]), pause. Nothing in
//! this crate touches the network, the file system or the clock.

pub mod addon_list;
pub mod archive;
pub mod driver;
pub mod extract;
pub mod fetch;
pub mod settings;
pub mod text;

pub use addon_list::{parse_addon_list, read_addon_list, ListUnreadable};
pub use archive::{read_members, Member};
pub use driver::{Action, Event, FailurePolicy, Report, SyncDriver, SyncOutcome, PACING_MILLIS};
pub use extract::{
    plan_extraction, plan_member, plan_members, resolve_path, ExtractError, ExtractStep,
};
pub use fetch::{archive_of_response, download_url, is_success, FetchReply};
pub use settings::{
    lookup, resolve, resolve_values, ConfigKey, MissingConfiguration, ResolvedConfig,
};
