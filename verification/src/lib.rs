//! Convergence engine for asynchronous long-running cloud operations.
//!
//! The library locates the handle of an asynchronously processed request in
//! response headers, classifies operation statuses into terminal and
//! non-terminal ones, drives batches of independent per-resource operations
//! to completion, and builds the provider-mandated composite names for backup
//! registration.  All remote calls, sleeping and rendering live outside the
//! library; it works on plain values handed in by its caller and every
//! function is verified against its contract.

use vstd::prelude::*;

mod error;
mod headers;
mod locator;
mod orchestrator;
mod status;
mod store;
mod text;
mod tracker;
mod vm_status;

pub use error::AppError;
pub use headers::{first_match, Header, Headers};
pub use locator::{
    handle_header_value, lemma_async_operation_preferred, lemma_no_handle_without_headers, locate,
    locate_failure, located_handle, parsed_url_path, retry_after, retry_after_of, OperationHandle,
    DEFAULT_RETRY_SECS,
};
pub use orchestrator::{
    build_registration_request, container_name, policy_id, protected_item_name, select_targets,
    source_resource_id, spec_container_name, spec_policy_id, spec_protected_item_name,
    spec_registration_url, spec_selected, spec_source_resource_id, success_count,
    BatchRegistrationOrchestrator, RegistrationOutcome, RegistrationRequest, RegistrationTarget,
    ResourceRef,
};
pub use status::{next_poll_step, refresh_complete, OperationStatus, PollStep};
pub use store::{get_opt, Store};
pub use text::{
    all_digits, contains_seq, contains_str, dec_value, digit_val, eq_ignore_ascii_case,
    final_segment, is_dec_digit, last_path_segment, lower_char, lower_seq, name_matches, parse_u64,
};
pub use tracker::{
    dedup_names, distinct_names, has_name, lemma_immediate_convergence,
    lemma_round_keeps_no_name_twice, name_in, round_keep, StatePollTracker, ROUND_INTERVAL_SECS,
};
pub use vm_status::{
    display_of, is_power_status, power_state, spec_power_state, InstanceStatus, VmCommand,
};

verus! {

/// How a set of records is handed to a rendering routine: one record on its
/// own, or a listing of many.
pub enum Output<'a, T> {
    Single(&'a T),
    Multiple(&'a [T]),
}

} // verus!
