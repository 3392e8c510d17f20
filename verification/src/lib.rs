//! Core logic of a flatbed/feeder scanner driver built on a generic
//! key-value property store: translating subsystem status codes into
//! diagnostics, normalizing property reads, negotiating input-source
//! capabilities, cataloguing devices, and orchestrating a single-page
//! scan as an explicit state machine.
use vstd::prelude::*;

mod capability;
mod catalog;
mod errors;
mod property;
mod scan;

pub use capability::CapabilityFlags;
pub use capability::FEEDER_BIT;
pub use capability::FLATBED_BIT;
pub use capability::combine_capabilities;
pub use capability::detect_capabilities;
pub use capability::detected;
pub use capability::flags_from_mask;
pub use capability::needs_fallback;
pub use capability::primary_usable;
pub use capability::select_source;
pub use capability::with_permissive_default;
pub use catalog::DeviceCatalog;
pub use catalog::DeviceRecord;
pub use errors::describe_status;
pub use errors::format_status;
pub use errors::hex_digit_char;
pub use errors::lemma_message_carries_code;
pub use errors::render_message;
pub use errors::rendered_message;
pub use errors::status_text;
pub use errors::translate;
pub use errors::translated;
pub use property::PropertyValue;
pub use property::RawVariant;
pub use property::PROP_DEVICE_DESC;
pub use property::PROP_DEVICE_ID;
pub use property::PROP_DEVICE_NAME;
pub use property::PROP_HANDLING_CAPABILITIES;
pub use property::PROP_HANDLING_SELECT;
pub use property::PROP_HANDLING_STATUS;
pub use property::TAG_INT32;
pub use property::TAG_TEXT;
pub use property::is_normalized;
pub use property::is_read_outcome;
pub use property::read_property;
pub use property::read_text_property;
pub use property::text_of;
pub use property::text_or_empty;
pub use scan::ScanAction;
pub use scan::ScanEvent;
pub use scan::ScanOutcome;
pub use scan::ScanPhase;
pub use scan::ScanRequest;
pub use scan::ScanSession;
pub use scan::action_for;
pub use scan::event_fits;
pub use scan::lemma_failure_carries_status;
pub use scan::lemma_mode_write_failure_nonfatal;
pub use scan::lemma_session_progress;
pub use scan::phase_rank;
pub use scan::stepped;

verus! {

} // verus!
