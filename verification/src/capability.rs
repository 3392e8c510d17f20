//! Input-source capability negotiation.
//!
//! A scanner exposes its input sources (document feeder, flatbed) through
//! two bitmask properties: a static "document handling capabilities" mask
//! and a dynamic "document handling status" mask. Detection runs as an
//! ordered strategy list: primary mask, then status mask, then a
//! permissive default, and is computed once per property scope; the
//! per-scope results are combined with a logical OR per flag.
use vstd::prelude::*;
use crate::property::PropertyValue;

verus! {

/// Bit set in a document-handling bitmask when a document feeder is present.
pub const FEEDER_BIT: i32 = 1;

/// Bit set in a document-handling bitmask when a flatbed is present.
pub const FLATBED_BIT: i32 = 2;

/// Which input sources a scanner offers.
#[derive(Clone, Copy, Debug, PartialEq, Eq, Structural)]
pub struct CapabilityFlags {
    pub supports_feeder: bool,
    pub supports_flatbed: bool,
}

/// The flags a document-handling bitmask encodes, one bit per source.
pub open spec fn flags_from_mask(mask: i32) -> CapabilityFlags {
    CapabilityFlags {
        supports_feeder: (mask & FEEDER_BIT) != 0,
        supports_flatbed: (mask & FLATBED_BIT) != 0,
    }
}

/// The permissive default: a detection that found no source at all is
/// read as "both available", so an operator can still attempt either
/// source and let the device itself refuse, rather than being denied a
/// scan the device may well support.
pub open spec fn with_permissive_default(flags: CapabilityFlags) -> CapabilityFlags {
    if !flags.supports_feeder && !flags.supports_flatbed {
        CapabilityFlags { supports_feeder: true, supports_flatbed: true }
    } else {
        flags
    }
}

/// Whether the primary capability read produced a usable signal: an
/// integer bitmask. A read error or any other value type is no signal.
pub open spec fn primary_usable(primary: Result<PropertyValue, u32>) -> bool {
    primary matches Ok(PropertyValue::Int32(_))
}

/// The capability flags an ordered three-tier strategy settles on:
/// 1. a usable primary capabilities bitmask decides both flags (with the
///    permissive default when it names no source);
/// 2. otherwise a usable status bitmask decides the feeder flag, and the
///    flatbed is assumed present, since status alone cannot disprove it
///    (a deliberate heuristic kept for behavioral parity, not a verified
///    capability of the device);
/// 3. otherwise the permissive default: both sources assumed available.
pub open spec fn detected(
    primary: Result<PropertyValue, u32>,
    fallback: Result<PropertyValue, u32>,
) -> CapabilityFlags {
    match primary {
        Ok(PropertyValue::Int32(mask)) => with_permissive_default(flags_from_mask(mask)),
        _ => match fallback {
            Ok(PropertyValue::Int32(mask)) => CapabilityFlags {
                supports_feeder: (mask & FEEDER_BIT) != 0,
                supports_flatbed: true,
            },
            _ => CapabilityFlags { supports_feeder: true, supports_flatbed: true },
        },
    }
}

/// Whether the fallback status property is worth reading at all: only
/// when the primary capability read yielded no usable bitmask.
pub fn needs_fallback(primary: &Result<PropertyValue, u32>) -> (r: bool)
    ensures
        r == !primary_usable(*primary),
{
    !(match primary {
        Ok(PropertyValue::Int32(_)) => true,
        _ => false,
    })
}

/// Decides the input sources of one property scope from the outcomes of
/// its two bitmask reads, primary capabilities first, status second.
/// The decision is a pure function of the two outcomes; when the
/// primary read is usable the fallback outcome is ignored, so a caller
/// that skips the second read may pass any placeholder for it.
pub fn detect_capabilities(
    primary: &Result<PropertyValue, u32>,
    fallback: &Result<PropertyValue, u32>,
) -> (flags: CapabilityFlags)
    ensures
        flags == detected(*primary, *fallback),
{
    match primary {
        Ok(PropertyValue::Int32(mask)) => {
            let found = CapabilityFlags {
                supports_feeder: (*mask & FEEDER_BIT) != 0,
                supports_flatbed: (*mask & FLATBED_BIT) != 0,
            };
            if !found.supports_feeder && !found.supports_flatbed {
                CapabilityFlags { supports_feeder: true, supports_flatbed: true }
            } else {
                found
            }
        },
        _ => match fallback {
            Ok(PropertyValue::Int32(mask)) => CapabilityFlags {
                supports_feeder: (*mask & FEEDER_BIT) != 0,
                supports_flatbed: true,
            },
            _ => CapabilityFlags { supports_feeder: true, supports_flatbed: true },
        },
    }
}

/// Picks the source for a scan: when both sources are available the
/// operator's stated preference decides, a feeder-only device always
/// feeds, and anything else falls back to the flatbed.
pub fn select_source(flags: &CapabilityFlags, feeder_requested: bool) -> (use_feeder: bool)
    ensures
        use_feeder == if flags.supports_feeder && flags.supports_flatbed {
            feeder_requested
        } else {
            flags.supports_feeder
        },
{
    if flags.supports_feeder && flags.supports_flatbed {
        feeder_requested
    } else {
        flags.supports_feeder
    }
}

/// Capability union of two detection scopes: a source is considered
/// available as soon as either scope reports it.
pub fn combine_capabilities(device_scope: &CapabilityFlags, item_scope: &CapabilityFlags) -> (r:
    CapabilityFlags)
    ensures
        r.supports_feeder == (device_scope.supports_feeder || item_scope.supports_feeder),
        r.supports_flatbed == (device_scope.supports_flatbed || item_scope.supports_flatbed),
{
    CapabilityFlags {
        supports_feeder: device_scope.supports_feeder || item_scope.supports_feeder,
        supports_flatbed: device_scope.supports_flatbed || item_scope.supports_flatbed,
    }
}

} // verus!
