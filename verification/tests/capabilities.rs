use wia_scan::{
    combine_capabilities, detect_capabilities, needs_fallback, select_source, CapabilityFlags,
    PropertyValue,
};

fn flags(supports_feeder: bool, supports_flatbed: bool) -> CapabilityFlags {
    CapabilityFlags { supports_feeder, supports_flatbed }
}

fn absent() -> Result<PropertyValue, u32> {
    Ok(PropertyValue::Absent)
}

#[test]
fn primary_mask_decides_both_flags() {
    // Feeder bit set, flatbed bit clear.
    let r = detect_capabilities(&Ok(PropertyValue::Int32(1)), &absent());
    assert_eq!(r, flags(true, false));
    // Flatbed bit set, feeder bit clear.
    let r = detect_capabilities(&Ok(PropertyValue::Int32(2)), &absent());
    assert_eq!(r, flags(false, true));
    // Both bits set, amid unrelated bits.
    let r = detect_capabilities(&Ok(PropertyValue::Int32(0x43)), &absent());
    assert_eq!(r, flags(true, true));
}

#[test]
fn primary_mask_naming_no_source_falls_to_permissive_default() {
    let r = detect_capabilities(&Ok(PropertyValue::Int32(0)), &absent());
    assert_eq!(r, flags(true, true));
    // Unrelated bits only: still no source named.
    let r = detect_capabilities(&Ok(PropertyValue::Int32(0x40)), &absent());
    assert_eq!(r, flags(true, true));
}

#[test]
fn fallback_status_decides_feeder_and_assumes_flatbed() {
    let r = detect_capabilities(&absent(), &Ok(PropertyValue::Int32(1)));
    assert_eq!(r, flags(true, true));
    let r = detect_capabilities(&Err(0x80210005), &Ok(PropertyValue::Int32(1)));
    assert_eq!(r, flags(true, true));
    // Feeder bit clear in the status mask: flatbed still assumed.
    let r = detect_capabilities(&absent(), &Ok(PropertyValue::Int32(2)));
    assert_eq!(r, flags(false, true));
}

#[test]
fn no_usable_signal_assumes_both_sources() {
    let r = detect_capabilities(&absent(), &absent());
    assert_eq!(r, flags(true, true));
    let r = detect_capabilities(&Err(0x80210005), &Err(0x80210005));
    assert_eq!(r, flags(true, true));
    let text: Result<PropertyValue, u32> = Ok(PropertyValue::Text(String::from("3")));
    let r = detect_capabilities(&text, &text);
    assert_eq!(r, flags(true, true));
}

#[test]
fn fallback_needed_exactly_when_primary_is_not_an_integer() {
    assert!(!needs_fallback(&Ok(PropertyValue::Int32(0))));
    assert!(needs_fallback(&Ok(PropertyValue::Absent)));
    assert!(needs_fallback(&Ok(PropertyValue::Text(String::new()))));
    assert!(needs_fallback(&Err(0x80210006)));
}

#[test]
fn scope_results_combine_with_logical_or() {
    let r = combine_capabilities(&flags(false, true), &flags(true, false));
    assert_eq!(r, flags(true, true));
    let r = combine_capabilities(&flags(false, false), &flags(false, false));
    assert_eq!(r, flags(false, false));
    let r = combine_capabilities(&flags(true, false), &flags(false, false));
    assert_eq!(r, flags(true, false));
    let r = combine_capabilities(&flags(false, false), &flags(false, true));
    assert_eq!(r, flags(false, true));
}

#[test]
fn source_selection_honours_choice_only_when_both_available() {
    assert!(select_source(&flags(true, true), true));
    assert!(!select_source(&flags(true, true), false));
    // Feeder-only: always the feeder, whatever was asked.
    assert!(select_source(&flags(true, false), false));
    // Flatbed-only: always the flatbed.
    assert!(!select_source(&flags(false, true), true));
}
