use wia_scan::{describe_status, format_status, render_message, translate};

fn expect(code: &str, name: &str, description: &str) {
    let (n, d) = translate(code).expect(code);
    assert_eq!(n, name);
    assert_eq!(d, description);
}

#[test]
fn translates_every_known_code() {
    expect(
        "0x80210006",
        "WIA_ERROR_BUSY",
        "The device is busy. Close any apps that are using this device or wait for it to finish and then try again.",
    );
    expect(
        "0x80210016",
        "WIA_ERROR_COVER_OPEN",
        "One or more of the device’s cover is open.",
    );
    expect(
        "0x8021000A",
        "WIA_ERROR_DEVICE_COMMUNICATION",
        "Communication with the WIA device failed. Make sure that the device is powered on and connected to the PC. If the problem persists, disconnect and reconnect the device.",
    );
    expect(
        "0x8021000D",
        "WIA_ERROR_DEVICE_LOCKED",
        "The device is locked. Close any apps that are using this device or wait for it to finish and then try again.",
    );
    expect(
        "0x8021000E",
        "WIA_ERROR_EXCEPTION_IN_DRIVER",
        "The device driver threw an exception.",
    );
    expect(
        "0x80210001",
        "WIA_ERROR_GENERAL_ERROR",
        "An unknown error has occurred with the WIA device.",
    );
    expect(
        "0x8021000C",
        "WIA_ERROR_INCORRECT_HARDWARE_SETTING",
        "There is an incorrect setting on the WIA device.",
    );
    expect(
        "0x8021000B",
        "WIA_ERROR_INVALID_COMMAND",
        "The device doesn't support this command.",
    );
    expect(
        "0x8021000F",
        "WIA_ERROR_INVALID_DRIVER_RESPONSE",
        "The response from the driver is invalid.",
    );
    expect(
        "0x80210009",
        "WIA_ERROR_ITEM_DELETED",
        "The WIA device was deleted. It's no longer available.",
    );
    expect("0x80210017", "WIA_ERROR_LAMP_OFF", "The scanner's lamp is off.");
    expect(
        "0x80210021",
        "WIA_ERROR_MAXIMUM_PRINTER_ENDORSER_COUNTER",
        "A scan job was interrupted because an Imprinter/Endorser item reached the maximum valid value for WIA_IPS_PRINTER_ENDORSER_COUNTER, and was reset to 0. This feature is available with Windows 8 and later versions of Windows.",
    );
    expect(
        "0x80210020",
        "WIA_ERROR_MULTI_FEED",
        "A scan error occurred because of a multiple page feed condition. This feature is available with Windows 8 and later versions of Windows.",
    );
    expect(
        "0x80210005",
        "WIA_ERROR_OFFLINE",
        "The device is offline. Make sure the device is powered on and connected to the PC.",
    );
    expect(
        "0x80210003",
        "WIA_ERROR_PAPER_EMPTY",
        "There are no documents in the document feeder.",
    );
    expect(
        "0x80210002",
        "WIA_ERROR_PAPER_JAM",
        "Paper is jammed in the scanner's document feeder.",
    );
    expect(
        "0x80210004",
        "WIA_ERROR_PAPER_PROBLEM",
        "An unspecified problem occurred with the scanner's document feeder.",
    );
    expect("0x80210007", "WIA_ERROR_WARMING_UP", "The device is warming up.");
    expect(
        "0x80210008",
        "WIA_ERROR_USER_INTERVENTION",
        "There is a problem with the WIA device. Make sure that the device is turned on, online, and any cables are properly connected.",
    );
    expect(
        "0x80210015",
        "WIA_S_NO_DEVICE_AVAILABLE",
        "No scanner device was found. Make sure the device is online, connected to the PC, and has the correct driver installed on the PC.",
    );
}

#[test]
fn unknown_code_has_no_entry() {
    assert!(translate("0x12345678").is_none());
    assert!(translate("0x80210006 ").is_none());
    assert!(translate("0x8021000a").is_none());
    assert!(translate("").is_none());
}

#[test]
fn unknown_code_message_carries_raw_code() {
    let msg = render_message("0x12345678");
    assert!(msg.contains("0x12345678"));
    assert_eq!(msg, "0x12345678 - unknown error");
}

#[test]
fn known_code_message_has_code_name_and_description() {
    let msg = render_message("0x80210002");
    assert_eq!(
        msg,
        "0x80210002 - WIA_ERROR_PAPER_JAM - Paper is jammed in the scanner's document feeder."
    );
}

#[test]
fn formats_status_as_uppercase_hex() {
    assert_eq!(format_status(0x80210006), "0x80210006");
    assert_eq!(format_status(0), "0x00000000");
    assert_eq!(format_status(0xABCDEF12), "0xABCDEF12");
    assert_eq!(format_status(u32::MAX), "0xFFFFFFFF");
}

#[test]
fn describes_raw_status_codes() {
    assert_eq!(
        describe_status(0x80210007),
        "0x80210007 - WIA_ERROR_WARMING_UP - The device is warming up."
    );
    assert_eq!(describe_status(0xDEADBEEF), "0xDEADBEEF - unknown error");
}
