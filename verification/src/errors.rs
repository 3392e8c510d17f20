//! Translation of imaging-subsystem status codes into diagnostics.
//!
//! The subsystem reports failures as 32-bit status codes, conventionally
//! rendered as `0x` followed by eight uppercase hexadecimal digits. A
//! fixed table maps the known codes to a symbolic name and a user-facing
//! description; unknown codes are rendered generically, keeping the raw
//! code visible for diagnostics.
use vstd::prelude::*;
use vstd::string::StringExecFns;

verus! {

/// The character a hexadecimal digit is rendered as, uppercase.
pub open spec fn hex_digit_char(n: u32) -> char {
    if n == 0 {
        '0'
    } else if n == 1 {
        '1'
    } else if n == 2 {
        '2'
    } else if n == 3 {
        '3'
    } else if n == 4 {
        '4'
    } else if n == 5 {
        '5'
    } else if n == 6 {
        '6'
    } else if n == 7 {
        '7'
    } else if n == 8 {
        '8'
    } else if n == 9 {
        '9'
    } else if n == 10 {
        'A'
    } else if n == 11 {
        'B'
    } else if n == 12 {
        'C'
    } else if n == 13 {
        'D'
    } else if n == 14 {
        'E'
    } else {
        'F'
    }
}

/// The canonical text form of a 32-bit status code: `0x` followed by
/// eight uppercase hexadecimal digits, most significant nibble first.
pub open spec fn status_text(status: u32) -> Seq<char> {
    seq![
        '0',
        'x',
        hex_digit_char((status >> 28) & 0xF),
        hex_digit_char((status >> 24) & 0xF),
        hex_digit_char((status >> 20) & 0xF),
        hex_digit_char((status >> 16) & 0xF),
        hex_digit_char((status >> 12) & 0xF),
        hex_digit_char((status >> 8) & 0xF),
        hex_digit_char((status >> 4) & 0xF),
        hex_digit_char(status & 0xF),
    ]
}

/// One uppercase hexadecimal digit as a string slice.
fn hex_digit_str(n: u32) -> (r: &'static str)
    requires
        n < 16,
    ensures
        r@ == seq![hex_digit_char(n)],
{
    proof {
        reveal_strlit("0");
        reveal_strlit("1");
        reveal_strlit("2");
        reveal_strlit("3");
        reveal_strlit("4");
        reveal_strlit("5");
        reveal_strlit("6");
        reveal_strlit("7");
        reveal_strlit("8");
        reveal_strlit("9");
        reveal_strlit("A");
        reveal_strlit("B");
        reveal_strlit("C");
        reveal_strlit("D");
        reveal_strlit("E");
        reveal_strlit("F");
    }
    let r: &'static str = if n == 0 {
        "0"
    } else if n == 1 {
        "1"
    } else if n == 2 {
        "2"
    } else if n == 3 {
        "3"
    } else if n == 4 {
        "4"
    } else if n == 5 {
        "5"
    } else if n == 6 {
        "6"
    } else if n == 7 {
        "7"
    } else if n == 8 {
        "8"
    } else if n == 9 {
        "9"
    } else if n == 10 {
        "A"
    } else if n == 11 {
        "B"
    } else if n == 12 {
        "C"
    } else if n == 13 {
        "D"
    } else if n == 14 {
        "E"
    } else {
        "F"
    };
    proof {
        assert(r@ =~= seq![hex_digit_char(n)]);
    }
    r
}

/// Renders a status code in the canonical form the fixed table is keyed
/// by, matching the subsystem's own formatter.
pub fn format_status(status: u32) -> (r: String)
    ensures
        r@ == status_text(status),
{
    proof {
        reveal_strlit("0x");
        assert(((status >> 28) & 0xF) < 16 && ((status >> 24) & 0xF) < 16 && ((status >> 20)
            & 0xF) < 16 && ((status >> 16) & 0xF) < 16 && ((status >> 12) & 0xF) < 16 && ((status
            >> 8) & 0xF) < 16 && ((status >> 4) & 0xF) < 16 && (status & 0xF) < 16)
            by (bit_vector);
    }
    let mut out: String = "0x".to_owned();
    out.append(hex_digit_str((status >> 28) & 0xF));
    out.append(hex_digit_str((status >> 24) & 0xF));
    out.append(hex_digit_str((status >> 20) & 0xF));
    out.append(hex_digit_str((status >> 16) & 0xF));
    out.append(hex_digit_str((status >> 12) & 0xF));
    out.append(hex_digit_str((status >> 8) & 0xF));
    out.append(hex_digit_str((status >> 4) & 0xF));
    out.append(hex_digit_str(status & 0xF));
    proof {
        assert(out@ =~= status_text(status));
    }
    out
}

/// Compares two string slices by their character sequences.
fn str_eq(a: &str, b: &str) -> (r: bool)
    ensures
        r == (a@ == b@),
{
    let owned_a: String = a.to_owned();
    let owned_b: String = b.to_owned();
    owned_a == owned_b
}

/// The `(name, description)` pair for a known status code, `None` for a
/// code outside the fixed table.
pub open spec fn translated(code: Seq<char>) -> Option<(Seq<char>, Seq<char>)> {
    if code == "0x80210006"@ {
        Some(
            (
                "WIA_ERROR_BUSY"@,
                "The device is busy. Close any apps that are using this device or wait for it to finish and then try again."@,
            ),
        )
    } else if code == "0x80210016"@ {
        Some(("WIA_ERROR_COVER_OPEN"@, "One or more of the device’s cover is open."@))
    } else if code == "0x8021000A"@ {
        Some(
            (
                "WIA_ERROR_DEVICE_COMMUNICATION"@,
                "Communication with the WIA device failed. Make sure that the device is powered on and connected to the PC. If the problem persists, disconnect and reconnect the device."@,
            ),
        )
    } else if code == "0x8021000D"@ {
        Some(
            (
                "WIA_ERROR_DEVICE_LOCKED"@,
                "The device is locked. Close any apps that are using this device or wait for it to finish and then try again."@,
            ),
        )
    } else if code == "0x8021000E"@ {
        Some(("WIA_ERROR_EXCEPTION_IN_DRIVER"@, "The device driver threw an exception."@))
    } else if code == "0x80210001"@ {
        Some(("WIA_ERROR_GENERAL_ERROR"@, "An unknown error has occurred with the WIA device."@))
    } else if code == "0x8021000C"@ {
        Some(
            (
                "WIA_ERROR_INCORRECT_HARDWARE_SETTING"@,
                "There is an incorrect setting on the WIA device."@,
            ),
        )
    } else if code == "0x8021000B"@ {
        Some(("WIA_ERROR_INVALID_COMMAND"@, "The device doesn't support this command."@))
    } else if code == "0x8021000F"@ {
        Some(("WIA_ERROR_INVALID_DRIVER_RESPONSE"@, "The response from the driver is invalid."@))
    } else if code == "0x80210009"@ {
        Some(("WIA_ERROR_ITEM_DELETED"@, "The WIA device was deleted. It's no longer available."@))
    } else if code == "0x80210017"@ {
        Some(("WIA_ERROR_LAMP_OFF"@, "The scanner's lamp is off."@))
    } else if code == "0x80210021"@ {
        Some(
            (
                "WIA_ERROR_MAXIMUM_PRINTER_ENDORSER_COUNTER"@,
                "A scan job was interrupted because an Imprinter/Endorser item reached the maximum valid value for WIA_IPS_PRINTER_ENDORSER_COUNTER, and was reset to 0. This feature is available with Windows 8 and later versions of Windows."@,
            ),
        )
    } else if code == "0x80210020"@ {
        Some(
            (
                "WIA_ERROR_MULTI_FEED"@,
                "A scan error occurred because of a multiple page feed condition. This feature is available with Windows 8 and later versions of Windows."@,
            ),
        )
    } else if code == "0x80210005"@ {
        Some(
            (
                "WIA_ERROR_OFFLINE"@,
                "The device is offline. Make sure the device is powered on and connected to the PC."@,
            ),
        )
    } else if code == "0x80210003"@ {
        Some(("WIA_ERROR_PAPER_EMPTY"@, "There are no documents in the document feeder."@))
    } else if code == "0x80210002"@ {
        Some(("WIA_ERROR_PAPER_JAM"@, "Paper is jammed in the scanner's document feeder."@))
    } else if code == "0x80210004"@ {
        Some(
            (
                "WIA_ERROR_PAPER_PROBLEM"@,
                "An unspecified problem occurred with the scanner's document feeder."@,
            ),
        )
    } else if code == "0x80210007"@ {
        Some(("WIA_ERROR_WARMING_UP"@, "The device is warming up."@))
    } else if code == "0x80210008"@ {
        Some(
            (
                "WIA_ERROR_USER_INTERVENTION"@,
                "There is a problem with the WIA device. Make sure that the device is turned on, online, and any cables are properly connected."@,
            ),
        )
    } else if code == "0x80210015"@ {
        Some(
            (
                "WIA_S_NO_DEVICE_AVAILABLE"@,
                "No scanner device was found. Make sure the device is online, connected to the PC, and has the correct driver installed on the PC."@,
            ),
        )
    } else {
        None
    }
}

/// Looks a status code up in the fixed table of known subsystem codes.
/// The code must be given in its canonical form: `0x` followed by eight
/// uppercase hexadecimal digits, exactly as the subsystem renders it.
pub fn translate(code: &str) -> (r: Option<(&'static str, &'static str)>)
    ensures
        match r {
            Some(pair) => translated(code@) == Some((pair.0@, pair.1@)),
            None => translated(code@) is None,
        },
{
    if str_eq(code, "0x80210006") {
        Some(
            (
                "WIA_ERROR_BUSY",
                "The device is busy. Close any apps that are using this device or wait for it to finish and then try again.",
            ),
        )
    } else if str_eq(code, "0x80210016") {
        Some(("WIA_ERROR_COVER_OPEN", "One or more of the device’s cover is open."))
    } else if str_eq(code, "0x8021000A") {
        Some(
            (
                "WIA_ERROR_DEVICE_COMMUNICATION",
                "Communication with the WIA device failed. Make sure that the device is powered on and connected to the PC. If the problem persists, disconnect and reconnect the device.",
            ),
        )
    } else if str_eq(code, "0x8021000D") {
        Some(
            (
                "WIA_ERROR_DEVICE_LOCKED",
                "The device is locked. Close any apps that are using this device or wait for it to finish and then try again.",
            ),
        )
    } else if str_eq(code, "0x8021000E") {
        Some(("WIA_ERROR_EXCEPTION_IN_DRIVER", "The device driver threw an exception."))
    } else if str_eq(code, "0x80210001") {
        Some(("WIA_ERROR_GENERAL_ERROR", "An unknown error has occurred with the WIA device."))
    } else if str_eq(code, "0x8021000C") {
        Some(
            (
                "WIA_ERROR_INCORRECT_HARDWARE_SETTING",
                "There is an incorrect setting on the WIA device.",
            ),
        )
    } else if str_eq(code, "0x8021000B") {
        Some(("WIA_ERROR_INVALID_COMMAND", "The device doesn't support this command."))
    } else if str_eq(code, "0x8021000F") {
        Some(("WIA_ERROR_INVALID_DRIVER_RESPONSE", "The response from the driver is invalid."))
    } else if str_eq(code, "0x80210009") {
        Some(("WIA_ERROR_ITEM_DELETED", "The WIA device was deleted. It's no longer available."))
    } else if str_eq(code, "0x80210017") {
        Some(("WIA_ERROR_LAMP_OFF", "The scanner's lamp is off."))
    } else if str_eq(code, "0x80210021") {
        Some(
            (
                "WIA_ERROR_MAXIMUM_PRINTER_ENDORSER_COUNTER",
                "A scan job was interrupted because an Imprinter/Endorser item reached the maximum valid value for WIA_IPS_PRINTER_ENDORSER_COUNTER, and was reset to 0. This feature is available with Windows 8 and later versions of Windows.",
            ),
        )
    } else if str_eq(code, "0x80210020") {
        Some(
            (
                "WIA_ERROR_MULTI_FEED",
                "A scan error occurred because of a multiple page feed condition. This feature is available with Windows 8 and later versions of Windows.",
            ),
        )
    } else if str_eq(code, "0x80210005") {
        Some(
            (
                "WIA_ERROR_OFFLINE",
                "The device is offline. Make sure the device is powered on and connected to the PC.",
            ),
        )
    } else if str_eq(code, "0x80210003") {
        Some(("WIA_ERROR_PAPER_EMPTY", "There are no documents in the document feeder."))
    } else if str_eq(code, "0x80210002") {
        Some(("WIA_ERROR_PAPER_JAM", "Paper is jammed in the scanner's document feeder."))
    } else if str_eq(code, "0x80210004") {
        Some(
            (
                "WIA_ERROR_PAPER_PROBLEM",
                "An unspecified problem occurred with the scanner's document feeder.",
            ),
        )
    } else if str_eq(code, "0x80210007") {
        Some(("WIA_ERROR_WARMING_UP", "The device is warming up."))
    } else if str_eq(code, "0x80210008") {
        Some(
            (
                "WIA_ERROR_USER_INTERVENTION",
                "There is a problem with the WIA device. Make sure that the device is turned on, online, and any cables are properly connected.",
            ),
        )
    } else if str_eq(code, "0x80210015") {
        Some(
            (
                "WIA_S_NO_DEVICE_AVAILABLE",
                "No scanner device was found. Make sure the device is online, connected to the PC, and has the correct driver installed on the PC.",
            ),
        )
    } else {
        None
    }
}

/// The diagnostic message for a status code in canonical text form:
/// `code - name - description` for a known code, and a generic message
/// that still carries the raw code for an unknown one.
pub open spec fn rendered_message(code: Seq<char>) -> Seq<char> {
    match translated(code) {
        Some(pair) => code + " - "@ + pair.0 + " - "@ + pair.1,
        None => code + " - unknown error"@,
    }
}

/// Renders the diagnostic message for a status code given in canonical
/// text form.
pub fn render_message(code: &str) -> (r: String)
    ensures
        r@ == rendered_message(code@),
{
    match translate(code) {
        Some(pair) => {
            let mut out: String = code.to_owned();
            out.append(" - ");
            out.append(pair.0);
            out.append(" - ");
            out.append(pair.1);
            out
        },
        None => {
            let mut out: String = code.to_owned();
            out.append(" - unknown error");
            out
        },
    }
}

/// Renders the diagnostic message for a raw 32-bit status code.
pub fn describe_status(status: u32) -> (r: String)
    ensures
        r@ == rendered_message(status_text(status)),
{
    let code = format_status(status);
    render_message(code.as_str())
}

/// Whatever the table says of a code, its diagnostic message always
/// starts with the raw code, so a reader can identify the failure even
/// when the table has no entry for it.
pub proof fn lemma_message_carries_code(code: Seq<char>)
    ensures
        rendered_message(code).len() >= code.len(),
        rendered_message(code).subrange(0, code.len() as int) == code,
{
    match translated(code) {
        Some(pair) => {
            assert(rendered_message(code).subrange(0, code.len() as int) =~= code);
        },
        None => {
            assert(rendered_message(code).subrange(0, code.len() as int) =~= code);
        },
    }
}

} // verus!
