//! Which probe and which chip a run works on.
use crate::config::ProbeConfig;
use crate::text::{optional_text, texts};
use core::num::ParseIntError;
use vstd::prelude::*;

verus! {

/// `core::num::ParseIntError`, which `u16::from_str_radix` gives.
#[verifier::external_type_specification]
#[verifier::external_body]
pub struct ExParseIntError(ParseIntError);

/// The number that a digit or a letter of either case stands for, or 36 for any other character.
pub open spec fn digit_value(c: char) -> nat {
    if '0' <= c && c <= '9' {
        (c as int - '0' as int) as nat
    } else if 'a' <= c && c <= 'z' {
        (c as int - 'a' as int + 10) as nat
    } else if 'A' <= c && c <= 'Z' {
        (c as int - 'A' as int + 10) as nat
    } else {
        36
    }
}

/// `text` without one plus sign at its start.
pub open spec fn without_plus(text: Seq<char>) -> Seq<char> {
    if text.len() > 0 && text[0] == '+' {
        text.skip(1)
    } else {
        text
    }
}

/// Whether there is a digit and all are digits to the given base.
pub open spec fn are_digits(digits: Seq<char>, radix: nat) -> bool {
    &&& digits.len() > 0
    &&& forall|i: int| 0 <= i < digits.len() ==> digit_value(#[trigger] digits[i]) < radix
}

/// The number that digits to the given base stand for.
pub open spec fn digits_value(digits: Seq<char>, radix: nat) -> nat
    decreases digits.len(),
{
    if digits.len() == 0 {
        0
    } else {
        digits_value(digits.drop_last(), radix) * radix + digit_value(digits.last())
    }
}

/// The number that `text` stands for in the given base, if it is one that 16 bits hold: digits, of
/// either case, after an optional plus sign.
pub open spec fn parsed_u16(text: Seq<char>, radix: nat) -> Option<u16> {
    let digits = without_plus(text);
    if are_digits(digits, radix) && digits_value(digits, radix) <= u16::MAX {
        Some(digits_value(digits, radix) as u16)
    } else {
        None
    }
}

/// `u16::from_str_radix` reads an optional plus sign and digits to the given base, and nothing
/// else; it fails where the text is not that, or where the number needs more than 16 bits. It
/// panics on a base below 2 or above 36. Which error it gives is not stated.
pub assume_specification[ u16::from_str_radix ](src: &str, radix: u32) -> (number: Result<
    u16,
    ParseIntError,
>)
    requires
        2 <= radix <= 36,
    ensures
        match number {
            Ok(n) => parsed_u16(src@, radix as nat) == Some(n),
            Err(_) => parsed_u16(src@, radix as nat) is None,
        },
;

/// A probe that is told apart from others by its ids.
#[derive(Debug, PartialEq, Eq)]
pub struct ProbeSelector<T> {
    pub vendor_id: u16,
    pub product_id: u16,
    pub serial_number: Option<T>,
}

/// Which probe a configuration asks for. `T` is a text, `E` the error of a text that is no number.
#[derive(Debug, PartialEq, Eq)]
pub enum ProbeRequest<T, E> {
    /// The probe with these ids.
    Selected(ProbeSelector<T>),
    /// The vendor id is no hexadecimal number of 16 bits.
    InvalidVendorId(E),
    /// The product id is no hexadecimal number of 16 bits.
    InvalidProductId(E),
    /// The only probe there is.
    Only,
}

impl View for ProbeSelector<String> {
    type V = ProbeSelector<Seq<char>>;

    open spec fn view(&self) -> ProbeSelector<Seq<char>> {
        ProbeSelector {
            vendor_id: self.vendor_id,
            product_id: self.product_id,
            serial_number: optional_text(self.serial_number),
        }
    }
}

impl View for ProbeRequest<String, ParseIntError> {
    type V = ProbeRequest<Seq<char>, ()>;

    open spec fn view(&self) -> ProbeRequest<Seq<char>, ()> {
        match self {
            ProbeRequest::Selected(selector) => ProbeRequest::Selected(selector@),
            ProbeRequest::InvalidVendorId(_) => ProbeRequest::InvalidVendorId(()),
            ProbeRequest::InvalidProductId(_) => ProbeRequest::InvalidProductId(()),
            ProbeRequest::Only => ProbeRequest::Only,
        }
    }
}

/// Which probe a configuration asks for: the one with the given ids where both are given, and else
/// the only one there is.
pub open spec fn request_of(config: ProbeConfig) -> ProbeRequest<Seq<char>, ()> {
    match (config.usb_vid, config.usb_pid) {
        (Some(vid), Some(pid)) => match (parsed_u16(vid@, 16), parsed_u16(pid@, 16)) {
            (None, _) => ProbeRequest::InvalidVendorId(()),
            (Some(_), None) => ProbeRequest::InvalidProductId(()),
            (Some(vendor_id), Some(product_id)) => ProbeRequest::Selected(
                ProbeSelector {
                    vendor_id,
                    product_id,
                    serial_number: optional_text(config.serial),
                },
            ),
        },
        _ => ProbeRequest::Only,
    }
}

/// Whether `u16::from_str_radix` can give this error when it reads `text` as a hexadecimal number.
pub open spec fn is_error_of(text: Seq<char>, error: ParseIntError) -> bool {
    exists|src: &str|
        src@ == text && #[trigger] call_ensures(u16::from_str_radix, (src, 16u32), Err(error))
}

/// Which probe a configuration asks for. An invalid id is reported with the error of reading that
/// id.
pub fn requested_probe(config: &ProbeConfig) -> (request: ProbeRequest<String, ParseIntError>)
    ensures
        request@ == request_of(*config),
        request matches ProbeRequest::InvalidVendorId(error) ==> is_error_of(
            config.usb_vid->0@,
            error,
        ),
        request matches ProbeRequest::InvalidProductId(error) ==> is_error_of(
            config.usb_pid->0@,
            error,
        ),
{
    match (&config.usb_vid, &config.usb_pid) {
        (Some(vid), Some(pid)) => {
            let vendor_id = match u16::from_str_radix(vid.as_str(), 16) {
                Ok(id) => id,
                Err(error) => {
                    return ProbeRequest::InvalidVendorId(error);
                },
            };
            let product_id = match u16::from_str_radix(pid.as_str(), 16) {
                Ok(id) => id,
                Err(error) => {
                    return ProbeRequest::InvalidProductId(error);
                },
            };
            ProbeRequest::Selected(
                ProbeSelector { vendor_id, product_id, serial_number: config.serial.clone() },
            )
        },
        _ => ProbeRequest::Only,
    }
}

/// The warnings about an id that is ignored because the other one is not given.
pub open spec fn ignored_ids_of(config: ProbeConfig) -> Seq<Seq<char>> {
    if config.usb_vid is Some && config.usb_pid is None {
        seq!["USB VID ignored, because PID is not specified."@]
    } else if config.usb_pid is Some && config.usb_vid is None {
        seq!["USB PID ignored, because VID is not specified."@]
    } else {
        Seq::empty()
    }
}

/// The warnings about an id that is ignored because the other one is not given.
pub fn ignored_id_warnings(config: &ProbeConfig) -> (warnings: Vec<String>)
    ensures
        texts(warnings@) == ignored_ids_of(*config),
{
    let mut warnings: Vec<String> = Vec::new();
    match (&config.usb_vid, &config.usb_pid) {
        (Some(_), None) => {
            warnings.push("USB VID ignored, because PID is not specified.".to_owned());
        },
        (None, Some(_)) => {
            warnings.push("USB PID ignored, because VID is not specified.".to_owned());
        },
        _ => {},
    }
    assert(texts(warnings@) =~= ignored_ids_of(*config));
    warnings
}

/// A chip: one with a name, or the one that is found at the probe.
#[derive(Debug, PartialEq, Eq)]
pub enum ChipSelector<T> {
    Named(T),
    Auto,
}

impl View for ChipSelector<String> {
    type V = ChipSelector<Seq<char>>;

    open spec fn view(&self) -> ChipSelector<Seq<char>> {
        match self {
            ChipSelector::Named(name) => ChipSelector::Named(name@),
            ChipSelector::Auto => ChipSelector::Auto,
        }
    }
}

/// The chip of a configuration.
pub open spec fn chip_of(chip: Option<String>) -> ChipSelector<Seq<char>> {
    match chip {
        Some(name) => ChipSelector::Named(name@),
        None => ChipSelector::Auto,
    }
}

/// The chip of a configuration.
pub fn selected_chip(chip: &Option<String>) -> (selector: ChipSelector<String>)
    ensures
        selector@ == chip_of(*chip),
{
    match chip {
        Some(name) => ChipSelector::Named(name.clone()),
        None => ChipSelector::Auto,
    }
}

/// Of two ids that are given, one that is not a number is reported, the vendor's first; else the
/// probe is selected by both numbers and the serial number, and nothing is ignored.
pub proof fn law_ids_select_the_probe(config: ProbeConfig, vid: String, pid: String)
    requires
        config.usb_vid == Some(vid),
        config.usb_pid == Some(pid),
    ensures
        ({
            let request = request_of(config);
            &&& request is InvalidVendorId <==> parsed_u16(vid@, 16) is None
            &&& request is InvalidProductId <==> parsed_u16(vid@, 16) is Some && parsed_u16(
                pid@,
                16,
            ) is None
            &&& request is Selected <==> parsed_u16(vid@, 16) is Some && parsed_u16(
                pid@,
                16,
            ) is Some
            &&& request matches ProbeRequest::Selected(selector) ==> {
                &&& parsed_u16(vid@, 16) == Some(selector.vendor_id)
                &&& parsed_u16(pid@, 16) == Some(selector.product_id)
                &&& selector.serial_number is Some <==> config.serial is Some
                &&& config.serial matches Some(serial) ==> selector.serial_number == Some(serial@)
            }
            &&& ignored_ids_of(config).len() == 0
        }),
{
}

/// Where an id is missing the only probe is taken, and there is a warning exactly where the other
/// id is given, about that one.
pub proof fn law_one_id_selects_nothing(config: ProbeConfig)
    requires
        config.usb_vid is None || config.usb_pid is None,
    ensures
        request_of(config) is Only,
        config.usb_vid is Some ==> ignored_ids_of(config)
            == seq!["USB VID ignored, because PID is not specified."@],
        config.usb_pid is Some ==> ignored_ids_of(config)
            == seq!["USB PID ignored, because VID is not specified."@],
        config.usb_vid is None && config.usb_pid is None ==> ignored_ids_of(config).len() == 0,
{
}

/// Another hexadecimal digit behind an id makes sixteen times the number and that digit, as long as
/// 16 bits hold it; and a single digit is a number.
pub proof fn law_ids_are_hexadecimal(text: Seq<char>, c: char, digit: nat)
    requires
        digit < 16,
        digit < 10 ==> c as int == '0' as int + digit,
        digit >= 10 ==> c as int == 'a' as int + digit - 10 || c as int == 'A' as int + digit - 10,
    ensures
        parsed_u16(seq![c], 16) == Some(digit as u16),
        parsed_u16(text, 16) matches Some(n) ==> parsed_u16(text.push(c), 16) == (if 16 * n + digit
            <= 0xffff {
            Some((16 * n + digit) as u16)
        } else {
            None
        }),
{
    assert(digit_value(c) == digit);
    let one = seq![c];
    assert(without_plus(one) =~= one);
    assert(one[0] == c);
    reveal_with_fuel(digits_value, 2);
    assert(one.drop_last() =~= Seq::empty());
    if parsed_u16(text, 16) is Some {
        let digits = without_plus(text);
        let more = without_plus(text.push(c));
        assert(more =~= digits.push(c));
        assert(more.drop_last() =~= digits);
        assert forall|i: int| 0 <= i < more.len() implies digit_value(#[trigger] more[i]) < 16 by {
            if i < digits.len() {
                assert(more[i] == digits[i]);
            }
        }
    }
}

/// A chip that is named is the one to attach to, and one is looked for only where none is named.
pub proof fn law_named_chip_is_used(chip: Option<String>, name: String)
    ensures
        chip == Some(name) ==> chip_of(chip) == ChipSelector::Named(name@),
        chip is None ==> chip_of(chip) is Auto,
{
}

} // verus!
