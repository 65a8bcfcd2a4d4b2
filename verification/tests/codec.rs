use kodem_auth::base64url::base64_decode;
use kodem_auth::cachecontrol::{parse_max_age, refresh_deadline};
use kodem_auth::errors::AuthError;
use kodem_auth::strutil::extract_field_name;

#[test]
fn decodes_segment_with_length_two_mod_four() {
    // "AQ" is the unpadded encoding of the single byte 1
    assert_eq!(base64_decode("AQ"), Some(vec![1u8]));
}

#[test]
fn decodes_segment_with_length_three_mod_four() {
    // "AQI" is the unpadded encoding of the bytes 1, 2
    assert_eq!(base64_decode("AQI"), Some(vec![1u8, 2u8]));
}

#[test]
fn decodes_segment_with_length_zero_mod_four() {
    assert_eq!(base64_decode("AQID"), Some(vec![1u8, 2u8, 3u8]));
}

#[test]
fn rejects_segment_with_length_one_mod_four() {
    assert_eq!(base64_decode("AQIDE"), None);
}

#[test]
fn decodes_url_safe_alphabet() {
    // 0xfb encodes to "-w" in the URL-safe alphabet ("+w" in the standard one)
    assert_eq!(base64_decode("-w"), Some(vec![0xfbu8]));
    // 0xff 0xff encodes to "__8"
    assert_eq!(base64_decode("__8"), Some(vec![0xffu8, 0xffu8]));
}

#[test]
fn rejects_garbage_characters() {
    assert_eq!(base64_decode("a!c="), None);
}

#[test]
fn empty_segment_decodes_to_nothing() {
    assert_eq!(base64_decode(""), Some(vec![]));
}

#[test]
fn round_trip_against_reference_encoder() {
    let data: Vec<u8> = (0u8..=255u8).collect();
    let encoded = base64::encode_config(&data, base64::URL_SAFE_NO_PAD);
    assert_eq!(base64_decode(&encoded), Some(data));
}

#[test]
fn reads_plain_max_age() {
    assert_eq!(parse_max_age("max-age=600"), Some(600));
}

#[test]
fn reads_max_age_among_directives() {
    assert_eq!(parse_max_age("public, max-age=21600, must-revalidate"), Some(21600));
}

#[test]
fn trims_spaces_around_directive() {
    assert_eq!(parse_max_age("  max-age=3600  "), Some(3600));
}

#[test]
fn missing_directive_gives_nothing() {
    assert_eq!(parse_max_age("no-store, no-cache"), None);
    assert_eq!(parse_max_age(""), None);
}

#[test]
fn unparsable_age_gives_nothing() {
    assert_eq!(parse_max_age("max-age=abc"), None);
    assert_eq!(parse_max_age("max-age="), None);
}

#[test]
fn leading_plus_is_accepted() {
    assert_eq!(parse_max_age("max-age=+15"), Some(15));
}

#[test]
fn out_of_range_age_gives_nothing() {
    assert_eq!(parse_max_age("max-age=99999999999999999999999999"), None);
}

#[test]
fn first_matching_directive_decides() {
    // the first max-age directive is taken even when it does not parse
    assert_eq!(parse_max_age("max-age=oops, max-age=600"), None);
}

#[test]
fn deadline_subtracts_refresh_buffer() {
    // advertised age 600 installs a deadline 300 seconds out
    assert_eq!(refresh_deadline(1000, Some("max-age=600")), 1300);
}

#[test]
fn deadline_defaults_to_one_hour() {
    assert_eq!(refresh_deadline(1000, None), 1000 + 3600 - 300);
    assert_eq!(refresh_deadline(1000, Some("no-store")), 1000 + 3600 - 300);
}

#[test]
fn deadline_with_tiny_age_is_immediate() {
    assert_eq!(refresh_deadline(1000, Some("max-age=100")), 1000);
}

#[test]
fn extracts_quoted_field_name() {
    assert_eq!(extract_field_name("missing field `name` at line 1"), "name");
}

#[test]
fn placeholder_when_no_quotes() {
    assert_eq!(extract_field_name("something went wrong"), "desconocido");
    assert_eq!(extract_field_name("lonely ` backtick"), "desconocido");
}

#[test]
fn error_labels_are_stable() {
    assert_eq!(AuthError::Expired.label(), "expired");
    assert_eq!(AuthError::UnknownKey.label(), "unknown_key");
    assert_eq!(AuthError::MalformedToken.label(), "malformed_token");
}
