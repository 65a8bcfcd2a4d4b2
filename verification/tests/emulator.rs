use kodem_auth::config::{validate_config, FirebaseConfig};
use kodem_auth::errors::AuthError;
use kodem_auth::facade::{verify_dispatch, VerifyStep};
use kodem_auth::keys::SigningKeySet;
use kodem_auth::verify::verify_unsigned;

fn b64url(data: &str) -> String {
    base64::encode_config(data.as_bytes(), base64::URL_SAFE_NO_PAD)
}

fn emulator_config() -> FirebaseConfig {
    FirebaseConfig {
        project_id: "proj".to_string(),
        api_key: "unused-in-tests".to_string(),
        auth_domain: "proj.example".to_string(),
        use_emulator: true,
        emulator_host: Some("localhost".to_string()),
        emulator_port: Some(9099),
    }
}

#[test]
fn decodes_payload_without_signature_check() {
    let payload = b64url(r#"{"sub":"u1","aud":"proj","iss":"x","iat":1,"exp":9999999999}"#);
    let token = format!("header.{}.signature", payload);
    let claims = verify_unsigned(&token).unwrap();
    assert_eq!(claims.sub, "u1");
    assert_eq!(claims.aud, "proj");
    assert_eq!(claims.iss, "x");
    assert_eq!(claims.iat, 1);
    assert_eq!(claims.exp, 9999999999);
    assert_eq!(claims.email, None);

    // any signature segment gives the same claims: nothing checks it
    let other = format!("zzzz.{}.completely-different", payload);
    let again = verify_unsigned(&other).unwrap();
    assert_eq!(again.sub, "u1");
    assert_eq!(again.exp, 9999999999);
}

#[test]
fn reads_optional_profile_fields() {
    let payload = b64url(
        r#"{"sub":"u2","aud":"p","iss":"x","iat":5,"exp":10,"email":"a@b.c","email_verified":true,"name":"Ada","picture":null,"user_id":"u2"}"#,
    );
    let token = format!("h.{}.s", payload);
    let claims = verify_unsigned(&token).unwrap();
    assert_eq!(claims.email.as_deref(), Some("a@b.c"));
    assert_eq!(claims.email_verified, Some(true));
    assert_eq!(claims.name.as_deref(), Some("Ada"));
    assert_eq!(claims.picture, None);
    assert_eq!(claims.user_id.as_deref(), Some("u2"));
}

#[test]
fn wrong_segment_count_is_malformed() {
    assert_eq!(verify_unsigned("onlyonesegment"), Err(AuthError::MalformedToken));
    assert_eq!(verify_unsigned("two.segments"), Err(AuthError::MalformedToken));
    assert_eq!(verify_unsigned("a.b.c.d"), Err(AuthError::MalformedToken));
    assert_eq!(verify_unsigned(""), Err(AuthError::MalformedToken));
}

#[test]
fn undecodable_payload_is_malformed() {
    // length 1 mod 4 cannot come from any encoding
    assert_eq!(verify_unsigned("h.AQIDE.s"), Err(AuthError::MalformedToken));
    // decodes, but is not JSON
    let not_json = b64url("this is not json");
    assert_eq!(verify_unsigned(&format!("h.{}.s", not_json)), Err(AuthError::MalformedToken));
}

#[test]
fn missing_required_claim_is_malformed() {
    let payload = b64url(r#"{"aud":"proj","iss":"x","iat":1,"exp":2}"#);
    assert_eq!(verify_unsigned(&format!("h.{}.s", payload)), Err(AuthError::MalformedToken));
}

#[test]
fn wrongly_typed_claim_is_malformed() {
    let payload = b64url(r#"{"sub":7,"aud":"proj","iss":"x","iat":1,"exp":2}"#);
    assert_eq!(verify_unsigned(&format!("h.{}.s", payload)), Err(AuthError::MalformedToken));
    let payload = b64url(r#"{"sub":"u","aud":"proj","iss":"x","iat":1,"exp":2,"email":5}"#);
    assert_eq!(verify_unsigned(&format!("h.{}.s", payload)), Err(AuthError::MalformedToken));
    let payload = b64url(r#"{"sub":"u","aud":"proj","iss":"x","iat":1,"exp":-2}"#);
    assert_eq!(verify_unsigned(&format!("h.{}.s", payload)), Err(AuthError::MalformedToken));
}

#[test]
fn dispatch_uses_emulator_path_only_under_toggle() {
    let payload = b64url(r#"{"sub":"u1","aud":"proj","iss":"x","iat":1,"exp":9999999999}"#);
    let token = format!("h.{}.unsigned", payload);
    let empty = SigningKeySet { keys: vec![], expiry: u64::MAX };

    let with_emulator = emulator_config();
    match verify_dispatch(&token, &with_emulator, &empty, 1000) {
        VerifyStep::Done(Ok(c)) => assert_eq!(c.sub, "u1"),
        other => panic!("emulator dispatch did not decode: {:?}", step_name(&other)),
    }

    // with the toggle off the same token goes to the real path, whose
    // header is unusable here
    let mut without = emulator_config();
    without.use_emulator = false;
    match verify_dispatch(&token, &without, &empty, 1000) {
        VerifyStep::Done(Err(e)) => assert_eq!(e, AuthError::MalformedToken),
        other => panic!("real dispatch accepted an unsigned token: {:?}", step_name(&other)),
    }
}

fn step_name(s: &VerifyStep) -> &'static str {
    match s {
        VerifyStep::Done(Ok(_)) => "done-ok",
        VerifyStep::Done(Err(_)) => "done-err",
        VerifyStep::NeedRefresh => "need-refresh",
    }
}

#[test]
fn emulator_config_needs_full_endpoint() {
    let good = emulator_config();
    assert!(validate_config(&good).is_ok());

    let mut no_host = emulator_config();
    no_host.emulator_host = None;
    assert_eq!(validate_config(&no_host), Err(AuthError::ConfigurationError));

    let mut no_port = emulator_config();
    no_port.emulator_port = None;
    assert_eq!(validate_config(&no_port), Err(AuthError::ConfigurationError));

    let mut off = emulator_config();
    off.use_emulator = false;
    off.emulator_host = None;
    off.emulator_port = None;
    assert!(validate_config(&off).is_ok());
}
