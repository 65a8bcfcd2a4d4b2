use kodem_auth::response::{error_response, json_response, list_response, ApiResponse};

#[test]
fn success_envelope_holds_data_and_code() {
    let r = ApiResponse::ok("payload");
    assert_eq!(r.status_code, 200);
    assert_eq!(r.message, None);
    assert_eq!(r.error, None);
    assert_eq!(r.data, Some("payload"));

    let c = ApiResponse::created(7u32);
    assert_eq!(c.status_code, 201);
    assert_eq!(c.data, Some(7));
}

#[test]
fn error_envelopes_repeat_their_code() {
    let r = ApiResponse::<()>::unauthorized("no token".to_string());
    assert_eq!(r.status_code, 401);
    assert_eq!(r.error, Some(401));
    assert_eq!(r.message.as_deref(), Some("no token"));
    assert_eq!(r.data, None);

    let n = ApiResponse::<()>::not_found("gone".to_string());
    assert_eq!(n.status_code, 404);
    assert_eq!(n.error, Some(404));

    let f = ApiResponse::<()>::forbidden("nope".to_string());
    assert_eq!(f.status_code, 403);

    let b = ApiResponse::<()>::bad_request("bad".to_string());
    assert_eq!(b.status_code, 400);

    let i = ApiResponse::<()>::internal_error("boom".to_string());
    assert_eq!(i.status_code, 500);
}

#[test]
fn helper_constructors_wrap_values() {
    let r = json_response(3u8);
    assert_eq!(r.status_code, 200);
    assert_eq!(r.data, Some(3));

    let l = list_response(vec![1, 2, 3]);
    assert_eq!(l.data, Some(vec![1, 2, 3]));

    let e = error_response::<()>("oops".to_string(), 418);
    assert_eq!(e.status_code, 418);
    assert_eq!(e.error, Some(418));
}
