use music_w::error::WeapiError;
use music_w::login_cellphone::{
    api_url, country_code, prepare_login_cellphone, prepare_request, prepare_send_captcha,
    prepare_verify_captcha, request_headers, LoginCellphoneRequest, LoginCellphoneResponse,
    LoginResult, SendCaptchaRequest, SendCaptchaResponse, VerifyCaptchaRequest,
    VerifyCaptchaResponse, BASE_URL, USER_AGENT,
};
use std::collections::HashMap;

fn object(members: &[(&str, &str)]) -> serde_json::Value {
    let mut map = serde_json::Map::new();
    for (k, v) in members {
        map.insert(k.to_string(), serde_json::Value::String(v.to_string()));
    }
    serde_json::Value::Object(map)
}

fn parse(text: &str) -> serde_json::Value {
    serde_json::from_str(text).unwrap()
}

#[test]
fn test_send_captcha_request_serialization() {
    let request = SendCaptchaRequest {
        country_code: "1".to_string(),
        secrete: "test_secrete".to_string(),
        cellphone: "1234567890".to_string(),
    };
    let serialized = parse(&request.to_json());
    let expected = object(&[
        ("ctcode", "1"),
        ("secrete", "test_secrete"),
        ("cellphone", "1234567890"),
    ]);
    assert_eq!(serialized, expected);
}

#[test]
fn test_verify_captcha_request_serialization() {
    let request = VerifyCaptchaRequest {
        country_code: "1".to_string(),
        cellphone: "1234567890".to_string(),
        captcha: "123456".to_string(),
    };
    let serialized = parse(&request.to_json());
    let expected = object(&[
        ("ctcode", "1"),
        ("cellphone", "1234567890"),
        ("captcha", "123456"),
    ]);
    assert_eq!(serialized, expected);
}

#[test]
fn test_login_cellphone_request_serialization() {
    let request = LoginCellphoneRequest {
        login_type: "1".to_string(),
        https: "true".to_string(),
        phone: "1234567890".to_string(),
        country_code: "1".to_string(),
        captcha: "123456".to_string(),
        remember: "true".to_string(),
    };
    let serialized = parse(&request.to_json());
    let expected = object(&[
        ("type", "1"),
        ("https", "true"),
        ("phone", "1234567890"),
        ("countrycode", "1"),
        ("captcha", "123456"),
        ("remember", "true"),
    ]);
    assert_eq!(serialized, expected);
}

#[test]
fn request_json_text_is_compact_and_ordered() {
    let request = SendCaptchaRequest {
        country_code: "1".to_string(),
        secrete: "test_secrete".to_string(),
        cellphone: "1234567890".to_string(),
    };
    assert_eq!(
        request.to_json(),
        r#"{"ctcode":"1","secrete":"test_secrete","cellphone":"1234567890"}"#
    );
}

#[test]
fn request_json_escapes_strings() {
    let request = VerifyCaptchaRequest {
        country_code: "86".to_string(),
        cellphone: "12\"3\\4".to_string(),
        captcha: "a\nb".to_string(),
    };
    assert_eq!(
        request.to_json(),
        r#"{"ctcode":"86","cellphone":"12\"3\\4","captcha":"a\nb"}"#
    );
    let serialized = parse(&request.to_json());
    assert_eq!(
        serialized,
        object(&[("ctcode", "86"), ("cellphone", "12\"3\\4"), ("captcha", "a\nb")])
    );
}

#[test]
fn country_code_defaults_to_86() {
    assert_eq!(country_code(None), "86");
    assert_eq!(country_code(Some("1")), "1");
    assert_eq!(country_code(Some("")), "");
}

#[test]
fn request_constructors_fill_fixed_members() {
    let send = SendCaptchaRequest::new("13800138000", None);
    assert_eq!(send.country_code, "86");
    assert_eq!(send.secrete, "music_middleuser_pclogin");
    assert_eq!(send.cellphone, "13800138000");

    let verify = VerifyCaptchaRequest::new("13800138000", "1234", Some("44"));
    assert_eq!(verify.country_code, "44");
    assert_eq!(verify.cellphone, "13800138000");
    assert_eq!(verify.captcha, "1234");

    let login = LoginCellphoneRequest::new("13800138000", "1234", None);
    assert_eq!(
        login.to_json(),
        r#"{"type":"1","https":"true","phone":"13800138000","countrycode":"86","captcha":"1234","remember":"true"}"#
    );
}

#[test]
fn urls_and_headers() {
    assert_eq!(BASE_URL, "https://music.163.com");
    assert_eq!(
        api_url("/weapi/sms/captcha/sent"),
        "https://music.163.com/weapi/sms/captcha/sent"
    );
    let headers = request_headers();
    assert_eq!(
        headers,
        vec![
            ("user-agent".to_string(), USER_AGENT.to_string()),
            ("referer".to_string(), "https://music.163.com".to_string()),
            ("origin".to_string(), "https://music.163.com".to_string()),
        ]
    );
}

fn check_prepared(path: &str, json: &str, prepared: Result<music_w::login_cellphone::WeapiRequest, WeapiError>) {
    let req = prepared.unwrap();
    assert_eq!(req.url, format!("https://music.163.com{}", path));
    assert_eq!(req.headers, request_headers());
    assert_eq!(req.form.len(), 2);
    assert_eq!(req.form[0].0, "params");
    assert_eq!(req.form[1].0, "encSecKey");
    // Two PKCS#7 paddings add between 17 and 32 bytes; Base64 gives 4 chars per 3 bytes.
    let n = json.len();
    let cipher_len = (n / 16 + 2) * 16;
    assert_eq!(req.form[0].1.len(), 4 * ((cipher_len + 2) / 3));
    // A 1024-bit RSA ciphertext is 128 bytes, 256 hex digits.
    assert_eq!(req.form[1].1.len(), 256);
    assert!(req.form[1].1.chars().all(|c| c.is_ascii_digit() || ('a'..='f').contains(&c)));
}

#[test]
fn prepared_requests_go_to_their_endpoints() {
    check_prepared(
        "/weapi/sms/captcha/sent",
        r#"{"ctcode":"86","secrete":"music_middleuser_pclogin","cellphone":"13800138000"}"#,
        prepare_send_captcha("13800138000", None),
    );
    check_prepared(
        "/weapi/sms/captcha/verify",
        r#"{"ctcode":"86","cellphone":"13800138000","captcha":"1234"}"#,
        prepare_verify_captcha("13800138000", "1234", Some("86")),
    );
    check_prepared(
        "/weapi/w/login/cellphone",
        r#"{"type":"1","https":"true","phone":"13800138000","countrycode":"86","captcha":"1234","remember":"true"}"#,
        prepare_login_cellphone("13800138000", "1234", None),
    );
    check_prepared("/some/path", "", prepare_request("/some/path", ""));
}

#[test]
fn captcha_answers_succeed_on_code_200() {
    let sent = SendCaptchaResponse { code: 200, message: None };
    assert!(sent.succeeded());
    let refused = SendCaptchaResponse { code: 400, message: Some("bad".to_string()) };
    assert!(!refused.succeeded());
    let verified = VerifyCaptchaResponse { code: 200, message: None };
    assert!(verified.succeeded());
    let wrong = VerifyCaptchaResponse { code: 503, message: None };
    assert!(!wrong.succeeded());
}

#[test]
fn login_result_keeps_status_body_and_cookies() {
    let body = LoginCellphoneResponse { avatar_img_id_str: Some("109951".to_string()), extra: HashMap::new() };
    let result = LoginResult::new(502, body, vec!["MUSIC_U=abc".to_string()]);
    assert_eq!(result.status, 502);
    assert_eq!(result.body.avatar_img_id_str.as_deref(), Some("109951"));
    assert_eq!(result.cookies, vec!["MUSIC_U=abc".to_string()]);
}

#[test]
fn request_json_escapes_control_characters() {
    let request = VerifyCaptchaRequest {
        country_code: "86".to_string(),
        cellphone: "\u{1}\u{1f}\t\r\u{8}\u{c}".to_string(),
        captcha: "é/\u{7f}".to_string(),
    };
    assert_eq!(
        request.to_json(),
        "{\"ctcode\":\"86\",\"cellphone\":\"\\u0001\\u001f\\t\\r\\b\\f\",\"captcha\":\"é/\u{7f}\"}"
    );
}
