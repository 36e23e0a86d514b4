//! Cellphone login with an SMS captcha.
//!
//! Three requests make up the workflow: send a captcha to a phone number,
//! optionally verify it, and log in with the number and the captcha. Each
//! request is a flat JSON object, weapi encrypted and posted as a form to an
//! endpoint of the music service. This module builds the request bodies, the
//! encrypted forms, the URLs and the headers, and reads the decisions from the
//! answers; sending the requests is left to the caller.
use std::collections::HashMap;
use vstd::prelude::*;
use vstd::string::{StringExecFns, StringSliceAdditionalSpecFns};
use vstd::utf8::encode_utf8;

use crate::error::WeapiError;
use crate::json::{json_object, json_object_text, string_pairs_view};
use crate::laws::weapi_form_recoverable;
use crate::rsa_key::{pem_public_key_accepted, PUBLIC_KEY_PEM};
use crate::weapi::{is_weapi_form_of, public_key_usable, weapi, weapi_accepts_len, weapi_text_fits};

verus! {

/// The service every request goes to.
pub const BASE_URL: &'static str = "https://music.163.com";

/// Path of the endpoint that sends an SMS captcha.
pub const SEND_CAPTCHA_PATH: &'static str = "/weapi/sms/captcha/sent";

/// Path of the endpoint that verifies an SMS captcha.
pub const VERIFY_CAPTCHA_PATH: &'static str = "/weapi/sms/captcha/verify";

/// Path of the endpoint that logs in with a phone number and a captcha.
pub const LOGIN_CELLPHONE_PATH: &'static str = "/weapi/w/login/cellphone";

/// The browser `User-Agent` the requests present.
pub const USER_AGENT: &'static str = "Mozilla/5.0 (Windows NT 10.0; Win64; x64) AppleWebKit/537.36 (KHTML, like Gecko) Chrome/124.0.0.0 Safari/537.36";

/// Country code used when the caller gives none.
pub const DEFAULT_COUNTRY_CODE: &'static str = "86";

/// Secret the captcha service expects when a captcha is requested.
pub const CAPTCHA_SECRETE: &'static str = "music_middleuser_pclogin";

/// API code of an answer that reports success.
pub const SUCCESS_CODE: i32 = 200;

/// The declared JSON value type of `serde_json`, carried through unread.
#[verifier::external_type_specification]
#[verifier::external_body]
pub struct ExJsonValue(serde_json::Value);

/// The country code that a request carries.
pub open spec fn country_code_or_default(ctcode: Option<&str>) -> Seq<char> {
    match ctcode {
        Some(code) => code@,
        None => DEFAULT_COUNTRY_CODE@,
    }
}

/// A request made without a country code carries the code `86`.
pub proof fn lemma_default_country_code()
    ensures
        country_code_or_default(None) == seq!['8', '6'],
{
    reveal_strlit("86");
}

/// The given country code, or `86` when there is none.
pub fn country_code(ctcode: Option<&str>) -> (code: String)
    ensures
        code@ == country_code_or_default(ctcode),
        ctcode matches Some(c) ==> code@ == c@,
{
    match ctcode {
        Some(code) => String::from_str(code),
        None => String::from_str(DEFAULT_COUNTRY_CODE),
    }
}

/// Request body that asks for an SMS captcha.
#[derive(Debug, Clone)]
pub struct SendCaptchaRequest {
    /// Country code of the phone number (JSON member `ctcode`).
    pub country_code: String,
    /// Secret for the captcha service.
    pub secrete: String,
    /// Phone number to send the captcha to.
    pub cellphone: String,
}

/// Request body that verifies an SMS captcha.
#[derive(Debug, Clone)]
pub struct VerifyCaptchaRequest {
    /// Country code of the phone number (JSON member `ctcode`).
    pub country_code: String,
    /// Phone number the captcha was sent to.
    pub cellphone: String,
    /// The captcha received on the phone.
    pub captcha: String,
}

/// Request body of a cellphone login.
#[derive(Debug, Clone)]
pub struct LoginCellphoneRequest {
    /// Login type (JSON member `type`).
    pub login_type: String,
    /// HTTPS flag.
    pub https: String,
    /// Phone number.
    pub phone: String,
    /// Country code of the phone number (JSON member `countrycode`).
    pub country_code: String,
    /// The captcha received on the phone.
    pub captcha: String,
    /// Whether the login is remembered.
    pub remember: String,
}

/// The JSON members of a captcha request, in order.
pub open spec fn send_captcha_members(r: SendCaptchaRequest) -> Seq<(Seq<char>, Seq<char>)> {
    seq![("ctcode"@, r.country_code@), ("secrete"@, r.secrete@), ("cellphone"@, r.cellphone@)]
}

/// The JSON members of a captcha verification, in order.
pub open spec fn verify_captcha_members(r: VerifyCaptchaRequest) -> Seq<(Seq<char>, Seq<char>)> {
    seq![("ctcode"@, r.country_code@), ("cellphone"@, r.cellphone@), ("captcha"@, r.captcha@)]
}

/// The JSON members of a login, in order.
pub open spec fn login_cellphone_members(r: LoginCellphoneRequest) -> Seq<(Seq<char>, Seq<char>)> {
    seq![
        ("type"@, r.login_type@),
        ("https"@, r.https@),
        ("phone"@, r.phone@),
        ("countrycode"@, r.country_code@),
        ("captcha"@, r.captcha@),
        ("remember"@, r.remember@),
    ]
}

/// The pair of a key and a copy of a value.
fn pair(key: &str, value: &String) -> (p: (String, String))
    ensures
        p.0@ == key@,
        p.1@ == value@,
{
    (String::from_str(key), value.clone())
}

impl SendCaptchaRequest {
    /// The captcha request for `phone`, with country code `ctcode` or `86`.
    pub fn new(phone: &str, ctcode: Option<&str>) -> (r: Self)
        ensures
            r.country_code@ == country_code_or_default(ctcode),
            ctcode matches Some(c) ==> r.country_code@ == c@,
            r.secrete@ == CAPTCHA_SECRETE@,
            r.cellphone@ == phone@,
    {
        SendCaptchaRequest {
            country_code: country_code(ctcode),
            secrete: String::from_str(CAPTCHA_SECRETE),
            cellphone: String::from_str(phone),
        }
    }

    /// The JSON members, named as the service expects them.
    pub fn json_members(&self) -> (members: Vec<(String, String)>)
        ensures
            string_pairs_view(members@) == send_captcha_members(*self),
    {
        let mut members: Vec<(String, String)> = Vec::new();
        members.push(pair("ctcode", &self.country_code));
        members.push(pair("secrete", &self.secrete));
        members.push(pair("cellphone", &self.cellphone));
        assert(string_pairs_view(members@) =~= send_captcha_members(*self));
        members
    }

    /// The compact JSON text of the request.
    pub fn to_json(&self) -> (text: String)
        ensures
            text@ == json_object(send_captcha_members(*self)),
    {
        json_object_text(&self.json_members())
    }
}

impl VerifyCaptchaRequest {
    /// The verification of `captcha` for `phone`, with country code `ctcode` or `86`.
    pub fn new(phone: &str, captcha: &str, ctcode: Option<&str>) -> (r: Self)
        ensures
            r.country_code@ == country_code_or_default(ctcode),
            ctcode matches Some(c) ==> r.country_code@ == c@,
            r.cellphone@ == phone@,
            r.captcha@ == captcha@,
    {
        VerifyCaptchaRequest {
            country_code: country_code(ctcode),
            cellphone: String::from_str(phone),
            captcha: String::from_str(captcha),
        }
    }

    /// The JSON members, named as the service expects them.
    pub fn json_members(&self) -> (members: Vec<(String, String)>)
        ensures
            string_pairs_view(members@) == verify_captcha_members(*self),
    {
        let mut members: Vec<(String, String)> = Vec::new();
        members.push(pair("ctcode", &self.country_code));
        members.push(pair("cellphone", &self.cellphone));
        members.push(pair("captcha", &self.captcha));
        assert(string_pairs_view(members@) =~= verify_captcha_members(*self));
        members
    }

    /// The compact JSON text of the request.
    pub fn to_json(&self) -> (text: String)
        ensures
            text@ == json_object(verify_captcha_members(*self)),
    {
        json_object_text(&self.json_members())
    }
}

impl LoginCellphoneRequest {
    /// The login of `phone` with `captcha`, with country code `ctcode` or `86`,
    /// login type `1`, over HTTPS, remembered.
    pub fn new(phone: &str, captcha: &str, ctcode: Option<&str>) -> (r: Self)
        ensures
            r.login_type@ == "1"@,
            r.https@ == "true"@,
            r.phone@ == phone@,
            r.country_code@ == country_code_or_default(ctcode),
            ctcode matches Some(c) ==> r.country_code@ == c@,
            r.captcha@ == captcha@,
            r.remember@ == "true"@,
    {
        LoginCellphoneRequest {
            login_type: String::from_str("1"),
            https: String::from_str("true"),
            phone: String::from_str(phone),
            country_code: country_code(ctcode),
            captcha: String::from_str(captcha),
            remember: String::from_str("true"),
        }
    }

    /// The JSON members, named as the service expects them.
    pub fn json_members(&self) -> (members: Vec<(String, String)>)
        ensures
            string_pairs_view(members@) == login_cellphone_members(*self),
    {
        let mut members: Vec<(String, String)> = Vec::new();
        members.push(pair("type", &self.login_type));
        members.push(pair("https", &self.https));
        members.push(pair("phone", &self.phone));
        members.push(pair("countrycode", &self.country_code));
        members.push(pair("captcha", &self.captcha));
        members.push(pair("remember", &self.remember));
        assert(string_pairs_view(members@) =~= login_cellphone_members(*self));
        members
    }

    /// The compact JSON text of the request.
    pub fn to_json(&self) -> (text: String)
        ensures
            text@ == json_object(login_cellphone_members(*self)),
    {
        json_object_text(&self.json_members())
    }
}

/// An encrypted request ready to be posted: where, the form fields, and the
/// headers.
#[derive(Debug, Clone)]
pub struct WeapiRequest {
    /// Full URL of the endpoint.
    pub url: String,
    /// The form fields `params` and `encSecKey`.
    pub form: Vec<(String, String)>,
    /// Header names (lowercase) and values.
    pub headers: Vec<(String, String)>,
}

/// The headers of every request: a browser user agent, and the service as
/// referer and origin.
pub open spec fn standard_headers() -> Seq<(Seq<char>, Seq<char>)> {
    seq![("user-agent"@, USER_AGENT@), ("referer"@, BASE_URL@), ("origin"@, BASE_URL@)]
}

/// The headers of every request.
pub fn request_headers() -> (headers: Vec<(String, String)>)
    ensures
        string_pairs_view(headers@) == standard_headers(),
{
    let mut headers: Vec<(String, String)> = Vec::new();
    headers.push((String::from_str("user-agent"), String::from_str(USER_AGENT)));
    headers.push((String::from_str("referer"), String::from_str(BASE_URL)));
    headers.push((String::from_str("origin"), String::from_str(BASE_URL)));
    assert(string_pairs_view(headers@) =~= standard_headers());
    headers
}

/// The full URL of the endpoint at `path`.
pub fn api_url(path: &str) -> (url: String)
    ensures
        url@ == BASE_URL@ + path@,
{
    let mut url = String::from_str(BASE_URL);
    url.append(path);
    url
}

/// What preparing the request with JSON text `json` for the endpoint at `path`
/// may give. A text too long to encrypt is refused; then the public key is
/// refused exactly when its PEM text is not accepted, and RSA encryption fails
/// exactly when the key's modulus is too small; otherwise the request is
/// prepared. A prepared request goes to the endpoint, carries the standard
/// headers and a weapi encryption of the text's UTF-8 bytes.
pub open spec fn is_prepared_request(path: Seq<char>, json: Seq<char>, r: Result<WeapiRequest, WeapiError>) -> bool {
    let fits = weapi_text_fits(encode_utf8(json).len() as int);
    &&& (r matches Err(WeapiError::InputTooLong)) <==> !fits
    &&& (r matches Err(WeapiError::PublicKey)) <==> fits && !pem_public_key_accepted(PUBLIC_KEY_PEM@)
    &&& (r matches Err(WeapiError::RsaEncrypt)) <==> fits && pem_public_key_accepted(PUBLIC_KEY_PEM@) && !public_key_usable()
    &&& r matches Err(e) ==> e == WeapiError::InputTooLong || e == WeapiError::PublicKey || e == WeapiError::RsaEncrypt
    &&& r is Ok <==> fits && public_key_usable()
    &&& r matches Ok(req) ==> {
        &&& fits
        &&& req.url@ == BASE_URL@ + path
        &&& string_pairs_view(req.headers@) == standard_headers()
        &&& req.form@.len() == 2
        &&& req.form@[0].0@ == "params"@
        &&& req.form@[1].0@ == "encSecKey"@
        &&& is_weapi_form_of(encode_utf8(json), req.form@[0].1@, req.form@[1].1@)
        &&& weapi_form_recoverable(encode_utf8(json), req.form@[0].1@, req.form@[1].1@)
    }
}

/// Encrypts the JSON text `json` and prepares it for the endpoint at `path`.
/// The length of the text is checked before it is encrypted.
pub fn prepare_request(path: &str, json: &str) -> (r: Result<WeapiRequest, WeapiError>)
    ensures
        is_prepared_request(path@, json@, r),
{
    if !weapi_accepts_len(json.as_bytes().len()) {
        return Err(WeapiError::InputTooLong);
    }
    let form = match weapi(json) {
        Ok(form) => form,
        Err(e) => return Err(e),
    };
    Ok(WeapiRequest { url: api_url(path), form: form.form_fields(), headers: request_headers() })
}

/// Prepares the request that sends an SMS captcha to `phone`.
pub fn prepare_send_captcha(phone: &str, ctcode: Option<&str>) -> (r: Result<WeapiRequest, WeapiError>)
    ensures
        is_prepared_request(
            SEND_CAPTCHA_PATH@,
            json_object(seq![("ctcode"@, country_code_or_default(ctcode)), ("secrete"@, CAPTCHA_SECRETE@), ("cellphone"@, phone@)]),
            r,
        ),
        ctcode matches Some(c) ==> is_prepared_request(
            SEND_CAPTCHA_PATH@,
            json_object(seq![("ctcode"@, c@), ("secrete"@, CAPTCHA_SECRETE@), ("cellphone"@, phone@)]),
            r,
        ),
{
    let request = SendCaptchaRequest::new(phone, ctcode);
    let json = request.to_json();
    assert(send_captcha_members(request) =~= seq![("ctcode"@, country_code_or_default(ctcode)), ("secrete"@, CAPTCHA_SECRETE@), ("cellphone"@, phone@)]);
    prepare_request(SEND_CAPTCHA_PATH, json.as_str())
}

/// Prepares the request that verifies `captcha` for `phone`.
pub fn prepare_verify_captcha(phone: &str, captcha: &str, ctcode: Option<&str>) -> (r: Result<WeapiRequest, WeapiError>)
    ensures
        is_prepared_request(
            VERIFY_CAPTCHA_PATH@,
            json_object(seq![("ctcode"@, country_code_or_default(ctcode)), ("cellphone"@, phone@), ("captcha"@, captcha@)]),
            r,
        ),
        ctcode matches Some(c) ==> is_prepared_request(
            VERIFY_CAPTCHA_PATH@,
            json_object(seq![("ctcode"@, c@), ("cellphone"@, phone@), ("captcha"@, captcha@)]),
            r,
        ),
{
    let request = VerifyCaptchaRequest::new(phone, captcha, ctcode);
    let json = request.to_json();
    assert(verify_captcha_members(request) =~= seq![("ctcode"@, country_code_or_default(ctcode)), ("cellphone"@, phone@), ("captcha"@, captcha@)]);
    prepare_request(VERIFY_CAPTCHA_PATH, json.as_str())
}

/// Prepares the request that logs `phone` in with `captcha`.
pub fn prepare_login_cellphone(phone: &str, captcha: &str, ctcode: Option<&str>) -> (r: Result<WeapiRequest, WeapiError>)
    ensures
        is_prepared_request(
            LOGIN_CELLPHONE_PATH@,
            json_object(seq![
                ("type"@, "1"@),
                ("https"@, "true"@),
                ("phone"@, phone@),
                ("countrycode"@, country_code_or_default(ctcode)),
                ("captcha"@, captcha@),
                ("remember"@, "true"@),
            ]),
            r,
        ),
        ctcode matches Some(c) ==> is_prepared_request(
            LOGIN_CELLPHONE_PATH@,
            json_object(seq![
                ("type"@, "1"@),
                ("https"@, "true"@),
                ("phone"@, phone@),
                ("countrycode"@, c@),
                ("captcha"@, captcha@),
                ("remember"@, "true"@),
            ]),
            r,
        ),
{
    let request = LoginCellphoneRequest::new(phone, captcha, ctcode);
    let json = request.to_json();
    assert(login_cellphone_members(request) =~= seq![
        ("type"@, "1"@),
        ("https"@, "true"@),
        ("phone"@, phone@),
        ("countrycode"@, country_code_or_default(ctcode)),
        ("captcha"@, captcha@),
        ("remember"@, "true"@),
    ]);
    prepare_request(LOGIN_CELLPHONE_PATH, json.as_str())
}

/// Answer to a captcha request.
#[derive(Debug, Clone)]
pub struct SendCaptchaResponse {
    /// API code; 200 reports success.
    pub code: i32,
    /// Optional message of the service.
    pub message: Option<String>,
}

/// Answer to a captcha verification.
#[derive(Debug, Clone)]
pub struct VerifyCaptchaResponse {
    /// API code; 200 reports success.
    pub code: i32,
    /// Optional message of the service.
    pub message: Option<String>,
}

impl SendCaptchaResponse {
    /// Whether the captcha was sent: the API code is 200.
    pub fn succeeded(&self) -> (ok: bool)
        ensures
            ok == (self.code == SUCCESS_CODE),
    {
        self.code == SUCCESS_CODE
    }
}

impl VerifyCaptchaResponse {
    /// Whether the captcha was accepted: the API code is 200.
    pub fn succeeded(&self) -> (ok: bool)
        ensures
            ok == (self.code == SUCCESS_CODE),
    {
        self.code == SUCCESS_CODE
    }
}

/// Body of the answer to a login.
#[derive(Debug, Clone)]
pub struct LoginCellphoneResponse {
    /// Avatar image ID (JSON member `avatarImgIdStr`).
    pub avatar_img_id_str: Option<String>,
    /// Every other member of the answer, unread.
    pub extra: HashMap<String, serde_json::Value>,
}

/// Result of a login: the HTTP status, the answer, and the cookies set by it.
#[derive(Debug, Clone)]
pub struct LoginResult {
    /// HTTP status code of the login request.
    pub status: i32,
    /// Body of the answer.
    pub body: LoginCellphoneResponse,
    /// Values of the `Set-Cookie` headers of the answer, such as `MUSIC_U`.
    pub cookies: Vec<String>,
}

impl LoginResult {
    /// The result of a login answered with HTTP status `status`.
    pub fn new(status: u16, body: LoginCellphoneResponse, cookies: Vec<String>) -> (r: Self)
        ensures
            r.status == status as int,
            r.body == body,
            r.cookies@ == cookies@,
    {
        LoginResult { status: status as i32, body, cookies }
    }
}

} // verus!
