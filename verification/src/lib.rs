//! NetEase Cloud Music "weapi" request encryption and the cellphone/SMS login
//! requests built on it.
//!
//! - [`weapi`]: the encryption of a request text into the `params` and
//!   `encSecKey` form fields.
//! - [`login_cellphone`]: the captcha and login requests, their JSON bodies,
//!   URLs and headers, and the decisions read from the answers.
//! - [`aes_cbc`], [`rsa_key`], [`secret`], [`encoding`], [`json`]: the pieces
//!   the encryption and the request bodies are made of.
pub mod aes_cbc;
pub mod encoding;
pub mod error;
pub mod json;
pub mod laws;
pub mod login_cellphone;
pub mod rsa_key;
pub mod secret;
pub mod weapi;
