//! SMPP server URL parsing and classification.

use smpp_multipart::result::SmppUrlError;
use smpp_multipart::urls::{SmppUrl, classify_smpp_url};

#[test]
fn plain_scheme_with_default_port() {
    let url = SmppUrl::new("smpp://example.com").unwrap();
    assert_eq!(url.text, "smpp://example.com");
    let wasm = url.into_wasm();
    assert!(!wasm.ssl);
    assert_eq!(wasm.domain, "example.com");
    assert_eq!(wasm.port, 2775);
}

#[test]
fn tls_schemes_with_default_and_explicit_ports() {
    let wasm = SmppUrl::new("smpps://host.example").unwrap().into_wasm();
    assert!(wasm.ssl);
    assert_eq!(wasm.port, 2776);

    let wasm = SmppUrl::new("ssmpp://host.example").unwrap().into_wasm();
    assert!(wasm.ssl);
    assert_eq!(wasm.port, 2776);

    let wasm = SmppUrl::new("smpps://host.example:9999").unwrap().into_wasm();
    assert!(wasm.ssl);
    assert_eq!(wasm.port, 9999);
}

#[test]
fn wrong_scheme_is_rejected() {
    assert_eq!(
        SmppUrl::new("http://example.com").unwrap_err(),
        SmppUrlError::Schema
    );
}

#[test]
fn text_that_is_no_url_is_rejected() {
    assert_eq!(SmppUrl::new("not a url").unwrap_err(), SmppUrlError::Parse);
    assert_eq!(SmppUrl::new("").unwrap_err(), SmppUrlError::Parse);
}

#[test]
fn classification_is_exact_on_parts() {
    let out = classify_smpp_url("smpp", Some("h"), Some(7)).unwrap();
    assert!(!out.ssl);
    assert_eq!(out.domain, "h");
    assert_eq!(out.port, 7);

    let out = classify_smpp_url("ssmpp", Some("h"), None).unwrap();
    assert!(out.ssl);
    assert_eq!(out.port, 2776);

    assert_eq!(
        classify_smpp_url("smppx", Some("h"), None).unwrap_err(),
        SmppUrlError::Schema
    );
    assert_eq!(
        classify_smpp_url("smpp", None, None).unwrap_err(),
        SmppUrlError::Host
    );
}

#[test]
fn original_default_bind_url_is_accepted() {
    let wasm = SmppUrl::new("smpps://rusmpps.rusmpp.org:2776")
        .unwrap()
        .into_wasm();
    assert!(wasm.ssl);
    assert_eq!(wasm.domain, "rusmpps.rusmpp.org");
    assert_eq!(wasm.port, 2776);
}
