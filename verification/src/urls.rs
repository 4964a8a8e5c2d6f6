//! The SMPP server URL of the bind form.
//!
//! The url crate does the parsing; this module reads the scheme, host and
//! port out of the parsed value and decides, in verified code, whether they
//! name an SMPP endpoint and with which TLS setting and default port.

use vstd::prelude::*;

use crate::result::SmppUrlError;

verus! {

/// The url crate's parsed URL type, carried opaquely.
#[verifier::external_type_specification]
#[verifier::external_body]
pub struct ExUrl(url::Url);

/// Whether the url crate accepts the text as an absolute URL.
pub uninterp spec fn url_parse_ok(s: Seq<char>) -> bool;

/// Relies on url::Url::parse: whether a given text parses depends on the
/// text alone.
#[verifier::external_body]
fn parse_url(s: &str) -> (r: Option<url::Url>)
    ensures
        r is Some <==> url_parse_ok(s@),
{
    url::Url::parse(s).ok()
}

/// Relies on url::Url::scheme: the parsed URL's scheme.
pub assume_specification[ url::Url::scheme ](u: &url::Url) -> &str;

/// Relies on url::Url::host_str: the parsed URL's host, if it has one.
pub assume_specification[ url::Url::host_str ](u: &url::Url) -> Option<&str>;

/// Relies on url::Url::port: the parsed URL's explicit port, if any.
pub assume_specification[ url::Url::port ](u: &url::Url) -> Option<u16>;

/// Whether two strings hold the same characters.
fn str_eq(a: &str, b: &str) -> (r: bool)
    ensures
        r == (a@ == b@),
{
    let n = a.unicode_len();
    if n != b.unicode_len() {
        return false;
    }
    let mut i: usize = 0;
    while i < n
        invariant
            n == a@.len(),
            n == b@.len(),
            i <= n,
            forall|j: int| 0 <= j < i ==> a@[j] == b@[j],
        decreases n - i,
    {
        if a.get_char(i) != b.get_char(i) {
            return false;
        }
        i = i + 1;
    }
    proof {
        assert(a@ =~= b@);
    }
    true
}

/// The plain SMPP endpoint named by a URL: host, port and whether the
/// connection is wrapped in TLS.
#[derive(Debug, Clone)]
pub struct WasmSmppUrl {
    pub ssl: bool,
    pub domain: String,
    pub port: u16,
}

/// Decides whether a URL's scheme, host and port name an SMPP endpoint.
///
/// The scheme `smpp` is a plain connection, `smpps` and `ssmpp` are TLS;
/// anything else is rejected. A URL without a host is rejected. A missing
/// port falls back to 2775 for plain and 2776 for TLS connections.
pub fn classify_smpp_url(scheme: &str, host: Option<&str>, port: Option<u16>) -> (r: Result<
    WasmSmppUrl,
    SmppUrlError,
>)
    ensures
        ({
            let plain = scheme@ == "smpp"@;
            let tls = scheme@ == "smpps"@ || scheme@ == "ssmpp"@;
            match r {
                Ok(u) => {
                    &&& plain || tls
                    &&& u.ssl == tls
                    &&& host matches Some(h) && u.domain@ == h@
                    &&& u.port == match port {
                        Some(p) => p,
                        None => if tls {
                            2776u16
                        } else {
                            2775u16
                        },
                    }
                },
                Err(e) => match e {
                    SmppUrlError::Parse => false,
                    SmppUrlError::Schema => !plain && !tls,
                    SmppUrlError::Host => (plain || tls) && host is None,
                },
            }
        }),
{
    proof {
        reveal_strlit("smpp");
        reveal_strlit("smpps");
        reveal_strlit("ssmpp");
        assert("smpp"@.len() == 4 && "smpps"@.len() == 5 && "ssmpp"@.len() == 5);
        assert("smpp"@ != "smpps"@ && "smpp"@ != "ssmpp"@);
    }
    let ssl = if str_eq(scheme, "smpp") {
        false
    } else if str_eq(scheme, "smpps") || str_eq(scheme, "ssmpp") {
        true
    } else {
        return Err(SmppUrlError::Schema);
    };
    let domain = match host {
        Some(h) => String::from_str(h),
        None => {
            return Err(SmppUrlError::Host);
        },
    };
    let port = match port {
        Some(p) => p,
        None => if ssl {
            2776
        } else {
            2775
        },
    };
    Ok(WasmSmppUrl { ssl, domain, port })
}

/// A validated SMPP server URL: the text as entered, plus the endpoint it
/// names.
#[derive(Debug, Clone)]
pub struct SmppUrl {
    pub text: String,
    pub wasm: WasmSmppUrl,
}

impl SmppUrl {
    /// Parses and validates an SMPP server URL.
    ///
    /// The url crate decides whether the text is a URL at all; which
    /// schemes count, that a host must be present and how a missing port
    /// defaults is decided by `classify_smpp_url`, whose contract pins it
    /// exactly.
    pub fn new(url: &str) -> (r: Result<Self, SmppUrlError>)
        ensures
            !url_parse_ok(url@) <==> r == Err::<SmppUrl, _>(SmppUrlError::Parse),
            r matches Ok(u) ==> url_parse_ok(url@) && u.text@ == url@,
            r matches Err(e) ==> (url_parse_ok(url@) ==> (e is Schema || e is Host)),
    {
        let parsed = match parse_url(url) {
            Some(p) => p,
            None => {
                return Err(SmppUrlError::Parse);
            },
        };
        let wasm = match classify_smpp_url(parsed.scheme(), parsed.host_str(), parsed.port()) {
            Ok(w) => w,
            Err(e) => {
                return Err(e);
            },
        };
        Ok(SmppUrl { text: String::from_str(url), wasm })
    }

    /// The plain endpoint this URL names.
    pub fn into_wasm(self) -> (r: WasmSmppUrl)
        ensures
            r == self.wasm,
    {
        self.wasm
    }
}

} // verus!
