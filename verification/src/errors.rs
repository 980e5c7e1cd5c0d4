//! The failure taxonomy of an OAuth2 token-exchange client: one closed enum
//! that every fallible operation of the surrounding library reports through.
//!
//! Foreign failures (I/O, JSON parsing, environment lookup, HTTP transport,
//! URL parsing) are lifted into the taxonomy; a lifted value keeps only the
//! text the foreign failure displays, so the whole type is plain owned data
//! and moves freely across threads.
use vstd::prelude::*;
use vstd::string::StringExecFns;

verus! {

/// Every way a token-acquisition or credential operation can fail.
///
/// The variant set is closed by design: consumers match it exhaustively, so
/// adding a variant forces a review of every consumption site.
#[derive(Debug)]
pub enum FailureReason {
    /// Could not derive the on-disk token directory from a file-key identifier.
    TokenPathError,
    /// Could not determine the user's home directory.
    HomeDirError,
    /// A filesystem or stream operation failed; the payload is the text the
    /// underlying cause displays.
    IOError(String),
    /// JSON encoding or decoding failed; the payload is the text the
    /// underlying cause displays.
    JSONError(String),
    /// A required environment variable was missing or invalid; the payload is
    /// the text the underlying cause displays.
    EnvVarError(String),
    /// An outbound HTTP request or its response failed; the payload is the
    /// text the underlying cause displays.
    ReqwestError(String),
    /// A string failed to parse as a valid URL; the payload is the text the
    /// underlying cause displays.
    UrlError(String),
    /// The stored OAuth client credentials lack a redirect URI field.
    RedirectUriCfgError,
    /// A caller-injected failure from outside this taxonomy, kept as the text
    /// it displays.
    UserError(String),
    /// Expected a present refresh-token value, found none.
    RefreshTokenValue,
    /// The authorization server returned an explicit error body.
    TokenRequestError(String),
}

/// The text `display` produces for a failure: a fixed sentence for the
/// payload-free variants, the underlying cause's own text verbatim for the
/// lifted variants, and a fixed prefix followed by the server's message for
/// `TokenRequestError`.
pub open spec fn spec_display(e: FailureReason) -> Seq<char> {
    match e {
        FailureReason::TokenPathError => "failed to retrieve token dir from filekey"@,
        FailureReason::HomeDirError => "failed to identify home directory"@,
        FailureReason::IOError(t) => t@,
        FailureReason::JSONError(t) => t@,
        FailureReason::EnvVarError(t) => t@,
        FailureReason::ReqwestError(t) => t@,
        FailureReason::UrlError(t) => t@,
        FailureReason::RedirectUriCfgError => "failed to retrieve redirect_uri from credentials"@,
        FailureReason::UserError(t) => t@,
        FailureReason::RefreshTokenValue => "expected a refresh token string value, got None"@,
        FailureReason::TokenRequestError(s) => "oauth server returned error: "@ + s@,
    }
}

impl FailureReason {
    /// The human-readable message for this failure, exactly as `spec_display`
    /// states it.
    pub fn display(&self) -> (r: String)
        ensures
            r@ == spec_display(*self),
    {
        match self {
            FailureReason::TokenPathError => "failed to retrieve token dir from filekey".to_owned(),
            FailureReason::HomeDirError => "failed to identify home directory".to_owned(),
            FailureReason::IOError(t) => t.clone(),
            FailureReason::JSONError(t) => t.clone(),
            FailureReason::EnvVarError(t) => t.clone(),
            FailureReason::ReqwestError(t) => t.clone(),
            FailureReason::UrlError(t) => t.clone(),
            FailureReason::RedirectUriCfgError => "failed to retrieve redirect_uri from credentials".to_owned(),
            FailureReason::UserError(t) => t.clone(),
            FailureReason::RefreshTokenValue => "expected a refresh token string value, got None".to_owned(),
            FailureReason::TokenRequestError(s) => {
                let mut r = "oauth server returned error: ".to_owned();
                r.append(s.as_str());
                r
            },
        }
    }
}

/// Categorical equality: two failures are equal exactly when they carry the
/// same variant tag. The payload of a lifted or caller-injected failure is
/// deliberately ignored, so tests can assert "an I/O failure occurred"
/// without matching the underlying cause's text; only `TokenRequestError`
/// additionally compares the server's message.
pub open spec fn spec_equals(a: FailureReason, b: FailureReason) -> bool {
    match (a, b) {
        (FailureReason::TokenPathError, FailureReason::TokenPathError) => true,
        (FailureReason::HomeDirError, FailureReason::HomeDirError) => true,
        (FailureReason::IOError(_), FailureReason::IOError(_)) => true,
        (FailureReason::JSONError(_), FailureReason::JSONError(_)) => true,
        (FailureReason::EnvVarError(_), FailureReason::EnvVarError(_)) => true,
        (FailureReason::ReqwestError(_), FailureReason::ReqwestError(_)) => true,
        (FailureReason::UrlError(_), FailureReason::UrlError(_)) => true,
        (FailureReason::RedirectUriCfgError, FailureReason::RedirectUriCfgError) => true,
        (FailureReason::UserError(_), FailureReason::UserError(_)) => true,
        (FailureReason::RefreshTokenValue, FailureReason::RefreshTokenValue) => true,
        (FailureReason::TokenRequestError(s1), FailureReason::TokenRequestError(s2)) => s1@ == s2@,
        (_, _) => false,
    }
}

impl PartialEq for FailureReason {
    fn eq(&self, other: &FailureReason) -> (r: bool) {
        match (self, other) {
            (FailureReason::TokenPathError, FailureReason::TokenPathError) => true,
            (FailureReason::HomeDirError, FailureReason::HomeDirError) => true,
            (FailureReason::IOError(_), FailureReason::IOError(_)) => true,
            (FailureReason::JSONError(_), FailureReason::JSONError(_)) => true,
            (FailureReason::EnvVarError(_), FailureReason::EnvVarError(_)) => true,
            (FailureReason::ReqwestError(_), FailureReason::ReqwestError(_)) => true,
            (FailureReason::UrlError(_), FailureReason::UrlError(_)) => true,
            (FailureReason::RedirectUriCfgError, FailureReason::RedirectUriCfgError) => true,
            (FailureReason::UserError(_), FailureReason::UserError(_)) => true,
            (FailureReason::RefreshTokenValue, FailureReason::RefreshTokenValue) => true,
            (FailureReason::TokenRequestError(s1), FailureReason::TokenRequestError(s2)) => (
                *s1 == *s2
            ),
            (_, _) => false,
        }
    }
}

impl vstd::std_specs::cmp::PartialEqSpecImpl for FailureReason {
    open spec fn obeys_eq_spec() -> bool {
        true
    }

    open spec fn eq_spec(&self, other: &FailureReason) -> bool {
        spec_equals(*self, *other)
    }
}

/// Equality is reflexive: every failure equals itself.
pub proof fn lemma_equals_reflexive(v: FailureReason)
    ensures
        spec_equals(v, v),
{
}

/// Equality is symmetric: the order of comparison never matters.
pub proof fn lemma_equals_symmetric(a: FailureReason, b: FailureReason)
    ensures
        spec_equals(a, b) == spec_equals(b, a),
{
}

/// Equality is transitive, so it is a genuine equivalence on failures.
pub proof fn lemma_equals_transitive(a: FailureReason, b: FailureReason, c: FailureReason)
    requires
        spec_equals(a, b),
        spec_equals(b, c),
    ensures
        spec_equals(a, c),
{
}

/// Equality is categorical for the lifted and caller-injected variants: two
/// failures of the same such variant are equal whatever texts they carry,
/// while failures of different variants are never equal (stated here for the
/// I/O and JSON pair).
pub proof fn lemma_equals_ignores_opaque_payload(s: String, t: String)
    ensures
        spec_equals(FailureReason::IOError(s), FailureReason::IOError(t)),
        spec_equals(FailureReason::JSONError(s), FailureReason::JSONError(t)),
        spec_equals(FailureReason::EnvVarError(s), FailureReason::EnvVarError(t)),
        spec_equals(FailureReason::ReqwestError(s), FailureReason::ReqwestError(t)),
        spec_equals(FailureReason::UrlError(s), FailureReason::UrlError(t)),
        spec_equals(FailureReason::UserError(s), FailureReason::UserError(t)),
        !spec_equals(FailureReason::IOError(s), FailureReason::JSONError(t)),
{
}

/// Only `TokenRequestError` is payload-sensitive: two such failures are equal
/// exactly when the carried server messages are the same text.
pub proof fn lemma_token_request_payload_sensitive(s1: String, s2: String)
    ensures
        spec_equals(
            FailureReason::TokenRequestError(s1),
            FailureReason::TokenRequestError(s2),
        ) == (s1@ == s2@),
{
}

/// Lifting round-trip: a lifted failure keeps the foreign failure's display
/// text, so displaying the lifted value yields that text verbatim.
pub proof fn lemma_lifted_display_verbatim(t: String)
    ensures
        spec_display(FailureReason::IOError(t)) == t@,
        spec_display(FailureReason::JSONError(t)) == t@,
        spec_display(FailureReason::EnvVarError(t)) == t@,
        spec_display(FailureReason::ReqwestError(t)) == t@,
        spec_display(FailureReason::UrlError(t)) == t@,
        spec_display(FailureReason::UserError(t)) == t@,
{
}

/// Declares `url::ParseError` as an opaque foreign type; nothing is assumed
/// of its values beyond what `ToString::to_string` is specified to do.
#[verifier::external_type_specification]
#[verifier::external_body]
pub struct ExUrlParseError(url::ParseError);

/// Declares `serde_json::Error` as an opaque foreign type; nothing is assumed
/// of its values beyond what `ToString::to_string` is specified to do.
#[verifier::external_type_specification]
#[verifier::external_body]
pub struct ExJsonError(serde_json::Error);

/// Declares `reqwest::Error` as an opaque foreign type; nothing is assumed
/// of its values beyond what `ToString::to_string` is specified to do.
#[verifier::external_type_specification]
#[verifier::external_body]
pub struct ExReqwestError(reqwest::Error);

/// Declares `std::io::Error` as an opaque foreign type; nothing is assumed
/// of its values beyond what `ToString::to_string` is specified to do.
#[verifier::external_type_specification]
#[verifier::external_body]
pub struct ExIoError(std::io::Error);

impl FailureReason {
    /// Lifts a filesystem or stream failure; the payload is the text `e`
    /// displays, obtained through `ToString::to_string`.
    pub fn from_io(e: std::io::Error) -> (r: FailureReason)
        ensures
            r matches FailureReason::IOError(t)
                && vstd::string::to_string_from_display_ensures::<std::io::Error>(&e, t),
    {
        let t = e.to_string();
        FailureReason::IOError(t)
    }

    /// Lifts a JSON encode/decode failure; the payload is the text `e`
    /// displays, obtained through `ToString::to_string`.
    pub fn from_json(e: serde_json::Error) -> (r: FailureReason)
        ensures
            r matches FailureReason::JSONError(t)
                && vstd::string::to_string_from_display_ensures::<serde_json::Error>(&e, t),
    {
        let t = e.to_string();
        FailureReason::JSONError(t)
    }

    /// Lifts an HTTP transport failure; the payload is the text `e` displays,
    /// obtained through `ToString::to_string`.
    pub fn from_reqwest(e: reqwest::Error) -> (r: FailureReason)
        ensures
            r matches FailureReason::ReqwestError(t)
                && vstd::string::to_string_from_display_ensures::<reqwest::Error>(&e, t),
    {
        let t = e.to_string();
        FailureReason::ReqwestError(t)
    }

    /// Lifts a URL-parsing failure; the payload is the text `e` displays,
    /// obtained through `ToString::to_string`.
    pub fn from_url(e: url::ParseError) -> (r: FailureReason)
        ensures
            r matches FailureReason::UrlError(t)
                && vstd::string::to_string_from_display_ensures::<url::ParseError>(&e, t),
    {
        let t = e.to_string();
        FailureReason::UrlError(t)
    }
}

} // verus!
