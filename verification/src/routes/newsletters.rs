//! POST /newsletters: publish an issue over the API, with the `Basic`
//! authentication scheme.

use vstd::prelude::*;
use vstd::string::*;
use vstd::utf8::{decode_utf8, valid_utf8};
use base64::Engine;
use crate::authentication::password::Credentials;
use crate::secret::SecretText;
use crate::text::{split_once, string_from_utf8, strip_prefix};

verus! {

/// The body of the request.
pub struct BodyData {
    pub title: String,
    pub content: Content,
}

/// The two forms of an issue's text.
pub struct Content {
    pub html: String,
    pub text: String,
}

/// Why publishing failed.
#[derive(Debug, Clone, Copy, PartialEq, Eq, Structural)]
pub enum PublishError {
    /// The request came without valid credentials: 401.
    AuthError(BasicAuthError),
    /// Outside work failed: 500.
    UnexpectedError(crate::utils::Operation),
}

/// What is wrong with an `Authorization` header.
#[derive(Debug, Clone, Copy, PartialEq, Eq, Structural)]
pub enum BasicAuthError {
    MissingHeader,
    HeaderNotText,
    NotBasic,
    NotBase64,
    CredentialsNotUtf8,
    MissingPassword,
}

/// The `Authorization` header of a request.
pub enum AuthorizationHeader {
    /// The request has no such header.
    Missing,
    /// The header's value is not a string.
    NotText,
    /// The header's value.
    Text(String),
}

/// The message of each error.
pub open spec fn basic_auth_message(e: BasicAuthError) -> Seq<char> {
    match e {
        BasicAuthError::MissingHeader => "The 'Authorization' header was missing"@,
        BasicAuthError::HeaderNotText => "The 'Authorization' header was not a valid UTF8 string."@,
        BasicAuthError::NotBasic => "The authorization scheme was not 'Basic'."@,
        BasicAuthError::NotBase64 => "Failed to base64-decode 'Basic' credentials."@,
        BasicAuthError::CredentialsNotUtf8 => "The decoded credential string is not valid UTF8."@,
        BasicAuthError::MissingPassword => "A password must be provided in 'Basic' auth."@,
    }
}

impl BasicAuthError {
    /// The message of this error.
    pub fn message(&self) -> (r: &'static str)
        ensures
            r@ == basic_auth_message(*self),
    {
        match self {
            BasicAuthError::MissingHeader => "The 'Authorization' header was missing",
            BasicAuthError::HeaderNotText =>
                "The 'Authorization' header was not a valid UTF8 string.",
            BasicAuthError::NotBasic => "The authorization scheme was not 'Basic'.",
            BasicAuthError::NotBase64 => "Failed to base64-decode 'Basic' credentials.",
            BasicAuthError::CredentialsNotUtf8 => "The decoded credential string is not valid UTF8.",
            BasicAuthError::MissingPassword => "A password must be provided in 'Basic' auth.",
        }
    }
}

#[verifier::external_type_specification]
#[verifier::external_body]
pub struct ExDecodeError(base64::DecodeError);

/// The bytes that a text stands for in standard base64 with padding, or
/// `None` where it is no such encoding.
pub uninterp spec fn base64_decoding(s: Seq<char>) -> Option<Seq<u8>>;

/// `Engine::decode` on the `STANDARD` engine decodes a text in the standard
/// base64 alphabet with padding, and fails where the text is no such
/// encoding. The outcome depends on the text alone.
#[verifier::external_body]
pub(crate) fn base64_decode(s: &str) -> (r: Result<Vec<u8>, base64::DecodeError>)
    ensures
        r matches Ok(bytes) ==> base64_decoding(s@) == Some(bytes@),
        r is Err ==> base64_decoding(s@) is None,
{
    base64::engine::general_purpose::STANDARD.decode(s)
}

/// What the value of a header comes to. The scheme must be `Basic`; what
/// follows it must be base64 for a UTF-8 text; the text is the username, a
/// colon and the password, the username ending at the first colon.
pub open spec fn is_basic_outcome(value: Seq<char>, r: Result<Credentials, BasicAuthError>) -> bool {
    if !"Basic "@.is_prefix_of(value) {
        r matches Err(BasicAuthError::NotBasic)
    } else {
        match base64_decoding(value.skip("Basic "@.len() as int)) {
            None => r matches Err(BasicAuthError::NotBase64),
            Some(bytes) => is_decoded_outcome(bytes, r),
        }
    }
}

/// What the decoded credentials come to.
pub open spec fn is_decoded_outcome(bytes: Seq<u8>, r: Result<Credentials, BasicAuthError>) -> bool {
    if !valid_utf8(bytes) {
        r matches Err(BasicAuthError::CredentialsNotUtf8)
    } else if !decode_utf8(bytes).contains(':') {
        r matches Err(BasicAuthError::MissingPassword)
    } else {
        r matches Ok(credentials) && decode_utf8(bytes) == credentials.username@ + seq![':']
            + credentials.password@ && !credentials.username@.contains(':')
    }
}

/// What a header comes to: it must be there, its value must be text, and
/// the text must hold credentials in the `Basic` scheme.
pub open spec fn is_header_outcome(
    header: AuthorizationHeader,
    r: Result<Credentials, BasicAuthError>,
) -> bool {
    match header {
        AuthorizationHeader::Missing => r matches Err(BasicAuthError::MissingHeader),
        AuthorizationHeader::NotText => r matches Err(BasicAuthError::HeaderNotText),
        AuthorizationHeader::Text(value) => is_basic_outcome(value@, r),
    }
}

/// Reads the credentials out of an `Authorization` header with the `Basic`
/// scheme.
pub fn basic_authentication(header: &AuthorizationHeader) -> (r: Result<Credentials, BasicAuthError>)
    ensures
        is_header_outcome(*header, r),
{
    let header_value = match header {
        AuthorizationHeader::Missing => {
            return Err(BasicAuthError::MissingHeader);
        },
        AuthorizationHeader::NotText => {
            return Err(BasicAuthError::HeaderNotText);
        },
        AuthorizationHeader::Text(value) => value.as_str(),
    };
    let base64encoded_segment = match strip_prefix(header_value, "Basic ") {
        Some(rest) => rest,
        None => {
            return Err(BasicAuthError::NotBasic);
        },
    };
    proof {
        assert("Basic "@.is_prefix_of(header_value@)) by {
            assert(("Basic "@ + base64encoded_segment@).subrange(0, "Basic "@.len() as int)
                =~= "Basic "@);
        }
        assert(header_value@.skip("Basic "@.len() as int) =~= base64encoded_segment@);
    }
    let decoded_bytes = match base64_decode(base64encoded_segment) {
        Ok(bytes) => bytes,
        Err(_) => {
            return Err(BasicAuthError::NotBase64);
        },
    };
    decoded_credentials(decoded_bytes)
}

/// Reads the username and password out of the decoded credentials.
pub fn decoded_credentials(decoded_bytes: Vec<u8>) -> (r: Result<Credentials, BasicAuthError>)
    ensures
        is_decoded_outcome(decoded_bytes@, r),
{
    let decoded_credentials = match string_from_utf8(decoded_bytes) {
        Some(text) => text,
        None => {
            return Err(BasicAuthError::CredentialsNotUtf8);
        },
    };
    match split_once(decoded_credentials.as_str(), ':') {
        Some((username, password)) => {
            proof {
                let text = decoded_credentials@;
                assert(text[username@.len() as int] == ':');
                assert(text.contains(':'));
            }
            Ok(
                Credentials {
                    username: String::from_str(username),
                    password: SecretText::new(String::from_str(password)),
                },
            )
        },
        None => Err(BasicAuthError::MissingPassword),
    }
}

/// The first step of publishing over the API: the request must carry
/// credentials in the `Basic` scheme; without them it ends with 401.
pub fn publish_newsletter(header: &AuthorizationHeader) -> (r: Result<Credentials, PublishError>)
    ensures
        match r {
            Ok(credentials) => is_header_outcome(*header, Ok(credentials)),
            Err(PublishError::AuthError(e)) => is_header_outcome(*header, Err(e)),
            Err(PublishError::UnexpectedError(_)) => false,
        },
{
    match basic_authentication(header) {
        Ok(credentials) => Ok(credentials),
        Err(e) => Err(PublishError::AuthError(e)),
    }
}

} // verus!
