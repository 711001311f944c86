use vstd::prelude::*;

verus! {

/// The bytes that the standard base64 alphabet, with padding, decodes `text`
/// to; `None` where `text` is not valid base64.
pub uninterp spec fn standard_base64_decoding(text: Seq<char>) -> Option<Seq<u8>>;

/// The view of a decoded secret: its bytes, where there are any.
pub open spec fn decoded_view(d: Option<Vec<u8>>) -> Option<Seq<u8>> {
    match d {
        Some(v) => Some(v@),
        None => None,
    }
}

/// Relies on base64's `Engine::decode` with the `BASE64_STANDARD` engine:
/// `Ok` with the decoded bytes exactly when the text is valid, the result
/// depending on the text alone. The error value is dropped.
#[verifier::external_body]
fn decode_standard_base64(text: &str) -> (r: Option<Vec<u8>>)
    ensures
        decoded_view(r) == standard_base64_decoding(text@),
{
    base64::Engine::decode(&base64::prelude::BASE64_STANDARD, text).ok()
}

/// A configuration error that ends the run before any network traffic.
#[derive(Clone, Copy, Debug, PartialEq, Eq, Structural)]
pub enum ConfigError {
    /// The environment holds no TSIG secret.
    MissingSecret,
    /// The TSIG secret is not valid base64.
    InvalidSecret,
    /// No name was given and the local hostname could not be read.
    MissingHostname,
}

/// TSIG authentication material: the key's name known to the server and the
/// shared secret. The signing algorithm is always HMAC-SHA256.
pub struct Credential {
    pub key_name: String,
    pub secret: Vec<u8>,
}

/// Builds the credential from the outcome of decoding the secret: an error
/// where the secret was not valid base64, else the key name with the bytes.
pub fn credential_from_decoded(key_name: String, decoded: Option<Vec<u8>>) -> (r: Result<
    Credential,
    ConfigError,
>)
    ensures
        decoded is None ==> r == Err::<Credential, ConfigError>(ConfigError::InvalidSecret),
        decoded is Some ==> r is Ok && r->Ok_0.key_name@ == key_name@ && r->Ok_0.secret@
            == decoded->0@,
{
    match decoded {
        Some(secret) => Ok(Credential { key_name, secret }),
        None => Err(ConfigError::InvalidSecret),
    }
}

/// Loads the credential from the key name and the value of the secret's
/// environment variable, if it is set: a missing value and a value that is
/// not valid base64 are each an error.
pub fn load_credential(key_name: String, secret_text: Option<String>) -> (r: Result<
    Credential,
    ConfigError,
>)
    ensures
        secret_text is None ==> r == Err::<Credential, ConfigError>(ConfigError::MissingSecret),
        secret_text is Some ==> match standard_base64_decoding(secret_text->0@) {
            None => r == Err::<Credential, ConfigError>(ConfigError::InvalidSecret),
            Some(bytes) => r is Ok && r->Ok_0.key_name@ == key_name@ && r->Ok_0.secret@
                == bytes,
        },
{
    match secret_text {
        None => Err(ConfigError::MissingSecret),
        Some(text) => {
            let decoded = decode_standard_base64(text.as_str());
            credential_from_decoded(key_name, decoded)
        },
    }
}

} // verus!
