//! Settings of a running service, read from the values of its environment
//! variables.

use vstd::prelude::*;
use crate::ident::Uuid;
use crate::text::{opt_view, owned, owned_opt, push_char};

verus! {

/// Whether every character of `s` is a decimal digit.
pub open spec fn all_digits(s: Seq<char>) -> bool {
    forall|i: int| 0 <= i < s.len() ==> '0' <= #[trigger] s[i] <= '9'
}

/// The number that the decimal digits `s` write.
pub open spec fn decimal_value(s: Seq<char>) -> int
    decreases s.len(),
{
    if s.len() == 0 {
        0
    } else {
        decimal_value(s.drop_last()) * 10 + (s.last() as int - 48)
    }
}

/// The port that `text` writes: an optional `+`, then at least one decimal
/// digit, with a value of at most 65535. Anything else is no port.
pub open spec fn parsed_port(text: Seq<char>) -> Option<int> {
    let digits = if text.len() > 0 && text[0] == '+' {
        text.drop_first()
    } else {
        text
    };
    if digits.len() == 0 || !all_digits(digits) || decimal_value(digits) > 65535 {
        None
    } else {
        Some(decimal_value(digits))
    }
}

/// The pieces between the commas of `s`; a string without a comma is one
/// piece.
pub open spec fn split_at_commas(s: Seq<char>) -> Seq<Seq<char>>
    decreases s.len(),
{
    if s.len() == 0 {
        seq![Seq::<char>::empty()]
    } else {
        let before = split_at_commas(s.drop_last());
        if s.last() == ',' {
            before.push(Seq::<char>::empty())
        } else {
            before.drop_last().push(before.last().push(s.last()))
        }
    }
}

/// `text` without the white space at its beginning and at its end.
pub uninterp spec fn trimmed(text: Seq<char>) -> Seq<char>;

/// The 16 bytes of the identifier that `text` writes, in any of the forms
/// that are in use for identifiers; `None` where `text` writes none.
pub uninterp spec fn parsed_uuid(text: Seq<char>) -> Option<Seq<u8>>;

/// `str::trim`: the string without leading and trailing white space.
#[verifier::external_body]
fn trim(s: &str) -> (r: String)
    ensures
        r@ == trimmed(s@),
{
    s.trim().to_owned()
}

/// `uuid::Uuid::parse_str`, then `into_bytes`: the bytes of the identifier
/// that the string writes, if it writes one.
#[verifier::external_body]
fn parse_uuid(s: &str) -> (r: Option<[u8; 16]>)
    ensures
        match r {
            Some(bytes) => parsed_uuid(s@) == Some(bytes@),
            None => parsed_uuid(s@) is None,
        },
{
    match uuid::Uuid::parse_str(s) {
        Ok(id) => Some(id.into_bytes()),
        Err(_) => None,
    }
}

/// The digits of a number write at least the number that the first `k` of
/// them write.
proof fn lemma_decimal_value_grows(s: Seq<char>, k: int)
    requires
        all_digits(s),
        0 <= k <= s.len(),
    ensures
        0 <= decimal_value(s.take(k)) <= decimal_value(s),
    decreases s.len() - k,
{
    lemma_decimal_value_nonnegative(s.take(k));
    if k < s.len() {
        lemma_decimal_value_grows(s, k + 1);
        assert(s.take(k + 1).drop_last() == s.take(k));
        assert(s.take(k + 1).last() == s[k]);
    } else {
        assert(s.take(k) == s);
    }
}

/// Decimal digits write a number that is not negative.
proof fn lemma_decimal_value_nonnegative(s: Seq<char>)
    requires
        all_digits(s),
    ensures
        0 <= decimal_value(s),
    decreases s.len(),
{
    if s.len() > 0 {
        assert(all_digits(s.drop_last())) by {
            assert forall|i: int| 0 <= i < s.drop_last().len() implies '0'
                <= #[trigger] s.drop_last()[i] <= '9' by {
                assert(s.drop_last()[i] == s[i]);
            }
        }
        lemma_decimal_value_nonnegative(s.drop_last());
    }
}

/// Reads a port number: an optional `+`, then decimal digits, at most
/// 65535.
pub fn parse_port(text: &str) -> (r: Option<u16>)
    ensures
        match r {
            Some(port) => parsed_port(text@) == Some(port as int),
            None => parsed_port(text@) is None,
        },
{
    let ghost digits = if text@.len() > 0 && text@[0] == '+' {
        text@.drop_first()
    } else {
        text@
    };
    let ghost skipped: int = text@.len() - digits.len();
    let mut value: u32 = 0;
    let ghost mut seen: int = 0;
    let mut any = false;
    let mut first = true;
    for c in it: text.chars()
        invariant
            it.seq() == text@,
            digits == if text@.len() > 0 && text@[0] == '+' {
                text@.drop_first()
            } else {
                text@
            },
            skipped == text@.len() - digits.len(),
            first == (it.index() == 0),
            !first ==> it.index() >= skipped,
            !first ==> seen == it.index() - skipped,
            first ==> seen == 0,
            0 <= seen <= digits.len(),
            any == (seen > 0),
            all_digits(digits.take(seen)),
            value == decimal_value(digits.take(seen)),
            value <= 65535,
    {
        let ghost k = it.index() as int;
        if first && c == '+' {
            first = false;
        } else {
            first = false;
            proof {
                assert(digits[seen] == c);
                assert(digits.take(seen + 1).drop_last() == digits.take(seen));
                assert(digits.take(seen + 1).last() == c);
            }
            if c < '0' || c > '9' {
                return None;
            }
            let digit: u32 = c as u32 - 48;
            let next: u32 = value * 10 + digit;
            proof {
                assert forall|i: int| 0 <= i < seen + 1 implies '0' <= #[trigger] digits.take(
                    seen + 1,
                )[i] <= '9' by {
                    if i < seen {
                        assert(digits.take(seen)[i] == digits[i]);
                    }
                }
            }
            if next > 65535 {
                proof {
                    if all_digits(digits) {
                        lemma_decimal_value_grows(digits, seen + 1);
                    }
                }
                return None;
            }
            value = next;
            any = true;
            proof {
                seen = seen + 1;
            }
        }
    }
    proof {
        assert(digits.take(digits.len() as int) == digits);
    }
    if any {
        Some(value as u16)
    } else {
        None
    }
}

/// Splits `text` at its commas and trims every piece.
pub fn split_origins(text: &str) -> (r: Vec<String>)
    ensures
        r@.len() == split_at_commas(text@).len(),
        forall|i: int|
            0 <= i < r@.len() ==> (#[trigger] r@[i])@ == trimmed(split_at_commas(text@)[i]),
{
    let mut pieces: Vec<String> = Vec::new();
    let mut current = String::new();
    for c in it: text.chars()
        invariant
            it.seq() == text@,
            split_at_commas(text@.take(it.index() as int)).len() == pieces@.len() + 1,
            split_at_commas(text@.take(it.index() as int)).last() == current@,
            forall|i: int|
                0 <= i < pieces@.len() ==> (#[trigger] pieces@[i])@ == trimmed(
                    split_at_commas(text@.take(it.index() as int))[i],
                ),
    {
        let ghost k = it.index() as int;
        proof {
            assert(text@.take(k + 1).drop_last() == text@.take(k));
            assert(text@.take(k + 1).last() == c);
        }
        if c == ',' {
            pieces.push(trim(current.as_str()));
            current = String::new();
        } else {
            push_char(&mut current, c);
        }
    }
    proof {
        assert(text@.take(text@.len() as int) == text@);
    }
    pieces.push(trim(current.as_str()));
    pieces
}

/// The values of the environment variables that the settings are read
/// from; `None` for a variable that is not set.
#[derive(Clone, Debug, PartialEq, Eq)]
pub struct ConfigVars {
    pub database_url: Option<String>,
    pub host: Option<String>,
    pub port: Option<String>,
    pub default_org_id: Option<String>,
    pub cors_allowed_origins: Option<String>,
    pub signing_private_key: Option<String>,
    pub signing_public_key: Option<String>,
}

/// Why the settings cannot be read.
#[derive(Clone, Copy, Debug, PartialEq, Eq, Structural)]
pub enum ConfigError {
    /// The database URL is not set.
    MissingDatabaseUrl,
    /// The port is no number between 0 and 65535.
    InvalidPort,
    /// The default organization is no identifier.
    InvalidOrgId,
}

/// The settings that the service is started with.
#[derive(Clone, Debug, PartialEq, Eq)]
pub struct Config {
    pub database_url: String,
    pub host: String,
    pub port: u16,
    pub default_org_id: Uuid,
    pub cors_allowed_origins: Vec<String>,
    /// The signing seed, 32 bytes in padded base64, if one is configured.
    pub signing_private_key: Option<String>,
    /// The public key, 32 bytes in padded base64, if one is configured.
    pub signing_public_key: Option<String>,
}

/// The value of a variable, or the default where it is not set.
pub open spec fn value_or(value: Option<String>, default: Seq<char>) -> Seq<char> {
    match value {
        Some(text) => text@,
        None => default,
    }
}

/// The value of a variable, or the default where it is not set.
fn text_or<'a>(value: &'a Option<String>, default: &'a str) -> (r: &'a str)
    ensures
        r@ == value_or(*value, default@),
{
    match value {
        Some(text) => text.as_str(),
        None => default,
    }
}

impl ConfigVars {
    /// The host to listen on.
    pub open spec fn host_text(&self) -> Seq<char> {
        value_or(self.host, "127.0.0.1"@)
    }

    /// The text of the port to listen on.
    pub open spec fn port_text(&self) -> Seq<char> {
        value_or(self.port, "8888"@)
    }

    /// The text of the default organization.
    pub open spec fn org_text(&self) -> Seq<char> {
        value_or(self.default_org_id, "00000000-0000-0000-0000-000000000001"@)
    }

    /// The comma-separated origins that may call the service.
    pub open spec fn origins_text(&self) -> Seq<char> {
        value_or(self.cors_allowed_origins, "http://localhost:3000"@)
    }

    /// Why the settings cannot be read, if they cannot: the first of a
    /// missing database URL, a port that is no port, and an organization
    /// that is no identifier.
    pub open spec fn error(&self) -> Option<ConfigError> {
        if self.database_url is None {
            Some(ConfigError::MissingDatabaseUrl)
        } else if parsed_port(self.port_text()) is None {
            Some(ConfigError::InvalidPort)
        } else if parsed_uuid(self.org_text()) is None {
            Some(ConfigError::InvalidOrgId)
        } else {
            None
        }
    }
}

impl Config {
    /// Reads the settings from the values of the environment variables,
    /// with the defaults for what is not set.
    pub fn from_vars(vars: &ConfigVars) -> (r: Result<Config, ConfigError>)
        ensures
            match r {
                Err(e) => vars.error() == Some(e),
                Ok(config) => {
                    &&& vars.error() is None
                    &&& config.database_url@ == vars.database_url->0@
                    &&& config.host@ == vars.host_text()
                    &&& parsed_port(vars.port_text()) == Some(config.port as int)
                    &&& parsed_uuid(vars.org_text()) == Some(config.default_org_id@)
                    &&& config.cors_allowed_origins@.len() == split_at_commas(
                        vars.origins_text(),
                    ).len()
                    &&& forall|i: int|
                        0 <= i < config.cors_allowed_origins@.len() ==> (
                        #[trigger] config.cors_allowed_origins@[i])@ == trimmed(
                            split_at_commas(vars.origins_text())[i],
                        )
                    &&& opt_view(config.signing_private_key) == opt_view(vars.signing_private_key)
                    &&& opt_view(config.signing_public_key) == opt_view(vars.signing_public_key)
                },
            },
    {
        let database_url = match &vars.database_url {
            Some(url) => owned(url.as_str()),
            None => {
                return Err(ConfigError::MissingDatabaseUrl);
            },
        };
        let host = owned(text_or(&vars.host, "127.0.0.1"));
        let port = match parse_port(text_or(&vars.port, "8888")) {
            Some(port) => port,
            None => {
                return Err(ConfigError::InvalidPort);
            },
        };
        let default_org_id = match parse_uuid(
            text_or(&vars.default_org_id, "00000000-0000-0000-0000-000000000001"),
        ) {
            Some(bytes) => Uuid::from_bytes(bytes),
            None => {
                return Err(ConfigError::InvalidOrgId);
            },
        };
        let cors_allowed_origins = split_origins(
            text_or(&vars.cors_allowed_origins, "http://localhost:3000"),
        );
        Ok(
            Config {
                database_url,
                host,
                port,
                default_org_id,
                cors_allowed_origins,
                signing_private_key: owned_opt(&vars.signing_private_key),
                signing_public_key: owned_opt(&vars.signing_public_key),
            },
        )
    }
}

} // verus!
