//! The configuration: where the API token comes from.

use crate::error::NjallaError;
use vstd::prelude::*;
use vstd::string::StringSliceAdditionalSpecFns;
use vstd::utf8::{decode_utf8, encode_utf8_decode_utf8, is_char_boundary};

verus! {

/// Configuration structure.
#[derive(Debug)]
pub struct Config {
    /// Njalla API token.
    pub api_token: Option<String>,
}

impl Default for Config {
    fn default() -> (config: Config)
        ensures
            config.api_token is None,
    {
        Config { api_token: None }
    }
}

impl Config {
    /// The token that the configuration supplies: the one it holds, unless
    /// that one is empty.
    pub open spec fn token(&self) -> Option<Seq<char>> {
        match self.api_token {
            Some(t) => if t@.len() > 0 {
                Some(t@)
            } else {
                None
            },
            None => None,
        }
    }

    /// Get the API token, returning an error if not configured.
    pub fn api_token(&self) -> (r: Result<&str, NjallaError>)
        ensures
            match self.token() {
                Some(t) => r matches Ok(s) && s@ == t,
                None => r matches Err(e) && e is MissingToken,
            },
    {
        match &self.api_token {
            Some(t) => {
                if t.as_str().is_empty() {
                    Err(NjallaError::MissingToken)
                } else {
                    Ok(t.as_str())
                }
            },
            None => Err(NjallaError::MissingToken),
        }
    }

    /// The configuration once the environment has had its say: a token from
    /// the environment takes the place of the one held, unless it is empty.
    pub fn with_env_token(self, env_token: Option<String>) -> (config: Config)
        ensures
            config.api_token == match env_token {
                Some(t) => if t@.len() > 0 {
                    Some(t)
                } else {
                    self.api_token
                },
                None => self.api_token,
            },
    {
        match env_token {
            Some(t) => {
                if t.as_str().is_empty() {
                    self
                } else {
                    Config { api_token: Some(t) }
                }
            },
            None => self,
        }
    }
}

/// A token as it is shown: its first four and its last four bytes with three
/// dots between them, or four stars where it has eight bytes at most. A
/// token that either cut would split inside a character has no such form.
pub open spec fn masked(bytes: Seq<u8>) -> Option<Seq<char>> {
    if bytes.len() <= 8 {
        Some("****"@)
    } else if is_char_boundary(bytes, 4) && is_char_boundary(bytes, bytes.len() - 4) {
        Some(
            decode_utf8(bytes.subrange(0, 4)) + "..."@ + decode_utf8(
                bytes.subrange(bytes.len() - 4, bytes.len() as int),
            ),
        )
    } else {
        None
    }
}

/// Masks a token for display.
pub fn masked_token(token: &str) -> (r: Option<String>)
    ensures
        match r {
            Some(shown) => masked(token.spec_bytes()) == Some(shown@),
            None => masked(token.spec_bytes()) is None,
        },
{
    let n = token.as_bytes().len();
    if n <= 8 {
        return Some(String::from_str("****"));
    }
    if !token.is_char_boundary(4) || !token.is_char_boundary(n - 4) {
        return None;
    }
    let head = token.split_at(4).0;
    let tail = token.split_at(n - 4).1;
    proof {
        encode_utf8_decode_utf8(head@);
        encode_utf8_decode_utf8(tail@);
    }
    let mut shown = String::from_str(head);
    shown.append("...");
    shown.append(tail);
    Some(shown)
}

} // verus!
