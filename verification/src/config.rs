//! Start-up settings, assembled from the values of the environment.

use vstd::prelude::*;

verus! {

/// The chain assumed where none is named.
pub const DEFAULT_CHAIN_ID: u64 = 1;

/// The settings of one run.
#[derive(Debug, PartialEq, Eq)]
pub struct Config {
    pub rpc_url: String,
    pub rpc_ws_url: String,
    pub private_key: String,
    pub chain_id: u64,
}

/// Why no settings could be assembled.
#[derive(Clone, Copy, Debug, PartialEq, Eq)]
pub enum ConfigError {
    MissingRpcUrl,
    MissingRpcWsUrl,
    MissingPrivateKey,
    InvalidChainId,
}

/// The number that the standard library reads from a decimal text, where it
/// reads one.
pub uninterp spec fn parsed_u64(text: Seq<char>) -> Option<u64>;

/// Calls `str::parse::<u64>` of the standard library, whose result depends
/// on the text alone; a text that it rejects gives nothing.
#[verifier::external_body]
fn parse_u64(text: &str) -> (r: Option<u64>)
    ensures
        r == parsed_u64(text@),
{
    text.parse::<u64>().ok()
}

impl Config {
    /// The settings that the given values amount to. The three texts are
    /// required, in this order; the chain defaults when it is not named
    /// (`chain_id` empty) and is refused when it was named but is no number
    /// (`chain_id` holding nothing).
    pub open spec fn assemble_spec(
        rpc_url: Option<String>,
        rpc_ws_url: Option<String>,
        private_key: Option<String>,
        chain_id: Option<Option<u64>>,
    ) -> Result<Config, ConfigError> {
        match (rpc_url, rpc_ws_url, private_key, chain_id) {
            (None, _, _, _) => Err(ConfigError::MissingRpcUrl),
            (Some(_), None, _, _) => Err(ConfigError::MissingRpcWsUrl),
            (Some(_), Some(_), None, _) => Err(ConfigError::MissingPrivateKey),
            (Some(_), Some(_), Some(_), Some(None)) => Err(ConfigError::InvalidChainId),
            (Some(url), Some(ws_url), Some(key), Some(Some(chain))) => Ok(
                Config { rpc_url: url, rpc_ws_url: ws_url, private_key: key, chain_id: chain },
            ),
            (Some(url), Some(ws_url), Some(key), None) => Ok(
                Config {
                    rpc_url: url,
                    rpc_ws_url: ws_url,
                    private_key: key,
                    chain_id: DEFAULT_CHAIN_ID,
                },
            ),
        }
    }

    /// Assembles the settings from values that are already read and parsed.
    pub fn assemble(
        rpc_url: Option<String>,
        rpc_ws_url: Option<String>,
        private_key: Option<String>,
        chain_id: Option<Option<u64>>,
    ) -> (r: Result<Config, ConfigError>)
        ensures
            r == Self::assemble_spec(rpc_url, rpc_ws_url, private_key, chain_id),
    {
        let url = match rpc_url {
            Some(url) => url,
            None => {
                return Err(ConfigError::MissingRpcUrl);
            },
        };
        let ws_url = match rpc_ws_url {
            Some(ws_url) => ws_url,
            None => {
                return Err(ConfigError::MissingRpcWsUrl);
            },
        };
        let key = match private_key {
            Some(key) => key,
            None => {
                return Err(ConfigError::MissingPrivateKey);
            },
        };
        let chain = match chain_id {
            Some(Some(chain)) => chain,
            Some(None) => {
                return Err(ConfigError::InvalidChainId);
            },
            None => DEFAULT_CHAIN_ID,
        };
        Ok(Config { rpc_url: url, rpc_ws_url: ws_url, private_key: key, chain_id: chain })
    }

    /// Loads the settings from the values of the four environment variables,
    /// each empty where the variable is not set.
    pub fn load(
        rpc_url: Option<String>,
        rpc_ws_url: Option<String>,
        private_key: Option<String>,
        chain_id: Option<String>,
    ) -> (r: Result<Config, ConfigError>)
        ensures
            r == Self::assemble_spec(
                rpc_url,
                rpc_ws_url,
                private_key,
                match chain_id {
                    Some(text) => Some(parsed_u64(text@)),
                    None => None,
                },
            ),
    {
        let parsed = match &chain_id {
            Some(text) => Some(parse_u64(text.as_str())),
            None => None,
        };
        Self::assemble(rpc_url, rpc_ws_url, private_key, parsed)
    }
}

} // verus!
