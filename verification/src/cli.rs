//! The command-line surface and the configuration checks the program
//! runs before any session starts.
use vstd::prelude::*;

verus! {

/// The command-line arguments: the configuration file to read, the log
/// level, and whether the speech-to-text flow is used.
pub struct Cli {
    pub config: String,
    pub loglevel: String,
    pub stt: bool,
}

/// Why a configuration was rejected.
pub enum ConfigError {
    EmptyApiUrl,
    EmptyModel,
}

impl ConfigError {
    /// The user-visible description of this rejection.
    pub fn describe(&self) -> (r: String)
        ensures
            self is EmptyApiUrl ==> r@ == "api_url cannot be empty"@,
            self is EmptyModel ==> r@ == "model cannot be empty"@,
    {
        match self {
            ConfigError::EmptyApiUrl => "api_url cannot be empty".to_owned(),
            ConfigError::EmptyModel => "model cannot be empty".to_owned(),
        }
    }
}

/// Accepts a configuration exactly when both the endpoint address and
/// the model name are non-empty; an empty address is reported first.
pub fn validate_config(api_url: &str, model: &str) -> (r: Result<(), ConfigError>)
    ensures
        r is Ok <==> api_url@.len() > 0 && model@.len() > 0,
        api_url@.len() == 0 ==> (r matches Err(e) && e is EmptyApiUrl),
        api_url@.len() > 0 && model@.len() == 0 ==> (r matches Err(e) && e is EmptyModel),
{
    if api_url.is_empty() {
        Err(ConfigError::EmptyApiUrl)
    } else if model.is_empty() {
        Err(ConfigError::EmptyModel)
    } else {
        Ok(())
    }
}

} // verus!
