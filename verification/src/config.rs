//! Process configuration: validated once at startup, immutable
//! thereafter.

use vstd::prelude::*;

verus! {

/// The default command prefix, used when none is configured.
pub open spec fn default_prefix() -> Seq<char> {
    "!"@
}

/// A required configuration value that was absent. Fatal at startup,
/// before any connection is attempted.
#[derive(Clone, Copy, Debug, PartialEq, Eq, Structural)]
pub enum ConfigError {
    MissingUsername,
    MissingToken,
    MissingChannel,
}

/// The validated, immutable process configuration.
#[derive(Clone, Debug, PartialEq, Eq)]
pub struct Config {
    /// Login name of the bot account.
    pub bot_username: String,
    /// Credential for the bot account.
    pub oauth_token: String,
    /// The one channel the bot joins.
    pub channel: String,
    /// The prefix that marks a chat message as a command invocation.
    pub prefix: String,
}

impl Config {
    /// Validates the raw configuration values, read once at startup.
    /// The username, token and channel are required, in that order of
    /// checking; the prefix is optional and defaults to `"!"`.
    pub fn from_values(
        bot_username: Option<String>,
        oauth_token: Option<String>,
        channel: Option<String>,
        prefix: Option<String>,
    ) -> (r: Result<Config, ConfigError>)
        ensures
            bot_username is None ==> r == Err::<Config, ConfigError>(
                ConfigError::MissingUsername,
            ),
            bot_username is Some && oauth_token is None ==> r == Err::<Config, ConfigError>(
                ConfigError::MissingToken,
            ),
            bot_username is Some && oauth_token is Some && channel is None ==> r == Err::<
                Config,
                ConfigError,
            >(ConfigError::MissingChannel),
            bot_username is Some && oauth_token is Some && channel is Some ==> (r matches Ok(
                c,
            ) && c.bot_username == bot_username->0 && c.oauth_token == oauth_token->0
                && c.channel == channel->0 && c.prefix@ == (match prefix {
                Some(p) => p@,
                None => default_prefix(),
            })),
    {
        let bot_username = match bot_username {
            Some(u) => u,
            None => {
                return Err(ConfigError::MissingUsername);
            },
        };
        let oauth_token = match oauth_token {
            Some(t) => t,
            None => {
                return Err(ConfigError::MissingToken);
            },
        };
        let channel = match channel {
            Some(ch) => ch,
            None => {
                return Err(ConfigError::MissingChannel);
            },
        };
        let prefix = match prefix {
            Some(p) => p,
            None => String::from_str("!"),
        };
        Ok(Config { bot_username, oauth_token, channel, prefix })
    }
}

} // verus!
