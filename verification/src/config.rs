//! The configuration value, its accessors, and the step from a configuration
//! to the parts of a pool.

use crate::bindings::{no_timeouts, open_client, redis_url_accepted};
use deadpool::managed::{PoolConfig, Timeouts};
use redis::{Client, RedisError};
use vstd::prelude::*;

verus! {

/// The URL that stands in for an unset `url`: the local server on its
/// standard port.
pub const DEFAULT_URL: &'static str = "redis://127.0.0.1/";

/// Connection settings for a pool of Redis connections. Either field may be
/// left unset; the accessors then supply a default.
#[derive(Debug)]
pub struct Config {
    /// The URL of the Redis server. It is not checked before `create_pool`.
    pub url: Option<String>,
    /// The settings of the pool.
    pub pool: Option<PoolConfig>,
}

/// What a pool is assembled from: a client bound to the server's URL, from
/// which the pool's manager opens connections, and the settings of the pool.
#[derive(Debug)]
pub struct PoolParts {
    /// The client bound to the URL in effect.
    pub client: Client,
    /// The pool settings in effect.
    pub config: PoolConfig,
}

impl Config {
    /// The URL in effect: the configured one, or `DEFAULT_URL`.
    pub open spec fn effective_url(&self) -> Seq<char> {
        match self.url {
            Some(url) => url@,
            None => DEFAULT_URL@,
        }
    }

    /// The pool settings in effect where `fallback` stands in for unset ones.
    pub open spec fn effective_pool_config(&self, fallback: PoolConfig) -> PoolConfig {
        match self.pool {
            Some(configured) => configured,
            None => fallback,
        }
    }

    /// Whether `config` can be the pool settings in effect: the configured
    /// ones, or, with none configured, a default of the settings type. Such a
    /// default differs from machine to machine in its size, and always comes
    /// without timeouts.
    pub open spec fn pool_config_in_effect(&self, config: PoolConfig) -> bool {
        match self.pool {
            Some(configured) => config == configured,
            None => no_timeouts(config),
        }
    }

    /// Returns the URL used to connect to the server: the configured one,
    /// unchanged, or `DEFAULT_URL`.
    pub fn get_url(&self) -> (url: &str)
        ensures
            url@ == self.effective_url(),
    {
        match &self.url {
            Some(url) => url.as_str(),
            None => DEFAULT_URL,
        }
    }

    /// Returns a copy of the configured pool settings, or `fallback` where
    /// none are configured.
    pub fn pool_config_or(&self, fallback: PoolConfig) -> (config: PoolConfig)
        ensures
            config == self.effective_pool_config(fallback),
    {
        match &self.pool {
            Some(configured) => configured.clone(),
            None => fallback,
        }
    }

    /// Returns a copy of the configured pool settings, or the default of the
    /// settings type where none are configured.
    pub fn get_pool_config(&self) -> (config: PoolConfig)
        ensures
            self.pool_config_in_effect(config),
    {
        match &self.pool {
            Some(configured) => configured.clone(),
            None => PoolConfig::default(),
        }
    }

    /// Finishes the creation of a pool from the outcome of opening the
    /// client: an error is handed on as it is, a client is joined with the
    /// pool settings in effect.
    pub fn pool_parts_from(&self, opened: Result<Client, RedisError>) -> (made: Result<
        PoolParts,
        RedisError,
    >)
        ensures
            match opened {
                Ok(client) => made matches Ok(parts) && parts.client == client
                    && self.pool_config_in_effect(parts.config),
                Err(error) => made == Err::<PoolParts, RedisError>(error),
            },
    {
        match opened {
            Ok(client) => Ok(PoolParts { client, config: self.get_pool_config() }),
            Err(error) => Err(error),
        }
    }

    /// Creates the parts of a pool from this configuration: a client for the
    /// URL in effect and the pool settings in effect. Nothing is connected.
    ///
    /// It fails exactly where the `redis` crate does not accept the URL, with
    /// that crate's error, and so never on a configuration without a URL.
    pub fn create_pool(&self) -> (made: Result<PoolParts, RedisError>)
        ensures
            made is Ok <==> redis_url_accepted(self.effective_url()),
            self.url is None ==> made is Ok,
            made matches Ok(parts) ==> self.pool_config_in_effect(parts.config),
    {
        let url = self.get_url();
        let opened = open_client(url);
        self.pool_parts_from(opened)
    }
}

impl Default for Config {
    /// A configuration with neither field set.
    fn default() -> (config: Self)
        ensures
            config.url is None,
            config.pool is None,
    {
        Self { url: None, pool: None }
    }
}

/// A configuration with neither field set, as `Config::default()` returns it,
/// connects to `redis://127.0.0.1/`, and its pool settings are whatever stands
/// in for unset ones: any default of the settings type, and nothing else, can
/// be in effect.
pub proof fn lemma_unset_config_takes_defaults(config: Config, fallback: PoolConfig)
    requires
        config.url is None,
        config.pool is None,
    ensures
        config.effective_url() == "redis://127.0.0.1/"@,
        config.effective_pool_config(fallback) == fallback,
        config.pool_config_in_effect(fallback) <==> no_timeouts(fallback),
{
}

/// A configured URL is the URL in effect, character for character, whatever
/// the string holds.
pub proof fn lemma_configured_url_is_kept(config: Config, url: String)
    requires
        config.url == Some(url),
    ensures
        config.effective_url() == url@,
{
}

/// Configured pool settings are the ones in effect, and no others are,
/// whatever would stand in for unset ones.
pub proof fn lemma_configured_pool_config_is_kept(
    config: Config,
    configured: PoolConfig,
    fallback: PoolConfig,
    other: PoolConfig,
)
    requires
        config.pool == Some(configured),
    ensures
        config.effective_pool_config(fallback) == configured,
        config.pool_config_in_effect(other) <==> other == configured,
{
}

/// The pool settings that can be in effect are those that
/// `effective_pool_config` gives for a fallback without timeouts: what
/// `get_pool_config` returns is what `pool_config_or` returns for some default
/// of the settings type.
pub proof fn lemma_in_effect_is_effective_for_a_default(config: Config, settings: PoolConfig)
    ensures
        config.pool_config_in_effect(settings) <==> exists|fallback: PoolConfig|
            no_timeouts(fallback) && settings == #[trigger] config.effective_pool_config(fallback),
{
    if config.pool_config_in_effect(settings) {
        let untimed = Timeouts { wait: None, create: None, recycle: None };
        let fallback = match config.pool {
            Some(_) => PoolConfig { max_size: 0, timeouts: untimed },
            None => settings,
        };
        assert(no_timeouts(fallback) && settings == config.effective_pool_config(fallback));
    }
}

} // verus!
