//! The items of the `redis` and `deadpool` crates that the configuration
//! relies on. Nothing here is proved: each contract restates what the
//! crate's source shows.

use deadpool::managed::PoolConfig;
use redis::{Client, RedisError};
use vstd::prelude::*;

verus! {

/// The pool settings of `deadpool`: a maximum size and the timeouts. All of
/// its fields are public, and this crate reads them as they are declared.
#[verifier::external_type_specification]
pub struct ExPoolConfig(deadpool::managed::PoolConfig);

/// The timeouts of `deadpool`'s pool settings: three optional durations, all
/// public.
#[verifier::external_type_specification]
pub struct ExTimeouts(deadpool::managed::Timeouts);

/// The client of the `redis` crate. Nothing of its contents is visible here.
#[verifier::external_type_specification]
#[verifier::external_body]
pub struct ExClient(redis::Client);

/// The error type of the `redis` crate. Nothing of its contents is visible
/// here.
#[verifier::external_type_specification]
#[verifier::external_body]
pub struct ExRedisError(redis::RedisError);

/// Whether `redis::Client::open` accepts the URL `url`, which it decides from
/// the text alone: it parses the URL, looks at the scheme, the host, the
/// database number and the password, and connects to nothing. For the schemes
/// `unix` and `redis+unix` this is the verdict of the crate as built for a
/// Unix target; built for another target it refuses them all.
pub uninterp spec fn redis_url_accepted(url: Seq<char>) -> bool;

/// Pool settings that set no timeout.
pub open spec fn no_timeouts(config: PoolConfig) -> bool {
    &&& config.timeouts.wait is None
    &&& config.timeouts.create is None
    &&& config.timeouts.recycle is None
}

/// `Clone` for `deadpool`'s pool settings is derived, over a `usize` and
/// optional `Duration`s: the copy equals the original field by field.
pub assume_specification[ <PoolConfig as Clone>::clone ](config: &PoolConfig) -> (copy: PoolConfig)
    ensures
        copy == *config,
;

/// `Default` for `deadpool`'s pool settings takes the maximum size from the
/// number of physical cores of the machine, of which nothing is claimed, and
/// sets no timeout.
pub assume_specification[ <PoolConfig as Default>::default ]() -> (config: PoolConfig)
    ensures
        no_timeouts(config),
;

/// Calls `redis::Client::open` on a URL. It returns a client exactly for the
/// URLs that the `redis` crate accepts, and an error for all others. The URL
/// `redis://127.0.0.1/` is among the accepted: it is the one that the crate's
/// documentation of `Client` opens.
#[verifier::external_body]
pub(crate) fn open_client(url: &str) -> (opened: Result<Client, RedisError>)
    ensures
        opened is Ok <==> redis_url_accepted(url@),
        url@ == "redis://127.0.0.1/"@ ==> opened is Ok,
{
    Client::open(url)
}

} // verus!
