//! The user's access token, kept in the local key-value store.

use vstd::prelude::*;

use redis::Commands;

verus! {

/// A client of the key-value store.
#[verifier::external_type_specification]
#[verifier::external_body]
pub struct ExClient(redis::Client);

/// A connection to the key-value store.
#[verifier::external_type_specification]
#[verifier::external_body]
pub struct ExConnection(redis::Connection);

/// A failure reported by the key-value store or the connection to it.
#[verifier::external_type_specification]
#[verifier::external_body]
pub struct ExRedisError(redis::RedisError);

/// Where the key-value store listens.
pub const REDIS_URL: &'static str = "redis://127.0.0.1/";

/// The key the access token is kept under.
pub const ACCESS_TOKEN_KEY: &'static str = "access_token";

/// Calls `redis::Client::open`. Nothing is claimed of the outcome.
#[verifier::external_body]
fn open_client(url: &str) -> Result<redis::Client, redis::RedisError> {
    redis::Client::open(url)
}

/// Calls `redis::Client::get_connection`, which connects over the network.
/// Nothing is claimed of the outcome.
#[verifier::external_body]
fn connect(client: &redis::Client) -> Result<redis::Connection, redis::RedisError> {
    client.get_connection()
}

/// Calls `redis::Commands::get` for a text value. What the store answers is
/// not claimed.
#[verifier::external_body]
fn get_text(connection: &mut redis::Connection, key: &str) -> Result<String, redis::RedisError> {
    connection.get(key)
}

/// Calls `redis::Commands::exists`. What the store answers is not claimed.
#[verifier::external_body]
fn key_exists(connection: &mut redis::Connection, key: &str) -> Result<bool, redis::RedisError> {
    connection.exists(key)
}

/// Calls `redis::Commands::set_ex` (the store's SETEX). What the store does is
/// not claimed.
#[verifier::external_body]
fn set_with_expiry(
    connection: &mut redis::Connection,
    key: &str,
    value: &str,
    seconds: usize,
) -> Result<(), redis::RedisError> {
    connection.set_ex(key, value, seconds)
}

/// A connection to the local key-value store. Whether it opens is decided by
/// the network and the server, so no clause states the outcome.
pub fn redis_connection() -> Result<redis::Connection, redis::RedisError> {
    let client = open_client(REDIS_URL)?;
    connect(&client)
}

/// The access token the store keeps under `ACCESS_TOKEN_KEY`. What the store
/// answers is the server's to decide; no clause states it.
pub fn access_token() -> Result<String, redis::RedisError> {
    let mut connection = redis_connection()?;
    get_text(&mut connection, ACCESS_TOKEN_KEY)
}

/// Whether the store keeps a value under `ACCESS_TOKEN_KEY`. What the store
/// answers is the server's to decide; no clause states it.
pub fn has_access_token() -> Result<bool, redis::RedisError> {
    let mut connection = redis_connection()?;
    key_exists(&mut connection, ACCESS_TOKEN_KEY)
}

/// The number of seconds a token lives, from the lifetime the token service
/// reports; a negative lifetime wraps around as the `as` conversion does.
pub fn token_lifetime(expires_in: i32) -> (res: usize)
    ensures
        res == expires_in as usize,
{
    expires_in as usize
}

/// Keeps an access token under `ACCESS_TOKEN_KEY` for `token_lifetime(expires_in)`
/// seconds. Whether the store does so is the server's to decide; no clause
/// states it.
pub fn store_access_token(token: &str, expires_in: i32) -> Result<(), redis::RedisError> {
    let mut connection = redis_connection()?;
    set_with_expiry(&mut connection, ACCESS_TOKEN_KEY, token, token_lifetime(expires_in))
}

} // verus!
