//! The handle to the store: a client made from a checked address, kept
//! only once the store was reached through it.

use vstd::prelude::*;
use crate::redis_api::open_client;
use crate::settings::STORE_ADDRESS;

verus! {

/// The store could not be reached: its address was refused, or the first
/// attempt to connect to it failed.
#[derive(Debug)]
pub struct ConnectionError {
    /// The error that `redis` gave.
    pub cause: redis::RedisError,
}

/// What the two steps of connecting come to. `opened` is the result of
/// checking the address, `reached` that of the first attempt to connect
/// through the client so made. The handle is that client if both went well.
/// Otherwise it is the error of the step that failed, of the address first;
/// where the address was refused, `reached` does not count.
pub open spec fn handle_of(
    opened: Result<redis::Client, redis::RedisError>,
    reached: Result<(), redis::RedisError>,
) -> Result<redis::Client, ConnectionError> {
    match opened {
        Err(cause) => Err(ConnectionError { cause }),
        Ok(client) => match reached {
            Ok(_) => Ok(client),
            Err(cause) => Err(ConnectionError { cause }),
        },
    }
}

/// Checks `address` and makes a client for it. No connection is opened:
/// whether the store is there shows only at the first attempt to connect.
/// The fixed address passes. Which other addresses pass is for `redis` to
/// say.
pub fn check_address(address: &str) -> (opened: Result<redis::Client, redis::RedisError>)
    ensures
        address@ == STORE_ADDRESS@ ==> opened is Ok,
{
    open_client(address)
}

/// Makes the handle to the store from the results of the two steps of
/// connecting: `opened`, of checking the address, and `reached`, of the
/// first attempt to connect through the client so made. The handle is owed
/// exactly when the address passed and the store was reached; otherwise the
/// error names the cause, so that the caller can report it and end before
/// any work is done.
pub fn establish_connection(
    opened: Result<redis::Client, redis::RedisError>,
    reached: Result<(), redis::RedisError>,
) -> (handle: Result<redis::Client, ConnectionError>)
    ensures
        handle == handle_of(opened, reached),
        handle is Ok <==> opened is Ok && reached is Ok,
{
    match opened {
        Err(cause) => Err(ConnectionError { cause }),
        Ok(client) => match reached {
            Ok(_) => Ok(client),
            Err(cause) => Err(ConnectionError { cause }),
        },
    }
}

} // verus!
