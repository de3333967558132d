//! The checks the pairing service makes on its requests before it touches
//! the pairing store, and the answers it gives when they fail.

use std::time::Duration;
use vstd::prelude::*;
use crate::click::{duration_new, duration_new_spec, WireDuration};
use crate::text::{owned, text_eq};

verus! {

/// The status codes the pairing service answers with.
#[derive(Clone, Copy, Debug, PartialEq, Eq)]
pub enum RpcCode {
    InvalidArgument,
    Unauthenticated,
    NotFound,
    FailedPrecondition,
    Unimplemented,
    Internal,
}

/// A refused request: its status code and message.
#[derive(Clone, Debug, PartialEq, Eq)]
pub struct RpcStatus {
    pub code: RpcCode,
    pub message: String,
}

pub open spec fn refused(status: RpcStatus, code: RpcCode, message: Seq<char>) -> bool {
    status.code == code && status.message@ == message
}

/// Whether a protobuf duration is one a token may live for.
pub open spec fn valid_lifetime(value: WireDuration) -> bool {
    value.seconds >= 0 && value.nanos >= 0 && value.nanos < 1_000_000_000
}

/// A token lifetime in protobuf form, as a duration; negative or
/// denormalized durations are refused.
pub fn proto_duration(value: &WireDuration) -> (r: Result<Duration, RpcStatus>)
    ensures
        valid_lifetime(*value) ==> r == Ok::<Duration, RpcStatus>(duration_new_spec(value.seconds as u64, value.nanos as u32)),
        !valid_lifetime(*value) ==> (r matches Err(s) && refused(
            s,
            RpcCode::InvalidArgument,
            "ttl must be a non-negative protobuf Duration"@,
        )),
{
    if value.seconds < 0 || value.nanos < 0 || value.nanos >= 1_000_000_000 {
        return Err(RpcStatus { code: RpcCode::InvalidArgument, message: owned("ttl must be a non-negative protobuf Duration") });
    }
    Ok(duration_new(value.seconds as u64, value.nanos as u32))
}

/// The lifetime a token request asks for: none, or its validated duration.
pub fn token_lifetime(ttl: &Option<WireDuration>) -> (r: Result<Option<Duration>, RpcStatus>)
    ensures
        match *ttl {
            None => r == Ok::<Option<Duration>, RpcStatus>(None),
            Some(value) => if valid_lifetime(value) {
                r == Ok::<Option<Duration>, RpcStatus>(Some(duration_new_spec(value.seconds as u64, value.nanos as u32)))
            } else {
                r matches Err(s) && refused(s, RpcCode::InvalidArgument, "ttl must be a non-negative protobuf Duration"@)
            },
        },
{
    match ttl {
        None => Ok(None),
        Some(value) => match proto_duration(value) {
            Ok(d) => Ok(Some(d)),
            Err(e) => Err(e),
        },
    }
}

/// A bootstrap enrollment names both its token and the enrolling Device.
pub fn check_pair_device_request(token: &str, device_id: &str) -> (r: Result<(), RpcStatus>)
    ensures
        (token@.len() > 0 && device_id@.len() > 0) ==> r is Ok,
        !(token@.len() > 0 && device_id@.len() > 0) ==> (r matches Err(s) && refused(
            s,
            RpcCode::InvalidArgument,
            "token and device_id are required"@,
        )),
{
    if text_eq(token, "") || text_eq(device_id, "") {
        proof {
            reveal_strlit("");
        }
        return Err(RpcStatus { code: RpcCode::InvalidArgument, message: owned("token and device_id are required") });
    }
    proof {
        reveal_strlit("");
        if token@.len() == 0 {
            assert(token@ =~= ""@);
        }
        if device_id@.len() == 0 {
            assert(device_id@ =~= ""@);
        }
    }
    Ok(())
}

/// The administration requests name the Device they act on: `field` names
/// the request field that must not be empty.
pub fn check_required(value: &str, field: &str) -> (r: Result<(), RpcStatus>)
    ensures
        value@.len() > 0 ==> r is Ok,
        value@.len() == 0 ==> (r matches Err(s) && refused(s, RpcCode::InvalidArgument, field@ + " is required"@)),
{
    proof {
        reveal_strlit("");
    }
    if text_eq(value, "") {
        let mut m = owned(field);
        m.append(" is required");
        return Err(RpcStatus { code: RpcCode::InvalidArgument, message: m });
    }
    proof {
        if value@.len() == 0 {
            assert(value@ =~= ""@);
        }
    }
    Ok(())
}

/// The answer when this daemon has no pairing store.
pub fn pairing_not_configured() -> (s: RpcStatus)
    ensures
        refused(s, RpcCode::Unimplemented, "pairing is not configured"@),
{
    RpcStatus { code: RpcCode::Unimplemented, message: owned("pairing is not configured") }
}

/// A protobuf timestamp: signed seconds and nanoseconds since the epoch.
#[derive(Clone, Copy, Debug, PartialEq, Eq)]
pub struct WireTimestamp {
    pub seconds: i64,
    pub nanos: i32,
}

/// The wire timestamp of a token's deadline, given as whole seconds and
/// the nanoseconds past them since the epoch (which a duration keeps below
/// one second); seconds beyond `i64::MAX` saturate.
pub fn deadline_timestamp(secs: u64, subsec_nanos: u32) -> (t: WireTimestamp)
    requires
        subsec_nanos <= i32::MAX,
    ensures
        t.seconds == (if secs <= i64::MAX as u64 { secs as int } else { i64::MAX as int }),
        t.nanos == subsec_nanos,
{
    let seconds: i64 = if secs <= i64::MAX as u64 { secs as i64 } else { i64::MAX };
    WireTimestamp { seconds, nanos: subsec_nanos as i32 }
}

} // verus!
