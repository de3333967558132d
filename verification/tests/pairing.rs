use std::time::Duration;

use auv_cli::click::WireDuration;
use auv_cli::pairing::{
    check_pair_device_request, check_required, deadline_timestamp, pairing_not_configured, proto_duration, token_lifetime,
    RpcCode, RpcStatus, WireTimestamp,
};

fn invalid(message: &str) -> RpcStatus {
    RpcStatus { code: RpcCode::InvalidArgument, message: message.to_string() }
}

#[test]
fn token_lifetimes_must_be_non_negative_and_normalized() {
    assert_eq!(proto_duration(&WireDuration { seconds: 90, nanos: 5 }), Ok(Duration::new(90, 5)));
    for bad in [WireDuration { seconds: -1, nanos: 0 }, WireDuration { seconds: 0, nanos: -1 }, WireDuration { seconds: 0, nanos: 1_000_000_000 }] {
        assert_eq!(proto_duration(&bad), Err(invalid("ttl must be a non-negative protobuf Duration")));
    }
    assert_eq!(token_lifetime(&None), Ok(None));
    assert_eq!(token_lifetime(&Some(WireDuration { seconds: 3, nanos: 0 })), Ok(Some(Duration::from_secs(3))));
}

#[test]
fn requests_must_name_what_they_act_on() {
    assert_eq!(check_pair_device_request("token", "device"), Ok(()));
    assert_eq!(check_pair_device_request("", "device"), Err(invalid("token and device_id are required")));
    assert_eq!(check_pair_device_request("token", ""), Err(invalid("token and device_id are required")));
    assert_eq!(check_required("device_a", "device_selector"), Ok(()));
    assert_eq!(check_required("", "device_selector"), Err(invalid("device_selector is required")));
    assert_eq!(pairing_not_configured().code, RpcCode::Unimplemented);
    assert_eq!(pairing_not_configured().message, "pairing is not configured");
}

#[test]
fn deadlines_saturate_on_the_wire() {
    assert_eq!(deadline_timestamp(12, 34), WireTimestamp { seconds: 12, nanos: 34 });
    assert_eq!(deadline_timestamp(u64::MAX, 0), WireTimestamp { seconds: i64::MAX, nanos: 0 });
}
