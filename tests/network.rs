use ghoststream_supervisor::network::{
    is_access_point_address, is_on_access_point_network, route_probe_bind_address,
    route_probe_target, NetworkError,
};

#[test]
fn access_point_addresses() {
    assert!(is_access_point_address("192.168.4.1"));
    assert!(is_access_point_address("192.168.4.254"));
    assert!(!is_access_point_address("192.168.40.1"));
    assert!(!is_access_point_address("192.168.1.4"));
    assert!(!is_access_point_address("10.0.0.2"));
    assert!(!is_access_point_address("192.168.4"));
    assert!(!is_access_point_address(""));
    assert!(!is_access_point_address("fe80::1"));
}

#[test]
fn no_interface_is_not_access_point() {
    let lookup: Result<String, NetworkError> =
        Err(NetworkError::NoRoute("Network is unreachable".to_string()));
    assert!(!is_on_access_point_network(&lookup));
    assert!(is_on_access_point_network(&Ok("192.168.4.7".to_string())));
    assert!(!is_on_access_point_network(&Ok("172.16.0.3".to_string())));
}

#[test]
fn network_error_message() {
    assert_eq!(NetworkError::NoRoute("no route".to_string()).message(), "no route");
}

#[test]
fn route_probe_addresses() {
    assert_eq!(route_probe_bind_address(), "0.0.0.0:0");
    assert_eq!(route_probe_target(), "8.8.8.8:80");
}
