use statusbar_bridge::in_process;
use statusbar_bridge::models::PingRequest;

#[test]
fn ping_echoes_value() {
    let bridge = in_process::init();
    let response = bridge
        .ping(PingRequest { value: Some("hello".to_string()) })
        .expect("in-process ping never fails");
    assert_eq!(response.value, Some("hello".to_string()));
}

#[test]
fn ping_echoes_absent_value() {
    let bridge = in_process::init();
    let response = bridge
        .ping(PingRequest { value: None })
        .expect("in-process ping never fails");
    assert_eq!(response.value, None);
}

#[test]
fn ping_echoes_empty_string() {
    let bridge = in_process::init();
    let response = bridge
        .ping(PingRequest { value: Some(String::new()) })
        .expect("in-process ping never fails");
    assert_eq!(response.value, Some(String::new()));
}

#[test]
fn set_dark_confirms() {
    let bridge = in_process::init();
    let response = bridge.set_dark().expect("in-process set_dark never fails");
    assert_eq!(response.result, Some("dark ok".to_string()));
}

#[test]
fn set_light_confirms() {
    let bridge = in_process::init();
    let response = bridge.set_light().expect("in-process set_light never fails");
    assert_eq!(response.result, Some("light ok".to_string()));
}
