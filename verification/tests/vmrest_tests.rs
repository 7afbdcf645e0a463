use vmctl::vm::VmState;
use vmctl::vmrest::{
    content_length, extract_json_value, header_end, http_request, http_status_error,
    http_status_ok, parse_power_state, parse_vm_list, power_state_path, vmrest_power_to_state,
};

#[test]
fn json_values() {
    assert_eq!(extract_json_value("{\"id\":\"ABC\",\"n\": 5}", "id"), Ok("ABC".to_string()));
    assert_eq!(extract_json_value("{\"id\":\"ABC\",\"n\": 5}", "n"), Ok("5".to_string()));
    assert_eq!(extract_json_value("{\"a\": true }", "a"), Ok("true".to_string()));
    assert_eq!(extract_json_value("{\"s\":\"x\\\"y\"}", "s"), Ok("x\\\"y".to_string()));
    assert_eq!(extract_json_value("{\"id\" 5}", "id"), Err("JSON 格式错误".to_string()));
    assert_eq!(extract_json_value("{}", "id"), Err("未找到 key: id".to_string()));
}

#[test]
fn vm_list() {
    let json = " [{\"id\":\"1\",\"path\":\"/vms/A.vmwarevm/A.vmx\"},{\"id\":\"\",\"path\":\"/x\"},{\"id\":\"2\",\"path\":\"/vms/B.vmwarevm/B.vmx\"}]";
    let vms = parse_vm_list(json).unwrap();
    assert_eq!(vms.len(), 2);
    assert_eq!(vms[0].id, "1");
    assert_eq!(vms[0].name, "A");
    assert_eq!(vms[0].path, "/vms/A.vmwarevm/A.vmx");
    assert_eq!(vms[0].power_state, None);
    assert_eq!(vms[1].name, "B");
    assert_eq!(parse_vm_list("{}").err(), Some("无效的 JSON 数组".to_string()));
    assert_eq!(parse_vm_list("[]").unwrap().len(), 0);
}

#[test]
fn power_states() {
    assert_eq!(vmrest_power_to_state("poweredOn"), VmState::Running);
    assert_eq!(vmrest_power_to_state("poweredOff"), VmState::Stopped);
    assert_eq!(vmrest_power_to_state("paused"), VmState::Paused);
    assert_eq!(vmrest_power_to_state("suspended"), VmState::Paused);
    assert_eq!(vmrest_power_to_state("other"), VmState::Unknown);
    assert_eq!(power_state_path("42"), "/api/vms/42/power");
    assert_eq!(parse_power_state("{\"power_state\":\"poweredOn\"}"), Ok("poweredOn".to_string()));
}

#[test]
fn http_exchange() {
    assert_eq!(
        http_request("GET", "/api/vms"),
        "GET /api/vms HTTP/1.1\r\nHost: localhost\r\nAccept: application/json\r\nConnection: close\r\n\r\n"
    );
    assert!(header_end("\r\n"));
    assert!(!header_end("Server: x\r\n"));
    assert_eq!(content_length("Content-Length: 42\r\n"), Some(42));
    assert_eq!(content_length("content-length:abc\r\n"), Some(0));
    assert_eq!(content_length("Content-Type: json\r\n"), None);
    assert!(http_status_ok("HTTP/1.1 200 OK\r\nA: b\r\n"));
    assert!(http_status_ok("HTTP/1.0 204 No Content\r\n"));
    assert!(!http_status_ok("HTTP/1.1 404 Not Found\r\n"));
    assert_eq!(http_status_error("HTTP/1.1 404 Not Found\r\nA: b\r\n"), "HTTP 错误: HTTP/1.1 404 Not Found");
    assert_eq!(http_status_error(""), "HTTP 错误: ");
}
