use humanlayer_wui::daemon_client::error::Error;

#[test]
fn every_client_error_has_its_words() {
    assert_eq!(Error::Connection("lost".to_string()).message(), "Connection error: lost");
    assert_eq!(Error::Socket("reset".to_string()).message(), "Socket error: reset");
    assert_eq!(
        Error::Serialization("EOF while parsing".to_string()).message(),
        "JSON serialization error: EOF while parsing"
    );
    assert_eq!(Error::Protocol("bad".to_string()).message(), "Protocol error: bad");
    assert_eq!(Error::Timeout.message(), "Timeout error");
    assert_eq!(Error::InvalidResponse("odd".to_string()).message(), "Invalid response: odd");
    assert_eq!(Error::Validation("no".to_string()).message(), "Validation error: no");
    assert_eq!(Error::Subscription("gone".to_string()).message(), "Subscription error: gone");
    assert_eq!(Error::Session("stuck".to_string()).message(), "Session error: stuck");
    assert_eq!(Error::Approval("no".to_string()).message(), "Approval error: no");
}

#[test]
fn rpc_errors_show_code_and_message() {
    let error = Error::Rpc { code: -32601, message: "Method not found".to_string() };
    assert_eq!(error.message(), "RPC error: -32601 - Method not found");
    let error = Error::Rpc { code: 0, message: String::new() };
    assert_eq!(error.message(), "RPC error: 0 - ");
    let error = Error::Rpc { code: i32::MAX, message: "m".to_string() };
    assert_eq!(error.message(), "RPC error: 2147483647 - m");
    let error = Error::Rpc { code: i32::MIN, message: "m".to_string() };
    assert_eq!(error.message(), "RPC error: -2147483648 - m");
}

#[test]
fn empty_details_leave_the_prefix() {
    assert_eq!(Error::Connection(String::new()).message(), "Connection error: ");
}
