use playwright::error::Error;
use playwright::route::Route;

#[test]
fn error_messages() {
    assert_eq!(Error::Msg("boom".to_string()).message(), "boom");
    assert_eq!(Error::Blank.message(), "Not be able to deserialize from blank");
    assert_eq!(Error::TypeMismatch.message(), "Incorrect type");
    assert_eq!(Error::NotSupported("deserialize_char").message(), "deserialize_char isn't supported");
}

#[test]
fn json_errors_convert_into_serde_errors() {
    let json_error = serde_json::from_str::<serde_json::Value>("{").unwrap_err();
    let text = json_error.to_string();
    let e: Error = Error::from(json_error);
    assert!(matches!(e, Error::Serde(_)));
    assert_eq!(e.message(), text);
}

#[test]
fn route_holds_its_channel() {
    let mut route = Route::new(String::from("channel-1"));
    assert_eq!(route.channel(), "channel-1");
    route.channel_mut().push_str("-b");
    assert_eq!(route.channel(), "channel-1-b");
}
