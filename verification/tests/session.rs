use spotifyd_ctl::decode::PayloadError;
use spotifyd_ctl::model::Device;
use spotifyd_ctl::request::{devices_request, token_request, FetchError, Reply};
use spotifyd_ctl::session::{begin, proceed, Outcome, Pending, Step};

const TOKEN: &[u8] = br#"{"access_token":"T","token_type":"Bearer","expires_in":3600}"#;

const DEVICES: &[u8] = br#"{"devices":[{"id":"d1","is_active":true,"is_private_session":false,"is_restricted":false,"name":"Kitchen","type":"Speaker","volume_percent":50}]}"#;

fn answered(status: u16, body: &[u8]) -> Reply {
    Reply::Answered { status, body: body.to_vec() }
}

#[test]
fn run_from_credentials_to_one_listed_device() {
    let first = begin("id", "secret");
    assert_eq!(first, Step::Ask(Pending::Token, token_request("id", "secret")));

    let second = proceed(Pending::Token, answered(200, TOKEN));
    assert_eq!(second, Step::Ask(Pending::Devices, devices_request("T")));

    let third = proceed(Pending::Devices, answered(200, DEVICES));
    let list = match third {
        Step::Done(Outcome::Listed(list)) => list,
        other => panic!("the run did not end with a list: {other:?}"),
    };
    assert_eq!(
        list.devices,
        vec![Device {
            id: "d1".to_string(),
            is_active: true,
            is_private_session: false,
            is_restricted: false,
            name: "Kitchen".to_string(),
            kind: "Speaker".to_string(),
            volume_percent: 50,
        }]
    );

    let shown = format!("{list:#?}");
    assert_eq!(shown.matches("Device {").count(), 1);
    assert!(shown.contains("id: \"d1\""));
    assert!(shown.contains("name: \"Kitchen\""));
    assert!(shown.contains("kind: \"Speaker\""));
    assert!(shown.contains("volume_percent: 50"));
}

#[test]
fn failed_token_request_ends_the_run() {
    assert_eq!(
        proceed(Pending::Token, Reply::Failed("no route".to_string())),
        Step::Done(Outcome::Failed(FetchError::Transport("no route".to_string())))
    );
    assert_eq!(
        proceed(Pending::Token, answered(400, b"{}")),
        Step::Done(Outcome::Failed(FetchError::Status(400)))
    );
    assert_eq!(
        proceed(Pending::Token, answered(200, br#"{"token_type":"Bearer","expires_in":3600}"#)),
        Step::Done(Outcome::Failed(FetchError::Payload(PayloadError::WrongShape)))
    );
}

#[test]
fn failed_devices_request_ends_the_run() {
    assert_eq!(
        proceed(Pending::Devices, Reply::Failed("reset".to_string())),
        Step::Done(Outcome::Failed(FetchError::Transport("reset".to_string())))
    );
    assert_eq!(
        proceed(Pending::Devices, answered(401, DEVICES)),
        Step::Done(Outcome::Failed(FetchError::Status(401)))
    );
    assert_eq!(
        proceed(Pending::Devices, answered(200, b"[")),
        Step::Done(Outcome::Failed(FetchError::Payload(PayloadError::NotJson)))
    );
}

#[test]
fn granted_token_is_the_bearer_of_the_devices_request() {
    let body = br#"{"access_token":"BQD x/y+z=","token_type":"Bearer","expires_in":1}"#;
    match proceed(Pending::Token, answered(200, body)) {
        Step::Ask(Pending::Devices, request) => {
            assert_eq!(request.bearer, Some("BQD x/y+z=".to_string()));
        }
        other => panic!("no devices request: {other:?}"),
    }
}

#[test]
fn no_devices_ends_the_run_with_an_empty_list() {
    match proceed(Pending::Devices, answered(200, br#"{"devices": []}"#)) {
        Step::Done(Outcome::Listed(list)) => assert!(list.devices.is_empty()),
        other => panic!("the run did not end with a list: {other:?}"),
    }
}
