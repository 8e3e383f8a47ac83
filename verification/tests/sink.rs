use minion_report::command::{decimal_text, salt_command};
use minion_report::host::{Host, HostStatus};
use minion_report::json::decode;
use minion_report::sink::{artifact_file_name, delivery_of, failure_message, Delivery};

#[test]
fn failure_line_names_host_and_status() {
    assert_eq!(
        failure_message("db1", HostStatus::DidNotRespond),
        "host db1 failed with status DidNotRespond"
    );
    assert_eq!(
        failure_message("", HostStatus::RetValueObjectIsEmpty),
        "host  failed with status RetValueObjectIsEmpty"
    );
}

#[test]
fn status_names() {
    assert_eq!(HostStatus::Uninitialized.name(), "Uninitialized");
    assert_eq!(HostStatus::Success.name(), "Success");
    assert_eq!(HostStatus::NoReturnCode.name(), "NoReturnCode");
    assert_eq!(HostStatus::ReturnCodeNotNumber.name(), "ReturnCodeNotNumber");
    assert_eq!(HostStatus::RetValueIsNone.name(), "RetValueIsNone");
    assert_eq!(HostStatus::RetCodeWasNotNull.name(), "RetCodeWasNotNull");
    assert_eq!(HostStatus::RetValueNotObject.name(), "RetValueNotObject");
    assert_eq!(HostStatus::RetValueObjectIsEmpty.name(), "RetValueObjectIsEmpty");
    assert_eq!(HostStatus::DeletedMinion.name(), "DeletedMinion");
    assert_eq!(HostStatus::DidNotRespond.name(), "DidNotRespond");
    assert_eq!(format!("{:?}", HostStatus::DeletedMinion), HostStatus::DeletedMinion.name());
}

#[test]
fn artifact_is_named_after_the_host() {
    assert_eq!(artifact_file_name("web1"), "web1.json");
    assert_eq!(artifact_file_name("a.b.example"), "a.b.example.json");
}

#[test]
fn delivery_follows_the_status() {
    let good =
        Host { hostname: "web1".to_string(), data: decode("{\"a\": 1}"), status: HostStatus::Success };
    assert_eq!(delivery_of(&good), Delivery::Artifact { file_name: "web1.json".to_string() });
    let bad = Host::failed("web2".to_string(), HostStatus::NoReturnCode);
    assert_eq!(
        delivery_of(&bad),
        Delivery::FailureLine { line: "host web2 failed with status NoReturnCode".to_string() }
    );
    let unset = Host::default();
    assert_eq!(unset.hostname, "");
    assert_eq!(unset.data, None);
    assert_eq!(unset.status, HostStatus::Uninitialized);
    assert!(!unset.is_success());
}

#[test]
fn decimal_numbers() {
    assert_eq!(decimal_text(0), "0");
    assert_eq!(decimal_text(7), "7");
    assert_eq!(decimal_text(10), "10");
    assert_eq!(decimal_text(1234567890), "1234567890");
    assert_eq!(decimal_text(usize::MAX), usize::MAX.to_string());
}

#[test]
fn query_command_line() {
    assert_eq!(
        salt_command("web*", false, 30, 10),
        "salt  'web*' -t 30 -b 10 --out json --static --state-verbose=false grains.items"
    );
    assert_eq!(
        salt_command("G@os:Linux and web*", true, 5, 100),
        "salt -C 'G@os:Linux and web*' -t 5 -b 100 --out json --static --state-verbose=false \
         grains.items"
    );
}
