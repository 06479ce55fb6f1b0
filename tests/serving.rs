use wifi_gate::gate::Gate;
use wifi_gate::handler::{advance, begin, outcome, Command, Reply, Request, Step, PROBE_TIMEOUT_SECS};
use wifi_gate::response;
use wifi_gate::response::{decimal, waited_message, Failure, Outcome, Payload, Response};

fn pairs(items: &[(&str, bool)]) -> Vec<(String, bool)> {
    items.iter().map(|(s, b)| (s.to_string(), *b)).collect()
}

fn answered(step: Step) -> Response {
    match step {
        Step::Respond(o) => response::format(o),
        Step::Run(..) => panic!("request still running"),
    }
}

fn connect_request(ssid: &str, password: &str) -> Request {
    Request::Connect { ssid: ssid.to_string(), password: password.to_string() }
}

#[test]
fn gate_admits_one_and_turns_the_rest_away() {
    let mut gate = Gate::new();
    assert!(!gate.is_held());
    let first = gate.try_enter();
    assert!(first.is_some());
    for _ in 0..9 {
        assert!(gate.try_enter().is_none());
    }
    assert!(gate.is_held());
    assert_eq!(gate.admitted(), 1);
    gate.release(first.unwrap());
    assert!(!gate.is_held());
    assert_eq!(gate.admitted(), 1);
    let again = gate.try_enter().unwrap();
    assert_eq!(again.number(), 2);
    assert_eq!(gate.admitted(), 2);
}

#[test]
fn simultaneous_delays_one_waits_one_is_busy() {
    let mut gate = Gate::new();
    let first = begin(&mut gate, Request::Delay(5));
    let second = begin(&mut gate, Request::Delay(5));
    let busy = answered(second);
    assert_eq!(busy.message, "busy");
    assert!(busy.data.is_empty());
    match first {
        Step::Run(session, Command::Wait(5)) => {
            let done = answered(advance(&mut gate, session, Reply::Finished));
            assert_eq!(done.message, "waited 5 seconds");
            assert_eq!(done.data, pairs(&[("waited 5 seconds", true)]));
        }
        _ => panic!("the first delay should run"),
    }
    assert!(!gate.is_held());
}

#[test]
fn connect_after_radio_off_fails_without_joining() {
    let mut gate = Gate::new();
    let off = match begin(&mut gate, Request::RadioOff) {
        Step::Run(session, Command::RadioOff) => advance(&mut gate, session, Reply::Finished),
        _ => panic!("radio off should run"),
    };
    assert_eq!(answered(off).message, "off");
    match begin(&mut gate, connect_request("any", "any")) {
        Step::Run(session, Command::RadioStatus) => {
            match advance(&mut gate, session, Reply::Flag(false)) {
                Step::Respond(o) => {
                    assert!(matches!(o, Outcome::DomainFailure(Failure::RadioDisabled)));
                    let r = response::format(o);
                    assert_eq!(r.message, "error");
                    assert_eq!(r.data, pairs(&[("error", false)]));
                }
                Step::Run(..) => panic!("no join may be attempted"),
            }
        }
        _ => panic!("connect should first ask for the radio state"),
    }
    assert!(!gate.is_held());
}

#[test]
fn connect_with_radio_on_joins() {
    let mut gate = Gate::new();
    let session = match begin(&mut gate, connect_request("Cafe", "secret")) {
        Step::Run(session, Command::RadioStatus) => session,
        _ => panic!("connect should first ask for the radio state"),
    };
    let session = match advance(&mut gate, session, Reply::Flag(true)) {
        Step::Run(session, Command::Join { ssid, password }) => {
            assert_eq!(ssid, "Cafe");
            assert_eq!(password, "secret");
            session
        }
        _ => panic!("connect should join once the radio is on"),
    };
    assert!(gate.is_held());
    let r = answered(advance(&mut gate, session, Reply::Flag(true)));
    assert_eq!(r.message, "connected");
    assert_eq!(r.data, pairs(&[("connected", true)]));
    assert!(!gate.is_held());
}

#[test]
fn connect_that_did_not_join_is_reported_as_status() {
    let mut gate = Gate::new();
    let Step::Run(session, _) = begin(&mut gate, connect_request("Cafe", "secret")) else {
        panic!("connect should run")
    };
    let Step::Run(session, _) = advance(&mut gate, session, Reply::Flag(true)) else {
        panic!("connect should join")
    };
    let r = answered(advance(&mut gate, session, Reply::Flag(false)));
    assert_eq!(r.message, "did not connect");
    assert_eq!(r.data, pairs(&[("did not connect", false)]));
}

#[test]
fn scanned_networks_are_reported_in_order() {
    let o = Outcome::Success(Payload::Networks(pairs(&[("Cafe", true), ("Home", false)])));
    let r = response::format(o);
    assert_eq!(r.message, "Done");
    assert_eq!(r.data, pairs(&[("Cafe", true), ("Home", false)]));
}

#[test]
fn scan_request_round_trip() {
    let mut gate = Gate::new();
    let Step::Run(session, Command::Scan) = begin(&mut gate, Request::Networks) else {
        panic!("scan should run")
    };
    let reply = Reply::Networks(pairs(&[("Cafe", true), ("Home", false)]));
    let r = answered(advance(&mut gate, session, reply));
    assert_eq!(r.message, "Done");
    assert_eq!(r.data, pairs(&[("Cafe", true), ("Home", false)]));
}

#[test]
fn radio_off_twice_reports_off_both_times() {
    let mut gate = Gate::new();
    for _ in 0..2 {
        let Step::Run(session, Command::RadioOff) = begin(&mut gate, Request::RadioOff) else {
            panic!("radio off should run")
        };
        let r = answered(advance(&mut gate, session, Reply::Finished));
        assert_eq!(r.message, "off");
        assert_eq!(r.data, pairs(&[("off", true)]));
        assert!(!gate.is_held());
    }
    assert_eq!(gate.admitted(), 2);
}

#[test]
fn connect_with_empty_fields_fails_not_busy() {
    let mut gate = Gate::new();
    for req in [connect_request("", "pw"), connect_request("ssid", "")] {
        match begin(&mut gate, req) {
            Step::Respond(o) => {
                assert!(matches!(o, Outcome::DomainFailure(Failure::InvalidInput)));
                assert_eq!(response::format(o).message, "error");
            }
            Step::Run(..) => panic!("an empty field is never run"),
        }
        assert!(!gate.is_held());
    }
}

#[test]
fn busy_comes_before_validation() {
    let mut gate = Gate::new();
    let _held = gate.try_enter().unwrap();
    let r = answered(begin(&mut gate, connect_request("", "")));
    assert_eq!(r.message, "busy");
    assert!(r.data.is_empty());
    assert_eq!(gate.admitted(), 1);
}

#[test]
fn failed_operation_gives_the_gate_back() {
    let mut gate = Gate::new();
    let Step::Run(session, Command::Leave) = begin(&mut gate, Request::Disconnect) else {
        panic!("disconnect should run")
    };
    let r = answered(advance(&mut gate, session, Reply::Failed));
    assert_eq!(r.message, "error");
    assert!(!gate.is_held());
    assert!(begin(&mut gate, Request::RadioOn).is_run());
}

trait IsRun {
    fn is_run(&self) -> bool;
}

impl IsRun for Step {
    fn is_run(&self) -> bool {
        matches!(self, Step::Run(..))
    }
}

#[test]
fn connectivity_probe_reports_online_or_offline() {
    let req = Request::Connectivity;
    let mut gate = Gate::new();
    let Step::Run(_, Command::CheckOnline(t)) = begin(&mut gate, Request::Connectivity) else {
        panic!("the probe should run")
    };
    assert_eq!(t, PROBE_TIMEOUT_SECS);
    assert_eq!(t, 2);
    assert_eq!(response::format(outcome(&req, Reply::Flag(true))).data, pairs(&[("online", true)]));
    assert_eq!(response::format(outcome(&req, Reply::Flag(false))).message, "offline");
    assert_eq!(response::format(outcome(&req, Reply::Failed)).data, pairs(&[("offline", false)]));
}

#[test]
fn radio_status_and_device_name() {
    let r = response::format(outcome(&Request::RadioStatus, Reply::Flag(true)));
    assert_eq!(r.data, pairs(&[("enabled", true)]));
    let r = response::format(outcome(&Request::RadioStatus, Reply::Flag(false)));
    assert_eq!(r.data, pairs(&[("disabled", false)]));
    let r = response::format(outcome(&Request::RadioStatus, Reply::Failed));
    assert_eq!(r.message, "error");
    let r = response::format(outcome(&Request::DeviceName, Reply::Text("wlan0".to_string())));
    assert_eq!(r.message, "wlan0");
    let r = response::format(outcome(&Request::RadioOn, Reply::Finished));
    assert_eq!(r.data, pairs(&[("on", true)]));
    let r = response::format(outcome(&Request::Disconnect, Reply::Finished));
    assert_eq!(r.message, "disconnected");
}

#[test]
fn mismatched_reply_is_a_failure() {
    let o = outcome(&Request::RadioOn, Reply::Flag(true));
    assert!(matches!(o, Outcome::DomainFailure(Failure::CommandFailed)));
}

#[test]
fn current_network_present_or_absent() {
    let r = response::format(outcome(&Request::CurrentSsid, Reply::Current(Some("Home".to_string()))));
    assert_eq!(r.message, "Done");
    assert_eq!(r.data, pairs(&[("Home", true)]));
    let r = response::format(outcome(&Request::CurrentSsid, Reply::Current(None)));
    assert_eq!(r.data, pairs(&[("", false)]));
}

#[test]
fn decimal_digits() {
    assert_eq!(decimal(0), "0");
    assert_eq!(decimal(7), "7");
    assert_eq!(decimal(10), "10");
    assert_eq!(decimal(12345), "12345");
    assert_eq!(decimal(u64::MAX), "18446744073709551615");
    assert_eq!(waited_message(0), "waited 0 seconds");
}
