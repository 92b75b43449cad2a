use screenshare::correlator::Correlator;
use screenshare::correlator::dispatch;
use screenshare::protocol::RequestOutcome;
use screenshare::token::request_path;
use screenshare::token::xdg_unique_name;

fn outcome(status: u32) -> RequestOutcome {
    RequestOutcome { status, payload: Vec::new() }
}

#[test]
fn subscription_listens_on_the_token_derived_path() {
    let c = Correlator::subscribe(":1.7", String::from("deadbeef"));
    assert_eq!(c.path, "/org/freedesktop/portal/desktop/request/1_7/deadbeef");
    assert!(c.response.is_none());
}

#[test]
fn notification_fans_out_by_token_without_cross_delivery() {
    // A fake transport: three concurrent requests on one connection,
    // each notification addressed by the sender to one token's path.
    let tokens = ["aaaa", "bbbb", "cccc"];
    let mut correlators: Vec<Correlator> = tokens
        .iter()
        .map(|t| Correlator::subscribe(":1.7", String::from(*t)))
        .collect();

    for (i, t) in tokens.iter().enumerate() {
        let path = request_path(&xdg_unique_name(":1.7"), t);
        let idx = dispatch(&mut correlators, &path, outcome(i as u32));
        assert_eq!(idx, Some(i));
    }

    for (i, c) in correlators.iter().enumerate() {
        match &c.response {
            Some(o) => assert_eq!(o.status, i as u32),
            None => panic!("request {} received no notification", i),
        }
    }
}

#[test]
fn unrelated_notification_is_refused() {
    let mut c = Correlator::subscribe(":1.7", String::from("aaaa"));
    let other = request_path(&xdg_unique_name(":1.7"), "bbbb");
    assert!(!c.deliver(&other, outcome(0)));
    assert!(c.response.is_none());
}

#[test]
fn at_most_one_notification_is_consumed() {
    let mut c = Correlator::subscribe(":1.7", String::from("aaaa"));
    let path = request_path(&xdg_unique_name(":1.7"), "aaaa");
    assert!(c.deliver(&path, outcome(5)));
    // A second notification on the same path is not consumed.
    assert!(!c.deliver(&path, outcome(6)));
    let got = c.take_response().expect("first notification kept");
    assert_eq!(got.status, 5);
    assert!(c.response.is_none());
}

#[test]
fn dispatch_reports_when_nothing_matches() {
    let mut correlators = vec![Correlator::subscribe(":1.7", String::from("aaaa"))];
    let path = String::from("/somewhere/else");
    assert_eq!(dispatch(&mut correlators, &path, outcome(0)), None);
    assert!(correlators[0].response.is_none());
}
