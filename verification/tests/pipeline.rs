use open_notify::FacadeStep;
use open_notify::FetchEvent;
use open_notify::Pass;
use open_notify::PollOutcome;
use open_notify::ResultChannel;
use open_notify::Spot;
use open_notify::facade_step;
use open_notify::poll_step;
use open_notify::publish_step;
use open_notify::spots_of_passes;

#[test]
fn channel_yields_outcomes_in_publish_order() {
    let mut channel = ResultChannel::new();
    channel.publish(PollOutcome::Loading);
    channel.publish(PollOutcome::Success(vec![Spot {
        duration: 600,
        risetime: 1000,
    }]));
    assert!(matches!(channel.drain(), Some(PollOutcome::Loading)));
    match channel.drain() {
        Some(PollOutcome::Success(spots)) => {
            assert_eq!(spots.len(), 1);
            assert_eq!(spots[0].risetime, 1000);
            assert_eq!(spots[0].duration, 600);
        }
        _ => panic!("second drain should yield the success outcome"),
    }
    assert!(channel.drain().is_none());
}

#[test]
fn started_channel_holds_the_loading_sentinel() {
    let mut channel = ResultChannel::start();
    assert!(matches!(channel.drain(), Some(PollOutcome::Loading)));
    assert!(channel.drain().is_none());
}

#[test]
fn transport_failure_publishes_nothing_and_retries() {
    let step = poll_step(FetchEvent::TransportError, 90);
    assert!(step.publish.is_none());
    assert!(!step.sleep);
    assert!(!step.stop);
}

#[test]
fn http_failure_publishes_the_status_line() {
    let step = poll_step(FetchEvent::HttpError("500 Internal Server Error".to_string()), 90);
    match step.publish {
        Some(PollOutcome::Failure(message)) => {
            assert_eq!(message, "500 Internal Server Error");
        }
        _ => panic!("an HTTP failure should publish a failure outcome"),
    }
    assert!(!step.sleep);
    assert!(!step.stop);
}

#[test]
fn decode_failure_publishes_the_message() {
    let step = poll_step(FetchEvent::DecodeError("expected value at line 1".to_string()), 0);
    match step.publish {
        Some(PollOutcome::Failure(message)) => {
            assert_eq!(message, "expected value at line 1");
        }
        _ => panic!("a decode failure should publish a failure outcome"),
    }
    assert!(!step.sleep);
    assert!(!step.stop);
}

#[test]
fn successful_fetch_publishes_mapped_events() {
    let records = vec![
        Pass {
            duration: 540,
            risetime: 1622527200,
        },
        Pass {
            duration: 620,
            risetime: 1622538000,
        },
    ];
    let step = poll_step(FetchEvent::Fetched(records), 90);
    match step.publish {
        Some(PollOutcome::Success(spots)) => {
            assert_eq!(spots.len(), 2);
            assert_eq!(spots[0].duration, 540);
            assert_eq!(spots[0].risetime, 1622527200);
            assert_eq!(spots[1].duration, 620);
            assert_eq!(spots[1].risetime, 1622538000);
        }
        _ => panic!("a successful fetch should publish a success outcome"),
    }
    assert!(step.sleep);
    assert!(!step.stop);
}

#[test]
fn one_shot_poller_stops_after_first_success() {
    let step = poll_step(FetchEvent::Fetched(Vec::new()), 0);
    assert!(matches!(step.publish, Some(PollOutcome::Success(_))));
    assert!(!step.sleep);
    assert!(step.stop);
}

#[test]
fn publish_step_drives_the_channel() {
    let mut channel = ResultChannel::start();
    let stop = publish_step(&mut channel, FetchEvent::TransportError, 0);
    assert!(!stop);
    let stop = publish_step(
        &mut channel,
        FetchEvent::Fetched(vec![Pass {
            duration: 300,
            risetime: 7200,
        }]),
        0,
    );
    assert!(stop);
    assert!(matches!(channel.drain(), Some(PollOutcome::Loading)));
    match channel.drain() {
        Some(PollOutcome::Success(spots)) => {
            assert_eq!(spots.len(), 1);
            assert_eq!(spots[0].duration, 300);
            assert_eq!(spots[0].risetime, 7200);
        }
        _ => panic!("the fetched records should come out as a success outcome"),
    }
    assert!(channel.drain().is_none());
}

#[test]
fn conversion_keeps_order_and_fields() {
    let records = vec![
        Pass {
            duration: 1,
            risetime: 10,
        },
        Pass {
            duration: 2,
            risetime: -20,
        },
        Pass {
            duration: 3,
            risetime: 30,
        },
    ];
    let spots = spots_of_passes(&records);
    assert_eq!(spots.len(), 3);
    assert_eq!(spots[0].duration, 1);
    assert_eq!(spots[0].risetime, 10);
    assert_eq!(spots[1].duration, 2);
    assert_eq!(spots[1].risetime, -20);
    assert_eq!(spots[2].duration, 3);
    assert_eq!(spots[2].risetime, 30);
}

#[test]
fn facade_waits_through_silence_and_loading() {
    assert!(matches!(facade_step(None), FacadeStep::Wait));
    assert!(matches!(facade_step(Some(PollOutcome::Loading)), FacadeStep::Wait));
}

#[test]
fn facade_surfaces_the_first_terminal_outcome() {
    match facade_step(Some(PollOutcome::Failure("404 Not Found".to_string()))) {
        FacadeStep::Done(Err(message)) => assert_eq!(message, "404 Not Found"),
        _ => panic!("a failure outcome should end the wait with its message"),
    }
    match facade_step(Some(PollOutcome::Success(vec![Spot {
        duration: 60,
        risetime: 5,
    }]))) {
        FacadeStep::Done(Ok(spots)) => {
            assert_eq!(spots.len(), 1);
            assert_eq!(spots[0].risetime, 5);
        }
        _ => panic!("a success outcome should end the wait with the events"),
    }
}
