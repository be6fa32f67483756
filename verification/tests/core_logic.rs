use statusbot::dispatch::on_message;
use statusbot::dispatch::ping_reply;
use statusbot::dispatch::Dispatcher;
use statusbot::gate::ReadinessGate;
use statusbot::health::classify;
use statusbot::health::presence_text;
use statusbot::health::FetchOutcome;
use statusbot::health::HealthStatus;
use statusbot::health::SUCCESS_CODE;
use statusbot::poller::poller_step;
use statusbot::poller::PollDirective;
use statusbot::poller::POLL_INTERVAL_SECS;

#[test]
fn classification_is_total() {
    // Every HTTP status code and the transport failure classify to one of the
    // two statuses, and nothing panics.
    let mut code: u16 = 100;
    while code <= 599 {
        let status = classify(FetchOutcome::Status(code));
        assert!(matches!(status, HealthStatus::Up | HealthStatus::Down));
        code += 1;
    }
    let status = classify(FetchOutcome::TransportFailure);
    assert!(matches!(status, HealthStatus::Up | HealthStatus::Down));
}

#[test]
fn classification_is_correct() {
    assert_eq!(classify(FetchOutcome::Status(200)), HealthStatus::Up);
    let mut code: u16 = 100;
    while code <= 599 {
        if code != SUCCESS_CODE {
            assert_eq!(classify(FetchOutcome::Status(code)), HealthStatus::Down);
        }
        code += 1;
    }
    assert_eq!(classify(FetchOutcome::TransportFailure), HealthStatus::Down);
}

#[test]
fn presence_text_is_exact() {
    assert_eq!(presence_text(HealthStatus::Up), "Blue Protocol is Up!");
    assert_eq!(presence_text(HealthStatus::Down), "Blue Protocol is Down!");
}

#[test]
fn gate_single_start() {
    // Of any number of try_start calls on one gate, exactly the first wins.
    let mut gate = ReadinessGate::new();
    let mut wins: u32 = 0;
    let mut call: u32 = 0;
    while call < 5 {
        if gate.try_start() {
            wins += 1;
        }
        call += 1;
    }
    assert_eq!(wins, 1);
}

#[test]
fn gate_first_call_wins() {
    let mut gate = ReadinessGate::new();
    assert!(gate.try_start());
    assert!(!gate.try_start());
    assert!(!gate.try_start());
}

#[test]
fn repeated_ready_spawns_once() {
    // Two ready notifications in a row: the poller is spawned exactly once.
    let mut dispatcher = Dispatcher::new();
    let mut spawned: u32 = 0;
    if dispatcher.on_ready() {
        spawned += 1;
    }
    if dispatcher.on_ready() {
        spawned += 1;
    }
    assert_eq!(spawned, 1);
    assert!(!dispatcher.on_ready());
}

#[test]
fn ping_gets_pong() {
    let reply = on_message(&String::from("!ping"));
    assert_eq!(reply, Some(String::from("Pong!")));
    assert_eq!(ping_reply(), "Pong!");
}

#[test]
fn other_messages_get_no_inline_reply() {
    assert_eq!(on_message(&String::from("hello")), None);
    assert_eq!(on_message(&String::from("")), None);
    assert_eq!(on_message(&String::from("!ping ")), None);
    assert_eq!(on_message(&String::from("~ping")), None);
}

#[test]
fn poll_cycle_up() {
    // Health endpoint answers 200: the Up text is published and the loop
    // goes on.
    let directive = poller_step(false, FetchOutcome::Status(200));
    match directive {
        PollDirective::Publish(text) => assert_eq!(text, "Blue Protocol is Up!"),
        PollDirective::Stop => panic!("poller stopped without cancellation"),
    }
}

#[test]
fn poll_cycle_down() {
    // Health endpoint answers 503: the Down text is published.
    let directive = poller_step(false, FetchOutcome::Status(503));
    match directive {
        PollDirective::Publish(text) => assert_eq!(text, "Blue Protocol is Down!"),
        PollDirective::Stop => panic!("poller stopped without cancellation"),
    }
}

#[test]
fn poll_cycle_timeout() {
    // The endpoint times out: the Down text is published, nothing escapes
    // the cycle, and the loop goes on.
    let directive = poller_step(false, FetchOutcome::TransportFailure);
    match directive {
        PollDirective::Publish(text) => assert_eq!(text, "Blue Protocol is Down!"),
        PollDirective::Stop => panic!("poller stopped without cancellation"),
    }
}

#[test]
fn poll_cycle_cancelled() {
    // Cancellation is the only way the loop ends.
    let directive = poller_step(true, FetchOutcome::Status(200));
    assert!(matches!(directive, PollDirective::Stop));
}

#[test]
fn poll_interval_is_ten_seconds() {
    assert_eq!(POLL_INTERVAL_SECS, 10);
}
