//! The log fan-out: late subscribers miss history but receive every
//! later message in order; slow readers lag instead of blocking the
//! writer; a closed channel reads as end-of-stream.

use xscape::api::BuildConfiguration;
use xscape::api::BuildDestination;
use xscape::api::BuildRequest;
use xscape::config::AgentServerConfig;
use xscape::fanout::LogChannel;
use xscape::fanout::RecvOutcome;
use xscape::logs::LogLevel;
use xscape::logs::LogMessage;
use xscape::store::AppState;

fn output_line(text: &str) -> LogMessage {
    LogMessage::build_output(LogLevel::Info, String::from(text))
}

fn message_text(m: &LogMessage) -> String {
    match m {
        LogMessage::BuildOutput { message, .. } => message.clone(),
        LogMessage::SystemEvent { message, .. } => message.clone(),
        LogMessage::AppLog { message, .. } => message.clone(),
        LogMessage::BuildProgress { phase, .. } => phase.clone(),
    }
}

fn state_with_build() -> (AppState, u64) {
    let mut state = AppState::new(AgentServerConfig::default());
    let resp = state.sync_register(
        String::from("Demo"),
        String::from("ck"),
        String::from("/p"),
        0,
        1,
    );
    let request = BuildRequest {
        project_id: resp.project_id,
        project_file: None,
        scheme: String::from("S"),
        configuration: BuildConfiguration::Debug,
        destination: BuildDestination::ios_simulator(String::from("iPhone 15 Pro")),
        extra_args: Vec::new(),
        clean: false,
    };
    let build = state.start_build(&request, 0).unwrap();
    (state, build.build_id)
}

#[test]
fn late_subscriber_misses_first_ten_lines() {
    let (mut state, bid) = state_with_build();
    for i in 0..10 {
        assert!(state.publish_log(bid, output_line(&format!("early-{}", i))));
    }
    let cursor = state.subscribe_logs(bid).unwrap();
    assert!(state.publish_log(bid, output_line("late-0")));
    assert!(state.publish_log(bid, output_line("late-1")));
    let mut seen: Vec<String> = Vec::new();
    let mut c = cursor;
    loop {
        match state.recv_log(bid, c).unwrap() {
            RecvOutcome::Message(m, next) => {
                seen.push(message_text(m));
                c = next;
            }
            RecvOutcome::Pending => break,
            RecvOutcome::Lagged(_) => panic!("fresh subscriber cannot lag"),
            RecvOutcome::Closed => panic!("channel is still open"),
        }
    }
    assert_eq!(seen, vec![String::from("late-0"), String::from("late-1")]);
    for line in &seen {
        assert!(!line.starts_with("early-"));
    }
}

#[test]
fn subscriber_from_start_sees_lines_in_order() {
    let (mut state, bid) = state_with_build();
    let cursor = state.subscribe_logs(bid).unwrap();
    assert_eq!(cursor, 0);
    assert!(state.publish_log(bid, output_line("a")));
    assert!(state.publish_log(bid, output_line("b")));
    let (first, next) = match state.recv_log(bid, cursor).unwrap() {
        RecvOutcome::Message(m, next) => (message_text(m), next),
        _ => panic!("a message is available"),
    };
    let (second, _) = match state.recv_log(bid, next).unwrap() {
        RecvOutcome::Message(m, next) => (message_text(m), next),
        _ => panic!("a second message is available"),
    };
    assert_eq!(first, "a");
    assert_eq!(second, "b");
}

#[test]
fn closed_channel_reads_as_end_of_stream() {
    let (mut state, bid) = state_with_build();
    let cursor = state.subscribe_logs(bid).unwrap();
    assert!(state.publish_log(bid, output_line("only")));
    state.close_log(bid);
    let next = match state.recv_log(bid, cursor).unwrap() {
        RecvOutcome::Message(_, next) => next,
        _ => panic!("the published message is still delivered"),
    };
    assert!(matches!(state.recv_log(bid, next).unwrap(), RecvOutcome::Closed));
    assert!(!state.publish_log(bid, output_line("after close")));
}

#[test]
fn slow_reader_lags_instead_of_blocking() {
    let mut ch = LogChannel::create(2);
    let cursor = ch.subscribe();
    ch.publish(output_line("one"));
    ch.publish(output_line("two"));
    ch.publish(output_line("three"));
    match ch.recv(cursor) {
        RecvOutcome::Lagged(next) => {
            assert_eq!(next, 1);
            match ch.recv(next) {
                RecvOutcome::Message(m, _) => assert_eq!(message_text(m), "two"),
                _ => panic!("the oldest retained message is readable"),
            }
        }
        _ => panic!("an overrun reader lags"),
    }
}

#[test]
fn pending_when_nothing_published_yet() {
    let (state, bid) = state_with_build();
    let cursor = state.subscribe_logs(bid).unwrap();
    assert!(matches!(state.recv_log(bid, cursor).unwrap(), RecvOutcome::Pending));
}

#[test]
fn log_message_constructors_carry_fields() {
    let m = LogMessage::build_output(LogLevel::Warning, String::from("careful"));
    match m {
        LogMessage::BuildOutput { level, message, .. } => {
            assert!(matches!(level, LogLevel::Warning));
            assert_eq!(message, "careful");
        }
        _ => panic!("build_output builds a build-output message"),
    }
    let e = LogMessage::system_event(
        xscape::logs::SystemEventType::BuildStarted,
        String::from("Building scheme"),
    );
    match e {
        LogMessage::SystemEvent { event, message, .. } => {
            assert!(matches!(event, xscape::logs::SystemEventType::BuildStarted));
            assert_eq!(message, "Building scheme");
        }
        _ => panic!("system_event builds a system event"),
    }
}
