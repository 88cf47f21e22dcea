use network::event_loop::{Params, Step, PAUSE_SLEEP_MS, POLL_EVERY};
use network::gmcp::read::{envelope_bodies, InputContainer};
use network::gmcp::{
    Command, CommandType, Event, EventData, EventType, GeneralLog, Message, MessageType,
    Serialization, Timestamp,
};

#[test]
fn serialize_command() {
    let command = Command {
        command_type: String::from(CommandType::Throttle.as_str()),
        data: String::from("20"),
    };
    assert_eq!(command.to_json(), r#"{"type": "throttle", "data": "20"}"#);
}

#[test]
fn serialize_event() {
    let event_data = EventData {
        data_type: String::from("packet info"),
        data: String::from("information"),
    };

    let event = Event {
        event_type: String::from(EventType::PacketMatch.as_str()),
        data: event_data,
    };
    assert_eq!(
        event.to_json(),
        r#"{"type": "packetMatch", "data": "{"type": "packet info", "data": "information"}"}"#
    );
}

#[test]
fn serialize_message() {
    let command = Command {
        command_type: String::from(CommandType::Throttle.as_str()),
        data: String::from("90"),
    };

    let message = Message::create_command_message(&command);

    assert_eq!(
        message.to_json(),
        r#"<<GMCP>>{"type": "command", "data": "{\"type\": \"throttle\", \"data\": \"90\"}"}<</GMCP>>"#
    );
}

#[test]
fn deserialize_command_from_gmcp_message() {
    let command = Command {
        command_type: String::from(CommandType::Throttle.as_str()),
        data: String::from("20"),
    };

    let json = r#"<<GMCP>>{"type": "command", "data": "{\"type\": \"throttle\", \"data\": \"20\"}"}<</GMCP>>"#;
    let input_container = InputContainer::new(json);

    assert_eq!(input_container.errors.len(), 0, "errors found");
    assert_eq!(input_container.commands.len(), 1, "no commands found");
    assert_eq!(
        command.command_type, input_container.commands[0].command_type,
        "command types differ"
    );
    assert_eq!(command.data, input_container.commands[0].data, "command data differs");
}

#[test]
fn command_envelope_round_trip() {
    let command = Command {
        command_type: String::from(CommandType::Throttle.as_str()),
        data: String::from("20"),
    };
    let wire = Message::create_command_message(&command).to_json();
    let input = InputContainer::new(&wire);
    assert_eq!(input.errors.len(), 0);
    assert_eq!(input.commands.len(), 1);
    assert_eq!(input.commands[0].command_type, "throttle");
    assert_eq!(input.commands[0].data, "20");
}

#[test]
fn bad_envelope_does_not_discard_good_one() {
    let text = r#"<<GMCP>>{"type": "command", "data": "{\"type\": \"pause\", \"data\": \"\"}"}<</GMCP>> noise <<GMCP>>{"type": "command", "data": "{not json"}<</GMCP>>"#;
    let input = InputContainer::new(text);
    assert_eq!(input.commands.len(), 1);
    assert_eq!(input.errors.len(), 1);
    assert_eq!(input.commands[0].command_type, "pause");
    assert_eq!(
        input.errors[0],
        "Unable to parse Command from input json. Data {not json"
    );
}

#[test]
fn unreadable_message_is_reported_with_its_text() {
    let input = InputContainer::new("<<GMCP>>{oops<</GMCP>>");
    assert_eq!(input.commands.len(), 0);
    assert_eq!(input.errors, vec![String::from("Unable to parse Message from input json. Data {oops")]);
}

#[test]
fn other_kinds_of_envelope_are_ignored() {
    let input = InputContainer::new(r#"<<GMCP>>{"type": "event", "data": "x"}<</GMCP>>"#);
    assert_eq!(input.commands.len(), 0);
    assert_eq!(input.errors.len(), 0);
}

#[test]
fn text_without_envelopes_gives_nothing() {
    let input = InputContainer::new("plain text <<GMCP>> never closed");
    assert_eq!(input.commands.len(), 0);
    assert_eq!(input.errors.len(), 0);
    assert_eq!(envelope_bodies(""), Vec::<String>::new());
}

#[test]
fn envelope_bodies_are_cut_at_the_first_close() {
    let bodies = envelope_bodies("a<<GMCP>>one<</GMCP>>b<<GMCP>> two <</GMCP>><</GMCP>>");
    assert_eq!(bodies, vec![String::from("one"), String::from(" two ")]);
}

#[test]
fn message_escapes_quotes_and_backslashes() {
    let message = Message {
        message_type: String::from("event"),
        data: String::from(r#"a"b\c"#),
    };
    assert_eq!(message.to_json(), r#"<<GMCP>>{"type": "event", "data": "a\"b\\c"}<</GMCP>>"#);
}

fn command(t: &str, d: &str) -> Command {
    Command { command_type: String::from(t), data: String::from(d) }
}

#[test]
fn throttle_scales_by_five() {
    let params = Params::new(&vec![command("throttle", "20")]);
    assert_eq!(params.iteration_sleep_ms, 100);
    assert!(!params.should_exit);
}

#[test]
fn throttle_with_non_numeric_data_is_zero() {
    let params = Params::new(&vec![command("throttle", "abc")]);
    assert_eq!(params.iteration_sleep_ms, 0);
    let params = Params::new(&vec![command("throttle", "+7")]);
    assert_eq!(params.iteration_sleep_ms, 35);
    let params = Params::new(&vec![command("throttle", "18446744073709551615")]);
    assert_eq!(params.iteration_sleep_ms, u64::MAX);
}

#[test]
fn later_commands_override_earlier_ones() {
    let params = Params::new(&vec![
        command("throttle", "2"),
        command("pause", ""),
        command("updateConfig", "{}"),
        command("throttle", "3"),
        command("bogus", "1"),
    ]);
    assert_eq!(params.iteration_sleep_ms, 15);
    assert!(params.should_pause);
    assert_eq!(params.config_json, "{}");
    assert!(!params.should_exit);
}

#[test]
fn stop_and_show_commands_set_their_flags() {
    let params = Params::new(&vec![
        command("stop", ""),
        command("showDefaultConfig", ""),
        command("showExampleConfig", ""),
    ]);
    assert!(params.should_exit);
    assert!(params.should_show_default_config);
    assert!(params.should_show_example_config);
    let defaults = Params::new_with_defaults();
    assert_eq!(defaults.iteration_sleep_ms, 0);
    assert!(!defaults.should_pause);
    assert_eq!(defaults.config_json, "");
}

#[test]
fn serialize_general_log() {
    let now_time = chrono::Utc::now();
    let log_message = GeneralLog {
        severity: String::from("error"),
        area: String::from("area"),
        message: String::from("log message"),
        timestamp: Timestamp {
            secs: now_time.timestamp(),
            nanos: now_time.timestamp_subsec_nanos(),
        },
    };

    let serialized_baseline = format!(
        r#"{{"severity": "error", "area": "area", "timestamp": "{}", "message": "log message"}}"#,
        now_time.to_rfc3339()
    );
    assert_eq!(log_message.to_json(), serialized_baseline);
}

#[test]
fn log_message_envelope() {
    let log = GeneralLog {
        severity: String::from("info"),
        area: String::from("net"),
        message: String::from("up"),
        timestamp: Timestamp { secs: 0, nanos: 0 },
    };
    let message = Message::create_general_log_message(&log);
    assert_eq!(message.message_type, "generalLog");
    assert_eq!(
        message.data,
        r#"{"severity": "info", "area": "net", "timestamp": "1970-01-01T00:00:00+00:00", "message": "up"}"#
    );
    let event = Event {
        event_type: String::from(EventType::PacketMatch.as_str()),
        data: EventData { data_type: String::from("udp"), data: String::from("x") },
    };
    assert_eq!(Message::create_event_message(&event).message_type, MessageType::Event.as_str());
}

#[test]
fn iteration_plan_follows_params() {
    let mut params = Params::new_with_defaults();
    let step = Step::plan(&params, 3);
    assert!(!step.poll_commands);
    assert!(step.capture);
    assert_eq!(step.sleep_ms, 0);
    assert_eq!(step.next_counter, 4);
    let step = Step::plan(&params, POLL_EVERY);
    assert!(step.poll_commands);
    assert_eq!(step.next_counter, 1);
    params.should_pause = true;
    let step = Step::plan(&params, 0);
    assert!(!step.capture);
    assert_eq!(step.sleep_ms, PAUSE_SLEEP_MS);
    params.iteration_sleep_ms = 40;
    assert_eq!(Step::plan(&params, 0).sleep_ms, 40);
}
