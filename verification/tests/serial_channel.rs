use zeptoclaw::bus::InboundMessage;
use zeptoclaw::channels::serial::{
    ReadEvent, ReadStep, Received, SendFailure, SerialChannel, SerialChannelConfig, SerialInbound,
};
use zeptoclaw::error::ZeptoError;

fn channel(port: &str, allow_from: &[&str], deny_by_default: bool) -> SerialChannel {
    SerialChannel::new(SerialChannelConfig {
        port: port.to_string(),
        allow_from: allow_from.iter().map(|s| s.to_string()).collect(),
        deny_by_default,
        ..Default::default()
    })
}

fn inbound(msg_type: &str, text: &str, sender: &str) -> SerialInbound {
    SerialInbound {
        msg_type: msg_type.to_string(),
        text: text.to_string(),
        sender: sender.to_string(),
    }
}

fn heard(received: Received) -> InboundMessage {
    match received {
        Received::Message(message) => message,
        _ => panic!("expected a message"),
    }
}

fn denied(received: Received) -> String {
    match received {
        Received::Denied(sender) => sender,
        _ => panic!("expected a denied sender"),
    }
}

#[test]
fn test_serial_channel_name() {
    let ch = channel("/dev/ttyUSB0", &[], false);
    assert_eq!(ch.name(), "serial");
}

#[test]
fn test_serial_channel_not_running_initially() {
    let ch = channel("/dev/ttyUSB0", &[], false);
    assert!(!ch.is_running());
}

#[test]
fn test_serial_channel_allowlist() {
    let ch = channel("/dev/ttyUSB0", &["esp32-0"], false);
    assert!(ch.is_allowed("esp32-0"));
    assert!(!ch.is_allowed("esp32-1"));
}

#[test]
fn test_serial_channel_deny_by_default() {
    let ch = channel("/dev/ttyUSB0", &[], true);
    assert!(!ch.is_allowed("anyone"));
}

#[test]
fn test_serial_channel_running_flag_is_atomic() {
    let mut ch = channel("/dev/ttyUSB0", &[], false);
    assert!(!ch.is_running());
    ch.opened(Ok(())).unwrap();
    assert!(ch.is_running());
    ch.stop();
    assert!(!ch.is_running());
}

#[test]
fn default_configuration() {
    let config = SerialChannelConfig::default();
    assert!(!config.enabled);
    assert_eq!(config.baud_rate, 115_200);
    assert!(!config.deny_by_default);
}

#[test]
fn empty_list_lets_everybody_in() {
    let ch = channel("/dev/ttyUSB0", &[], false);
    assert!(ch.is_allowed("anyone"));
    let ch = channel("/dev/ttyUSB0", &["a", "b"], true);
    assert!(ch.is_allowed("b"));
    assert!(!ch.is_allowed("c"));
}

#[test]
fn only_serial_ports_are_opened() {
    let port = channel("/dev/ttyUSB0", &[], false).start().unwrap();
    assert_eq!(port.path, "/dev/ttyUSB0");
    assert_eq!(port.baud_rate, 115_200);
    match channel("/etc/passwd", &[], false).start() {
        Err(ZeptoError::Config(text)) => assert!(text.contains("not allowed: /etc/passwd")),
        _ => panic!("expected a configuration error"),
    }
}

#[test]
fn port_that_cannot_be_opened() {
    let mut ch = channel("COM3", &[], false);
    let e = ch.opened(Err("busy".to_string())).unwrap_err();
    assert_eq!(e.message(), "Failed to open serial port COM3: busy");
    assert!(!ch.is_running());
}

#[test]
fn lines_are_trimmed_and_empty_ones_skipped() {
    let mut ch = channel("COM3", &[], false);
    ch.opened(Ok(())).unwrap();
    assert!(matches!(
        ch.read(ReadEvent::Line(" \r\n".to_string())),
        ReadStep::Skip
    ));
    match ch.read(ReadEvent::Line(" {} \r\n".to_string())) {
        ReadStep::Parse(text) => assert_eq!(text, "{}"),
        _ => panic!("expected a line to parse"),
    }
    assert!(ch.is_running());
}

#[test]
fn reading_ends() {
    for event in [ReadEvent::Shutdown, ReadEvent::Closed, ReadEvent::Failed] {
        let mut ch = channel("COM3", &[], false);
        ch.opened(Ok(())).unwrap();
        assert!(matches!(ch.read(event), ReadStep::Stop));
        assert!(!ch.is_running());
        // The port can still be written to until the channel is stopped.
        assert!(ch.send("x").is_ok());
    }
}

#[test]
fn messages_from_the_device() {
    let ch = channel("COM3", &[], false);
    let message = heard(ch.receive(&inbound("message", "Hello", "esp32-0")));
    assert_eq!(message.channel, "serial");
    assert_eq!(message.sender_id, "esp32-0");
    assert_eq!(message.chat_id, "serial");
    assert_eq!(message.content, "Hello");
    let message = heard(ch.receive(&inbound("message", "Hello", "")));
    assert_eq!(message.sender_id, "serial-device");
    assert!(matches!(
        ch.receive(&inbound("status", "Hello", "esp32-0")),
        Received::Ignored
    ));
}

#[test]
fn unknown_senders_are_not_heard() {
    let ch = channel("COM3", &["esp32-0"], false);
    assert_eq!(heard(ch.receive(&inbound("message", "x", "esp32-0"))).content, "x");
    assert_eq!(denied(ch.receive(&inbound("message", "x", "esp32-1"))), "esp32-1");
    assert_eq!(denied(ch.receive(&inbound("message", "x", ""))), "serial-device");
    assert!(matches!(
        ch.receive(&inbound("status", "x", "esp32-1")),
        Received::Ignored
    ));
    let ch = channel("COM3", &[], true);
    assert_eq!(denied(ch.receive(&inbound("message", "x", "esp32-0"))), "esp32-0");
}

#[test]
fn sending_needs_an_open_port() {
    let mut ch = channel("COM3", &[], false);
    let e = ch.send("Hi!").unwrap_err();
    assert_eq!(e.message(), "Serial channel not started");
    ch.opened(Ok(())).unwrap();
    let line = ch.send("Hi!").unwrap();
    assert_eq!(line.msg_type, "response");
    assert_eq!(line.text, "Hi!");
    ch.stop();
    assert!(ch.send("Hi!").is_err());
}

#[test]
fn lines_end() {
    assert_eq!(SerialChannel::frame("{}".to_string()), "{}\n");
}

#[test]
fn failures_of_sending() {
    let e = SerialChannel::send_error(SendFailure::Serialize("a".to_string()));
    assert_eq!(e.message(), "Serial serialize error: a");
    let e = SerialChannel::send_error(SendFailure::Write("b".to_string()));
    assert_eq!(e.message(), "Serial write error: b");
    let e = SerialChannel::send_error(SendFailure::Flush("c".to_string()));
    assert_eq!(e.message(), "Serial flush error: c");
}

#[test]
fn run_over_several_lines() {
    let mut ch = channel("COM3", &["a", "b"], false);
    ch.opened(Ok(())).unwrap();
    let mut reads = vec![
        (ReadEvent::Line("1".to_string()), Some(inbound("message", "one", "a"))),
        (ReadEvent::Line("\n".to_string()), None),
        (ReadEvent::Line("2".to_string()), Some(inbound("message", "no", "c"))),
        (ReadEvent::Line("3".to_string()), Some(inbound("status", "no", "a"))),
        (ReadEvent::Line("4".to_string()), None),
        (ReadEvent::Line("5".to_string()), Some(inbound("message", "two", "b"))),
        (ReadEvent::Closed, None),
        (ReadEvent::Line("6".to_string()), Some(inbound("message", "late", "a"))),
    ]
    .into_iter();
    let mut texts = Vec::new();
    while let Some((event, line)) = reads.next() {
        match ch.read(event) {
            ReadStep::Stop => break,
            ReadStep::Skip => continue,
            ReadStep::Parse(_) => {
                if let Some(line) = line {
                    if let Received::Message(message) = ch.receive(&line) {
                        texts.push(message.content);
                    }
                }
            }
        }
    }
    assert_eq!(texts, ["one", "two"]);
    // What is shut stays shut until it is opened again.
    assert!(!ch.is_running());
    ch.read(ReadEvent::Line("7".to_string()));
    assert!(!ch.is_running());
    ch.opened(Ok(())).unwrap();
    assert!(ch.is_running());
}
