//! A channel to a device on a serial port.
//!
//! The device sends lines of JSON, `{"type":"message","text":"...",
//! "sender":"..."}`, and gets lines `{"type":"response","text":"..."}` back.
//!
//! The channel decides; the caller does the reading and writing. It opens the
//! port that [`SerialChannel::start`] names, tells [`SerialChannel::opened`]
//! what came of it, hands each read to [`SerialChannel::read`] and each parsed
//! line to [`SerialChannel::receive`].

use vstd::prelude::*;
use vstd::string::*;
use crate::bus::{InboundMessage, InboundModel};
use crate::error::{outcome, ErrorModel, ZeptoError};
use crate::hardware::introspect::{bad_path, serial_path, validate_serial_path};
use crate::text::{concat, same_text, texts, trim, trimmed};

verus! {

/// How a serial channel is set up.
#[derive(Debug)]
pub struct SerialChannelConfig {
    /// Whether the channel is used.
    pub enabled: bool,
    /// The path of the serial port.
    pub port: String,
    /// How fast the device talks.
    pub baud_rate: u32,
    /// Who may send messages; where it is empty, see `deny_by_default`.
    pub allow_from: Vec<String>,
    /// Whether an empty `allow_from` lets nobody in.
    pub deny_by_default: bool,
}

impl Default for SerialChannelConfig {
    fn default() -> (r: SerialChannelConfig)
        ensures
            !r.enabled,
            r.port@.len() == 0,
            r.baud_rate == 115_200,
            r.allow_from@.len() == 0,
            !r.deny_by_default,
    {
        SerialChannelConfig {
            enabled: false,
            port: String::new(),
            baud_rate: 115_200,
            allow_from: Vec::new(),
            deny_by_default: false,
        }
    }
}

/// Whether a list of senders lets one in. An empty list lets everybody in,
/// unless `deny_by_default`.
pub open spec fn lets_in(allowlist: Seq<Seq<char>>, deny_by_default: bool, user: Seq<char>) -> bool {
    if allowlist.len() == 0 {
        !deny_by_default
    } else {
        allowlist.contains(user)
    }
}

/// What all channels are set up with.
#[derive(Debug)]
pub struct BaseChannelConfig {
    pub name: String,
    pub allowlist: Vec<String>,
    pub deny_by_default: bool,
}

impl BaseChannelConfig {
    /// Whether the sender may send messages.
    pub fn is_allowed(&self, user_id: &str) -> (r: bool)
        ensures
            r == lets_in(texts(self.allowlist@), self.deny_by_default, user_id@),
    {
        if self.allowlist.len() == 0 {
            return !self.deny_by_default;
        }
        let ghost all = texts(self.allowlist@);
        let mut i: usize = 0;
        while i < self.allowlist.len()
            invariant
                i <= self.allowlist.len(),
                all == texts(self.allowlist@),
                all.len() > 0,
                forall|j: int| 0 <= j < i ==> (#[trigger] all[j]) != user_id@,
            decreases self.allowlist.len() - i,
        {
            if same_text(self.allowlist[i].as_str(), user_id) {
                proof {
                    assert(all[i as int] == user_id@);
                }
                return true;
            }
            i = i + 1;
        }
        false
    }
}

/// What a line from the device says.
#[derive(Debug)]
pub struct SerialInbound {
    pub msg_type: String,
    pub text: String,
    pub sender: String,
}

/// What a line to the device says.
#[derive(Debug)]
pub struct SerialOutbound {
    pub msg_type: String,
    pub text: String,
}

/// What a line to the device is.
#[verifier::ext_equal]
pub struct OutboundModel {
    pub msg_type: Seq<char>,
    pub text: Seq<char>,
}

impl View for SerialOutbound {
    type V = OutboundModel;

    open spec fn view(&self) -> OutboundModel {
        OutboundModel { msg_type: self.msg_type@, text: self.text@ }
    }
}

/// The port to open.
#[derive(Debug)]
pub struct PortRequest {
    pub path: String,
    pub baud_rate: u32,
}

/// What a port to open is.
#[verifier::ext_equal]
pub struct PortModel {
    pub path: Seq<char>,
    pub baud_rate: u32,
}

impl View for PortRequest {
    type V = PortModel;

    open spec fn view(&self) -> PortModel {
        PortModel { path: self.path@, baud_rate: self.baud_rate }
    }
}

/// What came of waiting for a line.
pub enum ReadEvent {
    /// The channel was told to stop.
    Shutdown,
    /// The port was closed.
    Closed,
    /// The port could not be read.
    Failed,
    /// A line was read.
    Line(String),
}

/// What to do next.
pub enum ReadStep {
    /// End reading.
    Stop,
    /// Wait for the next line.
    Skip,
    /// Read the text as JSON.
    Parse(String),
}

/// What a step is.
#[verifier::ext_equal]
pub enum StepModel {
    Stop,
    Skip,
    Parse(Seq<char>),
}

impl View for ReadStep {
    type V = StepModel;

    open spec fn view(&self) -> StepModel {
        match *self {
            ReadStep::Stop => StepModel::Stop,
            ReadStep::Skip => StepModel::Skip,
            ReadStep::Parse(text) => StepModel::Parse(text@),
        }
    }
}

/// What to do after a read. An empty line is passed over.
pub open spec fn step_after(event: ReadEvent) -> StepModel {
    match event {
        ReadEvent::Line(line) => if trimmed(line@).len() == 0 {
            StepModel::Skip
        } else {
            StepModel::Parse(trimmed(line@))
        },
        _ => StepModel::Stop,
    }
}

/// What a line from the device is.
pub enum Received {
    /// A message to publish.
    Message(InboundMessage),
    /// No message.
    Ignored,
    /// A message from a sender that is not let in.
    Denied(String),
}

/// What a line is.
#[verifier::ext_equal]
pub enum ReceivedModel {
    Message(InboundModel),
    Ignored,
    Denied(Seq<char>),
}

impl View for Received {
    type V = ReceivedModel;

    open spec fn view(&self) -> ReceivedModel {
        match *self {
            Received::Message(message) => ReceivedModel::Message(message@),
            Received::Ignored => ReceivedModel::Ignored,
            Received::Denied(sender) => ReceivedModel::Denied(sender@),
        }
    }
}

/// What could not be done with a message to the device.
pub enum SendFailure {
    Serialize(String),
    Write(String),
    Flush(String),
}

/// The error of a message that could not be sent.
pub open spec fn unsent(failure: SendFailure) -> ErrorModel {
    ErrorModel::Tool(
        match failure {
            SendFailure::Serialize(reason) => "Serial serialize error: "@ + reason@,
            SendFailure::Write(reason) => "Serial write error: "@ + reason@,
            SendFailure::Flush(reason) => "Serial flush error: "@ + reason@,
        },
    )
}

/// The state of a channel.
#[verifier::ext_equal]
pub struct ChannelModel {
    pub enabled: bool,
    pub name: Seq<char>,
    pub port: PortModel,
    pub allowlist: Seq<Seq<char>>,
    pub deny_by_default: bool,
    /// Whether lines are being read.
    pub running: bool,
    /// Whether the port can be written to.
    pub open: bool,
}

/// The sender of a line: `serial-device` where it names none.
pub open spec fn sender_of(inbound: SerialInbound) -> Seq<char> {
    if inbound.sender@.len() == 0 {
        "serial-device"@
    } else {
        inbound.sender@
    }
}

impl ChannelModel {
    /// Whether the channel lets a sender in.
    pub open spec fn allows(self, user: Seq<char>) -> bool {
        lets_in(self.allowlist, self.deny_by_default, user)
    }

    /// What a line is: a message, if it has the type `message` and comes from a
    /// sender that is let in.
    pub open spec fn received(self, inbound: SerialInbound) -> ReceivedModel {
        if inbound.msg_type@ != "message"@ {
            ReceivedModel::Ignored
        } else if !self.allows(sender_of(inbound)) {
            ReceivedModel::Denied(sender_of(inbound))
        } else {
            ReceivedModel::Message(
                InboundModel {
                    channel: "serial"@,
                    sender_id: sender_of(inbound),
                    chat_id: "serial"@,
                    content: inbound.text@,
                },
            )
        }
    }

    /// The state with the port open and lines being read.
    pub open spec fn started(self) -> ChannelModel {
        ChannelModel { running: true, open: true, ..self }
    }

    /// The state after a read.
    pub open spec fn after_read(self, event: ReadEvent) -> ChannelModel {
        if step_after(event) == StepModel::Stop {
            ChannelModel { running: false, ..self }
        } else {
            self
        }
    }

    /// The state with the port given up.
    pub open spec fn stopped(self) -> ChannelModel {
        ChannelModel { running: false, open: false, ..self }
    }

    /// What comes of opening the port, and the state then.
    pub open spec fn opening(self, result: Result<(), String>) -> (
        Result<(), ErrorModel>,
        ChannelModel,
    ) {
        match result {
            Ok(_) => (Ok(()), self.started()),
            Err(reason) => (
                Err(
                    ErrorModel::Config(
                        "Failed to open serial port "@ + self.port.path + ": "@ + reason@,
                    ),
                ),
                self,
            ),
        }
    }

    /// The line to send for a message, or why it cannot be sent.
    pub open spec fn line_for(self, content: Seq<char>) -> Result<OutboundModel, ErrorModel> {
        if self.open {
            Ok(OutboundModel { msg_type: "response"@, text: content })
        } else {
            Err(ErrorModel::Config("Serial channel not started"@))
        }
    }

    /// The port to open, or why it cannot be opened.
    pub open spec fn wanted_port(self) -> Result<PortModel, ErrorModel> {
        if serial_path(self.port.path) {
            Ok(self.port)
        } else {
            Err(ErrorModel::Config(bad_path(self.port.path)))
        }
    }
}

/// The state of a channel that is set up and not started yet.
pub open spec fn new_channel(config: SerialChannelConfig) -> ChannelModel {
    ChannelModel {
        enabled: config.enabled,
        name: "serial"@,
        port: PortModel { path: config.port@, baud_rate: config.baud_rate },
        allowlist: texts(config.allow_from@),
        deny_by_default: config.deny_by_default,
        running: false,
        open: false,
    }
}

/// A channel to a device on a serial port.
pub struct SerialChannel {
    enabled: bool,
    port: String,
    baud_rate: u32,
    base_config: BaseChannelConfig,
    running: bool,
    open: bool,
}

impl View for SerialChannel {
    type V = ChannelModel;

    closed spec fn view(&self) -> ChannelModel {
        ChannelModel {
            enabled: self.enabled,
            name: self.base_config.name@,
            port: PortModel { path: self.port@, baud_rate: self.baud_rate },
            allowlist: texts(self.base_config.allowlist@),
            deny_by_default: self.base_config.deny_by_default,
            running: self.running,
            open: self.open,
        }
    }
}

impl SerialChannel {
    /// A channel that is not started yet.
    pub fn new(config: SerialChannelConfig) -> (r: SerialChannel)
        ensures
            r@ == new_channel(config),
    {
        let base_config = BaseChannelConfig {
            name: "serial".to_string(),
            allowlist: config.allow_from,
            deny_by_default: config.deny_by_default,
        };
        SerialChannel {
            enabled: config.enabled,
            port: config.port,
            baud_rate: config.baud_rate,
            base_config,
            running: false,
            open: false,
        }
    }

    /// The name of the channel.
    pub fn name(&self) -> (r: &str)
        ensures
            r@ == "serial"@,
    {
        "serial"
    }

    /// The port to open. A path that is none of a serial port is refused.
    pub fn start(&self) -> (r: Result<PortRequest, ZeptoError>)
        ensures
            outcome(r) == self@.wanted_port(),
    {
        match validate_serial_path(self.port.as_str()) {
            Ok(_) => Ok(
                PortRequest {
                    path: self.port.clone(),
                    baud_rate: self.baud_rate,
                },
            ),
            Err(e) => Err(ZeptoError::Config(e)),
        }
    }

    /// Takes note that the port was opened, or why it was not.
    pub fn opened(&mut self, result: Result<(), String>) -> (r: Result<(), ZeptoError>)
        ensures
            (outcome(r), final(self)@) == old(self)@.opening(result),
    {
        match result {
            Ok(_) => {
                self.open = true;
                self.running = true;
                Ok(())
            },
            Err(reason) => {
                let mut text = concat(
                    "Failed to open serial port ",
                    self.port.as_str(),
                    ": ",
                );
                text.append(reason.as_str());
                Err(ZeptoError::Config(text))
            },
        }
    }

    /// What to do after a read. Once reading ends, the channel no longer runs.
    pub fn read(&mut self, event: ReadEvent) -> (r: ReadStep)
        ensures
            r@ == step_after(event),
            final(self)@ == old(self)@.after_read(event),
    {
        match event {
            ReadEvent::Line(line) => {
                let text = trim(line.as_str());
                if text.unicode_len() == 0 {
                    ReadStep::Skip
                } else {
                    ReadStep::Parse(text.to_string())
                }
            },
            _ => {
                self.running = false;
                ReadStep::Stop
            },
        }
    }

    /// What a line is: the message to publish, or why there is none.
    pub fn receive(&self, inbound: &SerialInbound) -> (r: Received)
        ensures
            r@ == self@.received(*inbound),
    {
        if !same_text(inbound.msg_type.as_str(), "message") {
            return Received::Ignored;
        }
        let sender = if inbound.sender.as_str().unicode_len() == 0 {
            "serial-device"
        } else {
            inbound.sender.as_str()
        };
        if !self.is_allowed(sender) {
            return Received::Denied(sender.to_string());
        }
        Received::Message(InboundMessage::new("serial", sender, "serial", inbound.text.as_str()))
    }

    /// Gives the port up.
    pub fn stop(&mut self)
        ensures
            final(self)@ == old(self)@.stopped(),
    {
        self.running = false;
        self.open = false;
    }

    /// The line to send for a message. The port has to be open.
    pub fn send(&self, content: &str) -> (r: Result<SerialOutbound, ZeptoError>)
        ensures
            outcome(r) == self@.line_for(content@),
    {
        if !self.open {
            return Err(ZeptoError::Config("Serial channel not started".to_string()));
        }
        Ok(SerialOutbound { msg_type: "response".to_string(), text: content.to_string() })
    }

    /// A line with its end.
    pub fn frame(json: String) -> (r: String)
        ensures
            r@ == json@.push('\n'),
    {
        let mut line = json;
        line.push('\n');
        line
    }

    /// The error of a message that could not be sent.
    pub fn send_error(failure: SendFailure) -> (r: ZeptoError)
        ensures
            r@ == unsent(failure),
    {
        let (what, reason) = match failure {
            SendFailure::Serialize(reason) => ("Serial serialize error: ", reason),
            SendFailure::Write(reason) => ("Serial write error: ", reason),
            SendFailure::Flush(reason) => ("Serial flush error: ", reason),
        };
        let mut text = what.to_string();
        text.append(reason.as_str());
        ZeptoError::Tool(text)
    }

    /// Whether lines are being read.
    pub fn is_running(&self) -> (r: bool)
        ensures
            r == self@.running,
    {
        self.running
    }

    /// Whether the sender may send messages.
    pub fn is_allowed(&self, user_id: &str) -> (r: bool)
        ensures
            r == self@.allows(user_id@),
    {
        self.base_config.is_allowed(user_id)
    }
}

/// Only senders that are let in are heard, and each message has a sender.
pub proof fn heard_senders_are_let_in(channel: ChannelModel, inbound: SerialInbound)
    ensures
        channel.received(inbound) matches ReceivedModel::Message(message) ==> channel.allows(
            message.sender_id,
        ) && message.sender_id.len() > 0,
{
    reveal_strlit("serial-device");
}

/// A channel that denies by default and has no list hears nobody.
pub proof fn denied_by_default(channel: ChannelModel, inbound: SerialInbound)
    requires
        channel.allowlist.len() == 0,
        channel.deny_by_default,
    ensures
        !(channel.received(inbound) is Message),
{
}

/// What happens to a channel.
pub enum ChannelEvent {
    Opened,
    Read(ReadEvent),
    Stopped,
}

impl ChannelModel {
    /// The state after an event.
    pub open spec fn after(self, event: ChannelEvent) -> ChannelModel {
        match event {
            ChannelEvent::Opened => self.started(),
            ChannelEvent::Read(event) => self.after_read(event),
            ChannelEvent::Stopped => self.stopped(),
        }
    }

    /// The state after some events.
    pub open spec fn after_all(self, events: Seq<ChannelEvent>) -> ChannelModel
        decreases events.len(),
    {
        if events.len() == 0 {
            self
        } else {
            self.after_all(events.drop_last()).after(events.last())
        }
    }
}

/// Whatever happens, a channel runs only while its port is open, and who is let
/// in does not change.
pub proof fn running_channel_is_open(channel: ChannelModel, events: Seq<ChannelEvent>)
    requires
        channel.running ==> channel.open,
    ensures
        channel.after_all(events).running ==> channel.after_all(events).open,
        channel.after_all(events).port == channel.port,
        channel.after_all(events).name == channel.name,
        channel.after_all(events).allowlist == channel.allowlist,
        channel.after_all(events).deny_by_default == channel.deny_by_default,
    decreases events.len(),
{
    if events.len() > 0 {
        running_channel_is_open(channel, events.drop_last());
    }
}

/// A channel that does not run stays so, and one whose port is shut keeps it
/// shut, whatever happens while nothing opens the port.
pub proof fn shut_channel_stays_shut(channel: ChannelModel, events: Seq<ChannelEvent>)
    requires
        forall|i: int| 0 <= i < events.len() ==> !(#[trigger] events[i] is Opened),
    ensures
        !channel.running ==> !channel.after_all(events).running,
        !channel.open ==> !channel.after_all(events).open,
    decreases events.len(),
{
    if events.len() > 0 {
        let front = events.drop_last();
        assert forall|i: int| 0 <= i < front.len() implies !(#[trigger] front[i] is Opened) by {
            assert(front[i] == events[i]);
        }
        shut_channel_stays_shut(channel, front);
        assert(!(events[events.len() - 1] is Opened));
    }
}

/// A read, and what its line says where it could be read as JSON of the right
/// form.
pub struct LineRead {
    pub event: ReadEvent,
    pub inbound: Option<SerialInbound>,
}

/// The lines that are read before reading ends: those with a text that could be
/// read.
pub open spec fn lines_read(reads: Seq<LineRead>) -> Seq<SerialInbound>
    decreases reads.len(),
{
    if reads.len() == 0 {
        Seq::empty()
    } else {
        let rest = lines_read(reads.drop_first());
        match (step_after(reads.first().event), reads.first().inbound) {
            (StepModel::Stop, _) => Seq::empty(),
            (StepModel::Parse(_), Some(inbound)) => seq![inbound] + rest,
            _ => rest,
        }
    }
}

impl ChannelModel {
    /// The message that a line is, if it is one.
    pub open spec fn message(self, inbound: SerialInbound) -> Option<InboundModel> {
        match self.received(inbound) {
            ReceivedModel::Message(message) => Some(message),
            _ => None,
        }
    }

    /// The messages that are published over some reads, as the channel goes from
    /// state to state, until it says to stop.
    pub open spec fn heard(self, reads: Seq<LineRead>) -> Seq<InboundModel>
        decreases reads.len(),
    {
        if reads.len() == 0 {
            Seq::empty()
        } else {
            let read = reads.first();
            let rest = self.after_read(read.event).heard(reads.drop_first());
            match (step_after(read.event), read.inbound) {
                (StepModel::Stop, _) => Seq::empty(),
                (StepModel::Parse(_), Some(inbound)) => match self.message(inbound) {
                    Some(message) => seq![message] + rest,
                    None => rest,
                },
                _ => rest,
            }
        }
    }

    /// The state after some reads, until it says to stop.
    pub open spec fn after_reads(self, reads: Seq<LineRead>) -> ChannelModel
        decreases reads.len(),
    {
        if reads.len() == 0 {
            self
        } else {
            let next = self.after_read(reads.first().event);
            if step_after(reads.first().event) == StepModel::Stop {
                next
            } else {
                next.after_reads(reads.drop_first())
            }
        }
    }

    /// The message that a line of the type `message` is.
    pub open spec fn message_from(self, inbound: SerialInbound) -> InboundModel {
        InboundModel {
            channel: "serial"@,
            sender_id: sender_of(inbound),
            chat_id: "serial"@,
            content: inbound.text@,
        }
    }

    /// Whether a line is a message from a sender that is let in.
    pub open spec fn allowed_message(self, inbound: SerialInbound) -> bool {
        inbound.msg_type@ == "message"@ && self.allows(sender_of(inbound))
    }
}

/// What is heard over any number of reads: of the lines before the end of
/// reading just those that are messages from senders that are let in, each once
/// and in order.
pub proof fn heard_are_the_allowed_messages(channel: ChannelModel, reads: Seq<LineRead>)
    ensures
        channel.heard(reads) == lines_read(reads).filter(
            |line: SerialInbound| channel.allowed_message(line),
        ).map_values(|line: SerialInbound| channel.message_from(line)),
    decreases reads.len(),
{
    let pred = |line: SerialInbound| channel.allowed_message(line);
    let told = |line: SerialInbound| channel.message_from(line);
    reveal(Seq::filter);
    if reads.len() == 0 {
        assert(lines_read(reads).filter(pred).map_values(told) =~= Seq::empty());
    } else {
        let read = reads.first();
        let tail = reads.drop_first();
        let rest = lines_read(tail);
        if step_after(read.event) == StepModel::Stop {
            assert(lines_read(reads).filter(pred).map_values(told) =~= Seq::empty());
        } else {
            heard_are_the_allowed_messages(channel, tail);
            if let (StepModel::Parse(_), Some(inbound)) = (step_after(read.event), read.inbound) {
                filter_front(inbound, rest, pred);
                assert(channel.heard(reads) =~= lines_read(reads).filter(pred).map_values(told));
            }
        }
    }
}

/// Filtering keeps or drops the first item and filters the others.
proof fn filter_front(
    first: SerialInbound,
    rest: Seq<SerialInbound>,
    pred: spec_fn(SerialInbound) -> bool,
)
    ensures
        (seq![first] + rest).filter(pred) == (if pred(first) {
            seq![first] + rest.filter(pred)
        } else {
            rest.filter(pred)
        }),
    decreases rest.len(),
{
    reveal(Seq::filter);
    let all = seq![first] + rest;
    if rest.len() == 0 {
        assert(all.drop_last() =~= Seq::empty());
        assert(all.drop_last().filter(pred) =~= Seq::empty());
        assert(rest.filter(pred) =~= Seq::empty());
        assert(all.last() == first);
        assert(all.filter(pred) =~= if pred(first) {
            seq![first] + rest.filter(pred)
        } else {
            rest.filter(pred)
        });
    } else {
        assert(all.drop_last() =~= seq![first] + rest.drop_last());
        assert(all.last() == rest.last());
        filter_front(first, rest.drop_last(), pred);
        assert(all.filter(pred) =~= if pred(first) {
            seq![first] + rest.filter(pred)
        } else {
            rest.filter(pred)
        });
    }
}

/// Reading ends where the channel is told to stop, or its port is closed or
/// cannot be read, and only there; from then on it does not run.
pub proof fn reading_goes_on_until_the_end(channel: ChannelModel, reads: Seq<LineRead>)
    ensures
        channel.after_reads(reads) == (if exists|i: int|
            0 <= i < reads.len() && !((#[trigger] reads[i]).event is Line) {
            ChannelModel { running: false, ..channel }
        } else {
            channel
        }),
    decreases reads.len(),
{
    if reads.len() > 0 {
        let tail = reads.drop_first();
        reading_goes_on_until_the_end(channel, tail);
        if exists|i: int| 0 <= i < tail.len() && !((#[trigger] tail[i]).event is Line) {
            let i = choose|i: int| 0 <= i < tail.len() && !((#[trigger] tail[i]).event is Line);
            assert(!(reads[i + 1].event is Line));
        }
        if exists|i: int| 0 <= i < reads.len() && !((#[trigger] reads[i]).event is Line) {
            let i = choose|i: int| 0 <= i < reads.len() && !((#[trigger] reads[i]).event is Line);
            if i > 0 {
                assert(!(tail[i - 1].event is Line));
            }
        }
        if !(reads[0].event is Line) {
            assert(!(reads[0].event is Line));
        }
    }
}

} // verus!
