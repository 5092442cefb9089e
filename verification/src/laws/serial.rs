//! Laws of the channel to a device on a serial port.

use vstd::prelude::*;
use vstd::string::*;
use crate::channels::serial::{
    lets_in, new_channel, step_after, unsent, ChannelModel, OutboundModel, PortModel, ReadEvent,
    ReceivedModel, SendFailure, SerialChannelConfig, SerialInbound, StepModel,
};
use crate::error::ErrorModel;
use crate::hardware::introspect::{bad_path, serial_path};
use crate::laws::values::{blank_between, trimming_cuts_white_space_alone};
use crate::text::trimmed;

verus! {

/// A sender is let in just where the list names it, or where the list is empty
/// and does not deny by default.
pub proof fn who_is_let_in(list: Seq<Seq<char>>, deny_by_default: bool, user: Seq<char>)
    ensures
        lets_in(list, deny_by_default, user) <==> (exists|i: int|
            0 <= i < list.len() && #[trigger] list[i] == user) || (list.len() == 0
            && !deny_by_default),
{
    if list.contains(user) {
        let i = choose|i: int| 0 <= i < list.len() && list[i] == user;
        assert(list[i] == user);
    }
}

/// The sender that a line names, or the device where it names none.
pub open spec fn named_sender(inbound: SerialInbound) -> Seq<char> {
    if inbound.sender@.len() > 0 {
        inbound.sender@
    } else {
        "serial-device"@
    }
}

/// A line of the type `message` from a sender that is let in is a message of the
/// serial channel with its text; from any other sender it is denied, and a line
/// of another type is passed over.
pub proof fn what_a_line_is(channel: ChannelModel, inbound: SerialInbound)
    ensures
        inbound.msg_type@ != "message"@ ==> channel.received(inbound) == ReceivedModel::Ignored,
        inbound.msg_type@ == "message"@ && !lets_in(
            channel.allowlist,
            channel.deny_by_default,
            named_sender(inbound),
        ) ==> channel.received(inbound) == ReceivedModel::Denied(named_sender(inbound)),
        inbound.msg_type@ == "message"@ && lets_in(
            channel.allowlist,
            channel.deny_by_default,
            named_sender(inbound),
        ) ==> (channel.received(inbound) matches ReceivedModel::Message(message)
            && message.sender_id == named_sender(inbound) && message.content == inbound.text@
            && message.channel == "serial"@ && message.chat_id == "serial"@),
{
}

/// A line with nothing but white space is passed over; any other is parsed
/// without the white space around it; whatever is no line ends reading.
pub proof fn what_to_do_after_a_read(line: String, other: ReadEvent)
    ensures
        blank_between(line@, 0, line@.len() as int) ==> step_after(ReadEvent::Line(line))
            == StepModel::Skip,
        !blank_between(line@, 0, line@.len() as int) ==> step_after(ReadEvent::Line(line))
            == StepModel::Parse(trimmed(line@)),
        other is Shutdown || other is Closed || other is Failed ==> step_after(other)
            == StepModel::Stop,
{
    let cut = trimming_cuts_white_space_alone(line@);
}

/// A line leaves the channel as it is; whatever is no line ends its running and
/// changes nothing else.
pub proof fn channel_after_a_read(channel: ChannelModel, event: ReadEvent)
    ensures
        event is Line ==> channel.after_read(event) == channel,
        !(event is Line) ==> {
            let after = channel.after_read(event);
            &&& !after.running
            &&& after.open == channel.open
            &&& after.enabled == channel.enabled
            &&& after.name == channel.name
            &&& after.port == channel.port
            &&& after.allowlist == channel.allowlist
            &&& after.deny_by_default == channel.deny_by_default
        },
{
}

/// A channel is set up as it is configured, shut and not running.
pub proof fn new_channels_are_shut(config: SerialChannelConfig)
    ensures
        ({
            let channel = new_channel(config);
            &&& channel.name == "serial"@
            &&& channel.enabled == config.enabled
            &&& channel.port.path == config.port@
            &&& channel.port.baud_rate == config.baud_rate
            &&& channel.allowlist.len() == config.allow_from@.len()
            &&& forall|i: int|
                0 <= i < config.allow_from@.len() ==> #[trigger] channel.allowlist[i]
                    == config.allow_from@[i]@
            &&& channel.deny_by_default == config.deny_by_default
            &&& !channel.running
            &&& !channel.open
        }),
{
}

/// Opening the port makes the channel run on it; where it fails, the channel
/// stays as it is and the error names the port and the reason. Stopping shuts
/// the port.
pub proof fn opening_and_stopping(channel: ChannelModel, reason: String)
    ensures
        ({
            let (r, after) = channel.opening(Ok(()));
            &&& r is Ok
            &&& after.running && after.open
            &&& after == (ChannelModel { running: after.running, open: after.open, ..channel })
        }),
        ({
            let (r, after) = channel.opening(Err(reason));
            &&& r == Err::<(), ErrorModel>(
                ErrorModel::Config(
                    "Failed to open serial port "@ + channel.port.path + ": "@ + reason@,
                ),
            )
            &&& after == channel
        }),
        ({
            let after = channel.stopped();
            &&& !after.running && !after.open
            &&& after == (ChannelModel { running: after.running, open: after.open, ..channel })
        }),
{
}

/// The port of the channel is opened, if its path is one of a serial port; else
/// the error names the path.
pub proof fn port_of_the_channel(channel: ChannelModel)
    ensures
        serial_path(channel.port.path) ==> channel.wanted_port() == Ok::<PortModel, ErrorModel>(
            channel.port,
        ),
        !serial_path(channel.port.path) ==> channel.wanted_port() == Err::<PortModel, ErrorModel>(
            ErrorModel::Config(bad_path(channel.port.path)),
        ),
{
}

/// A message goes out as a line of the type `response` with its text, just while
/// the port is open.
pub proof fn messages_go_out_while_open(channel: ChannelModel, content: Seq<char>)
    ensures
        channel.open ==> (channel.line_for(content) matches Ok(line) && line.msg_type
            == "response"@ && line.text == content),
        !channel.open ==> channel.line_for(content) == Err::<OutboundModel, ErrorModel>(
            ErrorModel::Config("Serial channel not started"@),
        ),
{
}

/// What is told of a message that could not be sent is at which step and why.
pub proof fn messages_that_were_not_sent(reason: String)
    ensures
        unsent(SendFailure::Serialize(reason)) == ErrorModel::Tool(
            "Serial serialize error: "@ + reason@,
        ),
        unsent(SendFailure::Write(reason)) == ErrorModel::Tool("Serial write error: "@ + reason@),
        unsent(SendFailure::Flush(reason)) == ErrorModel::Tool("Serial flush error: "@ + reason@),
{
}

} // verus!
