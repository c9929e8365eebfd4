//! What becomes of the messages of a connected player, and of the player who disconnects.

use vstd::prelude::*;

use crate::chat::{
    chat_deliveries, chat_error, chat_room, ends_round, has_host, try_handle_chat_message,
};
use crate::cleanup::{CleanupTask, Delay};
use crate::events::{DeliveryView, EventView, InboundWsEvent, OutboundWsEvent, Outbox};
use crate::lobby::CLEANUP_DELAY_SECS;
use crate::room::{
    broadcast_player_list, broadcast_ws_event, find, player_list, to_room, waits, Room, RoomView,
};
use crate::text::{hint, lowercase, make_hint};

verus! {

/// What arrives on the connection of a player: a text, other bytes, an error, or its end.
pub enum Frame {
    Text(String),
    Binary(Vec<u8>),
    Failed,
    Closed,
}

/// What to do next about a player: handle the event that a text holds, keep an image, or let the
/// player leave.
pub enum Step {
    Event(String),
    Image(Vec<u8>),
    Leave,
}

/// What to do next about a player on whose connection `frame` has arrived.
pub open spec fn step_after(frame: Frame) -> Step {
    match frame {
        Frame::Text(text) => Step::Event(text),
        Frame::Binary(bytes) => Step::Image(bytes),
        Frame::Failed | Frame::Closed => Step::Leave,
    }
}

/// What to do next about a player on whose connection `frame` has arrived. A connection that has
/// failed is over, like one that was closed.
pub fn next_step(frame: Frame) -> (step: Step)
    ensures
        step == (match frame {
            Frame::Text(text) => Step::Event(text),
            Frame::Binary(bytes) => Step::Image(bytes),
            Frame::Failed => Step::Leave,
            Frame::Closed => Step::Leave,
        }),
        step == step_after(frame),
{
    match frame {
        Frame::Text(text) => Step::Event(text),
        Frame::Binary(bytes) => Step::Image(bytes),
        Frame::Failed | Frame::Closed => Step::Leave,
    }
}

/// The room after an event of the player with this private id.
pub open spec fn event_room(
    room: RoomView,
    event: InboundWsEvent,
    private_id: Seq<char>,
) -> RoomView {
    match event {
        InboundWsEvent::PlayerName(_) => room,
        InboundWsEvent::ChatMessage(text) => chat_room(
            room,
            text@,
            lowercase(text@),
            private_id,
        ),
        InboundWsEvent::Circle(circle) => RoomView { circles: room.circles.push(circle), ..room },
        InboundWsEvent::NewImage { dimensions, answer } => RoomView {
            image_dimensions: Some(dimensions),
            answer: Some(answer@),
            circles: Seq::empty(),
            ..room
        },
    }
}

/// What is sent for an event of the player with this private id: what chat takes, or the circle,
/// or the size of the new picture with a hint.
pub open spec fn event_deliveries(
    room: RoomView,
    event: InboundWsEvent,
    private_id: Seq<char>,
) -> Seq<DeliveryView> {
    let after = event_room(room, event, private_id);
    match event {
        InboundWsEvent::PlayerName(_) => Seq::empty(),
        InboundWsEvent::ChatMessage(text) => chat_deliveries(
            room,
            text@,
            lowercase(text@),
            private_id,
        ),
        InboundWsEvent::Circle(circle) => seq![to_room(after, EventView::Circle(circle))],
        InboundWsEvent::NewImage { dimensions, answer } => seq![
            to_room(after, EventView::NewImage { dimensions, answer_hint: hint(answer@) }),
        ],
    }
}

/// Why an event is refused, if it is.
pub open spec fn event_error(
    room: RoomView,
    event: InboundWsEvent,
    private_id: Seq<char>,
) -> Option<Seq<char>> {
    match event {
        InboundWsEvent::ChatMessage(text) => chat_error(room, text@, private_id),
        _ => None,
    }
}

/// Whether the event is a message that would end the round of a room without a host.
pub open spec fn lacks_host(room: RoomView, event: InboundWsEvent, private_id: Seq<char>) -> bool {
    event matches InboundWsEvent::ChatMessage(text) && ends_round(
        room,
        text@,
        lowercase(text@),
        private_id,
    ) && !has_host(room.players)
}

/// Handles an event of the player with this private id. A message that would end the round of a
/// room without a host is not handled at all: the result is `None` and nothing changes.
pub fn handle_event(
    event: InboundWsEvent,
    private_id: &str,
    room: &mut Room,
    outbox: &mut Outbox,
) -> (result: Option<Result<(), &'static str>>)
    ensures
        result is None <==> lacks_host(old(room)@, event, private_id@),
        match result {
            None => final(room)@ == old(room)@ && final(outbox)@ == old(outbox)@,
            Some(handled) => {
                &&& final(room)@ == event_room(old(room)@, event, private_id@)
                &&& final(outbox)@ == old(outbox)@ + event_deliveries(
                    old(room)@,
                    event,
                    private_id@,
                )
                &&& match event_error(old(room)@, event, private_id@) {
                    Some(error) => handled matches Err(e) && e@ == error,
                    None => handled is Ok,
                }
            },
        },
{
    let ghost deliveries = event_deliveries(room@, event, private_id@);
    match event {
        InboundWsEvent::PlayerName(_) => {},
        InboundWsEvent::ChatMessage(text) => {
            return try_handle_chat_message(text.as_str(), private_id, room, outbox);
        },
        InboundWsEvent::Circle(circle) => {
            room.add_circle(circle);
            broadcast_ws_event(OutboundWsEvent::Circle(circle), room, outbox);
        },
        InboundWsEvent::NewImage { dimensions, answer } => {
            let answer_hint = make_hint(answer.as_str());
            room.start_image(dimensions, answer);
            let news = OutboundWsEvent::NewImage { dimensions, answer_hint };
            broadcast_ws_event(news, room, outbox);
        },
    }
    assert(outbox@ =~= old(outbox)@ + deliveries);
    Some(Ok(()))
}

/// The room once these bytes are the source image.
pub open spec fn with_image(room: RoomView, bytes: Seq<u8>) -> RoomView {
    RoomView { image_data: Some(bytes), ..room }
}

/// Keeps bytes that a player has sent as the source image.
pub fn handle_binary_message(bytes: Vec<u8>, room: &mut Room)
    ensures
        final(room)@ == (RoomView { image_data: Some(bytes@), ..old(room)@ }),
        final(room)@ == with_image(old(room)@, bytes@),
{
    room.image_data = Some(bytes);
}

/// The room without the first player with this private id.
pub open spec fn left(room: RoomView, private_id: Seq<char>) -> RoomView {
    match find(room.players, private_id) {
        Some(i) => RoomView { players: room.players.remove(i), ..room },
        None => room,
    }
}

/// What is sent when a player has left: the list of the players, if there are any.
pub open spec fn left_deliveries(room: RoomView, private_id: Seq<char>) -> Seq<DeliveryView> {
    let after = left(room, private_id);
    if after.players.len() == 0 {
        Seq::empty()
    } else {
        seq![player_list(after)]
    }
}

/// Whether the room, once the player has left, is `after`: a room that is empty then waits for the
/// usual time to be deleted by the task.
pub open spec fn leaves(
    before: RoomView,
    private_id: Seq<char>,
    after: RoomView,
    cleanup: Option<CleanupTask>,
) -> bool {
    match cleanup {
        Some(task) => {
            &&& left(before, private_id).players.len() == 0
            &&& waits(
                left(before, private_id),
                after,
                Delay { secs: CLEANUP_DELAY_SECS, nanos: 0 },
                task,
            )
        },
        None => {
            &&& left(before, private_id).players.len() > 0
            &&& after == left(before, private_id)
        },
    }
}

/// Removes a player who has disconnected. A room that is empty then waits to be deleted by the
/// task returned; otherwise the players that are left are told who they are.
pub fn handle_user_disconnected(
    private_id: &str,
    room: &mut Room,
    outbox: &mut Outbox,
) -> (cleanup: Option<CleanupTask>)
    ensures
        if left(old(room)@, private_id@).players.len() == 0 {
            &&& cleanup matches Some(task) && waits(
                left(old(room)@, private_id@),
                final(room)@,
                Delay { secs: CLEANUP_DELAY_SECS, nanos: 0 },
                task,
            )
            &&& final(outbox)@ == old(outbox)@
        } else {
            &&& cleanup is None
            &&& final(room)@ == left(old(room)@, private_id@)
            &&& final(outbox)@ == old(outbox)@.push(player_list(final(room)@))
        },
        leaves(old(room)@, private_id@, final(room)@, cleanup),
        final(outbox)@ == old(outbox)@ + left_deliveries(old(room)@, private_id@),
{
    room.remove_player(private_id);
    if room.players.is_empty() {
        assert(outbox@ =~= old(outbox)@ + left_deliveries(old(room)@, private_id@));
        Some(room.wait_then_cleanup(Delay { secs: CLEANUP_DELAY_SECS, nanos: 0 }))
    } else {
        broadcast_player_list(room, outbox);
        assert(outbox@ =~= old(outbox)@ + left_deliveries(old(room)@, private_id@));
        None
    }
}

} // verus!
