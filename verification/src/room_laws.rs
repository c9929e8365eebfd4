//! What holds of rooms, player by player and delivery by delivery.

use vstd::prelude::*;

use crate::chat::{chat_deliveries, chat_error, chat_room, ends_round};
use crate::cleanup::{AbortedTask, CleanupTask, Delay};
use crate::events::{
    is_new_player, DeliveryView, EventView, InboundWsEvent, OutboundWsEvent, Outbox, Payload,
    PayloadView, Player, PlayerView,
};
use crate::handlers::{
    event_deliveries, event_error, event_room, lacks_host, leaves, left, left_deliveries,
    step_after, with_image, Frame, Step,
};
use crate::lobby::{
    drawn_text, given_name, is_drawn_room_id, is_newcomer, is_room_id, joined, joined_deliveries,
    joins, path_of, welcome, with_room, without_room, NewRoom,
};
use crate::random::RandomChar;
use crate::room::{
    current_circles, find, lemma_search, player_list, source_image, stops_waiting, to_player,
    to_room, waits, Room, RoomView,
};
use crate::text::lowercase;

verus! {

/// Whether the player at position `i` has this private id, and nobody before has it.
pub open spec fn is_first(players: Seq<PlayerView>, private_id: Seq<char>, i: int) -> bool {
    &&& 0 <= i < players.len()
    &&& players[i].private_id == private_id
    &&& forall|j: int| 0 <= j < i ==> (#[trigger] players[j]).private_id != private_id
}

/// Whether no player has this private id.
pub open spec fn is_nobody(players: Seq<PlayerView>, private_id: Seq<char>) -> bool {
    forall|j: int| 0 <= j < players.len() ==> (#[trigger] players[j]).private_id != private_id
}

/// Whether a delivery goes to every player once, in order.
pub open spec fn goes_to_all(delivery: DeliveryView, players: Seq<PlayerView>) -> bool {
    &&& delivery.to.len() == players.len()
    &&& forall|j: int| 0 <= j < players.len() ==> delivery.to[j] == (#[trigger] players[j]).sender
}

/// Whether a delivery goes to one connection, once.
pub open spec fn goes_to_one(delivery: DeliveryView, sender: u64) -> bool {
    delivery.to.len() == 1 && delivery.to[0] == sender
}

/// Whether a delivery tells this event.
pub open spec fn tells(delivery: DeliveryView, event: EventView) -> bool {
    delivery.payload matches PayloadView::Event(told) && told == event
}

/// Whether a delivery tells every player the public information of every player, in order.
pub open spec fn lists_to_all(delivery: DeliveryView, players: Seq<PlayerView>) -> bool {
    &&& goes_to_all(delivery, players)
    &&& delivery.payload matches PayloadView::Event(EventView::PlayerList(list)) && list.len()
        == players.len() && forall|j: int|
        0 <= j < players.len() ==> list[j] == (#[trigger] players[j]).info
}

/// Whether a hint has an underscore for every character of the answer but the spaces.
pub open spec fn hides(shown: Seq<char>, answer: Seq<char>) -> bool {
    &&& shown.len() == answer.len()
    &&& forall|i: int|
        0 <= i < answer.len() ==> shown[i] == if #[trigger] answer[i] == ' ' {
            ' '
        } else {
            '_'
        }
}

/// Whether a delivery tells the size of a picture and a hint at its answer.
pub open spec fn tells_picture(
    delivery: DeliveryView,
    size: (u32, u32),
    answer: Seq<char>,
) -> bool {
    delivery.payload matches PayloadView::Event(EventView::NewImage { dimensions, answer_hint })
        && dimensions == size && hides(answer_hint, answer)
}

/// Whether two rooms differ at most in their players.
pub open spec fn same_but_players(a: RoomView, b: RoomView) -> bool {
    &&& a.id == b.id
    &&& a.circles == b.circles
    &&& a.image_dimensions == b.image_dimensions
    &&& a.answer == b.answer
    &&& a.image_data == b.image_data
    &&& a.cleanup_abort_handle == b.cleanup_abort_handle
}

/// The model of a player shows the player's fields.
pub proof fn law_player_shows_its_fields(player: Player)
    ensures
        player@.private_id == player.private_id@,
        player@.sender == player.sender,
        player@.info.name == player.info.name@,
        player@.info.public_id == player.info.public_id@,
        player@.info.is_host == player.info.is_host,
        player@.info.has_answer == player.info.has_answer,
{
}

/// The model of a room shows the room's fields, and every player in its place.
pub proof fn law_room_shows_its_fields(room: Room, i: int)
    ensures
        room@.id == room.id@,
        room@.players.len() == room.players@.len(),
        0 <= i < room.players@.len() ==> room@.players[i] == room.players@[i]@,
        room@.circles == room.circles@,
        room@.image_dimensions == room.image_dimensions,
        room@.answer is Some <==> room.answer is Some,
        room.answer matches Some(answer) ==> room@.answer == Some(answer@),
        room@.image_data is Some <==> room.image_data is Some,
        room.image_data matches Some(data) ==> room@.image_data == Some(data@),
        room@.cleanup_abort_handle == room.cleanup_abort_handle,
{
}

/// The model of an outbox shows every delivery in its place: to whom it goes, and what.
pub proof fn law_outbox_shows_its_deliveries(outbox: Outbox, i: int)
    ensures
        outbox@.len() == outbox.deliveries@.len(),
        0 <= i < outbox.deliveries@.len() ==> {
            let delivery = outbox.deliveries@[i];
            &&& outbox@[i].to == delivery.to@
            &&& match delivery.payload {
                Payload::Event(event) => outbox@[i].payload == PayloadView::Event(event@),
                Payload::Binary(bytes) => outbox@[i].payload == PayloadView::Binary(bytes@),
            }
        },
{
}

/// The model of an event shows what the event holds.
pub proof fn law_event_shows_its_fields(event: OutboundWsEvent)
    ensures
        match event {
            OutboundWsEvent::PrivateInfo(player) => event@ == EventView::PrivateInfo(player@),
            OutboundWsEvent::PlayerList(infos) => event@ matches EventView::PlayerList(list)
                && list.len() == infos@.len() && forall|i: int|
                0 <= i < infos@.len() ==> list[i] == (#[trigger] infos@[i])@,
            OutboundWsEvent::ServerMessage(text) => event@ == EventView::ServerMessage(text@),
            OutboundWsEvent::ChatMessage { name, text } => event@ == (EventView::ChatMessage {
                name: name@,
                text: text@,
            }),
            OutboundWsEvent::Answer(text) => event@ == EventView::Answer(text@),
            OutboundWsEvent::NewImage { dimensions, answer_hint } => event@
                == (EventView::NewImage { dimensions, answer_hint: answer_hint@ }),
            OutboundWsEvent::Circle(circle) => event@ == EventView::Circle(circle),
            OutboundWsEvent::CircleSequence(circles) => event@ == EventView::CircleSequence(
                circles@,
            ),
        },
{
}

/// A new room has its id, and nothing else.
pub proof fn law_new_room_is_empty(id: Seq<char>)
    ensures
        RoomView::empty(id).id == id,
        RoomView::empty(id).players.len() == 0,
        RoomView::empty(id).circles.len() == 0,
        RoomView::empty(id).image_dimensions is None,
        RoomView::empty(id).answer is None,
        RoomView::empty(id).image_data is None,
        RoomView::empty(id).cleanup_abort_handle is None,
{
}

/// A player is found by the private id exactly if nobody before has it, and nobody is found exactly
/// if nobody has it.
pub proof fn law_first_player_with_the_id_is_found(
    players: Seq<PlayerView>,
    private_id: Seq<char>,
    i: int,
)
    ensures
        find(players, private_id) == Some(i) <==> is_first(players, private_id, i),
        find(players, private_id) is None <==> is_nobody(players, private_id),
{
    lemma_search(players, private_id, 0);
}

/// An event for a room goes to all its players, one for a player to that player alone, and either
/// says what it is to say. A list of the players lists them all.
pub proof fn law_deliveries_reach_their_players(
    room: RoomView,
    player: PlayerView,
    event: EventView,
)
    ensures
        goes_to_all(to_room(room, event), room.players),
        tells(to_room(room, event), event),
        goes_to_one(to_player(player, event), player.sender),
        tells(to_player(player, event), event),
        lists_to_all(player_list(room), room.players),
{
}

/// A picture without circles is not sent; one with circles goes to the player, all circles in
/// order. An image goes to all players, and nothing does if there is none.
pub proof fn law_pictures_are_sent_if_there_are_any(player: PlayerView, room: RoomView)
    ensures
        room.circles.len() == 0 ==> current_circles(player, room).len() == 0,
        room.circles.len() > 0 ==> {
            &&& current_circles(player, room).len() == 1
            &&& goes_to_one(current_circles(player, room)[0], player.sender)
            &&& tells(current_circles(player, room)[0], EventView::CircleSequence(room.circles))
        },
        room.image_data is None ==> source_image(room).len() == 0,
        room.image_data matches Some(data) ==> {
            &&& source_image(room).len() == 1
            &&& goes_to_all(source_image(room)[0], room.players)
            &&& source_image(room)[0].payload == PayloadView::Binary(data)
        },
{
}

/// A client that joins is told the size of the picture and a hint if both are known, and nothing
/// otherwise.
pub proof fn law_newcomers_are_told_the_picture(room: RoomView, sender: u64)
    ensures
        room.image_dimensions is None || room.answer is None ==> welcome(room, sender).len() == 0,
        room.image_dimensions matches Some(size) ==> room.answer matches Some(answer) ==> {
            &&& welcome(room, sender).len() == 1
            &&& goes_to_one(welcome(room, sender)[0], sender)
            &&& tells_picture(welcome(room, sender)[0], size, answer)
        },
{
}

/// A new player has the name, the place as host and the connection given, has not answered, and has
/// ids of 36 characters.
pub proof fn law_new_player_has_not_answered(
    player: PlayerView,
    name: Seq<char>,
    is_host: bool,
    sender: u64,
)
    requires
        is_new_player(player, name, is_host, sender),
    ensures
        player.info.name == name,
        player.info.is_host == is_host,
        player.info.has_answer == false,
        player.sender == sender,
        player.info.public_id.len() == 36,
        player.private_id.len() == 36,
{
}

/// The first player of a room is to host, and nobody who comes later. Every newcomer has the name
/// and the connection given, and has not answered.
pub proof fn law_first_newcomer_hosts(
    room: RoomView,
    player: PlayerView,
    name: Seq<char>,
    sender: u64,
)
    requires
        is_newcomer(room, player, name, sender),
    ensures
        room.players.len() == 0 ==> player.info.is_host,
        room.players.len() > 0 ==> !player.info.is_host,
        player.info.name == name,
        !player.info.has_answer,
        player.sender == sender,
{
}

/// A client has given its name exactly if its first event is a name, and that is the name.
pub proof fn law_first_event_gives_the_name(event: InboundWsEvent)
    ensures
        given_name(None) is None,
        given_name(Some(event)) is Some <==> event is PlayerName,
        event matches InboundWsEvent::PlayerName(name) ==> given_name(Some(event)) == Some(name@),
{
}

/// An open room is found under its id until it is deleted, and opening or deleting it leaves all
/// other rooms alone.
pub proof fn law_rooms_are_kept_by_id<R>(
    rooms: Map<Seq<char>, R>,
    id: Seq<char>,
    room: R,
    other: Seq<char>,
)
    ensures
        with_room(rooms, id, room).contains_key(id),
        with_room(rooms, id, room)[id] == room,
        !without_room(rooms, id).contains_key(id),
        other != id ==> {
            &&& with_room(rooms, id, room).contains_key(other) <==> rooms.contains_key(other)
            &&& without_room(rooms, id).contains_key(other) <==> rooms.contains_key(other)
            &&& rooms.contains_key(other) ==> with_room(rooms, id, room)[other] == rooms[other]
                && without_room(rooms, id)[other] == rooms[other]
        },
{
}

/// A text is handled as an event and other bytes as an image, as they arrived; a connection that
/// has failed or was closed ends the visit, and nothing else does.
pub proof fn law_frames_lead_to_steps(frame: Frame)
    ensures
        frame matches Frame::Text(text) ==> step_after(frame) == Step::Event(text),
        frame matches Frame::Binary(bytes) ==> step_after(frame) == Step::Image(bytes),
        step_after(frame) is Leave <==> frame is Failed || frame is Closed,
{
}

/// Bytes become the source image, in place of the last one, and nothing else of the room changes.
pub proof fn law_images_are_kept(room: RoomView, bytes: Seq<u8>)
    ensures
        with_image(room, bytes).image_data == Some(bytes),
        with_image(room, bytes).id == room.id,
        with_image(room, bytes).players == room.players,
        with_image(room, bytes).circles == room.circles,
        with_image(room, bytes).image_dimensions == room.image_dimensions,
        with_image(room, bytes).answer == room.answer,
        with_image(room, bytes).cleanup_abort_handle == room.cleanup_abort_handle,
{
}

/// A player who joins is the last player, keeps all others in their places, and stops the cleanup.
/// Nothing else of the room changes.
pub proof fn law_joining_adds_the_player(
    before: RoomView,
    player: PlayerView,
    after: RoomView,
    aborted: Option<AbortedTask>,
    i: int,
)
    requires
        joins(before, player, after, aborted),
    ensures
        after.players.len() == before.players.len() + 1,
        after.players[before.players.len() as int] == player,
        0 <= i < before.players.len() ==> after.players[i] == before.players[i],
        after.id == before.id,
        after.circles == before.circles,
        after.image_dimensions == before.image_dimensions,
        after.answer == before.answer,
        after.image_data == before.image_data,
        after.cleanup_abort_handle is None,
        before.cleanup_abort_handle matches Some(handle) ==> aborted matches Some(task)
            && task.handle() == handle,
        before.cleanup_abort_handle is None ==> aborted is None,
        after == joined(before, player),
{
}

/// What is told when a player joins, in this order: the player's own ids to the player, the list of
/// the players to everyone, the circles to the player if there are any, and to everyone that the
/// player joined. Everyone includes the player.
pub proof fn law_joining_is_told(room: RoomView, player: PlayerView)
    ensures
        ({
            let told = joined_deliveries(room, player);
            let players = room.players.push(player);
            let news = EventView::ServerMessage(player.info.name + " joined"@);
            &&& told.len() == if room.circles.len() == 0 {
                3int
            } else {
                4
            }
            &&& goes_to_one(told[0], player.sender)
            &&& tells(told[0], EventView::PrivateInfo(player))
            &&& lists_to_all(told[1], players)
            &&& room.circles.len() > 0 ==> goes_to_one(told[2], player.sender) && tells(
                told[2],
                EventView::CircleSequence(room.circles),
            )
            &&& goes_to_all(told.last(), players)
            &&& tells(told.last(), news)
        }),
{
}

/// Leaving removes the first player with the private id: those before stay in their places, those
/// behind move up by one, and nothing else of the room changes.
pub proof fn law_leaving_removes_the_player(
    room: RoomView,
    private_id: Seq<char>,
    i: int,
    j: int,
)
    requires
        is_first(room.players, private_id, i),
    ensures
        left(room, private_id).players.len() == room.players.len() - 1,
        0 <= j < i ==> left(room, private_id).players[j] == room.players[j],
        i <= j < room.players.len() - 1 ==> left(room, private_id).players[j] == room.players[j
            + 1],
        same_but_players(left(room, private_id), room),
{
    law_first_player_with_the_id_is_found(room.players, private_id, i);
}

/// Nothing changes if nobody who has the private id leaves.
pub proof fn law_leaving_of_nobody_changes_nothing(room: RoomView, private_id: Seq<char>)
    requires
        is_nobody(room.players, private_id),
    ensures
        left(room, private_id) == room,
{
    law_first_player_with_the_id_is_found(room.players, private_id, 0);
}

/// When the last player leaves, the room waits for five minutes to be deleted, and nobody is told.
/// When others are left, the room does not start to wait, and each of them is told who is left.
pub proof fn law_last_player_to_leave_starts_the_cleanup(
    before: RoomView,
    private_id: Seq<char>,
    after: RoomView,
    cleanup: Option<CleanupTask>,
    i: int,
)
    requires
        is_first(before.players, private_id, i),
        leaves(before, private_id, after, cleanup),
    ensures
        before.players.len() == 1 ==> {
            &&& cleanup matches Some(task) && after.cleanup_abort_handle == Some(
                task.registration.handle(),
            ) && task.room_id@ == before.id && task.delay.secs == 5 * 60 && task.delay.nanos == 0
            &&& after.players.len() == 0
            &&& left_deliveries(before, private_id).len() == 0
        },
        before.players.len() > 1 ==> {
            &&& cleanup is None
            &&& after.cleanup_abort_handle == before.cleanup_abort_handle
            &&& after.players.len() == before.players.len() - 1
            &&& left_deliveries(before, private_id).len() == 1
            &&& lists_to_all(left_deliveries(before, private_id)[0], after.players)
        },
        after.id == before.id,
        after.circles == before.circles,
        after.image_dimensions == before.image_dimensions,
        after.answer == before.answer,
        after.image_data == before.image_data,
        forall|j: int| 0 <= j < i ==> #[trigger] after.players[j] == before.players[j],
        forall|j: int|
            i <= j < before.players.len() - 1 ==> #[trigger] after.players[j] == before.players[j
                + 1],
{
    law_first_player_with_the_id_is_found(before.players, private_id, i);
}

/// When nobody with the private id leaves, a room without players waits to be deleted, and the
/// players of any other room stay and are told who they are.
pub proof fn law_leaving_of_nobody(
    before: RoomView,
    private_id: Seq<char>,
    after: RoomView,
    cleanup: Option<CleanupTask>,
)
    requires
        is_nobody(before.players, private_id),
        leaves(before, private_id, after, cleanup),
    ensures
        cleanup is Some <==> before.players.len() == 0,
        before.players.len() > 0 ==> {
            &&& after == before
            &&& left_deliveries(before, private_id).len() == 1
            &&& lists_to_all(left_deliveries(before, private_id)[0], before.players)
        },
        before.players.len() == 0 ==> left_deliveries(before, private_id).len() == 0,
{
    law_first_player_with_the_id_is_found(before.players, private_id, 0);
}

/// A room that waits remembers the handle of the task that is to delete it, and nothing else of it
/// changes. The task is for the room's id and has the delay asked for.
pub proof fn law_waiting_room_remembers_its_task(
    before: RoomView,
    after: RoomView,
    delay: Delay,
    task: CleanupTask,
)
    requires
        waits(before, after, delay, task),
    ensures
        after.cleanup_abort_handle == Some(task.registration.handle()),
        after.id == before.id,
        after.players == before.players,
        after.circles == before.circles,
        after.image_dimensions == before.image_dimensions,
        after.answer == before.answer,
        after.image_data == before.image_data,
        task.room_id@ == before.id,
        task.delay.secs == delay.secs,
        task.delay.nanos == delay.nanos,
{
}

/// A room that no longer waits has no handle, and the task of the handle that it had, and no other,
/// was told to stop. Nothing else of the room changes.
pub proof fn law_room_that_stops_waiting_stops_its_task(
    before: RoomView,
    after: RoomView,
    aborted: Option<AbortedTask>,
)
    requires
        stops_waiting(before, after, aborted),
    ensures
        after.cleanup_abort_handle is None,
        after.id == before.id,
        after.players == before.players,
        after.circles == before.circles,
        after.image_dimensions == before.image_dimensions,
        after.answer == before.answer,
        after.image_data == before.image_data,
        before.cleanup_abort_handle matches Some(handle) ==> aborted matches Some(task)
            && task.handle() == handle,
        before.cleanup_abort_handle is None ==> aborted is None,
{
}

/// A new room is empty but for its id and the handle of its cleanup, which is due in five minutes.
pub proof fn law_opened_room_waits_for_five_minutes(new: NewRoom, id: Seq<char>)
    requires
        new.waits_as(id),
    ensures
        new.room@.id == id,
        new.room@.players.len() == 0,
        new.room@.circles.len() == 0,
        new.room@.image_dimensions is None,
        new.room@.answer is None,
        new.room@.image_data is None,
        new.room@.cleanup_abort_handle == Some(new.cleanup.registration.handle()),
        new.cleanup.room_id@ == id,
        new.cleanup.delay.secs == 5 * 60,
        new.cleanup.delay.nanos == 0,
{
}

/// A room id has seven characters, each a letter or a digit of ASCII.
pub proof fn law_room_id_has_seven_letters_or_digits(id: Seq<char>)
    ensures
        is_room_id(id) <==> id.len() == 7 && forall|i: int|
            0 <= i < 7 ==> ('0' <= #[trigger] id[i] && id[i] <= '9') || ('A' <= id[i] && id[i]
                <= 'Z') || ('a' <= id[i] && id[i] <= 'z'),
        is_drawn_room_id(id) ==> is_room_id(id),
{
}

/// The characters drawn for an id are its characters, one draw for each, in order.
pub proof fn law_drawn_characters_make_the_text(chars: Seq<RandomChar>, i: int)
    ensures
        drawn_text(chars).len() == chars.len(),
        0 <= i < chars.len() ==> drawn_text(chars)[i] == chars[i].character(),
{
}

/// The path of a room has its id between `/join/` and a slash, so different rooms have different
/// paths.
pub proof fn law_paths_tell_rooms_apart(a: Seq<char>, b: Seq<char>)
    ensures
        path_of(a) == "/join/"@ + a + "/"@,
        path_of(a) == path_of(b) ==> a == b,
{
    let (start, end) = ("/join/"@, "/"@);
    if path_of(a) == path_of(b) {
        assert(path_of(a).len() == start.len() + a.len() + end.len());
        assert(path_of(b).len() == start.len() + b.len() + end.len());
        assert(path_of(a).subrange(start.len() as int, (start.len() + a.len()) as int) =~= a);
        assert(path_of(b).subrange(start.len() as int, (start.len() + b.len()) as int) =~= b);
    }
}

/// A name that arrives later changes nothing and is not passed on.
pub proof fn law_later_names_are_ignored(room: RoomView, name: String, private_id: Seq<char>)
    ensures
        event_room(room, InboundWsEvent::PlayerName(name), private_id) == room,
        event_deliveries(room, InboundWsEvent::PlayerName(name), private_id).len() == 0,
        event_error(room, InboundWsEvent::PlayerName(name), private_id) is None,
        !lacks_host(room, InboundWsEvent::PlayerName(name), private_id),
{
}

/// A circle becomes the last circle of the picture and goes to everyone. Nothing else of the room
/// changes.
pub proof fn law_circles_are_kept_and_passed_on(
    room: RoomView,
    event: InboundWsEvent,
    private_id: Seq<char>,
    i: int,
)
    requires
        event is Circle,
    ensures
        event matches InboundWsEvent::Circle(circle) ==> {
            let after = event_room(room, event, private_id);
            let told = event_deliveries(room, event, private_id);
            &&& after.circles.len() == room.circles.len() + 1
            &&& after.circles.last() == circle
            &&& 0 <= i < room.circles.len() ==> after.circles[i] == room.circles[i]
            &&& after.id == room.id
            &&& after.players == room.players
            &&& after.image_dimensions == room.image_dimensions
            &&& after.answer == room.answer
            &&& after.image_data == room.image_data
            &&& after.cleanup_abort_handle == room.cleanup_abort_handle
            &&& told.len() == 1
            &&& goes_to_all(told[0], room.players)
            &&& tells(told[0], EventView::Circle(circle))
        },
        event_error(room, event, private_id) is None,
        !lacks_host(room, event, private_id),
{
}

/// A new image sets the size and the answer and clears the circles. Everyone is told the size and a
/// hint. Nothing else of the room changes.
pub proof fn law_new_images_start_a_picture(
    room: RoomView,
    event: InboundWsEvent,
    private_id: Seq<char>,
)
    requires
        event is NewImage,
    ensures
        event matches InboundWsEvent::NewImage { dimensions, answer } ==> {
            let after = event_room(room, event, private_id);
            let told = event_deliveries(room, event, private_id);
            &&& after.image_dimensions == Some(dimensions)
            &&& after.answer == Some(answer@)
            &&& after.circles.len() == 0
            &&& after.id == room.id
            &&& after.players == room.players
            &&& after.image_data == room.image_data
            &&& after.cleanup_abort_handle == room.cleanup_abort_handle
            &&& told.len() == 1
            &&& goes_to_all(told[0], room.players)
            &&& tells_picture(told[0], dimensions, answer@)
        },
        event_error(room, event, private_id) is None,
        !lacks_host(room, event, private_id),
{
}

/// A chat event is handled as the chat message that it holds, with the lower-case form of that.
pub proof fn law_chat_events_are_chat_messages(
    room: RoomView,
    event: InboundWsEvent,
    private_id: Seq<char>,
)
    requires
        event is ChatMessage,
    ensures
        event matches InboundWsEvent::ChatMessage(text) ==> {
            let lowered = lowercase(text@);
            &&& event_room(room, event, private_id) == chat_room(room, text@, lowered, private_id)
            &&& event_deliveries(room, event, private_id) == chat_deliveries(
                room,
                text@,
                lowered,
                private_id,
            )
            &&& event_error(room, event, private_id) == chat_error(room, text@, private_id)
            &&& lacks_host(room, event, private_id) <==> ends_round(
                room,
                text@,
                lowered,
                private_id,
            ) && forall|j: int|
                0 <= j < room.players.len() ==> !(#[trigger] room.players[j]).info.is_host
        },
{
}

} // verus!
