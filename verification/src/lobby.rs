//! Opening rooms, joining them and deleting them.

use vstd::hash_map::StringHashMap;
use vstd::prelude::*;

use crate::cleanup::{AbortedTask, CleanupTask, Delay};
use crate::events::{
    is_new_player, Delivery, DeliveryView, EventView, InboundWsEvent, OutboundWsEvent, Outbox, Payload,
    PayloadView, Player, PlayerView,
};
use crate::random::{is_alphanumeric, is_drawn_uuid, sample_alphanumeric, RandomChar};
use crate::room::{
    broadcast_player_list, broadcast_server_message, current_circles, player_list,
    send_current_circles, send_private_info, stops_waiting, to_player, to_room, waits, Room,
    RoomView,
};
use crate::text::{hint, make_hint};

verus! {

/// How many characters a room id has.
pub const ROOM_ID_LENGTH: usize = 7;

/// For how long a room without players waits to be deleted, in seconds.
pub const CLEANUP_DELAY_SECS: u64 = 300;

/// The open rooms by their ids.
#[verifier::reject_recursive_types(R)]
pub struct Rooms<R> {
    rooms: StringHashMap<R>,
}

impl<R> View for Rooms<R> {
    type V = Map<Seq<char>, R>;

    closed spec fn view(&self) -> Map<Seq<char>, R> {
        self.rooms@
    }
}

/// The path under which a room is joined.
pub open spec fn path_of(room_id: Seq<char>) -> Seq<char> {
    "/join/"@ + room_id + "/"@
}

/// The path under which a room is joined.
pub fn join_path(room_id: &str) -> (path: String)
    ensures
        path@ == path_of(room_id@),
{
    let mut path: String = "/join/".to_owned();
    path.append(room_id);
    path.append("/");
    path
}

/// The rooms once this room is open under the id, in place of one that had it.
pub open spec fn with_room<R>(
    rooms: Map<Seq<char>, R>,
    room_id: Seq<char>,
    room: R,
) -> Map<Seq<char>, R> {
    rooms.insert(room_id, room)
}

/// The rooms once the one with this id, if there is one, is deleted.
pub open spec fn without_room<R>(
    rooms: Map<Seq<char>, R>,
    room_id: Seq<char>,
) -> Map<Seq<char>, R> {
    rooms.remove(room_id)
}

impl<R> Rooms<R> {
    /// No open rooms.
    pub fn new() -> (rooms: Rooms<R>)
        ensures
            rooms@ == Map::<Seq<char>, R>::empty(),
    {
        Rooms { rooms: StringHashMap::new() }
    }

    /// How many rooms are open.
    pub fn len(&self) -> (n: usize)
        ensures
            n == self@.len(),
    {
        self.rooms.len()
    }

    /// The room with this id.
    pub fn get(&self, room_id: &str) -> (room: Option<&R>)
        ensures
            match room {
                Some(r) => self@.contains_key(room_id@) && *r == self@[room_id@],
                None => !self@.contains_key(room_id@),
            },
    {
        self.rooms.get(room_id)
    }

    /// Opens a room under an id, in place of one that has that id, and returns the path under
    /// which it is joined.
    pub fn open(&mut self, room_id: &str, room: R) -> (path: String)
        ensures
            final(self)@ == old(self)@.insert(room_id@, room),
            final(self)@ == with_room(old(self)@, room_id@, room),
            path@ == path_of(room_id@),
    {
        self.rooms.insert(room_id.to_owned(), room);
        join_path(room_id)
    }
}

/// Deletes the room with this id, if there is one.
pub fn delete_room<R>(rooms: &mut Rooms<R>, room_id: &str)
    ensures
        final(rooms)@ == old(rooms)@.remove(room_id@),
        final(rooms)@ == without_room(old(rooms)@, room_id@),
{
    rooms.rooms.remove(room_id);
}

/// Whether a text is a room id: seven letters or digits.
pub open spec fn is_room_id(id: Seq<char>) -> bool {
    id.len() == ROOM_ID_LENGTH && forall|i: int| 0 <= i < id.len() ==> is_alphanumeric(
        #[trigger] id[i],
    )
}

/// The text of the characters drawn.
pub open spec fn drawn_text(chars: Seq<RandomChar>) -> Seq<char> {
    chars.map_values(|c: RandomChar| c.character())
}

/// Whether a text is a room id made of characters that were drawn.
pub open spec fn is_drawn_room_id(id: Seq<char>) -> bool {
    &&& is_room_id(id)
    &&& exists|chars: Seq<RandomChar>| #[trigger] drawn_text(chars) == id
}

/// Draws the characters of a room id.
fn draw_room_id() -> (chars: Vec<RandomChar>)
    ensures
        is_room_id(drawn_text(chars@)),
{
    let mut chars: Vec<RandomChar> = Vec::new();
    let mut i: usize = 0;
    while i < ROOM_ID_LENGTH
        invariant
            i <= ROOM_ID_LENGTH,
            chars@.len() == i,
            forall|j: int| 0 <= j < i ==> is_alphanumeric((#[trigger] chars@[j]).character()),
        decreases ROOM_ID_LENGTH - i,
    {
        chars.push(sample_alphanumeric());
        i = i + 1;
    }
    chars
}

/// The text of the characters drawn.
fn text_of_draws(chars: &Vec<RandomChar>) -> (text: String)
    ensures
        text@ == drawn_text(chars@),
{
    let mut text: String = String::new();
    let mut i: usize = 0;
    while i < chars.len()
        invariant
            i <= chars@.len(),
            text@ == drawn_text(chars@).take(i as int),
        decreases chars@.len() - i,
    {
        text.push(chars[i].get());
        i = i + 1;
        assert(text@ =~= drawn_text(chars@).take(i as int));
    }
    assert(drawn_text(chars@).take(i as int) =~= drawn_text(chars@));
    text
}

/// A room that nobody has joined, with the task that deletes it unless somebody does in time.
pub struct NewRoom {
    pub room: Room,
    pub cleanup: CleanupTask,
}

impl NewRoom {
    /// The room is empty and waits under this id, to be deleted after the usual delay by the
    /// task whose handle it remembers.
    pub open spec fn waits_as(self, id: Seq<char>) -> bool {
        waits(
            RoomView::empty(id),
            self.room@,
            Delay { secs: CLEANUP_DELAY_SECS, nanos: 0 },
            self.cleanup,
        )
    }
}

/// An empty room with this id.
pub fn new_room_with_id(room_id: String) -> (new: NewRoom)
    ensures
        new.waits_as(room_id@),
{
    let mut room = Room::new(room_id);
    let cleanup = room.wait_then_cleanup(Delay { secs: CLEANUP_DELAY_SECS, nanos: 0 });
    NewRoom { room, cleanup }
}

/// An empty room with a random id.
pub fn new_room() -> (new: NewRoom)
    ensures
        is_drawn_room_id(new.room@.id),
        new.waits_as(new.room@.id),
{
    let chars = draw_room_id();
    new_room_with_id(text_of_draws(&chars))
}

/// The name in a client's first event, or nothing if that is no name.
pub open spec fn given_name(first: Option<InboundWsEvent>) -> Option<Seq<char>> {
    match first {
        Some(InboundWsEvent::PlayerName(name)) => Some(name@),
        _ => None,
    }
}

/// The name in a client's first event, or nothing if that is no name.
pub fn wait_for_name(first: Option<InboundWsEvent>) -> (name: Option<String>)
    ensures
        match first {
            Some(InboundWsEvent::PlayerName(n)) => name == Some(n),
            _ => name is None,
        },
        match name {
            Some(n) => given_name(first) == Some(n@),
            None => given_name(first) is None,
        },
{
    match first {
        Some(InboundWsEvent::PlayerName(name)) => Some(name),
        _ => None,
    }
}

/// What a new player is told about the picture: its size and a hint, if there is a picture.
pub open spec fn welcome(room: RoomView, sender: u64) -> Seq<DeliveryView> {
    match (room.image_dimensions, room.answer) {
        (Some(dimensions), Some(answer)) => seq![
            DeliveryView {
                to: seq![sender],
                payload: PayloadView::Event(
                    EventView::NewImage { dimensions, answer_hint: hint(answer) },
                ),
            },
        ],
        _ => Seq::empty(),
    }
}

/// Whether the player is a newcomer to the room with this name and connection, who is to host
/// exactly if the room is empty.
pub open spec fn is_newcomer(
    room: RoomView,
    player: PlayerView,
    name: Seq<char>,
    sender: u64,
) -> bool {
    is_new_player(player, name, room.players.len() == 0, sender)
}

/// Makes a player of a client that has given its name: tells it about the picture, and makes it
/// the host if the room is empty.
pub fn player_connected(
    room: &Room,
    name: String,
    sender: u64,
    outbox: &mut Outbox,
) -> (player: Player)
    ensures
        final(outbox)@ == old(outbox)@ + welcome(room@, sender),
        player.info.name == name,
        player.info.is_host == (room@.players.len() == 0),
        !player.info.has_answer,
        player.sender == sender,
        is_drawn_uuid(player.info.public_id@),
        is_drawn_uuid(player.private_id@),
        is_newcomer(room@, player@, name@, sender),
{
    match (&room.image_dimensions, &room.answer) {
        (Some(dimensions), Some(answer)) => {
            let answer_hint = make_hint(answer.as_str());
            let to: Vec<u64> = vec![sender];
            assert(to@ =~= seq![sender]);
            outbox.push(
                Delivery {
                    to,
                    payload: Payload::Event(
                        OutboundWsEvent::NewImage { dimensions: *dimensions, answer_hint },
                    ),
                },
            );
        },
        _ => {},
    }
    assert(outbox@ =~= old(outbox)@ + welcome(room@, sender));
    let is_host: bool = room.players.is_empty();
    Player::new(name, is_host, sender)
}

/// The room once the player has joined.
pub open spec fn joined(room: RoomView, player: PlayerView) -> RoomView {
    RoomView { players: room.players.push(player), cleanup_abort_handle: None, ..room }
}

/// Whether the room, once the player has joined, is `after`, and the task that would have deleted
/// it, if there was one, was told to stop.
pub open spec fn joins(
    before: RoomView,
    player: PlayerView,
    after: RoomView,
    aborted: Option<AbortedTask>,
) -> bool {
    &&& stops_waiting(before, RoomView { cleanup_abort_handle: None, ..before }, aborted)
    &&& after == joined(before, player)
}

/// What is sent when a player joins: the player's ids and the circles to the player, and the
/// players and the news to everyone.
pub open spec fn joined_deliveries(room: RoomView, player: PlayerView) -> Seq<DeliveryView> {
    let after = joined(room, player);
    seq![to_player(player, EventView::PrivateInfo(player)), player_list(after)] + current_circles(
        player,
        after,
    ) + seq![to_room(after, EventView::ServerMessage(player.info.name + " joined"@))]
}

/// Lets a player join the room: stops the task that would delete the room, adds the player, and
/// tells the player and everyone else.
pub fn connect_player(
    room: &mut Room,
    player: Player,
    outbox: &mut Outbox,
) -> (aborted: Option<AbortedTask>)
    ensures
        joins(old(room)@, player@, final(room)@, aborted),
        final(outbox)@ == old(outbox)@ + joined_deliveries(old(room)@, player@),
{
    let ghost joining = player@;
    let aborted = room.cancel_cleanup();
    room.insert_player(player);
    let last: usize = room.players.len() - 1;
    let player = &room.players[last];
    assert(player@ == room@.players[last as int]);
    send_private_info(player, outbox);
    broadcast_player_list(room, outbox);
    send_current_circles(player, room, outbox);
    let mut news: String = player.info.name.clone();
    news.append(" joined");
    broadcast_server_message(news.as_str(), room, outbox);
    assert(outbox@ =~= old(outbox)@ + joined_deliveries(old(room)@, joining));
    aborted
}

} // verus!
