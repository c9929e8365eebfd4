//! Rooms: their players, their picture, and what is sent to the players.

use futures::future::AbortHandle;
use vstd::prelude::*;

use crate::cleanup::{abort, new_pair, AbortedTask, CleanupTask, Delay};
use crate::events::{
    player_views, Delivery, DeliveryView, EventView, OutboundWsEvent, Outbox, Payload, PayloadView,
    Player, PlayerInfo, PlayerInfoView, PlayerView,
};
use crate::random_shape::RandomCircle;

verus! {

/// A room in which a game is played.
pub struct Room {
    pub id: String,
    pub players: Vec<Player>,
    pub circles: Vec<RandomCircle>,
    pub image_dimensions: Option<(u32, u32)>,
    pub answer: Option<String>,
    pub image_data: Option<Vec<u8>>,
    pub cleanup_abort_handle: Option<AbortHandle>,
}

/// The model of `Room`.
#[verifier::ext_equal]
pub struct RoomView {
    pub id: Seq<char>,
    pub players: Seq<PlayerView>,
    pub circles: Seq<RandomCircle>,
    pub image_dimensions: Option<(u32, u32)>,
    pub answer: Option<Seq<char>>,
    pub image_data: Option<Seq<u8>>,
    pub cleanup_abort_handle: Option<AbortHandle>,
}

impl View for Room {
    type V = RoomView;

    open spec fn view(&self) -> RoomView {
        RoomView {
            id: self.id@,
            players: player_views(self.players@),
            circles: self.circles@,
            image_dimensions: self.image_dimensions,
            answer: match self.answer {
                Some(answer) => Some(answer@),
                None => None,
            },
            image_data: match self.image_data {
                Some(data) => Some(data@),
                None => None,
            },
            cleanup_abort_handle: self.cleanup_abort_handle,
        }
    }
}

impl RoomView {
    /// A room without players or picture.
    pub open spec fn empty(id: Seq<char>) -> RoomView {
        RoomView {
            id,
            players: Seq::empty(),
            circles: Seq::empty(),
            image_dimensions: None,
            answer: None,
            image_data: None,
            cleanup_abort_handle: None,
        }
    }
}

/// Whether the room, once it waits to be deleted by the task after the delay, is `after`: it
/// remembers the handle that aborts that task, and is unchanged otherwise.
pub open spec fn waits(before: RoomView, after: RoomView, delay: Delay, task: CleanupTask) -> bool {
    &&& after == (RoomView { cleanup_abort_handle: Some(task.registration.handle()), ..before })
    &&& task.room_id@ == before.id
    &&& task.delay == delay
}

/// Whether the room, once it no longer waits to be deleted, is `after`, and the task that would
/// have deleted it, if there was one, was told to stop.
pub open spec fn stops_waiting(
    before: RoomView,
    after: RoomView,
    aborted: Option<AbortedTask>,
) -> bool {
    &&& after == (RoomView { cleanup_abort_handle: None, ..before })
    &&& match before.cleanup_abort_handle {
        Some(handle) => aborted matches Some(task) && task.handle() == handle,
        None => aborted is None,
    }
}

/// The position, from `from` on, of the first player with this private id.
pub open spec fn search(players: Seq<PlayerView>, private_id: Seq<char>, from: int) -> Option<int>
    decreases players.len() - from,
{
    if from < 0 || from >= players.len() {
        None
    } else if players[from].private_id == private_id {
        Some(from)
    } else {
        search(players, private_id, from + 1)
    }
}

/// The position of the first player with this private id.
pub open spec fn find(players: Seq<PlayerView>, private_id: Seq<char>) -> Option<int> {
    search(players, private_id, 0)
}

/// What `search` finds is the first player with the id, and it misses none.
pub proof fn lemma_search(players: Seq<PlayerView>, private_id: Seq<char>, from: int)
    requires
        0 <= from,
    ensures
        match search(players, private_id, from) {
            Some(i) => {
                &&& from <= i < players.len()
                &&& players[i].private_id == private_id
                &&& forall|j: int| from <= j < i ==> (#[trigger] players[j]).private_id
                    != private_id
            },
            None => forall|j: int|
                from <= j < players.len() ==> (#[trigger] players[j]).private_id != private_id,
        },
    decreases players.len() - from,
{
    if from < players.len() && players[from].private_id != private_id {
        lemma_search(players, private_id, from + 1);
    }
}

impl Room {
    /// A room without players or picture.
    pub fn new(id: String) -> (room: Room)
        ensures
            room@ == RoomView::empty(id@),
    {
        let room = Room {
            id,
            players: Vec::new(),
            circles: Vec::new(),
            image_dimensions: None,
            answer: None,
            image_data: None,
            cleanup_abort_handle: None,
        };
        assert(room@ =~= RoomView::empty(id@));
        room
    }

    /// Remembers the handle of the task that will delete the room.
    pub fn arm_cleanup(&mut self, handle: AbortHandle)
        ensures
            final(self)@ == (RoomView { cleanup_abort_handle: Some(handle), ..old(self)@ }),
    {
        self.cleanup_abort_handle = Some(handle);
    }

    /// Makes a task that deletes the room after a delay, and remembers the handle that aborts it.
    pub fn wait_then_cleanup(&mut self, delay: Delay) -> (task: CleanupTask)
        ensures
            waits(old(self)@, final(self)@, delay, task),
    {
        let (abort_handle, registration) = new_pair();
        let room_id = self.id.clone();
        self.arm_cleanup(abort_handle);
        CleanupTask { room_id, delay, registration }
    }

    /// Aborts the task that would delete the room, if there is one.
    pub fn cancel_cleanup(&mut self) -> (aborted: Option<AbortedTask>)
        ensures
            stops_waiting(old(self)@, final(self)@, aborted),
    {
        match self.cleanup_abort_handle.take() {
            Some(handle) => Some(abort(handle)),
            None => None,
        }
    }

    /// Adds a player after all others.
    pub fn insert_player(&mut self, player: Player)
        ensures
            final(self)@ == (RoomView { players: old(self)@.players.push(player@), ..old(self)@ }),
    {
        self.players.push(player);
        assert(self@.players =~= old(self)@.players.push(player@));
    }

    /// The position of the first player with this private id.
    pub(crate) fn position(&self, private_id: &str) -> (found: Option<usize>)
        ensures
            match found {
                Some(i) => i < self.players@.len() && find(self@.players, private_id@) == Some(
                    i as int,
                ),
                None => find(self@.players, private_id@) is None,
            },
    {
        let wanted: String = private_id.to_owned();
        let mut i: usize = 0;
        while i < self.players.len()
            invariant
                i <= self.players@.len(),
                wanted@ == private_id@,
                find(self@.players, private_id@) == search(
                    self@.players,
                    private_id@,
                    i as int,
                ),
            decreases self.players@.len() - i,
        {
            if self.players[i].private_id == wanted {
                return Some(i);
            }
            i = i + 1;
        }
        None
    }

    /// The first player with this private id.
    pub fn get_player(&self, private_id: &str) -> (player: Option<&Player>)
        ensures
            match find(self@.players, private_id@) {
                Some(i) => player matches Some(p) && *p == self.players@[i],
                None => player is None,
            },
    {
        match self.position(private_id) {
            Some(i) => Some(&self.players[i]),
            None => None,
        }
    }

    /// The first player with this private id, to be changed.
    pub fn get_player_mut(&mut self, private_id: &str) -> (player: Option<&mut Player>)
        ensures
            match find(old(self)@.players, private_id@) {
                Some(i) => player matches Some(p) && *p == old(self).players@[i]
                    && final(self)@ == (RoomView {
                    players: old(self)@.players.update(i, (*final(p))@),
                    ..old(self)@
                }),
                None => player is None && *final(self) == *old(self),
            },
    {
        match self.position(private_id) {
            Some(i) => Some(&mut self.players[i]),
            None => None,
        }
    }

    /// Removes the first player with this private id, if there is one.
    pub fn remove_player(&mut self, private_id: &str) -> (removed: Option<Player>)
        ensures
            match find(old(self)@.players, private_id@) {
                Some(i) => removed == Some(old(self).players@[i]) && final(self)@ == (RoomView {
                    players: old(self)@.players.remove(i),
                    ..old(self)@
                }),
                None => removed is None && *final(self) == *old(self),
            },
    {
        match self.position(private_id) {
            Some(i) => {
                let removed = self.players.remove(i);
                assert(self@.players =~= old(self)@.players.remove(i as int));
                Some(removed)
            },
            None => None,
        }
    }

    /// Starts a new picture: its size and answer are set, and the circles of the last one go.
    pub fn start_image(&mut self, dimensions: (u32, u32), answer: String)
        ensures
            final(self)@ == (RoomView {
                image_dimensions: Some(dimensions),
                answer: Some(answer@),
                circles: Seq::empty(),
                ..old(self)@
            }),
    {
        self.image_dimensions = Some(dimensions);
        self.answer = Some(answer);
        self.circles.clear();
    }

    /// Adds a circle to the picture.
    pub fn add_circle(&mut self, circle: RandomCircle)
        ensures
            final(self)@ == (RoomView { circles: old(self)@.circles.push(circle), ..old(self)@ }),
    {
        self.circles.push(circle);
    }
}

/// The connections of some players.
pub open spec fn senders(players: Seq<PlayerView>) -> Seq<u64> {
    players.map_values(|p: PlayerView| p.sender)
}

/// The public information of some players.
pub open spec fn infos(players: Seq<PlayerView>) -> Seq<PlayerInfoView> {
    players.map_values(|p: PlayerView| p.info)
}

/// An event for one player.
pub open spec fn to_player(player: PlayerView, event: EventView) -> DeliveryView {
    DeliveryView { to: seq![player.sender], payload: PayloadView::Event(event) }
}

/// An event for every player of a room.
pub open spec fn to_room(room: RoomView, event: EventView) -> DeliveryView {
    DeliveryView { to: senders(room.players), payload: PayloadView::Event(event) }
}

/// The list of the players, for every player of the room.
pub open spec fn player_list(room: RoomView) -> DeliveryView {
    to_room(room, EventView::PlayerList(infos(room.players)))
}

/// The circles of the room's picture for one player; nothing if there are none.
pub open spec fn current_circles(player: PlayerView, room: RoomView) -> Seq<DeliveryView> {
    if room.circles.len() == 0 {
        Seq::empty()
    } else {
        seq![to_player(player, EventView::CircleSequence(room.circles))]
    }
}

/// The source image for every player of the room; nothing if there is none.
pub open spec fn source_image(room: RoomView) -> Seq<DeliveryView> {
    match room.image_data {
        Some(data) => seq![
            DeliveryView { to: senders(room.players), payload: PayloadView::Binary(data) },
        ],
        None => Seq::empty(),
    }
}

/// The connections of the room's players.
fn room_senders(room: &Room) -> (to: Vec<u64>)
    ensures
        to@ == senders(room@.players),
{
    let mut to: Vec<u64> = Vec::new();
    let mut i: usize = 0;
    while i < room.players.len()
        invariant
            i <= room.players@.len(),
            to@.len() == i,
            forall|j: int| 0 <= j < i ==> to@[j] == senders(room@.players)[j],
        decreases room.players@.len() - i,
    {
        to.push(room.players[i].sender);
        i = i + 1;
    }
    assert(to@ =~= senders(room@.players));
    to
}

/// Sends an event to a single player.
pub fn send_ws_event(event: OutboundWsEvent, player: &Player, outbox: &mut Outbox)
    ensures
        final(outbox)@ == old(outbox)@.push(to_player(player@, event@)),
{
    let to: Vec<u64> = vec![player.sender];
    assert(to@ =~= seq![player.sender]);
    outbox.push(Delivery { to, payload: Payload::Event(event) });
}

/// Sends a player the circles of the room's picture, unless there are none.
pub fn send_current_circles(player: &Player, room: &Room, outbox: &mut Outbox)
    ensures
        final(outbox)@ == old(outbox)@ + current_circles(player@, room@),
{
    if room.circles.is_empty() {
        assert(outbox@ =~= old(outbox)@ + current_circles(player@, room@));
        return;
    }
    let circles = room.circles.clone();
    assert(circles@ =~= room.circles@);
    send_ws_event(OutboundWsEvent::CircleSequence(circles), player, outbox);
    assert(outbox@ =~= old(outbox)@ + current_circles(player@, room@));
}

/// Tells a player the player's own ids.
pub fn send_private_info(player: &Player, outbox: &mut Outbox)
    ensures
        final(outbox)@ == old(outbox)@.push(
            to_player(player@, EventView::PrivateInfo(player@)),
        ),
{
    send_ws_event(OutboundWsEvent::PrivateInfo(player.clone()), player, outbox);
}

/// Tells a player the answer that the player has found.
pub fn send_player_correct_answer(player: &Player, answer: &str, outbox: &mut Outbox)
    ensures
        final(outbox)@ == old(outbox)@.push(to_player(player@, EventView::Answer(answer@))),
{
    send_ws_event(OutboundWsEvent::Answer(answer.to_owned()), player, outbox);
}

/// Sends an event to every player of a room.
pub fn broadcast_ws_event(event: OutboundWsEvent, room: &Room, outbox: &mut Outbox)
    ensures
        final(outbox)@ == old(outbox)@.push(to_room(room@, event@)),
{
    outbox.push(Delivery { to: room_senders(room), payload: Payload::Event(event) });
}

/// Sends every player of a room the list of the players.
pub fn broadcast_player_list(room: &Room, outbox: &mut Outbox)
    ensures
        final(outbox)@ == old(outbox)@.push(player_list(room@)),
{
    let mut list: Vec<PlayerInfo> = Vec::new();
    let mut i: usize = 0;
    while i < room.players.len()
        invariant
            i <= room.players@.len(),
            list@.len() == i,
            forall|j: int| 0 <= j < i ==> list@[j] == room.players@[j].info,
        decreases room.players@.len() - i,
    {
        list.push(room.players[i].info.clone());
        i = i + 1;
    }
    assert(list@.map_values(|i: PlayerInfo| i@) =~= infos(room@.players));
    broadcast_ws_event(OutboundWsEvent::PlayerList(list), room, outbox);
}

/// Sends every player of a room a message from the server.
pub fn broadcast_server_message(message: &str, room: &Room, outbox: &mut Outbox)
    ensures
        final(outbox)@ == old(outbox)@.push(to_room(room@, EventView::ServerMessage(message@))),
{
    broadcast_ws_event(OutboundWsEvent::ServerMessage(message.to_owned()), room, outbox);
}

/// Sends every player of a room the source image, if there is one.
pub fn broadcast_source_image(room: &Room, outbox: &mut Outbox)
    ensures
        final(outbox)@ == old(outbox)@ + source_image(room@),
{
    if let Some(image_data) = &room.image_data {
        let data = image_data.clone();
        assert(data@ =~= image_data@);
        outbox.push(Delivery { to: room_senders(room), payload: Payload::Binary(data) });
    }
    assert(outbox@ =~= old(outbox)@ + source_image(room@));
}

} // verus!
