//! Players, what the server and its clients tell each other, and who is told.

use vstd::prelude::*;

use crate::random::{is_drawn_uuid, new_uuid};
use crate::random_shape::RandomCircle;

verus! {

/// What every player may know about a player.
#[derive(Debug)]
pub struct PlayerInfo {
    pub name: String,
    pub public_id: String,
    pub is_host: bool,
    pub has_answer: bool,
}

/// The model of `PlayerInfo`.
#[verifier::ext_equal]
pub struct PlayerInfoView {
    pub name: Seq<char>,
    pub public_id: Seq<char>,
    pub is_host: bool,
    pub has_answer: bool,
}

impl View for PlayerInfo {
    type V = PlayerInfoView;

    open spec fn view(&self) -> PlayerInfoView {
        PlayerInfoView {
            name: self.name@,
            public_id: self.public_id@,
            is_host: self.is_host,
            has_answer: self.has_answer,
        }
    }
}

impl Clone for PlayerInfo {
    fn clone(&self) -> (copy: Self)
        ensures
            copy == *self,
    {
        PlayerInfo {
            name: self.name.clone(),
            public_id: self.public_id.clone(),
            is_host: self.is_host,
            has_answer: self.has_answer,
        }
    }
}

/// A player: the private id that only the player knows, the public information, and the number of
/// the connection over which the player is reached.
#[derive(Debug)]
pub struct Player {
    pub private_id: String,
    pub info: PlayerInfo,
    pub sender: u64,
}

/// The model of `Player`.
#[verifier::ext_equal]
pub struct PlayerView {
    pub private_id: Seq<char>,
    pub info: PlayerInfoView,
    pub sender: u64,
}

impl View for Player {
    type V = PlayerView;

    open spec fn view(&self) -> PlayerView {
        PlayerView { private_id: self.private_id@, info: self.info@, sender: self.sender }
    }
}

impl Clone for Player {
    fn clone(&self) -> (copy: Self)
        ensures
            copy == *self,
    {
        Player {
            private_id: self.private_id.clone(),
            info: self.info.clone(),
            sender: self.sender,
        }
    }
}

/// Whether the player is a new one with this name, hosting or not, over this connection: it has not
/// answered, and both its ids were drawn.
pub open spec fn is_new_player(
    player: PlayerView,
    name: Seq<char>,
    is_host: bool,
    sender: u64,
) -> bool {
    &&& player.info.name == name
    &&& player.info.is_host == is_host
    &&& !player.info.has_answer
    &&& player.sender == sender
    &&& is_drawn_uuid(player.info.public_id)
    &&& is_drawn_uuid(player.private_id)
}

impl Player {
    /// A player with fresh random ids who has not answered.
    pub fn new(name: String, is_host: bool, sender: u64) -> (player: Player)
        ensures
            player.info.name == name,
            player.info.is_host == is_host,
            !player.info.has_answer,
            player.sender == sender,
            is_drawn_uuid(player.info.public_id@),
            is_drawn_uuid(player.private_id@),
            is_new_player(player@, name@, is_host, sender),
    {
        let public_id = new_uuid();
        let private_id = new_uuid();
        Player::with_ids(name, is_host, sender, public_id.into_text(), private_id.into_text())
    }

    /// A player with the given ids who has not answered.
    pub fn with_ids(
        name: String,
        is_host: bool,
        sender: u64,
        public_id: String,
        private_id: String,
    ) -> (player: Player)
        ensures
            player == (Player {
                private_id,
                info: PlayerInfo { name, public_id, is_host, has_answer: false },
                sender,
            }),
    {
        let info = PlayerInfo { name, public_id, is_host, has_answer: false };
        Player { private_id, info, sender }
    }
}

/// The models of some players.
pub open spec fn player_views(players: Seq<Player>) -> Seq<PlayerView> {
    players.map_values(|p: Player| p@)
}

/// What a client tells the server.
#[derive(Debug)]
pub enum InboundWsEvent {
    PlayerName(String),
    ChatMessage(String),
    Circle(RandomCircle),
    NewImage { dimensions: (u32, u32), answer: String },
}

/// What the server tells a client.
#[derive(Debug)]
pub enum OutboundWsEvent {
    PrivateInfo(Player),
    PlayerList(Vec<PlayerInfo>),
    ServerMessage(String),
    ChatMessage { name: String, text: String },
    Answer(String),
    NewImage { dimensions: (u32, u32), answer_hint: String },
    Circle(RandomCircle),
    CircleSequence(Vec<RandomCircle>),
}

/// The model of `OutboundWsEvent`.
pub enum EventView {
    PrivateInfo(PlayerView),
    PlayerList(Seq<PlayerInfoView>),
    ServerMessage(Seq<char>),
    ChatMessage { name: Seq<char>, text: Seq<char> },
    Answer(Seq<char>),
    NewImage { dimensions: (u32, u32), answer_hint: Seq<char> },
    Circle(RandomCircle),
    CircleSequence(Seq<RandomCircle>),
}

impl View for OutboundWsEvent {
    type V = EventView;

    open spec fn view(&self) -> EventView {
        match *self {
            OutboundWsEvent::PrivateInfo(player) => EventView::PrivateInfo(player@),
            OutboundWsEvent::PlayerList(infos) => EventView::PlayerList(
                infos@.map_values(|i: PlayerInfo| i@),
            ),
            OutboundWsEvent::ServerMessage(text) => EventView::ServerMessage(text@),
            OutboundWsEvent::ChatMessage { name, text } => EventView::ChatMessage {
                name: name@,
                text: text@,
            },
            OutboundWsEvent::Answer(text) => EventView::Answer(text@),
            OutboundWsEvent::NewImage { dimensions, answer_hint } => EventView::NewImage {
                dimensions,
                answer_hint: answer_hint@,
            },
            OutboundWsEvent::Circle(circle) => EventView::Circle(circle),
            OutboundWsEvent::CircleSequence(circles) => EventView::CircleSequence(circles@),
        }
    }
}

/// What goes over a connection: an event, or the bytes of an image.
#[derive(Debug)]
pub enum Payload {
    Event(OutboundWsEvent),
    Binary(Vec<u8>),
}

/// The model of `Payload`.
pub enum PayloadView {
    Event(EventView),
    Binary(Seq<u8>),
}

impl View for Payload {
    type V = PayloadView;

    open spec fn view(&self) -> PayloadView {
        match *self {
            Payload::Event(event) => PayloadView::Event(event@),
            Payload::Binary(bytes) => PayloadView::Binary(bytes@),
        }
    }
}

/// One payload to be sent over each of some connections, in order.
#[derive(Debug)]
pub struct Delivery {
    pub to: Vec<u64>,
    pub payload: Payload,
}

/// The model of `Delivery`.
pub struct DeliveryView {
    pub to: Seq<u64>,
    pub payload: PayloadView,
}

impl View for Delivery {
    type V = DeliveryView;

    open spec fn view(&self) -> DeliveryView {
        DeliveryView { to: self.to@, payload: self.payload@ }
    }
}

/// What is to be sent, in order.
#[derive(Debug)]
pub struct Outbox {
    pub deliveries: Vec<Delivery>,
}

impl View for Outbox {
    type V = Seq<DeliveryView>;

    open spec fn view(&self) -> Seq<DeliveryView> {
        self.deliveries@.map_values(|d: Delivery| d@)
    }
}

impl Outbox {
    /// Nothing to be sent.
    pub fn new() -> (outbox: Outbox)
        ensures
            outbox@ == Seq::<DeliveryView>::empty(),
    {
        let outbox = Outbox { deliveries: Vec::new() };
        assert(outbox@ =~= Seq::<DeliveryView>::empty());
        outbox
    }

    /// Adds a delivery at the end.
    pub fn push(&mut self, delivery: Delivery)
        ensures
            final(self)@ == old(self)@.push(delivery@),
    {
        self.deliveries.push(delivery);
        assert(self@ =~= old(self)@.push(delivery@));
    }
}

/// Whether a delivery keeps private ids private: a player's private information goes to that
/// player alone.
pub open spec fn keeps_private(delivery: DeliveryView) -> bool {
    delivery.payload matches PayloadView::Event(EventView::PrivateInfo(player)) ==> delivery.to
        == seq![player.sender]
}

} // verus!
