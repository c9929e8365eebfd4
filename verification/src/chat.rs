//! Chat and guessing: who has the answer, when a round is over, and who hosts next.

use vstd::prelude::*;

use crate::events::{
    DeliveryView, EventView, OutboundWsEvent, Outbox, PlayerInfoView, PlayerView,
};
use crate::room::{
    broadcast_player_list, broadcast_server_message, broadcast_source_image, broadcast_ws_event,
    find, lemma_search, player_list, send_player_correct_answer, source_image, to_player, to_room,
    Room, RoomView,
};
use crate::text::lowercase;

verus! {

/// The position, from `from` on, of the first host.
pub open spec fn search_host(players: Seq<PlayerView>, from: int) -> Option<int>
    decreases players.len() - from,
{
    if from < 0 || from >= players.len() {
        None
    } else if players[from].info.is_host {
        Some(from)
    } else {
        search_host(players, from + 1)
    }
}

/// Whether some player is the host.
pub open spec fn has_host(players: Seq<PlayerView>) -> bool {
    exists|i: int| 0 <= i < players.len() && (#[trigger] players[i]).info.is_host
}

/// What `search_host` finds is the first host, and it misses none.
pub proof fn lemma_search_host(players: Seq<PlayerView>, from: int)
    requires
        0 <= from,
    ensures
        match search_host(players, from) {
            Some(i) => {
                &&& from <= i < players.len()
                &&& players[i].info.is_host
                &&& forall|j: int| from <= j < i ==> !(#[trigger] players[j]).info.is_host
            },
            None => forall|j: int|
                from <= j < players.len() ==> !(#[trigger] players[j]).info.is_host,
        },
    decreases players.len() - from,
{
    if from < players.len() && !players[from].info.is_host {
        lemma_search_host(players, from + 1);
    }
}

/// The player with the answer, or without it.
pub open spec fn with_answer(player: PlayerView, has_answer: bool) -> PlayerView {
    PlayerView { info: PlayerInfoView { has_answer, ..player.info }, ..player }
}

/// The player as the host, or not.
pub open spec fn as_host(player: PlayerView, is_host: bool) -> PlayerView {
    PlayerView { info: PlayerInfoView { is_host, ..player.info }, ..player }
}

/// The players when a round is over: none has the answer, and the one after the first host is
/// the host in its place.
pub open spec fn next_round(players: Seq<PlayerView>) -> Seq<PlayerView> {
    let cleared = players.map_values(|p: PlayerView| with_answer(p, false));
    let host = search_host(players, 0)->0;
    let next = (host + 1) % (players.len() as int);
    let retired = cleared.update(host, as_host(cleared[host], false));
    retired.update(next, as_host(retired[next], true))
}

/// The message that tells the answer.
pub open spec fn answer_message(answer: Seq<char>) -> Seq<char> {
    "The answer was \""@ + answer + "\""@
}

/// The room when a round is over.
pub open spec fn round_over(room: RoomView) -> RoomView {
    RoomView { players: next_round(room.players), ..room }
}

/// What is sent when a round is over, to the players of the next round: the source image, the
/// players, and the answer.
pub open spec fn round_over_deliveries(room: RoomView) -> Seq<DeliveryView> {
    let next = round_over(room);
    source_image(next) + seq![player_list(next)] + match room.answer {
        Some(answer) => seq![
            to_room(next, EventView::ServerMessage(answer_message(answer))),
        ],
        None => Seq::<DeliveryView>::empty(),
    }
}

/// Ends the round: takes the answer from every player, makes the next player the host, and tells
/// everyone the picture, the players and the answer.
pub fn handle_round_over(room: &mut Room, outbox: &mut Outbox)
    requires
        has_host(old(room)@.players),
    ensures
        final(room)@ == round_over(old(room)@),
        final(outbox)@ == old(outbox)@ + round_over_deliveries(old(room)@),
{
    let ghost before = room@;
    let ghost cleared = before.players.map_values(|p: PlayerView| with_answer(p, false));
    let n: usize = room.players.len();
    let mut i: usize = 0;
    while i < n
        invariant
            i <= n,
            n == before.players.len(),
            n == room.players@.len(),
            cleared == before.players.map_values(|p: PlayerView| with_answer(p, false)),
            room@ == (RoomView { players: room@.players, ..before }),
            forall|j: int| 0 <= j < i ==> room@.players[j] == cleared[j],
            forall|j: int| i <= j < n ==> room@.players[j] == before.players[j],
        decreases n - i,
    {
        room.players[i].info.has_answer = false;
        i = i + 1;
    }
    assert(room@.players =~= cleared);
    let mut host_index: usize = 0;
    proof {
        lemma_search_host(before.players, 0);
    }
    while host_index < n && !room.players[host_index].info.is_host
        invariant
            host_index <= n,
            n == before.players.len(),
            n == room.players@.len(),
            cleared == before.players.map_values(|p: PlayerView| with_answer(p, false)),
            room@.players == cleared,
            search_host(before.players, 0) == search_host(before.players, host_index as int),
        decreases n - host_index,
    {
        assert(room@.players[host_index as int] == cleared[host_index as int]);
        host_index = host_index + 1;
    }
    assert(host_index < n ==> room@.players[host_index as int] == cleared[host_index as int]);
    assert(search_host(before.players, 0) == Some(host_index as int));
    room.players[host_index].info.is_host = false;
    let ghost retired = cleared.update(
        host_index as int,
        as_host(cleared[host_index as int], false),
    );
    assert(room@.players =~= retired);
    let next_index: usize = (host_index + 1) % n;
    room.players[next_index].info.is_host = true;
    assert(room@.players =~= next_round(before.players));
    broadcast_source_image(room, outbox);
    broadcast_player_list(room, outbox);
    if let Some(answer) = &room.answer {
        let mut message: String = "The answer was \"".to_owned();
        message.append(answer.as_str());
        message.append("\"");
        broadcast_server_message(message.as_str(), room, outbox);
    }
    assert(outbox@ =~= old(outbox)@ + round_over_deliveries(before));
}

/// Whether the message, with this lower-case form, is the answer.
pub open spec fn is_answer(room: RoomView, lowered: Seq<char>) -> bool {
    room.answer == Some(lowered)
}

/// The room once the player at this position has the answer.
pub open spec fn after_guess(room: RoomView, i: int) -> RoomView {
    RoomView { players: room.players.update(i, with_answer(room.players[i], true)), ..room }
}

/// Whether every player but the hosts has the answer.
pub open spec fn all_have_answer(players: Seq<PlayerView>) -> bool {
    forall|i: int|
        0 <= i < players.len() && !(#[trigger] players[i]).info.is_host
            ==> players[i].info.has_answer
}

/// Why a message is refused, if it is.
pub open spec fn chat_error(
    room: RoomView,
    message: Seq<char>,
    private_id: Seq<char>,
) -> Option<Seq<char>> {
    if message.len() == 0 {
        Some("Empty message"@)
    } else if find(room.players, private_id) is None {
        Some("Player not found"@)
    } else {
        None
    }
}

/// Whether the message ends the round: it is the answer, and with its writer every player but
/// the hosts has the answer.
pub open spec fn ends_round(
    room: RoomView,
    message: Seq<char>,
    lowered: Seq<char>,
    private_id: Seq<char>,
) -> bool {
    &&& chat_error(room, message, private_id) is None
    &&& is_answer(room, lowered)
    &&& all_have_answer(after_guess(room, find(room.players, private_id)->0).players)
}

/// The room after a message.
pub open spec fn chat_room(
    room: RoomView,
    message: Seq<char>,
    lowered: Seq<char>,
    private_id: Seq<char>,
) -> RoomView {
    if chat_error(room, message, private_id) is Some || !is_answer(room, lowered) {
        room
    } else {
        let guessed = after_guess(room, find(room.players, private_id)->0);
        if ends_round(room, message, lowered, private_id) {
            round_over(guessed)
        } else {
            guessed
        }
    }
}

/// What is sent for a message: nothing if it is refused; the message itself if it is not the
/// answer; else the answer to its writer, the news and the players to everyone, and what the end
/// of a round takes.
pub open spec fn chat_deliveries(
    room: RoomView,
    message: Seq<char>,
    lowered: Seq<char>,
    private_id: Seq<char>,
) -> Seq<DeliveryView> {
    if chat_error(room, message, private_id) is Some {
        Seq::empty()
    } else {
        let i = find(room.players, private_id)->0;
        let name = room.players[i].info.name;
        if !is_answer(room, lowered) {
            seq![to_room(room, EventView::ChatMessage { name, text: message })]
        } else {
            let guessed = after_guess(room, i);
            seq![
                to_player(guessed.players[i], EventView::Answer(message)),
                to_room(guessed, EventView::ServerMessage(name + " got it right"@)),
                player_list(guessed),
            ] + if ends_round(room, message, lowered, private_id) {
                round_over_deliveries(guessed)
            } else {
                Seq::empty()
            }
        }
    }
}

/// Whether all players but the hosts have the answer.
fn is_round_over(room: &Room) -> (over: bool)
    ensures
        over == all_have_answer(room@.players),
{
    let mut i: usize = 0;
    while i < room.players.len()
        invariant
            i <= room.players@.len(),
            forall|j: int|
                0 <= j < i && !(#[trigger] room@.players[j]).info.is_host
                    ==> room@.players[j].info.has_answer,
        decreases room.players@.len() - i,
    {
        if !room.players[i].info.is_host && !room.players[i].info.has_answer {
            assert(!room@.players[i as int].info.is_host);
            return false;
        }
        i = i + 1;
    }
    true
}

/// Handles a chat message whose lower-case form is `lowered`.
pub fn handle_lowered_message(
    message: &str,
    lowered: &String,
    private_id: &str,
    room: &mut Room,
    outbox: &mut Outbox,
) -> (result: Result<(), &'static str>)
    requires
        ends_round(old(room)@, message@, lowered@, private_id@) ==> has_host(old(room)@.players),
    ensures
        final(room)@ == chat_room(old(room)@, message@, lowered@, private_id@),
        final(outbox)@ == old(outbox)@ + chat_deliveries(
            old(room)@,
            message@,
            lowered@,
            private_id@,
        ),
        match chat_error(old(room)@, message@, private_id@) {
            Some(error) => result matches Err(e) && e@ == error,
            None => result is Ok,
        },
{
    let ghost before = room@;
    proof {
        lemma_search(before.players, private_id@, 0);
    }
    if message.is_empty() {
        assert(outbox@ =~= old(outbox)@ + Seq::<DeliveryView>::empty());
        return Err("Empty message");
    }
    let correct: bool = match &room.answer {
        Some(answer) => *answer == *lowered,
        None => false,
    };
    if correct {
        match room.get_player_mut(private_id) {
            Some(player) => {
                player.info.has_answer = true;
            },
            None => {
                assert(outbox@ =~= old(outbox)@ + Seq::<DeliveryView>::empty());
                return Err("Player not found");
            },
        }
        let ghost i = find(before.players, private_id@)->0;
        let ghost guessed = after_guess(before, i);
        assert(room@ =~= guessed);
        proof {
            lemma_guess_keeps_ids(before, private_id@);
        }
        let player = room.get_player(private_id).unwrap();
        send_player_correct_answer(player, message, outbox);
        let mut news: String = player.info.name.clone();
        news.append(" got it right");
        broadcast_server_message(news.as_str(), room, outbox);
        broadcast_player_list(room, outbox);
        if is_round_over(room) {
            proof {
                lemma_guess_keeps_hosts(before, i);
            }
            handle_round_over(room, outbox);
        }
    } else {
        match room.get_player(private_id) {
            Some(player) => {
                let event = OutboundWsEvent::ChatMessage {
                    name: player.info.name.clone(),
                    text: message.to_owned(),
                };
                broadcast_ws_event(event, room, outbox);
            },
            None => {
                assert(outbox@ =~= old(outbox)@ + Seq::<DeliveryView>::empty());
                return Err("Player not found");
            },
        }
    }
    assert(outbox@ =~= old(outbox)@ + chat_deliveries(before, message@, lowered@, private_id@));
    Ok(())
}

/// The player who guessed is still the first with its private id.
proof fn lemma_guess_keeps_ids(room: RoomView, private_id: Seq<char>)
    requires
        find(room.players, private_id) is Some,
    ensures
        find(
            after_guess(room, find(room.players, private_id)->0).players,
            private_id,
        ) == find(room.players, private_id),
{
    let i = find(room.players, private_id)->0;
    lemma_search(room.players, private_id, 0);
    lemma_search(after_guess(room, i).players, private_id, 0);
    assert(after_guess(room, i).players[i].private_id == private_id);
    assert forall|j: int| 0 <= j < i implies (#[trigger] after_guess(room, i).players[j]).private_id
        != private_id by {
        assert(after_guess(room, i).players[j] == room.players[j]);
    }
}

/// A guess makes no host and takes none away.
proof fn lemma_guess_keeps_hosts(room: RoomView, i: int)
    requires
        0 <= i < room.players.len(),
        has_host(room.players),
    ensures
        has_host(after_guess(room, i).players),
{
    let h = choose|h: int| 0 <= h < room.players.len() && (#[trigger] room.players[h]).info.is_host;
    assert(after_guess(room, i).players[h].info.is_host);
}

/// Handles a chat message: refuses it, passes it on, or, if its lower-case form is the answer,
/// notes that its writer has the answer and ends the round once all but the hosts have it.
pub fn handle_chat_message(
    message: &str,
    private_id: &str,
    room: &mut Room,
    outbox: &mut Outbox,
) -> (result: Result<(), &'static str>)
    requires
        ends_round(old(room)@, message@, lowercase(message@), private_id@) ==> has_host(
            old(room)@.players,
        ),
    ensures
        final(room)@ == chat_room(old(room)@, message@, lowercase(message@), private_id@),
        final(outbox)@ == old(outbox)@ + chat_deliveries(
            old(room)@,
            message@,
            lowercase(message@),
            private_id@,
        ),
        match chat_error(old(room)@, message@, private_id@) {
            Some(error) => result matches Err(e) && e@ == error,
            None => result is Ok,
        },
{
    let lowered: String = message.to_lowercase();
    handle_lowered_message(message, &lowered, private_id, room, outbox)
}

/// Whether the room has a host.
fn room_has_host(room: &Room) -> (found: bool)
    ensures
        found == has_host(room@.players),
{
    let mut i: usize = 0;
    while i < room.players.len()
        invariant
            i <= room.players@.len(),
            forall|j: int| 0 <= j < i ==> !(#[trigger] room@.players[j]).info.is_host,
        decreases room.players@.len() - i,
    {
        if room.players[i].info.is_host {
            assert(room@.players[i as int].info.is_host);
            return true;
        }
        i = i + 1;
    }
    false
}

/// Whether the message, with this lower-case form, ends the round.
fn would_end_round(message: &str, lowered: &String, private_id: &str, room: &Room) -> (ends: bool)
    ensures
        ends == ends_round(room@, message@, lowered@, private_id@),
{
    if message.is_empty() {
        return false;
    }
    let correct: bool = match &room.answer {
        Some(answer) => *answer == *lowered,
        None => false,
    };
    if !correct {
        return false;
    }
    let guesser: usize = match room.position(private_id) {
        Some(guesser) => guesser,
        None => {
            return false;
        },
    };
    let ghost guessed = after_guess(room@, guesser as int).players;
    let mut i: usize = 0;
    while i < room.players.len()
        invariant
            i <= room.players@.len(),
            guesser < room.players@.len(),
            find(room@.players, private_id@) == Some(guesser as int),
            guessed == after_guess(room@, guesser as int).players,
            forall|j: int|
                0 <= j < i && !(#[trigger] guessed[j]).info.is_host ==> guessed[j].info.has_answer,
        decreases room.players@.len() - i,
    {
        if i != guesser && !room.players[i].info.is_host && !room.players[i].info.has_answer {
            assert(!guessed[i as int].info.is_host);
            return false;
        }
        i = i + 1;
    }
    true
}

/// Handles a chat message as `handle_chat_message` does, except that a message that would end
/// the round of a room without a host is not handled at all: the result is `None` and nothing
/// changes.
pub fn try_handle_chat_message(
    message: &str,
    private_id: &str,
    room: &mut Room,
    outbox: &mut Outbox,
) -> (result: Option<Result<(), &'static str>>)
    ensures
        result is None <==> ends_round(
            old(room)@,
            message@,
            lowercase(message@),
            private_id@,
        ) && !has_host(old(room)@.players),
        match result {
            None => final(room)@ == old(room)@ && final(outbox)@ == old(outbox)@,
            Some(handled) => {
                &&& final(room)@ == chat_room(
                    old(room)@,
                    message@,
                    lowercase(message@),
                    private_id@,
                )
                &&& final(outbox)@ == old(outbox)@ + chat_deliveries(
                    old(room)@,
                    message@,
                    lowercase(message@),
                    private_id@,
                )
                &&& match chat_error(old(room)@, message@, private_id@) {
                    Some(error) => handled matches Err(e) && e@ == error,
                    None => handled is Ok,
                }
            },
        },
{
    let lowered: String = message.to_lowercase();
    if would_end_round(message, &lowered, private_id, room) && !room_has_host(room) {
        return None;
    }
    Some(handle_chat_message(message, private_id, room, outbox))
}

} // verus!
