//! What holds of chat and rounds, player by player and delivery by delivery.

use vstd::prelude::*;

use crate::chat::{
    after_guess, chat_deliveries, chat_error, chat_room, ends_round, has_host, lemma_search_host,
    round_over, round_over_deliveries,
};
use crate::events::{DeliveryView, EventView, PayloadView, PlayerView};
use crate::room::RoomView;
use crate::room_laws::{
    goes_to_all, goes_to_one, is_first, is_nobody, law_first_player_with_the_id_is_found,
    lists_to_all, same_but_players, tells,
};

verus! {

/// Whether the player at position `h` hosts, and nobody before does.
pub open spec fn is_first_host(players: Seq<PlayerView>, h: int) -> bool {
    &&& 0 <= h < players.len()
    &&& players[h].info.is_host
    &&& forall|j: int| 0 <= j < h ==> !(#[trigger] players[j]).info.is_host
}

/// Whether two players are the same person: they have the same ids, name and connection.
pub open spec fn same_person(a: PlayerView, b: PlayerView) -> bool {
    &&& a.private_id == b.private_id
    &&& a.info.name == b.info.name
    &&& a.info.public_id == b.info.public_id
    &&& a.sender == b.sender
}

/// Whether `after` are the players of `before` in the next round, where the player at `h` was the
/// host: nobody has the answer, the next player in turn hosts and the one at `h` does not, unless
/// they are the same, and nobody else changes.
pub open spec fn is_next_round(
    before: Seq<PlayerView>,
    after: Seq<PlayerView>,
    h: int,
) -> bool {
    &&& after.len() == before.len()
    &&& forall|j: int|
        0 <= j < before.len() ==> {
            &&& same_person(#[trigger] after[j], before[j])
            &&& !after[j].info.has_answer
            &&& after[j].info.is_host == if j == h + 1 || (j == 0 && h + 1 == before.len()) {
                true
            } else if j == h {
                false
            } else {
                before[j].info.is_host
            }
        }
}

/// Whether `after` are the players of `before` once the player at `i` has the answer: nobody else
/// changes, and that player in nothing else.
pub open spec fn is_after_guess(
    before: Seq<PlayerView>,
    after: Seq<PlayerView>,
    i: int,
) -> bool {
    &&& after.len() == before.len()
    &&& forall|j: int|
        0 <= j < before.len() ==> {
            &&& same_person(#[trigger] after[j], before[j])
            &&& after[j].info.is_host == before[j].info.is_host
            &&& after[j].info.has_answer == (j == i || before[j].info.has_answer)
        }
}

/// Whether a delivery sends all players these bytes.
pub open spec fn sends_image(
    delivery: DeliveryView,
    players: Seq<PlayerView>,
    data: Seq<u8>,
) -> bool {
    goes_to_all(delivery, players) && delivery.payload == PayloadView::Binary(data)
}

/// Whether the deliveries from number `k` on are those of the end of a round, for the room and its
/// players afterwards: the image if there is one, the list of the players, and the answer if there
/// is one, each to everyone, and nothing else.
pub open spec fn ends_with_round_over(
    told: Seq<DeliveryView>,
    k: int,
    room: RoomView,
    players: Seq<PlayerView>,
) -> bool {
    let list = k + if room.image_data is Some {
        1int
    } else {
        0
    };
    &&& room.image_data matches Some(data) ==> sends_image(told[k], players, data)
    &&& lists_to_all(told[list], players)
    &&& match room.answer {
        Some(answer) => {
            &&& told.len() == list + 2
            &&& goes_to_all(told[list + 1], players)
            &&& tells(
                told[list + 1],
                EventView::ServerMessage("The answer was \""@ + answer + "\""@),
            )
        },
        None => told.len() == list + 1,
    }
}

/// Whether the first three deliveries are those of a right guess by the player at `i`, where the
/// players are `players` afterwards: the message as the answer to that player alone, and to
/// everyone who got it right and the list of the players.
pub open spec fn begins_with_guess(
    told: Seq<DeliveryView>,
    players: Seq<PlayerView>,
    i: int,
    message: Seq<char>,
) -> bool {
    &&& told.len() >= 3
    &&& goes_to_one(told[0], players[i].sender)
    &&& tells(told[0], EventView::Answer(message))
    &&& goes_to_all(told[1], players)
    &&& tells(told[1], EventView::ServerMessage(players[i].info.name + " got it right"@))
    &&& lists_to_all(told[2], players)
}

/// There is a host exactly if somebody hosts.
pub proof fn law_there_is_a_host_if_somebody_hosts(players: Seq<PlayerView>, h: int)
    ensures
        0 <= h < players.len() && players[h].info.is_host ==> has_host(players),
        (forall|j: int| 0 <= j < players.len() ==> !(#[trigger] players[j]).info.is_host)
            ==> !has_host(players),
{
}

/// The end of a round: nobody keeps the answer, the player after the first host hosts in its place,
/// after the last player the first, and nothing else of the room changes. Everyone is told the
/// image, the players and the answer, in this order.
pub proof fn law_end_of_round(room: RoomView, h: int)
    requires
        is_first_host(room.players, h),
    ensures
        is_next_round(room.players, round_over(room).players, h),
        same_but_players(round_over(room), room),
        ends_with_round_over(round_over_deliveries(room), 0, room, round_over(room).players),
{
    lemma_search_host(room.players, 0);
    let n = room.players.len() as int;
    assert((h + 1) % n == if h + 1 == n {
        0
    } else {
        h + 1
    }) by (nonlinear_arith)
        requires
            0 <= h < n,
    ;
    assert(is_next_round(room.players, round_over(room).players, h));
}

/// A right guess ends the round exactly if every player but the writer hosts or has the answer.
pub proof fn law_round_ends_once_all_others_host_or_know(
    room: RoomView,
    message: Seq<char>,
    lowered: Seq<char>,
    private_id: Seq<char>,
    i: int,
)
    requires
        message.len() > 0,
        room.answer == Some(lowered),
        is_first(room.players, private_id, i),
    ensures
        ends_round(room, message, lowered, private_id) <==> forall|j: int|
            0 <= j < room.players.len() && j != i ==> (#[trigger] room.players[j]).info.is_host
                || room.players[j].info.has_answer,
{
    law_first_player_with_the_id_is_found(room.players, private_id, i);
    let guessed = after_guess(room, i).players;
    if ends_round(room, message, lowered, private_id) {
        assert forall|j: int| 0 <= j < room.players.len() && j != i implies (
        #[trigger] room.players[j]).info.is_host || room.players[j].info.has_answer by {
            assert(guessed[j] == room.players[j]);
        }
    }
}

/// A right guess after which every player hosts or has the answer ends the round, wherever in the
/// list the writer and the hosts stand: the next player hosts, nobody keeps the answer, and
/// everyone is told of the guess and then of the end of the round.
pub proof fn law_last_right_guess_ends_the_round(
    room: RoomView,
    message: Seq<char>,
    lowered: Seq<char>,
    private_id: Seq<char>,
    i: int,
    h: int,
    guessed: Seq<PlayerView>,
)
    requires
        message.len() > 0,
        room.answer == Some(lowered),
        is_first(room.players, private_id, i),
        is_first_host(room.players, h),
        forall|j: int|
            0 <= j < room.players.len() && j != i ==> (#[trigger] room.players[j]).info.is_host
                || room.players[j].info.has_answer,
        is_after_guess(room.players, guessed, i),
    ensures
        ends_round(room, message, lowered, private_id),
        chat_error(room, message, private_id) is None,
        ({
            let after = chat_room(room, message, lowered, private_id);
            let told = chat_deliveries(room, message, lowered, private_id);
            &&& is_next_round(room.players, after.players, h)
            &&& same_but_players(after, room)
            &&& begins_with_guess(told, guessed, i, message)
            &&& ends_with_round_over(told, 3, room, after.players)
        }),
{
    law_first_player_with_the_id_is_found(room.players, private_id, i);
    lemma_guessed(room, i, guessed);
    let middle = RoomView { players: guessed, ..room };
    assert(is_first_host(guessed, h)) by {
        assert(guessed[h].info.is_host);
        assert forall|j: int| 0 <= j < h implies !(#[trigger] guessed[j]).info.is_host by {
            assert(!room.players[j].info.is_host);
        }
    }
    law_end_of_round(middle, h);
    assert(ends_round(room, message, lowered, private_id)) by {
        assert forall|j: int|
            0 <= j < guessed.len() && !(#[trigger] guessed[j]).info.is_host implies
            guessed[j].info.has_answer by {
            assert(j != i ==> room.players[j].info.is_host || room.players[j].info.has_answer);
        }
    }
    let after = chat_room(room, message, lowered, private_id);
    assert(after == round_over(middle));
    assert forall|j: int| 0 <= j < room.players.len() implies {
        &&& same_person(#[trigger] after.players[j], room.players[j])
        &&& !after.players[j].info.has_answer
        &&& after.players[j].info.is_host == if j == h + 1 || (j == 0 && h + 1
            == room.players.len()) {
            true
        } else if j == h {
            false
        } else {
            room.players[j].info.is_host
        }
    } by {
        assert(same_person(after.players[j], guessed[j]));
        assert(same_person(guessed[j], room.players[j]));
    }
    let told = chat_deliveries(room, message, lowered, private_id);
    let end = round_over_deliveries(middle);
    assert(told.len() == 3 + end.len());
    assert(forall|k: int| 0 <= k < end.len() ==> told[k + 3] == #[trigger] end[k]);
    assert(room.image_data is Some ==> told[3] == end[0]);
    let list = if room.image_data is Some {
        1int
    } else {
        0
    };
    assert(told[3 + list] == end[list]);
    assert(told[3 + list + 1] == end[list + 1]);
}

/// The players after a guess are determined by what a guess changes.
proof fn lemma_guessed(room: RoomView, i: int, guessed: Seq<PlayerView>)
    requires
        0 <= i < room.players.len(),
        is_after_guess(room.players, guessed, i),
    ensures
        after_guess(room, i) == (RoomView { players: guessed, ..room }),
{
    let after = after_guess(room, i);
    assert forall|j: int| 0 <= j < guessed.len() implies #[trigger] after.players[j]
        == guessed[j] by {
        assert(same_person(guessed[j], room.players[j]));
        assert(after.players[j].info =~= guessed[j].info);
    }
    assert(after.players =~= guessed);
}

/// A right guess while some other player neither hosts nor has the answer gives the writer the
/// answer, and changes nothing else: the round goes on, with its host. The writer is told the
/// answer, and everyone who got it right and the list of the players, and nothing else is sent.
pub proof fn law_right_guess_goes_on_while_others_guess(
    room: RoomView,
    message: Seq<char>,
    lowered: Seq<char>,
    private_id: Seq<char>,
    i: int,
    other: int,
)
    requires
        message.len() > 0,
        room.answer == Some(lowered),
        is_first(room.players, private_id, i),
        0 <= other < room.players.len(),
        other != i,
        !room.players[other].info.is_host,
        !room.players[other].info.has_answer,
    ensures
        !ends_round(room, message, lowered, private_id),
        chat_error(room, message, private_id) is None,
        ({
            let after = chat_room(room, message, lowered, private_id);
            let told = chat_deliveries(room, message, lowered, private_id);
            &&& is_after_guess(room.players, after.players, i)
            &&& same_but_players(after, room)
            &&& told.len() == 3
            &&& begins_with_guess(told, after.players, i, message)
        }),
{
    law_first_player_with_the_id_is_found(room.players, private_id, i);
    let guessed = after_guess(room, i).players;
    assert(!guessed[other].info.is_host && !guessed[other].info.has_answer);
}

/// A message that is not the answer changes nothing. It goes to everyone as it was written, under
/// the name of its writer, and nothing else is sent.
pub proof fn law_other_messages_are_passed_on(
    room: RoomView,
    message: Seq<char>,
    lowered: Seq<char>,
    private_id: Seq<char>,
    i: int,
)
    requires
        message.len() > 0,
        room.answer != Some(lowered),
        is_first(room.players, private_id, i),
    ensures
        !ends_round(room, message, lowered, private_id),
        chat_error(room, message, private_id) is None,
        chat_room(room, message, lowered, private_id) == room,
        ({
            let told = chat_deliveries(room, message, lowered, private_id);
            &&& told.len() == 1
            &&& goes_to_all(told[0], room.players)
            &&& tells(
                told[0],
                EventView::ChatMessage { name: room.players[i].info.name, text: message },
            )
        }),
{
    law_first_player_with_the_id_is_found(room.players, private_id, i);
}

/// An empty message is refused as such, and any other message of a writer who is not in the room is
/// refused because of that. A message that is refused changes nothing, and nobody is told.
pub proof fn law_refused_messages(
    room: RoomView,
    message: Seq<char>,
    lowered: Seq<char>,
    private_id: Seq<char>,
)
    requires
        message.len() == 0 || is_nobody(room.players, private_id),
    ensures
        chat_error(room, message, private_id) == Some(
            if message.len() == 0 {
                "Empty message"@
            } else {
                "Player not found"@
            },
        ),
        chat_room(room, message, lowered, private_id) == room,
        chat_deliveries(room, message, lowered, private_id).len() == 0,
        !ends_round(room, message, lowered, private_id),
{
    law_first_player_with_the_id_is_found(room.players, private_id, 0);
}

} // verus!
