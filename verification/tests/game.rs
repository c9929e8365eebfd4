use std::cell::RefCell;
use std::future::Future;
use std::rc::Rc;
use std::time::Duration;

use futures::future::{AbortHandle, Abortable};
use shape_evolution::chat::{
    handle_chat_message, handle_lowered_message, handle_round_over, try_handle_chat_message,
};
use shape_evolution::cleanup::{CleanupTask, Delay};
use shape_evolution::events::{
    Delivery, InboundWsEvent, OutboundWsEvent, Outbox, Payload, Player,
};
use shape_evolution::handlers::{
    handle_binary_message, handle_event, handle_user_disconnected, next_step, Frame, Step,
};
use shape_evolution::lobby::{
    connect_player, delete_room, join_path, new_room, new_room_with_id, player_connected,
    wait_for_name, Rooms,
};
use shape_evolution::random_shape::RandomCircle;
use shape_evolution::raster::Rgba;
use shape_evolution::room::{broadcast_source_image, send_current_circles, Room};
use shape_evolution::text::make_hint;

fn player(name: &str, is_host: bool, sender: u64) -> Player {
    Player::with_ids(
        name.to_string(),
        is_host,
        sender,
        format!("public {}", name),
        format!("private {}", name),
    )
}

fn game(hosts: &[bool]) -> Room {
    let mut room = Room::new("room".to_string());
    for (i, is_host) in hosts.iter().enumerate() {
        room.insert_player(player(&format!("p{}", i), *is_host, i as u64));
    }
    room.start_image((100, 200), "foo".to_string());
    room
}

fn circle() -> RandomCircle {
    RandomCircle {
        imgx: 100,
        imgy: 200,
        center: (50, 50),
        radius: 20,
        color: Rgba { r: 255, g: 0, b: 0, a: 255 },
    }
}

fn hosts(room: &Room) -> Vec<bool> {
    room.players.iter().map(|p| p.info.is_host).collect()
}

fn answered(room: &Room) -> Vec<bool> {
    room.players.iter().map(|p| p.info.has_answer).collect()
}

fn server_message(delivery: &Delivery) -> &str {
    match &delivery.payload {
        Payload::Event(OutboundWsEvent::ServerMessage(text)) => text,
        other => panic!("not a server message: {:?}", other),
    }
}

/// Runs a future to its end, with timers.
fn block_on<F: Future>(future: F) -> F::Output {
    let runtime = tokio::runtime::Builder::new_current_thread().enable_time().build().unwrap();
    runtime.block_on(future)
}

/// Deletes the room of the task after its delay, unless the task is aborted first.
async fn cleanup(rooms: &RefCell<Rooms<Room>>, task: CleanupTask) {
    let (room_id, delay) = (task.room_id, Duration::new(task.delay.secs, task.delay.nanos));
    let future = async {
        tokio::time::sleep(delay).await;
        delete_room(&mut rooms.borrow_mut(), &room_id);
    };
    let _ = Abortable::new(future, task.registration.into_registration()).await;
}

#[test]
fn test_new_room() {
    let mut rooms: Rooms<Room> = Rooms::new();
    assert_eq!(rooms.len(), 0);

    let new = new_room();
    let id = new.room.id.clone();
    let path = rooms.open(&id, new.room);

    assert_eq!(path, format!("/join/{}/", id));
    assert_eq!(rooms.len(), 1);
}

#[test]
fn test_room_cleanup() {
    let rooms: RefCell<Rooms<Room>> = RefCell::new(Rooms::new());
    assert_eq!(rooms.borrow().len(), 0);

    let mut room = new_room().room;
    let id = room.id.clone();
    let task = room.wait_then_cleanup(Delay { secs: 5, nanos: 0 });
    rooms.borrow_mut().open(&id, room);
    assert_eq!(rooms.borrow().len(), 1);

    let wait = async {
        tokio::time::sleep(Duration::from_millis(5100)).await;
        assert_eq!(rooms.borrow().len(), 0);
    };
    block_on(futures::future::join(cleanup(&rooms, task), wait));
}

#[test]
fn test_player_join() {
    let mut rooms: Rooms<Rc<RefCell<Room>>> = Rooms::new();
    assert_eq!(rooms.len(), 0);

    let new = new_room();
    let id = new.room.id.clone();
    rooms.open(&id, Rc::new(RefCell::new(new.room)));
    let room = rooms.get(&id).unwrap().clone();
    let mut room = room.borrow_mut();
    let mut outbox = Outbox::new();

    let first = Some(InboundWsEvent::PlayerName("Alice".to_string()));
    let name = wait_for_name(first).unwrap();
    let alice = player_connected(&room, name, 1, &mut outbox);
    connect_player(&mut room, alice, &mut outbox);

    assert_eq!(rooms.len(), 1);
    assert_eq!(room.players.len(), 1);
    let player = &room.players[0];
    assert_eq!(player.info.name, "Alice");
}

#[test]
fn test_circles_clear() {
    let mut room = new_room().room;
    let mut outbox = Outbox::new();
    let alice = player_connected(&room, "Alice".to_string(), 1, &mut outbox);
    connect_player(&mut room, alice, &mut outbox);

    let id = room.players[0].private_id.clone();
    let image =
        || InboundWsEvent::NewImage { dimensions: (100, 200), answer: "foo".to_string() };
    assert_eq!(handle_event(image(), &id, &mut room, &mut outbox), Some(Ok(())));
    let event = InboundWsEvent::Circle(circle());
    assert_eq!(handle_event(event, &id, &mut room, &mut outbox), Some(Ok(())));
    assert_eq!(room.circles.len(), 1);

    assert_eq!(handle_event(image(), &id, &mut room, &mut outbox), Some(Ok(())));
    assert_eq!(room.circles.len(), 0);
}

#[test]
fn events_are_handled() {
    let mut room = game(&[true, false]);
    let mut outbox = Outbox::new();
    let name = InboundWsEvent::PlayerName("x".to_string());
    assert_eq!(handle_event(name, "private p0", &mut room, &mut outbox), Some(Ok(())));
    assert!(outbox.deliveries.is_empty());
    let image = InboundWsEvent::NewImage { dimensions: (3, 4), answer: "a b".to_string() };
    handle_event(image, "private p0", &mut room, &mut outbox).unwrap().unwrap();
    assert_eq!(room.image_dimensions, Some((3, 4)));
    assert_eq!(room.answer.as_deref(), Some("a b"));
    match &outbox.deliveries[0].payload {
        Payload::Event(OutboundWsEvent::NewImage { dimensions, answer_hint }) => {
            assert_eq!((*dimensions, answer_hint.as_str()), ((3, 4), "_ _"));
        }
        other => panic!("{:?}", other),
    }
    handle_event(InboundWsEvent::Circle(circle()), "private p0", &mut room, &mut outbox);
    assert_eq!(outbox.deliveries[1].to, vec![0, 1]);
    assert!(matches!(
        &outbox.deliveries[1].payload,
        Payload::Event(OutboundWsEvent::Circle(_))
    ));
    let chat = |text: &str| InboundWsEvent::ChatMessage(text.to_string());
    assert_eq!(
        handle_event(chat(""), "private p1", &mut room, &mut outbox),
        Some(Err("Empty message"))
    );
    assert_eq!(
        handle_event(chat("A B"), "private p1", &mut room, &mut outbox),
        Some(Ok(()))
    );
    assert_eq!(hosts(&room), vec![false, true]);
    handle_binary_message(vec![1, 2], &mut room);
    assert_eq!(room.image_data, Some(vec![1, 2]));
    let mut alone = game(&[false]);
    assert_eq!(handle_event(chat("foo"), "private p0", &mut alone, &mut outbox), None);
}

#[test]
fn frames_lead_to_steps() {
    match next_step(Frame::Text("hi".to_string())) {
        Step::Event(text) => assert_eq!(text, "hi"),
        _ => panic!("a text holds an event"),
    }
    match next_step(Frame::Binary(vec![1, 2])) {
        Step::Image(bytes) => assert_eq!(bytes, vec![1, 2]),
        _ => panic!("bytes are an image"),
    }
    assert!(matches!(next_step(Frame::Failed), Step::Leave));
    assert!(matches!(next_step(Frame::Closed), Step::Leave));
}

#[test]
fn leaving_keeps_the_host_unless_it_leaves() {
    let mut outbox = Outbox::new();
    let mut room = game(&[false, true, false]);
    handle_user_disconnected("private p0", &mut room, &mut outbox);
    assert_eq!(hosts(&room), vec![true, false]);
    handle_user_disconnected("private p9", &mut room, &mut outbox);
    assert_eq!(hosts(&room), vec![true, false]);
    handle_user_disconnected("private p1", &mut room, &mut outbox);
    assert_eq!(hosts(&room), vec![false]);
}

#[test]
fn leaving_undoes_joining() {
    let mut outbox = Outbox::new();
    let mut room = game(&[true]);
    let player = player_connected(&room, "Bob".to_string(), 7, &mut outbox);
    let id = player.private_id.clone();
    connect_player(&mut room, player, &mut outbox);
    assert_eq!(room.players.len(), 2);
    assert!(handle_user_disconnected(&id, &mut room, &mut outbox).is_none());
    assert_eq!(room.players.len(), 1);
    assert_eq!(room.players[0].private_id, "private p0");
    assert_eq!(hosts(&room), vec![true]);
}

#[test]
fn last_player_to_leave_starts_the_cleanup() {
    let mut room = game(&[true, false]);
    let mut outbox = Outbox::new();
    assert!(handle_user_disconnected("private p0", &mut room, &mut outbox).is_none());
    assert_eq!(outbox.deliveries.len(), 1);
    assert_eq!(outbox.deliveries[0].to, vec![1]);
    assert!(room.cleanup_abort_handle.is_none());
    let task = handle_user_disconnected("private p1", &mut room, &mut outbox).unwrap();
    assert_eq!(outbox.deliveries.len(), 1);
    assert_eq!(task.room_id, "room");
    assert_eq!(task.delay, Delay { secs: 300, nanos: 0 });
    room.cancel_cleanup();
    assert!(task.registration.into_registration().handle().is_aborted());
}

#[test]
fn cancelled_cleanup_deletes_nothing() {
    for cancel in [false, true] {
        let rooms: RefCell<Rooms<Room>> = RefCell::new(Rooms::new());
        let mut room = Room::new("r".to_string());
        let task = room.wait_then_cleanup(Delay { secs: 0, nanos: 1_000_000 });
        if cancel {
            assert!(room.cancel_cleanup().is_some());
            assert!(room.cleanup_abort_handle.is_none());
            assert!(room.cancel_cleanup().is_none());
            assert!(room.cleanup_abort_handle.is_none());
        }
        rooms.borrow_mut().open("r", room);
        block_on(cleanup(&rooms, task));
        assert_eq!(rooms.borrow().len(), if cancel { 1 } else { 0 });
    }
}

#[test]
fn new_room_waits_for_five_minutes_under_a_random_id() {
    let new = new_room();
    assert_eq!(new.room.id.len(), 7);
    assert!(new.room.id.chars().all(|c| c.is_ascii_alphanumeric()));
    assert_eq!(new.cleanup.room_id, new.room.id);
    assert_eq!(new.cleanup.delay, Delay { secs: 5 * 60, nanos: 0 });
    assert!(new.room.cleanup_abort_handle.is_some());
    assert!(new.room.players.is_empty());
    assert_ne!(new_room().room.id, new.room.id);
}

#[test]
fn rooms_are_found_replaced_and_deleted() {
    let mut rooms: Rooms<u32> = Rooms::new();
    assert_eq!(rooms.open("a", 1), "/join/a/");
    rooms.open("b", 2);
    assert_eq!(rooms.get("a"), Some(&1));
    assert_eq!(rooms.get("c"), None);
    rooms.open("a", 3);
    assert_eq!(rooms.get("a"), Some(&3));
    assert_eq!(rooms.len(), 2);
    delete_room(&mut rooms, "c");
    delete_room(&mut rooms, "a");
    assert_eq!(rooms.get("a"), None);
    assert_eq!(rooms.len(), 1);
    assert_eq!(join_path("x"), "/join/x/");
}

#[test]
fn joining_aborts_the_cleanup() {
    let mut room = new_room_with_id("abc".to_string()).room;
    let handle: AbortHandle = room.cleanup_abort_handle.clone().unwrap();
    assert!(!handle.is_aborted());
    let mut outbox = Outbox::new();
    let aborted = connect_player(&mut room, player("p", true, 1), &mut outbox);
    assert!(aborted.is_some());
    assert!(handle.is_aborted());
    assert!(room.cleanup_abort_handle.is_none());
    assert!(room.cancel_cleanup().is_none());
}

#[test]
fn cleanup_handle_belongs_to_the_task() {
    let new = new_room_with_id("abc".to_string());
    let mut room = new.room;
    room.cancel_cleanup();
    assert!(new.cleanup.registration.into_registration().handle().is_aborted());
}

#[test]
fn new_players_have_random_ids() {
    let a = Player::new("a".to_string(), true, 7);
    let b = Player::new("a".to_string(), true, 7);
    assert_eq!(a.info.name, "a");
    assert!(a.info.is_host && !a.info.has_answer);
    assert_eq!(a.sender, 7);
    for id in [&a.private_id, &a.info.public_id, &b.private_id, &b.info.public_id] {
        assert_eq!(id.len(), 36);
        assert_eq!(&id[14..15], "4");
        assert_eq!(id.matches('-').count(), 4);
    }
    assert_ne!(a.private_id, b.private_id);
    assert_ne!(a.private_id, a.info.public_id);
}

#[test]
fn first_player_hosts_and_others_do_not() {
    let mut room = Room::new("r".to_string());
    let mut outbox = Outbox::new();
    for i in 0..3 {
        let p = player_connected(&room, format!("p{}", i), i, &mut outbox);
        connect_player(&mut room, p, &mut outbox);
    }
    assert_eq!(hosts(&room), vec![true, false, false]);
}

#[test]
fn new_player_gets_the_hint() {
    let mut room = game(&[true]);
    room.start_image((3, 4), "two words".to_string());
    let mut outbox = Outbox::new();
    player_connected(&room, "n".to_string(), 9, &mut outbox);
    assert_eq!(outbox.deliveries.len(), 1);
    assert_eq!(outbox.deliveries[0].to, vec![9]);
    match &outbox.deliveries[0].payload {
        Payload::Event(OutboundWsEvent::NewImage { dimensions, answer_hint }) => {
            assert_eq!(*dimensions, (3, 4));
            assert_eq!(answer_hint, "___ _____");
        }
        other => panic!("{:?}", other),
    }
    let mut outbox = Outbox::new();
    player_connected(&Room::new("r".to_string()), "n".to_string(), 9, &mut outbox);
    assert!(outbox.deliveries.is_empty());
}

#[test]
fn joining_tells_the_player_and_everyone() {
    let mut room = game(&[true]);
    room.add_circle(circle());
    let mut outbox = Outbox::new();
    connect_player(&mut room, player("n", false, 9), &mut outbox);
    let sent = &outbox.deliveries;
    assert_eq!(sent.len(), 4);
    assert_eq!(sent[0].to, vec![9]);
    match &sent[0].payload {
        Payload::Event(OutboundWsEvent::PrivateInfo(p)) => assert_eq!(p.private_id, "private n"),
        other => panic!("{:?}", other),
    }
    assert_eq!(sent[1].to, vec![0, 9]);
    match &sent[1].payload {
        Payload::Event(OutboundWsEvent::PlayerList(list)) => {
            let names: Vec<&str> = list.iter().map(|i| i.name.as_str()).collect();
            assert_eq!(names, vec!["p0", "n"]);
        }
        other => panic!("{:?}", other),
    }
    assert_eq!(sent[2].to, vec![9]);
    match &sent[2].payload {
        Payload::Event(OutboundWsEvent::CircleSequence(circles)) => {
            assert_eq!(circles.len(), 1);
            assert_eq!(circles[0].center, (50, 50));
        }
        other => panic!("{:?}", other),
    }
    assert_eq!(sent[3].to, vec![0, 9]);
    assert_eq!(server_message(&sent[3]), "n joined");
}

#[test]
fn empty_pictures_are_not_sent() {
    let room = game(&[true]);
    let mut outbox = Outbox::new();
    send_current_circles(&room.players[0], &room, &mut outbox);
    broadcast_source_image(&room, &mut outbox);
    assert!(outbox.deliveries.is_empty());
}

#[test]
fn first_event_must_be_a_name() {
    assert_eq!(wait_for_name(None), None);
    assert_eq!(wait_for_name(Some(InboundWsEvent::ChatMessage("x".to_string()))), None);
    assert_eq!(wait_for_name(Some(InboundWsEvent::Circle(circle()))), None);
    let image = InboundWsEvent::NewImage { dimensions: (1, 1), answer: "x".to_string() };
    assert_eq!(wait_for_name(Some(image)), None);
}

#[test]
fn players_are_found_by_private_id() {
    let mut room = game(&[true, false]);
    assert_eq!(room.get_player("private p1").unwrap().sender, 1);
    assert!(room.get_player("public p1").is_none());
    room.get_player_mut("private p0").unwrap().info.has_answer = true;
    assert!(room.get_player_mut("nobody").is_none());
    assert_eq!(answered(&room), vec![true, false]);
    let mut twin = player("twin", false, 8);
    twin.private_id = "private p1".to_string();
    room.insert_player(twin);
    assert_eq!(room.get_player("private p1").unwrap().sender, 1);
    assert_eq!(room.remove_player("private p1").unwrap().sender, 1);
    assert_eq!(room.get_player("private p1").unwrap().sender, 8);
    assert!(room.remove_player("nobody").is_none());
    assert_eq!(room.players.len(), 2);
}

#[test]
fn chat_is_passed_on_to_everyone() {
    let mut room = game(&[true, false]);
    let mut outbox = Outbox::new();
    let result = handle_chat_message("Hello", "private p1", &mut room, &mut outbox);
    assert_eq!(result, Ok(()));
    assert_eq!(outbox.deliveries.len(), 1);
    assert_eq!(outbox.deliveries[0].to, vec![0, 1]);
    match &outbox.deliveries[0].payload {
        Payload::Event(OutboundWsEvent::ChatMessage { name, text }) => {
            assert_eq!((name.as_str(), text.as_str()), ("p1", "Hello"));
        }
        other => panic!("{:?}", other),
    }
    assert_eq!(answered(&room), vec![false, false]);
}

#[test]
fn refused_messages_have_no_effect() {
    let mut room = game(&[true, false]);
    let mut outbox = Outbox::new();
    assert_eq!(
        handle_chat_message("", "private p1", &mut room, &mut outbox),
        Err("Empty message")
    );
    assert_eq!(
        handle_chat_message("Hello", "nobody", &mut room, &mut outbox),
        Err("Player not found")
    );
    assert_eq!(
        handle_chat_message("foo", "nobody", &mut room, &mut outbox),
        Err("Player not found")
    );
    assert!(outbox.deliveries.is_empty());
    assert_eq!(answered(&room), vec![false, false]);
}

#[test]
fn guesses_ignore_case() {
    let mut room = game(&[true, false, false]);
    let mut outbox = Outbox::new();
    assert_eq!(handle_chat_message("FoO", "private p2", &mut room, &mut outbox), Ok(()));
    assert_eq!(answered(&room), vec![false, false, true]);
    assert_eq!(hosts(&room), vec![true, false, false]);
    let sent = &outbox.deliveries;
    assert_eq!(sent.len(), 3);
    assert_eq!(sent[0].to, vec![2]);
    match &sent[0].payload {
        Payload::Event(OutboundWsEvent::Answer(text)) => assert_eq!(text, "FoO"),
        other => panic!("{:?}", other),
    }
    assert_eq!(server_message(&sent[1]), "p2 got it right");
    match &sent[2].payload {
        Payload::Event(OutboundWsEvent::PlayerList(list)) => assert!(list[2].has_answer),
        other => panic!("{:?}", other),
    }
}

#[test]
fn last_guess_ends_the_round() {
    let mut room = game(&[true, false, false]);
    room.image_data = Some(vec![1, 2, 3]);
    let mut outbox = Outbox::new();
    handle_chat_message("foo", "private p1", &mut room, &mut outbox).unwrap();
    let mut outbox = Outbox::new();
    handle_chat_message("foo", "private p2", &mut room, &mut outbox).unwrap();
    assert_eq!(hosts(&room), vec![false, true, false]);
    assert_eq!(answered(&room), vec![false, false, false]);
    let sent = &outbox.deliveries;
    assert_eq!(sent.len(), 6);
    assert_eq!(sent[3].to, vec![0, 1, 2]);
    match &sent[3].payload {
        Payload::Binary(bytes) => assert_eq!(bytes, &vec![1, 2, 3]),
        other => panic!("{:?}", other),
    }
    match &sent[4].payload {
        Payload::Event(OutboundWsEvent::PlayerList(list)) => assert!(list[1].is_host),
        other => panic!("{:?}", other),
    }
    assert_eq!(server_message(&sent[5]), "The answer was \"foo\"");
}

#[test]
fn hosting_goes_round() {
    let mut room = game(&[true, false, false]);
    room.answer = None;
    let mut outbox = Outbox::new();
    handle_round_over(&mut room, &mut outbox);
    assert_eq!(hosts(&room), vec![false, true, false]);
    assert_eq!(outbox.deliveries.len(), 1);
    handle_round_over(&mut room, &mut outbox);
    assert_eq!(hosts(&room), vec![false, false, true]);
    handle_round_over(&mut room, &mut outbox);
    assert_eq!(hosts(&room), vec![true, false, false]);
    let mut alone = game(&[true]);
    handle_round_over(&mut alone, &mut outbox);
    assert_eq!(hosts(&alone), vec![true]);
}

#[test]
fn rounds_without_a_host_are_not_ended() {
    let mut room = game(&[false]);
    let mut outbox = Outbox::new();
    assert_eq!(try_handle_chat_message("foo", "private p0", &mut room, &mut outbox), None);
    assert_eq!(answered(&room), vec![false]);
    assert!(outbox.deliveries.is_empty());
    assert_eq!(
        try_handle_chat_message("bar", "private p0", &mut room, &mut outbox),
        Some(Ok(()))
    );
    assert_eq!(
        try_handle_chat_message("", "private p0", &mut room, &mut outbox),
        Some(Err("Empty message"))
    );
    let mut room = game(&[true, false]);
    assert_eq!(
        try_handle_chat_message("FOO", "private p1", &mut room, &mut outbox),
        Some(Ok(()))
    );
    assert_eq!(hosts(&room), vec![false, true]);
}

#[test]
fn lowered_form_decides() {
    let mut room = game(&[true, false, false]);
    let mut outbox = Outbox::new();
    let lowered = "foo".to_string();
    handle_lowered_message("anything", &lowered, "private p1", &mut room, &mut outbox).unwrap();
    assert_eq!(answered(&room), vec![false, true, false]);
}

#[test]
fn hints_show_only_spaces() {
    assert_eq!(make_hint("a cat"), "_ ___");
    assert_eq!(make_hint("x dog"), make_hint("a cat"));
    assert_eq!(make_hint(""), "");
    assert_eq!(make_hint("  "), "  ");
    assert_eq!(make_hint("é\tß"), "___");
}

#[test]
fn private_ids_stay_private() {
    let mut room = Room::new("r".to_string());
    let mut outbox = Outbox::new();
    for i in 0..3 {
        let p = player_connected(&room, format!("p{}", i), i, &mut outbox);
        connect_player(&mut room, p, &mut outbox);
    }
    room.start_image((1, 1), "foo".to_string());
    for i in 1..3 {
        let id = room.players[i].private_id.clone();
        handle_chat_message("foo", &id, &mut room, &mut outbox).unwrap();
    }
    let mut told = 0;
    for d in &outbox.deliveries {
        if let Payload::Event(OutboundWsEvent::PrivateInfo(p)) = &d.payload {
            assert_eq!(d.to, vec![p.sender]);
            told += 1;
        }
    }
    assert_eq!(told, 3);
}
