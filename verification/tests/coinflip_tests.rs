use session_engine::coinflip::game::{
    loser_message, result_message, winner_message, CoinflipGame, JoinGameError, Player,
};
use session_engine::coinflip::server::{
    new_game_message, AddGame, ClientMessage, CoinflipServer, Connect, Disconnect, JoinGame,
    JoinPayload, JsonResponse,
};

fn player(id: usize, name: &str, connection: i32) -> Player {
    Player { id, name: String::from(name), connection }
}

fn open_game() -> CoinflipGame {
    CoinflipGame::new(String::from("g-1"), 500, player(1, "P1", 11))
}

#[test]
fn new_game_waits_with_its_opener() {
    let game = open_game();
    assert_eq!(game.id(), "g-1");
    assert_eq!(game.amount(), 500);
    let players = game.players();
    assert_eq!(players.len(), 1);
    assert_eq!((players[0].id, players[0].name.as_str(), players[0].connection), (1, "P1", 11));
    assert!(game.spectators().is_empty());
    assert!(game.has_player(1));
    assert!(!game.has_player(2));
    assert!(game.start_game().is_empty());
}

#[test]
fn join_by_a_player_already_present_is_rejected_without_change() {
    let mut game = open_game();
    assert_eq!(game.join(player(1, "again", 12)), Err(JoinGameError::AlreadyJoined));
    let players = game.players();
    assert_eq!(players.len(), 1);
    assert_eq!(players[0].name, "P1");
}

#[test]
fn join_on_a_full_game_is_rejected_without_change() {
    let mut game = open_game();
    assert_eq!(game.join(player(2, "P2", 22)), Ok(()));
    assert_eq!(game.join(player(3, "P3", 33)), Err(JoinGameError::GameFull));
    assert_eq!(game.join(player(2, "P2", 22)), Err(JoinGameError::AlreadyJoined));
    let players = game.players();
    assert_eq!(players.len(), 2);
    assert_eq!((players[0].id, players[1].id), (1, 2));
}

#[test]
fn resolve_tells_winner_loser_and_spectators() {
    let mut game = open_game();
    game.watch(7);
    game.watch(8);
    game.watch(7);
    game.unwatch(9);
    game.join(player(2, "P2", 22)).unwrap();
    let sent = game.resolve(0);
    assert_eq!(sent.len(), 3);
    assert_eq!((sent[0].recipients.clone(), sent[0].text.as_str()), (vec![11], "You won $5.00!"));
    assert_eq!(
        (sent[1].recipients.clone(), sent[1].text.as_str()),
        (vec![22], "You lost. Better luck next time!")
    );
    assert_eq!((sent[2].recipients.clone(), sent[2].text.as_str()), (vec![7, 8], "Player P1 won $5.00!"));
    let sent = game.resolve(1);
    assert_eq!(sent[0].recipients, vec![22]);
    assert_eq!(sent[1].recipients, vec![11]);
    assert_eq!(sent[2].text, "Player P2 won $5.00!");
    let sent = game.resolve(6);
    assert_eq!(sent[0].recipients, vec![11]);
}

#[test]
fn start_game_flips_between_the_two_players() {
    let mut game = open_game();
    game.join(player(2, "P2", 22)).unwrap();
    let mut first = 0;
    let mut second = 0;
    for _ in 0..400 {
        let sent = game.start_game();
        assert_eq!(sent.len(), 3);
        assert_eq!(sent[1].text, "You lost. Better luck next time!");
        if sent[0].recipients == vec![11] {
            assert_eq!(sent[1].recipients, vec![22]);
            assert_eq!(sent[2].text, "Player P1 won $5.00!");
            first += 1;
        } else {
            assert_eq!(sent[0].recipients, vec![22]);
            assert_eq!(sent[1].recipients, vec![11]);
            assert_eq!(sent[2].text, "Player P2 won $5.00!");
            second += 1;
        }
    }
    assert!(first > 100 && second > 100, "{} against {}", first, second);
}

#[test]
fn game_message_goes_to_players_then_spectators() {
    let mut game = open_game();
    game.watch(7);
    game.join(player(2, "P2", 22)).unwrap();
    let delivery = game.handle_message(String::from("hello"));
    assert_eq!(delivery.recipients, vec![11, 22, 7]);
    assert_eq!(delivery.text, "hello");
}

#[test]
fn coinflip_messages_have_their_texts() {
    assert_eq!(winner_message(500), "You won $5.00!");
    assert_eq!(winner_message(1234), "You won $12.34!");
    assert_eq!(loser_message(), "You lost. Better luck next time!");
    assert_eq!(result_message("ann", 50), "Player ann won $0.50!");
}

#[test]
fn new_game_announcement_is_a_json_object() {
    let response = new_game_message("g-1", 500, &player(1, "P \"1\"", 11));
    assert_eq!(response.message_type, "new_game");
    assert_eq!(
        response.payload,
        "{\"amount\":5.0,\"game_id\":\"g-1\",\"player\":{\"id\":1,\"name\":\"P \\\"1\\\"\"}}"
    );
    let wire = response.to_wire();
    let parsed: serde_json::Value = serde_json::from_str(&wire).unwrap();
    assert_eq!(parsed.get("message_type").and_then(|v| v.as_str()), Some("new_game"));
    let payload = parsed.get("payload").unwrap();
    assert_eq!(payload.get("amount").and_then(|v| v.as_f64()), Some(5.0));
    assert_eq!(payload.get("game_id").and_then(|v| v.as_str()), Some("g-1"));
    let opener = payload.get("player").unwrap();
    assert_eq!(opener.get("id").and_then(|v| v.as_u64()), Some(1));
    assert_eq!(opener.get("name").and_then(|v| v.as_str()), Some("P \"1\""));
}

fn add(server: &mut CoinflipServer, id: &str, amount: u64, opener: Player) -> bool {
    server.add_game_with_id(String::from(id), AddGame { amount, player: opener }).is_some()
}

fn join(
    server: &mut CoinflipServer,
    id: &str,
    joiner: Player,
    draw: u64,
) -> Result<Vec<session_engine::hub::Delivery>, JoinGameError> {
    server.join_with_draw(JoinGame { gameid: String::from(id), player: joiner }, draw)
}

#[test]
fn create_join_resolve_and_third_join_is_rejected() {
    let mut server = CoinflipServer::new();
    server.handle_connect(Connect { session_id: String::new(), user_id: 50 });
    let sent = server
        .add_game_with_id(String::from("g-1"), AddGame { amount: 500, player: player(1, "P1", 11) })
        .unwrap();
    assert_eq!(sent.len(), 1);
    assert_eq!(sent[0].recipients, vec![50]);
    assert_eq!(
        sent[0].text,
        "{\"message_type\":\"new_game\",\"payload\":{\"amount\":5.0,\"game_id\":\"g-1\",\"player\":{\"id\":1,\"name\":\"P1\"}}}"
    );
    assert_eq!(server.open_games(), 1);
    server.handle_connect(Connect { session_id: String::from("g-1"), user_id: 60 });
    assert!(server.game(&String::from("g-1")).unwrap().spectators().is_empty());
    assert!(server.watch_game(&String::from("g-1"), 60));
    assert_eq!(server.game(&String::from("g-1")).unwrap().spectators(), vec![60]);

    let result = server.handle_join_game(JoinGame {
        gameid: String::from("g-1"),
        player: player(2, "P2", 22),
    });
    let sent = result.unwrap();
    assert_eq!(sent.len(), 3);
    assert_eq!(sent[0].text, "You won $5.00!");
    assert_eq!(sent[1].text, "You lost. Better luck next time!");
    let winner = sent[0].recipients.clone();
    let loser = sent[1].recipients.clone();
    assert!(
        (winner == vec![11] && loser == vec![22] && sent[2].text == "Player P1 won $5.00!")
            || (winner == vec![22] && loser == vec![11] && sent[2].text == "Player P2 won $5.00!")
    );
    assert_eq!(sent[2].recipients, vec![60]);
    assert_eq!(server.open_games(), 0);

    let third = server.handle_join_game(JoinGame {
        gameid: String::from("g-1"),
        player: player(3, "P3", 33),
    });
    assert_eq!(third.err(), Some(JoinGameError::GameNotFound));
    assert_eq!(server.open_games(), 0);
}

#[test]
fn join_is_rejected_without_change_for_unknown_games_and_present_players() {
    let mut server = CoinflipServer::new();
    assert!(add(&mut server, "a", 100, player(1, "P1", 11)));
    assert!(add(&mut server, "b", 200, player(1, "P1", 11)));
    assert_eq!(join(&mut server, "zzz", player(2, "P2", 22), 0).err(), Some(JoinGameError::GameNotFound));
    assert_eq!(join(&mut server, "a", player(1, "P1", 11), 0).err(), Some(JoinGameError::AlreadyJoined));
    assert_eq!(server.open_games(), 2);
    assert_eq!(server.game(&String::from("a")).unwrap().players().len(), 1);
    let sent = join(&mut server, "a", player(2, "P2", 22), 1).unwrap();
    assert_eq!(sent[0].recipients, vec![22]);
    assert_eq!(sent[0].text, "You won $1.00!");
    assert_eq!(server.open_games(), 1);
    assert!(server.game(&String::from("a")).is_none());
    assert_eq!(server.game(&String::from("b")).unwrap().amount(), 200);
}

#[test]
fn game_name_in_use_is_refused() {
    let mut server = CoinflipServer::new();
    assert!(add(&mut server, "a", 100, player(1, "P1", 11)));
    assert!(!add(&mut server, "a", 900, player(2, "P2", 22)));
    assert_eq!(server.open_games(), 1);
    assert_eq!(server.game(&String::from("a")).unwrap().amount(), 100);
}

#[test]
fn handle_add_game_opens_games_under_fresh_names() {
    let mut server = CoinflipServer::new();
    server.handle_connect(Connect { session_id: String::new(), user_id: 5 });
    let first = server.handle_add_game(AddGame { amount: 100, player: player(1, "P1", 11) }).unwrap();
    let second = server.handle_add_game(AddGame { amount: 100, player: player(1, "P1", 11) }).unwrap();
    assert_eq!(server.open_games(), 2);
    assert_ne!(first[0].text, second[0].text);
    let parsed: serde_json::Value = serde_json::from_str(&first[0].text).unwrap();
    let id = parsed.get("payload").and_then(|p| p.get("game_id")).and_then(|v| v.as_str()).unwrap();
    assert_eq!(id.len(), 36);
    assert!(server.game(&String::from(id)).is_some());
}

#[test]
fn connect_and_disconnect_change_the_lobby_only() {
    let mut server = CoinflipServer::new();
    assert!(add(&mut server, "a", 100, player(1, "P1", 11)));
    assert!(server.watch_game(&String::from("a"), 7));
    server.handle_connect(Connect { session_id: String::from("a"), user_id: 7 });
    server.handle_connect(Connect { session_id: String::from("nowhere"), user_id: 8 });
    server.handle_connect(Connect { session_id: String::from("a"), user_id: 7 });
    server.handle_connect(Connect { session_id: String::from("a"), user_id: 9 });
    assert_eq!(server.lobby(), vec![7, 8, 9]);
    assert_eq!(server.game(&String::from("a")).unwrap().spectators(), vec![7]);
    server.handle_disconnect(Disconnect { session_id: String::from("a"), user_id: 7 });
    assert_eq!(server.lobby(), vec![8, 9]);
    assert_eq!(server.game(&String::from("a")).unwrap().spectators(), vec![7]);
    server.handle_disconnect(Disconnect { session_id: String::from("a"), user_id: 99 });
    assert_eq!(server.lobby(), vec![8, 9]);
    assert_eq!(server.open_games(), 1);
}

#[test]
fn watching_is_an_entry_of_its_own() {
    let mut server = CoinflipServer::new();
    assert!(add(&mut server, "a", 100, player(1, "P1", 11)));
    assert!(add(&mut server, "b", 100, player(2, "P2", 22)));
    assert!(server.watch_game(&String::from("a"), 7));
    assert!(server.watch_game(&String::from("a"), 7));
    assert!(server.watch_game(&String::from("a"), 8));
    assert!(!server.watch_game(&String::from("zzz"), 7));
    assert_eq!(server.game(&String::from("a")).unwrap().spectators(), vec![7, 8]);
    assert!(server.game(&String::from("b")).unwrap().spectators().is_empty());
    assert!(server.lobby().is_empty());
    assert!(server.unwatch_game(&String::from("a"), 7));
    assert!(server.unwatch_game(&String::from("a"), 99));
    assert!(!server.unwatch_game(&String::from("zzz"), 8));
    assert_eq!(server.game(&String::from("a")).unwrap().spectators(), vec![8]);
}

#[test]
fn lobby_gets_messages_and_forgets_failed_connections() {
    let mut server = CoinflipServer::new();
    assert!(add(&mut server, "a", 100, player(1, "P1", 11)));
    for user_id in [7, 8, 9] {
        server.handle_connect(Connect { session_id: String::new(), user_id });
    }
    server.handle_failed(&vec![9, 7, 50]);
    assert_eq!(server.lobby(), vec![8]);
    assert_eq!(server.open_games(), 1);
    let sent = server.handle_message(ClientMessage::Text(String::from("t")));
    assert_eq!((sent[0].recipients.clone(), sent[0].text.as_str()), (vec![8], "t"));
    let sent = server.handle_message(ClientMessage::Json(JsonResponse {
        message_type: String::from("k"),
        payload: String::from("[1]"),
    }));
    assert_eq!(sent[0].text, "{\"message_type\":\"k\",\"payload\":[1]}");
}

#[test]
fn join_payload_holds_player_and_game() {
    let payload = JoinPayload { user_id: 4, game_id: String::from("g") };
    assert_eq!(payload.user_id, 4);
    assert_eq!(payload.game_id, "g");
}

use session_engine::coinflip::server::join_request;

#[test]
fn join_request_needs_a_name() {
    let payload = JoinPayload { user_id: 4, game_id: String::from("g") };
    assert!(join_request(payload, None, 9).is_none());
    let payload = JoinPayload { user_id: 4, game_id: String::from("g") };
    let request = join_request(payload, Some(String::from("ann")), 9).unwrap();
    assert_eq!(request.gameid, "g");
    assert_eq!((request.player.id, request.player.name.as_str(), request.player.connection), (4, "ann", 9));
}

use session_engine::coinflip::game::join_refusal;

#[test]
fn refused_join_is_answered_with_its_reason() {
    let refusal = join_refusal(JoinGameError::GameNotFound, 5);
    assert_eq!((refusal.recipients, refusal.text.as_str()), (vec![5], "Game not found"));
    let refusal = join_refusal(JoinGameError::AlreadyJoined, 6);
    assert_eq!((refusal.recipients, refusal.text.as_str()), (vec![6], "You are already in this game"));
    let refusal = join_refusal(JoinGameError::GameFull, 7);
    assert_eq!((refusal.recipients, refusal.text.as_str()), (vec![7], "Game is full"));
}
