use session_engine::jackpot::server::{
    invalid_payload_message, player_join_message, reset_message, timer_start_message,
    winner_message, ClientMessage, Connect, Deposit, Disconnect, JackpotPhase, JackpotServer,
    RecordDeposit, COUNTDOWN_MS,
};
use session_engine::jackpot::session::{GameSession, Player};
use session_engine::timer::{TimerCommand, TimerEvent};

fn player(user_id: i32, name: &str, deposit: u64) -> Player {
    Player { user_id, name: String::from(name), deposit }
}

fn session_of(deposits: &[(i32, &str, u64)]) -> GameSession {
    let mut session = GameSession::new();
    for (user_id, name, deposit) in deposits {
        assert!(session.add_player(player(*user_id, name, *deposit)));
    }
    session
}

#[test]
fn new_session_is_empty() {
    let session = GameSession::new();
    assert_eq!(session.len(), 0);
    assert_eq!(session.total(), 0);
    assert!(!session.timer_started());
    assert!(session.draw_winner(0).is_none());
    assert!(session.start_game().is_none());
}

#[test]
fn deposits_of_one_participant_accumulate_in_place() {
    let mut session = session_of(&[(1, "ann", 1000), (2, "bob", 3000)]);
    assert!(session.add_player(player(1, "ann", 500)));
    let players = session.players();
    assert_eq!(players.len(), 2);
    assert_eq!((players[0].user_id, players[0].deposit), (1, 1500));
    assert_eq!((players[1].user_id, players[1].deposit), (2, 3000));
    assert_eq!(session.total(), 4500);
}

#[test]
fn deposit_that_would_overflow_the_total_is_refused() {
    let mut session = session_of(&[(1, "ann", u64::MAX - 10)]);
    assert!(!session.add_player(player(2, "bob", 11)));
    assert_eq!(session.len(), 1);
    assert!(!session.add_player(player(1, "ann", 11)));
    assert_eq!(session.total(), u64::MAX - 10);
    assert!(session.add_player(player(2, "bob", 10)));
    assert_eq!(session.total(), u64::MAX);
}

#[test]
fn countdown_begins_with_the_second_participant_only_once() {
    let mut session = session_of(&[(1, "ann", 1000)]);
    assert!(!session.begin_countdown());
    session.add_player(player(1, "ann", 5));
    assert!(!session.begin_countdown());
    session.add_player(player(2, "bob", 5));
    assert!(session.begin_countdown());
    assert!(session.timer_started());
    assert!(!session.begin_countdown());
}

#[test]
fn draw_winner_follows_the_spans_in_order_of_arrival() {
    let session = session_of(&[(1, "ann", 1000), (2, "bob", 3000)]);
    assert_eq!(session.draw_winner(0).unwrap().user_id, 1);
    assert_eq!(session.draw_winner(999).unwrap().user_id, 1);
    assert_eq!(session.draw_winner(1000).unwrap().user_id, 2);
    assert_eq!(session.draw_winner(3999).unwrap().user_id, 2);
    assert!(session.draw_winner(4000).is_none());
    assert!(session.draw_winner(u64::MAX).is_none());
}

#[test]
fn every_draw_has_one_winner_and_chances_are_the_deposits() {
    let session = session_of(&[(1, "a", 3), (2, "b", 0), (3, "c", 5), (4, "d", 2)]);
    let mut wins = [0u64; 5];
    for roll in 0..10 {
        wins[session.draw_winner(roll).unwrap().user_id as usize] += 1;
    }
    assert_eq!(wins, [0, 3, 0, 5, 2]);
    assert!(session.draw_winner(10).is_none());
}

#[test]
fn participant_without_deposit_never_wins() {
    let session = session_of(&[(1, "a", 0), (2, "b", 1)]);
    assert_eq!(session.draw_winner(0).unwrap().user_id, 2);
    let session = session_of(&[(1, "a", 0), (2, "b", 0)]);
    assert!(session.draw_winner(0).is_none());
    assert!(session.start_game().is_none());
}

#[test]
fn start_game_picks_in_proportion_to_the_deposits() {
    let session = session_of(&[(1, "ann", 1000), (2, "bob", 3000)]);
    let trials = 4000;
    let mut second = 0;
    for _ in 0..trials {
        let winner = session.start_game().unwrap();
        assert!(winner.user_id == 1 || winner.user_id == 2);
        if winner.user_id == 2 {
            second += 1;
        }
    }
    // Expected 3000 of 4000; seven standard deviations are about 190.
    assert!(second > 2800 && second < 3200, "second participant won {} times", second);
}

#[test]
fn jackpot_messages_have_their_texts() {
    let message = timer_start_message();
    assert_eq!(message.msg, "The game timer has started. 15 seconds until the winner is chosen.");
    assert_eq!(message.variant, "timer_start");
    let message = winner_message("ann", 4000);
    assert_eq!(message.msg, "ann has won the jackpot of 40");
    assert_eq!(message.variant, "winner");
    let message = player_join_message("bob", 1250);
    assert_eq!(message.msg, "bob has joined the game with a deposit of 12.5");
    assert_eq!(message.variant, "player_join");
    let message = reset_message();
    assert_eq!((message.msg.as_str(), message.variant.as_str()), ("Resetting game!", "reset"));
    let message = invalid_payload_message();
    assert_eq!((message.msg.as_str(), message.variant.as_str()), ("Invalid payload", "error"));
    assert_eq!(
        ClientMessage::new("x", "y").to_wire(),
        "{\"msg\":\"x\",\"variant\":\"y\"}"
    );
}

fn server_with_connections(ids: &[i32]) -> JackpotServer {
    let mut server = JackpotServer::new();
    for id in ids {
        server.handle_connect(Connect { user_id: *id });
    }
    server
}

#[test]
fn two_deposits_start_the_countdown_and_the_prize_is_their_sum() {
    let mut server = server_with_connections(&[1, 2, 3]);
    assert_eq!(server.phase(), JackpotPhase::Idle);
    assert_eq!(server.prize(), 0);

    let output = server.handle_deposit(Deposit { player: player(1, "P1", 1000) });
    assert_eq!(server.phase(), JackpotPhase::Collecting);
    assert_eq!(output.deliveries.len(), 1);
    assert_eq!(output.deliveries[0].recipients, vec![1, 2, 3]);
    assert_eq!(
        output.deliveries[0].text,
        "{\"msg\":\"P1 has joined the game with a deposit of 10\",\"variant\":\"player_join\"}"
    );
    assert!(output.timers.is_empty());
    assert_eq!(output.records, vec![RecordDeposit { user_id: 1, amount: 1000 }]);

    let output = server.handle_deposit(Deposit { player: player(2, "P2", 3000) });
    assert_eq!(server.phase(), JackpotPhase::CountingDown);
    assert_eq!(output.deliveries.len(), 2);
    assert_eq!(
        output.deliveries[0].text,
        "{\"msg\":\"P2 has joined the game with a deposit of 30\",\"variant\":\"player_join\"}"
    );
    assert_eq!(
        output.deliveries[1].text,
        "{\"msg\":\"The game timer has started. 15 seconds until the winner is chosen.\",\"variant\":\"timer_start\"}"
    );
    assert_eq!(
        output.timers,
        vec![TimerCommand::After { delay_ms: COUNTDOWN_MS, event: TimerEvent::CountdownExpired }]
    );
    assert_eq!(output.records, vec![RecordDeposit { user_id: 2, amount: 3000 }]);
    assert_eq!(server.prize(), 4000);

    let output = server.handle_timer(TimerEvent::CountdownExpired);
    assert_eq!(output.deliveries.len(), 2);
    let winner_text = &output.deliveries[0].text;
    assert!(
        winner_text == "{\"msg\":\"P1 has won the jackpot of 40\",\"variant\":\"winner\"}"
            || winner_text == "{\"msg\":\"P2 has won the jackpot of 40\",\"variant\":\"winner\"}"
    );
    assert_eq!(output.deliveries[0].recipients, vec![1, 2, 3]);
    assert_eq!(output.deliveries[1].text, "{\"msg\":\"Resetting game!\",\"variant\":\"reset\"}");
    assert!(output.timers.is_empty());
    assert_eq!(server.phase(), JackpotPhase::Idle);
    assert!(server.session().is_none());
    assert_eq!(server.prize(), 0);
}

#[test]
fn deposit_during_the_countdown_takes_part_in_the_draw() {
    let mut server = server_with_connections(&[1]);
    server.handle_deposit(Deposit { player: player(1, "a", 0) });
    server.handle_deposit(Deposit { player: player(2, "b", 0) });
    assert_eq!(server.phase(), JackpotPhase::CountingDown);
    let output = server.handle_deposit(Deposit { player: player(3, "late", 700) });
    assert_eq!(output.deliveries.len(), 1);
    assert!(output.timers.is_empty());
    assert_eq!(output.records, vec![RecordDeposit { user_id: 3, amount: 700 }]);
    assert_eq!(server.session().unwrap().len(), 3);
    let output = server.handle_timer(TimerEvent::CountdownExpired);
    assert_eq!(
        output.deliveries[0].text,
        "{\"msg\":\"late has won the jackpot of 7\",\"variant\":\"winner\"}"
    );
}

#[test]
fn countdown_without_any_stake_closes_the_session_without_a_winner() {
    let mut server = server_with_connections(&[1]);
    server.handle_deposit(Deposit { player: player(1, "a", 0) });
    server.handle_deposit(Deposit { player: player(2, "b", 0) });
    let output = server.handle_timer(TimerEvent::CountdownExpired);
    assert_eq!(output.deliveries.len(), 1);
    assert_eq!(output.deliveries[0].text, "{\"msg\":\"Resetting game!\",\"variant\":\"reset\"}");
    assert_eq!(server.phase(), JackpotPhase::Idle);
}

#[test]
fn timer_events_out_of_place_are_ignored() {
    let mut server = server_with_connections(&[1]);
    let output = server.handle_timer(TimerEvent::CountdownExpired);
    assert!(output.deliveries.is_empty());
    server.handle_deposit(Deposit { player: player(1, "a", 5) });
    let output = server.handle_timer(TimerEvent::CountdownExpired);
    assert!(output.deliveries.is_empty());
    assert_eq!(server.phase(), JackpotPhase::Collecting);
    let output = server.handle_timer(TimerEvent::Tick);
    assert!(output.deliveries.is_empty());
    assert_eq!(server.session().unwrap().len(), 1);
}

#[test]
fn refused_deposit_is_answered_to_its_sender_only() {
    let mut server = server_with_connections(&[1, 2]);
    server.handle_deposit(Deposit { player: player(1, "a", u64::MAX) });
    let output = server.handle_deposit(Deposit { player: player(2, "b", 1) });
    assert_eq!(output.deliveries.len(), 1);
    assert_eq!(output.deliveries[0].recipients, vec![2]);
    assert_eq!(output.deliveries[0].text, "{\"msg\":\"Invalid payload\",\"variant\":\"error\"}");
    assert!(output.records.is_empty());
    assert!(output.timers.is_empty());
    assert_eq!(server.session().unwrap().len(), 1);
    assert_eq!(server.phase(), JackpotPhase::Collecting);
    let sent = server.reject_payload(1);
    assert_eq!(sent[0].recipients, vec![1]);
    assert!(server.reject_payload(9).is_empty());
}

#[test]
fn notifications_go_to_every_connection() {
    let mut server = server_with_connections(&[4, 5]);
    server.handle_disconnect(Disconnect { user_id: 9 });
    assert_eq!(server.connections(), vec![4, 5]);
    let sent = server.notify_timer_start();
    assert_eq!(sent[0].recipients, vec![4, 5]);
    let sent = server.notify_player_join(&player(1, "x", 150));
    assert_eq!(
        sent[0].text,
        "{\"msg\":\"x has joined the game with a deposit of 1.5\",\"variant\":\"player_join\"}"
    );
    server.handle_deposit(Deposit { player: player(1, "x", 150) });
    server.handle_deposit(Deposit { player: player(2, "y", 275) });
    let sent = server.notify_winner(player(2, "y", 275));
    assert_eq!(sent[0].text, "{\"msg\":\"y has won the jackpot of 4.25\",\"variant\":\"winner\"}");
    let sent = server.reset_game();
    assert_eq!(sent[0].text, "{\"msg\":\"Resetting game!\",\"variant\":\"reset\"}");
    assert!(server.session().is_none());
    server.handle_disconnect(Disconnect { user_id: 4 });
    let sent = server.handle_message(ClientMessage::new("m", "v"));
    assert_eq!(sent[0].recipients, vec![5]);
}

#[test]
fn settle_announces_the_winner_with_the_prize_and_closes_the_session() {
    let mut server = server_with_connections(&[1]);
    server.handle_deposit(Deposit { player: player(1, "a", 100) });
    server.handle_deposit(Deposit { player: player(2, "b", 23) });
    let sent = server.settle(Some(player(2, "b", 23)));
    assert_eq!(sent.len(), 2);
    assert_eq!(sent[0].text, "{\"msg\":\"b has won the jackpot of 1.23\",\"variant\":\"winner\"}");
    assert_eq!(sent[1].text, "{\"msg\":\"Resetting game!\",\"variant\":\"reset\"}");
    assert_eq!(server.phase(), JackpotPhase::Idle);
}

use session_engine::jackpot::server::{deposit_request, DepositRequest};

#[test]
fn text_of_a_connection_becomes_a_deposit_a_refusal_or_nothing() {
    assert!(matches!(deposit_request(1, None, Some(5)), DepositRequest::Ignore));
    assert!(matches!(deposit_request(1, None, None), DepositRequest::Ignore));
    assert!(matches!(deposit_request(1, Some(String::from("ann")), None), DepositRequest::Reject));
    match deposit_request(7, Some(String::from("ann")), Some(125)) {
        DepositRequest::Accept(deposit) => {
            assert_eq!(deposit.player.user_id, 7);
            assert_eq!(deposit.player.name, "ann");
            assert_eq!(deposit.player.deposit, 125);
        }
        other => panic!("unexpected {:?}", other),
    }
}

#[test]
fn jackpot_forgets_connections_whose_delivery_failed() {
    let mut server = server_with_connections(&[1, 2, 3]);
    server.handle_deposit(Deposit { player: player(1, "a", 5) });
    server.handle_failed(&vec![3, 1]);
    assert_eq!(server.connections(), vec![2]);
    assert_eq!(server.session().unwrap().len(), 1);
    let sent = server.notify_timer_start();
    assert_eq!(sent[0].recipients, vec![2]);
}
