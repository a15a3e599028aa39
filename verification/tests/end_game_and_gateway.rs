use trivia_arena::endgame::{EndGame, EndGameAction, EndGameEvent, EndGameStage};
use trivia_arena::gateway::forwarded_message;
use trivia_arena::messages::{emoji_broadcast, RpcCode, ServerEvent};

#[test]
fn end_game_persists_every_score_then_clears() {
    let (game, action) = EndGame::start();
    assert!(matches!(action, EndGameAction::ConnectLeaderboard));
    let (game, action) = game.advance(EndGameEvent::Connected { ok: true });
    assert!(matches!(action, EndGameAction::ReadAllScores));
    let scores = vec![("ana".to_string(), 1500), ("bob".to_string(), 300)];
    let (game, action) = game.advance(EndGameEvent::ScoresRead(Some(scores)));
    match action {
        EndGameAction::AddToTotal { username, points } => {
            assert_eq!(username, "ana");
            assert_eq!(points, 1500);
        }
        _ => panic!("expected the first addition"),
    }
    let (game, action) = game.advance(EndGameEvent::TotalAdded);
    match action {
        EndGameAction::AddToTotal { username, points } => {
            assert_eq!(username, "bob");
            assert_eq!(points, 300);
        }
        _ => panic!("expected the second addition"),
    }
    let (game, action) = game.advance(EndGameEvent::TotalAdded);
    assert!(matches!(action, EndGameAction::ClearLeaderboard));
    let (game, action) = game.advance(EndGameEvent::Cleared);
    assert!(matches!(game.stage, EndGameStage::Done));
    match action {
        EndGameAction::Reply(Ok(ack)) => assert!(ack.success),
        _ => panic!("expected success"),
    }
}

#[test]
fn end_game_clears_even_when_scores_cannot_be_read() {
    let (game, _) = EndGame::start();
    let (game, _) = game.advance(EndGameEvent::Connected { ok: true });
    let (game, action) = game.advance(EndGameEvent::ScoresRead(None));
    assert!(matches!(action, EndGameAction::ClearLeaderboard));
    let (_, action) = game.advance(EndGameEvent::Cleared);
    assert!(matches!(action, EndGameAction::Reply(Ok(_))));

    let (game, _) = EndGame::start();
    let (game, _) = game.advance(EndGameEvent::Connected { ok: true });
    let (_, action) = game.advance(EndGameEvent::ScoresRead(Some(Vec::new())));
    assert!(matches!(action, EndGameAction::ClearLeaderboard));
}

#[test]
fn end_game_without_leaderboard_store_fails() {
    let (game, _) = EndGame::start();
    let (game, action) = game.advance(EndGameEvent::Connected { ok: false });
    assert!(matches!(game.stage, EndGameStage::Done));
    match action {
        EndGameAction::Reply(Err(e)) => {
            assert_eq!(e.code, RpcCode::Internal);
            assert_eq!(e.message, "Error conectando Redis");
        }
        _ => panic!("expected an error"),
    }
}

#[test]
fn gateway_forwards_only_intact_messages() {
    let ok: Result<u32, String> = Ok(7);
    let broken: Result<u32, String> = Err("reset".to_string());
    assert_eq!(forwarded_message(ok), Some(7));
    assert_eq!(forwarded_message(broken), None);
}

#[test]
fn emoji_is_broadcast_as_is() {
    match emoji_broadcast("🎉".to_string()) {
        ServerEvent::EmojiBroadcast(code) => assert_eq!(code, "🎉"),
        _ => panic!("expected an emoji"),
    }
}
