//! The score ledger and the persisted high score.

use asteroids::events::ScoreEvent;
use asteroids::game::Game;
use asteroids::shared_systems::{load_high_score, save_high_score, update_scores};
use asteroids::storage::{high_score_bytes, parse_high_score};

#[test]
fn scores_accumulate_and_the_high_score_follows() {
    let mut game = Game::new();
    game.score_events.push(ScoreEvent(1));
    game.score_events.push(ScoreEvent(10));
    update_scores(&mut game);
    assert_eq!(game.score.0, 11);
    assert_eq!(game.high_score.0, 11);
    assert_eq!(game.score_events.len(), 0);
}

#[test]
fn the_high_score_never_decreases() {
    let mut game = Game::new();
    game.high_score.0 = 500;
    game.score_events.push(ScoreEvent(10));
    update_scores(&mut game);
    assert_eq!(game.score.0, 10);
    assert_eq!(game.high_score.0, 500);
}

#[test]
fn the_score_saturates_at_its_top() {
    let mut game = Game::new();
    game.score.0 = 65530;
    game.high_score.0 = 65530;
    game.score_events.push(ScoreEvent(10));
    update_scores(&mut game);
    assert_eq!(game.score.0, 65535);
    assert_eq!(game.high_score.0, 65535);
}

#[test]
fn without_events_nothing_changes() {
    let mut game = Game::new();
    game.score.0 = 7;
    game.high_score.0 = 9;
    update_scores(&mut game);
    assert_eq!(game.score.0, 7);
    assert_eq!(game.high_score.0, 9);
}

#[test]
fn parsing_stored_text() {
    assert_eq!(parse_high_score(&b"150".to_vec()), 150);
    assert_eq!(parse_high_score(&b"+150".to_vec()), 150);
    assert_eq!(parse_high_score(&b"0150".to_vec()), 150);
    assert_eq!(parse_high_score(&b"0".to_vec()), 0);
    assert_eq!(parse_high_score(&b"65535".to_vec()), 65535);
}

#[test]
fn unreadable_stored_text_counts_as_zero() {
    assert_eq!(parse_high_score(&b"".to_vec()), 0);
    assert_eq!(parse_high_score(&b"+".to_vec()), 0);
    assert_eq!(parse_high_score(&b"15a".to_vec()), 0);
    assert_eq!(parse_high_score(&b"-5".to_vec()), 0);
    assert_eq!(parse_high_score(&b"65536".to_vec()), 0);
    assert_eq!(parse_high_score(&b"999999999999".to_vec()), 0);
    assert_eq!(parse_high_score(&b" 5".to_vec()), 0);
}

#[test]
fn rendering_the_counter() {
    assert_eq!(high_score_bytes(0), b"0".to_vec());
    assert_eq!(high_score_bytes(7), b"7".to_vec());
    assert_eq!(high_score_bytes(150), b"150".to_vec());
    assert_eq!(high_score_bytes(65535), b"65535".to_vec());
}

#[test]
fn the_codec_round_trips() {
    for v in [0u16, 1, 9, 10, 99, 100, 150, 4095, 65535] {
        assert_eq!(parse_high_score(&high_score_bytes(v)), v);
    }
}

#[test]
fn persisted_score_loads_grows_and_saves() {
    // The stored file says 150; after loading, the high score is 150. When
    // the run reaches 200 the high score follows, and saving writes "200".
    let mut game = Game::new();
    load_high_score(&mut game, &b"150".to_vec());
    assert_eq!(game.high_score.0, 150);
    game.score.0 = 150;
    game.score_events.push(ScoreEvent(50));
    update_scores(&mut game);
    assert_eq!(game.score.0, 200);
    assert_eq!(game.high_score.0, 200);
    assert_eq!(save_high_score(&game), b"200".to_vec());
}
