use argon2::{Argon2, PasswordHasher};
use best_clips::auth::TokenError;
use best_clips::config::Config;
use best_clips::login::{self, token_reply, HashLookup};
use best_clips::reply::{Reply, ReplyBody};
use best_clips::server_config::{self, apply_config_update, config_reply, ConfigUpdate};
use best_clips::state::{EliminationStep, State};
use best_clips::{admin_data, server_tables};

fn config() -> Config {
    Config {
        voting_round: 2,
        elimination_threshold: 10,
        videos_per_vote: 2,
        unix_deadline: 1234,
        limit_votes: true,
        allow_voting: true,
        include_usernames: false,
    }
}

fn text_of(reply: &Reply) -> String {
    match &reply.body {
        ReplyBody::Text(t) => t.clone(),
        _ => panic!("not text"),
    }
}

fn message_of(reply: &Reply) -> String {
    match &reply.body {
        ReplyBody::Message(msg) => msg.message.clone(),
        _ => panic!("not a message"),
    }
}

fn stored_hash(password: &str) -> String {
    Argon2::default()
        .hash_password_with_salt(password.as_bytes(), b"example-salt")
        .expect("hash")
        .to_string()
}

fn no_changes(token: String) -> ConfigUpdate {
    ConfigUpdate {
        token,
        voting_stage: None,
        videos_per_vote: None,
        unix_deadline: None,
        limit_votes: None,
        elimination_threshold: None,
        allow_voting: None,
        include_usernames: None,
    }
}

#[test]
fn login_with_right_password_issues_token() {
    let mut state = State::new(config());
    let reply = login::handle_get(&mut state, HashLookup::Found(stored_hash("hunter42")), &"hunter42".to_string());
    assert_eq!(reply.status, 200);
    match &reply.body {
        ReplyBody::Token(token) => assert!(state.validate_token(token)),
        _ => panic!("no token"),
    }
}

#[test]
fn login_with_wrong_password_is_refused() {
    let mut state = State::new(config());
    let reply = login::handle_get(&mut state, HashLookup::Found(stored_hash("hunter42")), &"hunter43".to_string());
    assert_eq!(reply.status, 401);
    assert_eq!(text_of(&reply), "Incorrect password");
}

#[test]
fn login_with_broken_hash_fails() {
    let mut state = State::new(config());
    let reply = login::handle_get(&mut state, HashLookup::Found("not a hash".to_string()), &"x".to_string());
    assert_eq!(reply.status, 500);
    assert_eq!(text_of(&reply), "Internal failure");
}

#[test]
fn login_lookup_failures() {
    let mut state = State::new(config());
    let missing = login::handle_get(&mut state, HashLookup::NoSuchUser, &"x".to_string());
    assert_eq!(missing.status, 401);
    assert_eq!(text_of(&missing), "User does not exist");
    let broken = login::handle_get(&mut state, HashLookup::LookupFailed, &"x".to_string());
    assert_eq!(broken.status, 500);
    assert_eq!(text_of(&broken), "Internal database failure");
}

#[test]
fn token_replies() {
    let ok = token_reply(Ok("t".to_string()));
    assert_eq!(ok.status, 200);
    assert!(matches!(&ok.body, ReplyBody::Token(t) if t == "t"));
    let err = token_reply(Err(TokenError::SigningFailed));
    assert_eq!(err.status, 500);
    assert_eq!(text_of(&err), "Internal auth failure");
}

#[test]
fn config_get_needs_a_valid_token() {
    let mut state = State::new(config());
    let refused = server_config::handle_get(&state, &"nope".to_string());
    assert_eq!(refused.status, 401);
    assert_eq!(message_of(&refused), "bad credentials");
    let token = state.generate_new_token().expect("token");
    let served = server_config::handle_get(&state, &token);
    assert_eq!(served.status, 200);
    assert!(matches!(served.body, ReplyBody::Config(c) if c == config()));
    assert_eq!(config_reply(false, &config()).status, 401);
}

#[test]
fn config_post_with_bad_token_changes_nothing() {
    let mut state = State::new(config());
    let mut update = no_changes("nope".to_string());
    update.videos_per_vote = Some(9);
    let (reply, changes) = server_config::handle_post(&mut state, update).expect("answered");
    assert_eq!(reply.status, 401);
    assert_eq!(message_of(&reply), "bad credentials");
    assert!(changes.saved.is_none());
    assert!(changes.eliminations.is_empty());
    assert_eq!(*state.config(), config());
}

#[test]
fn config_post_applies_and_reports() {
    let mut state = State::new(config());
    state.update_voter_record(5, 1);
    let token = state.generate_new_token().expect("token");
    let mut update = no_changes(token);
    update.videos_per_vote = Some(3);
    update.elimination_threshold = Some(40);
    update.allow_voting = Some(false);
    let (reply, changes) = server_config::handle_post(&mut state, update).expect("answered");
    assert_eq!(reply.status, 200);
    assert_eq!(message_of(&reply), "Server state updated");
    assert_eq!(state.videos_per_vote(), 3);
    assert_eq!(state.current_round(), 3);
    assert!(!state.is_voting_allowed());
    assert_eq!(state.get_voter_record(5), vec![false, false]);
    assert_eq!(changes.saved, Some(*state.config()));
    assert_eq!(
        changes.eliminations,
        vec![
            EliminationStep { category: 1, round: 3, threshold: 40 },
            EliminationStep { category: 2, round: 3, threshold: 40 },
        ]
    );
}

#[test]
fn opening_voting_alone_is_not_saved() {
    let mut state = State::new(config());
    let mut update = no_changes(String::new());
    update.allow_voting = Some(false);
    let changes = apply_config_update(&mut state, &update);
    assert!(changes.saved.is_none());
    assert!(!state.is_voting_allowed());
}

#[test]
fn saved_snapshot_precedes_unsaved_change() {
    let mut state = State::new(config());
    let mut update = no_changes(String::new());
    update.unix_deadline = Some(77);
    update.allow_voting = Some(false);
    let changes = apply_config_update(&mut state, &update);
    let saved = changes.saved.expect("saved");
    assert_eq!(saved.unix_deadline, 77);
    assert!(saved.allow_voting);
    assert!(!state.is_voting_allowed());
}

#[test]
fn stage_and_usernames_are_applied() {
    let mut state = State::new(config());
    let mut update = no_changes(String::new());
    update.voting_stage = Some(8);
    update.include_usernames = Some(true);
    update.limit_votes = Some(false);
    let changes = apply_config_update(&mut state, &update);
    assert_eq!(state.current_stage(), 8);
    assert!(state.do_include_usernames());
    assert!(!state.limit_votes());
    assert_eq!(changes.saved, Some(*state.config()));
}

#[test]
fn unserved_tables_answer_404() {
    for reply in [
        server_tables::handle_get(),
        server_tables::handle_post(),
        admin_data::handle_get(),
        admin_data::handle_post(),
    ] {
        assert_eq!(reply.status, 404);
        assert!(matches!(reply.body, ReplyBody::Empty));
    }
}

#[test]
fn checked_post_follows_the_token_check() {
    let mut state = State::new(config());
    let mut update = no_changes(String::new());
    update.unix_deadline = Some(5);
    let (reply, changes) = server_config::checked_post(&mut state, update, false);
    assert_eq!(reply.status, 401);
    assert!(changes.saved.is_none());
    assert_eq!(state.current_round_unix_deadline(), 1234);
    let mut update = no_changes(String::new());
    update.unix_deadline = Some(5);
    let (reply, changes) = server_config::checked_post(&mut state, update, true);
    assert_eq!(reply.status, 200);
    assert_eq!(state.current_round_unix_deadline(), 5);
    assert_eq!(changes.saved.map(|c| c.unix_deadline), Some(5));
}

#[test]
fn bad_token_is_refused_even_at_the_last_round() {
    let mut c = config();
    c.voting_round = i64::MAX;
    let mut state = State::new(c);
    let mut update = no_changes("nope".to_string());
    update.elimination_threshold = Some(3);
    let (reply, _) = server_config::handle_post(&mut state, update).expect("answered");
    assert_eq!(reply.status, 401);
}

#[test]
fn round_past_the_last_is_not_applied() {
    let mut c = config();
    c.voting_round = i64::MAX;
    let mut state = State::new(c);
    let token = state.generate_new_token().expect("token");
    let mut update = no_changes(token);
    update.elimination_threshold = Some(3);
    assert!(server_config::handle_post(&mut state, update).is_none());
    assert_eq!(state.current_round(), i64::MAX);
}
