use best_clips::config::{Config, NUMBER_OF_CATEGORIES};
use best_clips::state::{EliminationStep, State};

fn limited_config() -> Config {
    Config {
        voting_round: 3,
        elimination_threshold: 10,
        videos_per_vote: 2,
        unix_deadline: 1_700_000_000,
        limit_votes: true,
        allow_voting: true,
        include_usernames: false,
    }
}

#[test]
fn config_defaults_when_nothing_saved() {
    let config = Config::new(None);
    assert_eq!(config.voting_round, 1);
    assert_eq!(config.videos_per_vote, 2);
    assert_eq!(config.unix_deadline, 0);
    assert!(!config.limit_votes);
    assert_eq!(config.elimination_threshold, 9999);
    assert!(config.allow_voting);
    assert!(!config.include_usernames);
}

#[test]
fn config_keeps_saved_parameters() {
    let saved = limited_config();
    assert_eq!(Config::new(Some(saved)), saved);
}

#[test]
fn fresh_state_reports_no_votes() {
    let state = State::new(limited_config());
    assert_eq!(state.get_voter_record(7), vec![false, false]);
    assert_eq!(state.current_round(), 3);
    assert_eq!(state.current_stage(), 3);
    assert_eq!(state.videos_per_vote(), 2);
    assert!(state.limit_votes());
    assert_eq!(state.current_round_unix_deadline(), 1_700_000_000);
    assert!(state.is_voting_allowed());
    assert!(!state.do_include_usernames());
    assert_eq!(*state.config(), limited_config());
}

#[test]
fn recorded_vote_reads_back() {
    let mut state = State::new(limited_config());
    state.update_voter_record(7, 2);
    assert_eq!(state.get_voter_record(7), vec![false, true]);
    state.update_voter_record(7, 1);
    assert_eq!(state.get_voter_record(7), vec![true, true]);
}

#[test]
fn vote_leaves_other_voters_alone() {
    let mut state = State::new(limited_config());
    state.update_voter_record(7, 1);
    assert_eq!(state.get_voter_record(8), vec![false, false]);
}

#[test]
fn out_of_range_categories_are_ignored() {
    let mut state = State::new(limited_config());
    state.update_voter_record(7, 0);
    state.update_voter_record(7, NUMBER_OF_CATEGORIES + 1);
    state.update_voter_record(7, -4);
    assert_eq!(state.get_voter_record(7), vec![false, false]);
}

#[test]
fn records_are_hidden_and_not_kept_without_limit() {
    let mut config = limited_config();
    config.limit_votes = false;
    let mut state = State::new(config);
    state.update_voter_record(7, 1);
    assert_eq!(state.get_voter_record(7), vec![false, false]);
    state.set_limit_votes(true);
    assert_eq!(state.get_voter_record(7), vec![false, false]);
}

#[test]
fn turning_limit_off_hides_records() {
    let mut state = State::new(limited_config());
    state.update_voter_record(7, 1);
    state.set_limit_votes(false);
    assert_eq!(state.get_voter_record(7), vec![false, false]);
    state.set_limit_votes(true);
    assert_eq!(state.get_voter_record(7), vec![true, false]);
}

#[test]
fn flags_stay_set_within_a_round() {
    let mut state = State::new(limited_config());
    state.update_voter_record(7, 1);
    state.update_voter_record(7, 1);
    state.update_voter_record(8, 2);
    assert_eq!(state.get_voter_record(7), vec![true, false]);
}

#[test]
fn vote_order_does_not_matter() {
    let mut a = State::new(limited_config());
    a.update_voter_record(1, 1);
    a.update_voter_record(2, 2);
    a.update_voter_record(1, 2);
    let mut b = State::new(limited_config());
    b.update_voter_record(1, 2);
    b.update_voter_record(2, 2);
    b.update_voter_record(1, 1);
    for user in [1, 2, 3] {
        assert_eq!(a.get_voter_record(user), b.get_voter_record(user));
    }
}

#[test]
fn voter_record_is_rebuilt_from_votes() {
    let mut state = State::new(limited_config());
    state.build_voter_record(&vec![(1, 1), (2, 2), (1, 2), (3, 9)]);
    assert_eq!(state.get_voter_record(1), vec![true, true]);
    assert_eq!(state.get_voter_record(2), vec![false, true]);
    assert_eq!(state.get_voter_record(3), vec![false, false]);
}

#[test]
fn round_progression_advances_and_forgets() {
    let mut state = State::new(limited_config());
    state.update_voter_record(7, 1);
    let progression = state.do_round_progression(25);
    assert_eq!(state.current_round(), 4);
    assert_eq!(state.config().elimination_threshold, 25);
    assert_eq!(state.get_voter_record(7), vec![false, false]);
    assert_eq!(progression.saved, *state.config());
    assert_eq!(
        progression.eliminations,
        vec![
            EliminationStep { category: 1, round: 4, threshold: 25 },
            EliminationStep { category: 2, round: 4, threshold: 25 },
        ]
    );
}

#[test]
fn eliminate_videos_changes_nothing() {
    let mut state = State::new(limited_config());
    state.update_voter_record(7, 1);
    state.eliminate_videos(3);
    assert_eq!(*state.config(), limited_config());
    assert_eq!(state.get_voter_record(7), vec![true, false]);
}

#[test]
fn setters_report_the_parameters_to_save() {
    let mut state = State::new(limited_config());
    assert_eq!(state.set_videos_per_vote(4), *state.config());
    assert_eq!(state.set_unix_deadline(9), *state.config());
    assert_eq!(state.set_limit_votes(false), *state.config());
    assert_eq!(state.set_voting_stage(5), *state.config());
    assert_eq!(state.set_include_usernames(true), *state.config());
    assert_eq!(state.config().videos_per_vote, 4);
    assert_eq!(state.config().unix_deadline, 9);
}

#[test]
fn issuing_a_token_keeps_earlier_tokens_valid() {
    let mut state = State::new(limited_config());
    let first = state.generate_new_token().expect("token");
    let _second = state.generate_new_token().expect("token");
    assert!(state.validate_token(&first));
}

#[test]
fn setters_read_back() {
    let mut state = State::new(limited_config());
    state.set_videos_per_vote(4);
    state.set_unix_deadline(99);
    state.allow_voting(false);
    state.set_voting_stage(6);
    state.set_include_usernames(true);
    assert_eq!(state.videos_per_vote(), 4);
    assert_eq!(state.current_round_unix_deadline(), 99);
    assert!(!state.is_voting_allowed());
    assert_eq!(state.current_round(), 6);
    assert_eq!(state.current_stage(), 6);
    assert!(state.do_include_usernames());
    assert_eq!(state.config().elimination_threshold, 10);
}

#[test]
fn issued_token_validates() {
    let mut state = State::new(limited_config());
    let token = state.generate_new_token().expect("token");
    assert!(state.validate_token(&token));
}

#[test]
fn foreign_or_garbled_tokens_are_refused() {
    let mut other = State::new(limited_config());
    let foreign = other.generate_new_token().expect("token");
    let state = State::new(limited_config());
    assert!(!state.validate_token(&foreign));
    assert!(!state.validate_token(&"not-a-token".to_string()));
    assert!(!state.validate_token(&String::new()));
}

#[test]
fn issued_token_is_in_compact_form() {
    let mut state = State::new(limited_config());
    let token = state.generate_new_token().expect("token");
    let parts: Vec<&str> = token.split('.').collect();
    assert_eq!(parts.len(), 3);
    assert!(parts.iter().all(|p| !p.is_empty()));
}

#[test]
fn tokens_not_in_compact_form_are_refused() {
    let mut state = State::new(limited_config());
    let token = state.generate_new_token().expect("token");
    let extra_part = format!("{}.x", token);
    assert!(!state.validate_token(&extra_part));
    let parts: Vec<&str> = token.split('.').collect();
    let empty_claims = format!("{}..{}", parts[0], parts[2]);
    assert!(!state.validate_token(&empty_claims));
}

fn base64url_decode(text: &str) -> Vec<u8> {
    let mut bits: u32 = 0;
    let mut count = 0;
    let mut out = Vec::new();
    for c in text.bytes() {
        let v = match c {
            b'A'..=b'Z' => c - b'A',
            b'a'..=b'z' => c - b'a' + 26,
            b'0'..=b'9' => c - b'0' + 52,
            b'-' => 62,
            b'_' => 63,
            _ => panic!("not base64url"),
        } as u32;
        bits = (bits << 6) | v;
        count += 6;
        if count >= 8 {
            count -= 8;
            out.push((bits >> count) as u8);
            bits &= (1 << count) - 1;
        }
    }
    out
}

fn claim(json: &str, name: &str) -> u64 {
    let key = format!("\"{}\":", name);
    let start = json.find(&key).expect("claim") + key.len();
    let digits: String = json[start..].chars().take_while(|c| c.is_ascii_digit()).collect();
    digits.parse().expect("number")
}

#[test]
fn issued_token_lives_thirty_seconds() {
    let mut state = State::new(limited_config());
    let token = state.generate_new_token().expect("token");
    let parts: Vec<&str> = token.split('.').collect();
    let claims = String::from_utf8(base64url_decode(parts[1])).expect("utf8");
    assert_eq!(claim(&claims, "exp") - claim(&claims, "iat"), 30);
}
