use vstd::prelude::*;

use crate::config::Config;
use crate::reply::{MessageJson, Reply, ReplyBody};
use crate::auth::{is_compact_form, signature_checks, verifying_key};
use crate::state::{elimination_steps, EliminationStep, State, StateView};

verus! {

/// The reply of `GET /server/config` once the session token was checked.
pub fn config_reply(token_valid: bool, config: &Config) -> (reply: Reply)
    ensures
        !token_valid ==> reply.is_message(401, "bad credentials"@),
        token_valid ==> reply.status == 200 && reply.body == ReplyBody::Config(*config),
        reply.status == 401 <==> !token_valid,
{
    if !token_valid {
        return Reply::message_json("bad credentials").with_status_code(401);
    }
    Reply { status: 200, body: ReplyBody::Config(*config) }
}

/// `GET /server/config`: the server parameters, for a valid session token;
/// `config_reply` on the outcome of `State::validate_token` for `token`.
pub fn handle_get(state: &State, token: &String) -> (reply: Reply)
    ensures
        reply.is_message(401, "bad credentials"@) || (reply.status == 200 && reply.body
            == ReplyBody::Config(state@.config)),
        reply.status == 200 ==> is_compact_form(token@) && signature_checks(
            verifying_key(state@.signing_key),
            token@,
        ),
{
    config_reply(state.validate_token(token), state.config())
}

/// The body of `POST /server/config`: a session token and the parameters to
/// change.
pub struct ConfigUpdate {
    pub token: String,
    pub voting_stage: Option<i64>,
    pub videos_per_vote: Option<i64>,
    pub unix_deadline: Option<i64>,
    pub limit_votes: Option<bool>,
    pub elimination_threshold: Option<i64>,
    pub allow_voting: Option<bool>,
    pub include_usernames: Option<bool>,
}

/// What the server does after applying an update: the elimination passes to
/// run, and the parameters to save, as they stood at the last change that is
/// saved (changing `allow_voting` alone is not saved).
pub struct ConfigChanges {
    pub eliminations: Vec<EliminationStep>,
    pub saved: Option<Config>,
}

/// The state after the saved settings that come first: videos per vote,
/// voting stage, deadline and vote limiting, in that order.
pub open spec fn early_settings_applied(s: StateView, u: ConfigUpdate) -> StateView {
    let s1 = match u.videos_per_vote {
        Some(v) => s.with_config(Config { videos_per_vote: v, ..s.config }),
        None => s,
    };
    let s2 = match u.voting_stage {
        Some(v) => s1.with_config(Config { voting_round: v, ..s1.config }),
        None => s1,
    };
    let s3 = match u.unix_deadline {
        Some(v) => s2.with_config(Config { unix_deadline: v, ..s2.config }),
        None => s2,
    };
    match u.limit_votes {
        Some(v) => s3.with_config(Config { limit_votes: v, ..s3.config }),
        None => s3,
    }
}

/// The state after those and after opening or closing voting.
pub open spec fn settings_applied(s: StateView, u: ConfigUpdate) -> StateView {
    let s4 = early_settings_applied(s, u);
    match u.allow_voting {
        Some(v) => s4.with_config(Config { allow_voting: v, ..s4.config }),
        None => s4,
    }
}

/// The state after a new round, when one is asked for.
pub open spec fn round_applied(s: StateView, u: ConfigUpdate) -> StateView {
    let s5 = settings_applied(s, u);
    match u.elimination_threshold {
        Some(t) => s5.next_round(t),
        None => s5,
    }
}

/// The state after the whole update.
pub open spec fn update_applied(s: StateView, u: ConfigUpdate) -> StateView {
    let s6 = round_applied(s, u);
    match u.include_usernames {
        Some(v) => s6.with_config(Config { include_usernames: v, ..s6.config }),
        None => s6,
    }
}

/// The round in effect when the update starts a new round.
pub open spec fn round_before_progression(s: StateView, u: ConfigUpdate) -> i64 {
    settings_applied(s, u).config.voting_round
}

/// The parameters as they stand at the last saved change, if any change is
/// saved.
pub open spec fn saved_config(s: StateView, u: ConfigUpdate) -> Option<Config> {
    if u.include_usernames is Some {
        Some(update_applied(s, u).config)
    } else if u.elimination_threshold is Some {
        Some(round_applied(s, u).config)
    } else if u.limit_votes is Some || u.unix_deadline is Some || u.voting_stage is Some
        || u.videos_per_vote is Some {
        Some(early_settings_applied(s, u).config)
    } else {
        None
    }
}

/// The elimination passes the update asks for.
pub open spec fn update_eliminations(s: StateView, u: ConfigUpdate) -> Seq<EliminationStep> {
    match u.elimination_threshold {
        Some(t) => elimination_steps(round_applied(s, u).config.voting_round, t),
        None => Seq::empty(),
    }
}

/// Applies the changes of an update, in order; a new round is started when an
/// elimination threshold is given.
pub fn apply_config_update(state: &mut State, update: &ConfigUpdate) -> (changes: ConfigChanges)
    requires
        update.elimination_threshold is Some ==> round_before_progression(old(state)@, *update)
            < i64::MAX,
    ensures
        final(state)@ == update_applied(old(state)@, *update),
        final(state)@.wf(),
        changes.saved == saved_config(old(state)@, *update),
        changes.eliminations@ == update_eliminations(old(state)@, *update),
{
    proof {
        use_type_invariant(&*state);
    }
    let mut saved: Option<Config> = None;
    let mut eliminations: Vec<EliminationStep> = Vec::new();
    if let Some(new_videos_per_vote) = update.videos_per_vote {
        saved = Some(state.set_videos_per_vote(new_videos_per_vote));
    }
    if let Some(new_voting_stage) = update.voting_stage {
        saved = Some(state.set_voting_stage(new_voting_stage));
    }
    if let Some(new_unix_deadline) = update.unix_deadline {
        saved = Some(state.set_unix_deadline(new_unix_deadline));
    }
    if let Some(new_limit_votes) = update.limit_votes {
        saved = Some(state.set_limit_votes(new_limit_votes));
    }
    assert(state@ == early_settings_applied(old(state)@, *update));
    assert(saved == (if update.limit_votes is Some || update.unix_deadline is Some
        || update.voting_stage is Some || update.videos_per_vote is Some {
        Some(early_settings_applied(old(state)@, *update).config)
    } else {
        None
    }));
    if let Some(new_allow_voting) = update.allow_voting {
        state.allow_voting(new_allow_voting);
    }
    assert(state@ == settings_applied(old(state)@, *update));
    if let Some(new_elimination_threshold) = update.elimination_threshold {
        let progression = state.do_round_progression(new_elimination_threshold);
        eliminations = progression.eliminations;
        saved = Some(progression.saved);
    }
    assert(state@ == round_applied(old(state)@, *update));
    if let Some(new_include_usernames) = update.include_usernames {
        saved = Some(state.set_include_usernames(new_include_usernames));
    }
    assert(eliminations@ =~= update_eliminations(old(state)@, *update));
    ConfigChanges { eliminations, saved }
}

/// The outcome of `POST /server/config` once the session token was checked:
/// with a valid token the update is applied and its changes reported;
/// otherwise nothing changes.
pub fn checked_post(state: &mut State, update: ConfigUpdate, token_valid: bool) -> (result: (
    Reply,
    ConfigChanges,
))
    requires
        token_valid && update.elimination_threshold is Some ==> round_before_progression(
            old(state)@,
            update,
        ) < i64::MAX,
    ensures
        !token_valid ==> {
            &&& result.0.is_message(401, "bad credentials"@)
            &&& final(state)@ == old(state)@
            &&& result.1.saved is None
            &&& result.1.eliminations@.len() == 0
        },
        result.0.status == 200 <==> token_valid,
        result.0.status == 401 <==> !token_valid,
        token_valid ==> {
            &&& result.0.is_message(200, "Server state updated"@)
            &&& final(state)@ == update_applied(old(state)@, update)
            &&& result.1.saved == saved_config(old(state)@, update)
            &&& result.1.eliminations@ == update_eliminations(old(state)@, update)
        },
{
    if !token_valid {
        let reply = Reply::message_json("bad credentials").with_status_code(401);
        return (reply, ConfigChanges { eliminations: Vec::new(), saved: None });
    }
    let changes = apply_config_update(state, &update);
    (Reply::message_json("Server state updated").with_status_code(200), changes)
}

/// Whether starting a new round would push the round counter past its
/// largest value.
pub open spec fn round_would_overflow(s: StateView, u: ConfigUpdate) -> bool {
    u.elimination_threshold is Some && round_before_progression(s, u) == i64::MAX
}

/// `POST /server/config`: checks the session token, then applies the update
/// when it is valid (`checked_post` on the outcome of `State::validate_token`).
/// `None`, with nothing changed, when the token is valid but the update would
/// start a round past the largest round number.
pub fn handle_post(state: &mut State, update: ConfigUpdate) -> (result: Option<(Reply, ConfigChanges)>)
    ensures
        result is None ==> {
            &&& final(state)@ == old(state)@
            &&& round_would_overflow(old(state)@, update)
            &&& is_compact_form(update.token@)
            &&& signature_checks(verifying_key(old(state)@.signing_key), update.token@)
        },
        result matches Some((reply, changes)) ==> {
            ||| {
                &&& reply.is_message(401, "bad credentials"@)
                &&& final(state)@ == old(state)@
                &&& changes.saved is None
                &&& changes.eliminations@.len() == 0
            }
            ||| {
                &&& reply.is_message(200, "Server state updated"@)
                &&& is_compact_form(update.token@)
                &&& signature_checks(verifying_key(old(state)@.signing_key), update.token@)
                &&& !round_would_overflow(old(state)@, update)
                &&& final(state)@ == update_applied(old(state)@, update)
                &&& changes.saved == saved_config(old(state)@, update)
                &&& changes.eliminations@ == update_eliminations(old(state)@, update)
            }
        },
{
    let token_valid = state.validate_token(&update.token);
    if token_valid && update.elimination_threshold.is_some() {
        let round = match update.voting_stage {
            Some(stage) => stage,
            None => state.current_round(),
        };
        assert(round == round_before_progression(state@, update));
        if round == i64::MAX {
            return None;
        }
    }
    Some(checked_post(state, update, token_valid))
}

} // verus!
