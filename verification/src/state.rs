use std::collections::HashMap;
use vstd::prelude::*;

use crate::auth::{
    generate_key_pair, is_compact_form, issued_token, public_key_of, signature_checks,
    token_expiry_secs, token_issued_secs, verifying_key, session_claims, sign_claims, token_is_live,
    unix_seconds_now, verify_token_expiry, TokenError, SESSION_TOKEN_SECS,
};
use crate::config::{Config, NUMBER_OF_CATEGORIES};

verus! {

broadcast use vstd::std_specs::hash::group_hash_axioms;

/// The server state: the parameters, the cache of who has voted in which
/// category this round, and the key that signs admin session tokens.
pub struct State {
    config: Config,
    voter_cache: HashMap<i64, Vec<bool>>,
    jwt_key_pair: jwt_simple::algorithms::ES256KeyPair,
}

/// The record of a voter who has not voted in any category.
pub open spec fn no_record() -> Seq<bool> {
    seq![false, false]
}

/// The abstract server state: the parameters, per user id one flag per
/// category telling whether the user has voted there this round, and the key
/// that signs and checks session tokens.
pub struct StateView {
    pub config: Config,
    pub voter_cache: Map<i64, Seq<bool>>,
    pub signing_key: jwt_simple::algorithms::ES256KeyPair,
}

impl StateView {
    /// Every cached record has one flag per category.
    pub open spec fn wf(self) -> bool {
        forall|user: i64| #[trigger]
            self.voter_cache.contains_key(user) ==> self.voter_cache[user].len()
                == NUMBER_OF_CATEGORIES
    }

    /// What the server reports of a user's votes this round: the cached record
    /// when vote limiting is on, no votes at all otherwise.
    pub open spec fn record(self, user: i64) -> Seq<bool> {
        if self.config.limit_votes && self.voter_cache.contains_key(user) {
            self.voter_cache[user]
        } else {
            no_record()
        }
    }

    /// Whether a vote in this category is written to the cache.
    pub open spec fn counts_category(self, category: i64) -> bool {
        self.config.limit_votes && 0 < category <= NUMBER_OF_CATEGORIES
    }

    /// The state after noting that `user` voted in `category`.
    pub open spec fn with_vote(self, user: i64, category: i64) -> StateView {
        if self.counts_category(category) {
            let before = if self.voter_cache.contains_key(user) {
                self.voter_cache[user]
            } else {
                no_record()
            };
            StateView {
                voter_cache: self.voter_cache.insert(user, before.update(category - 1, true)),
                ..self
            }
        } else {
            self
        }
    }

    /// The state after noting each (user, category) pair in order.
    pub open spec fn with_votes(self, votes: Seq<(i64, i64)>) -> StateView
        decreases votes.len(),
    {
        if votes.len() == 0 {
            self
        } else {
            self.with_votes(votes.drop_last()).with_vote(votes.last().0, votes.last().1)
        }
    }

    /// The state after moving to the next round with a new elimination threshold.
    pub open spec fn next_round(self, threshold: i64) -> StateView {
        StateView {
            config: Config {
                elimination_threshold: threshold,
                voting_round: (self.config.voting_round + 1) as i64,
                ..self.config
            },
            voter_cache: Map::empty(),
            ..self
        }
    }

    /// The state with other parameters.
    pub open spec fn with_config(self, config: Config) -> StateView {
        StateView { config, ..self }
    }
}

/// One elimination pass to run against the database: in `category`, keep the
/// `threshold` best-scored videos of `round` and eliminate the rest.
#[derive(Clone, Copy, Debug, PartialEq, Eq, Structural)]
pub struct EliminationStep {
    pub category: i64,
    pub round: i64,
    pub threshold: i64,
}

/// What a new round asks of the server: the elimination passes to run and
/// the parameters to save.
pub struct RoundProgression {
    pub eliminations: Vec<EliminationStep>,
    pub saved: Config,
}

/// The elimination passes of a new round: one per category, in category order.
pub open spec fn elimination_steps(round: i64, threshold: i64) -> Seq<EliminationStep> {
    Seq::new(
        NUMBER_OF_CATEGORIES as nat,
        |i: int| EliminationStep { category: (i + 1) as i64, round, threshold },
    )
}

/// `token` is a session token issued in state `s`: in compact form, signed
/// with the state's key, and expiring `SESSION_TOKEN_SECS` seconds after it
/// was issued.
pub open spec fn issued_session_token(s: StateView, token: Seq<char>) -> bool {
    &&& is_compact_form(token)
    &&& signature_checks(verifying_key(s.signing_key), token)
    &&& token_expiry_secs(token) == token_issued_secs(token) + SESSION_TOKEN_SECS
}

impl View for State {
    type V = StateView;

    closed spec fn view(&self) -> StateView {
        StateView {
            config: self.config,
            voter_cache: self.voter_cache@.map_values(|record: Vec<bool>| record@),
            signing_key: self.jwt_key_pair,
        }
    }
}

/// Noting a vote keeps every cached record at one flag per category.
pub proof fn lemma_with_vote_wf(s: StateView, user: i64, category: i64)
    requires
        s.wf(),
    ensures
        s.with_vote(user, category).wf(),
{
}

impl State {
    /// Every cached record has one flag per category.
    #[verifier::type_invariant]
    pub open spec fn records_well_formed(self) -> bool {
        self@.wf()
    }

    /// A fresh state with the given parameters, no recorded votes and a new
    /// signing key.
    pub fn new(config: Config) -> (state: State)
        ensures
            state@.config == config,
            state@.voter_cache == Map::<i64, Seq<bool>>::empty(),
            state@.wf(),
    {
        let state = State {
            config,
            voter_cache: HashMap::new(),
            jwt_key_pair: generate_key_pair(),
        };
        proof {
            assert(state@.voter_cache =~= Map::<i64, Seq<bool>>::empty());
        }
        state
    }

    pub fn current_round(&self) -> (round: i64)
        ensures
            round == self@.config.voting_round,
    {
        self.config.voting_round
    }

    /// The voting stage reported to voters; it is the current round.
    pub fn current_stage(&self) -> (stage: i64)
        ensures
            stage == self@.config.voting_round,
    {
        self.config.voting_round
    }

    pub fn videos_per_vote(&self) -> (n: i64)
        ensures
            n == self@.config.videos_per_vote,
    {
        self.config.videos_per_vote
    }

    pub fn limit_votes(&self) -> (limit: bool)
        ensures
            limit == self@.config.limit_votes,
    {
        self.config.limit_votes
    }

    pub fn current_round_unix_deadline(&self) -> (deadline: i64)
        ensures
            deadline == self@.config.unix_deadline,
    {
        self.config.unix_deadline
    }

    pub fn is_voting_allowed(&self) -> (allowed: bool)
        ensures
            allowed == self@.config.allow_voting,
    {
        self.config.allow_voting
    }

    pub fn do_include_usernames(&self) -> (shown: bool)
        ensures
            shown == self@.config.include_usernames,
    {
        self.config.include_usernames
    }

    pub fn config(&self) -> (config: &Config)
        ensures
            *config == self@.config,
    {
        &self.config
    }
}

impl State {
    /// Other parameters keep the records well formed.
    proof fn lemma_reconfigured_wf(&self, config: Config)
        requires
            self@.wf(),
        ensures
            (State { config, ..*self })@.wf(),
    {
        let next = State { config, ..*self };
        assert(next@.voter_cache == self@.voter_cache);
    }

    proof fn lemma_cached_record(&self, user: i64)
        requires
            self.voter_cache@.contains_key(user),
        ensures
            self@.voter_cache.contains_key(user),
            self@.voter_cache[user] == self.voter_cache@[user]@,
    {
    }

    /// The voter's flags for this round, one per category; all `false` when
    /// vote limiting is off or the user has not voted yet.
    pub fn get_voter_record(&self, user_id: i64) -> (record: Vec<bool>)
        ensures
            record@ == self@.record(user_id),
            record@.len() == NUMBER_OF_CATEGORIES,
    {
        proof {
            use_type_invariant(self);
        }
        if self.config.limit_votes {
            match self.voter_cache.get(&user_id) {
                Some(cached) => {
                    proof {
                        self.lemma_cached_record(user_id);
                    }
                    let record = vec![cached[0], cached[1]];
                    assert(record@ =~= self@.voter_cache[user_id]);
                    record
                },
                None => {
                    let record = vec![false, false];
                    assert(record@ =~= no_record());
                    record
                },
            }
        } else {
            let record = vec![false, false];
            assert(record@ =~= no_record());
            record
        }
    }

    /// Notes that `user_id` voted in `category`; only done while vote limiting
    /// is on and for a category from 1 to `NUMBER_OF_CATEGORIES`.
    pub fn update_voter_record(&mut self, user_id: i64, category: i64)
        ensures
            final(self)@ == old(self)@.with_vote(user_id, category),
            final(self)@.wf(),
    {
        proof {
            use_type_invariant(&*self);
        }
        if self.config.limit_votes && category < NUMBER_OF_CATEGORIES + 1 && category > 0 {
            let index = (category - 1) as usize;
            let mut record = match self.voter_cache.get(&user_id) {
                Some(cached) => {
                    proof {
                        self.lemma_cached_record(user_id);
                    }
                    vec![cached[0], cached[1]]
                },
                None => vec![false, false],
            };
            record.set(index, true);
            let mut cache: HashMap<i64, Vec<bool>> = HashMap::new();
            std::mem::swap(&mut cache, &mut self.voter_cache);
            cache.insert(user_id, record);
            proof {
                let before = if old(self)@.voter_cache.contains_key(user_id) {
                    old(self)@.voter_cache[user_id]
                } else {
                    no_record()
                };
                assert(record@ =~= before.update(category - 1, true));
                assert(cache@.map_values(|r: Vec<bool>| r@) =~= old(self)@.voter_cache.insert(
                    user_id,
                    before.update(category - 1, true),
                ));
                lemma_with_vote_wf(old(self)@, user_id, category);
            }
            self.voter_cache = cache;
        }
    }

    /// Rebuilds the cache from this round's votes, given as (user id,
    /// category) pairs, noting each in order.
    pub fn build_voter_record(&mut self, votes: &Vec<(i64, i64)>)
        ensures
            final(self)@ == old(self)@.with_votes(votes@),
            final(self)@.wf(),
    {
        proof {
            use_type_invariant(&*self);
        }
        let mut i: usize = 0;
        while i < votes.len()
            invariant
                i <= votes.len(),
                self@ == old(self)@.with_votes(votes@.take(i as int)),
                self@.wf(),
            decreases votes.len() - i,
        {
            let (user_id, category) = votes[i];
            self.update_voter_record(user_id, category);
            proof {
                assert(votes@.take(i + 1).drop_last() =~= votes@.take(i as int));
            }
            i = i + 1;
        }
        proof {
            assert(votes@.take(votes.len() as int) =~= votes@);
        }
    }

    /// Sets the videos per vote; returns the parameters to save.
    pub fn set_videos_per_vote(&mut self, new_vote_size: i64) -> (saved: Config)
        ensures
            final(self)@ == old(self)@.with_config(
                Config { videos_per_vote: new_vote_size, ..old(self)@.config },
            ),
            saved == final(self)@.config,
    {
        proof {
            use_type_invariant(&*self);
            self.lemma_reconfigured_wf(Config { videos_per_vote: new_vote_size, ..self.config });
        }
        self.config.videos_per_vote = new_vote_size;
        self.config
    }

    /// Turns vote limiting on or off; returns the parameters to save. The
    /// recorded votes are kept either way.
    pub fn set_limit_votes(&mut self, limit_votes: bool) -> (saved: Config)
        ensures
            final(self)@ == old(self)@.with_config(
                Config { limit_votes: limit_votes, ..old(self)@.config },
            ),
            saved == final(self)@.config,
    {
        proof {
            use_type_invariant(&*self);
            self.lemma_reconfigured_wf(Config { limit_votes: limit_votes, ..self.config });
        }
        self.config.limit_votes = limit_votes;
        self.config
    }

    /// Sets the round's deadline; returns the parameters to save.
    pub fn set_unix_deadline(&mut self, new_deadline: i64) -> (saved: Config)
        ensures
            final(self)@ == old(self)@.with_config(
                Config { unix_deadline: new_deadline, ..old(self)@.config },
            ),
            saved == final(self)@.config,
    {
        proof {
            use_type_invariant(&*self);
            self.lemma_reconfigured_wf(Config { unix_deadline: new_deadline, ..self.config });
        }
        self.config.unix_deadline = new_deadline;
        self.config
    }

    /// Opens or closes voting; this change is not saved.
    pub fn allow_voting(&mut self, allow_voting: bool)
        ensures
            final(self)@ == old(self)@.with_config(
                Config { allow_voting: allow_voting, ..old(self)@.config },
            ),
    {
        proof {
            use_type_invariant(&*self);
            self.lemma_reconfigured_wf(Config { allow_voting: allow_voting, ..self.config });
        }
        self.config.allow_voting = allow_voting;
    }

    /// Sets the voting stage, which is the current round; returns the
    /// parameters to save.
    pub fn set_voting_stage(&mut self, new_stage: i64) -> (saved: Config)
        ensures
            final(self)@ == old(self)@.with_config(
                Config { voting_round: new_stage, ..old(self)@.config },
            ),
            saved == final(self)@.config,
    {
        proof {
            use_type_invariant(&*self);
            self.lemma_reconfigured_wf(Config { voting_round: new_stage, ..self.config });
        }
        self.config.voting_round = new_stage;
        self.config
    }

    /// Shows or hides uploader names in vote offers; returns the parameters to
    /// save.
    pub fn set_include_usernames(&mut self, shown: bool) -> (saved: Config)
        ensures
            final(self)@ == old(self)@.with_config(
                Config { include_usernames: shown, ..old(self)@.config },
            ),
            saved == final(self)@.config,
    {
        proof {
            use_type_invariant(&*self);
            self.lemma_reconfigured_wf(Config { include_usernames: shown, ..self.config });
        }
        self.config.include_usernames = shown;
        self.config
    }

    /// Moves to the next round: records the new elimination threshold,
    /// advances the round, forgets who voted, and returns the elimination
    /// pass to run for each category against the new round together with the
    /// parameters to save.
    pub fn do_round_progression(&mut self, new_elimination_threshold: i64) -> (progression:
        RoundProgression)
        requires
            old(self)@.config.voting_round < i64::MAX,
        ensures
            final(self)@ == old(self)@.next_round(new_elimination_threshold),
            final(self)@.wf(),
            progression.saved == final(self)@.config,
            progression.eliminations@ == elimination_steps(
                final(self)@.config.voting_round,
                new_elimination_threshold,
            ),
    {
        let round = self.config.voting_round + 1;
        let next_config = Config {
            elimination_threshold: new_elimination_threshold,
            voting_round: round,
            ..self.config
        };
        proof {
            use_type_invariant(&*self);
            self.lemma_reconfigured_wf(next_config);
        }
        self.config = next_config;
        let mut steps: Vec<EliminationStep> = Vec::new();
        let mut category: i64 = 1;
        while category <= NUMBER_OF_CATEGORIES
            invariant
                1 <= category <= NUMBER_OF_CATEGORIES + 1,
                steps@.len() == category - 1,
                forall|i: int|
                    0 <= i < steps@.len() ==> #[trigger] steps@[i] == (EliminationStep {
                        category: (i + 1) as i64,
                        round,
                        threshold: new_elimination_threshold,
                    }),
            decreases NUMBER_OF_CATEGORIES + 1 - category,
        {
            steps.push(EliminationStep { category, round, threshold: new_elimination_threshold });
            category = category + 1;
        }
        self.voter_cache = HashMap::new();
        proof {
            assert(self@.voter_cache =~= Map::<i64, Seq<bool>>::empty());
            assert(steps@ =~= elimination_steps(round, new_elimination_threshold));
        }
        RoundProgression { eliminations: steps, saved: self.config }
    }

    /// Elimination is carried out by `do_round_progression`; this leaves the
    /// state as it is.
    pub fn eliminate_videos(&mut self, threshold: i64)
        ensures
            final(self)@ == old(self)@,
    {
    }

    /// Signs a new admin session token valid for `SESSION_TOKEN_SECS` seconds
    /// with this server's key; a token is always issued, in JWS compact form.
    /// The state, the key included, is left as it is.
    pub fn generate_new_token(&mut self) -> (token: Result<String, TokenError>)
        ensures
            final(self)@ == old(self)@,
            token is Ok,
            token matches Ok(t) ==> issued_session_token(old(self)@, t@),
    {
        let claims = session_claims(SESSION_TOKEN_SECS);
        issued_token(sign_claims(&self.jwt_key_pair, claims))
    }

    /// Whether `token` is a session token signed by this server's key whose
    /// expiry lies after the current time: `token_is_live` applied to what
    /// verifying the token and reading the clock gave. Both depend on the
    /// signature check and on the time, so the answer is not stated beyond
    /// this: only a token in compact form whose signature checks out under this
    /// server's verifying key is accepted.
    pub fn validate_token(&self, token: &String) -> (valid: bool)
        ensures
            valid ==> is_compact_form(token@),
            valid ==> signature_checks(verifying_key(self@.signing_key), token@),
    {
        let verdict = verify_token_expiry(&public_key_of(&self.jwt_key_pair), token.as_str());
        let expiry = match verdict {
            Ok(expires_at) => Some(expires_at),
            Err(_) => None,
        };
        token_is_live(expiry, unix_seconds_now())
    }
}

/// Every record the server reports has one flag per category.
pub proof fn lemma_record_has_a_flag_per_category(s: StateView, user: i64)
    requires
        s.wf(),
    ensures
        s.record(user).len() == NUMBER_OF_CATEGORIES,
{
}

/// Read after write: once a counted vote is noted, the voter's record shows
/// the category as voted and keeps every other category's flag.
pub proof fn lemma_vote_is_recorded(s: StateView, user: i64, category: i64)
    requires
        s.wf(),
        s.counts_category(category),
    ensures
        s.with_vote(user, category).record(user)[category - 1],
        s.with_vote(user, category).record(user).len() == NUMBER_OF_CATEGORIES,
        forall|j: int|
            0 <= j < NUMBER_OF_CATEGORIES && j != category - 1 ==> #[trigger] s.with_vote(
                user,
                category,
            ).record(user)[j] == s.record(user)[j],
{
}

/// Noting a vote never changes what is reported of another user.
pub proof fn lemma_vote_leaves_other_voters(s: StateView, user: i64, category: i64, other: i64)
    requires
        other != user,
    ensures
        s.with_vote(user, category).record(other) == s.record(other),
{
}

/// A vote outside the counted categories, or while vote limiting is off,
/// changes nothing.
pub proof fn lemma_uncounted_vote_is_ignored(s: StateView, user: i64, category: i64)
    requires
        !s.counts_category(category),
    ensures
        s.with_vote(user, category) == s,
{
}

/// Within a round a voted flag is never cleared by noting further votes.
pub proof fn lemma_flags_only_rise(s: StateView, user: i64, category: i64, voter: i64, j: int)
    requires
        s.wf(),
        0 <= j < NUMBER_OF_CATEGORIES,
        s.record(voter)[j],
    ensures
        s.with_vote(user, category).record(voter)[j],
{
}

/// The order in which two votes are noted does not matter.
pub proof fn lemma_votes_commute(s: StateView, a: i64, ca: i64, b: i64, cb: i64)
    requires
        s.wf(),
    ensures
        s.with_vote(a, ca).with_vote(b, cb) == s.with_vote(b, cb).with_vote(a, ca),
{
    let left = s.with_vote(a, ca).with_vote(b, cb);
    let right = s.with_vote(b, cb).with_vote(a, ca);
    if s.counts_category(ca) && s.counts_category(cb) {
        assert forall|u: i64| left.voter_cache.contains_key(u) implies left.voter_cache[u]
            =~= right.voter_cache[u] by {}
        assert(left.voter_cache =~= right.voter_cache);
    }
}

/// With vote limiting off every voter is reported as not having voted.
pub proof fn lemma_no_limit_no_record(s: StateView, user: i64)
    requires
        !s.config.limit_votes,
    ensures
        s.record(user) == no_record(),
{
}

/// A new round advances the round counter, sets the threshold, keeps the other
/// parameters and forgets every vote.
pub proof fn lemma_new_round_forgets_votes(s: StateView, threshold: i64, user: i64)
    requires
        s.config.voting_round < i64::MAX,
    ensures
        s.next_round(threshold).config.voting_round == s.config.voting_round + 1,
        s.next_round(threshold).config.elimination_threshold == threshold,
        s.next_round(threshold).config.videos_per_vote == s.config.videos_per_vote,
        s.next_round(threshold).config.limit_votes == s.config.limit_votes,
        s.next_round(threshold).config.allow_voting == s.config.allow_voting,
        s.next_round(threshold).record(user) == no_record(),
        s.next_round(threshold).wf(),
{
}

/// A change that the public functions of `State` make to its view.
pub enum StateChange {
    /// `update_voter_record`.
    Vote { user: i64, category: i64 },
    /// `do_round_progression`.
    NewRound { threshold: i64 },
    /// Any of the setters.
    Reconfigure { config: Config },
}

impl StateView {
    /// The state after one change.
    pub open spec fn after(self, change: StateChange) -> StateView {
        match change {
            StateChange::Vote { user, category } => self.with_vote(user, category),
            StateChange::NewRound { threshold } => self.next_round(threshold),
            StateChange::Reconfigure { config } => self.with_config(config),
        }
    }

    /// The state after a sequence of changes, in order.
    pub open spec fn run(self, changes: Seq<StateChange>) -> StateView
        decreases changes.len(),
    {
        if changes.len() == 0 {
            self
        } else {
            self.run(changes.drop_last()).after(changes.last())
        }
    }
}

/// The `i`-th change is a vote of `user` in `category` that was counted when
/// it was made, and no new round has started after it.
pub open spec fn counted_since_last_round(
    s: StateView,
    changes: Seq<StateChange>,
    user: i64,
    category: i64,
    i: int,
) -> bool {
    &&& 0 <= i < changes.len()
    &&& changes[i] == (StateChange::Vote { user, category })
    &&& s.run(changes.take(i)).counts_category(category)
    &&& forall|j: int| i < j < changes.len() ==> !(#[trigger] changes[j] is NewRound)
}

proof fn lemma_cache_reflects_history(
    s: StateView,
    changes: Seq<StateChange>,
    user: i64,
    category: i64,
)
    requires
        s.voter_cache == Map::<i64, Seq<bool>>::empty(),
        1 <= category <= NUMBER_OF_CATEGORIES,
    ensures
        s.run(changes).wf(),
        (s.run(changes).voter_cache.contains_key(user) && s.run(changes).voter_cache[user][category
            - 1]) <==> exists|i: int| #[trigger]
            counted_since_last_round(s, changes, user, category, i),
    decreases changes.len(),
{
    if changes.len() > 0 {
        let prev = changes.drop_last();
        let n = prev.len() as int;
        let last = changes.last();
        lemma_cache_reflects_history(s, prev, user, category);
        let before = s.run(prev);
        assert(s.run(changes) == before.after(last));
        assert(changes.take(n) =~= prev);
        assert forall|i: int| 0 <= i < n implies #[trigger] changes.take(i) == prev.take(i) by {
            assert(changes.take(i) =~= prev.take(i));
        }
        lemma_with_vote_wf(before, user, category);
        if exists|i: int| #[trigger] counted_since_last_round(s, changes, user, category, i) {
            let i = choose|i: int| #[trigger] counted_since_last_round(s, changes, user, category, i);
            if i < n {
                assert(changes.take(i) == prev.take(i));
                assert forall|j: int| i < j < prev.len() implies !(#[trigger] prev[j] is NewRound) by {
                    assert(prev[j] == changes[j]);
                }
                assert(counted_since_last_round(s, prev, user, category, i));
            }
        }
        if exists|i: int| #[trigger] counted_since_last_round(s, prev, user, category, i) {
            let i = choose|i: int| #[trigger] counted_since_last_round(s, prev, user, category, i);
            assert(changes.take(i) == prev.take(i));
            if !(last is NewRound) {
                assert forall|j: int| i < j < changes.len() implies !(#[trigger] changes[j] is NewRound) by {
                    if j < n {
                        assert(prev[j] == changes[j]);
                    }
                }
                assert(counted_since_last_round(s, changes, user, category, i));
            }
        }
        match last {
            StateChange::Vote { user: u, category: c } => {
                lemma_with_vote_wf(before, u, c);
                if u == user && c == category && before.counts_category(c) {
                    assert(counted_since_last_round(s, changes, user, category, n));
                }
            },
            StateChange::NewRound { threshold } => {
                assert forall|i: int| !#[trigger] counted_since_last_round(s, changes, user, category, i) by {
                    if 0 <= i < n {
                        assert(changes[n] is NewRound);
                    }
                }
            },
            StateChange::Reconfigure { config } => {},
        }
    }
}

/// What the server reports of a voter follows from the history of changes
/// since a fresh state: the flag of a category is set exactly when vote
/// limiting is on now and the voter voted in that category, while limiting
/// was on, after the last new round.
pub proof fn lemma_record_reflects_history(
    s: StateView,
    changes: Seq<StateChange>,
    user: i64,
    category: i64,
)
    requires
        s.voter_cache == Map::<i64, Seq<bool>>::empty(),
        1 <= category <= NUMBER_OF_CATEGORIES,
    ensures
        s.run(changes).record(user).len() == NUMBER_OF_CATEGORIES,
        s.run(changes).record(user)[category - 1] <==> {
            &&& s.run(changes).config.limit_votes
            &&& exists|i: int| #[trigger] counted_since_last_round(s, changes, user, category, i)
        },
{
    lemma_cache_reflects_history(s, changes, user, category);
}

/// A session token issued in state `s` meets what `validate_token` asks of a
/// token in any state with the same signing key (issuing changes no state):
/// it is in compact form, its signature checks out under that key's verifying
/// key, and it expires `SESSION_TOKEN_SECS` seconds after it was issued.
pub proof fn lemma_issued_token_fits_validation(s: StateView, later: StateView, token: Seq<char>)
    requires
        issued_session_token(s, token),
        later.signing_key == s.signing_key,
    ensures
        is_compact_form(token),
        signature_checks(verifying_key(later.signing_key), token),
        token_expiry_secs(token) - token_issued_secs(token) == SESSION_TOKEN_SECS,
{
}

} // verus!
