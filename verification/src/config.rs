use vstd::prelude::*;

verus! {

/// Number of voting categories; categories are numbered from 1.
pub const NUMBER_OF_CATEGORIES: i64 = 2;

/// Whether voting is open when no saved configuration can be loaded.
pub const ALLOW_VOTING_BY_DEFAULT: bool = true;

/// The server parameters, persisted between sessions.
#[derive(Clone, Copy, Debug, PartialEq, Eq, Structural)]
pub struct Config {
    pub voting_round: i64,
    pub elimination_threshold: i64,
    pub videos_per_vote: i64,
    pub unix_deadline: i64,
    pub limit_votes: bool,
    pub allow_voting: bool,
    pub include_usernames: bool,
}

impl Config {
    /// The parameters used when no saved configuration could be loaded.
    pub open spec fn defaults() -> Config {
        Config {
            voting_round: 1,
            elimination_threshold: 9999,
            videos_per_vote: 2,
            unix_deadline: 0,
            limit_votes: false,
            allow_voting: ALLOW_VOTING_BY_DEFAULT,
            include_usernames: false,
        }
    }

    /// The configuration to start with: the saved one if it could be read
    /// and parsed, the defaults otherwise.
    pub fn new(loaded: Option<Config>) -> (config: Config)
        ensures
            config == (match loaded {
                Some(saved) => saved,
                None => Config::defaults(),
            }),
    {
        match loaded {
            Some(saved) => saved,
            None => Config {
                voting_round: 1,
                videos_per_vote: 2,
                unix_deadline: 0,
                limit_votes: false,
                elimination_threshold: 9999,
                allow_voting: ALLOW_VOTING_BY_DEFAULT,
                include_usernames: false,
            },
        }
    }
}

} // verus!
