use vstd::prelude::*;

use crate::config::NUMBER_OF_CATEGORIES;
use crate::reply::{MessageJson, Reply, ReplyBody};
use crate::state::{State, StateView};

verus! {

/// The requesting user as the database knows them.
#[derive(Clone, Copy, Debug, PartialEq, Eq, Structural)]
pub struct User {
    pub id: i64,
    pub vote_banned: bool,
    pub report_banned: bool,
}

/// A video offered for a vote, with the uploader's name when it is shown.
pub struct Video {
    pub id: i64,
    pub youtube_id: String,
    pub username: Option<String>,
}

impl Video {
    pub fn new(id: i64, youtube_id: String, u: String) -> (video: Self)
        ensures
            video.id == id,
            video.youtube_id@ == youtube_id@,
            video.username matches Some(name) && name@ == u@,
    {
        Video { id: id, youtube_id: youtube_id, username: Some(u) }
    }

    pub fn remove_username(&mut self)
        ensures
            final(self).id == old(self).id,
            final(self).youtube_id@ == old(self).youtube_id@,
            final(self).username is None,
    {
        self.username = None;
    }
}

/// The payload of a successful `GET /vote`.
pub struct VoteOffer {
    pub videos: Vec<Video>,
    pub c: i64,
    pub limit_active: bool,
    pub stage: i64,
    pub current_deadline: i64,
}

/// The outcome of a database step: a value, an error, or too little data.
pub enum DbResult<T, E> {
    Found(T),
    Failed(E),
    Empty,
}

impl<T, E> From<Result<T, E>> for DbResult<T, E> {
    fn from(item: Result<T, E>) -> (outcome: Self) {
        match item {
            Ok(ok) => DbResult::Found(ok),
            Err(err) => DbResult::Failed(err),
        }
    }
}

impl<T, E> vstd::std_specs::convert::FromSpecImpl<Result<T, E>> for DbResult<T, E> {
    open spec fn obeys_from_spec() -> bool {
        true
    }

    open spec fn from_spec(item: Result<T, E>) -> Self {
        match item {
            Ok(ok) => DbResult::Found(ok),
            Err(err) => DbResult::Failed(err),
        }
    }
}

/// The category a vote is drawn from: the requested one, or for 0 ("any")
/// a category picked from the clock reading in milliseconds.
pub open spec fn resolved_category(category: i64, now_millis: u128) -> i64 {
    if category == 0 {
        ((now_millis % (NUMBER_OF_CATEGORIES as u128)) + 1) as i64
    } else {
        category
    }
}

pub fn resolve_category(category: i64, now_millis: u128) -> (resolved: i64)
    ensures
        resolved == resolved_category(category, now_millis),
        category == 0 ==> 1 <= resolved <= NUMBER_OF_CATEGORIES,
        category != 0 ==> resolved == category,
{
    if category == 0 {
        (now_millis % (NUMBER_OF_CATEGORIES as u128)) as i64 + 1
    } else {
        category
    }
}

/// A row to insert into the active votes: `user_id` was offered `video_id`
/// in `category` at `start_time` (Unix milliseconds).
#[derive(Clone, Copy, Debug, PartialEq, Eq, Structural)]
pub struct ActiveVoteRow {
    pub user_id: i64,
    pub video_id: i64,
    pub start_time: u128,
    pub category: i64,
}

/// The videos to offer and the active-vote rows that record the offer.
pub struct VotablePlan {
    pub videos: Vec<Video>,
    pub active_votes: Vec<ActiveVoteRow>,
}

/// `video` shows the fetched row (id, YouTube id, uploader), with the uploader
/// kept only when usernames are shown.
pub open spec fn shows_row(video: Video, row: (i64, String, String), include_usernames: bool) -> bool {
    &&& video.id == row.0
    &&& video.youtube_id@ == row.1@
    &&& if include_usernames {
        video.username matches Some(name) && name@ == row.2@
    } else {
        video.username is None
    }
}

/// Turns the fetched candidate rows into the videos to offer and the
/// active-vote rows to write; `None` when fewer than `amount` were found.
pub fn prep_votable_videos(
    fetched: &Vec<(i64, String, String)>,
    include_usernames: bool,
    amount: i64,
    uid: i64,
    category: i64,
    start_time: u128,
) -> (plan: Option<VotablePlan>)
    ensures
        plan is None <==> (fetched@.len() as i64) < amount,
        plan matches Some(p) ==> {
            &&& p.videos@.len() == fetched@.len()
            &&& p.active_votes@.len() == fetched@.len()
            &&& forall|i: int|
                0 <= i < fetched@.len() ==> shows_row(
                    #[trigger] p.videos@[i],
                    fetched@[i],
                    include_usernames,
                )
            &&& forall|i: int|
                0 <= i < fetched@.len() ==> #[trigger] p.active_votes@[i] == (ActiveVoteRow {
                    user_id: uid,
                    video_id: fetched@[i].0,
                    start_time,
                    category,
                })
        },
{
    let mut videos: Vec<Video> = Vec::new();
    let mut i: usize = 0;
    while i < fetched.len()
        invariant
            i <= fetched@.len(),
            videos@.len() == i,
            forall|j: int| 0 <= j < i ==> shows_row(#[trigger] videos@[j], fetched@[j], include_usernames),
        decreases fetched.len() - i,
    {
        let row = &fetched[i];
        let mut video = Video::new(row.0, row.1.clone(), row.2.clone());
        if !include_usernames {
            video.remove_username();
        }
        videos.push(video);
        i = i + 1;
    }
    if (videos.len() as i64) < amount {
        return None;
    }
    let mut active_votes: Vec<ActiveVoteRow> = Vec::new();
    let mut k: usize = 0;
    while k < videos.len()
        invariant
            k <= videos@.len(),
            videos@.len() == fetched@.len(),
            active_votes@.len() == k,
            forall|j: int| 0 <= j < fetched@.len() ==> shows_row(#[trigger] videos@[j], fetched@[j], include_usernames),
            forall|j: int|
                0 <= j < k ==> #[trigger] active_votes@[j] == (ActiveVoteRow {
                    user_id: uid,
                    video_id: fetched@[j].0,
                    start_time,
                    category,
                }),
        decreases videos.len() - k,
    {
        active_votes.push(ActiveVoteRow { user_id: uid, video_id: videos[k].id, start_time, category });
        k = k + 1;
    }
    Some(VotablePlan { videos, active_votes })
}

/// Whether the voter has reached the vote limit in the category served:
/// vote limiting is on and the voter has already voted there this round.
pub open spec fn limit_active_for(state: StateView, user: User, category: i64) -> bool {
    1 <= category <= NUMBER_OF_CATEGORIES && state.record(user.id)[category - 1]
}

/// The offer carries `videos`, the requested category and the voter's
/// standing in the served category as `state` reports it.
pub open spec fn offer_for(
    offer: VoteOffer,
    state: StateView,
    user: User,
    c: i64,
    category: i64,
    videos: Seq<Video>,
) -> bool {
    &&& offer.videos@ == videos
    &&& offer.c == c
    &&& offer.limit_active == limit_active_for(state, user, category)
    &&& offer.stage == state.config.voting_round
    &&& offer.current_deadline == state.config.unix_deadline
}

/// The reply of `GET /vote` for the requested category `c`, served from
/// `category` (see `resolve_category`), given what fetching and recording the
/// offer gave: the videos (200), too few videos (204, with no videos), or a
/// database error (500).
pub fn handle_get(
    state: &State,
    user: &User,
    c: i64,
    category: i64,
    fetched: DbResult<Vec<Video>, String>,
) -> (reply: Reply)
    ensures
        fetched matches DbResult::Found(videos) ==> {
            &&& reply.status == 200
            &&& reply.body matches ReplyBody::VoteOffer(offer)
            &&& offer_for(offer, state@, *user, c, category, videos@)
        },
        fetched is Empty ==> {
            &&& reply.status == 204
            &&& reply.body matches ReplyBody::VoteOffer(offer)
            &&& offer_for(offer, state@, *user, c, category, Seq::empty())
        },
        fetched is Failed ==> reply.is_message(500, "Failed to fetch videos"@),
        reply.body matches ReplyBody::VoteOffer(offer) ==> (offer.limit_active <==> (1 <= category
            <= NUMBER_OF_CATEGORIES && state@.record(user.id)[category - 1])),
{
    let record = state.get_voter_record(user.id);
    let limit_active = 1 <= category && category <= NUMBER_OF_CATEGORIES && record[(category
        - 1) as usize];
    let mut outgoing = VoteOffer {
        videos: Vec::new(),
        c,
        limit_active,
        stage: state.current_stage(),
        current_deadline: state.current_round_unix_deadline(),
    };
    match fetched {
        DbResult::Found(videos) => {
            outgoing.videos = videos;
            Reply { status: 200, body: ReplyBody::VoteOffer(outgoing) }
        },
        DbResult::Failed(_) => Reply::message_json("Failed to fetch videos").with_status_code(500),
        DbResult::Empty => {
            assert(outgoing.videos@ =~= Seq::<Video>::empty());
            Reply { status: 200, body: ReplyBody::VoteOffer(outgoing) }.with_status_code(204)
        },
    }
}

/// A video the user was last offered: its id, its category, and when it was
/// offered (Unix milliseconds).
#[derive(Clone, Copy, Debug, PartialEq, Eq, Structural)]
pub struct ActiveVote {
    pub video_id: i64,
    pub category: i64,
    pub start_time: i64,
}

/// How a submitted vote is judged against the user's active votes.
#[derive(Clone, Copy, Debug, PartialEq, Eq, Structural)]
pub enum VoteVerdict {
    /// Submitted before the offer was made.
    TooFast,
    /// Some offered video is missing from the submission.
    Mismatched,
    /// The submission lists more or fewer videos than were offered.
    WrongCount,
    /// The user is banned from voting; the vote is silently dropped.
    Banned,
    /// The vote is to be cast.
    Accepted,
}

/// Every offered video appears in the submission.
pub open spec fn lists_every_offer(active: Seq<ActiveVote>, incoming: Seq<i64>) -> bool {
    forall|i: int| 0 <= i < active.len() ==> incoming.contains(#[trigger] active[i].video_id)
}

/// The checks of a submitted vote, in the order they are made.
pub open spec fn verdict(
    active: Seq<ActiveVote>,
    incoming: Seq<i64>,
    now_millis: u128,
    vote_banned: bool,
) -> VoteVerdict {
    if now_millis < #[verifier::truncate] (active[0].start_time as u128) {
        VoteVerdict::TooFast
    } else if !lists_every_offer(active, incoming) {
        VoteVerdict::Mismatched
    } else if incoming.len() != active.len() {
        VoteVerdict::WrongCount
    } else if vote_banned {
        VoteVerdict::Banned
    } else {
        VoteVerdict::Accepted
    }
}

fn list_contains(list: &Vec<i64>, id: i64) -> (found: bool)
    ensures
        found == list@.contains(id),
{
    let mut i: usize = 0;
    while i < list.len()
        invariant
            i <= list@.len(),
            forall|j: int| 0 <= j < i ==> list@[j] != id,
        decreases list.len() - i,
    {
        if list[i] == id {
            assert(list@[i as int] == id);
            return true;
        }
        i = i + 1;
    }
    false
}

/// Judges the submitted list of video ids against the user's active votes.
pub fn judge_vote(
    active: &Vec<ActiveVote>,
    incoming: &Vec<i64>,
    now_millis: u128,
    vote_banned: bool,
) -> (judged: VoteVerdict)
    requires
        active@.len() > 0,
    ensures
        judged == verdict(active@, incoming@, now_millis, vote_banned),
        (judged == VoteVerdict::Accepted) <==> {
            &&& now_millis >= #[verifier::truncate] (active@[0].start_time as u128)
            &&& forall|i: int| 0 <= i < active@.len() ==> incoming@.contains(#[trigger] active@[i].video_id)
            &&& incoming@.len() == active@.len()
            &&& !vote_banned
        },
        (judged == VoteVerdict::TooFast) <==> now_millis < #[verifier::truncate] (
        active@[0].start_time as u128),
{
    if now_millis < #[verifier::truncate] (active[0].start_time as u128) {
        return VoteVerdict::TooFast;
    }
    let mut i: usize = 0;
    while i < active.len()
        invariant
            i <= active@.len(),
            active@.len() > 0,
            !(now_millis < #[verifier::truncate] (active@[0].start_time as u128)),
            forall|j: int| 0 <= j < i ==> incoming@.contains(#[trigger] active@[j].video_id),
        decreases active.len() - i,
    {
        if !list_contains(incoming, active[i].video_id) {
            assert(!incoming@.contains(active@[i as int].video_id));
            return VoteVerdict::Mismatched;
        }
        i = i + 1;
    }
    if incoming.len() != active.len() {
        return VoteVerdict::WrongCount;
    }
    if vote_banned {
        return VoteVerdict::Banned;
    }
    VoteVerdict::Accepted
}

/// A row to insert into the votes: `user_id` gave `video_id` the `score`
/// against `opponent_video_id`.
#[derive(Clone, Copy, Debug, PartialEq, Eq, Structural)]
pub struct BallotRow {
    pub user_id: i64,
    pub video_id: i64,
    pub score: i64,
    pub opponent_video_id: i64,
    pub round: i64,
    pub vote_time: i64,
}

/// The vote row for the `i`-th submitted video: the list is a ranking, best
/// first, so it scores one less than the one before and the last scores 0;
/// its opponent is the second video for the first, the first for all others.
pub open spec fn ballot_row(
    user_id: i64,
    incoming: Seq<i64>,
    i: int,
    round: i64,
    vote_time: i64,
) -> BallotRow {
    BallotRow {
        user_id,
        video_id: incoming[i],
        score: (incoming.len() - 1 - i) as i64,
        opponent_video_id: if i == 0 {
            incoming[1]
        } else {
            incoming[0]
        },
        round,
        vote_time,
    }
}

/// The vote rows for a submitted ranking.
pub open spec fn ballot(user_id: i64, incoming: Seq<i64>, round: i64, vote_time: i64) -> Seq<BallotRow> {
    Seq::new(incoming.len(), |i: int| ballot_row(user_id, incoming, i, round, vote_time))
}

/// The vote rows to write for an accepted ranking, stamped with the vote time
/// in Unix milliseconds (truncated to 64 bits).
pub fn cast_ballot(user_id: i64, incoming: &Vec<i64>, round: i64, vote_time_millis: u128) -> (rows: Vec<
    BallotRow,
>)
    requires
        incoming@.len() != 1,
        incoming@.len() <= i64::MAX,
    ensures
        rows@ == ballot(user_id, incoming@, round, vote_time_millis as i64),
        rows@.len() == incoming@.len(),
        forall|i: int| 0 <= i < rows@.len() ==> #[trigger] rows@[i].video_id == incoming@[i],
        incoming@.len() >= 2 ==> rows@[0].opponent_video_id == incoming@[1],
        forall|i: int| 1 <= i < rows@.len() ==> #[trigger] rows@[i].opponent_video_id == incoming@[0],
{
    let vote_time = vote_time_millis as i64;
    let count = incoming.len() as i64;
    let mut rows: Vec<BallotRow> = Vec::new();
    let mut index: usize = 0;
    while index < incoming.len()
        invariant
            index <= incoming@.len(),
            count == incoming@.len(),
            incoming@.len() != 1,
            rows@.len() == index,
            forall|j: int|
                0 <= j < index ==> #[trigger] rows@[j] == ballot_row(
                    user_id,
                    incoming@,
                    j,
                    round,
                    vote_time,
                ),
        decreases incoming.len() - index,
    {
        let target = incoming[index];
        let opponent = if index == 0 {
            incoming[1]
        } else {
            incoming[0]
        };
        let score = count - 1 - index as i64;
        rows.push(
            BallotRow {
                user_id,
                video_id: target,
                score,
                opponent_video_id: opponent,
                round,
                vote_time,
            },
        );
        index = index + 1;
    }
    assert(rows@ =~= ballot(user_id, incoming@, round, vote_time));
    rows
}

/// What happened to a submitted vote before the reply.
pub enum PostOutcome {
    /// The user's active votes could not be read.
    ActiveVotesUnreadable,
    /// The vote was judged and not cast.
    Refused(VoteVerdict),
    /// Writing the vote rows failed.
    CastFailed,
    /// The vote rows were written; `category` is that of the first offered video.
    Cast { category: i64 },
}

/// The reply of `POST /vote`, noting the vote in the voter cache when it was
/// cast: an empty 200 for a cast vote. Refused votes other than too-fast ones
/// are answered as if cast.
pub fn handle_post(state: &mut State, user: &User, outcome: PostOutcome) -> (reply: Reply)
    ensures
        final(state)@.wf(),
        outcome matches PostOutcome::Cast { category } ==> final(state)@ == old(state)@.with_vote(
            user.id,
            category,
        ),
        !(outcome is Cast) ==> final(state)@ == old(state)@,
        outcome is ActiveVotesUnreadable ==> reply.is_message(
            500,
            "Failed while trying to validate vote"@,
        ),
        outcome == PostOutcome::Refused(VoteVerdict::TooFast) ==> reply.is_message(
            429,
            "You're voting too fast! Slow down!"@,
        ),
        outcome matches PostOutcome::Refused(v) && v != VoteVerdict::TooFast ==> reply.is_empty_ok(),
        outcome is CastFailed ==> reply.is_message(500, "Failed while casting vote"@),
        outcome is Cast ==> reply.is_empty_ok(),
{
    proof {
        use_type_invariant(&*state);
    }
    match outcome {
        PostOutcome::ActiveVotesUnreadable => {
            Reply::message_json("Failed while trying to validate vote").with_status_code(500)
        },
        PostOutcome::Refused(VoteVerdict::TooFast) => {
            Reply::message_json("You're voting too fast! Slow down!").with_status_code(429)
        },
        PostOutcome::Refused(_) => Reply::empty_ok(),
        PostOutcome::CastFailed => {
            Reply::message_json("Failed while casting vote").with_status_code(500)
        },
        PostOutcome::Cast { category } => {
            state.update_voter_record(user.id, category);
            Reply::empty_ok()
        },
    }
}

/// What the server does next with a submitted vote.
pub enum PostStep {
    /// Nothing to write: answer with `handle_post` on this outcome.
    Answer(PostOutcome),
    /// Clear the user's active votes and insert these rows, then answer with
    /// `handle_post` on `Cast { category }`, or on `CastFailed` if writing fails.
    WriteBallot { rows: Vec<BallotRow>, category: i64 },
}

/// Decides a submitted vote from what reading the user's active votes gave:
/// an unreadable list is answered at once, a vote that is not accepted is
/// refused, and an accepted one becomes the ballot rows of the current round,
/// credited to the category of the first offered video.
pub fn plan_post(
    state: &State,
    user: &User,
    active: &Result<Vec<ActiveVote>, String>,
    incoming: &Vec<i64>,
    now_millis: u128,
    vote_time_millis: u128,
) -> (step: PostStep)
    requires
        incoming@.len() <= i64::MAX,
        active matches Ok(a) ==> {
            &&& a@.len() > 0
            &&& verdict(a@, incoming@, now_millis, user.vote_banned) == VoteVerdict::Accepted
                ==> incoming@.len() != 1
        },
    ensures
        active is Err ==> step == PostStep::Answer(PostOutcome::ActiveVotesUnreadable),
        active matches Ok(a) ==> {
            let v = verdict(a@, incoming@, now_millis, user.vote_banned);
            &&& v != VoteVerdict::Accepted ==> step == PostStep::Answer(PostOutcome::Refused(v))
            &&& v == VoteVerdict::Accepted ==> {
                &&& step matches PostStep::WriteBallot { rows, category }
                &&& rows@ == ballot(
                    user.id,
                    incoming@,
                    state@.config.voting_round,
                    vote_time_millis as i64,
                )
                &&& category == a@[0].category
            }
        },
{
    match active {
        Err(_) => PostStep::Answer(PostOutcome::ActiveVotesUnreadable),
        Ok(active_list) => {
            let judged = judge_vote(active_list, incoming, now_millis, user.vote_banned);
            match judged {
                VoteVerdict::Accepted => {
                    let rows = cast_ballot(
                        user.id,
                        incoming,
                        state.current_round(),
                        vote_time_millis,
                    );
                    PostStep::WriteBallot { rows, category: active_list[0].category }
                },
                _ => PostStep::Answer(PostOutcome::Refused(judged)),
            }
        },
    }
}

/// A ban is silent: a vote that would be accepted from a voter in good
/// standing is judged `Banned` for a banned voter, which is answered exactly
/// as a cast vote is while nothing is written and the state is unchanged (see
/// `handle_post`).
pub proof fn lemma_ban_is_silent(active: Seq<ActiveVote>, incoming: Seq<i64>, now_millis: u128)
    requires
        active.len() > 0,
        verdict(active, incoming, now_millis, false) == VoteVerdict::Accepted,
    ensures
        verdict(active, incoming, now_millis, true) == VoteVerdict::Banned,
{
}

/// The ids of the offered videos, in order.
pub open spec fn offered_ids(active: Seq<ActiveVote>) -> Seq<i64> {
    active.map_values(|a: ActiveVote| a.video_id)
}

/// An accepted vote lists exactly the offered videos, each once, when the
/// offer itself named each video once.
pub proof fn lemma_accepted_vote_matches_offer(
    active: Seq<ActiveVote>,
    incoming: Seq<i64>,
    now_millis: u128,
    vote_banned: bool,
)
    requires
        active.len() > 0,
        offered_ids(active).no_duplicates(),
        verdict(active, incoming, now_millis, vote_banned) == VoteVerdict::Accepted,
    ensures
        incoming.to_set() == offered_ids(active).to_set(),
        incoming.no_duplicates(),
        incoming.len() == active.len(),
{
    let ids = offered_ids(active);
    assert(ids.to_set().subset_of(incoming.to_set())) by {
        assert forall|x: i64| ids.to_set().contains(x) implies incoming.to_set().contains(x) by {
            let i = choose|i: int| 0 <= i < ids.len() && ids[i] == x;
            assert(ids[i] == active[i].video_id);
            assert(incoming.contains(active[i].video_id));
        }
    }
    ids.unique_seq_to_set();
    incoming.lemma_cardinality_of_set();
    vstd::set_lib::lemma_len_subset(ids.to_set(), incoming.to_set());
    vstd::set_lib::lemma_subset_equality(ids.to_set(), incoming.to_set());
    incoming.lemma_no_dup_set_cardinality();
}

/// The rows of a ballot rank the submitted videos: one row per video in the
/// submitted order, scores strictly decreasing from `len - 1` down to 0.
pub proof fn lemma_ballot_is_a_ranking(user_id: i64, incoming: Seq<i64>, round: i64, vote_time: i64)
    requires
        incoming.len() <= i64::MAX,
    ensures
        ballot(user_id, incoming, round, vote_time).len() == incoming.len(),
        forall|i: int|
            0 <= i < incoming.len() ==> {
                let row = #[trigger] ballot(user_id, incoming, round, vote_time)[i];
                &&& row.video_id == incoming[i]
                &&& row.user_id == user_id
                &&& row.round == round
                &&& 0 <= row.score < incoming.len()
            },
        forall|i: int, j: int|
            0 <= i < j < incoming.len() ==> #[trigger] ballot(user_id, incoming, round, vote_time)[i].score
                > #[trigger] ballot(user_id, incoming, round, vote_time)[j].score,
        incoming.len() > 0 ==> ballot(user_id, incoming, round, vote_time)[0].score == incoming.len()
            - 1,
        incoming.len() > 0 ==> ballot(user_id, incoming, round, vote_time)[incoming.len()
            - 1].score == 0,
{
}

/// Opponents in a ballot: the first submitted video is set against the
/// second and every other video against the first, so the first two rows
/// face each other, and no video is set against itself when the submitted ids
/// are distinct.
pub proof fn lemma_ballot_opponents(user_id: i64, incoming: Seq<i64>, round: i64, vote_time: i64)
    requires
        incoming.len() >= 2,
    ensures
        ballot(user_id, incoming, round, vote_time)[0].opponent_video_id == incoming[1],
        forall|i: int|
            1 <= i < incoming.len() ==> #[trigger] ballot(
                user_id,
                incoming,
                round,
                vote_time,
            )[i].opponent_video_id == incoming[0],
        ballot(user_id, incoming, round, vote_time)[0].opponent_video_id == ballot(
            user_id,
            incoming,
            round,
            vote_time,
        )[1].video_id,
        ballot(user_id, incoming, round, vote_time)[1].opponent_video_id == ballot(
            user_id,
            incoming,
            round,
            vote_time,
        )[0].video_id,
        incoming.no_duplicates() ==> forall|i: int|
            0 <= i < incoming.len() ==> #[trigger] ballot(
                user_id,
                incoming,
                round,
                vote_time,
            )[i].opponent_video_id != ballot(user_id, incoming, round, vote_time)[i].video_id,
{
    let b = ballot(user_id, incoming, round, vote_time);
    if incoming.no_duplicates() {
        assert forall|i: int| 0 <= i < incoming.len() implies #[trigger] b[i].opponent_video_id
            != b[i].video_id by {
            if i == 0 {
                assert(incoming[0] != incoming[1]);
            } else {
                assert(incoming[i] != incoming[0]);
            }
        }
    }
}

/// A vote is judged the same however long after the offer it comes, once
/// it is not too fast: there is no upper time limit.
pub proof fn lemma_verdict_ignores_elapsed_time(
    active: Seq<ActiveVote>,
    incoming: Seq<i64>,
    earlier: u128,
    later: u128,
    vote_banned: bool,
)
    requires
        active.len() > 0,
        earlier >= #[verifier::truncate] (active[0].start_time as u128),
        later >= earlier,
    ensures
        verdict(active, incoming, earlier, vote_banned) == verdict(
            active,
            incoming,
            later,
            vote_banned,
        ),
        verdict(active, incoming, later, vote_banned) != VoteVerdict::TooFast,
{
}

/// A vote is accepted exactly when it is not too fast, lists every offered
/// video, has the offer's length and comes from a voter who is not banned.
pub proof fn lemma_accepted_exactly_when(
    active: Seq<ActiveVote>,
    incoming: Seq<i64>,
    now_millis: u128,
    vote_banned: bool,
)
    requires
        active.len() > 0,
    ensures
        (verdict(active, incoming, now_millis, vote_banned) == VoteVerdict::Accepted) <==> {
            &&& now_millis >= #[verifier::truncate] (active[0].start_time as u128)
            &&& forall|i: int| 0 <= i < active.len() ==> incoming.contains(#[trigger] active[i].video_id)
            &&& incoming.len() == active.len()
            &&& !vote_banned
        },
{
}

/// The limit flag of an offer is the voter's reported flag for the category
/// served, whatever category was requested.
pub proof fn lemma_offer_flag_is_served_category(
    s: StateView,
    user: User,
    c: i64,
    category: i64,
    videos: Seq<Video>,
    offer: VoteOffer,
)
    requires
        offer_for(offer, s, user, c, category, videos),
    ensures
        offer.limit_active <==> (1 <= category <= NUMBER_OF_CATEGORIES && s.record(user.id)[category
            - 1]),
{
}

/// Two offers served from the same category in the same state carry the
/// same limit flag, whichever categories were requested.
pub proof fn lemma_offer_flag_ignores_request(
    s: StateView,
    user: User,
    c1: i64,
    c2: i64,
    category: i64,
    videos1: Seq<Video>,
    videos2: Seq<Video>,
    offer1: VoteOffer,
    offer2: VoteOffer,
)
    requires
        offer_for(offer1, s, user, c1, category, videos1),
        offer_for(offer2, s, user, c2, category, videos2),
    ensures
        offer1.limit_active == offer2.limit_active,
{
}

/// After a counted vote in a category, an offer served from that category
/// shows the limit as reached, whatever category was requested.
pub proof fn lemma_offer_after_vote_shows_limit(
    s: StateView,
    user: User,
    c: i64,
    category: i64,
    videos: Seq<Video>,
    offer: VoteOffer,
)
    requires
        s.wf(),
        s.counts_category(category),
        offer_for(offer, s.with_vote(user.id, category), user, c, category, videos),
    ensures
        offer.limit_active,
{
    crate::state::lemma_vote_is_recorded(s, user.id, category);
}

} // verus!
