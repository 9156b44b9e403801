//! The course of one query, as a state machine.
//!
//! A session never touches a connection. It tells its caller which bytes to
//! write and how many to read, takes the bytes that were read, and decides
//! what comes next:
//!
//! handshake, then the game configuration, then the player count, then the
//! team update, then one player record for each player counted.
//!
//! While a session waits for a response it takes frames one at a time: the
//! header first, then the payload that the header announces. A frame with
//! another command code than the awaited one is read whole and thrown away,
//! payload and all, and the next header is asked for; the payload of the
//! awaited frame is the response. Any failure ends the session: `step` consumes it and hands back
//! either the next session, the finished snapshot or the failure, so there is
//! nothing left to retry with and no partial snapshot to read.

use crate::constants::{
    BUFFER_SIZE, FRAME_HEADER_LEN, HANDSHAKE_RESPONSE_LEN, MSG_ADD_PLAYER, MSG_QUERY_GAME,
    MSG_QUERY_PLAYERS, MSG_TEAM_UPDATE,
};
use crate::error::QueryError;
use crate::frame::{
    check_handshake, greeting, header_has_code, header_length, match_header, request_frame,
    spec_check_handshake, spec_greeting, spec_match_header, spec_request_frame, version_matches,
    Header,
};
use crate::model::{
    roster_view, spec_assemble, GameConfig, Player, PlayerView, Query, QueryView, Team,
};
use crate::records::{
    decode_game_config, decode_player, decode_player_count, decode_team_update,
    spec_decode_game_config, spec_decode_player, spec_decode_player_count,
    spec_decode_team_update,
};
use vstd::prelude::*;

verus! {

/// The stages of a query, in their order.
#[derive(Debug, Clone, Copy, PartialEq, Eq)]
pub enum Stage {
    Handshake,
    AwaitGameConfig,
    AwaitPlayerCount,
    AwaitTeamUpdate,
    AwaitEachPlayer,
}

/// A failed query: the stage at which it failed, and why.
#[derive(Debug, Clone, Copy, PartialEq, Eq)]
pub struct Failure {
    pub stage: Stage,
    pub error: QueryError,
}

/// What a session asks of its caller: write `send`, which may be empty, then
/// read exactly `read` bytes and hand them to `step`.
#[derive(Debug, Clone, PartialEq, Eq)]
pub struct Exchange {
    pub send: Vec<u8>,
    pub read: usize,
}

/// What a session that waits for a response expects to be handed next.
#[derive(Debug, Clone, Copy, PartialEq, Eq)]
pub enum Waiting {
    /// The header of the next frame.
    Header,
    /// The payload of the awaited frame, of this length.
    Payload(u16),
    /// The payload of a frame with another code, of this length, which is
    /// thrown away.
    Skip(u16),
}

/// A session as mathematics: the stage, what it waits for, and what has
/// been gathered so far.
pub enum SessionView {
    Handshake,
    AwaitGameConfig { waiting: Waiting },
    AwaitPlayerCount { waiting: Waiting, config: GameConfig },
    AwaitTeamUpdate { waiting: Waiting, config: GameConfig, player_count: u16 },
    AwaitEachPlayer {
        waiting: Waiting,
        config: GameConfig,
        player_count: u16,
        teams: Seq<Team>,
        players: Seq<PlayerView>,
    },
}

/// What one step of a session leads to.
pub enum StepView {
    /// The query goes on: the next session, and the exchange it asks for.
    Continue { session: SessionView, send: Seq<u8>, read: nat },
    /// The query is complete.
    Done { query: QueryView },
    /// The query is abandoned.
    Failed { failure: Failure },
}

impl SessionView {
    /// The stage of a session.
    pub open spec fn stage(self) -> Stage {
        match self {
            SessionView::Handshake => Stage::Handshake,
            SessionView::AwaitGameConfig { .. } => Stage::AwaitGameConfig,
            SessionView::AwaitPlayerCount { .. } => Stage::AwaitPlayerCount,
            SessionView::AwaitTeamUpdate { .. } => Stage::AwaitTeamUpdate,
            SessionView::AwaitEachPlayer { .. } => Stage::AwaitEachPlayer,
        }
    }

    /// What a session waits for. At the handshake no frame is in sight.
    pub open spec fn waiting(self) -> Waiting {
        match self {
            SessionView::Handshake => Waiting::Header,
            SessionView::AwaitGameConfig { waiting } => waiting,
            SessionView::AwaitPlayerCount { waiting, .. } => waiting,
            SessionView::AwaitTeamUpdate { waiting, .. } => waiting,
            SessionView::AwaitEachPlayer { waiting, .. } => waiting,
        }
    }

    /// The same session waiting for something else.
    pub open spec fn with_waiting(self, waiting: Waiting) -> SessionView {
        match self {
            SessionView::Handshake => SessionView::Handshake,
            SessionView::AwaitGameConfig { .. } => SessionView::AwaitGameConfig { waiting },
            SessionView::AwaitPlayerCount { config, .. } => SessionView::AwaitPlayerCount {
                waiting,
                config,
            },
            SessionView::AwaitTeamUpdate { config, player_count, .. } => {
                SessionView::AwaitTeamUpdate { waiting, config, player_count }
            },
            SessionView::AwaitEachPlayer { config, player_count, teams, players, .. } => {
                SessionView::AwaitEachPlayer { waiting, config, player_count, teams, players }
            },
        }
    }

    /// The number of bytes that a session expects to be handed next: the
    /// answer to the greeting, a frame header, or the payload of the frame
    /// whose header it took.
    pub open spec fn expected_len(self) -> nat {
        match self {
            SessionView::Handshake => HANDSHAKE_RESPONSE_LEN as nat,
            _ => match self.waiting() {
                Waiting::Header => FRAME_HEADER_LEN as nat,
                Waiting::Payload(n) => n as nat,
                Waiting::Skip(n) => n as nat,
            },
        }
    }

    /// What holds of every session that `start` and `step` give: a payload
    /// that it waits for fits a buffer, one that it is to throw away is not
    /// empty, and a session that waits for a player record has not yet seen
    /// as many as were counted.
    pub open spec fn wf(self) -> bool {
        &&& self.waiting() matches Waiting::Payload(n) ==> n <= BUFFER_SIZE
        &&& self.waiting() matches Waiting::Skip(n) ==> 0 < n <= BUFFER_SIZE
        &&& self matches SessionView::AwaitEachPlayer { player_count, players, .. }
            ==> players.len() < player_count
    }
}

/// The command code of the response that is awaited at a stage.
pub open spec fn awaited_code(stage: Stage) -> [u8; 2] {
    match stage {
        Stage::Handshake => MSG_QUERY_GAME,
        Stage::AwaitGameConfig => MSG_QUERY_GAME,
        Stage::AwaitPlayerCount => MSG_QUERY_PLAYERS,
        Stage::AwaitTeamUpdate => MSG_TEAM_UPDATE,
        Stage::AwaitEachPlayer => MSG_ADD_PLAYER,
    }
}

/// The step that ends a query.
pub open spec fn failed(stage: Stage, error: QueryError) -> StepView {
    StepView::Failed { failure: Failure { stage, error } }
}

/// The step that asks for the next frame header without writing anything.
pub open spec fn await_header(session: SessionView) -> StepView {
    StepView::Continue { session, send: Seq::empty(), read: FRAME_HEADER_LEN as nat }
}

/// The session before anything was exchanged.
pub open spec fn spec_start() -> SessionView {
    SessionView::Handshake
}

/// The step from the answer to the greeting: on success the request for the
/// game configuration goes out.
pub open spec fn spec_handshake_step(input: Seq<u8>) -> StepView {
    match spec_check_handshake(input) {
        Err(e) => failed(Stage::Handshake, e),
        Ok(_) => StepView::Continue {
            session: SessionView::AwaitGameConfig { waiting: Waiting::Header },
            send: spec_request_frame(MSG_QUERY_GAME),
            read: FRAME_HEADER_LEN as nat,
        },
    }
}

/// The step from a frame header. The header of the awaited frame is
/// followed by its payload. The header of a frame with another code is
/// followed by a payload to throw away; where that payload is empty the
/// frame is over, and the next header is asked for at once.
pub open spec fn spec_header_step(session: SessionView, input: Seq<u8>) -> StepView {
    match spec_match_header(input, awaited_code(session.stage())) {
        Err(e) => failed(session.stage(), e),
        Ok(Header::Awaited(n)) => StepView::Continue {
            session: session.with_waiting(Waiting::Payload(n)),
            send: Seq::empty(),
            read: n as nat,
        },
        Ok(Header::Other(n)) => if n == 0 {
            await_header(session)
        } else {
            StepView::Continue {
                session: session.with_waiting(Waiting::Skip(n)),
                send: Seq::empty(),
                read: n as nat,
            }
        },
    }
}

/// The step from the payload of a frame with another code: the bytes are
/// thrown away, whatever they hold, and the next header is asked for.
pub open spec fn spec_skip_step(session: SessionView) -> StepView {
    await_header(session.with_waiting(Waiting::Header))
}

/// The step from the payload of the awaited response.
pub open spec fn spec_payload_step(session: SessionView, input: Seq<u8>) -> StepView {
    match session {
        SessionView::Handshake => spec_handshake_step(input),
        SessionView::AwaitGameConfig { .. } => match spec_decode_game_config(input) {
            Err(e) => failed(Stage::AwaitGameConfig, e),
            Ok(config) => StepView::Continue {
                session: SessionView::AwaitPlayerCount { waiting: Waiting::Header, config },
                send: spec_request_frame(MSG_QUERY_PLAYERS),
                read: FRAME_HEADER_LEN as nat,
            },
        },
        SessionView::AwaitPlayerCount { config, .. } => match spec_decode_player_count(input) {
            Err(e) => failed(Stage::AwaitPlayerCount, e),
            Ok(player_count) => await_header(
                SessionView::AwaitTeamUpdate { waiting: Waiting::Header, config, player_count },
            ),
        },
        SessionView::AwaitTeamUpdate { config, player_count, .. } => match spec_decode_team_update(
            input,
            config.observer_size,
            config.max_team_sizes,
        ) {
            Err(e) => failed(Stage::AwaitTeamUpdate, e),
            Ok(teams) => if player_count == 0 {
                StepView::Done { query: spec_assemble(config, teams, Seq::empty()) }
            } else {
                await_header(
                    SessionView::AwaitEachPlayer {
                        waiting: Waiting::Header,
                        config,
                        player_count,
                        teams,
                        players: Seq::empty(),
                    },
                )
            },
        },
        SessionView::AwaitEachPlayer { config, player_count, teams, players, .. } => {
            match spec_decode_player(input) {
                Err(e) => failed(Stage::AwaitEachPlayer, e),
                Ok(player) => if players.len() + 1 == player_count {
                    StepView::Done { query: spec_assemble(config, teams, players.push(player)) }
                } else {
                    await_header(
                        SessionView::AwaitEachPlayer {
                            waiting: Waiting::Header,
                            config,
                            player_count,
                            teams,
                            players: players.push(player),
                        },
                    )
                },
            }
        },
    }
}

/// One step of a session on the bytes that its caller read.
///
/// Bytes of another number than the session asked for are a truncated
/// frame. Otherwise the bytes are the answer to the greeting, a frame
/// header, the awaited payload or a payload to throw away, by the state of
/// the session.
pub open spec fn spec_step(session: SessionView, input: Seq<u8>) -> StepView {
    if input.len() != session.expected_len() {
        failed(session.stage(), QueryError::TruncatedFrame)
    } else if session is Handshake {
        spec_handshake_step(input)
    } else {
        match session.waiting() {
            Waiting::Header => spec_header_step(session, input),
            Waiting::Payload(_) => spec_payload_step(session, input),
            Waiting::Skip(_) => spec_skip_step(session),
        }
    }
}

/// Every session that `start` gives is well formed, and a step of a well
/// formed session leads to a well formed session.
pub proof fn lemma_step_keeps_wf(session: SessionView, input: Seq<u8>)
    requires
        session.wf(),
    ensures
        spec_start().wf(),
        spec_step(session, input) matches StepView::Continue { session: next, .. } ==> next.wf(),
{
}

/// A step asks for exactly the bytes that the next session expects.
pub proof fn lemma_step_asks_what_it_expects(session: SessionView, input: Seq<u8>)
    requires
        session.wf(),
    ensures
        spec_step(session, input) matches StepView::Continue { session: next, read, .. } ==> read
            == next.expected_len(),
{
}

/// An answer to the greeting whose first eight bytes are not the version
/// token is a protocol mismatch: the first step fails with it, whatever
/// follows those bytes, and so gives no snapshot.
pub proof fn lemma_wrong_version_is_mismatch(input: Seq<u8>)
    requires
        input.len() == HANDSHAKE_RESPONSE_LEN,
        !version_matches(input),
    ensures
        spec_step(spec_start(), input) matches StepView::Failed { failure } && failure.stage
            == Stage::Handshake && failure.error is ProtocolMismatch,
{
}

/// A header that announces more payload than a buffer may take is a
/// truncated frame, at every stage that waits for a header and whatever
/// code the header carries.
pub proof fn lemma_oversize_frame_is_truncated(session: SessionView, header: Seq<u8>)
    requires
        !(session is Handshake),
        session.waiting() is Header,
        header.len() == FRAME_HEADER_LEN,
        header_length(header) > BUFFER_SIZE,
    ensures
        spec_step(session, header) == failed(session.stage(), QueryError::TruncatedFrame),
{
}

/// A frame with another code than the awaited one is consumed whole and
/// leaves no trace: after its header and the payload that the header
/// announces the session is as it was, and asks for the next header. The
/// payload is asked for in one read of its own length, and what it holds
/// does not matter; an empty payload is not asked for at all.
pub proof fn lemma_foreign_frame_is_consumed_whole(
    session: SessionView,
    header: Seq<u8>,
    payload: Seq<u8>,
)
    requires
        !(session is Handshake),
        session.waiting() is Header,
        header.len() == FRAME_HEADER_LEN,
        !header_has_code(header, awaited_code(session.stage())),
        header_length(header) <= BUFFER_SIZE,
        payload.len() == header_length(header),
    ensures
        payload.len() == 0 ==> spec_step(session, header) == await_header(session),
        payload.len() > 0 ==> {
            &&& spec_step(session, header) matches StepView::Continue { session: skipping, send, read }
            &&& send == Seq::<u8>::empty()
            &&& read == payload.len()
            &&& skipping.stage() == session.stage()
            &&& spec_step(skipping, payload) == await_header(session)
        },
{
}

/// The awaited frame delivers its payload: after its header the session
/// asks for exactly the announced number of bytes, and the step on those
/// bytes is the step of the stage on that payload.
pub proof fn lemma_awaited_frame_is_delivered(
    session: SessionView,
    header: Seq<u8>,
    payload: Seq<u8>,
)
    requires
        !(session is Handshake),
        session.waiting() is Header,
        header.len() == FRAME_HEADER_LEN,
        header_has_code(header, awaited_code(session.stage())),
        header_length(header) <= BUFFER_SIZE,
        payload.len() == header_length(header),
    ensures
        spec_step(session, header) matches StepView::Continue { session: taking, send, read }
            && send == Seq::<u8>::empty() && read == payload.len() && spec_step(taking, payload)
            == spec_payload_step(session, payload),
{
}

/// Whether bytes are one whole frame: a header, and a payload of the length
/// that the header announces.
pub open spec fn is_frame(frame: Seq<u8>) -> bool {
    frame.len() >= FRAME_HEADER_LEN && frame.len() == FRAME_HEADER_LEN + header_length(
        frame_header(frame),
    )
}

/// The header of a frame: its first four bytes.
pub open spec fn frame_header(frame: Seq<u8>) -> Seq<u8> {
    frame.subrange(0, FRAME_HEADER_LEN as int)
}

/// The payload of a frame: what follows its header.
pub open spec fn frame_payload(frame: Seq<u8>) -> Seq<u8> {
    frame.subrange(FRAME_HEADER_LEN as int, frame.len() as int)
}

/// What comes of handing one whole frame to a session that waits for a
/// header, in the reads that the session asks for: the header, and then the
/// payload where the session asks for one.
pub open spec fn spec_take_frame(session: SessionView, frame: Seq<u8>) -> StepView {
    match spec_step(session, frame_header(frame)) {
        StepView::Continue { session: next, send, read } => if next.waiting() is Header {
            StepView::Continue { session: next, send, read }
        } else {
            spec_step(next, frame_payload(frame))
        },
        other => other,
    }
}

/// What comes of handing whole frames to a session that waits for a header,
/// one after the other in their order, for as long as the query goes on.
pub open spec fn spec_take_frames(session: SessionView, frames: Seq<Seq<u8>>) -> StepView
    decreases frames.len(),
{
    if frames.len() == 0 {
        await_header(session)
    } else {
        match spec_take_frame(session, frames[0]) {
            StepView::Continue { session: next, send, read } => if frames.len() == 1 {
                StepView::Continue { session: next, send, read }
            } else {
                spec_take_frames(next, frames.drop_first())
            },
            other => other,
        }
    }
}

/// Whether a frame is whole, fits a buffer and carries another code than
/// the one that a session waits for.
pub open spec fn is_foreign_frame(session: SessionView, frame: Seq<u8>) -> bool {
    &&& is_frame(frame)
    &&& header_length(frame_header(frame)) <= BUFFER_SIZE
    &&& !header_has_code(frame_header(frame), awaited_code(session.stage()))
}

/// Whether a frame is whole, fits a buffer and carries the code that a
/// session waits for.
pub open spec fn is_awaited_frame(session: SessionView, frame: Seq<u8>) -> bool {
    &&& is_frame(frame)
    &&& header_length(frame_header(frame)) <= BUFFER_SIZE
    &&& header_has_code(frame_header(frame), awaited_code(session.stage()))
}

/// Any number of frames with other codes leave a session as it was: each is
/// consumed whole, header and payload, and after the last of them the
/// session asks for the next header.
pub proof fn lemma_foreign_frames_leave_no_trace(session: SessionView, frames: Seq<Seq<u8>>)
    requires
        !(session is Handshake),
        session.waiting() is Header,
        forall|i: int| 0 <= i < frames.len() ==> is_foreign_frame(session, #[trigger] frames[i]),
    ensures
        spec_take_frames(session, frames) == await_header(session),
    decreases frames.len(),
{
    if frames.len() > 0 {
        let frame = frames[0];
        assert(is_foreign_frame(session, frame));
        lemma_foreign_frame_is_consumed_whole(session, frame_header(frame), frame_payload(frame));
        assert(spec_take_frame(session, frame) == await_header(session));
        if frames.len() > 1 {
            let rest = frames.drop_first();
            assert forall|i: int| 0 <= i < rest.len() implies is_foreign_frame(
                session,
                #[trigger] rest[i],
            ) by {
                assert(rest[i] == frames[i + 1]);
            }
            lemma_foreign_frames_leave_no_trace(session, rest);
        }
    }
}

/// The payload that a waiting session delivers is the payload of the first
/// frame with the awaited code: the frames before it, with other codes, are
/// consumed whole and in order, and the step that follows is the step of the
/// stage on that payload and on nothing else.
pub proof fn lemma_first_awaited_frame_is_delivered(
    session: SessionView,
    frames: Seq<Seq<u8>>,
    awaited: Seq<u8>,
)
    requires
        !(session is Handshake),
        session.waiting() is Header,
        forall|i: int| 0 <= i < frames.len() ==> is_foreign_frame(session, #[trigger] frames[i]),
        is_awaited_frame(session, awaited),
    ensures
        spec_take_frames(session, frames.push(awaited)) == spec_payload_step(
            session,
            frame_payload(awaited),
        ),
    decreases frames.len(),
{
    let all = frames.push(awaited);
    if frames.len() == 0 {
        lemma_awaited_frame_is_delivered(session, frame_header(awaited), frame_payload(awaited));
        assert(all[0] == awaited);
        assert(spec_take_frame(session, awaited) == spec_payload_step(
            session,
            frame_payload(awaited),
        ));
    } else {
        let frame = frames[0];
        assert(all[0] == frame);
        assert(is_foreign_frame(session, frame));
        lemma_foreign_frame_is_consumed_whole(session, frame_header(frame), frame_payload(frame));
        assert(spec_take_frame(session, frame) == await_header(session));
        let rest = frames.drop_first();
        assert(all.drop_first() =~= rest.push(awaited));
        assert forall|i: int| 0 <= i < rest.len() implies is_foreign_frame(
            session,
            #[trigger] rest[i],
        ) by {
            assert(rest[i] == frames[i + 1]);
        }
        lemma_first_awaited_frame_is_delivered(session, rest, awaited);
    }
}

/// The rank of a stage in the order of a query.
pub open spec fn stage_rank(stage: Stage) -> nat {
    match stage {
        Stage::Handshake => 0,
        Stage::AwaitGameConfig => 1,
        Stage::AwaitPlayerCount => 2,
        Stage::AwaitTeamUpdate => 3,
        Stage::AwaitEachPlayer => 4,
    }
}

/// The number of player records that a session is still to take, once the
/// player count is known.
pub open spec fn players_awaited(session: SessionView) -> Option<nat> {
    match session {
        SessionView::AwaitTeamUpdate { player_count, .. } => Some(player_count as nat),
        SessionView::AwaitEachPlayer { player_count, players, .. } => Some(
            (player_count - players.len()) as nat,
        ),
        _ => None,
    }
}

/// A step never goes back a stage and never skips one. A query completes
/// only from the team update, when no player was counted, or from a player
/// record.
pub proof fn lemma_stages_in_order(session: SessionView, input: Seq<u8>)
    requires
        session.wf(),
    ensures
        match spec_step(session, input) {
            StepView::Continue { session: next, .. } => {
                let from = stage_rank(session.stage());
                let to = stage_rank(next.stage());
                to == from || to == from + 1
            },
            StepView::Done { .. } => session is AwaitTeamUpdate || session is AwaitEachPlayer,
            StepView::Failed { failure } => failure.stage == session.stage(),
        },
{
}

/// Player records are counted one by one. A step that takes a player record
/// lowers the number still awaited by exactly one, every other step of the
/// roster stage leaves it as it is, and the query completes exactly when the
/// last awaited record is taken: with as many players as were counted, no
/// more and no fewer.
pub proof fn lemma_players_counted(session: SessionView, input: Seq<u8>)
    requires
        session.wf(),
        players_awaited(session) is Some,
    ensures
        match spec_step(session, input) {
            StepView::Continue { session: next, .. } => {
                &&& players_awaited(next) is Some
                &&& next is AwaitEachPlayer ==> players_awaited(next)->0 > 0
                &&& if session is AwaitEachPlayer && session.waiting() is Payload {
                    players_awaited(next)->0 + 1 == players_awaited(session)->0
                } else {
                    players_awaited(next) == players_awaited(session)
                }
            },
            StepView::Done { query } => {
                &&& session.waiting() is Payload
                &&& players_awaited(session)->0 == (if session is AwaitEachPlayer {
                    1nat
                } else {
                    0nat
                })
                &&& session matches SessionView::AwaitEachPlayer { player_count, .. }
                    ==> query.players.len() == player_count
                &&& session matches SessionView::AwaitTeamUpdate { player_count, .. }
                    ==> query.players.len() == 0 && player_count == 0
            },
            StepView::Failed { .. } => true,
        },
{
}

/// What has been gathered, by stage. Private to the session: a state that
/// the type cannot hold cannot be reached.
#[derive(Debug)]
enum Gathered {
    Nothing,
    Greeted,
    Configured { config: GameConfig },
    Counted { config: GameConfig, player_count: u16 },
    Teamed { config: GameConfig, player_count: u16, teams: Vec<Team>, players: Vec<Player> },
}

/// One query in progress.
#[derive(Debug)]
pub struct Session {
    gathered: Gathered,
    waiting: Waiting,
}

impl View for Session {
    type V = SessionView;

    closed spec fn view(&self) -> SessionView {
        match self.gathered {
            Gathered::Nothing => SessionView::Handshake,
            Gathered::Greeted => SessionView::AwaitGameConfig { waiting: self.waiting },
            Gathered::Configured { config } => SessionView::AwaitPlayerCount {
                waiting: self.waiting,
                config,
            },
            Gathered::Counted { config, player_count } => SessionView::AwaitTeamUpdate {
                waiting: self.waiting,
                config,
                player_count,
            },
            Gathered::Teamed { config, player_count, teams, players } => {
                SessionView::AwaitEachPlayer {
                    waiting: self.waiting,
                    config,
                    player_count,
                    teams: teams@,
                    players: roster_view(players@),
                }
            },
        }
    }
}

/// The outcome of a step: the next session and what it asks for, or the
/// finished snapshot.
#[derive(Debug)]
pub enum Step {
    Continue(Session, Exchange),
    Done(Query),
}

/// Whether the result of `step` is what the model says it is.
pub open spec fn step_matches(r: Result<Step, Failure>, expected: StepView) -> bool {
    match expected {
        StepView::Continue { session, send, read } => {
            &&& r matches Ok(Step::Continue(next, exchange))
            &&& next@ == session
            &&& exchange.send@ == send
            &&& exchange.read == read
        },
        StepView::Done { query } => r matches Ok(Step::Done(q)) && q@ == query,
        StepView::Failed { failure } => r == Err::<Step, Failure>(failure),
    }
}

impl Session {
    #[verifier::type_invariant]
    spec fn inv(self) -> bool {
        &&& self.gathered is Nothing ==> self.waiting is Header
        &&& self@.wf()
    }

    /// Begins a query: the session, and the exchange that opens it, which
    /// writes the greeting and reads the server's answer.
    pub fn start() -> (r: (Session, Exchange))
        ensures
            r.0@ == spec_start(),
            r.1.send@ == spec_greeting(),
            r.1.read == HANDSHAKE_RESPONSE_LEN,
    {
        (
            Session { gathered: Gathered::Nothing, waiting: Waiting::Header },
            Exchange { send: greeting(), read: HANDSHAKE_RESPONSE_LEN },
        )
    }

    /// The stage that this session is at.
    pub fn stage(&self) -> (r: Stage)
        ensures
            r == self@.stage(),
    {
        match &self.gathered {
            Gathered::Nothing => Stage::Handshake,
            Gathered::Greeted => Stage::AwaitGameConfig,
            Gathered::Configured { .. } => Stage::AwaitPlayerCount,
            Gathered::Counted { .. } => Stage::AwaitTeamUpdate,
            Gathered::Teamed { .. } => Stage::AwaitEachPlayer,
        }
    }

    /// The number of bytes that this session expects to be handed next.
    pub fn expected_len(&self) -> (r: usize)
        ensures
            r == self@.expected_len(),
    {
        proof {
            use_type_invariant(self);
        }
        match &self.gathered {
            Gathered::Nothing => HANDSHAKE_RESPONSE_LEN,
            _ => match self.waiting {
                Waiting::Header => FRAME_HEADER_LEN,
                Waiting::Payload(n) => n as usize,
                Waiting::Skip(n) => n as usize,
            },
        }
    }

    /// The command code of the response that this session waits for.
    fn code(&self) -> (r: [u8; 2])
        ensures
            r == awaited_code(self@.stage()),
    {
        match &self.gathered {
            Gathered::Nothing => MSG_QUERY_GAME,
            Gathered::Greeted => MSG_QUERY_GAME,
            Gathered::Configured { .. } => MSG_QUERY_PLAYERS,
            Gathered::Counted { .. } => MSG_TEAM_UPDATE,
            Gathered::Teamed { .. } => MSG_ADD_PLAYER,
        }
    }

    /// Takes the bytes that the caller read and decides what comes next.
    pub fn step(self, input: &[u8]) -> (r: Result<Step, Failure>)
        ensures
            step_matches(r, spec_step(self@, input@)),
    {
        proof {
            use_type_invariant(&self);
        }
        let stage = self.stage();
        if input.len() != self.expected_len() {
            return Err(Failure { stage, error: QueryError::TruncatedFrame });
        }
        let waiting = match &self.gathered {
            Gathered::Nothing => Waiting::Payload(0),
            _ => self.waiting,
        };
        match waiting {
            Waiting::Header => {
                let code = self.code();
                return match match_header(input, &code) {
                    Err(error) => Err(Failure { stage, error }),
                    Ok(Header::Awaited(n)) => Ok(
                        Step::Continue(
                            Session { gathered: self.gathered, waiting: Waiting::Payload(n) },
                            Exchange { send: Vec::new(), read: n as usize },
                        ),
                    ),
                    Ok(Header::Other(n)) => if n == 0 {
                        Ok(
                            Step::Continue(
                                self,
                                Exchange { send: Vec::new(), read: FRAME_HEADER_LEN },
                            ),
                        )
                    } else {
                        Ok(
                            Step::Continue(
                                Session { gathered: self.gathered, waiting: Waiting::Skip(n) },
                                Exchange { send: Vec::new(), read: n as usize },
                            ),
                        )
                    },
                };
            },
            Waiting::Skip(_) => {
                return Ok(
                    Step::Continue(
                        Session { gathered: self.gathered, waiting: Waiting::Header },
                        Exchange { send: Vec::new(), read: FRAME_HEADER_LEN },
                    ),
                );
            },
            Waiting::Payload(_) => {},
        }
        match self.gathered {
            Gathered::Nothing => match check_handshake(input) {
                Err(error) => Err(Failure { stage, error }),
                Ok(_) => Ok(
                    Step::Continue(
                        Session { gathered: Gathered::Greeted, waiting: Waiting::Header },
                        Exchange { send: request_frame(&MSG_QUERY_GAME), read: FRAME_HEADER_LEN },
                    ),
                ),
            },
            Gathered::Greeted => match decode_game_config(input) {
                Err(error) => Err(Failure { stage, error }),
                Ok(config) => Ok(
                    Step::Continue(
                        Session { gathered: Gathered::Configured { config }, waiting: Waiting::Header },
                        Exchange {
                            send: request_frame(&MSG_QUERY_PLAYERS),
                            read: FRAME_HEADER_LEN,
                        },
                    ),
                ),
            },
            Gathered::Configured { config } => match decode_player_count(input) {
                Err(error) => Err(Failure { stage, error }),
                Ok(player_count) => Ok(
                    Step::Continue(
                        Session {
                            gathered: Gathered::Counted { config, player_count },
                            waiting: Waiting::Header,
                        },
                        Exchange { send: Vec::new(), read: FRAME_HEADER_LEN },
                    ),
                ),
            },
            Gathered::Counted { config, player_count } => match decode_team_update(
                input,
                config.observer_size,
                &config.max_team_sizes,
            ) {
                Err(error) => Err(Failure { stage, error }),
                Ok(teams) => {
                    let players: Vec<Player> = Vec::new();
                    assert(roster_view(players@) =~= Seq::<PlayerView>::empty());
                    if player_count == 0 {
                        Ok(Step::Done(Query::assemble(config, teams, players)))
                    } else {
                        Ok(
                            Step::Continue(
                                Session {
                                    gathered: Gathered::Teamed {
                                        config,
                                        player_count,
                                        teams,
                                        players,
                                    },
                                    waiting: Waiting::Header,
                                },
                                Exchange { send: Vec::new(), read: FRAME_HEADER_LEN },
                            ),
                        )
                    }
                },
            },
            Gathered::Teamed { config, player_count, teams, players } => {
                match decode_player(input) {
                    Err(error) => Err(Failure { stage, error }),
                    Ok(player) => {
                        let ghost before = players@;
                        let mut players = players;
                        players.push(player);
                        assert(roster_view(players@) =~= roster_view(before).push(player@));
                        if players.len() == player_count as usize {
                            Ok(Step::Done(Query::assemble(config, teams, players)))
                        } else {
                            Ok(
                                Step::Continue(
                                    Session {
                                        gathered: Gathered::Teamed {
                                            config,
                                            player_count,
                                            teams,
                                            players,
                                        },
                                        waiting: Waiting::Header,
                                    },
                                    Exchange { send: Vec::new(), read: FRAME_HEADER_LEN },
                                ),
                            )
                        }
                    },
                }
            },
        }
    }
}

} // verus!
