//! The typed entities exchanged between the worker and the foreground:
//! commands, messages, the match snapshot, tournament info, and the
//! foreground's connection-step mirror, together with the ghost models
//! (character sequences in place of strings) that the contracts speak
//! of.

use vstd::prelude::*;

use crate::wire::WireValue;

verus! {

/// A completed (or in-progress) set's games, one count per player.
#[derive(Debug, Clone, Copy, PartialEq, Eq, Structural)]
pub struct SetScore {
    pub player1_games: u32,
    pub player2_games: u32,
}

/// A tournament as listed by the backend.
#[derive(Debug, Clone, PartialEq, Eq)]
pub struct TournamentInfo {
    pub id: String,
    pub name: String,
    /// Free text; `"unknown"` when the backend omits it.
    pub status: String,
}

/// Ghost model of [`TournamentInfo`].
#[verifier::ext_equal]
pub struct TournamentModel {
    pub id: Seq<char>,
    pub name: Seq<char>,
    pub status: Seq<char>,
}

impl View for TournamentInfo {
    type V = TournamentModel;

    open spec fn view(&self) -> TournamentModel {
        TournamentModel { id: self.id@, name: self.name@, status: self.status@ }
    }
}

/// The complete point-in-time view of an in-progress match's score
/// state. Every numeric field defaults to 0 and every optional field to
/// `None` rather than failing a parse.
#[derive(Debug, Clone, PartialEq)]
pub struct TennisLiveData {
    pub player1_name: String,
    pub player2_name: String,
    pub player1_display_name: String,
    pub player2_display_name: String,
    pub player1_nationality: Option<String>,
    pub player2_nationality: Option<String>,
    /// Completed sets in arrival order, with the in-progress set
    /// appended last if present.
    pub sets: Vec<SetScore>,
    pub current_game_points: [u32; 2],
    pub tiebreak_points: [u32; 2],
    /// 1 or 2; 1 when absent or invalid.
    pub serving_player: u8,
    pub is_tiebreak: bool,
    pub is_match_complete: bool,
    pub aces: [u32; 2],
    pub double_faults: [u32; 2],
    /// Epoch milliseconds.
    pub match_started_timestamp: Option<u64>,
    /// Epoch milliseconds.
    pub match_completed_at: Option<u64>,
}

/// Ghost model of [`TennisLiveData`].
#[verifier::ext_equal]
pub struct SnapshotModel {
    pub player1_name: Seq<char>,
    pub player2_name: Seq<char>,
    pub player1_display_name: Seq<char>,
    pub player2_display_name: Seq<char>,
    pub player1_nationality: Option<Seq<char>>,
    pub player2_nationality: Option<Seq<char>>,
    pub sets: Seq<SetScore>,
    pub current_game_points: (u32, u32),
    pub tiebreak_points: (u32, u32),
    pub serving_player: u8,
    pub is_tiebreak: bool,
    pub is_match_complete: bool,
    pub aces: (u32, u32),
    pub double_faults: (u32, u32),
    pub match_started_timestamp: Option<u64>,
    pub match_completed_at: Option<u64>,
}

/// The model of an optional string.
pub open spec fn opt_text(o: Option<String>) -> Option<Seq<char>> {
    match o {
        Some(s) => Some(s@),
        None => None,
    }
}

impl View for TennisLiveData {
    type V = SnapshotModel;

    open spec fn view(&self) -> SnapshotModel {
        SnapshotModel {
            player1_name: self.player1_name@,
            player2_name: self.player2_name@,
            player1_display_name: self.player1_display_name@,
            player2_display_name: self.player2_display_name@,
            player1_nationality: opt_text(self.player1_nationality),
            player2_nationality: opt_text(self.player2_nationality),
            sets: self.sets@,
            current_game_points: (self.current_game_points@[0], self.current_game_points@[1]),
            tiebreak_points: (self.tiebreak_points@[0], self.tiebreak_points@[1]),
            serving_player: self.serving_player,
            is_tiebreak: self.is_tiebreak,
            is_match_complete: self.is_match_complete,
            aces: (self.aces@[0], self.aces@[1]),
            double_faults: (self.double_faults@[0], self.double_faults@[1]),
            match_started_timestamp: self.match_started_timestamp,
            match_completed_at: self.match_completed_at,
        }
    }
}

impl TennisLiveData {
    /// A copy of the snapshot, equal to it field by field.
    pub fn duplicate(&self) -> (r: TennisLiveData)
        ensures
            r@ == self@,
    {
        let r = TennisLiveData {
            player1_name: self.player1_name.clone(),
            player2_name: self.player2_name.clone(),
            player1_display_name: self.player1_display_name.clone(),
            player2_display_name: self.player2_display_name.clone(),
            player1_nationality: self.player1_nationality.clone(),
            player2_nationality: self.player2_nationality.clone(),
            sets: self.sets.clone(),
            current_game_points: self.current_game_points,
            tiebreak_points: self.tiebreak_points,
            serving_player: self.serving_player,
            is_tiebreak: self.is_tiebreak,
            is_match_complete: self.is_match_complete,
            aces: self.aces,
            double_faults: self.double_faults,
            match_started_timestamp: self.match_started_timestamp,
            match_completed_at: self.match_completed_at,
        };
        proof {
            assert(r.sets@ =~= self.sets@);
            assert(r@ =~= self@);
        }
        r
    }
}

/// A command from the foreground to the worker.
#[derive(Debug, Clone, PartialEq, Eq)]
pub enum LiveDataCommand {
    StartPairing { url: String },
    Connect { url: String, api_key: String },
    SelectTournament(String),
    SelectCourt(String),
    Disconnect,
}

/// Ghost model of [`LiveDataCommand`].
pub enum CommandModel {
    StartPairing { url: Seq<char> },
    Connect { url: Seq<char>, api_key: Seq<char> },
    SelectTournament(Seq<char>),
    SelectCourt(Seq<char>),
    Disconnect,
}

impl View for LiveDataCommand {
    type V = CommandModel;

    open spec fn view(&self) -> CommandModel {
        match self {
            LiveDataCommand::StartPairing { url } => CommandModel::StartPairing { url: url@ },
            LiveDataCommand::Connect { url, api_key } => CommandModel::Connect {
                url: url@,
                api_key: api_key@,
            },
            LiveDataCommand::SelectTournament(id) => CommandModel::SelectTournament(id@),
            LiveDataCommand::SelectCourt(court) => CommandModel::SelectCourt(court@),
            LiveDataCommand::Disconnect => CommandModel::Disconnect,
        }
    }
}

/// A message from the worker to the foreground.
#[derive(Debug, Clone, PartialEq)]
pub enum LiveDataMessage {
    PairingStarted { pairing_code: String, expires_at: i64 },
    PairingCompleted { api_key: String },
    PairingExpired,
    Connected,
    Disconnected,
    TournamentList(Vec<TournamentInfo>),
    CourtList(Vec<String>),
    MatchDataUpdated(TennisLiveData),
    CourtNoActiveMatch,
    Error(String),
}

/// Ghost model of [`LiveDataMessage`].
#[verifier::ext_equal]
pub enum MessageModel {
    PairingStarted { pairing_code: Seq<char>, expires_at: i64 },
    PairingCompleted { api_key: Seq<char> },
    PairingExpired,
    Connected,
    Disconnected,
    TournamentList(Seq<TournamentModel>),
    CourtList(Seq<Seq<char>>),
    MatchDataUpdated(SnapshotModel),
    CourtNoActiveMatch,
    Error(Seq<char>),
}

impl View for LiveDataMessage {
    type V = MessageModel;

    open spec fn view(&self) -> MessageModel {
        match self {
            LiveDataMessage::PairingStarted { pairing_code, expires_at } => {
                MessageModel::PairingStarted {
                    pairing_code: pairing_code@,
                    expires_at: *expires_at,
                }
            },
            LiveDataMessage::PairingCompleted { api_key } => MessageModel::PairingCompleted {
                api_key: api_key@,
            },
            LiveDataMessage::PairingExpired => MessageModel::PairingExpired,
            LiveDataMessage::Connected => MessageModel::Connected,
            LiveDataMessage::Disconnected => MessageModel::Disconnected,
            LiveDataMessage::TournamentList(ts) => MessageModel::TournamentList(
                ts@.map_values(|t: TournamentInfo| t@),
            ),
            LiveDataMessage::CourtList(cs) => MessageModel::CourtList(
                cs@.map_values(|c: String| c@),
            ),
            LiveDataMessage::MatchDataUpdated(d) => MessageModel::MatchDataUpdated(d@),
            LiveDataMessage::CourtNoActiveMatch => MessageModel::CourtNoActiveMatch,
            LiveDataMessage::Error(e) => MessageModel::Error(e@),
        }
    }
}

/// The foreground-observable connection state machine.
#[derive(Debug, Clone, Copy, PartialEq, Eq, Structural)]
pub enum ConnectionStep {
    Disconnected,
    Pairing,
    Connecting,
    SelectTournament,
    SelectCourt,
    Live,
}

/// A well-formed "start pairing" response, as extracted from the wire.
#[derive(Debug, Clone, PartialEq, Eq)]
pub struct PairingStart {
    pub pairing_id: String,
    pub pairing_code: String,
    pub pairing_secret: String,
    /// Epoch milliseconds at which the pairing code expires.
    pub expires_at: i64,
    /// The server-reported poll interval, clamped below at zero.
    pub poll_interval_ms: u64,
}

/// Ghost model of [`PairingStart`].
#[verifier::ext_equal]
pub struct PairingStartModel {
    pub pairing_id: Seq<char>,
    pub pairing_code: Seq<char>,
    pub pairing_secret: Seq<char>,
    pub expires_at: i64,
    pub poll_interval_ms: u64,
}

impl View for PairingStart {
    type V = PairingStartModel;

    open spec fn view(&self) -> PairingStartModel {
        PairingStartModel {
            pairing_id: self.pairing_id@,
            pairing_code: self.pairing_code@,
            pairing_secret: self.pairing_secret@,
            expires_at: self.expires_at,
            poll_interval_ms: self.poll_interval_ms,
        }
    }
}

/// The interpreted `status` of a pairing-poll response.
#[derive(Debug, Clone, PartialEq, Eq)]
pub enum PairingPollStatus {
    Pending,
    Paired(String),
    Claimed,
    Expired,
    Invalid,
    Unknown,
}

/// Ghost model of [`PairingPollStatus`].
pub enum PollModel {
    Pending,
    Paired(Seq<char>),
    Claimed,
    Expired,
    Invalid,
    Unknown,
}

impl View for PairingPollStatus {
    type V = PollModel;

    open spec fn view(&self) -> PollModel {
        match self {
            PairingPollStatus::Pending => PollModel::Pending,
            PairingPollStatus::Paired(k) => PollModel::Paired(k@),
            PairingPollStatus::Claimed => PollModel::Claimed,
            PairingPollStatus::Expired => PollModel::Expired,
            PairingPollStatus::Invalid => PollModel::Invalid,
            PairingPollStatus::Unknown => PollModel::Unknown,
        }
    }
}

/// The three-way outcome of one remote call: a decoded value, a
/// backend-reported error (plain message or structured), or a transport
/// failure with its description.
#[derive(Debug)]
pub enum CallOutcome {
    Value(WireValue),
    ErrorMessage(String),
    ConvexError(String),
    Transport(String),
}

/// Ghost model of [`CallOutcome`]. The wire value is carried as it is;
/// the contracts inspect it through the wire accessors.
pub enum OutcomeModel {
    Value(WireValue),
    ErrorMessage(Seq<char>),
    ConvexError(Seq<char>),
    Transport(Seq<char>),
}

impl View for CallOutcome {
    type V = OutcomeModel;

    open spec fn view(&self) -> OutcomeModel {
        match self {
            CallOutcome::Value(v) => OutcomeModel::Value(*v),
            CallOutcome::ErrorMessage(e) => OutcomeModel::ErrorMessage(e@),
            CallOutcome::ConvexError(e) => OutcomeModel::ConvexError(e@),
            CallOutcome::Transport(e) => OutcomeModel::Transport(e@),
        }
    }
}

} // verus!
