//! The foreground's mirror of the engine: the connection-step state
//! machine it drives from drained messages, the lists and snapshot it
//! keeps for rendering, and the display viewport state it republishes
//! each tick.

use vstd::prelude::*;

use crate::domain::{
    ConnectionStep, LiveDataMessage, MessageModel, SnapshotModel, TennisLiveData, TournamentInfo,
    TournamentModel,
};
use crate::text::{parse_i32_or_zero, spec_parse_i32_or_zero};

verus! {

/// The connection step after a drained message. The step follows the
/// data, not the acknowledgements: `TournamentList` enters the
/// tournament choice, `CourtList` the court choice, and the first
/// `MatchDataUpdated` or `CourtNoActiveMatch` enters the live view;
/// `Connected` itself changes nothing (the tournament list follows at
/// once). A finished, expired or torn-down session falls back to
/// `Disconnected`, and an error leaves the last good step in place.
pub open spec fn spec_next_step(step: ConnectionStep, m: MessageModel) -> ConnectionStep {
    match m {
        MessageModel::PairingStarted { .. } => ConnectionStep::Pairing,
        MessageModel::PairingCompleted { .. } => ConnectionStep::Disconnected,
        MessageModel::PairingExpired => ConnectionStep::Disconnected,
        MessageModel::Connected => step,
        MessageModel::Disconnected => ConnectionStep::Disconnected,
        MessageModel::TournamentList(_) => ConnectionStep::SelectTournament,
        MessageModel::CourtList(_) => ConnectionStep::SelectCourt,
        MessageModel::MatchDataUpdated(_) => ConnectionStep::Live,
        MessageModel::CourtNoActiveMatch => ConnectionStep::Live,
        MessageModel::Error(_) => step,
    }
}

/// Advances the foreground's connection step by one drained message.
pub fn next_connection_step(step: ConnectionStep, msg: &LiveDataMessage) -> (r: ConnectionStep)
    ensures
        r == spec_next_step(step, msg@),
{
    match msg {
        LiveDataMessage::PairingStarted { .. } => ConnectionStep::Pairing,
        LiveDataMessage::PairingCompleted { .. } => ConnectionStep::Disconnected,
        LiveDataMessage::PairingExpired => ConnectionStep::Disconnected,
        LiveDataMessage::Connected => step,
        LiveDataMessage::Disconnected => ConnectionStep::Disconnected,
        LiveDataMessage::TournamentList(_) => ConnectionStep::SelectTournament,
        LiveDataMessage::CourtList(_) => ConnectionStep::SelectCourt,
        LiveDataMessage::MatchDataUpdated(_) => ConnectionStep::Live,
        LiveDataMessage::CourtNoActiveMatch => ConnectionStep::Live,
        LiveDataMessage::Error(_) => step,
    }
}

/// What the display viewport renders: the latest snapshot and the
/// window settings, republished from the foreground each tick.
#[derive(Debug, Clone, PartialEq)]
pub struct DisplayState {
    pub live_data: Option<TennisLiveData>,
    pub should_close: bool,
    pub fullscreen: bool,
    pub offset_x: i32,
    pub offset_y: i32,
}

/// Ghost model of [`DisplayState`].
#[verifier::ext_equal]
pub struct DisplayModel {
    pub live_data: Option<SnapshotModel>,
    pub should_close: bool,
    pub fullscreen: bool,
    pub offset_x: i32,
    pub offset_y: i32,
}

/// The model of an optional snapshot.
pub open spec fn opt_snapshot(o: Option<TennisLiveData>) -> Option<SnapshotModel> {
    match o {
        Some(d) => Some(d@),
        None => None,
    }
}

impl View for DisplayState {
    type V = DisplayModel;

    open spec fn view(&self) -> DisplayModel {
        DisplayModel {
            live_data: opt_snapshot(self.live_data),
            should_close: self.should_close,
            fullscreen: self.fullscreen,
            offset_x: self.offset_x,
            offset_y: self.offset_y,
        }
    }
}

/// The foreground application state the engine feeds: the connection
/// mirror, the lists offered for selection, the latest snapshot, the
/// display settings as the user typed them, and the viewport state
/// derived from all of it.
#[derive(Debug)]
pub struct ScoreForgeApp {
    pub connection_step: ConnectionStep,
    pub tournament_list: Vec<TournamentInfo>,
    pub court_list: Vec<String>,
    pub live_match_data: Option<TennisLiveData>,
    pub display_active: bool,
    pub display_fullscreen: bool,
    pub display_offset_x: String,
    pub display_offset_y: String,
    pub display: DisplayState,
}

/// Ghost model of [`ScoreForgeApp`].
#[verifier::ext_equal]
pub struct AppModel {
    pub connection_step: ConnectionStep,
    pub tournament_list: Seq<TournamentModel>,
    pub court_list: Seq<Seq<char>>,
    pub live_match_data: Option<SnapshotModel>,
    pub display_active: bool,
    pub display_fullscreen: bool,
    pub display_offset_x: Seq<char>,
    pub display_offset_y: Seq<char>,
    pub display: DisplayModel,
}

impl View for ScoreForgeApp {
    type V = AppModel;

    open spec fn view(&self) -> AppModel {
        AppModel {
            connection_step: self.connection_step,
            tournament_list: self.tournament_list@.map_values(|t: TournamentInfo| t@),
            court_list: self.court_list@.map_values(|c: String| c@),
            live_match_data: opt_snapshot(self.live_match_data),
            display_active: self.display_active,
            display_fullscreen: self.display_fullscreen,
            display_offset_x: self.display_offset_x@,
            display_offset_y: self.display_offset_y@,
            display: self.display@,
        }
    }
}

/// The application state after one drained message: the connection step
/// advances, and the message's payload — a tournament list, a court
/// list, or a snapshot — replaces the stored one. Everything else,
/// including the display state until the next tick, stays as it was.
pub open spec fn spec_apply_message(a: AppModel, m: MessageModel) -> AppModel {
    let stepped = AppModel { connection_step: spec_next_step(a.connection_step, m), ..a };
    match m {
        MessageModel::TournamentList(ts) => AppModel { tournament_list: ts, ..stepped },
        MessageModel::CourtList(cs) => AppModel { court_list: cs, ..stepped },
        MessageModel::MatchDataUpdated(d) => AppModel { live_match_data: Some(d), ..stepped },
        _ => stepped,
    }
}

/// The display state the foreground republishes when the viewport is
/// active: the latest snapshot, the fullscreen flag, and the offsets as
/// the offset text fields parse (0 for malformed text).
pub open spec fn spec_synced_display(a: AppModel) -> DisplayModel {
    DisplayModel {
        live_data: a.live_match_data,
        should_close: false,
        fullscreen: a.display_fullscreen,
        offset_x: spec_parse_i32_or_zero(a.display_offset_x),
        offset_y: spec_parse_i32_or_zero(a.display_offset_y),
    }
}

impl ScoreForgeApp {
    /// A fresh application state: disconnected, nothing selected,
    /// nothing live, display inactive with default settings.
    pub fn new() -> (r: ScoreForgeApp)
        ensures
            r@.connection_step == ConnectionStep::Disconnected,
            r@.tournament_list.len() == 0,
            r@.court_list.len() == 0,
            r@.live_match_data is None,
            !r@.display_active,
            !r@.display_fullscreen,
            r@.display_offset_x.len() == 0,
            r@.display_offset_y.len() == 0,
            r@.display.live_data is None,
            !r@.display.should_close,
            !r@.display.fullscreen,
            r@.display.offset_x == 0,
            r@.display.offset_y == 0,
    {
        ScoreForgeApp {
            connection_step: ConnectionStep::Disconnected,
            tournament_list: Vec::new(),
            court_list: Vec::new(),
            live_match_data: None,
            display_active: false,
            display_fullscreen: false,
            display_offset_x: String::new(),
            display_offset_y: String::new(),
            display: DisplayState {
                live_data: None,
                should_close: false,
                fullscreen: false,
                offset_x: 0,
                offset_y: 0,
            },
        }
    }

    /// Folds one drained message into the mirror: advances the
    /// connection step and stores the payload it carries.
    pub fn process_message(&mut self, msg: LiveDataMessage)
        ensures
            final(self)@ == spec_apply_message(old(self)@, msg@),
    {
        self.connection_step = next_connection_step(self.connection_step, &msg);
        match msg {
            LiveDataMessage::TournamentList(ts) => {
                self.tournament_list = ts;
            },
            LiveDataMessage::CourtList(cs) => {
                self.court_list = cs;
            },
            LiveDataMessage::MatchDataUpdated(d) => {
                self.live_match_data = Some(d);
            },
            _ => {},
        }
        proof {
            assert(self@ =~= spec_apply_message(old(self)@, msg@));
        }
    }

    /// Republishes the viewport state from the current foreground state;
    /// a tick with the display inactive changes nothing.
    pub fn sync_display_state(&mut self)
        ensures
            old(self)@.display_active ==> final(self)@ == (AppModel {
                display: spec_synced_display(old(self)@),
                ..old(self)@
            }),
            !old(self)@.display_active ==> final(self)@ == old(self)@,
    {
        if self.display_active {
            self.display.live_data = match &self.live_match_data {
                Some(d) => Some(d.duplicate()),
                None => None,
            };
            self.display.should_close = false;
            self.display.fullscreen = self.display_fullscreen;
            self.display.offset_x = parse_i32_or_zero(self.display_offset_x.as_str());
            self.display.offset_y = parse_i32_or_zero(self.display_offset_y.as_str());
            proof {
                assert(self@ =~= AppModel {
                    display: spec_synced_display(old(self)@),
                    ..old(self)@
                });
            }
        } else {
            proof {
                assert(self@ =~= old(self)@);
            }
        }
    }
}

} // verus!
