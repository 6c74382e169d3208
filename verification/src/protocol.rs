//! The worker's protocol decisions: what each remote-call outcome means,
//! which message it produces, how the worker's own state changes, and
//! how the two cancellable sub-tasks (pairing poll, subscription) are
//! superseded so that a stale sub-task can deliver nothing.
//!
//! Every remote call's result is a three-way outcome — success value,
//! backend-reported error, or transport error — and each maps to exactly
//! one message, never silently swallowed and never more than one message
//! per call outcome.

use vstd::prelude::*;
use vstd::string::StringExecFns;

use crate::domain::{
    CallOutcome, LiveDataMessage, MessageModel, OutcomeModel, PairingStart, PairingStartModel,
    PollModel,
};
use crate::parse::{
    parse_match_data, parse_pairing_poll, parse_pairing_start, parse_tournament_list,
    is_waiting_for_court_match, spec_court_set, spec_is_waiting, spec_parse_match_data,
    spec_parse_pairing_poll, spec_parse_pairing_start, spec_parse_tournament_list,
    parse_court_list,
};
use crate::text::has_label;
use crate::wire::{error_text, get_error_string, WireValue};

verus! {

// ---------------------------------------------------------------------
// Worker state and sub-task supersession
// ---------------------------------------------------------------------

/// The floor applied to the server-reported pairing poll interval, in
/// milliseconds, guarding against an unreasonably tight polling cadence.
pub const MIN_POLL_INTERVAL_MS: u64 = 500;

/// The poll cadence the pairing poll loop sleeps for: the
/// server-reported interval, but never below the floor.
pub open spec fn sleep_interval(reported_ms: u64) -> u64 {
    if reported_ms >= MIN_POLL_INTERVAL_MS {
        reported_ms
    } else {
        MIN_POLL_INTERVAL_MS
    }
}

/// The poll cadence actually used by the pairing poll loop:
/// the server-reported interval, but never below the floor.
pub fn effective_poll_interval(reported_ms: u64) -> (r: u64)
    ensures
        r == sleep_interval(reported_ms),
        r >= MIN_POLL_INTERVAL_MS,
        r >= reported_ms,
        r == reported_ms || r == MIN_POLL_INTERVAL_MS,
{
    if reported_ms >= MIN_POLL_INTERVAL_MS {
        reported_ms
    } else {
        MIN_POLL_INTERVAL_MS
    }
}


/// The state the worker's command loop owns: whether a connection is
/// established, the stored credentials and selection, and one
/// generation-counted slot per cancellable sub-task. A sub-task learns
/// its generation at spawn time and may deliver a message only while its
/// slot is running and its generation is current, so cancelling or
/// replacing a sub-task silences the old one.
pub struct WorkerState {
    pub connected: bool,
    pub api_key: Option<String>,
    pub tournament_id: Option<String>,
    pub pairing_running: bool,
    pub pairing_gen: u64,
    pub sub_running: bool,
    pub sub_gen: u64,
}

/// Ghost model of [`WorkerState`].
#[verifier::ext_equal]
pub struct WorkerModel {
    pub connected: bool,
    pub api_key: Option<Seq<char>>,
    pub tournament_id: Option<Seq<char>>,
    pub pairing_running: bool,
    pub pairing_gen: u64,
    pub sub_running: bool,
    pub sub_gen: u64,
}

impl View for WorkerState {
    type V = WorkerModel;

    open spec fn view(&self) -> WorkerModel {
        WorkerModel {
            connected: self.connected,
            api_key: crate::domain::opt_text(self.api_key),
            tournament_id: crate::domain::opt_text(self.tournament_id),
            pairing_running: self.pairing_running,
            pairing_gen: self.pairing_gen,
            sub_running: self.sub_running,
            sub_gen: self.sub_gen,
        }
    }
}

/// The worker's state before any command: no connection, no
/// credentials, no selection, no sub-task.
pub open spec fn initial_worker() -> WorkerModel {
    WorkerModel {
        connected: false,
        api_key: None,
        tournament_id: None,
        pairing_running: false,
        pairing_gen: 0u64,
        sub_running: false,
        sub_gen: 0u64,
    }
}

/// Cancelling the pairing poll sub-task: its slot stops running.
pub open spec fn spec_cancel_pairing(s: WorkerModel) -> WorkerModel {
    WorkerModel { pairing_running: false, ..s }
}

/// Cancelling the subscription sub-task: its slot stops running.
pub open spec fn spec_cancel_subscription(s: WorkerModel) -> WorkerModel {
    WorkerModel { sub_running: false, ..s }
}

/// Spawning a fresh pairing poll sub-task: the slot runs under the next
/// generation, so any earlier generation is no longer current.
pub open spec fn spec_spawn_pairing(s: WorkerModel) -> WorkerModel {
    WorkerModel { pairing_running: true, pairing_gen: (s.pairing_gen + 1) as u64, ..s }
}

/// Spawning a fresh subscription sub-task: the slot runs under the next
/// generation, so any earlier generation is no longer current.
pub open spec fn spec_spawn_subscription(s: WorkerModel) -> WorkerModel {
    WorkerModel { sub_running: true, sub_gen: (s.sub_gen + 1) as u64, ..s }
}

/// A successful connect: the connection is held and the API key stored.
pub open spec fn spec_connect_established(s: WorkerModel, api_key: Seq<char>) -> WorkerModel {
    WorkerModel { connected: true, api_key: Some(api_key), ..s }
}

/// Selecting a tournament stores its id.
pub open spec fn spec_set_tournament(s: WorkerModel, id: Seq<char>) -> WorkerModel {
    WorkerModel { tournament_id: Some(id), ..s }
}

/// Disconnecting: both sub-tasks are cancelled and the connection,
/// credentials and selection are dropped.
pub open spec fn spec_disconnect(s: WorkerModel) -> WorkerModel {
    WorkerModel {
        connected: false,
        api_key: None,
        tournament_id: None,
        pairing_running: false,
        sub_running: false,
        ..s
    }
}

/// Whether a pairing poll sub-task of generation `g` may deliver a
/// message: only while the slot runs and `g` is the current generation.
pub open spec fn pairing_send_allowed(s: WorkerModel, g: u64) -> bool {
    s.pairing_running && g == s.pairing_gen
}

/// Whether a subscription sub-task of generation `g` may deliver a
/// message.
pub open spec fn sub_send_allowed(s: WorkerModel, g: u64) -> bool {
    s.sub_running && g == s.sub_gen
}

impl WorkerState {
    /// The worker's state before any command.
    pub fn new() -> (r: WorkerState)
        ensures
            r@ == initial_worker(),
    {
        WorkerState {
            connected: false,
            api_key: None,
            tournament_id: None,
            pairing_running: false,
            pairing_gen: 0,
            sub_running: false,
            sub_gen: 0,
        }
    }

    /// Cancels the pairing poll sub-task, if one is running.
    pub fn cancel_pairing_task(&mut self)
        ensures
            final(self)@ == spec_cancel_pairing(old(self)@),
    {
        self.pairing_running = false;
    }

    /// Cancels the subscription sub-task, if one is running.
    pub fn cancel_subscription_task(&mut self)
        ensures
            final(self)@ == spec_cancel_subscription(old(self)@),
    {
        self.sub_running = false;
    }

    /// Marks a fresh pairing poll sub-task as running and returns the
    /// generation it must present when delivering messages.
    pub fn spawn_pairing_task(&mut self) -> (g: u64)
        requires
            old(self).pairing_gen < u64::MAX,
        ensures
            final(self)@ == spec_spawn_pairing(old(self)@),
            g == final(self).pairing_gen,
    {
        self.pairing_running = true;
        self.pairing_gen = self.pairing_gen + 1;
        self.pairing_gen
    }

    /// Marks a fresh subscription sub-task as running and returns the
    /// generation it must present when delivering messages.
    pub fn spawn_subscription_task(&mut self) -> (g: u64)
        requires
            old(self).sub_gen < u64::MAX,
        ensures
            final(self)@ == spec_spawn_subscription(old(self)@),
            g == final(self).sub_gen,
    {
        self.sub_running = true;
        self.sub_gen = self.sub_gen + 1;
        self.sub_gen
    }

    /// Records an established connection and the API key in use.
    pub fn connect_established(&mut self, api_key: String)
        ensures
            final(self)@ == spec_connect_established(old(self)@, api_key@),
    {
        self.connected = true;
        self.api_key = Some(api_key);
    }

    /// Stores the selected tournament id.
    pub fn set_tournament(&mut self, id: String)
        ensures
            final(self)@ == spec_set_tournament(old(self)@, id@),
    {
        self.tournament_id = Some(id);
    }

    /// Whether the "list matches" call can be made: a connection is held
    /// and an API key is stored.
    pub fn ready_for_matches(&self) -> (r: bool)
        ensures
            r == (self@.connected && self@.api_key is Some),
    {
        self.connected && self.api_key.is_some()
    }

    /// Whether the subscribe call can be made: a connection is held and
    /// both an API key and a tournament id are stored.
    pub fn ready_for_subscribe(&self) -> (r: bool)
        ensures
            r == (self@.connected && self@.api_key is Some && self@.tournament_id is Some),
    {
        self.connected && self.api_key.is_some() && self.tournament_id.is_some()
    }

    /// Tears everything down and yields the one message a disconnect
    /// emits.
    pub fn disconnect(&mut self) -> (m: LiveDataMessage)
        ensures
            final(self)@ == spec_disconnect(old(self)@),
            m@ == MessageModel::Disconnected,
    {
        self.sub_running = false;
        self.pairing_running = false;
        self.connected = false;
        self.api_key = None;
        self.tournament_id = None;
        LiveDataMessage::Disconnected
    }

    /// Gate a pairing poll sub-task's delivery by its generation.
    pub fn pairing_send_ok(&self, g: u64) -> (r: bool)
        ensures
            r == pairing_send_allowed(self@, g),
    {
        self.pairing_running && g == self.pairing_gen
    }

    /// Gate a subscription sub-task's delivery by its generation.
    pub fn subscription_send_ok(&self, g: u64) -> (r: bool)
        ensures
            r == sub_send_allowed(self@, g),
    {
        self.sub_running && g == self.sub_gen
    }
}

// ---------------------------------------------------------------------
// Message construction
// ---------------------------------------------------------------------

/// The views of a message vector, element by element.
pub open spec fn message_views(s: Seq<LiveDataMessage>) -> Seq<MessageModel> {
    s.map_values(|m: LiveDataMessage| m@)
}

fn prefixed_error(prefix: &str, detail: &str) -> (r: LiveDataMessage)
    ensures
        r@ == MessageModel::Error(prefix@ + detail@),
{
    let mut m = prefix.to_owned();
    m.append(detail);
    LiveDataMessage::Error(m)
}

/// The message a failed connection attempt produces, for both the
/// pairing-only connection and the main one.
pub fn connect_failed(detail: &str) -> (r: LiveDataMessage)
    ensures
        r@ == MessageModel::Error("Failed to connect: "@ + detail@),
{
    prefixed_error("Failed to connect: ", detail)
}

// ---------------------------------------------------------------------
// Start pairing
// ---------------------------------------------------------------------

/// What a "start pairing" call outcome produces: on a well-formed
/// response, the `PairingStarted` message and the session the poll
/// sub-task is spawned with; on a response with an embedded error
/// string, that error; on any other response, a generic error; on a
/// backend-reported or transport error, that error. Exactly one message
/// in every case, and a session only in the first.
pub open spec fn spec_start_pairing_response(o: OutcomeModel) -> (Seq<MessageModel>, Option<
    PairingStartModel,
>) {
    match o {
        OutcomeModel::Value(v) => match spec_parse_pairing_start(v) {
            Some(p) => (
                seq![
                    MessageModel::PairingStarted {
                        pairing_code: p.pairing_code,
                        expires_at: p.expires_at,
                    },
                ],
                Some(p),
            ),
            None => match error_text(v) {
                Some(e) => (seq![MessageModel::Error(e)], None),
                None => (seq![MessageModel::Error("Unexpected pairing response."@)], None),
            },
        },
        OutcomeModel::ErrorMessage(e) => (seq![MessageModel::Error(e)], None),
        OutcomeModel::ConvexError(e) => (seq![MessageModel::Error(e)], None),
        OutcomeModel::Transport(e) => (
            seq![MessageModel::Error("Failed to start pairing: "@ + e)],
            None,
        ),
    }
}

/// Decides what a "start pairing" call outcome means: the messages to
/// emit (always exactly one) and the pairing session to poll, if any.
pub fn start_pairing_response(outcome: &CallOutcome) -> (r: (
    Vec<LiveDataMessage>,
    Option<PairingStart>,
))
    ensures
        message_views(r.0@) == spec_start_pairing_response(outcome@).0,
        match r.1 {
            Some(p) => spec_start_pairing_response(outcome@).1 == Some(p@),
            None => spec_start_pairing_response(outcome@).1 is None,
        },
{
    let mut messages: Vec<LiveDataMessage> = Vec::new();
    let session: Option<PairingStart>;
    match outcome {
        CallOutcome::Value(v) => {
            match parse_pairing_start(v) {
                Some(p) => {
                    messages.push(
                        LiveDataMessage::PairingStarted {
                            pairing_code: p.pairing_code.clone(),
                            expires_at: p.expires_at,
                        },
                    );
                    session = Some(p);
                },
                None => {
                    session = None;
                    match get_error_string(v) {
                        Some(e) => messages.push(LiveDataMessage::Error(e)),
                        None => messages.push(
                            LiveDataMessage::Error("Unexpected pairing response.".to_owned()),
                        ),
                    }
                },
            }
        },
        CallOutcome::ErrorMessage(e) => {
            session = None;
            messages.push(LiveDataMessage::Error(e.clone()));
        },
        CallOutcome::ConvexError(e) => {
            session = None;
            messages.push(LiveDataMessage::Error(e.clone()));
        },
        CallOutcome::Transport(e) => {
            session = None;
            messages.push(prefixed_error("Failed to start pairing: ", e.as_str()));
        },
    }
    proof {
        assert(message_views(messages@) =~= spec_start_pairing_response(outcome@).0);
    }
    (messages, session)
}

// ---------------------------------------------------------------------
// Pairing poll
// ---------------------------------------------------------------------

/// What one pairing poll outcome produces: the message to emit, if any,
/// and whether the poll loop stops. `pending` continues silently; every
/// other reading emits exactly one message and stops.
pub open spec fn spec_pairing_poll_response(o: OutcomeModel) -> (Option<MessageModel>, bool) {
    match o {
        OutcomeModel::Value(v) => match spec_parse_pairing_poll(v) {
            PollModel::Pending => (None, false),
            PollModel::Paired(k) => (Some(MessageModel::PairingCompleted { api_key: k }), true),
            PollModel::Expired => (Some(MessageModel::PairingExpired), true),
            PollModel::Claimed => (
                Some(MessageModel::Error("Pairing was already claimed."@)),
                true,
            ),
            PollModel::Invalid => (Some(MessageModel::Error("Invalid pairing session."@)), true),
            PollModel::Unknown => (
                Some(MessageModel::Error("Unexpected pairing response."@)),
                true,
            ),
        },
        OutcomeModel::ErrorMessage(e) => (Some(MessageModel::Error(e)), true),
        OutcomeModel::ConvexError(e) => (Some(MessageModel::Error(e)), true),
        OutcomeModel::Transport(e) => (
            Some(MessageModel::Error("Pairing poll failed: "@ + e)),
            true,
        ),
    }
}

/// Decides what one pairing poll outcome means: the message to emit, if
/// any, and whether the poll loop stops.
pub fn pairing_poll_response(outcome: &CallOutcome) -> (r: (Option<LiveDataMessage>, bool))
    ensures
        match r.0 {
            Some(m) => spec_pairing_poll_response(outcome@).0 == Some(m@),
            None => spec_pairing_poll_response(outcome@).0 is None,
        },
        r.1 == spec_pairing_poll_response(outcome@).1,
{
    match outcome {
        CallOutcome::Value(v) => match parse_pairing_poll(v) {
            crate::domain::PairingPollStatus::Pending => (None, false),
            crate::domain::PairingPollStatus::Paired(api_key) => (
                Some(LiveDataMessage::PairingCompleted { api_key }),
                true,
            ),
            crate::domain::PairingPollStatus::Expired => (
                Some(LiveDataMessage::PairingExpired),
                true,
            ),
            crate::domain::PairingPollStatus::Claimed => (
                Some(LiveDataMessage::Error("Pairing was already claimed.".to_owned())),
                true,
            ),
            crate::domain::PairingPollStatus::Invalid => (
                Some(LiveDataMessage::Error("Invalid pairing session.".to_owned())),
                true,
            ),
            crate::domain::PairingPollStatus::Unknown => (
                Some(LiveDataMessage::Error("Unexpected pairing response.".to_owned())),
                true,
            ),
        },
        CallOutcome::ErrorMessage(e) => (Some(LiveDataMessage::Error(e.clone())), true),
        CallOutcome::ConvexError(e) => (Some(LiveDataMessage::Error(e.clone())), true),
        CallOutcome::Transport(e) => (
            Some(prefixed_error("Pairing poll failed: ", e.as_str())),
            true,
        ),
    }
}

// ---------------------------------------------------------------------
// Tournament and court list calls
// ---------------------------------------------------------------------

/// What a "list tournaments" call outcome produces: the tournament
/// list on success (unless the response embeds an error string), else
/// exactly one error message.
pub open spec fn spec_tournaments_response(o: OutcomeModel) -> MessageModel {
    match o {
        OutcomeModel::Value(v) => match error_text(v) {
            Some(e) => MessageModel::Error(e),
            None => MessageModel::TournamentList(spec_parse_tournament_list(v)),
        },
        OutcomeModel::ErrorMessage(e) => MessageModel::Error(e),
        OutcomeModel::ConvexError(e) => MessageModel::Error(e),
        OutcomeModel::Transport(e) => MessageModel::Error("Connection error: "@ + e),
    }
}

/// Decides what a "list tournaments" call outcome means: exactly one
/// message.
pub fn tournaments_response(outcome: &CallOutcome) -> (r: LiveDataMessage)
    ensures
        r@ == spec_tournaments_response(outcome@),
{
    match outcome {
        CallOutcome::Value(v) => match get_error_string(v) {
            Some(e) => LiveDataMessage::Error(e),
            None => LiveDataMessage::TournamentList(parse_tournament_list(v)),
        },
        CallOutcome::ErrorMessage(e) => LiveDataMessage::Error(e.clone()),
        CallOutcome::ConvexError(e) => LiveDataMessage::Error(e.clone()),
        CallOutcome::Transport(e) => prefixed_error("Connection error: ", e.as_str()),
    }
}

/// Decides what a "list matches" call outcome means: on success without
/// an embedded error string, the deduplicated court list (order
/// unspecified, no label twice, exactly the non-blank labels of the
/// response); otherwise exactly one error message.
pub fn courts_response(outcome: &CallOutcome) -> (r: LiveDataMessage)
    ensures
        match outcome@ {
            OutcomeModel::Value(v) => match error_text(v) {
                Some(e) => r@ == MessageModel::Error(e),
                None => match r {
                    LiveDataMessage::CourtList(labels) => {
                        &&& (forall|i: int, j: int|
                            0 <= i < j < labels@.len() ==> labels@[i]@ != labels@[j]@)
                        &&& (forall|s: Seq<char>|
                            #[trigger] has_label(labels@, s) <==> spec_court_set(v).contains(s))
                    },
                    _ => false,
                },
            },
            OutcomeModel::ErrorMessage(e) => r@ == MessageModel::Error(e),
            OutcomeModel::ConvexError(e) => r@ == MessageModel::Error(e),
            OutcomeModel::Transport(e) => r@ == MessageModel::Error("Fetch error: "@ + e),
        },
{
    match outcome {
        CallOutcome::Value(v) => match get_error_string(v) {
            Some(e) => LiveDataMessage::Error(e),
            None => LiveDataMessage::CourtList(parse_court_list(v)),
        },
        CallOutcome::ErrorMessage(e) => LiveDataMessage::Error(e.clone()),
        CallOutcome::ConvexError(e) => LiveDataMessage::Error(e.clone()),
        CallOutcome::Transport(e) => prefixed_error("Fetch error: ", e.as_str()),
    }
}

/// The message a failed subscribe call produces.
pub fn subscribe_failed(detail: &str) -> (r: LiveDataMessage)
    ensures
        r@ == MessageModel::Error("Subscribe error: "@ + detail@),
{
    prefixed_error("Subscribe error: ", detail)
}

// ---------------------------------------------------------------------
// Subscription stream
// ---------------------------------------------------------------------

/// What one pushed update produces: a decoded snapshot emits
/// `MatchDataUpdated`; the explicit `{match: null}` sentinel emits
/// `CourtNoActiveMatch`; a payload with an embedded error string emits
/// that error; any other payload is dropped silently — none of these
/// stops the stream. A backend-reported error emits it and stops; a
/// transport failure stops the stream with no message of its own (the
/// stream's end is announced separately).
pub open spec fn spec_subscription_item(o: OutcomeModel) -> (Option<MessageModel>, bool) {
    match o {
        OutcomeModel::Value(v) => match spec_parse_match_data(v) {
            Some(snapshot) => (Some(MessageModel::MatchDataUpdated(snapshot)), false),
            None => if spec_is_waiting(v) {
                (Some(MessageModel::CourtNoActiveMatch), false)
            } else {
                match error_text(v) {
                    Some(e) => (Some(MessageModel::Error(e)), false),
                    None => (None, false),
                }
            },
        },
        OutcomeModel::ErrorMessage(e) => (Some(MessageModel::Error(e)), true),
        OutcomeModel::ConvexError(e) => (Some(MessageModel::Error(e)), true),
        OutcomeModel::Transport(_) => (None, true),
    }
}

/// Decides what one pushed update means: the message to emit, if any,
/// and whether the stream stops.
pub fn subscription_item(outcome: &CallOutcome) -> (r: (Option<LiveDataMessage>, bool))
    ensures
        match r.0 {
            Some(m) => spec_subscription_item(outcome@).0 == Some(m@),
            None => spec_subscription_item(outcome@).0 is None,
        },
        r.1 == spec_subscription_item(outcome@).1,
{
    match outcome {
        CallOutcome::Value(v) => {
            if let Some(data) = parse_match_data(v) {
                (Some(LiveDataMessage::MatchDataUpdated(data)), false)
            } else if is_waiting_for_court_match(v) {
                (Some(LiveDataMessage::CourtNoActiveMatch), false)
            } else {
                match get_error_string(v) {
                    Some(e) => (Some(LiveDataMessage::Error(e)), false),
                    None => (None, false),
                }
            }
        },
        CallOutcome::ErrorMessage(e) => (Some(LiveDataMessage::Error(e.clone())), true),
        CallOutcome::ConvexError(e) => (Some(LiveDataMessage::Error(e.clone())), true),
        CallOutcome::Transport(_) => (None, true),
    }
}

/// The one message the stream's termination produces, whatever ended it.
pub fn subscription_closed() -> (r: LiveDataMessage)
    ensures
        r@ == MessageModel::Disconnected,
{
    LiveDataMessage::Disconnected
}

// ---------------------------------------------------------------------
// Laws
// ---------------------------------------------------------------------

/// For every well-formed "start pairing" response, the poll cadence the
/// session uses is the greater of the reported interval and the
/// 500-millisecond floor.
pub proof fn lemma_poll_interval_is_clamped_maximum(o: OutcomeModel, p: PairingStartModel)
    requires
        spec_start_pairing_response(o).1 == Some(p),
    ensures
        sleep_interval(p.poll_interval_ms) >= MIN_POLL_INTERVAL_MS,
        sleep_interval(p.poll_interval_ms) >= p.poll_interval_ms,
        sleep_interval(p.poll_interval_ms) == p.poll_interval_ms
            || sleep_interval(p.poll_interval_ms) == MIN_POLL_INTERVAL_MS,
{
}

/// For every pairing-poll response whose status is `paired` with an API
/// key present, the poll decision is exactly one `PairingCompleted`
/// carrying that key, and the loop stops, so no further poll occurs.
pub proof fn lemma_paired_response_completes_once(v: WireValue, api_key: Seq<char>)
    requires
        spec_parse_pairing_poll(v) == PollModel::Paired(api_key),
    ensures
        spec_pairing_poll_response(OutcomeModel::Value(v)) == (
            Some(MessageModel::PairingCompleted { api_key }),
            true,
        ),
{
}

/// Replacing the subscription sub-task silences the prior one: no
/// generation issued up to now — in particular the running task's own —
/// passes the delivery gate once the new task is spawned.
pub proof fn lemma_new_subscription_supersedes_prior(s: WorkerModel, g: u64)
    requires
        g <= s.sub_gen,
        s.sub_gen < u64::MAX,
    ensures
        !sub_send_allowed(spec_spawn_subscription(s), g),
{
}

/// Disconnecting silences both sub-tasks: no generation whatever passes
/// either delivery gate afterwards, so neither a `PairingCompleted` nor
/// a `PairingExpired` (nor any stale subscription message) can follow
/// the disconnect's own `Disconnected`.
pub proof fn lemma_disconnect_silences_subtasks(s: WorkerModel, g: u64)
    ensures
        !pairing_send_allowed(spec_disconnect(s), g),
        !sub_send_allowed(spec_disconnect(s), g),
{
}

/// A pushed update whose `match` field is explicitly null is read as
/// exactly one `CourtNoActiveMatch`, never as a snapshot, and does not
/// stop the stream.
pub proof fn lemma_null_match_reads_as_no_active_match(v: WireValue)
    requires
        v matches WireValue::Object(root) && crate::wire::lookup_field(root@, "match"@) == Some(
            WireValue::Null,
        ),
    ensures
        spec_subscription_item(OutcomeModel::Value(v)) == (
            Some(MessageModel::CourtNoActiveMatch),
            false,
        ),
{
}

} // verus!
