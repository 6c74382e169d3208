//! Payload parsers: total, defensive functions from wire values into
//! the domain types. Any absent or mistyped field yields the documented
//! default rather than a failure; only a genuinely unrecognizable
//! top-level shape yields "no value".

use vstd::prelude::*;

use crate::domain::{
    PairingPollStatus, PairingStart, PairingStartModel, PollModel, SetScore, SnapshotModel,
    TennisLiveData, TournamentInfo, TournamentModel,
};
use crate::text::{contains_string, has_label, lemma_has_label_push, str_eq, str_is_blank};
use crate::wire::{
    field_arr, field_i64, field_obj, field_str, get_array, get_field, get_i64, get_obj, get_str,
    lookup_field, u32_of, value_to_u32, wrap_u64, wrap_to_u64, WireValue,
};

verus! {

// ---------------------------------------------------------------------
// Pairing responses
// ---------------------------------------------------------------------

/// The well-formed reading of a "start pairing" response: an object
/// carrying string `pairingId`, `pairingCode` and `pairingSecret`,
/// a numeric `expiresAt`, and a numeric `pollIntervalMs` (clamped below
/// at zero); anything else is malformed.
pub open spec fn spec_parse_pairing_start(v: WireValue) -> Option<PairingStartModel> {
    match v {
        WireValue::Object(obj) => {
            match field_str(obj@, "pairingId"@) {
                Some(id) => match field_str(obj@, "pairingCode"@) {
                    Some(code) => match field_str(obj@, "pairingSecret"@) {
                        Some(secret) => match field_i64(obj@, "expiresAt"@) {
                            Some(expires) => match field_i64(obj@, "pollIntervalMs"@) {
                                Some(interval) => Some(
                                    PairingStartModel {
                                        pairing_id: id,
                                        pairing_code: code,
                                        pairing_secret: secret,
                                        expires_at: expires,
                                        poll_interval_ms: if interval >= 0 {
                                            interval as u64
                                        } else {
                                            0u64
                                        },
                                    },
                                ),
                                None => None,
                            },
                            None => None,
                        },
                        None => None,
                    },
                    None => None,
                },
                None => None,
            }
        },
        _ => None,
    }
}

/// Extracts the pairing session from a "start pairing" response, if it
/// is well formed.
pub fn parse_pairing_start(val: &WireValue) -> (r: Option<PairingStart>)
    ensures
        match r {
            Some(p) => spec_parse_pairing_start(*val) == Some(p@),
            None => spec_parse_pairing_start(*val) is None,
        },
{
    let obj = match val {
        WireValue::Object(obj) => obj,
        _ => { return None; },
    };
    let pairing_id = match get_str(obj, "pairingId") {
        Some(s) => s,
        None => { return None; },
    };
    let pairing_code = match get_str(obj, "pairingCode") {
        Some(s) => s,
        None => { return None; },
    };
    let pairing_secret = match get_str(obj, "pairingSecret") {
        Some(s) => s,
        None => { return None; },
    };
    let expires_at = match get_i64(obj, "expiresAt") {
        Some(n) => n,
        None => { return None; },
    };
    let interval = match get_i64(obj, "pollIntervalMs") {
        Some(n) => n,
        None => { return None; },
    };
    let poll_interval_ms: u64 = if interval >= 0 {
        interval as u64
    } else {
        0
    };
    Some(PairingStart { pairing_id, pairing_code, pairing_secret, expires_at, poll_interval_ms })
}

/// The reading of a pairing-poll response by its `status` field:
/// `"pending"` continues the loop, `"paired"` succeeds when `apiKey` is
/// present, and `"claimed"` / `"expired"` / `"invalid"` are terminal;
/// any other or missing status, or a malformed response, is unknown.
pub open spec fn spec_parse_pairing_poll(v: WireValue) -> PollModel {
    match v {
        WireValue::Object(obj) => {
            match field_str(obj@, "status"@) {
                Some(status) => {
                    if status == "pending"@ {
                        PollModel::Pending
                    } else if status == "paired"@ {
                        match field_str(obj@, "apiKey"@) {
                            Some(key) => PollModel::Paired(key),
                            None => PollModel::Unknown,
                        }
                    } else if status == "claimed"@ {
                        PollModel::Claimed
                    } else if status == "expired"@ {
                        PollModel::Expired
                    } else if status == "invalid"@ {
                        PollModel::Invalid
                    } else {
                        PollModel::Unknown
                    }
                },
                None => PollModel::Unknown,
            }
        },
        _ => PollModel::Unknown,
    }
}

/// Interprets a pairing-poll response.
pub fn parse_pairing_poll(val: &WireValue) -> (r: PairingPollStatus)
    ensures
        r@ == spec_parse_pairing_poll(*val),
{
    let obj = match val {
        WireValue::Object(obj) => obj,
        _ => { return PairingPollStatus::Unknown; },
    };
    let status = match get_str(obj, "status") {
        Some(s) => s,
        None => { return PairingPollStatus::Unknown; },
    };
    if str_eq(status.as_str(), "pending") {
        PairingPollStatus::Pending
    } else if str_eq(status.as_str(), "paired") {
        match get_str(obj, "apiKey") {
            Some(key) => PairingPollStatus::Paired(key),
            None => PairingPollStatus::Unknown,
        }
    } else if str_eq(status.as_str(), "claimed") {
        PairingPollStatus::Claimed
    } else if str_eq(status.as_str(), "expired") {
        PairingPollStatus::Expired
    } else if str_eq(status.as_str(), "invalid") {
        PairingPollStatus::Invalid
    } else {
        PairingPollStatus::Unknown
    }
}

// ---------------------------------------------------------------------
// Numeric pairs and set scores
// ---------------------------------------------------------------------

/// The element at `i` of an array read as a `u32`, or 0 when it is out
/// of range or not numeric.
pub open spec fn pair_elem_or_zero(a: Seq<WireValue>, i: int) -> u32 {
    if 0 <= i < a.len() {
        match u32_of(a[i]) {
            Some(n) => n,
            None => 0u32,
        }
    } else {
        0u32
    }
}

/// The `[p1, p2]` pair under `key`, each side defaulting to 0.
pub open spec fn spec_u32_pair(fields: Seq<(String, WireValue)>, key: Seq<char>) -> (u32, u32) {
    match field_arr(fields, key) {
        Some(a) => (pair_elem_or_zero(a, 0), pair_elem_or_zero(a, 1)),
        None => (0u32, 0u32),
    }
}

fn elem_to_u32(a: &Vec<WireValue>, i: usize) -> (r: u32)
    ensures
        r == pair_elem_or_zero(a@, i as int),
{
    if i < a.len() {
        match value_to_u32(&a[i]) {
            Some(n) => n,
            None => 0,
        }
    } else {
        0
    }
}

/// Reads the `[p1, p2]` pair of counters under `key`, each side
/// defaulting to 0 when absent or not numeric.
pub fn parse_u32_pair(obj: &Vec<(String, WireValue)>, key: &str) -> (r: [u32; 2])
    ensures
        (r@[0], r@[1]) == spec_u32_pair(obj@, key@),
        r@.len() == 2,
{
    let (p1, p2): (u32, u32) = match get_array(obj, key) {
        Some(arr) => (elem_to_u32(arr, 0), elem_to_u32(arr, 1)),
        None => (0, 0),
    };
    let r = [p1, p2];
    proof {
        vstd::array::lemma_array_index(r, 0);
        vstd::array::lemma_array_index(r, 1);
    }
    r
}

/// A `[p1Games, p2Games]` pair read from an array value: present only
/// when both entries exist and are numeric.
pub open spec fn pair_of_seq(a: Seq<WireValue>) -> Option<SetScore> {
    if a.len() < 2 {
        None
    } else {
        match u32_of(a[0]) {
            Some(g1) => match u32_of(a[1]) {
                Some(g2) => Some(SetScore { player1_games: g1, player2_games: g2 }),
                None => None,
            },
            None => None,
        }
    }
}

/// A set-score entry of the `sets` array: an inner `[p1, p2]` array.
pub open spec fn set_pair_of(v: WireValue) -> Option<SetScore> {
    match v {
        WireValue::Array(pair) => pair_of_seq(pair@),
        _ => None,
    }
}

/// The set scores a `sets` array yields, in arrival order, skipping
/// malformed entries.
pub open spec fn sets_from_arr(a: Seq<WireValue>) -> Seq<SetScore>
    decreases a.len(),
{
    if a.len() == 0 {
        Seq::empty()
    } else {
        sets_from_arr(a.drop_last()) + match set_pair_of(a.last()) {
            Some(s) => seq![s],
            None => Seq::<SetScore>::empty(),
        }
    }
}

/// The full set sequence of a `tennisState` object: the completed sets
/// from `sets` with the in-progress set from `currentSetGames` appended
/// last if present.
pub open spec fn spec_parse_sets(ts: Seq<(String, WireValue)>) -> Seq<SetScore> {
    (match field_arr(ts, "sets"@) {
        Some(a) => sets_from_arr(a),
        None => Seq::<SetScore>::empty(),
    }) + (match field_arr(ts, "currentSetGames"@) {
        Some(c) => match pair_of_seq(c) {
            Some(s) => seq![s],
            None => Seq::<SetScore>::empty(),
        },
        None => Seq::<SetScore>::empty(),
    })
}

fn pair_from_vec(a: &Vec<WireValue>) -> (r: Option<SetScore>)
    ensures
        r == pair_of_seq(a@),
{
    if a.len() < 2 {
        return None;
    }
    let g1 = match value_to_u32(&a[0]) {
        Some(n) => n,
        None => { return None; },
    };
    let g2 = match value_to_u32(&a[1]) {
        Some(n) => n,
        None => { return None; },
    };
    Some(SetScore { player1_games: g1, player2_games: g2 })
}

/// Walks the completed `[p1, p2]` set pairs and appends the in-progress
/// set, preserving arrival order.
pub fn parse_sets(ts: &Vec<(String, WireValue)>) -> (r: Vec<SetScore>)
    ensures
        r@ == spec_parse_sets(ts@),
{
    let mut result: Vec<SetScore> = Vec::new();

    if let Some(sets_arr) = get_array(ts, "sets") {
        let n = sets_arr.len();
        let mut i: usize = 0;
        proof {
            assert(sets_arr@.take(0) =~= Seq::<WireValue>::empty());
            assert(result@ =~= sets_from_arr(sets_arr@.take(0)));
        }
        while i < n
            invariant
                n == sets_arr@.len(),
                i <= n,
                result@ == sets_from_arr(sets_arr@.take(i as int)),
            decreases n - i,
        {
            proof {
                assert(sets_arr@.take(i as int + 1).drop_last() =~= sets_arr@.take(i as int));
                assert(sets_arr@.take(i as int + 1).last() == sets_arr@[i as int]);
            }
            match &sets_arr[i] {
                WireValue::Array(pair) => {
                    if let Some(s) = pair_from_vec(pair) {
                        result.push(s);
                    } else {
                        proof {
                            assert(result@ + Seq::<SetScore>::empty() =~= result@);
                        }
                    }
                },
                _ => {
                    proof {
                        assert(result@ + Seq::<SetScore>::empty() =~= result@);
                    }
                },
            }
            i += 1;
        }
        proof {
            assert(sets_arr@.take(n as int) =~= sets_arr@);
        }
    }

    if let Some(current) = get_array(ts, "currentSetGames") {
        if let Some(s) = pair_from_vec(current) {
            result.push(s);
            return result;
        }
    }
    proof {
        assert(result@ + Seq::<SetScore>::empty() =~= result@);
    }
    result
}

/// Reads the current-game points pair of a `tennisState` object.
pub fn parse_game_points(ts: &Vec<(String, WireValue)>) -> (r: [u32; 2])
    ensures
        (r@[0], r@[1]) == spec_u32_pair(ts@, "currentGamePoints"@),
        r@.len() == 2,
{
    parse_u32_pair(ts, "currentGamePoints")
}

/// Reads the tiebreak points pair of a `tennisState` object.
pub fn parse_tiebreak_points(ts: &Vec<(String, WireValue)>) -> (r: [u32; 2])
    ensures
        (r@[0], r@[1]) == spec_u32_pair(ts@, "tiebreakPoints"@),
        r@.len() == 2,
{
    parse_u32_pair(ts, "tiebreakPoints")
}

/// The serving player of a `tennisState` object: 2 when the numeric
/// `servingParticipant` is 2, otherwise 1 (absent or invalid values
/// default to player 1).
pub open spec fn spec_serving(ts: Seq<(String, WireValue)>) -> u8 {
    match field_i64(ts, "servingParticipant"@) {
        Some(n) => if n == 2 {
            2u8
        } else {
            1u8
        },
        None => 1u8,
    }
}

/// Reads the serving player of a `tennisState` object.
pub fn parse_serving_player(ts: &Vec<(String, WireValue)>) -> (r: u8)
    ensures
        r == spec_serving(ts@),
        r == 1 || r == 2,
{
    match get_i64(ts, "servingParticipant") {
        Some(n) => if n == 2 {
            2
        } else {
            1
        },
        None => 1,
    }
}

// ---------------------------------------------------------------------
// Match snapshot
// ---------------------------------------------------------------------

/// Whether the boolean field under `key` is explicitly `true`.
pub open spec fn spec_flag(fields: Seq<(String, WireValue)>, key: Seq<char>) -> bool {
    lookup_field(fields, key) == Some(WireValue::Bool(true))
}

fn get_flag(obj: &Vec<(String, WireValue)>, key: &str) -> (r: bool)
    ensures
        r == spec_flag(obj@, key@),
{
    match get_field(obj, key) {
        Some(WireValue::Bool(b)) => *b,
        _ => false,
    }
}

/// The optional epoch-millisecond timestamp under `key`, reduced to 64
/// unsigned bits.
pub open spec fn spec_opt_timestamp(fields: Seq<(String, WireValue)>, key: Seq<char>) -> Option<
    u64,
> {
    match field_i64(fields, key) {
        Some(n) => Some(wrap_u64(n)),
        None => None,
    }
}

fn get_opt_timestamp(obj: &Vec<(String, WireValue)>, key: &str) -> (r: Option<u64>)
    ensures
        r == spec_opt_timestamp(obj@, key@),
{
    match get_i64(obj, key) {
        Some(n) => Some(wrap_to_u64(n)),
        None => None,
    }
}

/// The string under `key` of an optional participant object.
pub open spec fn participant_str(
    p: Option<Seq<(String, WireValue)>>,
    key: Seq<char>,
) -> Option<Seq<char>> {
    match p {
        Some(fields) => field_str(fields, key),
        None => None,
    }
}

/// A participant's display name, with its placeholder default.
pub open spec fn display_name_of(
    p: Option<Seq<(String, WireValue)>>,
    fallback: Seq<char>,
) -> Seq<char> {
    match participant_str(p, "displayName"@) {
        Some(s) => s,
        None => fallback,
    }
}

/// A participant's individual name: `playerName` (singles) or
/// `player1Name` (doubles), falling back to the display name. The
/// `player1Name` key is consulted for either participant — the
/// backend's field naming reuses it — and that order is preserved
/// deliberately.
pub open spec fn individual_name_of(
    p: Option<Seq<(String, WireValue)>>,
    display: Seq<char>,
) -> Seq<char> {
    match participant_str(p, "playerName"@) {
        Some(s) => s,
        None => match participant_str(p, "player1Name"@) {
            Some(s) => s,
            None => display,
        },
    }
}

/// The snapshot a `match` object yields. Participant names fall back to
/// placeholders; all score state comes from the nested `tennisState`
/// object, defaulting wholesale when it is absent.
pub open spec fn spec_snapshot_of(m: Seq<(String, WireValue)>) -> SnapshotModel {
    let p1 = field_obj(m, "participant1"@);
    let p2 = field_obj(m, "participant2"@);
    let p1_display = display_name_of(p1, "Player 1"@);
    let p2_display = display_name_of(p2, "Player 2"@);
    let base = SnapshotModel {
        player1_name: individual_name_of(p1, p1_display),
        player2_name: individual_name_of(p2, p2_display),
        player1_display_name: p1_display,
        player2_display_name: p2_display,
        player1_nationality: participant_str(p1, "nationality"@),
        player2_nationality: participant_str(p2, "nationality"@),
        sets: Seq::<SetScore>::empty(),
        current_game_points: (0u32, 0u32),
        tiebreak_points: (0u32, 0u32),
        serving_player: 1u8,
        is_tiebreak: false,
        is_match_complete: false,
        aces: (0u32, 0u32),
        double_faults: (0u32, 0u32),
        match_started_timestamp: None,
        match_completed_at: None,
    };
    match field_obj(m, "tennisState"@) {
        Some(ts) => SnapshotModel {
            sets: spec_parse_sets(ts),
            current_game_points: spec_u32_pair(ts, "currentGamePoints"@),
            tiebreak_points: spec_u32_pair(ts, "tiebreakPoints"@),
            serving_player: spec_serving(ts),
            is_tiebreak: spec_flag(ts, "isTiebreak"@),
            is_match_complete: spec_flag(ts, "isMatchComplete"@),
            aces: spec_u32_pair(ts, "aces"@),
            double_faults: spec_u32_pair(ts, "doubleFaults"@),
            match_started_timestamp: spec_opt_timestamp(ts, "matchStartedTimestamp"@),
            match_completed_at: spec_opt_timestamp(ts, "completedAt"@),
            ..base
        },
        None => base,
    }
}

/// The snapshot a pushed update yields: present exactly when the update
/// is an object carrying a `match` object.
pub open spec fn spec_parse_match_data(v: WireValue) -> Option<SnapshotModel> {
    match v {
        WireValue::Object(root) => match field_obj(root@, "match"@) {
            Some(m) => Some(spec_snapshot_of(m)),
            None => None,
        },
        _ => None,
    }
}

fn participant_string(p: Option<&Vec<(String, WireValue)>>, key: &str) -> (r: Option<String>)
    ensures
        match r {
            Some(s) => participant_str(
                match p {
                    Some(fields) => Some(fields@),
                    None => None,
                },
                key@,
            ) == Some(s@),
            None => participant_str(
                match p {
                    Some(fields) => Some(fields@),
                    None => None,
                },
                key@,
            ) is None,
        },
{
    match p {
        Some(fields) => get_str(fields, key),
        None => None,
    }
}

/// Decodes a pushed update into a match snapshot, if it carries a
/// `match` object; sparse nested data degrades to the documented
/// defaults rather than failing.
pub fn parse_match_data(val: &WireValue) -> (r: Option<TennisLiveData>)
    ensures
        match r {
            Some(d) => spec_parse_match_data(*val) == Some(d@),
            None => spec_parse_match_data(*val) is None,
        },
{
    let root = match val {
        WireValue::Object(root) => root,
        _ => { return None; },
    };
    let match_obj = match get_obj(root, "match") {
        Some(m) => m,
        None => { return None; },
    };

    let p1 = get_obj(match_obj, "participant1");
    let p2 = get_obj(match_obj, "participant2");

    let player1_display_name = match participant_string(p1, "displayName") {
        Some(s) => s,
        None => "Player 1".to_owned(),
    };
    let player2_display_name = match participant_string(p2, "displayName") {
        Some(s) => s,
        None => "Player 2".to_owned(),
    };

    let player1_name = match participant_string(p1, "playerName") {
        Some(s) => s,
        None => match participant_string(p1, "player1Name") {
            Some(s) => s,
            None => player1_display_name.clone(),
        },
    };
    let player2_name = match participant_string(p2, "playerName") {
        Some(s) => s,
        None => match participant_string(p2, "player1Name") {
            Some(s) => s,
            None => player2_display_name.clone(),
        },
    };

    let player1_nationality = participant_string(p1, "nationality");
    let player2_nationality = participant_string(p2, "nationality");

    let data = match get_obj(match_obj, "tennisState") {
        Some(ts) => TennisLiveData {
            player1_name,
            player2_name,
            player1_display_name,
            player2_display_name,
            player1_nationality,
            player2_nationality,
            sets: parse_sets(ts),
            current_game_points: parse_game_points(ts),
            tiebreak_points: parse_tiebreak_points(ts),
            serving_player: parse_serving_player(ts),
            is_tiebreak: get_flag(ts, "isTiebreak"),
            is_match_complete: get_flag(ts, "isMatchComplete"),
            aces: parse_u32_pair(ts, "aces"),
            double_faults: parse_u32_pair(ts, "doubleFaults"),
            match_started_timestamp: get_opt_timestamp(ts, "matchStartedTimestamp"),
            match_completed_at: get_opt_timestamp(ts, "completedAt"),
        },
        None => TennisLiveData {
            player1_name,
            player2_name,
            player1_display_name,
            player2_display_name,
            player1_nationality,
            player2_nationality,
            sets: Vec::new(),
            current_game_points: [0, 0],
            tiebreak_points: [0, 0],
            serving_player: 1,
            is_tiebreak: false,
            is_match_complete: false,
            aces: [0, 0],
            double_faults: [0, 0],
            match_started_timestamp: None,
            match_completed_at: None,
        },
    };
    proof {
        vstd::array::lemma_array_index(data.current_game_points, 0);
        vstd::array::lemma_array_index(data.current_game_points, 1);
        vstd::array::lemma_array_index(data.tiebreak_points, 0);
        vstd::array::lemma_array_index(data.tiebreak_points, 1);
        vstd::array::lemma_array_index(data.aces, 0);
        vstd::array::lemma_array_index(data.aces, 1);
        vstd::array::lemma_array_index(data.double_faults, 0);
        vstd::array::lemma_array_index(data.double_faults, 1);
        assert(spec_parse_match_data(*val) == Some(data@)) by {
            assert(data@ =~= spec_snapshot_of(field_obj(root@, "match"@).unwrap()));
        };
    }
    Some(data)
}

/// A match object with no `tennisState` object still yields a snapshot,
/// with every numeric field zeroed, the serving player defaulting to 1,
/// both flags false, and both timestamps absent — sparse data degrades,
/// it never fails the parse.
pub proof fn lemma_missing_tennis_state_defaults(m: Seq<(String, WireValue)>)
    requires
        field_obj(m, "tennisState"@) is None,
    ensures
        spec_snapshot_of(m).sets == Seq::<SetScore>::empty(),
        spec_snapshot_of(m).current_game_points == (0u32, 0u32),
        spec_snapshot_of(m).tiebreak_points == (0u32, 0u32),
        spec_snapshot_of(m).serving_player == 1u8,
        !spec_snapshot_of(m).is_tiebreak,
        !spec_snapshot_of(m).is_match_complete,
        spec_snapshot_of(m).aces == (0u32, 0u32),
        spec_snapshot_of(m).double_faults == (0u32, 0u32),
        spec_snapshot_of(m).match_started_timestamp is None,
        spec_snapshot_of(m).match_completed_at is None,
{
}

/// Whether a pushed update is the "no match assigned to this court yet"
/// sentinel: the `match` field explicitly present but null.
pub open spec fn spec_is_waiting(v: WireValue) -> bool {
    match v {
        WireValue::Object(root) => lookup_field(root@, "match"@) == Some(WireValue::Null),
        _ => false,
    }
}

/// Tests a pushed update for the explicit "no active match" sentinel.
pub fn is_waiting_for_court_match(val: &WireValue) -> (r: bool)
    ensures
        r == spec_is_waiting(*val),
{
    match val {
        WireValue::Object(root) => match get_field(root, "match") {
            Some(WireValue::Null) => true,
            _ => false,
        },
        _ => false,
    }
}

// ---------------------------------------------------------------------
// Tournament and court lists
// ---------------------------------------------------------------------

/// The tournament a list entry yields: an object with string `id` and
/// `name`, the status defaulting to `"unknown"`; other shapes are
/// skipped.
pub open spec fn tournament_of(v: WireValue) -> Option<TournamentModel> {
    match v {
        WireValue::Object(t) => match field_str(t@, "id"@) {
            Some(id) => match field_str(t@, "name"@) {
                Some(name) => Some(
                    TournamentModel {
                        id,
                        name,
                        status: match field_str(t@, "status"@) {
                            Some(s) => s,
                            None => "unknown"@,
                        },
                    },
                ),
                None => None,
            },
            None => None,
        },
        _ => None,
    }
}

/// The tournaments a `tournaments` array yields, in order, skipping
/// malformed entries.
pub open spec fn tournaments_from_arr(a: Seq<WireValue>) -> Seq<TournamentModel>
    decreases a.len(),
{
    if a.len() == 0 {
        Seq::empty()
    } else {
        tournaments_from_arr(a.drop_last()) + match tournament_of(a.last()) {
            Some(t) => seq![t],
            None => Seq::<TournamentModel>::empty(),
        }
    }
}

/// The tournament list a "list tournaments" response yields: the
/// well-formed entries of its `tournaments` array, or nothing for any
/// other shape.
pub open spec fn spec_parse_tournament_list(v: WireValue) -> Seq<TournamentModel> {
    match v {
        WireValue::Object(obj) => match field_arr(obj@, "tournaments"@) {
            Some(a) => tournaments_from_arr(a),
            None => Seq::empty(),
        },
        _ => Seq::empty(),
    }
}

/// The views of a tournament vector, element by element.
pub open spec fn tournament_views(s: Seq<TournamentInfo>) -> Seq<TournamentModel> {
    s.map_values(|t: TournamentInfo| t@)
}

fn tournament_from_value(v: &WireValue) -> (r: Option<TournamentInfo>)
    ensures
        match r {
            Some(t) => tournament_of(*v) == Some(t@),
            None => tournament_of(*v) is None,
        },
{
    let t_obj = match v {
        WireValue::Object(t) => t,
        _ => { return None; },
    };
    let id = match get_str(t_obj, "id") {
        Some(s) => s,
        None => { return None; },
    };
    let name = match get_str(t_obj, "name") {
        Some(s) => s,
        None => { return None; },
    };
    let status = match get_str(t_obj, "status") {
        Some(s) => s,
        None => "unknown".to_owned(),
    };
    let t = TournamentInfo { id, name, status };
    proof {
        assert(tournament_of(*v) == Some(t@)) by {
            assert(tournament_of(*v).unwrap() =~= t@);
        };
    }
    Some(t)
}

/// Decodes a "list tournaments" response, skipping malformed entries
/// and defaulting an absent status to `"unknown"`.
pub fn parse_tournament_list(val: &WireValue) -> (r: Vec<TournamentInfo>)
    ensures
        tournament_views(r@) == spec_parse_tournament_list(*val),
{
    let mut result: Vec<TournamentInfo> = Vec::new();
    proof {
        assert(tournament_views(result@) =~= Seq::<TournamentModel>::empty());
    }
    let obj = match val {
        WireValue::Object(obj) => obj,
        _ => { return result; },
    };
    let tournaments = match get_array(obj, "tournaments") {
        Some(a) => a,
        None => { return result; },
    };
    let n = tournaments.len();
    let mut i: usize = 0;
    proof {
        assert(tournaments@.take(0) =~= Seq::<WireValue>::empty());
        assert(tournament_views(result@) =~= tournaments_from_arr(tournaments@.take(0)));
    }
    while i < n
        invariant
            n == tournaments@.len(),
            i <= n,
            tournament_views(result@) == tournaments_from_arr(tournaments@.take(i as int)),
        decreases n - i,
    {
        proof {
            assert(tournaments@.take(i as int + 1).drop_last() =~= tournaments@.take(i as int));
            assert(tournaments@.take(i as int + 1).last() == tournaments@[i as int]);
        }
        match tournament_from_value(&tournaments[i]) {
            Some(t) => {
                let ghost prev = result@;
                result.push(t);
                proof {
                    assert(tournament_views(result@) =~= tournament_views(prev) + seq![t@]);
                }
            },
            None => {
                proof {
                    let ghost cur = tournament_views(result@);
                    assert(cur + Seq::<TournamentModel>::empty() =~= cur);
                }
            },
        }
        i += 1;
    }
    proof {
        assert(tournaments@.take(n as int) =~= tournaments@);
    }
    result
}

/// The non-blank court labels a `courts` array of strings yields.
pub open spec fn courts_from_strings(a: Seq<WireValue>) -> Set<Seq<char>>
    decreases a.len(),
{
    if a.len() == 0 {
        Set::empty()
    } else {
        courts_from_strings(a.drop_last()) + match a.last() {
            WireValue::Text(s) => if !crate::text::is_blank(s@) {
                Set::empty().insert(s@)
            } else {
                Set::empty()
            },
            _ => Set::<Seq<char>>::empty(),
        }
    }
}

/// The non-blank court labels a `matches` array yields: the string
/// `court` field of each object entry.
pub open spec fn courts_from_matches(a: Seq<WireValue>) -> Set<Seq<char>>
    decreases a.len(),
{
    if a.len() == 0 {
        Set::empty()
    } else {
        courts_from_matches(a.drop_last()) + match a.last() {
            WireValue::Object(m) => match field_str(m@, "court"@) {
                Some(c) => if !crate::text::is_blank(c) {
                    Set::empty().insert(c)
                } else {
                    Set::empty()
                },
                None => Set::<Seq<char>>::empty(),
            },
            _ => Set::<Seq<char>>::empty(),
        }
    }
}

/// The set of court labels a "list matches" response yields: the
/// non-blank strings of `tournament.courts` together with the non-blank
/// `court` fields of the `matches` entries.
pub open spec fn spec_court_set(v: WireValue) -> Set<Seq<char>> {
    match v {
        WireValue::Object(obj) => {
            (match field_obj(obj@, "tournament"@) {
                Some(t) => match field_arr(t, "courts"@) {
                    Some(a) => courts_from_strings(a),
                    None => Set::empty(),
                },
                None => Set::<Seq<char>>::empty(),
            }) + (match field_arr(obj@, "matches"@) {
                Some(a) => courts_from_matches(a),
                None => Set::<Seq<char>>::empty(),
            })
        },
        _ => Set::empty(),
    }
}

/// Decodes a "list matches" response into the deduplicated set of
/// non-blank court labels found on the tournament and its matches.
/// The order of the result is unspecified; no label appears twice.
pub fn parse_court_list(val: &WireValue) -> (r: Vec<String>)
    ensures
        forall|i: int, j: int| 0 <= i < j < r@.len() ==> r@[i]@ != r@[j]@,
        forall|s: Seq<char>| #[trigger] has_label(r@, s) <==> spec_court_set(*val).contains(s),
{
    let mut courts: Vec<String> = Vec::new();
    let obj = match val {
        WireValue::Object(obj) => obj,
        _ => {
            proof {
                assert(forall|s: Seq<char>| !spec_court_set(*val).contains(s));
            }
            return courts;
        },
    };
    let ghost from_strings: Set<Seq<char>> = match field_obj(obj@, "tournament"@) {
        Some(t) => match field_arr(t, "courts"@) {
            Some(a) => courts_from_strings(a),
            None => Set::empty(),
        },
        None => Set::<Seq<char>>::empty(),
    };

    if let Some(tournament_obj) = get_obj(obj, "tournament") {
        if let Some(court_values) = get_array(tournament_obj, "courts") {
            let n = court_values.len();
            let mut i: usize = 0;
            proof {
                assert(court_values@.take(0) =~= Seq::<WireValue>::empty());
            }
            while i < n
                invariant
                    n == court_values@.len(),
                    i <= n,
                    forall|p: int, q: int| 0 <= p < q < courts@.len() ==> courts@[p]@ != courts@[q]@,
                    forall|s: Seq<char>| #[trigger] has_label(courts@, s)
                        <==> courts_from_strings(court_values@.take(i as int)).contains(s),
                decreases n - i,
            {
                proof {
                    assert(court_values@.take(i as int + 1).drop_last() =~= court_values@.take(
                        i as int,
                    ));
                    assert(court_values@.take(i as int + 1).last() == court_values@[i as int]);
                }
                match &court_values[i] {
                    WireValue::Text(court) => {
                        if !str_is_blank(court.as_str()) && !contains_string(&courts, court.as_str()) {
                            proof {
                                lemma_has_label_push(courts@, *court);
                            }
                            courts.push(court.clone());
                        }
                    },
                    _ => {},
                }
                i += 1;
            }
            proof {
                assert(court_values@.take(n as int) =~= court_values@);
            }
        }
    }

    proof {
        assert(forall|s: Seq<char>| #[trigger] has_label(courts@, s) <==> from_strings.contains(s));
    }

    if let Some(matches) = get_array(obj, "matches") {
        let n = matches.len();
        let mut i: usize = 0;
        proof {
            assert(matches@.take(0) =~= Seq::<WireValue>::empty());
            assert(forall|s: Seq<char>| !courts_from_matches(matches@.take(0)).contains(s));
        }
        while i < n
            invariant
                n == matches@.len(),
                i <= n,
                forall|p: int, q: int| 0 <= p < q < courts@.len() ==> courts@[p]@ != courts@[q]@,
                forall|s: Seq<char>| #[trigger] has_label(courts@, s)
                    <==> (from_strings + courts_from_matches(matches@.take(i as int))).contains(s),
            decreases n - i,
        {
            proof {
                assert(matches@.take(i as int + 1).drop_last() =~= matches@.take(i as int));
                assert(matches@.take(i as int + 1).last() == matches@[i as int]);
            }
            match &matches[i] {
                WireValue::Object(m_obj) => {
                    if let Some(court) = get_str(m_obj, "court") {
                        if !str_is_blank(court.as_str()) && !contains_string(&courts, court.as_str())
                        {
                            proof {
                                lemma_has_label_push(courts@, court);
                            }
                            courts.push(court);
                        }
                    }
                },
                _ => {},
            }
            i += 1;
        }
        proof {
            assert(matches@.take(n as int) =~= matches@);
        }
    }
    courts
}

} // verus!
