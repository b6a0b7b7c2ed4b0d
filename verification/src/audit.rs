//! The operation journal: entries and their JSON lines, rollback points, a
//! bounded history and statistics over it. The journal decides what is to be
//! written; writing it to a file is left to the caller.
use vstd::prelude::*;
use vstd::string::StringExecFns;
use std::collections::VecDeque;
use crate::clock::fresh_micros;
use crate::text::{
    chars_of, decimal, push_char, push_decimal, push_signed_decimal, signed_decimal, text_eq,
};

verus! {

/// The directory of the journal files.
pub const AUDIT_LOG_DIR: &'static str = "/data/adb/magisk/rafaelia_audit";

/// The most entries that the history keeps.
pub const MAX_AUDIT_HISTORY: usize = 1000;

/// The size of the buffer in front of a journal file.
pub const AUDIT_BUFFER_SIZE: usize = 8192;

/// One entry of the journal.
#[derive(Clone, Debug)]
pub struct AuditEntry {
    pub timestamp: u64,
    pub session_id: String,
    pub primitive: String,
    pub context: String,
    pub action: String,
    pub state_id: String,
    pub input_hash: Option<String>,
    pub output_hash: Option<String>,
    pub duration_ms: u64,
    pub success: bool,
    pub error_msg: Option<String>,
}

/// The member `"key":value` of a JSON object, for a number.
pub open spec fn number_member(key: Seq<char>, value: nat) -> Seq<char> {
    "\""@ + key + "\":"@ + decimal(value)
}

/// The member `"key":"value"` of a JSON object, for a text that is written
/// as it is.
pub open spec fn text_member(key: Seq<char>, value: Seq<char>) -> Seq<char> {
    "\""@ + key + "\":\""@ + value + "\""@
}

/// The member `"key":true` or `"key":false` of a JSON object.
pub open spec fn flag_member(key: Seq<char>, value: bool) -> Seq<char> {
    "\""@ + key + "\":"@ + if value {
        "true"@
    } else {
        "false"@
    }
}

/// A text member with the comma in front of it, or nothing where the value
/// is absent.
pub open spec fn optional_member(key: Seq<char>, value: Option<Seq<char>>) -> Seq<char> {
    match value {
        Some(text) => ","@ + text_member(key, text),
        None => Seq::empty(),
    }
}

/// `text` with a backslash in front of every double quote.
pub open spec fn escape_quotes(text: Seq<char>) -> Seq<char>
    decreases text.len(),
{
    if text.len() == 0 {
        Seq::empty()
    } else if text.last() == '"' {
        escape_quotes(text.drop_last()).push('\\').push('"')
    } else {
        escape_quotes(text.drop_last()).push(text.last())
    }
}

/// The characters of an optional text.
pub open spec fn text_of(value: Option<String>) -> Option<Seq<char>> {
    match value {
        Some(text) => Some(text@),
        None => None,
    }
}

/// The characters of an optional text, double quotes escaped.
pub open spec fn escaped_text_of(value: Option<String>) -> Option<Seq<char>> {
    match value {
        Some(text) => Some(escape_quotes(text@)),
        None => None,
    }
}

/// Appends a number member.
fn push_number_member(json: &mut String, key: &str, value: u64)
    ensures
        final(json)@ == old(json)@ + number_member(key@, value as nat),
{
    json.append("\"");
    json.append(key);
    json.append("\":");
    push_decimal(json, value as u128);
    assert(json@ =~= old(json)@ + number_member(key@, value as nat));
}

/// Appends a text member.
fn push_text_member(json: &mut String, key: &str, value: &str)
    ensures
        final(json)@ == old(json)@ + text_member(key@, value@),
{
    json.append("\"");
    json.append(key);
    json.append("\":\"");
    json.append(value);
    json.append("\"");
    assert(json@ =~= old(json)@ + text_member(key@, value@));
}

/// Appends a flag member.
fn push_flag_member(json: &mut String, key: &str, value: bool)
    ensures
        final(json)@ == old(json)@ + flag_member(key@, value),
{
    json.append("\"");
    json.append(key);
    json.append("\":");
    if value {
        json.append("true");
    } else {
        json.append("false");
    }
    assert(json@ =~= old(json)@ + flag_member(key@, value));
}

/// Appends a text member with its comma, if the value is present.
fn push_optional_member(json: &mut String, key: &str, value: &Option<String>)
    ensures
        final(json)@ == old(json)@ + optional_member(key@, text_of(*value)),
{
    match value {
        Some(text) => {
            json.append(",");
            push_text_member(json, key, text.as_str());
            assert(json@ =~= old(json)@ + optional_member(key@, text_of(*value)));
        },
        None => {
            assert(json@ =~= old(json)@ + optional_member(key@, text_of(*value)));
        },
    }
}

/// `text` with a backslash in front of every double quote.
pub fn escaped(text: &str) -> (r: String)
    ensures
        r@ == escape_quotes(text@),
{
    let mut r = String::new();
    let chars = chars_of(text);
    let mut i: usize = 0;
    while i < chars.len()
        invariant
            i <= chars.len(),
            chars@ == text@,
            r@ == escape_quotes(text@.take(i as int)),
        decreases chars.len() - i,
    {
        let c = chars[i];
        proof {
            assert(text@.take(i + 1).drop_last() =~= text@.take(i as int));
        }
        if c == '"' {
            push_char(&mut r, '\\');
            push_char(&mut r, '"');
        } else {
            push_char(&mut r, c);
        }
        i += 1;
    }
    assert(text@.take(i as int) =~= text@);
    r
}

impl AuditEntry {
    /// The entry as one JSON object on one line: the members in the order of
    /// the fields, the absent ones left out, the message with its double
    /// quotes escaped.
    pub open spec fn spec_jsonl(&self) -> Seq<char> {
        "{"@ + number_member("timestamp"@, self.timestamp as nat) + ","@ + text_member(
            "session_id"@,
            self.session_id@,
        ) + ","@ + text_member("primitive"@, self.primitive@) + ","@ + text_member(
            "context"@,
            self.context@,
        ) + ","@ + text_member("action"@, self.action@) + ","@ + text_member(
            "state_id"@,
            self.state_id@,
        ) + optional_member("input_hash"@, text_of(self.input_hash)) + optional_member(
            "output_hash"@,
            text_of(self.output_hash),
        ) + ","@ + number_member("duration_ms"@, self.duration_ms as nat) + ","@ + flag_member(
            "success"@,
            self.success,
        ) + optional_member("error_msg"@, escaped_text_of(self.error_msg)) + "}"@
    }

    /// Convert audit entry to JSON line format.
    pub fn to_jsonl(&self) -> (json: String)
        ensures
            json@ == self.spec_jsonl(),
    {
        let mut json = String::from_str("{");
        push_number_member(&mut json, "timestamp", self.timestamp);
        json.append(",");
        push_text_member(&mut json, "session_id", self.session_id.as_str());
        json.append(",");
        push_text_member(&mut json, "primitive", self.primitive.as_str());
        json.append(",");
        push_text_member(&mut json, "context", self.context.as_str());
        json.append(",");
        push_text_member(&mut json, "action", self.action.as_str());
        json.append(",");
        push_text_member(&mut json, "state_id", self.state_id.as_str());
        push_optional_member(&mut json, "input_hash", &self.input_hash);
        push_optional_member(&mut json, "output_hash", &self.output_hash);
        json.append(",");
        push_number_member(&mut json, "duration_ms", self.duration_ms);
        json.append(",");
        push_flag_member(&mut json, "success", self.success);
        match &self.error_msg {
            Some(message) => {
                let quoted = Some(escaped(message.as_str()));
                push_optional_member(&mut json, "error_msg", &quoted);
            },
            None => {
                push_optional_member(&mut json, "error_msg", &None);
            },
        }
        json.append("}");
        json
    }
}

/// Rollback point for recovery.
#[derive(Clone, Debug)]
pub struct RollbackPoint {
    pub id: String,
    pub timestamp: u64,
    pub primitive: String,
    pub context: String,
    pub state_snapshot: Vec<u8>,
    pub audit_index: usize,
}

impl RollbackPoint {
    /// The id of a rollback point made at `micros` microseconds since the
    /// epoch.
    pub open spec fn spec_id(micros: u128) -> Seq<char> {
        "RB_"@ + decimal(micros as nat)
    }

    /// The id of a rollback point made at `micros` microseconds since the
    /// epoch.
    pub fn id_at(micros: u128) -> (id: String)
        ensures
            id@ == Self::spec_id(micros),
    {
        let mut id = String::from_str("RB_");
        push_decimal(&mut id, micros);
        id
    }

    /// Generate a rollback ID from a fresh reading of the clock: the id of
    /// `fresh_micros`, which differs from the id generated before.
    pub fn generate_id() -> (id: String)
        ensures
            exists|micros: u128| id@ == Self::spec_id(micros),
    {
        Self::id_at(fresh_micros())
    }
}

/// What the journal cannot do.
#[derive(Clone, Debug)]
pub enum AuditError {
    /// No rollback point has this id.
    RollbackNotFound { point_id: String },
}

impl AuditError {
    /// The error as text.
    pub open spec fn spec_message(&self) -> Seq<char> {
        match self {
            AuditError::RollbackNotFound { point_id } => "Rollback point not found: "@
                + point_id@,
        }
    }

    /// The error as text.
    pub fn message(&self) -> (text: String)
        ensures
            text@ == self.spec_message(),
    {
        match self {
            AuditError::RollbackNotFound { point_id } => {
                let mut text = String::from_str("Rollback point not found: ");
                text.append(point_id.as_str());
                text
            },
        }
    }
}

/// Statistics about audit operations.
#[derive(Debug, Clone)]
pub struct AuditStatistics {
    pub total_operations: usize,
    pub successful_operations: usize,
    pub failed_operations: usize,
    pub avg_duration_ms: u64,
    pub session_id: String,
}

/// The id of the session that process `pid` opens at `timestamp`.
pub open spec fn session_id_spec(timestamp: u64, pid: i32) -> Seq<char> {
    "RAFAELIA_"@ + decimal(timestamp as nat) + "_"@ + signed_decimal(pid as int)
}

/// The path of the journal file of a session.
pub open spec fn log_path_spec(session_id: Seq<char>) -> Seq<char> {
    AUDIT_LOG_DIR@ + "/audit_"@ + session_id + ".jsonl"@
}

/// The state that an operation on `primitive` in `context` is filed under.
pub open spec fn state_id_spec(primitive: Seq<char>, context: Seq<char>) -> Seq<char> {
    "PRIM_"@ + primitive + "_CTX_"@ + context
}

/// The message of the entry that reports a rollback to `point_id`.
pub open spec fn rollback_note(point_id: Seq<char>) -> Seq<char> {
    "Rollback to point: "@ + point_id
}

/// Whether `entry` is the journal entry of one operation of `session`.
pub open spec fn is_entry_of(
    entry: AuditEntry,
    session: Seq<char>,
    timestamp: u64,
    primitive: Seq<char>,
    context: Seq<char>,
    action: Seq<char>,
    duration_ms: u64,
    success: bool,
    error_msg: Option<Seq<char>>,
) -> bool {
    &&& entry.timestamp == timestamp
    &&& entry.session_id@ == session
    &&& entry.primitive@ == primitive
    &&& entry.context@ == context
    &&& entry.action@ == action
    &&& entry.state_id@ == state_id_spec(primitive, context)
    &&& entry.input_hash is None
    &&& entry.output_hash is None
    &&& entry.duration_ms == duration_ms
    &&& entry.success == success
    &&& text_of(entry.error_msg) == error_msg
}

/// Whether `point` is the rollback point with these values and no snapshot.
pub open spec fn is_point_of(
    point: RollbackPoint,
    micros: u128,
    timestamp: u64,
    primitive: Seq<char>,
    context: Seq<char>,
    audit_index: nat,
) -> bool {
    &&& point.id@ == RollbackPoint::spec_id(micros)
    &&& point.timestamp == timestamp
    &&& point.primitive@ == primitive
    &&& point.context@ == context
    &&& point.state_snapshot@ == Seq::<u8>::empty()
    &&& point.audit_index == audit_index
}

/// The history after `entry` is recorded: the oldest entry leaves where the
/// history is full.
pub open spec fn recorded(history: Seq<AuditEntry>, entry: AuditEntry) -> Seq<AuditEntry> {
    if history.len() >= MAX_AUDIT_HISTORY {
        history.skip(1).push(entry)
    } else {
        history.push(entry)
    }
}

/// The entries that report a success.
pub open spec fn succeeded() -> spec_fn(AuditEntry) -> bool {
    |entry: AuditEntry| entry.success
}

/// The sum of the durations of `history`.
pub open spec fn total_duration(history: Seq<AuditEntry>) -> nat
    decreases history.len(),
{
    if history.len() == 0 {
        0
    } else {
        total_duration(history.drop_last()) + history.last().duration_ms as nat
    }
}

/// The mean duration of `history`, rounded down; 0 for an empty history.
pub open spec fn mean_duration(history: Seq<AuditEntry>) -> nat {
    if history.len() == 0 {
        0
    } else {
        total_duration(history) / history.len()
    }
}

/// Whether `index` is the first rollback point of `points` with id `id`.
pub open spec fn is_first_point(points: Seq<RollbackPoint>, id: Seq<char>, index: int) -> bool {
    &&& 0 <= index < points.len()
    &&& points[index].id@ == id
    &&& forall|j: int| 0 <= j < index ==> (#[trigger] points[j]).id@ != id
}

/// The journal of one session: the history of its last operations and its
/// rollback points.
pub struct AuditSystem {
    session_id: String,
    audit_history: VecDeque<AuditEntry>,
    rollback_points: Vec<RollbackPoint>,
    enabled: bool,
}

impl AuditSystem {
    #[verifier::type_invariant]
    spec fn bounded(&self) -> bool {
        self.audit_history@.len() <= MAX_AUDIT_HISTORY
    }

    /// The id of the session.
    pub closed spec fn session(&self) -> Seq<char> {
        self.session_id@
    }

    /// The recorded entries, oldest first.
    pub closed spec fn history(&self) -> Seq<AuditEntry> {
        self.audit_history@
    }

    /// The rollback points, oldest first.
    pub closed spec fn points(&self) -> Seq<RollbackPoint> {
        self.rollback_points@
    }

    /// Whether operations are journaled.
    pub closed spec fn is_enabled(&self) -> bool {
        self.enabled
    }

    /// Generate the id of the session that process `pid` opens at
    /// `timestamp`.
    pub fn generate_session_id(timestamp: u64, pid: i32) -> (id: String)
        ensures
            id@ == session_id_spec(timestamp, pid),
    {
        let mut id = String::from_str("RAFAELIA_");
        push_decimal(&mut id, timestamp as u128);
        id.append("_");
        push_signed_decimal(&mut id, pid as i64);
        id
    }

    /// Get log file path for session.
    pub fn get_log_path(session_id: &str) -> (path: String)
        ensures
            path@ == log_path_spec(session_id@),
    {
        let mut path = String::from_str(AUDIT_LOG_DIR);
        path.append("/audit_");
        path.append(session_id);
        path.append(".jsonl");
        path
    }

    /// Initialize the audit system with a new session: enabled, with an
    /// empty history and no rollback point.
    pub fn init(timestamp: u64, pid: i32) -> (audit: AuditSystem)
        ensures
            audit.session() == session_id_spec(timestamp, pid),
            audit.history() == Seq::<AuditEntry>::empty(),
            audit.points() == Seq::<RollbackPoint>::empty(),
            audit.is_enabled(),
    {
        AuditSystem {
            session_id: Self::generate_session_id(timestamp, pid),
            audit_history: VecDeque::with_capacity(MAX_AUDIT_HISTORY),
            rollback_points: Vec::new(),
            enabled: true,
        }
    }

    /// The id of the session.
    pub fn session_id(&self) -> (id: &String)
        ensures
            id@ == self.session(),
    {
        &self.session_id
    }

    /// The number of recorded entries, which never exceeds
    /// `MAX_AUDIT_HISTORY`.
    pub fn history_len(&self) -> (len: usize)
        ensures
            len == self.history().len(),
            len <= MAX_AUDIT_HISTORY,
    {
        proof {
            use_type_invariant(self);
        }
        self.audit_history.len()
    }

    /// Makes the entry of an operation: `None` where the journal is
    /// disabled, else the entry that is to be written and then recorded.
    pub fn log_operation(
        &self,
        timestamp: u64,
        primitive: &str,
        context: &str,
        action: &str,
        duration_ms: u64,
        success: bool,
        error_msg: Option<String>,
    ) -> (r: Option<AuditEntry>)
        ensures
            r is Some <==> self.is_enabled(),
            r matches Some(entry) ==> is_entry_of(
                entry,
                self.session(),
                timestamp,
                primitive@,
                context@,
                action@,
                duration_ms,
                success,
                text_of(error_msg),
            ),
    {
        if !self.enabled {
            return None;
        }
        let mut state_id = String::from_str("PRIM_");
        state_id.append(primitive);
        state_id.append("_CTX_");
        state_id.append(context);
        Some(
            AuditEntry {
                timestamp,
                session_id: self.session_id.clone(),
                primitive: primitive.to_owned(),
                context: context.to_owned(),
                action: action.to_owned(),
                state_id,
                input_hash: None,
                output_hash: None,
                duration_ms,
                success,
                error_msg,
            },
        )
    }

    /// Adds a written entry to the history. A full history loses its oldest
    /// entry first.
    pub fn record(&mut self, entry: AuditEntry)
        ensures
            final(self).history() == recorded(old(self).history(), entry),
            final(self).session() == old(self).session(),
            final(self).points() == old(self).points(),
            final(self).is_enabled() == old(self).is_enabled(),
    {
        proof {
            use_type_invariant(&*self);
        }
        let mut history: VecDeque<AuditEntry> = VecDeque::new();
        core::mem::swap(&mut self.audit_history, &mut history);
        if history.len() >= MAX_AUDIT_HISTORY {
            history.pop_front();
        }
        history.push_back(entry);
        proof {
            assert(old(self).audit_history@.subrange(1, old(self).audit_history@.len() as int)
                =~= old(self).audit_history@.skip(1));
        }
        core::mem::swap(&mut self.audit_history, &mut history);
    }

    /// Create a rollback point at `timestamp` seconds and `micros`
    /// microseconds since the epoch, and keep a copy of it. Returns the
    /// point and the entry that journals its creation, if the journal is
    /// enabled.
    pub fn create_rollback_point(
        &mut self,
        timestamp: u64,
        micros: u128,
        primitive: &str,
        context: &str,
    ) -> (r: (RollbackPoint, Option<AuditEntry>))
        ensures
            is_point_of(
                r.0,
                micros,
                timestamp,
                primitive@,
                context@,
                old(self).history().len(),
            ),
            final(self).points().len() == old(self).points().len() + 1,
            final(self).points().drop_last() == old(self).points(),
            is_point_of(
                final(self).points().last(),
                micros,
                timestamp,
                primitive@,
                context@,
                old(self).history().len(),
            ),
            final(self).history() == old(self).history(),
            final(self).session() == old(self).session(),
            final(self).is_enabled() == old(self).is_enabled(),
            r.1 is Some <==> old(self).is_enabled(),
            r.1 matches Some(entry) ==> is_entry_of(
                entry,
                old(self).session(),
                timestamp,
                primitive@,
                context@,
                "CREATE_ROLLBACK"@,
                0,
                true,
                None,
            ),
    {
        proof {
            use_type_invariant(&*self);
        }
        let audit_index = self.audit_history.len();
        let point = RollbackPoint {
            id: RollbackPoint::id_at(micros),
            timestamp,
            primitive: primitive.to_owned(),
            context: context.to_owned(),
            state_snapshot: Vec::new(),
            audit_index,
        };
        let kept = RollbackPoint {
            id: RollbackPoint::id_at(micros),
            timestamp,
            primitive: primitive.to_owned(),
            context: context.to_owned(),
            state_snapshot: Vec::new(),
            audit_index,
        };
        let mut points: Vec<RollbackPoint> = Vec::new();
        core::mem::swap(&mut self.rollback_points, &mut points);
        points.push(kept);
        core::mem::swap(&mut self.rollback_points, &mut points);
        proof {
            assert(self.rollback_points@.drop_last() =~= old(self).rollback_points@);
        }
        let entry = self.log_operation(
            timestamp,
            primitive,
            context,
            "CREATE_ROLLBACK",
            0,
            true,
            None,
        );
        (point, entry)
    }

    /// Perform rollback to a specific point: finds the first rollback point
    /// with id `point_id` and returns the entry that journals the rollback,
    /// if the journal is enabled. Fails where no point has that id.
    pub fn perform_rollback(&self, timestamp: u64, point_id: &str) -> (r: Result<
        Option<AuditEntry>,
        AuditError,
    >)
        ensures
            match r {
                Ok(logged) => exists|index: int|
                    {
                        &&& is_first_point(self.points(), point_id@, index)
                        &&& logged is Some <==> self.is_enabled()
                        &&& logged matches Some(entry) ==> is_entry_of(
                            entry,
                            self.session(),
                            timestamp,
                            self.points()[index].primitive@,
                            self.points()[index].context@,
                            "PERFORM_ROLLBACK"@,
                            0,
                            true,
                            Some(rollback_note(point_id@)),
                        )
                    },
                Err(AuditError::RollbackNotFound { point_id: missing }) => {
                    &&& missing@ == point_id@
                    &&& forall|j: int|
                        0 <= j < self.points().len() ==> (#[trigger] self.points()[j]).id@
                            != point_id@
                },
            },
    {
        let mut index: usize = 0;
        while index < self.rollback_points.len()
            invariant
                index <= self.rollback_points.len(),
                forall|j: int| 0 <= j < index ==> (#[trigger] self.rollback_points[j]).id@ != point_id@,
            decreases self.rollback_points.len() - index,
        {
            let point = &self.rollback_points[index];
            if text_eq(point.id.as_str(), point_id) {
                let mut note = String::from_str("Rollback to point: ");
                note.append(point_id);
                let logged = self.log_operation(
                    timestamp,
                    point.primitive.as_str(),
                    point.context.as_str(),
                    "PERFORM_ROLLBACK",
                    0,
                    true,
                    Some(note),
                );
                assert(is_first_point(self.points(), point_id@, index as int));
                return Ok(logged);
            }
            index += 1;
        }
        Err(AuditError::RollbackNotFound { point_id: point_id.to_owned() })
    }

    /// Get audit statistics: how many recorded operations there are, how
    /// many of them succeeded and failed, and their mean duration.
    pub fn get_statistics(&self) -> (stats: AuditStatistics)
        ensures
            stats.total_operations == self.history().len(),
            stats.successful_operations == self.history().filter(succeeded()).len(),
            stats.failed_operations == stats.total_operations - stats.successful_operations,
            stats.avg_duration_ms == mean_duration(self.history()),
            stats.session_id@ == self.session(),
    {
        proof {
            use_type_invariant(self);
        }
        let total = self.audit_history.len();
        let mut successful: usize = 0;
        let mut sum: u128 = 0;
        let mut i: usize = 0;
        proof {
            reveal(Seq::filter);
            assert(self.audit_history@.take(0) =~= Seq::<AuditEntry>::empty());
        }
        while i < total
            invariant
                i <= total,
                total == self.audit_history@.len(),
                total <= MAX_AUDIT_HISTORY,
                successful == self.audit_history@.take(i as int).filter(succeeded()).len(),
                successful <= i,
                sum == total_duration(self.audit_history@.take(i as int)),
                sum <= i * u64::MAX,
            decreases total - i,
        {
            let entry = &self.audit_history[i];
            proof {
                reveal(Seq::filter);
                assert(self.audit_history@.take(i + 1).drop_last() =~= self.audit_history@.take(
                    i as int,
                ));
            }
            if entry.success {
                successful += 1;
            }
            sum += entry.duration_ms as u128;
            i += 1;
        }
        proof {
            assert(self.audit_history@.take(total as int) =~= self.audit_history@);
        }
        let average: u64 = if total > 0 {
            let mean = sum / (total as u128);
            assert(mean <= u64::MAX) by (nonlinear_arith)
                requires
                    mean == sum / (total as u128),
                    sum <= total * u64::MAX,
                    total > 0,
            ;
            mean as u64
        } else {
            0
        };
        AuditStatistics {
            total_operations: total,
            successful_operations: successful,
            failed_operations: total - successful,
            avg_duration_ms: average,
            session_id: self.session_id.clone(),
        }
    }

    /// Enable or disable audit logging.
    pub fn set_enabled(&mut self, enabled: bool)
        ensures
            final(self).is_enabled() == enabled,
            final(self).history() == old(self).history(),
            final(self).points() == old(self).points(),
            final(self).session() == old(self).session(),
    {
        proof {
            use_type_invariant(&*self);
        }
        self.enabled = enabled;
    }
}

/// Initialize the journal of the process in `slot`, once: an empty slot
/// gets a new session, a filled one stays as it is. Returns whether a
/// session was opened.
pub fn init_global_audit(slot: &mut Option<AuditSystem>, timestamp: u64, pid: i32) -> (opened: bool)
    ensures
        opened == (*old(slot) is None),
        *old(slot) is Some ==> *final(slot) == *old(slot),
        *old(slot) is None ==> {
            &&& *final(slot) is Some
            &&& (*final(slot))->0.session() == session_id_spec(timestamp, pid)
            &&& (*final(slot))->0.history() == Seq::<AuditEntry>::empty()
            &&& (*final(slot))->0.points() == Seq::<RollbackPoint>::empty()
            &&& (*final(slot))->0.is_enabled()
        },
{
    if slot.is_some() {
        return false;
    }
    *slot = Some(AuditSystem::init(timestamp, pid));
    true
}

/// Makes the entry of an operation for the journal of the process, if there
/// is one and it is enabled.
pub fn log_global_operation(
    slot: &Option<AuditSystem>,
    timestamp: u64,
    primitive: &str,
    context: &str,
    action: &str,
    duration_ms: u64,
    success: bool,
    error_msg: Option<String>,
) -> (r: Option<AuditEntry>)
    ensures
        r is Some <==> slot is Some && slot->0.is_enabled(),
        r matches Some(entry) ==> is_entry_of(
            entry,
            slot->0.session(),
            timestamp,
            primitive@,
            context@,
            action@,
            duration_ms,
            success,
            text_of(error_msg),
        ),
{
    match slot {
        Some(audit) => audit.log_operation(
            timestamp,
            primitive,
            context,
            action,
            duration_ms,
            success,
            error_msg,
        ),
        None => None,
    }
}

} // verus!
