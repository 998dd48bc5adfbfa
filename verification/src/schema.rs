//! The schema registry: the chain of schema versions and the driver that
//! brings a store from the version it is at to the latest one.
//!
//! A store without the schema state table predates it and counts as version
//! 1, whether it holds the tables of version 1 or nothing at all. From
//! version 2 on, the table holds the version as its one row.

use vstd::prelude::*;
use crate::error::StoreError;
use crate::sql::{execute, param_views, query_integers, SqlParam, SqlParamView};

verus! {

/// The latest schema version that this library knows.
pub const LATEST_VERSION: u64 = 2;

/// Makes the engine enforce foreign keys on this connection.
pub const PRAGMA_FOREIGN_KEYS_SQL: &'static str = "PRAGMA foreign_keys = ON;";

/// Counts the tables of a name.
pub const TABLE_COUNT_SQL: &'static str =
    "SELECT COUNT(*) FROM sqlite_master WHERE type = 'table' AND name = ?1";

/// Reads the stored schema version.
pub const STORED_VERSION_SQL: &'static str = "SELECT version FROM config LIMIT 1;";

/// Creates the error log table.
pub const CREATE_ERROR_LOG_SQL: &'static str = "
CREATE TABLE IF NOT EXISTS error (
    id INTEGER PRIMARY KEY AUTOINCREMENT,
    key VARCHAR(512) NOT NULL,
    context TEXT,
    error TEXT,
    message TEXT,
    code VARCHAR(128),
    type VARCHAR(128),
    param TEXT,
    updateat DATETIME DEFAULT CURRENT_TIMESTAMP
);
";

/// Creates the conversation table.
pub const CREATE_CONVERSATION_SQL: &'static str = "
CREATE TABLE IF NOT EXISTS conversation (
    id INTEGER PRIMARY KEY AUTOINCREMENT,
    title VARCHAR(512) NOT NULL,
    key VARCHAR(512) NOT NULL,
    updateat DATETIME DEFAULT CURRENT_TIMESTAMP
);
";

/// Creates the message table.
pub const CREATE_MESSAGE_SQL: &'static str = "
CREATE TABLE IF NOT EXISTS message (
    id INTEGER PRIMARY KEY AUTOINCREMENT,
    conversation_id INTEGER NOT NULL,
    role VARCHAR(32) NOT NULL,
    content TEXT,
    prompt_tokens INTEGER NOT NULL,
    completion_tokens INTEGER NOT NULL,
    updateat DATETIME DEFAULT CURRENT_TIMESTAMP,
    FOREIGN KEY (conversation_id) REFERENCES conversation (id)
);
";

/// Creates the schema state table.
pub const CREATE_CONFIG_SQL: &'static str = "
CREATE TABLE IF NOT EXISTS config (
    version INT NOT NULL PRIMARY KEY
);
";

/// Adds the topic of a conversation.
pub const ADD_CONVERSATION_TOPIC_SQL: &'static str =
    "ALTER TABLE conversation ADD COLUMN topic INTEGER DEFAULT 0;";

/// Writes the schema version.
pub const RECORD_VERSION_SQL: &'static str = "INSERT INTO config (version) VALUES (?);";

/// One change of structure. A migration is a list of them, applied in order.
#[derive(Clone, Copy, Debug, PartialEq, Eq, Structural)]
pub enum MigrationStep {
    /// Creates the error log table unless it exists.
    CreateErrorLog,
    /// Creates the conversation table unless it exists.
    CreateConversation,
    /// Creates the message table unless it exists.
    CreateMessage,
    /// Creates the schema state table unless it exists.
    CreateConfig,
    /// Adds the topic column to the conversation table.
    AddConversationTopic,
    /// Writes the version into the empty schema state table.
    RecordVersion(u32),
}

/// The structures of a store, as far as the migrations touch them.
pub struct Structure {
    pub error_log: bool,
    pub conversation: bool,
    pub message: bool,
    /// Whether the conversation table has the topic column.
    pub topic: bool,
    pub config: bool,
    /// The row of the schema state table, if it has one.
    pub version: Option<u64>,
}

/// A store that holds nothing.
pub open spec fn fresh_structure() -> Structure {
    Structure {
        error_log: false,
        conversation: false,
        message: false,
        topic: false,
        config: false,
        version: None,
    }
}

/// A store with the tables of version 1 and nothing else.
pub open spec fn v1_structure() -> Structure {
    Structure {
        error_log: true,
        conversation: true,
        message: true,
        topic: false,
        config: false,
        version: None,
    }
}

/// A store at the latest version.
pub open spec fn latest_structure() -> Structure {
    Structure {
        error_log: true,
        conversation: true,
        message: true,
        topic: true,
        config: true,
        version: Some(LATEST_VERSION),
    }
}

/// Whether a store predates the schema state table: it has neither that table
/// nor anything that came with it.
pub open spec fn predates_config(s: Structure) -> bool {
    !s.config && !s.topic && s.version is None
}

/// The version that detection reads off a store. `None` stands for a schema
/// state table without a row.
pub open spec fn detected(s: Structure) -> Option<u64> {
    if s.config {
        s.version
    } else {
        Some(1)
    }
}

/// The store after one step, or `None` where the engine refuses the step: a
/// column is added to a missing table or a second time, or a version is
/// recorded where there is no table for it or a version already.
pub open spec fn after_step(step: MigrationStep, s: Structure) -> Option<Structure> {
    match step {
        MigrationStep::CreateErrorLog => Some(Structure { error_log: true, ..s }),
        MigrationStep::CreateConversation => Some(Structure { conversation: true, ..s }),
        MigrationStep::CreateMessage => Some(Structure { message: true, ..s }),
        MigrationStep::CreateConfig => Some(Structure { config: true, ..s }),
        MigrationStep::AddConversationTopic => if s.conversation && !s.topic {
            Some(Structure { topic: true, ..s })
        } else {
            None
        },
        MigrationStep::RecordVersion(v) => if s.config && s.version is None {
            Some(Structure { version: Some(v as u64), ..s })
        } else {
            None
        },
    }
}

/// The store after a list of steps, or `None` if one of them is refused.
pub open spec fn after_steps(steps: Seq<MigrationStep>, s: Structure) -> Option<Structure>
    decreases steps.len(),
{
    if steps.len() == 0 {
        Some(s)
    } else {
        match after_step(steps[0], s) {
            Some(next) => after_steps(steps.drop_first(), next),
            None => None,
        }
    }
}

/// The steps that materialise version 1. Each of them is safe to repeat.
pub open spec fn v1_steps() -> Seq<MigrationStep> {
    seq![
        MigrationStep::CreateErrorLog,
        MigrationStep::CreateConversation,
        MigrationStep::CreateMessage,
    ]
}

/// The steps that lead from version 1 to version 2.
pub open spec fn v2_steps() -> Seq<MigrationStep> {
    seq![
        MigrationStep::CreateConfig,
        MigrationStep::AddConversationTopic,
        MigrationStep::RecordVersion(2),
    ]
}

/// The steps that bring a store from a detected version to the latest: none
/// at the latest version; from version 1, the steps of version 1 and then
/// those of version 2. There is no plan from an unknown version.
pub open spec fn plan_from(version: u64) -> Option<Seq<MigrationStep>> {
    if version == LATEST_VERSION {
        Some(Seq::empty())
    } else if version == 1 {
        Some(v1_steps() + v2_steps())
    } else {
        None
    }
}

/// What convergence makes of a store: the store after the planned steps, or
/// `None` where detection, planning or a step fails.
pub open spec fn converged(s: Structure) -> Option<Structure> {
    match detected(s) {
        Some(version) => match plan_from(version) {
            Some(steps) => after_steps(steps, s),
            None => None,
        },
        None => None,
    }
}

/// Convergence ends at the latest structure from every store that predates
/// the schema state table, whichever tables of version 1 it already has.
pub proof fn lemma_convergence_reaches_latest(s: Structure)
    requires
        predates_config(s),
    ensures
        converged(s) == Some(latest_structure()),
{
    let steps = v1_steps() + v2_steps();
    assert(plan_from(1) == Some(steps));
    let s1 = Structure { error_log: true, ..s };
    let s2 = Structure { conversation: true, ..s1 };
    let s3 = Structure { message: true, ..s2 };
    let s4 = Structure { config: true, ..s3 };
    let s5 = Structure { topic: true, ..s4 };
    let s6 = Structure { version: Some(2u64), ..s5 };
    let t1 = steps.drop_first();
    let t2 = t1.drop_first();
    let t3 = t2.drop_first();
    let t4 = t3.drop_first();
    let t5 = t4.drop_first();
    let t6 = t5.drop_first();
    assert(t6.len() == 0);
    assert(after_steps(t6, s6) == Some(s6));
    assert(after_steps(t5, s5) == Some(s6));
    assert(after_steps(t4, s4) == Some(s6));
    assert(after_steps(t3, s3) == Some(s6));
    assert(after_steps(t2, s2) == Some(s6));
    assert(after_steps(t1, s1) == Some(s6));
    assert(after_steps(steps, s) == Some(s6));
    assert(s6 == latest_structure());
}

/// An empty store and a store at version 1 converge to the same state, the
/// latest structure.
pub proof fn lemma_convergence_from_fresh_and_v1()
    ensures
        converged(fresh_structure()) == Some(latest_structure()),
        converged(v1_structure()) == Some(latest_structure()),
{
    lemma_convergence_reaches_latest(fresh_structure());
    lemma_convergence_reaches_latest(v1_structure());
}

/// Wherever convergence succeeds it ends at the latest structure, and there
/// it plans nothing: a second run is a no-op.
pub proof fn lemma_convergence_idempotent(s: Structure)
    requires
        converged(s) is Some,
    ensures
        detected(converged(s)->0) == Some(LATEST_VERSION),
        plan_from(LATEST_VERSION) == Some(Seq::<MigrationStep>::empty()),
        converged(converged(s)->0) == converged(s),
{
    if detected(s) == Some(1u64) {
        let steps = v1_steps() + v2_steps();
        assert(plan_from(1) == Some(steps));
        let t1 = steps.drop_first();
        let t2 = t1.drop_first();
        let t3 = t2.drop_first();
        let t4 = t3.drop_first();
        let t5 = t4.drop_first();
        let s1 = Structure { error_log: true, ..s };
        let s2 = Structure { conversation: true, ..s1 };
        let s3 = Structure { message: true, ..s2 };
        let s4 = Structure { config: true, ..s3 };
        assert(after_steps(steps, s) == after_steps(t1, s1));
        assert(after_steps(t1, s1) == after_steps(t2, s2));
        assert(after_steps(t2, s2) == after_steps(t3, s3));
        assert(after_steps(t3, s3) == after_steps(t4, s4));
        assert(after_step(t4[0], s4) is Some);
        let s5 = Structure { topic: true, ..s4 };
        assert(after_steps(t4, s4) == after_steps(t5, s5));
        assert(after_step(t5[0], s5) is Some);
        assert(predates_config(s));
        lemma_convergence_reaches_latest(s);
    }
    assert(after_steps(Seq::<MigrationStep>::empty(), converged(s)->0) == converged(s));
}

/// A plan records versions one after the other: the only version that a plan
/// from version 1 records is version 2, after every other step.
pub proof fn lemma_plan_advances_by_one(version: u64)
    requires
        plan_from(version) is Some,
    ensures
        forall|i: int|
            0 <= i < plan_from(version)->0.len() ==> (#[trigger] plan_from(version)->0[i]
                matches MigrationStep::RecordVersion(v) ==> v == version + 1 && i
                == plan_from(version)->0.len() - 1),
{
}

/// A version of the schema.
pub trait Schema {
    /// The number of this version.
    spec fn number() -> u64;

    /// The number of this version.
    fn version() -> (v: u64)
        ensures
            v == Self::number(),
    ;

    /// Brings the store behind `conn` to this version. The result is `Ok(0)`
    /// or the first failure: a failure of the engine, or a schema version
    /// that cannot be read or is not known.
    fn init_current_schema(conn: &rusqlite::Connection) -> (done: Result<usize, StoreError>)
        ensures
            done is Ok ==> done->Ok_0 == 0,
            done is Err ==> done->Err_0 is Engine || done->Err_0 is MissingVersion
                || done->Err_0 is UnknownVersion,
    ;
}

/// Version 1: conversations, messages and the error log.
pub struct SchemaV1;

/// Version 2: the schema state table and the topic of a conversation.
pub struct SchemaV2;

/// The statement that carries out a step.
pub fn step_sql(step: MigrationStep) -> (sql: &'static str)
    ensures
        sql@ == step_sql_text(step),
{
    match step {
        MigrationStep::CreateErrorLog => CREATE_ERROR_LOG_SQL,
        MigrationStep::CreateConversation => CREATE_CONVERSATION_SQL,
        MigrationStep::CreateMessage => CREATE_MESSAGE_SQL,
        MigrationStep::CreateConfig => CREATE_CONFIG_SQL,
        MigrationStep::AddConversationTopic => ADD_CONVERSATION_TOPIC_SQL,
        MigrationStep::RecordVersion(_) => RECORD_VERSION_SQL,
    }
}

/// The text of the statement that carries out a step.
pub open spec fn step_sql_text(step: MigrationStep) -> Seq<char> {
    match step {
        MigrationStep::CreateErrorLog => CREATE_ERROR_LOG_SQL@,
        MigrationStep::CreateConversation => CREATE_CONVERSATION_SQL@,
        MigrationStep::CreateMessage => CREATE_MESSAGE_SQL@,
        MigrationStep::CreateConfig => CREATE_CONFIG_SQL@,
        MigrationStep::AddConversationTopic => ADD_CONVERSATION_TOPIC_SQL@,
        MigrationStep::RecordVersion(_) => RECORD_VERSION_SQL@,
    }
}

/// The values bound to the statement of a step: the version for the step that
/// records one, nothing for the others.
pub open spec fn step_params(step: MigrationStep) -> Seq<SqlParamView> {
    match step {
        MigrationStep::RecordVersion(v) => seq![SqlParamView::Integer(v as int)],
        _ => Seq::empty(),
    }
}

/// The values to bind to the statement of a step.
pub fn step_values(step: MigrationStep) -> (params: Vec<SqlParam>)
    ensures
        param_views(params@) == step_params(step),
{
    let params = match step {
        MigrationStep::RecordVersion(v) => vec![SqlParam::Integer(v as i64)],
        _ => Vec::new(),
    };
    assert(param_views(params@) =~= step_params(step));
    params
}

/// The steps from a detected version to the latest one, in the order in which
/// they are applied, or `None` for a version that this library does not know.
pub fn migration_plan(version: u64) -> (plan: Option<Vec<MigrationStep>>)
    ensures
        plan is Some <==> plan_from(version) is Some,
        plan is Some ==> plan->0@ == plan_from(version)->0,
        plan is Some <==> version == 1 || version == LATEST_VERSION,
{
    if version == LATEST_VERSION {
        Some(Vec::new())
    } else if version == 1 {
        let steps = vec![
            MigrationStep::CreateErrorLog,
            MigrationStep::CreateConversation,
            MigrationStep::CreateMessage,
            MigrationStep::CreateConfig,
            MigrationStep::AddConversationTopic,
            MigrationStep::RecordVersion(2),
        ];
        assert(steps@ =~= v1_steps() + v2_steps());
        Some(steps)
    } else {
        None
    }
}

/// Whether a count of tables, as the engine returned it, says that the table
/// is there: the first row holds a positive number.
pub fn counted_some(counts: &Vec<i64>) -> (found: bool)
    ensures
        found == (counts@.len() > 0 && counts@[0] > 0),
{
    counts.len() > 0 && counts[0] > 0
}

/// Whether a table is there, from the engine's answer to the count of tables
/// of its name. A failed count is a failure, not a "no".
pub fn table_found(counted: Result<Vec<i64>, StoreError>) -> (found: Result<bool, StoreError>)
    ensures
        counted is Err ==> found == Err::<bool, StoreError>(counted->Err_0),
        counted is Ok ==> found == Ok::<bool, StoreError>(
            counted->Ok_0@.len() > 0 && counted->Ok_0@[0] > 0,
        ),
{
    match counted {
        Ok(counts) => Ok(counted_some(&counts)),
        Err(error) => Err(error),
    }
}

/// Whether the store has a table of this name. A failed query counts as "no".
pub fn table_exists(conn: &rusqlite::Connection, table_name: &str) -> (found: bool) {
    let params = vec![table_name.to_owned()];
    match query_integers(conn, TABLE_COUNT_SQL, &params) {
        Ok(counts) => counted_some(&counts),
        Err(_) => false,
    }
}

/// The version that a store is at, from whether it has the schema state table
/// and from what the table holds.
pub open spec fn version_read(config_exists: bool, stored: Seq<i64>) -> Result<u64, StoreError> {
    if !config_exists {
        Ok(1u64)
    } else if stored.len() == 0 {
        Err(StoreError::MissingVersion)
    } else if stored[0] < 0 {
        Err(StoreError::UnknownVersion(stored[0]))
    } else {
        Ok(stored[0] as u64)
    }
}

/// The steps that convergence applies to a store, from what detection found
/// in it.
pub open spec fn steps_planned(config_exists: bool, stored: Seq<i64>) -> Result<
    Seq<MigrationStep>,
    StoreError,
> {
    match version_read(config_exists, stored) {
        Ok(version) => match plan_from(version) {
            Some(steps) => Ok(steps),
            None => Err(StoreError::UnknownVersion(stored[0])),
        },
        Err(error) => Err(error),
    }
}

/// The numbers that the schema state table of a store holds: its version, if
/// it has one.
pub open spec fn stored_versions(s: Structure) -> Seq<i64> {
    match s.version {
        Some(v) => seq![v as i64],
        None => Seq::empty(),
    }
}

/// Planning from what is read off a store agrees with the model of
/// convergence: the steps planned are those from the detected version, and
/// applying them gives what convergence makes of the store.
pub proof fn lemma_planning_agrees(s: Structure)
    requires
        s.version is Some ==> s.version->0 <= i64::MAX,
    ensures
        version_read(s.config, stored_versions(s)) is Ok <==> detected(s) is Some,
        detected(s) is Some ==> version_read(s.config, stored_versions(s)) == Ok::<u64, StoreError>(
            detected(s)->0,
        ),
        steps_planned(s.config, stored_versions(s)) is Ok <==> detected(s) is Some && plan_from(
            detected(s)->0,
        ) is Some,
        steps_planned(s.config, stored_versions(s)) is Ok ==> converged(s) == after_steps(
            steps_planned(s.config, stored_versions(s))->Ok_0,
            s,
        ),
{
}

/// Decides the version of a store. Without the schema state table the store
/// is at version 1. With it, the first stored number is the version; a table
/// without a row, or with a negative number, is an error.
pub fn detect_version(config_exists: bool, stored: &Vec<i64>) -> (version: Result<u64, StoreError>)
    ensures
        version == version_read(config_exists, stored@),
{
    if !config_exists {
        Ok(1)
    } else if stored.len() == 0 {
        Err(StoreError::MissingVersion)
    } else if stored[0] < 0 {
        Err(StoreError::UnknownVersion(stored[0]))
    } else {
        Ok(stored[0] as u64)
    }
}

/// Plans convergence from what detection found: the steps from the detected
/// version to the latest, nothing at the latest version, and an error for a
/// version that cannot be read or is not known.
pub fn plan_convergence(config_exists: bool, stored: &Vec<i64>) -> (plan: Result<
    Vec<MigrationStep>,
    StoreError,
>)
    ensures
        plan is Ok <==> steps_planned(config_exists, stored@) is Ok,
        plan is Ok ==> plan->Ok_0@ == steps_planned(config_exists, stored@)->Ok_0,
        plan is Err ==> plan->Err_0 == steps_planned(config_exists, stored@)->Err_0,
{
    match detect_version(config_exists, stored) {
        Ok(version) => match migration_plan(version) {
            Some(steps) => Ok(steps),
            None => Err(StoreError::UnknownVersion(stored[0])),
        },
        Err(error) => Err(error),
    }
}

/// Carries out the steps in order and stops at the first failure, which is
/// the engine's. Without steps nothing reaches the engine and nothing fails.
fn apply_steps(conn: &rusqlite::Connection, steps: &Vec<MigrationStep>) -> (done: Result<
    usize,
    StoreError,
>)
    ensures
        done is Ok ==> done->Ok_0 == 0,
        done is Err ==> done->Err_0 is Engine,
        steps@.len() == 0 ==> done is Ok,
{
    let mut next: usize = 0;
    while next < steps.len()
        invariant
            next <= steps.len(),
        decreases steps.len() - next,
    {
        let step = steps[next];
        let params = step_values(step);
        match execute(conn, step_sql(step), &params) {
            Ok(_) => {},
            Err(error) => {
                return Err(StoreError::from_engine(&error));
            },
        }
        next = next + 1;
    }
    Ok(0)
}

/// What detection reads from the store: whether the schema state table
/// exists, and the versions that it holds. Where the table does not exist no
/// version is read. A failure of either query is a failure of the reading.
fn read_schema_state(conn: &rusqlite::Connection) -> (state: Result<(bool, Vec<i64>), StoreError>)
    ensures
        state is Err ==> state->Err_0 is Engine,
        state is Ok && !state->Ok_0.0 ==> state->Ok_0.1@.len() == 0,
{
    let name = vec!["config".to_owned()];
    let counted = match query_integers(conn, TABLE_COUNT_SQL, &name) {
        Ok(counts) => Ok(counts),
        Err(error) => Err(StoreError::from_engine(&error)),
    };
    if table_found(counted)? {
        let none: Vec<String> = Vec::new();
        match query_integers(conn, STORED_VERSION_SQL, &none) {
            Ok(stored) => Ok((true, stored)),
            Err(error) => Err(StoreError::from_engine(&error)),
        }
    } else {
        Ok((false, Vec::new()))
    }
}

impl SchemaV2 {
    /// Reads the version that the store is at.
    pub fn check_schema_version(conn: &rusqlite::Connection) -> (version: Result<u64, StoreError>)
        ensures
            version is Err ==> version->Err_0 is Engine || version->Err_0 is MissingVersion
                || version->Err_0 is UnknownVersion,
    {
        let (config_exists, stored) = read_schema_state(conn)?;
        detect_version(config_exists, &stored)
    }
}

impl Schema for SchemaV1 {
    open spec fn number() -> u64 {
        1
    }

    fn version() -> (v: u64) {
        1
    }

    /// Creates the three tables of version 1 unless they exist. Only the
    /// engine can fail here.
    fn init_current_schema(conn: &rusqlite::Connection) -> (done: Result<usize, StoreError>)
        ensures
            done is Err ==> done->Err_0 is Engine,
    {
        let steps = vec![
            MigrationStep::CreateErrorLog,
            MigrationStep::CreateConversation,
            MigrationStep::CreateMessage,
        ];
        apply_steps(conn, &steps)
    }
}

impl Schema for SchemaV2 {
    open spec fn number() -> u64 {
        2
    }

    fn version() -> (v: u64) {
        2
    }

    /// Converges the store: detects its version, plans the steps to the
    /// latest version and applies them one by one. At the latest version
    /// nothing is applied. Before that, the connection is told to enforce
    /// foreign keys, so that a message for a conversation that does not
    /// exist is refused.
    fn init_current_schema(conn: &rusqlite::Connection) -> (done: Result<usize, StoreError>) {
        let none: Vec<SqlParam> = Vec::new();
        match execute(conn, PRAGMA_FOREIGN_KEYS_SQL, &none) {
            Ok(_) => {},
            Err(error) => {
                return Err(StoreError::from_engine(&error));
            },
        }
        let (config_exists, stored) = read_schema_state(conn)?;
        let steps = plan_convergence(config_exists, &stored)?;
        apply_steps(conn, &steps)
    }
}

/// Brings the store behind `conn` to the latest schema version. The result is
/// `Ok(0)` or the first failure: a failure of the engine, or a schema version
/// that cannot be read or is not known.
pub fn init_schemas(conn: &rusqlite::Connection) -> (done: Result<usize, StoreError>)
    ensures
        done is Ok ==> done->Ok_0 == 0,
        done is Err ==> done->Err_0 is Engine || done->Err_0 is MissingVersion
            || done->Err_0 is UnknownVersion,
{
    SchemaV2::init_current_schema(conn)
}

} // verus!
