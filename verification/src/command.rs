//! The commands that are answered by one request to the daemon.

use vstd::prelude::*;
use crate::json::Json;

verus! {

/// A value of `--wiki-paths`: the argument, and what it is as JSON where it
/// is JSON.
pub struct WikiPaths {
    pub raw: String,
    pub parsed: Option<Json>,
}

pub enum ProjectAction {
    Create { name: String, description: Option<String>, cwd: Option<String>, key: Option<String> },
    View { id: String },
    List,
    Update {
        id: String,
        name: Option<String>,
        description: Option<String>,
        wiki_paths: Option<WikiPaths>,
    },
    Delete { id: String },
    Disable { id: String },
    Enable { id: String },
    /// The directory is absolute.
    Resolve { cwd: String },
    CwdAdd { id: String, path: Option<String> },
    CwdRemove { id: String, path: String },
    CwdList { id: String },
}

pub enum PlanAction {
    Create {
        title: String,
        project: String,
        description: Option<String>,
        source: String,
        source_path: Option<String>,
    },
    View { id: String },
    List { project: Option<String>, status: Option<String> },
    Update {
        id: String,
        title: Option<String>,
        description: Option<String>,
        status: Option<String>,
    },
    Delete { id: String },
    Approve { id: String },
    Complete { id: String },
    Import {
        file: String,
        project: Option<String>,
        cwd: Option<String>,
        source: String,
        dry_run: bool,
    },
    /// The import that sends the content of the file along.
    ImportStrict {
        content: String,
        project: Option<String>,
        cwd: Option<String>,
        dry_run: bool,
    },
}

pub enum UnitAction {
    Create { title: String, plan: String, goal: Option<String>, idx: Option<i64>, mode: String },
    View { id: String },
    List { plan: Option<String> },
    Update { id: String, title: Option<String>, goal: Option<String>, mode: Option<String> },
    Delete { id: String },
}

pub enum CycleAction {
    Create {
        title: String,
        project: String,
        unit: String,
        goal: Option<String>,
        idx: Option<i64>,
    },
    View { id: String },
    List { project: Option<String>, status: Option<String> },
    Update { id: String, title: Option<String>, goal: Option<String>, status: Option<String> },
    Delete { id: String },
    Activate { id: String },
    Complete { id: String },
}

pub enum TaskAction {
    Create {
        title: String,
        unit: Option<String>,
        body: Option<String>,
        assignee: Option<String>,
        idx: Option<i64>,
        depends_on: Vec<String>,
        parent_task: Option<String>,
        priority: String,
        complexity: Option<String>,
        estimated_edits: Option<i64>,
        cycle: Option<String>,
        kind: String,
        label: Vec<String>,
        tier: Option<String>,
        scenario_id: Option<String>,
        evidence: Option<String>,
        batch_id: Option<String>,
    },
    View { id: String },
    List {
        unit: Option<String>,
        plan: Option<String>,
        project: Option<String>,
        status: Option<String>,
        agent_id: Option<String>,
        cycle: Option<String>,
        no_cycle: bool,
        label: Option<String>,
        tier: Option<String>,
        scenario_id: Option<String>,
        batch_id: Option<String>,
        evidence_empty: bool,
        limit: Option<i64>,
        offset: Option<i64>,
    },
    Update {
        id: String,
        title: Option<String>,
        body: Option<String>,
        status: Option<String>,
        assignee: Option<String>,
        session_id: Option<String>,
        agent: String,
        priority: Option<String>,
        complexity: Option<String>,
        estimated_edits: Option<i64>,
        parent_task: Option<String>,
        cycle: Option<String>,
        agent_id: Option<String>,
        comment: Option<String>,
        tier: Option<String>,
        scenario_id: Option<String>,
        evidence: Option<String>,
        batch_id: Option<String>,
    },
    Delete { id: String },
    AppendBody { id: String, text: String },
    Search { query: String, mode: String, limit: u32 },
    Complete { id: String, evidence: String, comment: Option<String>, agent: String },
    Cancel { id: String, reason: Option<String>, agent: String },
    Block { id: String, reason: Option<String>, agent: String },
    Unblock { id: String, comment: Option<String>, agent: String },
    Ancestors { id: String, depth: u32, no_envelope: bool, format: String },
    Descendants { id: String, depth: u32, order: String, no_envelope: bool, format: String },
    Stats { batch_id: String },
}

pub enum ArtifactAction {
    Create {
        title: String,
        kind: String,
        task: Option<String>,
        unit: Option<String>,
        plan: Option<String>,
        content: Option<String>,
        content_format: String,
        parent: Option<String>,
    },
    View { id: String },
    Update {
        id: String,
        title: Option<String>,
        content: Option<String>,
        content_format: Option<String>,
        created_by: Option<String>,
    },
    List {
        task: Option<String>,
        unit: Option<String>,
        plan: Option<String>,
        kind: Option<String>,
    },
    Delete { id: String },
    Search { query: String, mode: String, kind: Option<String>, limit: u32 },
    Import { cwd: String, plan: Option<String>, unit: Option<String>, dry_run: bool },
    Export { cwd: String, plan: Option<String>, unit: Option<String> },
}

pub enum RunAction {
    Start { task: String, session_id: Option<String>, agent: String },
    Finish { id: String, result: String, notes: Option<String> },
    View { id: String },
    List { task: Option<String>, session_id: Option<String> },
}

pub enum CommentAction {
    Create {
        body: String,
        task: Option<String>,
        unit: Option<String>,
        plan: Option<String>,
        author: String,
        label: Option<String>,
    },
    List { task: Option<String>, unit: Option<String>, plan: Option<String> },
    Delete { id: String },
    Update { id: String, body: String },
}

pub enum QuestionAction {
    Create {
        body: String,
        plan: Option<String>,
        unit: Option<String>,
        task: Option<String>,
        kind: String,
        origin: String,
        asked_by: String,
    },
    Answer { id: String, text: String, by: String },
    View { id: String },
    List {
        plan: Option<String>,
        unit: Option<String>,
        task: Option<String>,
        pending: Option<bool>,
    },
}

pub enum ConfigAction {
    Get { key: String },
    Assign { key: String, value: String },
    Unset { key: String },
    List,
}

pub enum DiscoverAction {
    Start {
        project: String,
        domain: String,
        round: u32,
        areas: Vec<String>,
        description: Option<String>,
    },
    NextRound {
        previous_plan: String,
        domain: Option<String>,
        areas: Option<Vec<String>>,
        round: Option<u32>,
    },
    DispatchPlan { plan: String, batch_size: u32 },
    /// With the content of the file.
    VerifyTsv { tsv: String },
    BatchId,
    /// With the content of the file.
    Sync { tsv: String, unit: String, cycle: String, assignee: Option<String> },
    Status { plan: Option<String>, project: Option<String> },
    Converged { plan: Option<String>, project: Option<String> },
    Rounds { project: String },
}

/// A command that is answered by one request to the daemon.
pub enum Command {
    /// The directory is absolute.
    Dashboard { cwd: String, show: String },
    Project { action: ProjectAction },
    Plan { action: PlanAction },
    Unit { action: UnitAction },
    Cycle { action: CycleAction },
    Task { action: TaskAction },
    Knowledge { action: ArtifactAction },
    Run { action: RunAction },
    Comment { action: CommentAction },
    Question { action: QuestionAction },
    Timeline { project: Option<String> },
    Board { project: Option<String> },
    Wiki { project: Option<String> },
    Summary { project: Option<String> },
    /// Follows the daemon's events.
    Watch {
        project: Option<String>,
        task: Option<String>,
        cycle: Option<String>,
        format: String,
    },
    Replay { task: String, limit: u32 },
    Backup { output: Option<String>, project: Option<String> },
    Restore { input: String, merge: bool, dry_run: bool },
    Migrate { dry_run: bool },
    Config { action: ConfigAction },
    Update { dry_run: bool, version: Option<String> },
    VersionCheck,
    FindSimilar { query: String, limit: u32, project: Option<String> },
    GetTaskContext { id: String },
    GetRecentDecisions { project: Option<String>, limit: u32 },
    DiscoverLoop { action: DiscoverAction },
}

} // verus!
