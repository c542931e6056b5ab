//! The runtimes that the program works with.

use vstd::prelude::*;
use crate::agent::Agent;
use crate::json::{
    array, empty_object, object, opt_ref, or_null, text, text_or_null, views, Json, JsonView,
};

verus! {

#[derive(Clone, Copy, Debug, PartialEq, Eq, Structural)]
pub enum RuntimeName {
    Claude,
    Codex,
}

/// What a runtime supports.
pub open spec fn supports(
    activity_stream_capture: bool,
    subagent_lifecycle_hook: bool,
    plan_mode_bridge: bool,
) -> JsonView {
    empty_object().with("session_start_context"@, JsonView::Bool(true)).with(
        "per_turn_context"@,
        JsonView::Bool(true),
    ).with("hard_pre_mutation_block"@, JsonView::Bool(true)).with(
        "activity_stream_capture"@,
        JsonView::Bool(activity_stream_capture),
    ).with("subagent_lifecycle_hook"@, JsonView::Bool(subagent_lifecycle_hook)).with(
        "plan_mode_bridge"@,
        JsonView::Bool(plan_mode_bridge),
    ).with("session_stop_hook"@, JsonView::Bool(true))
}

fn supports_json(
    activity_stream_capture: bool,
    subagent_lifecycle_hook: bool,
    plan_mode_bridge: bool,
) -> (r: Json)
    ensures
        r@ == supports(activity_stream_capture, subagent_lifecycle_hook, plan_mode_bridge),
{
    object().with("session_start_context", Json::Bool(true)).with(
        "per_turn_context",
        Json::Bool(true),
    ).with("hard_pre_mutation_block", Json::Bool(true)).with(
        "activity_stream_capture",
        Json::Bool(activity_stream_capture),
    ).with("subagent_lifecycle_hook", Json::Bool(subagent_lifecycle_hook)).with(
        "plan_mode_bridge",
        Json::Bool(plan_mode_bridge),
    ).with("session_stop_hook", Json::Bool(true))
}

/// A runtime in the list of runtimes.
pub open spec fn runtime_entry(name: Seq<char>, kind: Seq<char>, supported: JsonView) -> JsonView {
    empty_object().with("name"@, JsonView::Text(name)).with("kind"@, JsonView::Text(kind)).with(
        "supports"@,
        supported,
    )
}

/// The runtimes, and what each supports.
pub fn list_runtimes(a: &Agent) -> (r: Json)
    ensures
        r@ == JsonView::Array(
            seq![
                runtime_entry(a.id@, "plugin"@, supports(true, true, true)),
                runtime_entry("codex"@, "user-installed plugin"@, supports(false, false, false)),
            ],
        ),
{
    let mut out: Vec<Json> = Vec::new();
    out.push(
        object().with("name", text(a.id.as_str())).with("kind", text("plugin")).with(
            "supports",
            supports_json(true, true, true),
        ),
    );
    out.push(
        object().with("name", text("codex")).with("kind", text("user-installed plugin")).with(
            "supports",
            supports_json(false, false, false),
        ),
    );
    assert(views(out@) =~= seq![
        runtime_entry(a.id@, "plugin"@, supports(true, true, true)),
        runtime_entry("codex"@, "user-installed plugin"@, supports(false, false, false)),
    ]);
    array(out)
}

/// What is found of the agent that the program is a plugin of.
pub struct PluginFacts {
    pub plugin_root: Option<String>,
    pub data_dir: String,
    pub config_dir: String,
    pub state_dir: String,
    pub manifest_exists: bool,
    pub hooks_exists: bool,
    pub shared_adapter_exists: bool,
}

/// The health of the agent that the program is a plugin of.
pub open spec fn plugin_json(f: PluginFacts, a: Agent) -> JsonView {
    empty_object().with("runtime"@, JsonView::Text(a.id@)).with(
        "ok"@,
        JsonView::Bool(true),
    ).with("plugin_root"@, text_or_null(crate::scan::opt_string(f.plugin_root))).with(
        "data_dir"@,
        JsonView::Text(f.data_dir@),
    ).with("config_dir"@, JsonView::Text(f.config_dir@)).with(
        "state_dir"@,
        JsonView::Text(f.state_dir@),
    ).with("manifest_exists"@, JsonView::Bool(f.manifest_exists)).with(
        "hooks_exists"@,
        JsonView::Bool(f.hooks_exists),
    ).with("shared_adapter_exists"@, JsonView::Bool(f.shared_adapter_exists))
}

/// The health of the agent that the program is a plugin of.
pub fn doctor(f: &PluginFacts, a: &Agent) -> (r: Json)
    ensures
        r@ == plugin_json(*f, *a),
{
    object().with("runtime", text(a.id.as_str())).with("ok", Json::Bool(true)).with(
        "plugin_root",
        or_null(opt_ref(&f.plugin_root)),
    ).with("data_dir", text(f.data_dir.as_str())).with(
        "config_dir",
        text(f.config_dir.as_str()),
    ).with("state_dir", text(f.state_dir.as_str())).with(
        "manifest_exists",
        Json::Bool(f.manifest_exists),
    ).with("hooks_exists", Json::Bool(f.hooks_exists)).with(
        "shared_adapter_exists",
        Json::Bool(f.shared_adapter_exists),
    )
}

} // verus!
