//! The plugin for the Codex runtime: its settings, its session and its state.

use vstd::prelude::*;
use crate::config::{
    compatible, is_blank, is_header, is_key, remove_section, section, section_bounds, setting,
    settings, settings_are_compatible, upsert_edits_only_the_section, upsert_section, upserted,
    without_section,
};
use crate::json::{
    empty_object, object, opt_ref, opt_text, or_null, text, text_or_null, views, Json, JsonView,
};
use crate::paths::{join_path, joined_path};
use crate::query::{percent_encoded, urlencoding};
use crate::request::{get, getting, post, posting, Request, RequestView};
use crate::scan::{
    contains, lines, lines_of, occurs_at, occurs_in, opt_string, trim, trim_end, trim_start,
    trimmed,
};
use crate::text::{
    cat2, cat3, cat5, is_white, join, joined, joined_upto, texts, texts_push,
};

verus! {

/// The file that describes the session.
pub fn session_file(codex_dir: &str) -> (r: String)
    ensures
        r@ == joined_path(codex_dir@, "session.json"@),
{
    join_path(codex_dir, "session.json")
}

/// The file with the text that the session began with.
pub fn prompt_file(codex_dir: &str) -> (r: String)
    ensures
        r@ == joined_path(codex_dir@, "session-context.md"@),
{
    join_path(codex_dir, "session-context.md")
}

/// Where the plugin is installed.
pub open spec fn plugin_root(codex_home: Seq<char>) -> Seq<char> {
    joined_path(
        joined_path(
            joined_path(
                joined_path(joined_path(codex_home, "plugins"@), "cache"@),
                "clawket-local"@,
            ),
            "clawket"@,
        ),
        "local"@,
    )
}

/// Where the plugin is installed.
pub fn installed_plugin_root(codex_home: &str) -> (r: String)
    ensures
        r@ == plugin_root(codex_home@),
{
    let a = join_path(codex_home, "plugins");
    let b = join_path(a.as_str(), "cache");
    let c = join_path(b.as_str(), "clawket-local");
    let d = join_path(c.as_str(), "clawket");
    join_path(d.as_str(), "local")
}

/// A file of the project, where its root is known.
pub fn root_file(project_root: Option<&str>, rel: &str) -> (r: Option<String>)
    ensures
        opt_string(r) == match project_root {
            Some(root) => Some(joined_path(root@, rel@)),
            None => None,
        },
{
    match project_root {
        Some(root) => Some(join_path(root, rel)),
        None => None,
    }
}

/// The text of a settings file.
pub open spec fn file_text(lines: Seq<Seq<char>>) -> Seq<char> {
    let content = joined(lines, "\n"@);
    if content.len() > 0 {
        content + "\n"@
    } else {
        content
    }
}

/// The lines of a settings file.
pub fn read_user_config_lines(content: &str) -> (r: Vec<String>)
    ensures
        texts(r@) == lines_of(content@),
{
    lines(content)
}

/// The text of a settings file.
pub fn write_user_config_lines(lines: &Vec<String>) -> (r: String)
    ensures
        r@ == file_text(texts(lines@)),
{
    let content = join(lines, "\n");
    if content.as_str().is_empty() {
        content
    } else {
        cat2(content.as_str(), "\n")
    }
}

/// The settings that switch plugins and hooks on.
pub open spec fn feature_settings() -> Seq<Seq<char>> {
    seq!["plugins = true"@, "codex_hooks = true"@]
}

/// The settings that register the project as a source of plugins.
pub open spec fn marketplace_settings(root: Seq<char>, updated: Seq<char>) -> Seq<Seq<char>> {
    seq![
        "last_updated = \""@ + updated + "\""@,
        "source_type = \"local\""@,
        "source = \""@ + root + "\""@,
    ]
}

/// The settings that switch the plugin on.
pub open spec fn plugin_settings() -> Seq<Seq<char>> {
    seq!["enabled = true"@]
}

/// The settings file after the plugin was installed.
pub open spec fn installed_lines(
    lines: Seq<Seq<char>>,
    root: Seq<char>,
    updated: Seq<char>,
) -> Seq<Seq<char>> {
    upserted(
        upserted(
            upserted(lines, "[features]"@, feature_settings()),
            "[marketplaces.clawket-local]"@,
            marketplace_settings(root, updated),
        ),
        "[plugins.\"clawket@clawket-local\"]"@,
        plugin_settings(),
    )
}

/// The settings file after the plugin was taken out.
pub open spec fn uninstalled_lines(lines: Seq<Seq<char>>) -> Seq<Seq<char>> {
    without_section(
        without_section(lines, "[marketplaces.clawket-local]"@),
        "[plugins.\"clawket@clawket-local\"]"@,
    )
}

/// Enters the plugin into the settings. `updated` says when.
pub fn install_lines(lines: &mut Vec<String>, root: &str, updated: &str)
    ensures
        texts(final(lines)@) == installed_lines(texts(old(lines)@), root@, updated@),
{
    let mut features: Vec<String> = Vec::new();
    features.push("plugins = true".to_owned());
    features.push("codex_hooks = true".to_owned());
    assert(texts(features@) =~= feature_settings());
    upsert_section(lines, "[features]", &features);
    let mut market: Vec<String> = Vec::new();
    market.push(cat3("last_updated = \"", updated, "\""));
    market.push("source_type = \"local\"".to_owned());
    market.push(cat3("source = \"", root, "\""));
    assert(texts(market@) =~= marketplace_settings(root@, updated@));
    upsert_section(lines, "[marketplaces.clawket-local]", &market);
    let mut plugin: Vec<String> = Vec::new();
    plugin.push("enabled = true".to_owned());
    assert(texts(plugin@) =~= plugin_settings());
    upsert_section(lines, "[plugins.\"clawket@clawket-local\"]", &plugin);
}

/// Takes the plugin out of the settings.
pub fn uninstall_lines(lines: &mut Vec<String>)
    ensures
        texts(final(lines)@) == uninstalled_lines(texts(old(lines)@)),
{
    remove_section(lines, "[marketplaces.clawket-local]");
    remove_section(lines, "[plugins.\"clawket@clawket-local\"]");
}

/// What is found of the installation.
pub struct InstallFacts {
    pub codex_home: String,
    pub user_config_path: String,
    pub project_root: Option<String>,
    /// The settings file, empty where there is none.
    pub config: String,
    /// The plugin's manifest lies in the cache.
    pub plugin_cached: bool,
}

/// Hooks are switched on.
pub open spec fn hooks_enabled(config: Seq<char>) -> bool {
    occurs_in(config, "[features]"@) && occurs_in(config, "codex_hooks = true"@)
}

/// The project is registered as a source of plugins.
pub open spec fn is_registered(config: Seq<char>, root: Option<Seq<char>>) -> bool {
    match root {
        Some(r) => occurs_in(config, "[marketplaces.clawket-local]"@) && r.len() > 0 && occurs_in(
            config,
            "source = \""@ + r + "\""@,
        ),
        None => false,
    }
}

/// The plugin is switched on.
pub open spec fn is_plugin_enabled(config: Seq<char>) -> bool {
    occurs_in(config, "[plugins.\"clawket@clawket-local\"]"@) && occurs_in(
        config,
        "enabled = true"@,
    )
}

/// The state of the installation.
pub open spec fn state_json(f: InstallFacts) -> JsonView {
    empty_object().with("codex_home"@, JsonView::Text(f.codex_home@)).with(
        "user_config_path"@,
        JsonView::Text(f.user_config_path@),
    ).with("project_root"@, text_or_null(opt_string(f.project_root))).with(
        "hook_feature_enabled"@,
        JsonView::Bool(hooks_enabled(f.config@)),
    ).with(
        "marketplace_registered"@,
        JsonView::Bool(is_registered(f.config@, opt_string(f.project_root))),
    ).with("plugin_enabled"@, JsonView::Bool(is_plugin_enabled(f.config@))).with(
        "plugin_cached"@,
        JsonView::Bool(f.plugin_cached),
    )
}

fn hooks_on(config: &str) -> (r: bool)
    ensures
        r == hooks_enabled(config@),
{
    contains(config, "[features]") && contains(config, "codex_hooks = true")
}

fn registered(config: &str, root: Option<&str>) -> (r: bool)
    ensures
        r == is_registered(config@, opt_text(root)),
{
    match root {
        Some(p) => {
            let source = cat3("source = \"", p, "\"");
            contains(config, "[marketplaces.clawket-local]") && !p.is_empty() && contains(
                config,
                source.as_str(),
            )
        },
        None => false,
    }
}

fn plugin_on(config: &str) -> (r: bool)
    ensures
        r == is_plugin_enabled(config@),
{
    contains(config, "[plugins.\"clawket@clawket-local\"]") && contains(config, "enabled = true")
}

/// The state of the installation.
pub fn installation_state(f: &InstallFacts) -> (r: Json)
    ensures
        r@ == state_json(*f),
{
    let config = f.config.as_str();
    object().with("codex_home", text(f.codex_home.as_str())).with(
        "user_config_path",
        text(f.user_config_path.as_str()),
    ).with("project_root", or_null(opt_ref(&f.project_root))).with(
        "hook_feature_enabled",
        Json::Bool(hooks_on(config)),
    ).with(
        "marketplace_registered",
        Json::Bool(registered(config, opt_ref(&f.project_root))),
    ).with("plugin_enabled", Json::Bool(plugin_on(config))).with(
        "plugin_cached",
        Json::Bool(f.plugin_cached),
    )
}

/// The report after the plugin was installed.
pub fn install_report(root: &str, user_config_path: &str, cache_root: &str) -> (r: Json)
    ensures
        r@ == empty_object().with("runtime"@, JsonView::Text("codex"@)).with(
            "installed"@,
            JsonView::Bool(true),
        ).with("project_root"@, JsonView::Text(root@)).with(
            "user_config_path"@,
            JsonView::Text(user_config_path@),
        ).with("marketplace"@, JsonView::Text("clawket-local"@)).with(
            "plugin"@,
            JsonView::Text("clawket@clawket-local"@),
        ).with("plugin_cache_root"@, JsonView::Text(cache_root@)),
{
    object().with("runtime", text("codex")).with("installed", Json::Bool(true)).with(
        "project_root",
        text(root),
    ).with("user_config_path", text(user_config_path)).with(
        "marketplace",
        text("clawket-local"),
    ).with("plugin", text("clawket@clawket-local")).with("plugin_cache_root", text(cache_root))
}

/// The report after the plugin was taken out.
pub fn uninstall_report(user_config_path: &str, cache_root: &str) -> (r: Json)
    ensures
        r@ == empty_object().with("runtime"@, JsonView::Text("codex"@)).with(
            "installed"@,
            JsonView::Bool(false),
        ).with("user_config_path"@, JsonView::Text(user_config_path@)).with(
            "marketplace"@,
            JsonView::Text("clawket-local"@),
        ).with("plugin"@, JsonView::Text("clawket@clawket-local"@)).with(
            "plugin_cache_root"@,
            JsonView::Text(cache_root@),
        ),
{
    object().with("runtime", text("codex")).with("installed", Json::Bool(false)).with(
        "user_config_path",
        text(user_config_path),
    ).with("marketplace", text("clawket-local")).with(
        "plugin",
        text("clawket@clawket-local"),
    ).with("plugin_cache_root", text(cache_root))
}

/// What asks for the dashboard of a directory.
pub fn dashboard_request(cwd: &str) -> (r: Request)
    ensures
        r@ == getting("/dashboard?cwd="@ + percent_encoded(cwd@) + "&show=active"@),
{
    let e = urlencoding(cwd);
    get(cat3("/dashboard?cwd=", e.as_str(), "&show=active"))
}

/// The first block of the text that a session begins with.
pub open spec fn context_block(cwd: Seq<char>, context: Seq<char>) -> Seq<char> {
    if trimmed(context).len() == 0 {
        "# Clawket\n\nNo project is registered for `"@ + cwd
            + "`.\nRegister one with:\n\n`clawket project create \"<name>\" --cwd \""@ + cwd
            + "\"`"@
    } else {
        "# Active Clawket Context\n\n"@ + context
    }
}

/// The blocks that are not blank, among the first `n`.
pub open spec fn filled(blocks: Seq<Seq<char>>, n: nat) -> Seq<Seq<char>>
    decreases n,
{
    if n == 0 {
        Seq::empty()
    } else {
        let before = filled(blocks, (n - 1) as nat);
        if trimmed(blocks[n - 1]).len() > 0 {
            before.push(blocks[n - 1])
        } else {
            before
        }
    }
}

/// The text that a session begins with: the context, the shared rules and the
/// rules of the runtime, an empty line between them.
pub open spec fn bootstrap(
    cwd: Seq<char>,
    context: Seq<char>,
    shared: Seq<char>,
    runtime: Seq<char>,
) -> Seq<char> {
    joined(filled(seq![context_block(cwd, context), shared, runtime], 3), "\n\n"@)
}

/// The text that a session begins with.
pub fn compose_bootstrap(cwd: &str, context: &str, shared: &str, runtime: &str) -> (r: String)
    ensures
        r@ == bootstrap(cwd@, context@, shared@, runtime@),
{
    let t = trim(context);
    let first = if t.as_str().is_empty() {
        cat5(
            "# Clawket\n\nNo project is registered for `",
            cwd,
            "`.\nRegister one with:\n\n`clawket project create \"<name>\" --cwd \"",
            cwd,
            "\"`",
        )
    } else {
        cat2("# Active Clawket Context\n\n", context)
    };
    let mut blocks: Vec<String> = Vec::new();
    blocks.push(first);
    blocks.push(shared.to_owned());
    blocks.push(runtime.to_owned());
    let ghost all = seq![context_block(cwd@, context@), shared@, runtime@];
    assert(texts(blocks@) =~= all);
    let mut kept: Vec<String> = Vec::new();
    let mut i: usize = 0;
    assert(texts(kept@) =~= Seq::empty());
    while i < blocks.len()
        invariant
            i <= blocks@.len(),
            all == texts(blocks@),
            texts(kept@) == filled(all, i as nat),
        decreases blocks@.len() - i,
    {
        let b = trim(blocks[i].as_str());
        assert(all[i as int] == blocks@[i as int]@);
        if !b.as_str().is_empty() {
            let item = blocks[i].clone();
            proof {
                texts_push(kept@, item);
            }
            kept.push(item);
        }
        i = i + 1;
    }
    join(&kept, "\n\n")
}

/// What asks for the runs of a session.
pub fn runs_request(session_id: &str) -> (r: Request)
    ensures
        r@ == getting("/runs?session_id="@ + percent_encoded(session_id@)),
{
    let e = urlencoding(session_id);
    get(cat2("/runs?session_id=", e.as_str()))
}

/// The identifiers of the runs among the first `n` that have not ended.
pub open spec fn open_runs_upto(a: Seq<JsonView>, n: nat) -> Seq<Seq<char>>
    decreases n,
{
    if n == 0 {
        Seq::empty()
    } else {
        let before = open_runs_upto(a, (n - 1) as nat);
        match a[n - 1].str_at("id"@) {
            Some(id) => if a[n - 1].i64_at("ended_at"@) is None {
                before.push(id)
            } else {
                before
            },
            None => before,
        }
    }
}

/// The identifiers of the runs that have not ended.
pub fn open_runs(runs: &Json) -> (r: Vec<String>)
    ensures
        texts(r@) == open_runs_upto(runs@.items(), runs@.items().len()),
{
    let mut out: Vec<String> = Vec::new();
    assert(texts(out@) =~= Seq::empty());
    if let Some(arr) = runs.as_array() {
        let ghost all = views(arr@);
        let mut i: usize = 0;
        while i < arr.len()
            invariant
                i <= arr@.len(),
                all == views(arr@),
                texts(out@) == open_runs_upto(all, i as nat),
            decreases arr@.len() - i,
        {
            assert(all[i as int] == arr@[i as int]@);
            if arr[i].i64_at("ended_at").is_none() {
                if let Some(id) = arr[i].str_at("id") {
                    let item = id.to_owned();
                    proof {
                        texts_push(out@, item);
                    }
                    out.push(item);
                }
            }
            i = i + 1;
        }
        assert(all.len() == arr@.len());
    }
    out
}

/// What ends a run that the session left open.
pub open spec fn finish_asked(id: Seq<char>) -> RequestView {
    posting(
        "/runs/"@ + id + "/finish"@,
        empty_object().with("result"@, JsonView::Text("session_ended"@)).with(
            "notes"@,
            JsonView::Text("Auto-closed by Codex wrapper"@),
        ),
    )
}

/// What ends a run that the session left open.
pub fn finish_request(id: &str) -> (r: Request)
    ensures
        r@ == finish_asked(id@),
{
    post(
        cat3("/runs/", id, "/finish"),
        object().with("result", text("session_ended")).with(
            "notes",
            text("Auto-closed by Codex wrapper"),
        ),
    )
}

/// The identifier of the task that is in work: of the first in the answer.
pub open spec fn active_task(val: JsonView) -> Option<Seq<char>> {
    if val.items().len() > 0 {
        val.items()[0].str_at("id"@)
    } else {
        None
    }
}

/// The identifier of the task that is in work.
pub fn current_active_task(val: &Json) -> (r: Option<&str>)
    ensures
        opt_text(r) == active_task(val@),
{
    match val.as_array() {
        Some(arr) => {
            assert(views(arr@).len() == arr@.len());
            if arr.len() > 0 {
                assert(views(arr@)[0] == arr@[0]@);
                arr[0].str_at("id")
            } else {
                None
            }
        },
        None => None,
    }
}

/// What notes that the session works on a task.
pub open spec fn run_asked(task_id: Seq<char>, session_id: Seq<char>) -> RequestView {
    posting(
        "/runs"@,
        empty_object().with("task_id"@, JsonView::Text(task_id)).with(
            "session_id"@,
            JsonView::Text(session_id),
        ).with("agent"@, JsonView::Text("main"@)),
    )
}

/// What notes that the session works on a task.
pub fn run_start_request(task_id: &str, session_id: &str) -> (r: Request)
    ensures
        r@ == run_asked(task_id@, session_id@),
{
    post(
        "/runs".to_owned(),
        object().with("task_id", text(task_id)).with("session_id", text(session_id)).with(
            "agent",
            text("main"),
        ),
    )
}

/// What a session can do.
pub open spec fn session_capabilities() -> JsonView {
    empty_object().with("session_start_context"@, JsonView::Bool(true)).with(
        "per_turn_context"@,
        JsonView::Bool(false),
    ).with("hard_pre_mutation_block"@, JsonView::Bool(false)).with(
        "activity_stream_capture"@,
        JsonView::Bool(false),
    ).with("subagent_lifecycle_hook"@, JsonView::Bool(false)).with(
        "plan_mode_bridge"@,
        JsonView::Bool(false),
    ).with("session_stop_hook"@, JsonView::Bool(true))
}

/// The description of a session.
pub open spec fn session_described(
    session_id: Seq<char>,
    cwd: Seq<char>,
    active_task_id: Option<Seq<char>>,
) -> JsonView {
    empty_object().with("runtime"@, JsonView::Text("codex"@)).with(
        "session_id"@,
        JsonView::Text(session_id),
    ).with("cwd"@, JsonView::Text(cwd)).with("active_task_id"@, text_or_null(active_task_id)).with(
        "managed"@,
        JsonView::Bool(true),
    ).with("capabilities"@, session_capabilities())
}

/// The description of a session.
pub fn session_json(session_id: &str, cwd: &str, active_task_id: Option<&str>) -> (r: Json)
    ensures
        r@ == session_described(session_id@, cwd@, opt_text(active_task_id)),
{
    let capabilities = object().with("session_start_context", Json::Bool(true)).with(
        "per_turn_context",
        Json::Bool(false),
    ).with("hard_pre_mutation_block", Json::Bool(false)).with(
        "activity_stream_capture",
        Json::Bool(false),
    ).with("subagent_lifecycle_hook", Json::Bool(false)).with(
        "plan_mode_bridge",
        Json::Bool(false),
    ).with("session_stop_hook", Json::Bool(true));
    object().with("runtime", text("codex")).with("session_id", text(session_id)).with(
        "cwd",
        text(cwd),
    ).with("active_task_id", or_null(active_task_id)).with("managed", Json::Bool(true)).with(
        "capabilities",
        capabilities,
    )
}

/// The state of the session, from its description where there is one.
pub open spec fn session_state(session: Option<Json>, prompt_file: Seq<char>) -> JsonView {
    match session {
        Some(s) => empty_object().with("runtime"@, JsonView::Text("codex"@)).with(
            "active"@,
            JsonView::Bool(true),
        ).with("session"@, s@).with("prompt_file"@, JsonView::Text(prompt_file)),
        None => empty_object().with("runtime"@, JsonView::Text("codex"@)).with(
            "active"@,
            JsonView::Bool(false),
        ).with("message"@, JsonView::Text("No Codex wrapper session state found"@)),
    }
}

/// The state of the session.
pub fn status(session: &Option<Json>, prompt_file: &str) -> (r: Json)
    ensures
        r@ == session_state(*session, prompt_file@),
{
    match session {
        Some(s) => object().with("runtime", text("codex")).with("active", Json::Bool(true)).with(
            "session",
            s.copy(),
        ).with("prompt_file", text(prompt_file)),
        None => object().with("runtime", text("codex")).with("active", Json::Bool(false)).with(
            "message",
            text("No Codex wrapper session state found"),
        ),
    }
}

/// The session whose runs are to end; none where there is no session, or it
/// has no name.
pub fn session_to_stop(session: &Option<Json>) -> (r: Option<&str>)
    ensures
        opt_text(r) == match session {
            Some(s) => match s@.str_at("session_id"@) {
                Some(id) => if id.len() > 0 {
                    Some(id)
                } else {
                    None
                },
                None => None,
            },
            None => None,
        },
{
    match session {
        Some(s) => match s.str_at("session_id") {
            Some(id) => if id.is_empty() {
                None
            } else {
                Some(id)
            },
            None => None,
        },
        None => None,
    }
}

/// The report after a session was stopped.
pub open spec fn stopped(s: JsonView) -> JsonView {
    empty_object().with("runtime"@, JsonView::Text("codex"@)).with(
        "stopped"@,
        JsonView::Bool(true),
    ).with("session_id"@, JsonView::Text(s.str_or("session_id"@, ""@)))
}

/// The report after a session was stopped; where there was none, its state.
pub fn stop_report(session: &Option<Json>, prompt_file: &str) -> (r: Json)
    ensures
        r@ == match session {
            Some(s) => stopped(s@),
            None => session_state(*session, prompt_file@),
        },
{
    match session {
        Some(s) => object().with("runtime", text("codex")).with("stopped", Json::Bool(true)).with(
            "session_id",
            text(s.str_or("session_id", "")),
        ),
        None => status(session, prompt_file),
    }
}

/// The files of the project that the runtime needs.
pub struct ProjectFiles {
    pub marketplace_manifest: bool,
    pub plugin_manifest: bool,
    pub plugin_hooks: bool,
    pub plugin_runner: bool,
    pub shared_adapter: bool,
    pub runtime_prompt: bool,
}

/// The health of the runtime: all is well where the program answers, hooks
/// are on, and the plugin is registered and on.
pub open spec fn doctor_json(
    f: InstallFacts,
    files: ProjectFiles,
    binary: Seq<char>,
    version: Option<Seq<char>>,
    state_dir: Seq<char>,
) -> JsonView {
    empty_object().with("runtime"@, JsonView::Text("codex"@)).with(
        "ok"@,
        JsonView::Bool(
            version is Some && hooks_enabled(f.config@) && is_registered(
                f.config@,
                opt_string(f.project_root),
            ) && is_plugin_enabled(f.config@),
        ),
    ).with("codex_binary"@, JsonView::Text(binary)).with(
        "codex_version"@,
        text_or_null(version),
    ).with("wrapper_state_dir"@, JsonView::Text(state_dir)).with(
        "user_config"@,
        state_json(f),
    ).with("marketplace_manifest_exists"@, JsonView::Bool(files.marketplace_manifest)).with(
        "plugin_manifest_exists"@,
        JsonView::Bool(files.plugin_manifest),
    ).with("plugin_hooks_exists"@, JsonView::Bool(files.plugin_hooks)).with(
        "plugin_runner_exists"@,
        JsonView::Bool(files.plugin_runner),
    ).with("shared_adapter_exists"@, JsonView::Bool(files.shared_adapter)).with(
        "runtime_prompt_exists"@,
        JsonView::Bool(files.runtime_prompt),
    )
}

/// The health of the runtime.
pub fn doctor(
    f: &InstallFacts,
    files: &ProjectFiles,
    binary: &str,
    version: Option<&str>,
    state_dir: &str,
) -> (r: Json)
    ensures
        r@ == doctor_json(*f, *files, binary@, opt_text(version), state_dir@),
{
    let config = f.config.as_str();
    let ok = version.is_some() && hooks_on(config) && registered(config, opt_ref(&f.project_root))
        && plugin_on(config);
    object().with("runtime", text("codex")).with("ok", Json::Bool(ok)).with(
        "codex_binary",
        text(binary),
    ).with("codex_version", or_null(version)).with("wrapper_state_dir", text(state_dir)).with(
        "user_config",
        installation_state(f),
    ).with("marketplace_manifest_exists", Json::Bool(files.marketplace_manifest)).with(
        "plugin_manifest_exists",
        Json::Bool(files.plugin_manifest),
    ).with("plugin_hooks_exists", Json::Bool(files.plugin_hooks)).with(
        "plugin_runner_exists",
        Json::Bool(files.plugin_runner),
    ).with("shared_adapter_exists", Json::Bool(files.shared_adapter)).with(
        "runtime_prompt_exists",
        Json::Bool(files.runtime_prompt),
    )
}

proof fn switches_are_compatible()
    ensures
        compatible(feature_settings()),
        compatible(plugin_settings()),
{
    reveal_strlit(" = ");
    reveal_strlit("true");
    let on = "true"@;
    assert(is_key("plugins"@) && "plugins = true"@ =~= setting("plugins"@, on)) by {
        reveal_strlit("plugins");
        reveal_strlit("plugins = true");
        assert(trim_start("plugins"@) == "plugins"@);
    }
    assert(is_key("codex_hooks"@) && "codex_hooks = true"@ =~= setting("codex_hooks"@, on)) by {
        reveal_strlit("codex_hooks");
        reveal_strlit("codex_hooks = true");
        assert(trim_start("codex_hooks"@) == "codex_hooks"@);
    }
    assert(is_key("enabled"@) && "enabled = true"@ =~= setting("enabled"@, on)) by {
        reveal_strlit("enabled");
        reveal_strlit("enabled = true");
        assert(trim_start("enabled"@) == "enabled"@);
    }
    assert("plugins"@ != "codex_hooks"@) by {
        reveal_strlit("plugins");
        reveal_strlit("codex_hooks");
        assert("plugins"@.len() != "codex_hooks"@.len());
    }
    settings_are_compatible(seq!["plugins"@, "codex_hooks"@], seq![on, on]);
    settings_are_compatible(seq!["enabled"@], seq![on]);
    assert(feature_settings() =~= settings(seq!["plugins"@, "codex_hooks"@], seq![on, on]));
    assert(plugin_settings() =~= settings(seq!["enabled"@], seq![on]));
}

proof fn registration_is_compatible(root: Seq<char>, updated: Seq<char>)
    ensures
        compatible(marketplace_settings(root, updated)),
{
    reveal_strlit(" = ");
    reveal_strlit("\"");
    reveal_strlit("\"local\"");
    let when = "\""@ + updated + "\""@;
    let place = "\""@ + root + "\""@;
    let kvs = marketplace_settings(root, updated);
    let keys = seq!["last_updated"@, "source_type"@, "source"@];
    let values = seq![when, "\"local\""@, place];
    assert(is_key(keys[0]) && kvs[0] =~= setting(keys[0], when)) by {
        reveal_strlit("last_updated");
        reveal_strlit("last_updated = \"");
        assert(trim_start(keys[0]) == keys[0]);
    }
    assert(is_key(keys[1]) && kvs[1] =~= setting(keys[1], values[1])) by {
        reveal_strlit("source_type");
        reveal_strlit("source_type = \"local\"");
        assert(trim_start(keys[1]) == keys[1]);
    }
    assert(is_key(keys[2]) && kvs[2] =~= setting(keys[2], place)) by {
        reveal_strlit("source");
        reveal_strlit("source = \"");
        assert(trim_start(keys[2]) == keys[2]);
    }
    assert(keys[0].len() == 12 && keys[1].len() == 11 && keys[2].len() == 6) by {
        reveal_strlit("last_updated");
        reveal_strlit("source_type");
        reveal_strlit("source");
    }
    settings_are_compatible(keys, values);
    assert(kvs =~= settings(keys, values));
}

/// The line stands in the section of the header.
spec fn stands(lines: Seq<Seq<char>>, header: Seq<char>, l: Seq<char>, s: int, p: int) -> bool {
    &&& 0 <= s < p < lines.len()
    &&& trimmed(lines[s]) == header
    &&& lines[p] == l
    &&& forall|j: int| s < j <= p ==> !is_header(#[trigger] lines[j])
}

/// The line stands in a section of the header.
spec fn holds(lines: Seq<Seq<char>>, header: Seq<char>, l: Seq<char>) -> bool {
    exists|s: int, p: int| stands(lines, header, l, s, p)
}

proof fn put_in_holds(lines: Seq<Seq<char>>, header: Seq<char>, kvs: Seq<Seq<char>>, i: int)
    requires
        compatible(kvs),
        trimmed(header) == header,
        0 <= i < kvs.len(),
    ensures
        holds(upserted(lines, header, kvs), header, kvs[i]),
{
    let after = upserted(lines, header, kvs);
    if section(lines, header) is Some {
        upsert_edits_only_the_section(lines, header, kvs);
        section_bounds(after, header);
        let (start, end) = section(after, header)->0;
        let p = choose|p: int| start < p < end && #[trigger] after[p] == kvs[i];
        assert(stands(after, header, kvs[i], start, p));
    } else {
        let spaced = if lines.len() > 0 && !is_blank(lines.last()) {
            lines.push(Seq::empty())
        } else {
            lines
        };
        let s = spaced.len() as int;
        assert(after =~= spaced.push(header) + kvs);
        assert(after[s] == header);
        assert forall|j: int| s < j <= s + 1 + i implies !is_header(#[trigger] after[j]) by {
            assert(after[j] == kvs[j - s - 1]);
        }
        assert(stands(after, header, kvs[i], s, s + 1 + i));
    }
}

proof fn putting_in_keeps(
    lines: Seq<Seq<char>>,
    header: Seq<char>,
    l: Seq<char>,
    other: Seq<char>,
    kvs: Seq<Seq<char>>,
)
    requires
        holds(lines, header, l),
        "["@.is_prefix_of(header),
        "]"@.is_suffix_of(header),
        "["@.is_prefix_of(other),
        "]"@.is_suffix_of(other),
        header != other,
        compatible(kvs),
    ensures
        holds(upserted(lines, other, kvs), header, l),
{
    let (s, p) = choose|s: int, p: int| stands(lines, header, l, s, p);
    let after = upserted(lines, other, kvs);
    assert(is_header(lines[s]));
    if section(lines, other) is Some {
        upsert_edits_only_the_section(lines, other, kvs);
        section_bounds(lines, other);
        section_bounds(after, other);
        let (start, end) = section(lines, other)->0;
        let (at, stop) = section(after, other)->0;
        assert(at == start);
        if s < start {
            assert(is_header(lines[start]));
            assert(p < start);
            assert forall|j: int| 0 <= j <= start implies after[j] == lines[j] by {
                assert(after.take(start + 1)[j] == after[j]);
                assert(lines.take(start + 1)[j] == lines[j]);
            }
            assert(stands(after, header, l, s, p));
        } else {
            assert(s != start);
            assert(s >= end);
            let by = stop - end;
            assert(after.skip(stop).len() == lines.skip(end).len());
            assert forall|j: int| end <= j < lines.len() implies after[j + by] == lines[j] by {
                assert(after.skip(stop)[j - end] == after[j + by]);
                assert(lines.skip(end)[j - end] == lines[j]);
            }
            assert forall|j: int| s + by < j <= p + by implies !is_header(#[trigger] after[j]) by {
                assert(after[(j - by) + by] == lines[j - by]);
            }
            assert(stands(after, header, l, s + by, p + by));
        }
    } else {
        assert forall|j: int| 0 <= j < lines.len() implies after[j] == lines[j] by {}
        assert(stands(after, header, l, s, p));
    }
}

proof fn part_of_part(s: Seq<char>, part: Seq<char>, p: Seq<char>, at: int)
    requires
        occurs_at(s, part, at),
        occurs_in(part, p),
    ensures
        occurs_in(s, p),
{
    let i = choose|i: int| occurs_at(part, p, i);
    let whole = s.subrange(at, at + part.len());
    assert(s.subrange(at + i, at + i + p.len()) =~= whole.subrange(i, i + p.len()));
    assert(occurs_at(s, p, at + i));
}

proof fn trimmed_at_start(s: Seq<char>) -> (i: int)
    ensures
        occurs_at(s, trim_start(s), i),
    decreases s.len(),
{
    if s.len() > 0 && is_white(s[0]) {
        let k = trimmed_at_start(s.skip(1));
        let t = trim_start(s);
        assert(s.subrange(k + 1, k + 1 + t.len()) =~= s.skip(1).subrange(k, k + t.len()));
        k + 1
    } else {
        assert(s.subrange(0, s.len() as int) =~= s);
        0
    }
}

proof fn trimmed_at_end(s: Seq<char>)
    ensures
        occurs_at(s, trim_end(s), 0),
    decreases s.len(),
{
    let t = trim_end(s);
    if s.len() > 0 && is_white(s.last()) {
        trimmed_at_end(s.drop_last());
        assert(s.subrange(0, t.len() as int) =~= s.drop_last().subrange(0, t.len() as int));
    } else {
        assert(s.subrange(0, s.len() as int) =~= s);
    }
}

proof fn whole_occurs(s: Seq<char>)
    ensures
        occurs_in(s, s),
{
    assert(s.subrange(0, s.len() as int) =~= s);
    assert(occurs_at(s, s, 0));
}

proof fn trimmed_occurs(s: Seq<char>)
    ensures
        occurs_in(s, trimmed(s)),
{
    let i = trimmed_at_start(s);
    trimmed_at_end(trim_start(s));
    part_of_part(s, trim_start(s), trimmed(s), i);
}

proof fn line_occurs(parts: Seq<Seq<char>>, sep: Seq<char>, n: nat, i: int, p: Seq<char>)
    requires
        0 <= i < n <= parts.len(),
        occurs_in(parts[i], p),
    ensures
        occurs_in(joined_upto(parts, sep, n), p),
    decreases n,
{
    if n > 1 {
        let before = joined_upto(parts, sep, (n - 1) as nat);
        let all = joined_upto(parts, sep, n);
        if i == n - 1 {
            let at = before.len() as int + sep.len();
            assert(all.subrange(at, at + parts[i].len()) =~= parts[i]);
            part_of_part(all, parts[i], p, at);
        } else {
            line_occurs(parts, sep, (n - 1) as nat, i, p);
            assert(all.subrange(0, before.len() as int) =~= before);
            part_of_part(all, before, p, 0);
        }
    }
}

proof fn file_shows(lines: Seq<Seq<char>>, i: int, p: Seq<char>)
    requires
        0 <= i < lines.len(),
        occurs_in(lines[i], p),
        p.len() > 0,
    ensures
        occurs_in(file_text(lines), p),
{
    line_occurs(lines, "\n"@, lines.len(), i, p);
    let content = joined(lines, "\n"@);
    let file = file_text(lines);
    assert(file.subrange(0, content.len() as int) =~= content);
    part_of_part(file, content, p, 0);
}

proof fn held_line_is_seen(lines: Seq<Seq<char>>, header: Seq<char>, l: Seq<char>)
    requires
        holds(lines, header, l),
        header.len() > 0,
        l.len() > 0,
    ensures
        occurs_in(file_text(lines), header),
        occurs_in(file_text(lines), l),
{
    let (s, p) = choose|s: int, p: int| stands(lines, header, l, s, p);
    trimmed_occurs(lines[s]);
    file_shows(lines, s, header);
    whole_occurs(lines[p]);
    file_shows(lines, p, l);
}

/// Whatever the settings were, after the plugin was entered into them the
/// hooks are on, the project is registered, and the plugin is on.
pub proof fn installing_is_seen(lines: Seq<Seq<char>>, root: Seq<char>, updated: Seq<char>)
    requires
        root.len() > 0,
    ensures
        hooks_enabled(file_text(installed_lines(lines, root, updated))),
        is_registered(file_text(installed_lines(lines, root, updated)), Some(root)),
        is_plugin_enabled(file_text(installed_lines(lines, root, updated))),
{
    let features = "[features]"@;
    let market = "[marketplaces.clawket-local]"@;
    let plugin = "[plugins.\"clawket@clawket-local\"]"@;
    reveal_strlit("[");
    reveal_strlit("]");
    reveal_strlit("[features]");
    reveal_strlit("[marketplaces.clawket-local]");
    reveal_strlit("[plugins.\"clawket@clawket-local\"]");
    reveal_strlit("codex_hooks = true");
    reveal_strlit("enabled = true");
    reveal_strlit("source = \"");
    assert(features.len() == 10 && market.len() == 28 && plugin.len() == 33);
    assert(features.take(1) =~= "["@ && market.take(1) =~= "["@ && plugin.take(1) =~= "["@);
    assert(features.skip(9) =~= "]"@ && market.skip(27) =~= "]"@ && plugin.skip(32) =~= "]"@);
    assert(trim_start(features) == features && trim_start(market) == market && trim_start(plugin)
        == plugin);
    switches_are_compatible();
    registration_is_compatible(root, updated);
    let one = upserted(lines, features, feature_settings());
    let two = upserted(one, market, marketplace_settings(root, updated));
    let three = upserted(two, plugin, plugin_settings());
    put_in_holds(lines, features, feature_settings(), 1);
    putting_in_keeps(
        one,
        features,
        "codex_hooks = true"@,
        market,
        marketplace_settings(root, updated),
    );
    putting_in_keeps(two, features, "codex_hooks = true"@, plugin, plugin_settings());
    let source = "source = \""@ + root + "\""@;
    put_in_holds(one, market, marketplace_settings(root, updated), 2);
    putting_in_keeps(two, market, source, plugin, plugin_settings());
    put_in_holds(two, plugin, plugin_settings(), 0);
    held_line_is_seen(three, features, "codex_hooks = true"@);
    held_line_is_seen(three, market, source);
    held_line_is_seen(three, plugin, "enabled = true"@);
}

} // verus!
