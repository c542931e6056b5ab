//! Where the program keeps its files.

use vstd::prelude::*;
use crate::json::{opt_ref, opt_text};
use crate::agent::Agent;
use crate::scan::{opt_string, split, split_on};
use crate::text::{cat2, cat3, chars_of, same, texts, texts_push};

verus! {

/// The path of `rel` in the directory `base`; a path from the root stands for
/// itself.
pub open spec fn joined_path(base: Seq<char>, rel: Seq<char>) -> Seq<char> {
    if rel.len() > 0 && rel[0] == '/' {
        rel
    } else if base.len() == 0 || base.last() == '/' {
        base + rel
    } else {
        base + "/"@ + rel
    }
}

/// The path of `rel` in the directory `base`.
pub fn join_path(base: &str, rel: &str) -> (r: String)
    ensures
        r@ == joined_path(base@, rel@),
{
    let b = chars_of(base);
    let v = chars_of(rel);
    if v.len() > 0 && v[0] == '/' {
        rel.to_owned()
    } else if b.len() == 0 || b[b.len() - 1] == '/' {
        cat2(base, rel)
    } else {
        cat3(base, "/", rel)
    }
}

/// The variables of the environment that place the files; those that are not
/// set, or are not text, are missing.
pub struct Env {
    /// `HOME`
    pub home: Option<String>,
    /// `CLAWKET_CACHE_DIR`
    pub cache_dir: Option<String>,
    /// `XDG_CACHE_HOME`
    pub cache_home: Option<String>,
    /// `CLAWKET_DATA_DIR`
    pub data_dir: Option<String>,
    /// `XDG_DATA_HOME`
    pub data_home: Option<String>,
    /// `CLAWKET_CONFIG_DIR`
    pub config_dir: Option<String>,
    /// `XDG_CONFIG_HOME`
    pub config_home: Option<String>,
    /// `CLAWKET_STATE_DIR`
    pub state_dir: Option<String>,
    /// `XDG_STATE_HOME`
    pub state_home: Option<String>,
    /// `CLAWKET_SOCKET`
    pub socket: Option<String>,
}

/// A base directory: the one that is set, else `fallback` in the home
/// directory, where there is one.
pub open spec fn base_dir(
    set: Option<Seq<char>>,
    home: Option<Seq<char>>,
    fallback: Seq<char>,
) -> Option<Seq<char>> {
    match set {
        Some(s) => Some(s),
        None => match home {
            Some(h) => Some(joined_path(h, fallback)),
            None => None,
        },
    }
}

fn base(set: Option<&str>, home: Option<&str>, fallback: &str) -> (r: Option<String>)
    ensures
        opt_string(r) == base_dir(opt_text(set), opt_text(home), fallback@),
{
    match set {
        Some(s) => Some(s.to_owned()),
        None => match home {
            Some(h) => Some(join_path(h, fallback)),
            None => None,
        },
    }
}

/// A directory of the program: the one that is set for it, else its own in
/// the base directory.
pub open spec fn resolved_dir(
    over: Option<Seq<char>>,
    set: Option<Seq<char>>,
    home: Option<Seq<char>>,
    fallback: Seq<char>,
) -> Option<Seq<char>> {
    match over {
        Some(s) => Some(s),
        None => match base_dir(set, home, fallback) {
            Some(b) => Some(joined_path(b, "clawket"@)),
            None => None,
        },
    }
}

/// A directory of the program. One of the three has to be known.
pub fn resolve(over: Option<&str>, set: Option<&str>, home: Option<&str>, fallback: &str) -> (r:
    String)
    requires
        over is Some || set is Some || home is Some,
    ensures
        Some(r@) == resolved_dir(opt_text(over), opt_text(set), opt_text(home), fallback@),
{
    match over {
        Some(s) => s.to_owned(),
        None => match base(set, home, fallback) {
            Some(b) => join_path(b.as_str(), "clawket"),
            None => String::new(),
        },
    }
}

/// The directory for what can be made again, where it is known.
pub open spec fn cache_dir_of(env: Env) -> Option<Seq<char>> {
    resolved_dir(
        opt_string(env.cache_dir),
        opt_string(env.cache_home),
        opt_string(env.home),
        ".cache"@,
    )
}

/// The directory for what can be made again.
pub fn cache_dir(env: &Env) -> (r: String)
    requires
        cache_dir_of(*env) is Some,
    ensures
        Some(r@) == cache_dir_of(*env),
{
    resolve(opt_ref(&env.cache_dir), opt_ref(&env.cache_home), opt_ref(&env.home), ".cache")
}

/// The directory for data, where it is known.
pub open spec fn data_dir_of(env: Env) -> Option<Seq<char>> {
    resolved_dir(
        opt_string(env.data_dir),
        opt_string(env.data_home),
        opt_string(env.home),
        ".local/share"@,
    )
}

/// The directory for data.
pub fn data_dir(env: &Env) -> (r: String)
    requires
        data_dir_of(*env) is Some,
    ensures
        Some(r@) == data_dir_of(*env),
{
    resolve(opt_ref(&env.data_dir), opt_ref(&env.data_home), opt_ref(&env.home), ".local/share")
}

/// The directory for settings, where it is known.
pub open spec fn config_dir_of(env: Env) -> Option<Seq<char>> {
    resolved_dir(
        opt_string(env.config_dir),
        opt_string(env.config_home),
        opt_string(env.home),
        ".config"@,
    )
}

/// The directory for settings.
pub fn config_dir(env: &Env) -> (r: String)
    requires
        config_dir_of(*env) is Some,
    ensures
        Some(r@) == config_dir_of(*env),
{
    resolve(opt_ref(&env.config_dir), opt_ref(&env.config_home), opt_ref(&env.home), ".config")
}

/// The directory for logs and other state, where it is known.
pub open spec fn state_dir_of(env: Env) -> Option<Seq<char>> {
    resolved_dir(
        opt_string(env.state_dir),
        opt_string(env.state_home),
        opt_string(env.home),
        ".local/state"@,
    )
}

/// The directory for logs and other state.
pub fn state_dir(env: &Env) -> (r: String)
    requires
        state_dir_of(*env) is Some,
    ensures
        Some(r@) == state_dir_of(*env),
{
    resolve(opt_ref(&env.state_dir), opt_ref(&env.state_home), opt_ref(&env.home), ".local/state")
}

/// The socket of the daemon, where it is known.
pub open spec fn socket_path_of(env: Env) -> Option<Seq<char>> {
    match env.socket {
        Some(s) => Some(s@),
        None => match cache_dir_of(env) {
            Some(d) => Some(joined_path(d, "clawketd.sock"@)),
            None => None,
        },
    }
}

/// The socket of the daemon: the one that is set, else in the cache.
pub fn socket_path(env: &Env) -> (r: String)
    requires
        socket_path_of(*env) is Some,
    ensures
        Some(r@) == socket_path_of(*env),
{
    match &env.socket {
        Some(s) => s.clone(),
        None => {
            let dir = cache_dir(env);
            join_path(dir.as_str(), "clawketd.sock")
        },
    }
}

/// The file with the daemon's process number.
pub fn pid_path(env: &Env) -> (r: String)
    requires
        cache_dir_of(*env) is Some,
    ensures
        r@ == joined_path(cache_dir_of(*env)->0, "clawketd.pid"@),
{
    let dir = cache_dir(env);
    join_path(dir.as_str(), "clawketd.pid")
}

/// The file with the daemon's port.
pub fn port_path(env: &Env) -> (r: String)
    requires
        cache_dir_of(*env) is Some,
    ensures
        r@ == joined_path(cache_dir_of(*env)->0, "clawketd.port"@),
{
    let dir = cache_dir(env);
    join_path(dir.as_str(), "clawketd.port")
}

/// The daemon's log, where the state directory is known.
pub fn log_file_path(env: &Env) -> (r: Option<String>)
    ensures
        opt_string(r) == match state_dir_of(*env) {
            Some(d) => Some(joined_path(d, "clawketd.log"@)),
            None => None,
        },
{
    if env.state_dir.is_none() && env.state_home.is_none() && env.home.is_none() {
        return None;
    }
    let dir = state_dir(env);
    Some(join_path(dir.as_str(), "clawketd.log"))
}

/// The base directory for data, where it is known.
pub fn data_base(env: &Env) -> (r: Option<String>)
    ensures
        opt_string(r) == base_dir(opt_string(env.data_home), opt_string(env.home), ".local/share"@),
{
    base(opt_ref(&env.data_home), opt_ref(&env.home), ".local/share")
}

/// The directory of the data of a predecessor of the program: `lattice` in the
/// base directory for data, else in the current directory.
pub fn default_legacy_dir(env: &Env) -> (r: String)
    ensures
        r@ == joined_path(
            match base_dir(opt_string(env.data_home), opt_string(env.home), ".local/share"@) {
                Some(b) => b,
                None => "."@,
            },
            "lattice"@,
        ),
{
    match data_base(env) {
        Some(b) => join_path(b.as_str(), "lattice"),
        None => join_path(".", "lattice"),
    }
}

/// The places where the daemon's program may lie, each with its name.
pub open spec fn candidates(bin_dir: Option<Seq<char>>, data_home: Option<Seq<char>>) -> Seq<
    (Seq<char>, Seq<char>),
> {
    (match bin_dir {
        Some(b) => seq![
            (
                joined_path(
                    joined_path(joined_path(joined_path(b, ".."@), "daemon"@), "bin"@),
                    "clawketd"@,
                ),
                "plugin layout"@,
            ),
            (joined_path(b, "clawketd"@), "sibling"@),
        ],
        None => Seq::empty(),
    }) + (match data_home {
        Some(d) => seq![
            (
                joined_path(joined_path(joined_path(d, "clawket"@), "bin"@), "clawketd"@),
                "XDG install"@,
            ),
        ],
        None => Seq::empty(),
    })
}

/// What a list of named places holds.
pub open spec fn named_views(v: Seq<(String, &'static str)>) -> Seq<(Seq<char>, Seq<char>)> {
    Seq::new(v.len(), |i: int| (v[i].0@, v[i].1@))
}

/// The places where the daemon's program may lie, from the first to try to
/// the last: beside the plugin, beside this program, and among the data.
pub fn daemon_bin_candidates_inner(bin_dir: Option<&str>, data_home: Option<&str>) -> (r: Vec<
    (String, &'static str),
>)
    ensures
        named_views(r@) == candidates(opt_text(bin_dir), opt_text(data_home)),
{
    let mut out: Vec<(String, &'static str)> = Vec::new();
    if let Some(b) = bin_dir {
        let up = join_path(b, "..");
        let daemon = join_path(up.as_str(), "daemon");
        let bin = join_path(daemon.as_str(), "bin");
        out.push((join_path(bin.as_str(), "clawketd"), "plugin layout"));
        out.push((join_path(b, "clawketd"), "sibling"));
    }
    if let Some(d) = data_home {
        let own = join_path(d, "clawket");
        let bin = join_path(own.as_str(), "bin");
        out.push((join_path(bin.as_str(), "clawketd"), "XDG install"));
    }
    assert(named_views(out@) =~= candidates(opt_text(bin_dir), opt_text(data_home)));
    out
}

/// Of the first `n` parts those that name something: neither the empty ones
/// nor those for the directory itself.
pub open spec fn components_upto(parts: Seq<Seq<char>>, n: nat) -> Seq<Seq<char>>
    decreases n,
{
    if n == 0 {
        Seq::empty()
    } else if parts[n - 1].len() == 0 || parts[n - 1] == "."@ {
        components_upto(parts, (n - 1) as nat)
    } else {
        components_upto(parts, (n - 1) as nat).push(parts[n - 1])
    }
}

/// The names in a path.
pub open spec fn components_of(path: Seq<char>) -> Seq<Seq<char>> {
    components_upto(split_on(path, '/'), split_on(path, '/').len())
}

/// The names in a path.
pub fn components(path: &str) -> (r: Vec<String>)
    ensures
        texts(r@) == components_of(path@),
{
    let parts = split(path, '/');
    let ghost all = texts(parts@);
    let mut out: Vec<String> = Vec::new();
    assert(texts(out@) =~= Seq::empty());
    let mut i: usize = 0;
    while i < parts.len()
        invariant
            i <= parts@.len(),
            all == texts(parts@),
            texts(out@) == components_upto(all, i as nat),
        decreases parts@.len() - i,
    {
        assert(all[i as int] == parts@[i as int]@);
        if !(parts[i].as_str().is_empty() || same(parts[i].as_str(), ".")) {
            let part = parts[i].clone();
            proof {
                texts_push(out@, part);
            }
            out.push(part);
        }
        i = i + 1;
    }
    assert(all.len() == parts@.len());
    out
}

/// The hidden directory of the agent and `plugins` follow each other in the
/// path.
pub open spec fn is_in_plugin_dir(path: Seq<char>, a: Agent) -> bool {
    let parts = components_of(path);
    exists|i: int|
        0 <= i < parts.len() - 1 && #[trigger] parts[i] == a.dot(""@) && parts[i + 1] == "plugins"@
}

/// Whether a path lies in the directory that plugin updates write to.
pub fn path_overlaps_plugin_dir(path: &str, a: &Agent) -> (r: bool)
    ensures
        r == is_in_plugin_dir(path@, *a),
{
    let dir = a.hidden("");
    let parts = components(path);
    let ghost all = texts(parts@);
    let mut i: usize = 0;
    while i < parts.len()
        invariant
            i <= parts@.len(),
            dir@ == a.dot(""@),
            all == texts(parts@),
            all == components_of(path@),
            forall|k: int|
                0 <= k < i && k < all.len() - 1 ==> !(#[trigger] all[k] == dir@ && all[k + 1]
                    == "plugins"@),
        decreases parts@.len() - i,
    {
        assert(all[i as int] == parts@[i as int]@);
        if i + 1 < parts.len() && same(parts[i].as_str(), dir.as_str()) && same(
            parts[i + 1].as_str(),
            "plugins",
        ) {
            assert(all[i + 1] == parts@[i + 1]@);
            return true;
        }
        i = i + 1;
    }
    assert(all.len() == parts@.len());
    false
}

} // verus!
