//! What is printed for values, and where files are kept, read from the results.

use vstd::prelude::*;
use crate::client::{detail, error_details, error_message};
use crate::daemon::{daemon_command, daemon_steps, last_of, DaemonAction, DaemonStep};
use crate::drift_warning::{drift_banner, files_changed, files_in_scope};
use crate::export::occurs_around;
use crate::json::JsonView;
use crate::json_text::compact;
use crate::output::{
    cells, column_width, columns_upto, format_named, padded, row, table, table_lines, Format,
};
use crate::paths::{
    cache_dir_of, config_dir_of, data_dir_of, joined_path, socket_path_of, state_dir_of, Env,
};
use crate::scan::{occurs_at, occurs_in, words_of};
use crate::text::{dec, joined, joined_upto};

verus! {

proof fn occurs_whole(p: Seq<char>)
    ensures
        occurs_in(p, p),
{
    assert(p.subrange(0, p.len() as int) =~= p);
    assert(occurs_at(p, p, 0));
}

proof fn occurs_either(a: Seq<char>, b: Seq<char>, p: Seq<char>)
    ensures
        occurs_in(a, p) || occurs_in(b, p) ==> occurs_in(a + b, p),
{
    if occurs_in(a, p) {
        occurs_around(Seq::empty(), a, b, p);
    }
    if occurs_in(b, p) {
        occurs_around(a, b, Seq::empty(), p);
    }
}

proof fn part_in_joined(parts: Seq<Seq<char>>, sep: Seq<char>, n: nat, i: int, p: Seq<char>)
    requires
        0 <= i < n <= parts.len(),
        occurs_in(parts[i], p),
    ensures
        occurs_in(joined_upto(parts, sep, n), p),
    decreases n,
{
    if n > 1 {
        let before = joined_upto(parts, sep, (n - 1) as nat);
        if i < n - 1 {
            part_in_joined(parts, sep, (n - 1) as nat, i, p);
        }
        occurs_either(before, sep, p);
        occurs_either(before + sep, parts[n - 1], p);
    }
}

proof fn columns_are_kept(m: Seq<(Seq<char>, JsonView)>, n: nat)
    requires
        n <= m.len(),
    ensures
        columns_upto(m, n) == m.take(n as int).filter(
            |x: (Seq<char>, JsonView)|
                x.0 != "body"@ && x.0 != "content"@ && x.0 != "depends_on"@,
        ).map_values(|x: (Seq<char>, JsonView)| x.0),
    decreases n,
{
    let f = |x: (Seq<char>, JsonView)| x.0 != "body"@ && x.0 != "content"@ && x.0 != "depends_on"@;
    let g = |x: (Seq<char>, JsonView)| x.0;
    reveal(Seq::filter);
    if n > 0 {
        columns_are_kept(m, (n - 1) as nat);
        assert(m.take(n as int).drop_last() =~= m.take(n - 1));
        assert(m.take(n as int).last() == m[n - 1]);
        let before = m.take(n - 1).filter(f);
        assert(before.push(m[n - 1]).map_values(g) =~= before.map_values(g).push(m[n - 1].0));
    } else {
        assert(m.take(0).len() == 0);
        assert(columns_upto(m, 0) =~= m.take(0).filter(f).map_values(g));
    }
}

/// The columns of a table are the keys of its first object, in order, without
/// those of long members.
pub proof fn tables_have_the_keys_of_the_first(m: Seq<(Seq<char>, JsonView)>)
    ensures
        columns_upto(m, m.len()) == m.filter(
            |x: (Seq<char>, JsonView)|
                x.0 != "body"@ && x.0 != "content"@ && x.0 != "depends_on"@,
        ).map_values(|x: (Seq<char>, JsonView)| x.0),
{
    columns_are_kept(m, m.len());
    assert(m.take(m.len() as int) =~= m);
}

/// A list of objects is a table: a header with the keys between two rules, a
/// row for each object in order, and a rule.
pub proof fn tables_have_a_row_for_each(a: Seq<JsonView>, m: Seq<(Seq<char>, JsonView)>, i: int)
    requires
        0 <= i < a.len(),
        a[0] == JsonView::Object(m),
    ensures
        ({
            let lines = table_lines(JsonView::Array(a));
            let keys = columns_upto(m, m.len());
            &&& lines.len() == a.len() + 4
            &&& lines[0] == lines[2]
            &&& lines[2] == lines[a.len() as int + 3]
            &&& lines[1] == row(a, keys, keys)
            &&& lines[3 + i] == row(a, keys, cells(a[i], keys))
        }),
{
}

/// The header of a table shows every key.
pub proof fn headers_show_every_key(a: Seq<JsonView>, keys: Seq<Seq<char>>, c: int)
    requires
        0 <= c < keys.len(),
    ensures
        occurs_in(row(a, keys, keys), keys[c]),
{
    cell_in_row(a, keys, keys, c);
}

proof fn cell_in_row(a: Seq<JsonView>, keys: Seq<Seq<char>>, shown: Seq<Seq<char>>, c: int)
    requires
        0 <= c < keys.len(),
        shown.len() == keys.len(),
    ensures
        occurs_in(row(a, keys, shown), shown[c]),
{
    let parts = Seq::new(
        keys.len(),
        |k: int| padded(shown[k], column_width(a, keys[k], a.len())),
    );
    let p = shown[c];
    occurs_whole(p);
    let w = column_width(a, keys[c], a.len());
    let fill = parts[c].skip(p.len() as int);
    assert(parts[c] =~= p + fill);
    occurs_either(p, fill, p);
    part_in_joined(parts, " | "@, parts.len(), c, p);
    occurs_either("| "@, joined(parts, " | "@), p);
    occurs_either("| "@ + joined(parts, " | "@), " |"@, p);
}

/// The row of an object shows, under each key, its own member: a text as it is,
/// null as nothing, anything else as JSON; a long one is cut.
pub proof fn rows_show_their_members(
    a: Seq<JsonView>,
    keys: Seq<Seq<char>>,
    item: JsonView,
    c: int,
)
    requires
        0 <= c < keys.len(),
    ensures
        ({
            let line = row(a, keys, cells(item, keys));
            &&& item.str_at(keys[c]) is Some && item.str_at(keys[c])->0.len() <= 50 ==> occurs_in(
                line,
                item.str_at(keys[c])->0,
            )
            &&& item.get(keys[c]) is Some && !(item.get(keys[c])->0 is Text) && !(item.get(
                keys[c],
            )->0 is Null) && compact(item.get(keys[c])->0).len() <= 50 ==> occurs_in(
                line,
                compact(item.get(keys[c])->0),
            )
            &&& item.get(keys[c]) is None ==> cells(item, keys)[c].len() == 0
            &&& item.get(keys[c]) == Some(JsonView::Null) ==> cells(item, keys)[c].len() == 0
            &&& cells(item, keys)[c].len() <= 50
        }),
{
    reveal_strlit("...");
    cell_in_row(a, keys, cells(item, keys), c);
}

/// An object is printed one member in a line, each behind its key.
pub proof fn objects_are_printed_by_member(m: Seq<(Seq<char>, JsonView)>, i: int)
    requires
        0 <= i < m.len(),
    ensures
        ({
            let lines = table_lines(JsonView::Object(m));
            &&& lines.len() == m.len()
            &&& (m[i].0 + ": "@).is_prefix_of(lines[i])
            &&& m[i].1 is Text && m[i].1->Text_0.len() <= 80 ==> lines[i] == m[i].0 + ": "@
                + m[i].1->Text_0
            &&& m[i].1 is Null ==> lines[i] == m[i].0 + ": "@
        }),
{
    let l = table_lines(JsonView::Object(m))[i];
    let k = m[i].0 + ": "@;
    assert(l.take(k.len() as int) =~= k);
    assert(k + Seq::<char>::empty() =~= k);
}

/// Three words name a form, each its own.
pub proof fn forms_are_named(name: Seq<char>)
    ensures
        format_named(name) == Some(Format::Json) <==> name == "json"@,
        format_named(name) == Some(Format::Table) <==> name == "table"@,
        format_named(name) == Some(Format::Yaml) <==> name == "yaml"@,
{
    reveal_strlit("json");
    reveal_strlit("table");
    reveal_strlit("yaml");
    assert("json"@.len() == 4);
    assert("table"@.len() == 5);
    assert("yaml"@.len() == 4);
    assert("json"@[0] != "yaml"@[0]);
}

/// There is a warning exactly where there is drift, and it counts the files in
/// scope.
pub proof fn drift_is_warned_of(j: JsonView, level: Seq<char>, color: bool)
    requires
        j.str_at("drift_level"@) == Some(level),
    ensures
        drift_banner(j, color) is None <==> level == "none"@,
        level == "minor"@ ==> (drift_banner(j, false) matches Some(b) && occurs_in(
            b,
            "[drift:minor] "@ + dec(files_in_scope(j) as nat) + " of "@ + dec(
                files_changed(j) as nat,
            ),
        )),
        j.array_at("changed_files_in_scope"@) matches Some(a) ==> files_in_scope(j) == a.len(),
        j.u64_at("total_changed"@) matches Some(n) ==> files_changed(j) == n,
{
    reveal_strlit("none");
    reveal_strlit("minor");
    assert("none"@.len() == 4);
    assert("minor"@.len() == 5);
    if level == "minor"@ {
        let b = crate::drift_warning::minor_line(j);
        let p = "[drift:minor] "@ + dec(files_in_scope(j) as nat) + " of "@ + dec(
            files_changed(j) as nat,
        );
        let rest = b.skip(p.len() as int);
        assert(b =~= p + rest);
        occurs_whole(p);
        occurs_either(p, rest, p);
    }
}

/// The directory lies where its own variable says; else under `clawket` where
/// the variable for its kind says; else under `clawket` in the directory of its
/// kind at home.
pub open spec fn lies_at(
    dir: Option<Seq<char>>,
    own: Option<String>,
    kind: Option<String>,
    home: Option<String>,
    usual: Seq<char>,
) -> bool {
    &&& own matches Some(s) ==> dir == Some(s@)
    &&& own is None ==> (kind matches Some(s) ==> dir == Some(joined_path(s@, "clawket"@)))
    &&& own is None && kind is None ==> (home matches Some(h) ==> dir == Some(
        joined_path(joined_path(h@, usual), "clawket"@),
    ))
    &&& own is None && kind is None && home is None ==> dir is None
}

/// Each directory has its own variables and its own usual place.
pub proof fn directories_lie_where_they_are_set(env: Env)
    ensures
        lies_at(cache_dir_of(env), env.cache_dir, env.cache_home, env.home, ".cache"@),
        lies_at(data_dir_of(env), env.data_dir, env.data_home, env.home, ".local/share"@),
        lies_at(config_dir_of(env), env.config_dir, env.config_home, env.home, ".config"@),
        lies_at(state_dir_of(env), env.state_dir, env.state_home, env.home, ".local/state"@),
        env.socket matches Some(s) ==> socket_path_of(env) == Some(s@),
        env.socket is None ==> (cache_dir_of(env) matches Some(d) ==> socket_path_of(env) == Some(
            joined_path(d, "clawketd.sock"@),
        )),
{
}

proof fn detail_is_in(m: Seq<(Seq<char>, JsonView)>, n: nat, i: int)
    requires
        0 <= i < n <= m.len(),
        m[i].0 != "error"@,
        m[i].0 != "code"@,
        m[i].0 != "stack"@,
    ensures
        occurs_in(error_details(m, n), "\n  "@ + m[i].0 + ": "@ + detail(m[i].1)),
    decreases n,
{
    let p = "\n  "@ + m[i].0 + ": "@ + detail(m[i].1);
    let before = error_details(m, (n - 1) as nat);
    if i < n - 1 {
        detail_is_in(m, (n - 1) as nat, i);
        occurs_either(before, "\n  "@ + m[n - 1].0 + ": "@ + detail(m[n - 1].1), p);
    } else {
        occurs_whole(p);
        occurs_either(before, p, p);
    }
}

/// The message of a refusal begins with what the daemon says went wrong, and
/// has a line for each of its details.
pub proof fn refusals_tell_their_details(m: Seq<(Seq<char>, JsonView)>, error: Seq<char>, i: int)
    requires
        JsonView::Object(m).str_at("error"@) == Some(error),
        0 <= i < m.len(),
        m[i].0 != "error"@,
        m[i].0 != "code"@,
        m[i].0 != "stack"@,
    ensures
        error.is_prefix_of(error_message(JsonView::Object(m))),
        m[i].1 is Text ==> occurs_in(
            error_message(JsonView::Object(m)),
            "\n  "@ + m[i].0 + ": "@ + m[i].1->Text_0,
        ),
        !(m[i].1 is Text) ==> occurs_in(
            error_message(JsonView::Object(m)),
            "\n  "@ + m[i].0 + ": "@ + compact(m[i].1),
        ),
{
    let all = error_message(JsonView::Object(m));
    let details = error_details(m, m.len());
    assert(all == error + details);
    assert(all.take(error.len() as int) =~= error);
    detail_is_in(m, m.len(), i);
    occurs_either(error, details, "\n  "@ + m[i].0 + ": "@ + detail(m[i].1));
}

/// The number that decimal digits stand for.
pub open spec fn number_read(s: Seq<char>) -> nat
    decreases s.len(),
{
    if s.len() == 0 {
        0
    } else {
        number_read(s.drop_last()) * 10 + ((s.last() as int - '0' as int) as nat)
    }
}

/// A number is read back from its digits, which have no zero in front.
pub proof fn numbers_are_read_back(n: nat)
    ensures
        number_read(dec(n)) == n,
        dec(n).len() > 0,
        n > 0 ==> dec(n)[0] != '0',
        forall|i: int| 0 <= i < dec(n).len() ==> '0' <= #[trigger] dec(n)[i] <= '9',
    decreases n,
{
    reveal_with_fuel(number_read, 3);
    if n >= 10 {
        numbers_are_read_back(n / 10);
        let before = dec(n / 10);
        assert(dec(n).drop_last() =~= before);
        assert(dec(n)[0] == before[0]);
        assert forall|i: int| 0 <= i < dec(n).len() implies '0' <= #[trigger] dec(n)[i] <= '9' by {
            if i < before.len() {
                assert(dec(n)[i] == before[i]);
            }
        }
    } else {
        assert(dec(n).drop_last() =~= Seq::empty());
    }
}

/// The last lines of a log are its end: as many as were asked for, or all of
/// them.
pub proof fn logs_are_shown_from_their_end(ls: Seq<Seq<char>>, n: int, i: int)
    requires
        n >= 0,
        0 <= i < last_of(ls, n).len(),
    ensures
        last_of(ls, n).len() == (if ls.len() <= n {
            ls.len() as int
        } else {
            n
        }),
        last_of(ls, n)[i] == ls[ls.len() - last_of(ls, n).len() + i],
{
}

/// A restart is a stop and then a start; every other action is one step, its
/// own.
pub proof fn restarts_stop_and_start(lines: u32, follow: bool)
    ensures
        daemon_steps(DaemonAction::Restart) == daemon_steps(DaemonAction::Stop) + daemon_steps(
            DaemonAction::Start,
        ),
        daemon_steps(DaemonAction::Stop).len() == 1,
        daemon_steps(DaemonAction::Stop)[0] == DaemonStep::Stop,
        daemon_steps(DaemonAction::Start).len() == 1,
        daemon_steps(DaemonAction::Start)[0] == DaemonStep::Start,
        daemon_steps(DaemonAction::Status).len() == 1,
        daemon_steps(DaemonAction::Status)[0] == DaemonStep::Status,
        daemon_steps(DaemonAction::Log { lines, follow }).len() == 1,
        daemon_steps(DaemonAction::Log { lines, follow })[0] == (DaemonStep::Log { lines, follow }),
{
    assert(daemon_steps(DaemonAction::Restart) =~= daemon_steps(DaemonAction::Stop) + daemon_steps(
        DaemonAction::Start,
    ));
}

/// The command that is set goes before the program that was found, and that
/// before the bare name.
pub proof fn set_commands_go_first(set: Seq<char>, found: Seq<char>)
    requires
        words_of(set).len() > 0,
    ensures
        seq![daemon_command(Some(set), Some(found)).0] + daemon_command(Some(set), Some(found)).1
            == words_of(set),
        daemon_command(None, Some(found)).0 == found,
        daemon_command(None, Some(found)).1.len() == 0,
        daemon_command(None, None).0 == "clawketd"@,
{
    let w = words_of(set);
    assert(seq![w[0]] + w.skip(1) =~= w);
}

} // verus!
