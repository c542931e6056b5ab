//! The daemon's answers: error bodies and the event stream.

use vstd::prelude::*;
use crate::error::{classified, names_server_error, ExitCode};
use crate::json::{object_view, pairs, Json, JsonView};
use crate::json_text::{compact, to_text};
use crate::scan::{
    after_prefix, before_suffix, opt_string, strip_prefix, strip_suffix, trim_start, without_lead,
};
use crate::text::{cat3, cat4, dec, decimal, join, joined, same, texts, texts_push};

verus! {

/// Members of an error body that are not worth a line of their own.
pub open spec fn is_error_noise(key: Seq<char>) -> bool {
    key == "error"@ || key == "code"@ || key == "stack"@
}

/// A text as it is, any other value as JSON.
pub open spec fn detail(j: JsonView) -> Seq<char> {
    match j {
        JsonView::Text(s) => s,
        other => compact(other),
    }
}

/// The lines for the details among the first `n` members of an error body.
pub open spec fn error_details(m: Seq<(Seq<char>, JsonView)>, n: nat) -> Seq<char>
    decreases n,
{
    if n == 0 {
        Seq::empty()
    } else {
        let before = error_details(m, (n - 1) as nat);
        if is_error_noise(m[n - 1].0) {
            before
        } else {
            before + ("\n  "@ + m[n - 1].0 + ": "@ + detail(m[n - 1].1))
        }
    }
}

/// The message for an error body: its `error` text, and below it one line for
/// each other member but `code` and `stack`.
pub open spec fn error_message(j: JsonView) -> Seq<char> {
    let main = j.str_or("error"@, "unknown error"@);
    match j {
        JsonView::Object(m) => main + error_details(m, m.len()),
        _ => main,
    }
}

/// The message for an error body.
pub fn format_daemon_error(val: &Json) -> (r: String)
    ensures
        r@ == error_message(val@),
{
    let main = val.str_or("error", "unknown error");
    match val {
        Json::Object(m) => {
            proof {
                object_view(*m);
            }
            let mut out = main.to_owned();
            let mut i: usize = 0;
            let ghost all = pairs(m@);
            assert(main@ + Seq::<char>::empty() =~= main@);
            while i < m.len()
                invariant
                    i <= m@.len(),
                    all == pairs(m@),
                    out@ == main@ + error_details(all, i as nat),
                decreases m@.len() - i,
            {
                let key = m[i].key.as_str();
                assert(all[i as int] == (m@[i as int].key@, m@[i as int].value@));
                if !(same(key, "error") || same(key, "code") || same(key, "stack")) {
                    let rendered = match &m[i].value {
                        Json::Text(s) => s.clone(),
                        other => to_text(other),
                    };
                    let line = cat4("\n  ", key, ": ", rendered.as_str());
                    proof {
                        assert(main@ + (error_details(all, i as nat) + line@) =~= (main@
                            + error_details(all, i as nat)) + line@);
                    }
                    out.append(line.as_str());
                }
                i = i + 1;
            }
            out
        },
        _ => main.to_owned(),
    }
}

/// A status that says that the request was done.
pub open spec fn is_success(status: u16) -> bool {
    200 <= status < 300
}

/// The message, behind the status where that is from 500 to 599.
pub open spec fn with_status(status: u16, message: Seq<char>) -> Seq<char> {
    if 500 <= status < 600 {
        "HTTP "@ + dec(status as nat) + ": "@ + message
    } else {
        message
    }
}

/// The message, behind the status where that is from 500 to 599.
pub fn tell_status(status: u16, message: &str) -> (r: String)
    ensures
        r@ == with_status(status, message@),
{
    if 500 <= status && status < 600 {
        let n = decimal(status as u64);
        cat4("HTTP ", n.as_str(), ": ", message)
    } else {
        message.to_owned()
    }
}

/// A failure of the daemon itself ends as one, whatever its message is.
pub proof fn server_errors_end_as_such(status: u16, message: Seq<char>)
    requires
        500 <= status < 600,
    ensures
        classified(with_status(status, message)) == ExitCode::Daemon,
{
    let msg = with_status(status, message);
    reveal_strlit("HTTP ");
    reveal_strlit("HTTP 5");
    reveal_with_fuel(dec, 4);
    let d = dec(status as nat);
    assert(d.len() == 3);
    assert(d[0] == '5');
    assert(msg.subrange(0, 6) =~= "HTTP 5"@);
    assert(msg[6] == d[1] && msg[7] == d[2]);
    assert(names_server_error(msg, 0));
}

/// The answer to a request: the body where the request was done, else the
/// message for the error body, which tells a failure of the daemon itself by
/// its status.
pub fn settle(status: u16, val: Json) -> (r: Result<Json, String>)
    ensures
        is_success(status) ==> r == Ok::<Json, String>(val),
        !is_success(status) ==> r is Err && r->Err_0@ == with_status(status, error_message(val@)),
{
    if 200 <= status && status < 300 {
        Ok(val)
    } else {
        let m = format_daemon_error(&val);
        Err(tell_status(status, m.as_str()))
    }
}

/// Where the daemon is reached.
pub enum Endpoint {
    /// At its Unix socket.
    Socket(String),
    /// At a host and port.
    Address(String),
}

/// The host and port of a URL: without the scheme, and without a slash at the
/// end.
pub open spec fn host_and_port(url: Seq<char>) -> Seq<char> {
    let rest = match after_prefix(url, "http://"@) {
        Some(r) => r,
        None => url,
    };
    match before_suffix(rest, "/"@) {
        Some(r) => r,
        None => rest,
    }
}

/// Where the daemon is reached: at the URL that is set, else at its socket.
pub fn endpoint(url: Option<&str>, socket: &str) -> (r: Endpoint)
    ensures
        match url {
            Some(u) => r matches Endpoint::Address(a) && a@ == host_and_port(u@),
            None => r matches Endpoint::Socket(s) && s@ == socket@,
        },
{
    match url {
        Some(u) => {
            let rest = match strip_prefix(u, "http://") {
                Some(r) => r,
                None => u.to_owned(),
            };
            Endpoint::Address(
                match strip_suffix(rest.as_str(), "/") {
                    Some(r) => r,
                    None => rest,
                },
            )
        },
        None => Endpoint::Socket(socket.to_owned()),
    }
}

/// An event of the daemon's stream. `data` holds the `data:` lines, with line
/// feeds between them.
pub struct SseEvent {
    pub id: Option<String>,
    pub event: Option<String>,
    pub data: String,
}

/// What an event is.
pub struct SseEventView {
    pub id: Option<Seq<char>>,
    pub event: Option<Seq<char>>,
    pub data: Seq<char>,
}

impl View for SseEvent {
    type V = SseEventView;

    open spec fn view(&self) -> SseEventView {
        SseEventView { id: opt_string(self.id), event: opt_string(self.event), data: self.data@ }
    }
}

/// What a list of events holds.
pub open spec fn event_views(v: Seq<SseEvent>) -> Seq<SseEventView> {
    Seq::new(v.len(), |i: int| v[i]@)
}

/// Reads an event stream that comes in pieces.
pub struct SseReader {
    pending: Vec<u8>,
    id: Option<String>,
    event: Option<String>,
    data: Vec<String>,
}

/// What is known of an event stream between two pieces: the bytes of the
/// line that has not ended yet, and the fields of the event that has not.
#[verifier::ext_equal]
pub struct SseState {
    pub pending: Seq<u8>,
    pub id: Option<Seq<char>>,
    pub event: Option<Seq<char>>,
    pub data: Seq<Seq<char>>,
}

impl View for SseReader {
    type V = SseState;

    closed spec fn view(&self) -> SseState {
        SseState {
            pending: self.pending@,
            id: opt_string(self.id),
            event: opt_string(self.event),
            data: texts(self.data@),
        }
    }
}

/// A stream of which nothing has come yet.
pub open spec fn sse_start() -> SseState {
    SseState { pending: Seq::empty(), id: None, event: None, data: Seq::empty() }
}

/// A line: its bytes without one carriage return at the end, as text; empty
/// where they are not UTF-8.
pub open spec fn line_text(bytes: Seq<u8>) -> Seq<char> {
    let line = if bytes.len() > 0 && bytes.last() == 13u8 {
        bytes.drop_last()
    } else {
        bytes
    };
    if vstd::utf8::valid_utf8(line) {
        vstd::utf8::decode_utf8(line)
    } else {
        Seq::empty()
    }
}

/// What a line does: an empty one ends the event, where there is anything of
/// it; a field is taken over; comments and unknown fields change nothing.
pub open spec fn sse_line(s: SseState, line: Seq<char>) -> (SseState, Seq<SseEventView>) {
    if line.len() == 0 {
        if s.id is Some || s.event is Some || s.data.len() > 0 {
            (
                SseState { id: None, event: None, data: Seq::empty(), ..s },
                seq![SseEventView { id: s.id, event: s.event, data: joined(s.data, "\n"@) }],
            )
        } else {
            (s, Seq::empty())
        }
    } else if ":"@.is_prefix_of(line) {
        (s, Seq::empty())
    } else if after_prefix(line, "id:"@) is Some {
        (SseState { id: Some(trim_start(after_prefix(line, "id:"@)->0)), ..s }, Seq::empty())
    } else if after_prefix(line, "event:"@) is Some {
        (SseState { event: Some(trim_start(after_prefix(line, "event:"@)->0)), ..s }, Seq::empty())
    } else if after_prefix(line, "data:"@) is Some {
        (
            SseState { data: s.data.push(trim_start(after_prefix(line, "data:"@)->0)), ..s },
            Seq::empty(),
        )
    } else {
        (s, Seq::empty())
    }
}

/// What a byte does: a line feed ends the line.
pub open spec fn sse_byte(s: SseState, b: u8) -> (SseState, Seq<SseEventView>) {
    if b == 10 {
        sse_line(SseState { pending: Seq::empty(), ..s }, line_text(s.pending))
    } else {
        (SseState { pending: s.pending.push(b), ..s }, Seq::empty())
    }
}

/// What bytes do, one after the other.
pub open spec fn sse_bytes(s: SseState, bytes: Seq<u8>) -> (SseState, Seq<SseEventView>)
    decreases bytes.len(),
{
    if bytes.len() == 0 {
        (s, Seq::empty())
    } else {
        let (before, events) = sse_bytes(s, bytes.drop_last());
        let (after, more) = sse_byte(before, bytes.last());
        (after, events + more)
    }
}

/// Calls `std::str::from_utf8`. What is claimed of it: it gives the text that
/// the bytes are the UTF-8 form of, and refuses bytes that are not UTF-8.
#[verifier::external_body]
fn read_utf8(bytes: &[u8]) -> (r: Option<String>)
    ensures
        r is Some <==> vstd::utf8::valid_utf8(bytes@),
        r is Some ==> r->0@ == vstd::utf8::decode_utf8(bytes@),
{
    std::str::from_utf8(bytes).ok().map(|s| s.to_owned())
}

fn line_of(bytes: &Vec<u8>) -> (r: String)
    ensures
        r@ == line_text(bytes@),
{
    let n = bytes.len();
    let end = if n > 0 && bytes[n - 1] == 13 {
        n - 1
    } else {
        n
    };
    let line = vstd::slice::slice_subrange(bytes.as_slice(), 0, end);
    assert(line@ =~= if bytes@.len() > 0 && bytes@.last() == 13u8 {
        bytes@.drop_last()
    } else {
        bytes@
    });
    match read_utf8(line) {
        Some(s) => s,
        None => String::new(),
    }
}

impl SseReader {
    /// A reader of a stream of which nothing has come yet.
    pub fn new() -> (r: SseReader)
        ensures
            r@ == sse_start(),
    {
        let r = SseReader { pending: Vec::new(), id: None, event: None, data: Vec::new() };
        assert(r@ =~= sse_start());
        r
    }

    fn end_line(&mut self) -> (r: Option<SseEvent>)
        ensures
            ({
                let (after, events) = sse_line(
                    SseState { pending: Seq::empty(), ..old(self)@ },
                    line_text(old(self)@.pending),
                );
                &&& final(self)@ == after
                &&& events == match r {
                    Some(e) => seq![e@],
                    None => Seq::empty(),
                }
            }),
    {
        let line = line_of(&self.pending);
        self.pending = Vec::new();
        assert(self.pending@ =~= Seq::empty());
        if line.as_str().is_empty() {
            if self.id.is_some() || self.event.is_some() || self.data.len() > 0 {
                let id = self.id.take();
                let event = self.event.take();
                let data = join(&self.data, "\n");
                self.data = Vec::new();
                assert(texts(self.data@) =~= Seq::empty());
                return Some(SseEvent { id, event, data });
            }
            assert(texts(self.data@) =~= Seq::empty());
            return None;
        }
        if crate::scan::starts_with(line.as_str(), ":") {
            return None;
        }
        if let Some(v) = strip_prefix(line.as_str(), "id:") {
            self.id = Some(without_lead(v.as_str()));
            return None;
        }
        if let Some(v) = strip_prefix(line.as_str(), "event:") {
            self.event = Some(without_lead(v.as_str()));
            return None;
        }
        if let Some(v) = strip_prefix(line.as_str(), "data:") {
            let value = without_lead(v.as_str());
            proof {
                texts_push(self.data@, value);
            }
            self.data.push(value);
            return None;
        }
        None
    }

    /// Takes the next piece of the stream, and gives the events that end in
    /// it.
    pub fn feed(&mut self, chunk: &[u8]) -> (r: Vec<SseEvent>)
        ensures
            sse_bytes(old(self)@, chunk@) == (final(self)@, event_views(r@)),
    {
        let ghost start = self@;
        let mut out: Vec<SseEvent> = Vec::new();
        let mut i: usize = 0;
        assert(event_views(out@) =~= Seq::empty());
        assert(chunk@.take(0) =~= Seq::empty());
        while i < chunk.len()
            invariant
                i <= chunk@.len(),
                sse_bytes(start, chunk@.take(i as int)) == (self@, event_views(out@)),
            decreases chunk@.len() - i,
        {
            let b = chunk[i];
            let ghost before = self@;
            let ghost events = event_views(out@);
            proof {
                assert(chunk@.take(i + 1).drop_last() =~= chunk@.take(i as int));
                assert(chunk@.take(i + 1).last() == b);
            }
            if b == 10 {
                match self.end_line() {
                    Some(e) => {
                        let ghost old_out = out@;
                        out.push(e);
                        assert(event_views(out@) =~= event_views(old_out) + seq![e@]);
                    },
                    None => {
                        assert(events + Seq::<SseEventView>::empty() =~= events);
                    },
                }
            } else {
                self.pending.push(b);
                proof {
                    assert(self@ =~= SseState { pending: before.pending.push(b), ..before });
                    assert(events + Seq::<SseEventView>::empty() =~= events);
                }
            }
            i = i + 1;
        }
        assert(chunk@.take(i as int) =~= chunk@);
        out
    }
}

/// The events were handed on in order, up to the first that was refused, whose
/// refusal is the result.
pub open spec fn handed_on<F: Fn(&SseEvent) -> Result<(), E>, E>(
    on_event: F,
    events: Seq<SseEvent>,
    r: Result<(), E>,
) -> bool {
    match r {
        Ok(_) => forall|i: int|
            0 <= i < events.len() ==> call_ensures(on_event, (&#[trigger] events[i],), Ok(())),
        Err(e) => exists|n: int|
            0 <= n < events.len() && call_ensures(on_event, (&#[trigger] events[n],), Err(e))
                && forall|i: int|
                0 <= i < n ==> call_ensures(on_event, (&#[trigger] events[i],), Ok(())),
    }
}

fn hand_on<F: Fn(&SseEvent) -> Result<(), E>, E>(
    events: &Vec<SseEvent>,
    on_event: &F,
) -> (r: Result<(), E>)
    requires
        forall|e: SseEvent| call_requires(*on_event, (&e,)),
    ensures
        handed_on(*on_event, events@, r),
{
    let mut i: usize = 0;
    while i < events.len()
        invariant
            i <= events@.len(),
            forall|e: SseEvent| call_requires(*on_event, (&e,)),
            forall|k: int|
                0 <= k < i ==> call_ensures(*on_event, (&#[trigger] events@[k],), Ok(())),
        decreases events@.len() - i,
    {
        match on_event(&events[i]) {
            Ok(done) => {
                assert(done == ());
                assert(call_ensures(*on_event, (&events@[i as int],), Ok(())));
            },
            Err(e) => {
                let r: Result<(), E> = Err(e);
                assert(call_ensures(*on_event, (&events@[i as int],), r));
                return r;
            },
        }
        i = i + 1;
    }
    Ok(())
}

/// Takes the next piece of a stream and hands on the events that end in it,
/// one after the other, until one is refused.
pub fn pass_on<F: Fn(&SseEvent) -> Result<(), E>, E>(
    reader: &mut SseReader,
    chunk: &[u8],
    on_event: &F,
) -> (r: Result<(), E>)
    requires
        forall|e: SseEvent| call_requires(*on_event, (&e,)),
    ensures
        final(reader)@ == sse_bytes(old(reader)@, chunk@).0,
        exists|events: Seq<SseEvent>| #[trigger]
            event_views(events) == sse_bytes(old(reader)@, chunk@).1 && handed_on(
                *on_event,
                events,
                r,
            ),
{
    let events = reader.feed(chunk);
    let r = hand_on(&events, on_event);
    assert(event_views(events@) == sse_bytes(old(reader)@, chunk@).1);
    r
}

/// The line that shows an event: its data, in the text form behind its name
/// where it has one.
pub open spec fn event_text(ev: SseEventView, as_json: bool) -> Seq<char> {
    match ev.event {
        Some(name) => if as_json {
            ev.data
        } else {
            name + ": "@ + ev.data
        },
        None => ev.data,
    }
}

/// The line that shows an event.
pub fn event_line(ev: &SseEvent, format: &str) -> (r: String)
    ensures
        r@ == event_text(ev@, format@ == "json"@),
{
    let as_json = same(format, "json");
    match &ev.event {
        Some(name) => if as_json {
            ev.data.clone()
        } else {
            cat3(name.as_str(), ": ", ev.data.as_str())
        },
        None => ev.data.clone(),
    }
}

/// How a stream is cut into pieces changes nothing: two pieces, one after
/// the other, give the events that they give together, and leave the same
/// state.
pub proof fn sse_pieces_do_not_matter(s: SseState, a: Seq<u8>, b: Seq<u8>)
    ensures
        sse_bytes(s, a + b) == ({
            let (mid, first) = sse_bytes(s, a);
            let (end, second) = sse_bytes(mid, b);
            (end, first + second)
        }),
    decreases b.len(),
{
    if b.len() == 0 {
        assert(a + b =~= a);
        let (mid, first) = sse_bytes(s, a);
        assert(first + Seq::<SseEventView>::empty() =~= first);
    } else {
        sse_pieces_do_not_matter(s, a, b.drop_last());
        assert((a + b).drop_last() =~= a + b.drop_last());
        assert((a + b).last() == b.last());
        let (mid, first) = sse_bytes(s, a);
        let (end, second) = sse_bytes(mid, b.drop_last());
        let (after, more) = sse_byte(end, b.last());
        assert((first + second) + more =~= first + (second + more));
    }
}

/// The pieces of a stream, put together.
pub open spec fn whole(pieces: Seq<Seq<u8>>) -> Seq<u8>
    decreases pieces.len(),
{
    if pieces.len() == 0 {
        Seq::empty()
    } else {
        whole(pieces.drop_last()) + pieces.last()
    }
}

/// What pieces do, one after the other.
pub open spec fn sse_pieces(s: SseState, pieces: Seq<Seq<u8>>) -> (SseState, Seq<SseEventView>)
    decreases pieces.len(),
{
    if pieces.len() == 0 {
        (s, Seq::empty())
    } else {
        let (before, events) = sse_pieces(s, pieces.drop_last());
        let (after, more) = sse_bytes(before, pieces.last());
        (after, events + more)
    }
}

/// The lines of a stream that have ended, and the bytes of the one that has
/// not.
pub open spec fn stream_lines(bytes: Seq<u8>) -> (Seq<Seq<char>>, Seq<u8>)
    decreases bytes.len(),
{
    if bytes.len() == 0 {
        (Seq::empty(), Seq::empty())
    } else {
        let (lines, rest) = stream_lines(bytes.drop_last());
        if bytes.last() == 10 {
            (lines.push(line_text(rest)), Seq::empty())
        } else {
            (lines, rest.push(bytes.last()))
        }
    }
}

/// The blocks of lines that an empty line has ended, and the lines of the one
/// that none has.
pub open spec fn stream_blocks(lines: Seq<Seq<char>>) -> (Seq<Seq<Seq<char>>>, Seq<Seq<char>>)
    decreases lines.len(),
{
    if lines.len() == 0 {
        (Seq::empty(), Seq::empty())
    } else {
        let (blocks, open) = stream_blocks(lines.drop_last());
        if lines.last().len() == 0 {
            (blocks.push(open), Seq::empty())
        } else {
            (blocks, open.push(lines.last()))
        }
    }
}

/// The values of the lines of a block that begin with the name.
pub open spec fn field_values(block: Seq<Seq<char>>, name: Seq<char>) -> Seq<Seq<char>>
    decreases block.len(),
{
    if block.len() == 0 {
        Seq::empty()
    } else {
        match after_prefix(block.last(), name) {
            Some(value) => field_values(block.drop_last(), name).push(trim_start(value)),
            None => field_values(block.drop_last(), name),
        }
    }
}

/// The last of the values.
pub open spec fn last_of(values: Seq<Seq<char>>) -> Option<Seq<char>> {
    if values.len() > 0 {
        Some(values.last())
    } else {
        None
    }
}

/// The event that a block is, where it has a line of an id, an event or data:
/// the last id, the last event, and the data with line feeds between them.
pub open spec fn block_event(block: Seq<Seq<char>>) -> Option<SseEventView> {
    let ids = field_values(block, "id:"@);
    let names = field_values(block, "event:"@);
    let data = field_values(block, "data:"@);
    if ids.len() > 0 || names.len() > 0 || data.len() > 0 {
        Some(SseEventView { id: last_of(ids), event: last_of(names), data: joined(data, "\n"@) })
    } else {
        None
    }
}

/// The events that blocks are, in order.
pub open spec fn block_events(blocks: Seq<Seq<Seq<char>>>) -> Seq<SseEventView>
    decreases blocks.len(),
{
    if blocks.len() == 0 {
        Seq::empty()
    } else {
        match block_event(blocks.last()) {
            Some(e) => block_events(blocks.drop_last()).push(e),
            None => block_events(blocks.drop_last()),
        }
    }
}

/// What is known after the bytes of a stream: the unfinished line, and the
/// fields of the unfinished block.
spec fn state_after(bytes: Seq<u8>) -> SseState {
    let (lines, rest) = stream_lines(bytes);
    let open = stream_blocks(lines).1;
    SseState {
        pending: rest,
        id: last_of(field_values(open, "id:"@)),
        event: last_of(field_values(open, "event:"@)),
        data: field_values(open, "data:"@),
    }
}

proof fn fields_differ(line: Seq<char>)
    ensures
        ":"@.is_prefix_of(line) ==> after_prefix(line, "id:"@) is None && after_prefix(
            line,
            "event:"@,
        ) is None && after_prefix(line, "data:"@) is None,
        after_prefix(line, "id:"@) is Some ==> after_prefix(line, "event:"@) is None
            && after_prefix(line, "data:"@) is None,
        after_prefix(line, "event:"@) is Some ==> after_prefix(line, "data:"@) is None,
{
    reveal_strlit(":");
    reveal_strlit("id:");
    reveal_strlit("event:");
    reveal_strlit("data:");
    assert(":"@.is_prefix_of(line) ==> line[0] == ":"@[0]);
    assert("id:"@.is_prefix_of(line) ==> line[0] == "id:"@[0]);
    assert("event:"@.is_prefix_of(line) ==> line[0] == "event:"@[0]);
    assert("data:"@.is_prefix_of(line) ==> line[0] == "data:"@[0]);
}

proof fn stream_is_its_blocks(bytes: Seq<u8>)
    ensures
        sse_bytes(sse_start(), bytes) == (
            state_after(bytes),
            block_events(stream_blocks(stream_lines(bytes).0).0),
        ),
    decreases bytes.len(),
{
    if bytes.len() == 0 {
        assert(state_after(bytes) =~= sse_start());
    } else {
        let before = bytes.drop_last();
        stream_is_its_blocks(before);
        let (lines, rest) = stream_lines(before);
        let (blocks, open) = stream_blocks(lines);
        let state = state_after(before);
        let events = block_events(blocks);
        assert(events + Seq::<SseEventView>::empty() =~= events);
        if bytes.last() == 10 {
            let line = line_text(rest);
            assert(lines.push(line).drop_last() =~= lines);
            fields_differ(line);
            if line.len() == 0 {
                assert(blocks.push(open).drop_last() =~= blocks);
                assert(field_values(Seq::empty(), "id:"@) =~= Seq::empty());
                match block_event(open) {
                    Some(e) => {
                        assert(events + seq![e] =~= events.push(e));
                    },
                    None => {},
                }
            } else {
                assert(open.push(line).drop_last() =~= open);
            }
            assert(sse_byte(state, 10u8).0 =~= state_after(bytes));
        } else {
            assert(sse_byte(state, bytes.last()).0 =~= state_after(bytes));
        }
    }
}

/// However a stream is cut into pieces, the events that it gives are its
/// blocks of lines: one for each that an empty line has ended and that has an
/// `id:`, `event:` or `data:` line, in order, with the data joined by line
/// feeds. Other lines add nothing, and a block that nothing has ended gives no
/// event.
pub proof fn sse_gives_the_blocks(pieces: Seq<Seq<u8>>)
    ensures
        sse_pieces(sse_start(), pieces) == sse_bytes(sse_start(), whole(pieces)),
        sse_pieces(sse_start(), pieces).1 == block_events(
            stream_blocks(stream_lines(whole(pieces)).0).0,
        ),
    decreases pieces.len(),
{
    if pieces.len() > 0 {
        sse_gives_the_blocks(pieces.drop_last());
        sse_pieces_do_not_matter(sse_start(), whole(pieces.drop_last()), pieces.last());
    }
    stream_is_its_blocks(whole(pieces));
}

/// Comments, and lines that are no field, add nothing to a block.
pub proof fn comments_add_nothing(
    before: Seq<Seq<char>>,
    line: Seq<char>,
    after: Seq<Seq<char>>,
)
    requires
        ":"@.is_prefix_of(line) || (after_prefix(line, "id:"@) is None && after_prefix(
            line,
            "event:"@,
        ) is None && after_prefix(line, "data:"@) is None),
    ensures
        block_event(before.push(line) + after) == block_event(before + after),
{
    fields_differ(line);
    values_skip(before, line, after, "id:"@);
    values_skip(before, line, after, "event:"@);
    values_skip(before, line, after, "data:"@);
}

proof fn values_skip(
    before: Seq<Seq<char>>,
    line: Seq<char>,
    after: Seq<Seq<char>>,
    name: Seq<char>,
)
    requires
        after_prefix(line, name) is None,
    ensures
        field_values(before.push(line) + after, name) == field_values(before + after, name),
    decreases after.len(),
{
    let with = before.push(line) + after;
    if after.len() == 0 {
        assert(with =~= before.push(line));
        assert(with.drop_last() =~= before);
        assert(before + after =~= before);
    } else {
        values_skip(before, line, after.drop_last(), name);
        assert(with.drop_last() =~= before.push(line) + after.drop_last());
        assert((before + after).drop_last() =~= before + after.drop_last());
        assert(with.last() == (before + after).last());
    }
}

/// Between two pieces no finished line is left over.
pub proof fn sse_keeps_no_finished_line(s: SseState, bytes: Seq<u8>)
    requires
        !s.pending.contains(10u8),
    ensures
        !sse_bytes(s, bytes).0.pending.contains(10u8),
    decreases bytes.len(),
{
    if bytes.len() > 0 {
        sse_keeps_no_finished_line(s, bytes.drop_last());
    }
}

} // verus!
