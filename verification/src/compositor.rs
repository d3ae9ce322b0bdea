//! What a compositor tells about its windows: reading the window list of
//! niri and the client list of Hyprland.

use crate::text::{from_chars, str_eq, to_chars};
use vstd::prelude::*;

verus! {

/// `serde_json::Value`, a JSON value.
#[verifier::external_type_specification]
#[verifier::external_body]
pub struct ExJsonValue(serde_json::Value);

/// `serde_json::Error`, why bytes could not be read as JSON.
#[verifier::external_type_specification]
#[verifier::external_body]
pub struct ExJsonError(serde_json::Error);

/// The lower-case form of a string by the Unicode rules.
pub uninterp spec fn unicode_lowercase(s: Seq<char>) -> Seq<char>;

/// `str::to_lowercase` depends on the string alone.
pub assume_specification[ str::to_lowercase ](s: &str) -> (r: String)
    ensures
        r@ == unicode_lowercase(s@),
;

/// The elements of the JSON array that `bytes` spell, or nothing where they
/// do not spell one.
pub uninterp spec fn json_array(bytes: Seq<u8>) -> Option<Seq<serde_json::Value>>;

/// The value that a JSON object holds under `key`; a value that is no
/// object holds none.
pub uninterp spec fn json_field(v: serde_json::Value, key: Seq<char>) -> Option<serde_json::Value>;

/// The text of a JSON string; other values have none.
pub uninterp spec fn json_string(v: serde_json::Value) -> Option<Seq<char>>;

/// `serde_json::from_slice` for a vector of values: it succeeds exactly on
/// the bytes that spell a JSON array, and depends on the bytes alone.
#[verifier::external_body]
fn parse_json_array(bytes: &[u8]) -> (r: Result<Vec<serde_json::Value>, serde_json::Error>)
    ensures
        match r {
            Ok(items) => json_array(bytes@) == Some(items@),
            Err(_) => json_array(bytes@) is None,
        },
{
    serde_json::from_slice::<Vec<serde_json::Value>>(bytes)
}

/// `Value::get` with a string index: the member of an object, `None` for a
/// missing key and for a value that is no object. It never panics.
#[verifier::external_body]
fn json_get<'a>(v: &'a serde_json::Value, key: &str) -> (r: Option<&'a serde_json::Value>)
    ensures
        match r {
            Some(member) => json_field(*v, key@) == Some(*member),
            None => json_field(*v, key@) is None,
        },
{
    v.get(key)
}

/// `Value::as_str`: the text of a string value, `None` for every other
/// value.
pub assume_specification<'a>[ serde_json::Value::as_str ](v: &'a serde_json::Value) -> (r: Option<
    &'a str,
>)
    ensures
        match r {
            Some(s) => json_string(*v) == Some(s@),
            None => json_string(*v) is None,
        },
;

/// The compositors whose window lists can be read.
#[derive(Clone, Copy, Debug, PartialEq, Eq, Structural)]
pub enum Compositor {
    Niri,
    Hyprland,
    /// No window list: processes are scanned instead.
    Other,
}

/// The compositor that a desktop name, in lower case, stands for.
pub open spec fn compositor_named(lowered: Seq<char>) -> Compositor {
    if lowered == "niri"@ {
        Compositor::Niri
    } else if lowered == "hyprland"@ {
        Compositor::Hyprland
    } else {
        Compositor::Other
    }
}

impl Compositor {
    /// The compositor that the session's desktop name announces; case is
    /// ignored.
    pub fn from_desktop(desktop: &str) -> (c: Compositor)
        ensures
            c == compositor_named(unicode_lowercase(desktop@)),
    {
        let lowered = desktop.to_lowercase();
        Compositor::from_lowered(lowered.as_str())
    }

    /// The compositor that a desktop name in lower case stands for.
    pub fn from_lowered(lowered: &str) -> (c: Compositor)
        ensures
            c == compositor_named(lowered@),
    {
        if str_eq(lowered, "niri") {
            Compositor::Niri
        } else if str_eq(lowered, "hyprland") {
            Compositor::Hyprland
        } else {
            Compositor::Other
        }
    }
}

// ----- lines ---------------------------------------------------------------

/// A line without the carriage return that stood before its line feed.
pub open spec fn without_cr(line: Seq<char>) -> Seq<char> {
    if line.len() > 0 && line.last() == '\r' {
        line.drop_last()
    } else {
        line
    }
}

/// The lines of `s` from the line that begins at `start` on, `pos` being how
/// far that line has been read. A line ends with a line feed, or with a
/// carriage return and a line feed; the last line needs no ending.
pub open spec fn lines_from(s: Seq<char>, start: int, pos: int) -> Seq<Seq<char>>
    decreases s.len() - pos,
{
    if pos < 0 || start < 0 || start > pos {
        Seq::empty()
    } else if pos >= s.len() {
        if start < s.len() {
            seq![s.subrange(start, s.len() as int)]
        } else {
            Seq::empty()
        }
    } else if s[pos] == '\n' {
        seq![without_cr(s.subrange(start, pos))] + lines_from(s, pos + 1, pos + 1)
    } else {
        lines_from(s, start, pos + 1)
    }
}

/// The lines of `s`.
pub open spec fn lines(s: Seq<char>) -> Seq<Seq<char>> {
    lines_from(s, 0, 0)
}

/// `s` without the characters `c` that it begins with.
pub open spec fn strip_front(s: Seq<char>, c: char) -> Seq<char>
    decreases s.len(),
{
    if s.len() > 0 && s[0] == c {
        strip_front(s.drop_first(), c)
    } else {
        s
    }
}

/// `s` without the characters `c` that it ends with.
pub open spec fn strip_back(s: Seq<char>, c: char) -> Seq<char>
    decreases s.len(),
{
    if s.len() > 0 && s.last() == c {
        strip_back(s.drop_last(), c)
    } else {
        s
    }
}

/// `s` without the characters `c` at both ends.
pub open spec fn stripped(s: Seq<char>, c: char) -> Seq<char> {
    strip_back(strip_front(s, c), c)
}

/// The label before an application identifier in niri's window list.
pub open spec fn app_id_label() -> Seq<char> {
    "  App ID: "@
}

/// The application identifier that a line of niri's window list gives: what
/// follows the label, without quotes around it.
pub open spec fn app_id_of_line(line: Seq<char>) -> Option<Seq<char>> {
    if app_id_label().is_prefix_of(line) {
        Some(stripped(line.skip(app_id_label().len() as int), '"'))
    } else {
        None
    }
}

/// The application identifiers that the lines give, in order.
pub open spec fn app_ids_of(lines: Seq<Seq<char>>) -> Seq<Seq<char>>
    decreases lines.len(),
{
    if lines.len() == 0 {
        Seq::empty()
    } else {
        let rest = app_ids_of(lines.drop_last());
        match app_id_of_line(lines.last()) {
            Some(id) => rest.push(id),
            None => rest,
        }
    }
}

/// The application identifiers in the text of niri's window list.
pub open spec fn niri_ids(text: Seq<char>) -> Seq<Seq<char>> {
    app_ids_of(lines(text))
}

/// The identifier that the line `v[from..to]` gives.
fn line_app_id(v: &Vec<char>, from: usize, to: usize) -> (r: Option<String>)
    requires
        from <= to <= v.len(),
    ensures
        match r {
            Some(id) => app_id_of_line(v@.subrange(from as int, to as int)) == Some(id@),
            None => app_id_of_line(v@.subrange(from as int, to as int)) is None,
        },
{
    let label = to_chars("  App ID: ");
    let ghost line = v@.subrange(from as int, to as int);
    if to - from < label.len() {
        return None;
    }
    let mut k: usize = 0;
    while k < label.len()
        invariant
            k <= label.len(),
            from <= to <= v.len(),
            label.len() <= to - from,
            label@ == app_id_label(),
            line == v@.subrange(from as int, to as int),
            forall|j: int| 0 <= j < k ==> label@[j] == line[j],
        decreases label.len() - k,
    {
        if label[k] != v[from + k] {
            assert(line.subrange(0, label@.len() as int)[k as int] == line[k as int]);
            return None;
        }
        k += 1;
    }
    assert(label@ =~= line.subrange(0, label@.len() as int));
    let ghost body = line.skip(label@.len() as int);
    let mut a: usize = from + label.len();
    assert(v@.subrange(a as int, to as int) =~= body);
    while a < to && v[a] == '"'
        invariant
            from <= a <= to <= v.len(),
            strip_front(body, '"') == strip_front(v@.subrange(a as int, to as int), '"'),
        decreases to - a,
    {
        assert(v@.subrange(a as int, to as int).drop_first() =~= v@.subrange(a + 1, to as int));
        a += 1;
    }
    let ghost front = v@.subrange(a as int, to as int);
    assert(strip_front(body, '"') == front);
    let mut b: usize = to;
    while b > a && v[b - 1] == '"'
        invariant
            a <= b <= to <= v.len(),
            strip_back(front, '"') == strip_back(v@.subrange(a as int, b as int), '"'),
        decreases b,
    {
        assert(v@.subrange(a as int, b as int).drop_last() =~= v@.subrange(a as int, b - 1));
        b -= 1;
    }
    Some(from_chars(v, a, b))
}

/// Reads the application identifiers from the text of niri's window list.
pub fn niri_app_ids(text: &str) -> (ids: Vec<String>)
    ensures
        crate::app_inhibit::texts(ids@) == niri_ids(text@),
{
    let v = to_chars(text);
    let ghost s = v@;
    let mut ids: Vec<String> = Vec::new();
    let ghost mut done: Seq<Seq<char>> = Seq::empty();
    let mut start: usize = 0;
    let mut pos: usize = 0;
    assert(crate::app_inhibit::texts(ids@) =~= app_ids_of(done));
    assert(done + lines_from(s, 0, 0) =~= lines(s));
    while pos < v.len()
        invariant
            start <= pos <= v.len(),
            s == v@,
            s == text@,
            lines(s) == done + lines_from(s, start as int, pos as int),
            crate::app_inhibit::texts(ids@) == app_ids_of(done),
        decreases v.len() - pos,
    {
        if v[pos] == '\n' {
            let end: usize = if pos > start && v[pos - 1] == '\r' {
                pos - 1
            } else {
                pos
            };
            let ghost line = without_cr(s.subrange(start as int, pos as int));
            assert(line =~= s.subrange(start as int, end as int));
            let ghost prev = crate::app_inhibit::texts(ids@);
            match line_app_id(&v, start, end) {
                Some(id) => {
                    ids.push(id);
                    assert(crate::app_inhibit::texts(ids@) =~= prev.push(id@));
                },
                None => {},
            }
            proof {
                assert(done.push(line).drop_last() =~= done);
                assert(done.push(line) + lines_from(s, pos + 1, pos + 1) =~= done + (seq![line]
                    + lines_from(s, pos + 1, pos + 1)));
                done = done.push(line);
            }
            start = pos + 1;
        }
        pos += 1;
    }
    if start < v.len() {
        let ghost line = s.subrange(start as int, s.len() as int);
        let ghost prev = crate::app_inhibit::texts(ids@);
        match line_app_id(&v, start, v.len()) {
            Some(id) => {
                ids.push(id);
                assert(crate::app_inhibit::texts(ids@) =~= prev.push(id@));
            },
            None => {},
        }
        proof {
            assert(done.push(line).drop_last() =~= done);
            assert(done.push(line) =~= done + seq![line]);
            done = done.push(line);
        }
    } else {
        assert(done + Seq::<Seq<char>>::empty() =~= done);
    }
    ids
}

// ----- Hyprland ------------------------------------------------------------

/// The application identifier of one Hyprland client: its `class` if it has
/// that member, else its `app_id`; nothing where the member is no string.
pub open spec fn client_app_id(client: serde_json::Value) -> Option<Seq<char>> {
    match json_field(client, "class"@) {
        Some(class) => json_string(class),
        None => match json_field(client, "app_id"@) {
            Some(id) => json_string(id),
            None => None,
        },
    }
}

/// The application identifiers of the clients, in order.
pub open spec fn client_app_ids(clients: Seq<serde_json::Value>) -> Seq<Seq<char>>
    decreases clients.len(),
{
    if clients.len() == 0 {
        Seq::empty()
    } else {
        let rest = client_app_ids(clients.drop_last());
        match client_app_id(clients.last()) {
            Some(id) => rest.push(id),
            None => rest,
        }
    }
}

/// The application identifiers in the bytes of Hyprland's client list, or
/// nothing where the bytes are no JSON array.
pub open spec fn hyprland_ids(bytes: Seq<u8>) -> Option<Seq<Seq<char>>> {
    match json_array(bytes) {
        Some(clients) => Some(client_app_ids(clients)),
        None => None,
    }
}

/// The application identifier of one client.
pub fn app_id_of_client(client: &serde_json::Value) -> (r: Option<String>)
    ensures
        crate::config::model::option_text(r) == client_app_id(*client),
{
    let member = match json_get(client, "class") {
        Some(class) => class.as_str(),
        None => match json_get(client, "app_id") {
            Some(id) => id.as_str(),
            None => None,
        },
    };
    match member {
        Some(s) => Some(String::from_str(s)),
        None => None,
    }
}

/// The application identifiers of a parsed client list.
pub fn app_ids_of_clients(clients: &Vec<serde_json::Value>) -> (ids: Vec<String>)
    ensures
        crate::app_inhibit::texts(ids@) == client_app_ids(clients@),
{
    let mut ids: Vec<String> = Vec::new();
    let mut i: usize = 0;
    assert(clients@.take(0) =~= Seq::empty());
    assert(crate::app_inhibit::texts(ids@) =~= Seq::empty());
    while i < clients.len()
        invariant
            i <= clients.len(),
            crate::app_inhibit::texts(ids@) == client_app_ids(clients@.take(i as int)),
        decreases clients.len() - i,
    {
        let ghost prev = crate::app_inhibit::texts(ids@);
        assert(clients@.take(i + 1).drop_last() =~= clients@.take(i as int));
        assert(clients@.take(i + 1).last() == clients@[i as int]);
        match app_id_of_client(&clients[i]) {
            Some(id) => {
                ids.push(id);
                assert(crate::app_inhibit::texts(ids@) =~= prev.push(id@));
            },
            None => {},
        }
        i += 1;
    }
    assert(clients@.take(clients.len() as int) =~= clients@);
    ids
}

/// Why a window list could not be read.
#[derive(Clone, Copy, Debug, PartialEq, Eq, Structural)]
pub enum IpcError {
    /// The answer is no JSON array.
    MalformedJson,
}

/// Reads the application identifiers from the bytes of Hyprland's client
/// list.
pub fn hyprland_app_ids(bytes: &[u8]) -> (r: Result<Vec<String>, IpcError>)
    ensures
        match r {
            Ok(ids) => hyprland_ids(bytes@) == Some(crate::app_inhibit::texts(ids@)),
            Err(e) => hyprland_ids(bytes@) is None && e == IpcError::MalformedJson,
        },
{
    match parse_json_array(bytes) {
        Ok(clients) => Ok(app_ids_of_clients(&clients)),
        Err(_) => Err(IpcError::MalformedJson),
    }
}

} // verus!
