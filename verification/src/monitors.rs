//! The monitor listing (`--list-monitors`) and the result file of the
//! interactive scripts: JSON reports read field by field, with a default
//! for every field that is missing or of another type.
use vstd::prelude::*;
use crate::inbox::AwaitStep;
use crate::json::{
    Json, JsonDoc, doc_as_array, doc_as_bool, doc_as_i64, doc_as_str, doc_as_u64, doc_get, doc_of,
    json_as_array, json_as_bool, json_as_i64, json_as_str, json_as_u64, json_get, parse_json,
    parse_json_bytes, parsed_json, parsed_json_bytes,
};
use crate::text::{
    chars_of, decimal, extend_chars, extend_str, pad_left, pad_right, push_decimal,
    push_pad_left, push_pad_right, push_signed_decimal, signed_decimal, string_of,
};

verus! {

// ---------------------------------------------------------------------------
// Monitors
// ---------------------------------------------------------------------------

/// What a monitor report holds; `None` where the field is missing or of
/// another type.
#[derive(Debug)]
pub struct MonitorFields {
    pub index: Option<u64>,
    pub name: Option<String>,
    pub active: Option<bool>,
    pub model: Option<String>,
    pub manufacturer: Option<String>,
    pub x: Option<i64>,
    pub y: Option<i64>,
    pub width: Option<i64>,
    pub height: Option<i64>,
}

/// What a monitor report holds, as plain values.
pub struct MonitorModel {
    pub index: Option<u64>,
    pub name: Option<Seq<char>>,
    pub active: Option<bool>,
    pub model: Option<Seq<char>>,
    pub manufacturer: Option<Seq<char>>,
    pub x: Option<i64>,
    pub y: Option<i64>,
    pub width: Option<i64>,
    pub height: Option<i64>,
}

pub open spec fn opt_view(o: Option<String>) -> Option<Seq<char>> {
    match o {
        Some(s) => Some(s@),
        None => None,
    }
}

impl MonitorFields {
    pub open spec fn model(&self) -> MonitorModel {
        MonitorModel {
            index: self.index,
            name: opt_view(self.name),
            active: self.active,
            model: opt_view(self.model),
            manufacturer: opt_view(self.manufacturer),
            x: self.x,
            y: self.y,
            width: self.width,
            height: self.height,
        }
    }
}

pub open spec fn text_or(o: Option<Seq<char>>, d: Seq<char>) -> Seq<char> {
    match o {
        Some(s) => s,
        None => d,
    }
}

pub open spec fn int_or(o: Option<i64>) -> int {
    match o {
        Some(v) => v as int,
        None => 0,
    }
}

/// One line of the monitor table, from its cells.
pub open spec fn table_line(
    idx: Seq<char>,
    name: Seq<char>,
    w: Seq<char>,
    h: Seq<char>,
    x: Seq<char>,
    y: Seq<char>,
    mark: Seq<char>,
    label: Seq<char>,
) -> Seq<char> {
    pad_left(idx, 3) + "  "@ + pad_right(name, 8) + "  "@ + pad_left(w, 5) + "x"@ + pad_right(h, 5) + "  "@
        + pad_left(x, 5) + ","@ + pad_right(y, 5) + "  "@ + pad_right(mark, 1) + "  "@ + label
}

/// The table's heading.
pub open spec fn monitor_header_spec() -> Seq<char> {
    table_line("idx"@, "name"@, "w"@, "h"@, "x"@, "y"@, "*"@, "model"@)
}

/// How a monitor is labelled: "<manufacturer> <model>" when both are known,
/// else the model alone.
pub open spec fn monitor_label_spec(f: MonitorModel) -> Seq<char> {
    let model = text_or(f.model, Seq::empty());
    let mfr = text_or(f.manufacturer, Seq::empty());
    if mfr.len() > 0 && model.len() > 0 {
        mfr + " "@ + model
    } else {
        model
    }
}

/// The table line of one monitor: index 0, name "?", inactive, empty model
/// and manufacturer and a zero geometry stand in for what is missing.
pub open spec fn monitor_row_spec(f: MonitorModel) -> Seq<char> {
    table_line(
        decimal(match f.index {
            Some(i) => i as nat,
            None => 0,
        }),
        text_or(f.name, "?"@),
        signed_decimal(int_or(f.width)),
        signed_decimal(int_or(f.height)),
        signed_decimal(int_or(f.x)),
        signed_decimal(int_or(f.y)),
        if f.active == Some(true) {
            "*"@
        } else {
            " "@
        },
        monitor_label_spec(f),
    )
}

fn push_table_line(
    out: &mut Vec<char>,
    idx: &Vec<char>,
    name: &Vec<char>,
    w: &Vec<char>,
    h: &Vec<char>,
    x: &Vec<char>,
    y: &Vec<char>,
    mark: &Vec<char>,
    label: &Vec<char>,
)
    ensures
        final(out)@ == old(out)@ + table_line(idx@, name@, w@, h@, x@, y@, mark@, label@),
{
    let mut v: Vec<char> = Vec::new();
    push_pad_left(&mut v, idx, 3);
    assert(v@ =~= pad_left(idx@, 3));
    extend_str(&mut v, "  ");
    push_pad_right(&mut v, name, 8);
    extend_str(&mut v, "  ");
    push_pad_left(&mut v, w, 5);
    extend_str(&mut v, "x");
    push_pad_right(&mut v, h, 5);
    extend_str(&mut v, "  ");
    push_pad_left(&mut v, x, 5);
    extend_str(&mut v, ",");
    push_pad_right(&mut v, y, 5);
    extend_str(&mut v, "  ");
    push_pad_right(&mut v, mark, 1);
    extend_str(&mut v, "  ");
    extend_chars(&mut v, label);
    assert(v@ == table_line(idx@, name@, w@, h@, x@, y@, mark@, label@));
    extend_chars(out, &v);
}

/// The table's heading.
pub fn monitor_header() -> (r: String)
    ensures
        r@ == monitor_header_spec(),
{
    let mut out: Vec<char> = Vec::new();
    push_table_line(
        &mut out,
        &chars_of("idx"),
        &chars_of("name"),
        &chars_of("w"),
        &chars_of("h"),
        &chars_of("x"),
        &chars_of("y"),
        &chars_of("*"),
        &chars_of("model"),
    );
    string_of(&out)
}

fn text_or_chars(o: &Option<String>, d: &str) -> (r: Vec<char>)
    ensures
        r@ == text_or(opt_view(*o), d@),
{
    match o {
        Some(s) => chars_of(s.as_str()),
        None => chars_of(d),
    }
}

fn signed_chars(o: Option<i64>) -> (r: Vec<char>)
    ensures
        r@ == signed_decimal(int_or(o)),
{
    let mut v: Vec<char> = Vec::new();
    let n: i64 = match o {
        Some(n) => n,
        None => 0,
    };
    push_signed_decimal(&mut v, n);
    v
}

/// The label of a monitor.
pub fn monitor_label(f: &MonitorFields) -> (r: Vec<char>)
    ensures
        r@ == monitor_label_spec(f.model()),
{
    let model = text_or_chars(&f.model, "");
    let mfr = text_or_chars(&f.manufacturer, "");
    proof {
        reveal_strlit("");
    }
    if mfr.len() > 0 && model.len() > 0 {
        let mut v = mfr;
        extend_str(&mut v, " ");
        extend_chars(&mut v, &model);
        v
    } else {
        model
    }
}

/// The table line of one monitor.
pub fn monitor_row(f: &MonitorFields) -> (r: String)
    ensures
        r@ == monitor_row_spec(f.model()),
{
    let mut idx: Vec<char> = Vec::new();
    let i: u64 = match f.index {
        Some(i) => i,
        None => 0,
    };
    push_decimal(&mut idx, i);
    let name = text_or_chars(&f.name, "?");
    let w = signed_chars(f.width);
    let h = signed_chars(f.height);
    let x = signed_chars(f.x);
    let y = signed_chars(f.y);
    let active: bool = match f.active {
        Some(b) => b,
        None => false,
    };
    let mark = if active { chars_of("*") } else { chars_of(" ") };
    let label = monitor_label(f);
    let mut out: Vec<char> = Vec::new();
    push_table_line(&mut out, &idx, &name, &w, &h, &x, &y, &mark, &label);
    string_of(&out)
}

fn opt_string(o: Option<&str>) -> (r: Option<String>)
    ensures
        match o {
            Some(s) => r matches Some(t) && t@ == s@,
            None => r is None,
        },
{
    match o {
        Some(s) => Some(s.to_owned()),
        None => None,
    }
}

/// The text member called `key`, if there is one.
pub open spec fn str_member(d: JsonDoc, key: Seq<char>) -> Option<Seq<char>> {
    match doc_get(d, key) {
        Some(x) => doc_as_str(x),
        None => None,
    }
}

/// The integer member called `key`, as `u64`, if there is one.
pub open spec fn u64_member(d: JsonDoc, key: Seq<char>) -> Option<u64> {
    match doc_get(d, key) {
        Some(x) => doc_as_u64(x),
        None => None,
    }
}

/// The integer member called `key`, as `i64`, if there is one.
pub open spec fn i64_member(d: JsonDoc, key: Seq<char>) -> Option<i64> {
    match doc_get(d, key) {
        Some(x) => doc_as_i64(x),
        None => None,
    }
}

/// The boolean member called `key`, if there is one.
pub open spec fn bool_member(d: JsonDoc, key: Seq<char>) -> Option<bool> {
    match doc_get(d, key) {
        Some(x) => doc_as_bool(x),
        None => None,
    }
}

/// The integer `key` of the member `geometry`, if there is one.
pub open spec fn geometry_member(d: JsonDoc, key: Seq<char>) -> Option<i64> {
    match doc_get(d, "geometry"@) {
        Some(g) => i64_member(g, key),
        None => None,
    }
}

/// What one element of the `monitors` array reports.
pub open spec fn monitor_model_of(d: JsonDoc) -> MonitorModel {
    MonitorModel {
        index: u64_member(d, "index"@),
        name: str_member(d, "name"@),
        active: bool_member(d, "active"@),
        model: str_member(d, "model"@),
        manufacturer: str_member(d, "manufacturer"@),
        x: geometry_member(d, "x"@),
        y: geometry_member(d, "y"@),
        width: geometry_member(d, "width"@),
        height: geometry_member(d, "height"@),
    }
}

fn str_field(m: &Json, key: &str) -> (r: Option<String>)
    ensures
        opt_view(r) == str_member(doc_of(*m), key@),
{
    match json_get(m, key) {
        Some(v) => opt_string(json_as_str(v)),
        None => None,
    }
}

/// The fields of one monitor report.
pub fn monitor_fields(m: &Json) -> (r: MonitorFields)
    ensures
        r.model() == monitor_model_of(doc_of(*m)),
{
    let index = match json_get(m, "index") {
        Some(v) => json_as_u64(v),
        None => None,
    };
    let name = str_field(m, "name");
    let active = match json_get(m, "active") {
        Some(v) => json_as_bool(v),
        None => None,
    };
    let model = str_field(m, "model");
    let manufacturer = str_field(m, "manufacturer");
    let (x, y, width, height) = match json_get(m, "geometry") {
        Some(g) => (geometry_field(g, "x"), geometry_field(g, "y"), geometry_field(g, "width"), geometry_field(g, "height")),
        None => (None, None, None, None),
    };
    MonitorFields { index, name, active, model, manufacturer, x, y, width, height }
}

/// The integer member `key` of a geometry object.
fn geometry_field(g: &Json, key: &str) -> (r: Option<i64>)
    ensures
        r == i64_member(doc_of(*g), key@),
{
    match json_get(g, key) {
        Some(v) => json_as_i64(v),
        None => None,
    }
}

/// Why the monitor report could not be listed.
pub enum MonitorsFailure {
    InvalidJson,
    MissingMonitors,
}

/// Why the monitor report could not be listed.
#[derive(Debug)]
pub enum MonitorsError {
    /// The report is not JSON.
    InvalidJson(serde_json::Error),
    /// The report has no `monitors` array.
    MissingMonitors,
}

impl MonitorsError {
    pub open spec fn failure(&self) -> MonitorsFailure {
        match self {
            MonitorsError::InvalidJson(_) => MonitorsFailure::InvalidJson,
            MonitorsError::MissingMonitors => MonitorsFailure::MissingMonitors,
        }
    }

    /// The text that reports the failure; a parse error's own text goes after it.
    pub fn message(&self) -> (r: String)
        ensures
            r@ == match self {
                MonitorsError::InvalidJson(_) => "parse monitors json"@,
                MonitorsError::MissingMonitors => "missing monitors[] in payload"@,
            },
    {
        match self {
            MonitorsError::InvalidJson(_) => "parse monitors json".to_owned(),
            MonitorsError::MissingMonitors => "missing monitors[] in payload".to_owned(),
        }
    }
}

/// The monitor table for a parsed report: an error for text that is not
/// JSON or has no `monitors` array; else the heading, then one line for each
/// element of the array, in order.
pub open spec fn monitor_table_spec(doc: Option<JsonDoc>) -> Result<Seq<Seq<char>>, MonitorsFailure> {
    match doc {
        None => Err(MonitorsFailure::InvalidJson),
        Some(d) => {
            let items = match doc_get(d, "monitors"@) {
                Some(m) => doc_as_array(m),
                None => None,
            };
            match items {
                None => Err(MonitorsFailure::MissingMonitors),
                Some(items) => Ok(
                    seq![monitor_header_spec()] + Seq::new(
                        items.len(),
                        |i: int| monitor_row_spec(monitor_model_of(items[i])),
                    ),
                ),
            }
        },
    }
}

/// The lines of `--list-monitors` from the report that the monitor script sends back.
pub fn monitor_table(payload: &str) -> (r: Result<Vec<String>, MonitorsError>)
    ensures
        match r {
            Ok(lines) => monitor_table_spec(parsed_json(payload@)) == Ok::<Seq<Seq<char>>, MonitorsFailure>(
                lines@.map_values(|s: String| s@),
            ),
            Err(e) => monitor_table_spec(parsed_json(payload@)) == Err::<Seq<Seq<char>>, MonitorsFailure>(
                e.failure(),
            ),
        },
{
    let v = match parse_json(payload) {
        Ok(v) => v,
        Err(e) => return Err(MonitorsError::InvalidJson(e)),
    };
    let monitors = match json_get(&v, "monitors") {
        Some(m) => json_as_array(m),
        None => None,
    };
    let monitors = match monitors {
        Some(a) => a,
        None => return Err(MonitorsError::MissingMonitors),
    };
    let ghost items = doc_as_array(doc_get(doc_of(v), "monitors"@)->0)->0;
    let mut lines: Vec<String> = Vec::new();
    lines.push(monitor_header());
    for i in 0..monitors.len()
        invariant
            items.len() == monitors@.len(),
            forall|k: int| 0 <= k < items.len() ==> #[trigger] doc_of(monitors@[k]) == items[k],
            lines@.len() == i + 1,
            lines@[0]@ == monitor_header_spec(),
            forall|k: int| 1 <= k < lines@.len() ==> #[trigger] lines@[k]@ == monitor_row_spec(monitor_model_of(items[k - 1])),
    {
        let f = monitor_fields(&monitors[i]);
        let row = monitor_row(&f);
        lines.push(row);
    }
    assert(lines@.map_values(|s: String| s@) =~= seq![monitor_header_spec()] + Seq::new(
        items.len(),
        |i: int| monitor_row_spec(monitor_model_of(items[i])),
    ));
    Ok(lines)
}

// ---------------------------------------------------------------------------
// Result file of the interactive scripts
// ---------------------------------------------------------------------------

/// The status and payload of a script's report: "unknown" when it names no
/// status, `{}` when it carries no payload.
pub fn report_from_fields(status: Option<&str>, payload_json: Option<String>) -> (r: (String, String))
    ensures
        r.0@ == match status {
            Some(s) => s@,
            None => "unknown"@,
        },
        r.1@ == match payload_json {
            Some(p) => p@,
            None => "{}"@,
        },
{
    let s = match status {
        Some(s) => s.to_owned(),
        None => "unknown".to_owned(),
    };
    let p = match payload_json {
        Some(p) => p,
        None => "{}".to_owned(),
    };
    (s, p)
}

/// The report in a result file: nothing while the file is empty or not
/// (yet) JSON; else its `status` text ("unknown" without one) and the compact
/// text of its `payload` (`{}` without one).
pub open spec fn file_result_spec(bytes: Seq<u8>) -> Option<(Seq<char>, Seq<char>)> {
    if bytes.len() == 0 {
        None
    } else {
        match parsed_json_bytes(bytes) {
            None => None,
            Some(d) => Some(
                (
                    text_or(str_member(d, "status"@), "unknown"@),
                    match doc_get(d, "payload"@) {
                        Some(p) => p.text,
                        None => "{}"@,
                    },
                ),
            ),
        }
    }
}

/// The report in the bytes of a result file, once it is complete.
pub fn file_result(bytes: &[u8]) -> (r: Option<(String, String)>)
    ensures
        match r {
            Some(v) => file_result_spec(bytes@) == Some((v.0@, v.1@)),
            None => file_result_spec(bytes@) is None,
        },
{
    if bytes.len() == 0 {
        return None;
    }
    match parse_json_bytes(bytes) {
        Ok(v) => {
            let status = match json_get(&v, "status") {
                Some(s) => json_as_str(s),
                None => None,
            };
            let payload = match json_get(&v, "payload") {
                Some(p) => Some(p.text.clone()),
                None => None,
            };
            Some(report_from_fields(status, payload))
        },
        Err(_) => None,
    }
}

/// One round of waiting for a result file: take the report if the file could
/// be read and holds a complete one, else give up once the deadline has
/// passed, else keep waiting.
pub fn file_await_step(read: Option<&[u8]>, deadline_passed: bool) -> (r: AwaitStep)
    ensures
        match (match read {
            Some(b) => file_result_spec(b@),
            None => None,
        }) {
            Some(v) => r matches AwaitStep::Found(s, p) && (s@, p@) == v,
            None => if deadline_passed {
                r is TimedOut
            } else {
                r is Wait
            },
        },
{
    if let Some(b) = read {
        if let Some((s, p)) = file_result(b) {
            return AwaitStep::Found(s, p);
        }
    }
    if deadline_passed {
        AwaitStep::TimedOut
    } else {
        AwaitStep::Wait
    }
}

/// Each field of a monitor's report is read from its own member: the
/// integers `index`, the texts `name`, `model`, `manufacturer`, the boolean
/// `active`, and the integers `x`, `y`, `width`, `height` of `geometry`.
pub proof fn lemma_monitor_fields_from_own_members(d: JsonDoc)
    ensures
        monitor_model_of(d).index == (match doc_get(d, "index"@) {
            Some(v) => doc_as_u64(v),
            None => None,
        }),
        monitor_model_of(d).name == (match doc_get(d, "name"@) {
            Some(v) => doc_as_str(v),
            None => None,
        }),
        monitor_model_of(d).model == (match doc_get(d, "model"@) {
            Some(v) => doc_as_str(v),
            None => None,
        }),
        monitor_model_of(d).manufacturer == (match doc_get(d, "manufacturer"@) {
            Some(v) => doc_as_str(v),
            None => None,
        }),
        monitor_model_of(d).active == (match doc_get(d, "active"@) {
            Some(v) => doc_as_bool(v),
            None => None,
        }),
        monitor_model_of(d).x == (match doc_get(d, "geometry"@) {
            Some(g) => match doc_get(g, "x"@) {
                Some(v) => doc_as_i64(v),
                None => None,
            },
            None => None,
        }),
        monitor_model_of(d).y == (match doc_get(d, "geometry"@) {
            Some(g) => match doc_get(g, "y"@) {
                Some(v) => doc_as_i64(v),
                None => None,
            },
            None => None,
        }),
        monitor_model_of(d).width == (match doc_get(d, "geometry"@) {
            Some(g) => match doc_get(g, "width"@) {
                Some(v) => doc_as_i64(v),
                None => None,
            },
            None => None,
        }),
        monitor_model_of(d).height == (match doc_get(d, "geometry"@) {
            Some(g) => match doc_get(g, "height"@) {
                Some(v) => doc_as_i64(v),
                None => None,
            },
            None => None,
        }),
{
}

/// A monitor's line shows, in this order: its index right-aligned in 3
/// columns, its name in 8, its width and height as `WxH` in 5 columns each,
/// its position as `X,Y` in 5 columns each, `*` when it is the active one,
/// and its label; a missing index or position reads 0, a missing name "?".
pub proof fn lemma_monitor_row_layout(m: MonitorModel)
    ensures
        monitor_row_spec(m) == pad_left(decimal(match m.index {
            Some(i) => i as nat,
            None => 0,
        }), 3) + "  "@ + pad_right(text_or(m.name, "?"@), 8) + "  "@ + pad_left(signed_decimal(int_or(m.width)), 5)
            + "x"@ + pad_right(signed_decimal(int_or(m.height)), 5) + "  "@ + pad_left(signed_decimal(int_or(m.x)), 5)
            + ","@ + pad_right(signed_decimal(int_or(m.y)), 5) + "  "@ + (if m.active == Some(true) {
            "*"@
        } else {
            " "@
        }) + "  "@ + monitor_label_spec(m),
{
    reveal_strlit("*");
    reveal_strlit(" ");
    assert(pad_right("*"@, 1) == "*"@);
    assert(pad_right(" "@, 1) == " "@);
}


/// A monitor's label ends with its model; it starts with the manufacturer
/// and a space when both are known and not empty, and is the model alone
/// otherwise.
pub proof fn lemma_monitor_label_parts(m: MonitorModel)
    ensures
        ({
            let label = monitor_label_spec(m);
            let model = text_or(m.model, Seq::empty());
            let mfr = text_or(m.manufacturer, Seq::empty());
            &&& label.len() >= model.len()
            &&& label.subrange(label.len() - model.len(), label.len() as int) == model
            &&& (mfr.len() > 0 && model.len() > 0) ==> label.take(mfr.len() as int) == mfr
                && label[mfr.len() as int] == ' ' && label.len() == mfr.len() + 1 + model.len()
            &&& !(mfr.len() > 0 && model.len() > 0) ==> label == model
        }),
{
    reveal_strlit(" ");
    let label = monitor_label_spec(m);
    let model = text_or(m.model, Seq::empty());
    let mfr = text_or(m.manufacturer, Seq::empty());
    assert(label.subrange(label.len() - model.len(), label.len() as int) =~= model);
    if mfr.len() > 0 && model.len() > 0 {
        assert(label.take(mfr.len() as int) =~= mfr);
    }
}

} // verus!
