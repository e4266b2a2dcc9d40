//! The KWin scripts: templates filled in with the request's grid, rectangle,
//! identifiers and appearance, and the names of the files they are written to.
use vstd::prelude::*;
use crate::config;
use crate::text::{chars_of, decimal, decimal_chars, extend_str, no_underscore, replace_all, replace_spec, string_of};

verus! {

/// The resolved look of the interactive scripts. The two fractional settings
/// (background opacity and popup width as a fraction of the screen) arrive as
/// the text that goes into the script.
#[derive(Debug)]
pub struct Appearance {
    pub bg_color: String,
    pub bg_opacity: String,
    pub cell_color: String,
    pub selection_color: String,
    pub anchor_color: String,
    pub border_color: String,
    pub popup_width: u32,
    pub popup_width_pct: String,
}

pub open spec fn or_text(o: Option<String>, d: Seq<char>) -> Seq<char> {
    match o {
        Some(s) => s@,
        None => d,
    }
}

fn or_default(o: &Option<String>, d: &str) -> (r: String)
    ensures
        r@ == or_text(*o, d@),
{
    match o {
        Some(s) => s.clone(),
        None => d.to_owned(),
    }
}

/// `s` with `pat` replaced by `to`.
fn subst(s: &Vec<char>, pat: &str, to: &Vec<char>) -> (r: Vec<char>)
    requires
        pat@.len() > 0,
    ensures
        r@ == replace_spec(s@, pat@, to@),
{
    let p = chars_of(pat);
    replace_all(s, &p, to)
}

/// `s` with `pat` replaced by the characters of `to`.
fn subst_str(s: &Vec<char>, pat: &str, to: &str) -> (r: Vec<char>)
    requires
        pat@.len() > 0,
    ensures
        r@ == replace_spec(s@, pat@, to@),
{
    let t = chars_of(to);
    subst(s, pat, &t)
}

/// `s` with `pat` replaced by the decimal digits of `n`.
fn subst_num(s: &Vec<char>, pat: &str, n: u32) -> (r: Vec<char>)
    requires
        pat@.len() > 0,
    ensures
        r@ == replace_spec(s@, pat@, decimal(n as nat)),
{
    let t = decimal_chars(n as u64);
    subst(s, pat, &t)
}

impl Appearance {
    pub open spec fn from_config_spec(c: &config::Appearance, bg_opacity: Seq<char>, popup_width_pct: Seq<char>, r: &Appearance) -> bool {
        &&& r.bg_color@ == or_text(c.background_color, "#1e1e2e"@)
        &&& r.bg_opacity@ == bg_opacity
        &&& r.cell_color@ == or_text(c.cell_color, "#2a2a3a"@)
        &&& r.selection_color@ == or_text(c.selection_color, "#3a7ab0"@)
        &&& r.anchor_color@ == or_text(c.anchor_color, "#4d9de0"@)
        &&& r.border_color@ == or_text(c.border_color, "#4a4a6a"@)
        &&& r.popup_width == (match c.popup_width {
            Some(w) => w,
            None => 320u32,
        })
        &&& r.popup_width_pct@ == popup_width_pct
    }

    /// The configured look, with the built-in default for each colour left
    /// unset and 320 pixels for an unset popup width.
    pub fn from_config(c: &config::Appearance, bg_opacity: String, popup_width_pct: String) -> (r: Self)
        ensures
            Self::from_config_spec(c, bg_opacity@, popup_width_pct@, &r),
    {
        Appearance {
            bg_color: or_default(&c.background_color, "#1e1e2e"),
            bg_opacity,
            cell_color: or_default(&c.cell_color, "#2a2a3a"),
            selection_color: or_default(&c.selection_color, "#3a7ab0"),
            anchor_color: or_default(&c.anchor_color, "#4d9de0"),
            border_color: or_default(&c.border_color, "#4a4a6a"),
            popup_width: match c.popup_width {
                Some(w) => w,
                None => 320,
            },
            popup_width_pct,
        }
    }

    /// `s` with the appearance placeholders filled in.
    pub open spec fn apply_spec(&self, s: Seq<char>) -> Seq<char> {
        let s = replace_spec(s, "__BG_COLOR__"@, self.bg_color@);
        let s = replace_spec(s, "__BG_OPACITY__"@, self.bg_opacity@);
        let s = replace_spec(s, "__CELL_COLOR__"@, self.cell_color@);
        let s = replace_spec(s, "__SEL_COLOR__"@, self.selection_color@);
        let s = replace_spec(s, "__ANCHOR_COLOR__"@, self.anchor_color@);
        let s = replace_spec(s, "__BORDER_COLOR__"@, self.border_color@);
        let s = replace_spec(s, "__POPUP_WIDTH__"@, decimal(self.popup_width as nat));
        replace_spec(s, "__POPUP_WIDTH_PCT__"@, self.popup_width_pct@)
    }

    /// A text without `_` holds no appearance placeholder, and is left as it is.
    pub proof fn lemma_apply_plain(&self, s: Seq<char>)
        requires
            no_underscore(s),
        ensures
            self.apply_spec(s) == s,
    {
        reveal_strlit("__BG_COLOR__");
        reveal_strlit("__BG_OPACITY__");
        reveal_strlit("__CELL_COLOR__");
        reveal_strlit("__SEL_COLOR__");
        reveal_strlit("__ANCHOR_COLOR__");
        reveal_strlit("__BORDER_COLOR__");
        reveal_strlit("__POPUP_WIDTH__");
        reveal_strlit("__POPUP_WIDTH_PCT__");
        crate::text::lemma_replace_no_underscore(s, "__BG_COLOR__"@, self.bg_color@);
        crate::text::lemma_replace_no_underscore(s, "__BG_OPACITY__"@, self.bg_opacity@);
        crate::text::lemma_replace_no_underscore(s, "__CELL_COLOR__"@, self.cell_color@);
        crate::text::lemma_replace_no_underscore(s, "__SEL_COLOR__"@, self.selection_color@);
        crate::text::lemma_replace_no_underscore(s, "__ANCHOR_COLOR__"@, self.anchor_color@);
        crate::text::lemma_replace_no_underscore(s, "__BORDER_COLOR__"@, self.border_color@);
        crate::text::lemma_replace_no_underscore(s, "__POPUP_WIDTH__"@, decimal(self.popup_width as nat));
        crate::text::lemma_replace_no_underscore(s, "__POPUP_WIDTH_PCT__"@, self.popup_width_pct@);
    }

    fn apply_chars(&self, s: Vec<char>) -> (r: Vec<char>)
        ensures
            r@ == self.apply_spec(s@),
    {
        proof {
            reveal_strlit("__BG_COLOR__");
            reveal_strlit("__BG_OPACITY__");
            reveal_strlit("__CELL_COLOR__");
            reveal_strlit("__SEL_COLOR__");
            reveal_strlit("__ANCHOR_COLOR__");
            reveal_strlit("__BORDER_COLOR__");
            reveal_strlit("__POPUP_WIDTH__");
            reveal_strlit("__POPUP_WIDTH_PCT__");
        }
        let s = subst_str(&s, "__BG_COLOR__", self.bg_color.as_str());
        let s = subst_str(&s, "__BG_OPACITY__", self.bg_opacity.as_str());
        let s = subst_str(&s, "__CELL_COLOR__", self.cell_color.as_str());
        let s = subst_str(&s, "__SEL_COLOR__", self.selection_color.as_str());
        let s = subst_str(&s, "__ANCHOR_COLOR__", self.anchor_color.as_str());
        let s = subst_str(&s, "__BORDER_COLOR__", self.border_color.as_str());
        let s = subst_num(&s, "__POPUP_WIDTH__", self.popup_width);
        subst_str(&s, "__POPUP_WIDTH_PCT__", self.popup_width_pct.as_str())
    }

    /// `s` with the appearance placeholders filled in.
    pub fn apply(&self, s: String) -> (r: String)
        ensures
            r@ == self.apply_spec(s@),
    {
        let v = chars_of(s.as_str());
        let v = self.apply_chars(v);
        string_of(&v)
    }
}

/// The tiling script: the template with the grid, the rectangle and the
/// request id filled in.
pub open spec fn tile_script(template: Seq<char>, cols: u32, rows: u32, rect: Seq<u32>, req_id: Seq<char>) -> Seq<char> {
    let s = replace_spec(template, "__COLS__"@, decimal(cols as nat));
    let s = replace_spec(s, "__ROWS__"@, decimal(rows as nat));
    let s = replace_spec(s, "__X1__"@, decimal(rect[0] as nat));
    let s = replace_spec(s, "__Y1__"@, decimal(rect[1] as nat));
    let s = replace_spec(s, "__X2__"@, decimal(rect[2] as nat));
    let s = replace_spec(s, "__Y2__"@, decimal(rect[3] as nat));
    replace_spec(s, "__REQ_ID__"@, req_id)
}

/// Fills in the tiling script's template.
pub fn render_tile(template: &str, cols: u32, rows: u32, rect: [u32; 4], req_id: &str) -> (r: String)
    ensures
        r@ == tile_script(template@, cols, rows, rect@, req_id@),
{
    proof {
        reveal_strlit("__COLS__");
        reveal_strlit("__ROWS__");
        reveal_strlit("__X1__");
        reveal_strlit("__Y1__");
        reveal_strlit("__X2__");
        reveal_strlit("__Y2__");
        reveal_strlit("__REQ_ID__");
    }
    let s = chars_of(template);
    let s = subst_num(&s, "__COLS__", cols);
    let s = subst_num(&s, "__ROWS__", rows);
    let s = subst_num(&s, "__X1__", rect[0]);
    let s = subst_num(&s, "__Y1__", rect[1]);
    let s = subst_num(&s, "__X2__", rect[2]);
    let s = subst_num(&s, "__Y2__", rect[3]);
    let s = subst_str(&s, "__REQ_ID__", req_id);
    string_of(&s)
}

/// The overlay script: the template with grid, identifiers and result path
/// filled in, then the appearance.
pub open spec fn overlay_script(
    template: Seq<char>,
    cols: u32,
    rows: u32,
    req_id: Seq<char>,
    plugin: Seq<char>,
    result_path: Seq<char>,
    ap: &Appearance,
) -> Seq<char> {
    let s = replace_spec(template, "__COLS__"@, decimal(cols as nat));
    let s = replace_spec(s, "__ROWS__"@, decimal(rows as nat));
    let s = replace_spec(s, "__REQ_ID__"@, req_id);
    let s = replace_spec(s, "__PLUGIN__"@, plugin);
    let s = replace_spec(s, "__RESULT_PATH__"@, result_path);
    ap.apply_spec(s)
}

/// Fills in the overlay script's template.
pub fn render_overlay(
    template: &str,
    cols: u32,
    rows: u32,
    req_id: &str,
    plugin: &str,
    result_path: &str,
    ap: &Appearance,
) -> (r: String)
    ensures
        r@ == overlay_script(template@, cols, rows, req_id@, plugin@, result_path@, ap),
{
    proof {
        reveal_strlit("__COLS__");
        reveal_strlit("__ROWS__");
        reveal_strlit("__REQ_ID__");
        reveal_strlit("__PLUGIN__");
        reveal_strlit("__RESULT_PATH__");
    }
    let s = chars_of(template);
    let s = subst_num(&s, "__COLS__", cols);
    let s = subst_num(&s, "__ROWS__", rows);
    let s = subst_str(&s, "__REQ_ID__", req_id);
    let s = subst_str(&s, "__PLUGIN__", plugin);
    let s = subst_str(&s, "__RESULT_PATH__", result_path);
    let s = ap.apply_chars(s);
    string_of(&s)
}

pub open spec fn bool_text(b: bool) -> Seq<char> {
    if b {
        "true"@
    } else {
        "false"@
    }
}

/// The popup script: the template with grid, identifiers, anchor and focus
/// behaviour filled in, then the appearance.
pub open spec fn popup_script(
    template: Seq<char>,
    cols: u32,
    rows: u32,
    req_id: Seq<char>,
    plugin: Seq<char>,
    anchor: Seq<char>,
    grab_focus: bool,
    ap: &Appearance,
) -> Seq<char> {
    let s = replace_spec(template, "__COLS__"@, decimal(cols as nat));
    let s = replace_spec(s, "__ROWS__"@, decimal(rows as nat));
    let s = replace_spec(s, "__REQ_ID__"@, req_id);
    let s = replace_spec(s, "__PLUGIN__"@, plugin);
    let s = replace_spec(s, "__ANCHOR__"@, anchor);
    let s = replace_spec(s, "__GRAB_FOCUS__"@, bool_text(grab_focus));
    ap.apply_spec(s)
}

/// Fills in the popup script's template.
pub fn render_popup(
    template: &str,
    cols: u32,
    rows: u32,
    req_id: &str,
    plugin: &str,
    anchor: &str,
    grab_focus: bool,
    ap: &Appearance,
) -> (r: String)
    ensures
        r@ == popup_script(template@, cols, rows, req_id@, plugin@, anchor@, grab_focus, ap),
{
    proof {
        reveal_strlit("__COLS__");
        reveal_strlit("__ROWS__");
        reveal_strlit("__REQ_ID__");
        reveal_strlit("__PLUGIN__");
        reveal_strlit("__ANCHOR__");
        reveal_strlit("__GRAB_FOCUS__");
    }
    let s = chars_of(template);
    let s = subst_num(&s, "__COLS__", cols);
    let s = subst_num(&s, "__ROWS__", rows);
    let s = subst_str(&s, "__REQ_ID__", req_id);
    let s = subst_str(&s, "__PLUGIN__", plugin);
    let s = subst_str(&s, "__ANCHOR__", anchor);
    let s = subst_str(&s, "__GRAB_FOCUS__", if grab_focus { "true" } else { "false" });
    let s = ap.apply_chars(s);
    string_of(&s)
}

/// The file name of a generated script: `ui-<id>.qml` for QML, `tile-<id>.<ext>` otherwise.
pub open spec fn temp_file_name_spec(req_id: Seq<char>, ext: Seq<char>) -> Seq<char> {
    let prefix = if ext == "qml"@ {
        "ui"@
    } else {
        "tile"@
    };
    prefix + "-"@ + req_id + "."@ + ext
}

/// The file name of a generated script.
pub fn temp_file_name(req_id: &str, ext: &str) -> (r: String)
    ensures
        r@ == temp_file_name_spec(req_id@, ext@),
{
    let mut v: Vec<char> = Vec::new();
    if crate::text::str_eq(ext, "qml") {
        extend_str(&mut v, "ui");
    } else {
        extend_str(&mut v, "tile");
    }
    extend_str(&mut v, "-");
    extend_str(&mut v, req_id);
    extend_str(&mut v, ".");
    extend_str(&mut v, ext);
    string_of(&v)
}

/// The file name where an interactive script may leave its result: `result-<id>.json`.
pub fn result_file_name(req_id: &str) -> (r: String)
    ensures
        r@ == "result-"@ + req_id@ + ".json"@,
{
    let mut v: Vec<char> = Vec::new();
    extend_str(&mut v, "result-");
    extend_str(&mut v, req_id);
    extend_str(&mut v, ".json");
    string_of(&v)
}

/// The monitor-listing script: the template with the request id filled in.
pub fn render_monitors(template: &str, req_id: &str) -> (r: String)
    ensures
        r@ == replace_spec(template@, "__REQ_ID__"@, req_id@),
{
    proof {
        reveal_strlit("__REQ_ID__");
    }
    let s = chars_of(template);
    let s = subst_str(&s, "__REQ_ID__", req_id);
    string_of(&s)
}

/// The plugin name of the monitor-listing script: `kridtiler-monitors-<id>`.
pub fn monitors_plugin_name(req_id: &str) -> (r: String)
    ensures
        r@ == "kridtiler-monitors-"@ + req_id@,
{
    let mut v: Vec<char> = Vec::new();
    extend_str(&mut v, "kridtiler-monitors-");
    extend_str(&mut v, req_id);
    string_of(&v)
}

/// Each colour of the resolved look comes from its own setting, and only
/// from it: the set value where there is one, else that colour's default; a
/// width not set is 320 pixels; the two fractions are passed through.
pub proof fn lemma_colours_from_own_settings(c: &config::Appearance, bg_opacity: Seq<char>, pct: Seq<char>, r: &Appearance)
    requires
        Appearance::from_config_spec(c, bg_opacity, pct, r),
    ensures
        c.background_color matches Some(s) ==> r.bg_color@ == s@,
        c.cell_color matches Some(s) ==> r.cell_color@ == s@,
        c.selection_color matches Some(s) ==> r.selection_color@ == s@,
        c.anchor_color matches Some(s) ==> r.anchor_color@ == s@,
        c.border_color matches Some(s) ==> r.border_color@ == s@,
        c.background_color is None ==> r.bg_color@ == "#1e1e2e"@,
        c.cell_color is None ==> r.cell_color@ == "#2a2a3a"@,
        c.selection_color is None ==> r.selection_color@ == "#3a7ab0"@,
        c.anchor_color is None ==> r.anchor_color@ == "#4d9de0"@,
        c.border_color is None ==> r.border_color@ == "#4a4a6a"@,
        c.popup_width matches Some(w) ==> r.popup_width == w,
        c.popup_width is None ==> r.popup_width == 320,
        r.bg_opacity@ == bg_opacity,
        r.popup_width_pct@ == pct,
{
}

/// Two configurations that agree on one colour setting give the same
/// resolved colour, whatever they say of the others.
pub proof fn lemma_colour_depends_on_own_setting(
    c1: &config::Appearance,
    c2: &config::Appearance,
    o1: Seq<char>,
    o2: Seq<char>,
    p1: Seq<char>,
    p2: Seq<char>,
    r1: &Appearance,
    r2: &Appearance,
)
    requires
        Appearance::from_config_spec(c1, o1, p1, r1),
        Appearance::from_config_spec(c2, o2, p2, r2),
    ensures
        c1.background_color == c2.background_color ==> r1.bg_color@ == r2.bg_color@,
        c1.cell_color == c2.cell_color ==> r1.cell_color@ == r2.cell_color@,
        c1.selection_color == c2.selection_color ==> r1.selection_color@ == r2.selection_color@,
        c1.anchor_color == c2.anchor_color ==> r1.anchor_color@ == r2.anchor_color@,
        c1.border_color == c2.border_color ==> r1.border_color@ == r2.border_color@,
{
    lemma_colours_from_own_settings(c1, o1, p1, r1);
    lemma_colours_from_own_settings(c2, o2, p2, r2);
}

/// Each placeholder of the tiling script stands for its own value: a
/// template that is just that placeholder becomes the grid's columns, its
/// rows, the rectangle's `x1`, `y1`, `x2`, `y2`, or the request id, for
/// every grid, rectangle and id (that hold no `_`).
pub proof fn lemma_tile_placeholders(cols: u32, rows: u32, rect: Seq<u32>, req_id: Seq<char>)
    requires
        rect.len() == 4,
        no_underscore(req_id),
    ensures
        tile_script("__COLS__"@, cols, rows, rect, req_id) == decimal(cols as nat),
        tile_script("__ROWS__"@, cols, rows, rect, req_id) == decimal(rows as nat),
        tile_script("__X1__"@, cols, rows, rect, req_id) == decimal(rect[0] as nat),
        tile_script("__Y1__"@, cols, rows, rect, req_id) == decimal(rect[1] as nat),
        tile_script("__X2__"@, cols, rows, rect, req_id) == decimal(rect[2] as nat),
        tile_script("__Y2__"@, cols, rows, rect, req_id) == decimal(rect[3] as nat),
        tile_script("__REQ_ID__"@, cols, rows, rect, req_id) == req_id,
{
    assert(tile_script("__COLS__"@, cols, rows, rect, req_id) == decimal(cols as nat)) by {
        reveal_strlit("__COLS__");
        reveal_strlit("__REQ_ID__");
        reveal_strlit("__ROWS__");
        reveal_strlit("__X1__");
        reveal_strlit("__X2__");
        reveal_strlit("__Y1__");
        reveal_strlit("__Y2__");
        crate::text::lemma_replace_whole("__COLS__"@, decimal(cols as nat));
        crate::text::lemma_decimal_no_underscore(cols as nat);
        crate::text::lemma_replace_no_underscore(decimal(cols as nat), "__ROWS__"@, decimal(rows as nat));
        crate::text::lemma_decimal_no_underscore(cols as nat);
        crate::text::lemma_replace_no_underscore(decimal(cols as nat), "__X1__"@, decimal(rect[0] as nat));
        crate::text::lemma_decimal_no_underscore(cols as nat);
        crate::text::lemma_replace_no_underscore(decimal(cols as nat), "__Y1__"@, decimal(rect[1] as nat));
        crate::text::lemma_decimal_no_underscore(cols as nat);
        crate::text::lemma_replace_no_underscore(decimal(cols as nat), "__X2__"@, decimal(rect[2] as nat));
        crate::text::lemma_decimal_no_underscore(cols as nat);
        crate::text::lemma_replace_no_underscore(decimal(cols as nat), "__Y2__"@, decimal(rect[3] as nat));
        crate::text::lemma_decimal_no_underscore(cols as nat);
        crate::text::lemma_replace_no_underscore(decimal(cols as nat), "__REQ_ID__"@, req_id);
    }
    assert(tile_script("__ROWS__"@, cols, rows, rect, req_id) == decimal(rows as nat)) by {
        reveal_strlit("__COLS__");
        reveal_strlit("__REQ_ID__");
        reveal_strlit("__ROWS__");
        reveal_strlit("__X1__");
        reveal_strlit("__X2__");
        reveal_strlit("__Y1__");
        reveal_strlit("__Y2__");
        crate::text::lemma_replace_missing_char("__ROWS__"@, "__COLS__"@, decimal(cols as nat), 2);
        crate::text::lemma_replace_whole("__ROWS__"@, decimal(rows as nat));
        crate::text::lemma_decimal_no_underscore(rows as nat);
        crate::text::lemma_replace_no_underscore(decimal(rows as nat), "__X1__"@, decimal(rect[0] as nat));
        crate::text::lemma_decimal_no_underscore(rows as nat);
        crate::text::lemma_replace_no_underscore(decimal(rows as nat), "__Y1__"@, decimal(rect[1] as nat));
        crate::text::lemma_decimal_no_underscore(rows as nat);
        crate::text::lemma_replace_no_underscore(decimal(rows as nat), "__X2__"@, decimal(rect[2] as nat));
        crate::text::lemma_decimal_no_underscore(rows as nat);
        crate::text::lemma_replace_no_underscore(decimal(rows as nat), "__Y2__"@, decimal(rect[3] as nat));
        crate::text::lemma_decimal_no_underscore(rows as nat);
        crate::text::lemma_replace_no_underscore(decimal(rows as nat), "__REQ_ID__"@, req_id);
    }
    assert(tile_script("__X1__"@, cols, rows, rect, req_id) == decimal(rect[0] as nat)) by {
        reveal_strlit("__COLS__");
        reveal_strlit("__REQ_ID__");
        reveal_strlit("__ROWS__");
        reveal_strlit("__X1__");
        reveal_strlit("__X2__");
        reveal_strlit("__Y1__");
        reveal_strlit("__Y2__");
        crate::text::lemma_replace_short("__X1__"@, "__COLS__"@, decimal(cols as nat));
        crate::text::lemma_replace_short("__X1__"@, "__ROWS__"@, decimal(rows as nat));
        crate::text::lemma_replace_whole("__X1__"@, decimal(rect[0] as nat));
        crate::text::lemma_decimal_no_underscore(rect[0] as nat);
        crate::text::lemma_replace_no_underscore(decimal(rect[0] as nat), "__Y1__"@, decimal(rect[1] as nat));
        crate::text::lemma_decimal_no_underscore(rect[0] as nat);
        crate::text::lemma_replace_no_underscore(decimal(rect[0] as nat), "__X2__"@, decimal(rect[2] as nat));
        crate::text::lemma_decimal_no_underscore(rect[0] as nat);
        crate::text::lemma_replace_no_underscore(decimal(rect[0] as nat), "__Y2__"@, decimal(rect[3] as nat));
        crate::text::lemma_decimal_no_underscore(rect[0] as nat);
        crate::text::lemma_replace_no_underscore(decimal(rect[0] as nat), "__REQ_ID__"@, req_id);
    }
    assert(tile_script("__Y1__"@, cols, rows, rect, req_id) == decimal(rect[1] as nat)) by {
        reveal_strlit("__COLS__");
        reveal_strlit("__REQ_ID__");
        reveal_strlit("__ROWS__");
        reveal_strlit("__X1__");
        reveal_strlit("__X2__");
        reveal_strlit("__Y1__");
        reveal_strlit("__Y2__");
        crate::text::lemma_replace_short("__Y1__"@, "__COLS__"@, decimal(cols as nat));
        crate::text::lemma_replace_short("__Y1__"@, "__ROWS__"@, decimal(rows as nat));
        crate::text::lemma_replace_missing_char("__Y1__"@, "__X1__"@, decimal(rect[0] as nat), 2);
        crate::text::lemma_replace_whole("__Y1__"@, decimal(rect[1] as nat));
        crate::text::lemma_decimal_no_underscore(rect[1] as nat);
        crate::text::lemma_replace_no_underscore(decimal(rect[1] as nat), "__X2__"@, decimal(rect[2] as nat));
        crate::text::lemma_decimal_no_underscore(rect[1] as nat);
        crate::text::lemma_replace_no_underscore(decimal(rect[1] as nat), "__Y2__"@, decimal(rect[3] as nat));
        crate::text::lemma_decimal_no_underscore(rect[1] as nat);
        crate::text::lemma_replace_no_underscore(decimal(rect[1] as nat), "__REQ_ID__"@, req_id);
    }
    assert(tile_script("__X2__"@, cols, rows, rect, req_id) == decimal(rect[2] as nat)) by {
        reveal_strlit("__COLS__");
        reveal_strlit("__REQ_ID__");
        reveal_strlit("__ROWS__");
        reveal_strlit("__X1__");
        reveal_strlit("__X2__");
        reveal_strlit("__Y1__");
        reveal_strlit("__Y2__");
        crate::text::lemma_replace_short("__X2__"@, "__COLS__"@, decimal(cols as nat));
        crate::text::lemma_replace_short("__X2__"@, "__ROWS__"@, decimal(rows as nat));
        crate::text::lemma_replace_missing_char("__X2__"@, "__X1__"@, decimal(rect[0] as nat), 3);
        crate::text::lemma_replace_missing_char("__X2__"@, "__Y1__"@, decimal(rect[1] as nat), 2);
        crate::text::lemma_replace_whole("__X2__"@, decimal(rect[2] as nat));
        crate::text::lemma_decimal_no_underscore(rect[2] as nat);
        crate::text::lemma_replace_no_underscore(decimal(rect[2] as nat), "__Y2__"@, decimal(rect[3] as nat));
        crate::text::lemma_decimal_no_underscore(rect[2] as nat);
        crate::text::lemma_replace_no_underscore(decimal(rect[2] as nat), "__REQ_ID__"@, req_id);
    }
    assert(tile_script("__Y2__"@, cols, rows, rect, req_id) == decimal(rect[3] as nat)) by {
        reveal_strlit("__COLS__");
        reveal_strlit("__REQ_ID__");
        reveal_strlit("__ROWS__");
        reveal_strlit("__X1__");
        reveal_strlit("__X2__");
        reveal_strlit("__Y1__");
        reveal_strlit("__Y2__");
        crate::text::lemma_replace_short("__Y2__"@, "__COLS__"@, decimal(cols as nat));
        crate::text::lemma_replace_short("__Y2__"@, "__ROWS__"@, decimal(rows as nat));
        crate::text::lemma_replace_missing_char("__Y2__"@, "__X1__"@, decimal(rect[0] as nat), 2);
        crate::text::lemma_replace_missing_char("__Y2__"@, "__Y1__"@, decimal(rect[1] as nat), 3);
        crate::text::lemma_replace_missing_char("__Y2__"@, "__X2__"@, decimal(rect[2] as nat), 2);
        crate::text::lemma_replace_whole("__Y2__"@, decimal(rect[3] as nat));
        crate::text::lemma_decimal_no_underscore(rect[3] as nat);
        crate::text::lemma_replace_no_underscore(decimal(rect[3] as nat), "__REQ_ID__"@, req_id);
    }
    assert(tile_script("__REQ_ID__"@, cols, rows, rect, req_id) == req_id) by {
        reveal_strlit("__COLS__");
        reveal_strlit("__REQ_ID__");
        reveal_strlit("__ROWS__");
        reveal_strlit("__X1__");
        reveal_strlit("__X2__");
        reveal_strlit("__Y1__");
        reveal_strlit("__Y2__");
        crate::text::lemma_replace_missing_char("__REQ_ID__"@, "__COLS__"@, decimal(cols as nat), 2);
        crate::text::lemma_replace_missing_char("__REQ_ID__"@, "__ROWS__"@, decimal(rows as nat), 3);
        crate::text::lemma_replace_missing_char("__REQ_ID__"@, "__X1__"@, decimal(rect[0] as nat), 2);
        crate::text::lemma_replace_missing_char("__REQ_ID__"@, "__Y1__"@, decimal(rect[1] as nat), 2);
        crate::text::lemma_replace_missing_char("__REQ_ID__"@, "__X2__"@, decimal(rect[2] as nat), 2);
        crate::text::lemma_replace_missing_char("__REQ_ID__"@, "__Y2__"@, decimal(rect[3] as nat), 2);
        crate::text::lemma_replace_whole("__REQ_ID__"@, req_id);
    }
}

/// Each appearance placeholder stands for its own setting: a template that
/// is just that placeholder becomes that colour, opacity, width or width
/// fraction (for settings that hold no `_`).
pub proof fn lemma_appearance_placeholders(ap: &Appearance)
    requires
        no_underscore(ap.bg_color@),
        no_underscore(ap.bg_opacity@),
        no_underscore(ap.cell_color@),
        no_underscore(ap.selection_color@),
        no_underscore(ap.anchor_color@),
        no_underscore(ap.border_color@),
        no_underscore(ap.popup_width_pct@),
    ensures
        ap.apply_spec("__BG_COLOR__"@) == ap.bg_color@,
        ap.apply_spec("__BG_OPACITY__"@) == ap.bg_opacity@,
        ap.apply_spec("__CELL_COLOR__"@) == ap.cell_color@,
        ap.apply_spec("__SEL_COLOR__"@) == ap.selection_color@,
        ap.apply_spec("__ANCHOR_COLOR__"@) == ap.anchor_color@,
        ap.apply_spec("__BORDER_COLOR__"@) == ap.border_color@,
        ap.apply_spec("__POPUP_WIDTH__"@) == decimal(ap.popup_width as nat),
        ap.apply_spec("__POPUP_WIDTH_PCT__"@) == ap.popup_width_pct@,
{
    assert(ap.apply_spec("__BG_COLOR__"@) == ap.bg_color@) by {
        reveal_strlit("__ANCHOR_COLOR__");
        reveal_strlit("__BG_COLOR__");
        reveal_strlit("__BG_OPACITY__");
        reveal_strlit("__BORDER_COLOR__");
        reveal_strlit("__CELL_COLOR__");
        reveal_strlit("__POPUP_WIDTH_PCT__");
        reveal_strlit("__POPUP_WIDTH__");
        reveal_strlit("__SEL_COLOR__");
        crate::text::lemma_replace_whole("__BG_COLOR__"@, ap.bg_color@);
        crate::text::lemma_replace_no_underscore(ap.bg_color@, "__BG_OPACITY__"@, ap.bg_opacity@);
        crate::text::lemma_replace_no_underscore(ap.bg_color@, "__CELL_COLOR__"@, ap.cell_color@);
        crate::text::lemma_replace_no_underscore(ap.bg_color@, "__SEL_COLOR__"@, ap.selection_color@);
        crate::text::lemma_replace_no_underscore(ap.bg_color@, "__ANCHOR_COLOR__"@, ap.anchor_color@);
        crate::text::lemma_replace_no_underscore(ap.bg_color@, "__BORDER_COLOR__"@, ap.border_color@);
        crate::text::lemma_replace_no_underscore(ap.bg_color@, "__POPUP_WIDTH__"@, decimal(ap.popup_width as nat));
        crate::text::lemma_replace_no_underscore(ap.bg_color@, "__POPUP_WIDTH_PCT__"@, ap.popup_width_pct@);
    }
    assert(ap.apply_spec("__BG_OPACITY__"@) == ap.bg_opacity@) by {
        reveal_strlit("__ANCHOR_COLOR__");
        reveal_strlit("__BG_COLOR__");
        reveal_strlit("__BG_OPACITY__");
        reveal_strlit("__BORDER_COLOR__");
        reveal_strlit("__CELL_COLOR__");
        reveal_strlit("__POPUP_WIDTH_PCT__");
        reveal_strlit("__POPUP_WIDTH__");
        reveal_strlit("__SEL_COLOR__");
        crate::text::lemma_replace_missing_char("__BG_OPACITY__"@, "__BG_COLOR__"@, ap.bg_color@, 7);
        crate::text::lemma_replace_whole("__BG_OPACITY__"@, ap.bg_opacity@);
        crate::text::lemma_replace_no_underscore(ap.bg_opacity@, "__CELL_COLOR__"@, ap.cell_color@);
        crate::text::lemma_replace_no_underscore(ap.bg_opacity@, "__SEL_COLOR__"@, ap.selection_color@);
        crate::text::lemma_replace_no_underscore(ap.bg_opacity@, "__ANCHOR_COLOR__"@, ap.anchor_color@);
        crate::text::lemma_replace_no_underscore(ap.bg_opacity@, "__BORDER_COLOR__"@, ap.border_color@);
        crate::text::lemma_replace_no_underscore(ap.bg_opacity@, "__POPUP_WIDTH__"@, decimal(ap.popup_width as nat));
        crate::text::lemma_replace_no_underscore(ap.bg_opacity@, "__POPUP_WIDTH_PCT__"@, ap.popup_width_pct@);
    }
    assert(ap.apply_spec("__CELL_COLOR__"@) == ap.cell_color@) by {
        reveal_strlit("__ANCHOR_COLOR__");
        reveal_strlit("__BG_COLOR__");
        reveal_strlit("__BG_OPACITY__");
        reveal_strlit("__BORDER_COLOR__");
        reveal_strlit("__CELL_COLOR__");
        reveal_strlit("__POPUP_WIDTH_PCT__");
        reveal_strlit("__POPUP_WIDTH__");
        reveal_strlit("__SEL_COLOR__");
        crate::text::lemma_replace_missing_char("__CELL_COLOR__"@, "__BG_COLOR__"@, ap.bg_color@, 2);
        crate::text::lemma_replace_missing_char("__CELL_COLOR__"@, "__BG_OPACITY__"@, ap.bg_opacity@, 2);
        crate::text::lemma_replace_whole("__CELL_COLOR__"@, ap.cell_color@);
        crate::text::lemma_replace_no_underscore(ap.cell_color@, "__SEL_COLOR__"@, ap.selection_color@);
        crate::text::lemma_replace_no_underscore(ap.cell_color@, "__ANCHOR_COLOR__"@, ap.anchor_color@);
        crate::text::lemma_replace_no_underscore(ap.cell_color@, "__BORDER_COLOR__"@, ap.border_color@);
        crate::text::lemma_replace_no_underscore(ap.cell_color@, "__POPUP_WIDTH__"@, decimal(ap.popup_width as nat));
        crate::text::lemma_replace_no_underscore(ap.cell_color@, "__POPUP_WIDTH_PCT__"@, ap.popup_width_pct@);
    }
    assert(ap.apply_spec("__SEL_COLOR__"@) == ap.selection_color@) by {
        reveal_strlit("__ANCHOR_COLOR__");
        reveal_strlit("__BG_COLOR__");
        reveal_strlit("__BG_OPACITY__");
        reveal_strlit("__BORDER_COLOR__");
        reveal_strlit("__CELL_COLOR__");
        reveal_strlit("__POPUP_WIDTH_PCT__");
        reveal_strlit("__POPUP_WIDTH__");
        reveal_strlit("__SEL_COLOR__");
        crate::text::lemma_replace_missing_char("__SEL_COLOR__"@, "__BG_COLOR__"@, ap.bg_color@, 2);
        crate::text::lemma_replace_short("__SEL_COLOR__"@, "__BG_OPACITY__"@, ap.bg_opacity@);
        crate::text::lemma_replace_short("__SEL_COLOR__"@, "__CELL_COLOR__"@, ap.cell_color@);
        crate::text::lemma_replace_whole("__SEL_COLOR__"@, ap.selection_color@);
        crate::text::lemma_replace_no_underscore(ap.selection_color@, "__ANCHOR_COLOR__"@, ap.anchor_color@);
        crate::text::lemma_replace_no_underscore(ap.selection_color@, "__BORDER_COLOR__"@, ap.border_color@);
        crate::text::lemma_replace_no_underscore(ap.selection_color@, "__POPUP_WIDTH__"@, decimal(ap.popup_width as nat));
        crate::text::lemma_replace_no_underscore(ap.selection_color@, "__POPUP_WIDTH_PCT__"@, ap.popup_width_pct@);
    }
    assert(ap.apply_spec("__ANCHOR_COLOR__"@) == ap.anchor_color@) by {
        reveal_strlit("__ANCHOR_COLOR__");
        reveal_strlit("__BG_COLOR__");
        reveal_strlit("__BG_OPACITY__");
        reveal_strlit("__BORDER_COLOR__");
        reveal_strlit("__CELL_COLOR__");
        reveal_strlit("__POPUP_WIDTH_PCT__");
        reveal_strlit("__POPUP_WIDTH__");
        reveal_strlit("__SEL_COLOR__");
        crate::text::lemma_replace_missing_char("__ANCHOR_COLOR__"@, "__BG_COLOR__"@, ap.bg_color@, 2);
        crate::text::lemma_replace_missing_char("__ANCHOR_COLOR__"@, "__BG_OPACITY__"@, ap.bg_opacity@, 2);
        crate::text::lemma_replace_missing_char("__ANCHOR_COLOR__"@, "__CELL_COLOR__"@, ap.cell_color@, 3);
        crate::text::lemma_replace_missing_char("__ANCHOR_COLOR__"@, "__SEL_COLOR__"@, ap.selection_color@, 2);
        crate::text::lemma_replace_whole("__ANCHOR_COLOR__"@, ap.anchor_color@);
        crate::text::lemma_replace_no_underscore(ap.anchor_color@, "__BORDER_COLOR__"@, ap.border_color@);
        crate::text::lemma_replace_no_underscore(ap.anchor_color@, "__POPUP_WIDTH__"@, decimal(ap.popup_width as nat));
        crate::text::lemma_replace_no_underscore(ap.anchor_color@, "__POPUP_WIDTH_PCT__"@, ap.popup_width_pct@);
    }
    assert(ap.apply_spec("__BORDER_COLOR__"@) == ap.border_color@) by {
        reveal_strlit("__ANCHOR_COLOR__");
        reveal_strlit("__BG_COLOR__");
        reveal_strlit("__BG_OPACITY__");
        reveal_strlit("__BORDER_COLOR__");
        reveal_strlit("__CELL_COLOR__");
        reveal_strlit("__POPUP_WIDTH_PCT__");
        reveal_strlit("__POPUP_WIDTH__");
        reveal_strlit("__SEL_COLOR__");
        crate::text::lemma_replace_missing_char("__BORDER_COLOR__"@, "__BG_COLOR__"@, ap.bg_color@, 3);
        crate::text::lemma_replace_missing_char("__BORDER_COLOR__"@, "__BG_OPACITY__"@, ap.bg_opacity@, 3);
            assert forall|i: int| 0 <= i && i + "__CELL_COLOR__"@.len() <= "__BORDER_COLOR__"@.len() implies #[trigger] "__BORDER_COLOR__"@.subrange(i, i + "__CELL_COLOR__"@.len()) != "__CELL_COLOR__"@ by {
            if i == 0 {
            assert("__BORDER_COLOR__"@.subrange(i, i + "__CELL_COLOR__"@.len())[2] != "__CELL_COLOR__"@[2]);
            } else if i == 1 {
            assert("__BORDER_COLOR__"@.subrange(i, i + "__CELL_COLOR__"@.len())[1] != "__CELL_COLOR__"@[1]);
            } else if i == 2 {
            assert("__BORDER_COLOR__"@.subrange(i, i + "__CELL_COLOR__"@.len())[0] != "__CELL_COLOR__"@[0]);
            }
        }
        crate::text::lemma_replace_absent("__BORDER_COLOR__"@, "__CELL_COLOR__"@, ap.cell_color@);
        crate::text::lemma_replace_missing_char("__BORDER_COLOR__"@, "__SEL_COLOR__"@, ap.selection_color@, 2);
        crate::text::lemma_replace_missing_char("__BORDER_COLOR__"@, "__ANCHOR_COLOR__"@, ap.anchor_color@, 2);
        crate::text::lemma_replace_whole("__BORDER_COLOR__"@, ap.border_color@);
        crate::text::lemma_replace_no_underscore(ap.border_color@, "__POPUP_WIDTH__"@, decimal(ap.popup_width as nat));
        crate::text::lemma_replace_no_underscore(ap.border_color@, "__POPUP_WIDTH_PCT__"@, ap.popup_width_pct@);
    }
    assert(ap.apply_spec("__POPUP_WIDTH__"@) == decimal(ap.popup_width as nat)) by {
        reveal_strlit("__ANCHOR_COLOR__");
        reveal_strlit("__BG_COLOR__");
        reveal_strlit("__BG_OPACITY__");
        reveal_strlit("__BORDER_COLOR__");
        reveal_strlit("__CELL_COLOR__");
        reveal_strlit("__POPUP_WIDTH_PCT__");
        reveal_strlit("__POPUP_WIDTH__");
        reveal_strlit("__SEL_COLOR__");
        crate::text::lemma_replace_missing_char("__POPUP_WIDTH__"@, "__BG_COLOR__"@, ap.bg_color@, 2);
        crate::text::lemma_replace_missing_char("__POPUP_WIDTH__"@, "__BG_OPACITY__"@, ap.bg_opacity@, 2);
        crate::text::lemma_replace_missing_char("__POPUP_WIDTH__"@, "__CELL_COLOR__"@, ap.cell_color@, 2);
        crate::text::lemma_replace_missing_char("__POPUP_WIDTH__"@, "__SEL_COLOR__"@, ap.selection_color@, 2);
        crate::text::lemma_replace_short("__POPUP_WIDTH__"@, "__ANCHOR_COLOR__"@, ap.anchor_color@);
        crate::text::lemma_replace_short("__POPUP_WIDTH__"@, "__BORDER_COLOR__"@, ap.border_color@);
        crate::text::lemma_replace_whole("__POPUP_WIDTH__"@, decimal(ap.popup_width as nat));
        crate::text::lemma_decimal_no_underscore(ap.popup_width as nat);
        crate::text::lemma_replace_no_underscore(decimal(ap.popup_width as nat), "__POPUP_WIDTH_PCT__"@, ap.popup_width_pct@);
    }
    assert(ap.apply_spec("__POPUP_WIDTH_PCT__"@) == ap.popup_width_pct@) by {
        reveal_strlit("__ANCHOR_COLOR__");
        reveal_strlit("__BG_COLOR__");
        reveal_strlit("__BG_OPACITY__");
        reveal_strlit("__BORDER_COLOR__");
        reveal_strlit("__CELL_COLOR__");
        reveal_strlit("__POPUP_WIDTH_PCT__");
        reveal_strlit("__POPUP_WIDTH__");
        reveal_strlit("__SEL_COLOR__");
        crate::text::lemma_replace_missing_char("__POPUP_WIDTH_PCT__"@, "__BG_COLOR__"@, ap.bg_color@, 2);
        crate::text::lemma_replace_missing_char("__POPUP_WIDTH_PCT__"@, "__BG_OPACITY__"@, ap.bg_opacity@, 2);
        crate::text::lemma_replace_missing_char("__POPUP_WIDTH_PCT__"@, "__CELL_COLOR__"@, ap.cell_color@, 3);
        crate::text::lemma_replace_missing_char("__POPUP_WIDTH_PCT__"@, "__SEL_COLOR__"@, ap.selection_color@, 2);
        crate::text::lemma_replace_missing_char("__POPUP_WIDTH_PCT__"@, "__ANCHOR_COLOR__"@, ap.anchor_color@, 2);
        crate::text::lemma_replace_missing_char("__POPUP_WIDTH_PCT__"@, "__BORDER_COLOR__"@, ap.border_color@, 2);
            assert forall|i: int| 0 <= i && i + "__POPUP_WIDTH__"@.len() <= "__POPUP_WIDTH_PCT__"@.len() implies #[trigger] "__POPUP_WIDTH_PCT__"@.subrange(i, i + "__POPUP_WIDTH__"@.len()) != "__POPUP_WIDTH__"@ by {
            if i == 0 {
            assert("__POPUP_WIDTH_PCT__"@.subrange(i, i + "__POPUP_WIDTH__"@.len())[14] != "__POPUP_WIDTH__"@[14]);
            } else if i == 1 {
            assert("__POPUP_WIDTH_PCT__"@.subrange(i, i + "__POPUP_WIDTH__"@.len())[1] != "__POPUP_WIDTH__"@[1]);
            } else if i == 2 {
            assert("__POPUP_WIDTH_PCT__"@.subrange(i, i + "__POPUP_WIDTH__"@.len())[0] != "__POPUP_WIDTH__"@[0]);
            } else if i == 3 {
            assert("__POPUP_WIDTH_PCT__"@.subrange(i, i + "__POPUP_WIDTH__"@.len())[0] != "__POPUP_WIDTH__"@[0]);
            } else if i == 4 {
            assert("__POPUP_WIDTH_PCT__"@.subrange(i, i + "__POPUP_WIDTH__"@.len())[0] != "__POPUP_WIDTH__"@[0]);
            }
        }
        crate::text::lemma_replace_absent("__POPUP_WIDTH_PCT__"@, "__POPUP_WIDTH__"@, decimal(ap.popup_width as nat));
        crate::text::lemma_replace_whole("__POPUP_WIDTH_PCT__"@, ap.popup_width_pct@);
    }
}

/// Each placeholder of the overlay script stands for its own value: a
/// template that is just that placeholder becomes the grid's columns or
/// rows, the request id, the plugin name, the result path, or the appearance
/// setting (for values that hold no `_`).
pub proof fn lemma_overlay_placeholders(cols: u32, rows: u32, req_id: Seq<char>, plugin: Seq<char>, result_path: Seq<char>, ap: &Appearance)
    requires
        no_underscore(req_id),
        no_underscore(plugin),
        no_underscore(result_path),
        no_underscore(ap.bg_color@),
        no_underscore(ap.bg_opacity@),
        no_underscore(ap.cell_color@),
        no_underscore(ap.selection_color@),
        no_underscore(ap.anchor_color@),
        no_underscore(ap.border_color@),
        no_underscore(ap.popup_width_pct@),
    ensures
        overlay_script("__COLS__"@, cols, rows, req_id, plugin, result_path, ap) == decimal(cols as nat),
        overlay_script("__ROWS__"@, cols, rows, req_id, plugin, result_path, ap) == decimal(rows as nat),
        overlay_script("__REQ_ID__"@, cols, rows, req_id, plugin, result_path, ap) == req_id,
        overlay_script("__PLUGIN__"@, cols, rows, req_id, plugin, result_path, ap) == plugin,
        overlay_script("__RESULT_PATH__"@, cols, rows, req_id, plugin, result_path, ap) == result_path,
        overlay_script("__BG_COLOR__"@, cols, rows, req_id, plugin, result_path, ap) == ap.bg_color@,
        overlay_script("__BG_OPACITY__"@, cols, rows, req_id, plugin, result_path, ap) == ap.bg_opacity@,
        overlay_script("__CELL_COLOR__"@, cols, rows, req_id, plugin, result_path, ap) == ap.cell_color@,
        overlay_script("__SEL_COLOR__"@, cols, rows, req_id, plugin, result_path, ap) == ap.selection_color@,
        overlay_script("__ANCHOR_COLOR__"@, cols, rows, req_id, plugin, result_path, ap) == ap.anchor_color@,
        overlay_script("__BORDER_COLOR__"@, cols, rows, req_id, plugin, result_path, ap) == ap.border_color@,
        overlay_script("__POPUP_WIDTH__"@, cols, rows, req_id, plugin, result_path, ap) == decimal(ap.popup_width as nat),
        overlay_script("__POPUP_WIDTH_PCT__"@, cols, rows, req_id, plugin, result_path, ap) == ap.popup_width_pct@,
{
    lemma_overlay_field_placeholders(cols, rows, req_id, plugin, result_path, ap);
    lemma_overlay_appearance_placeholders(cols, rows, req_id, plugin, result_path, ap);
}

/// The overlay script's own placeholders: grid, request id, plugin name and
/// result path.
proof fn lemma_overlay_field_placeholders(cols: u32, rows: u32, req_id: Seq<char>, plugin: Seq<char>, result_path: Seq<char>, ap: &Appearance)
    requires
        no_underscore(req_id),
        no_underscore(plugin),
        no_underscore(result_path),
        no_underscore(ap.bg_color@),
        no_underscore(ap.bg_opacity@),
        no_underscore(ap.cell_color@),
        no_underscore(ap.selection_color@),
        no_underscore(ap.anchor_color@),
        no_underscore(ap.border_color@),
        no_underscore(ap.popup_width_pct@),
    ensures
        overlay_script("__COLS__"@, cols, rows, req_id, plugin, result_path, ap) == decimal(cols as nat),
        overlay_script("__ROWS__"@, cols, rows, req_id, plugin, result_path, ap) == decimal(rows as nat),
        overlay_script("__REQ_ID__"@, cols, rows, req_id, plugin, result_path, ap) == req_id,
        overlay_script("__PLUGIN__"@, cols, rows, req_id, plugin, result_path, ap) == plugin,
        overlay_script("__RESULT_PATH__"@, cols, rows, req_id, plugin, result_path, ap) == result_path,
{
    assert(overlay_script("__COLS__"@, cols, rows, req_id, plugin, result_path, ap) == decimal(cols as nat)) by {
        reveal_strlit("__COLS__");
        reveal_strlit("__PLUGIN__");
        reveal_strlit("__REQ_ID__");
        reveal_strlit("__RESULT_PATH__");
        reveal_strlit("__ROWS__");
        crate::text::lemma_replace_whole("__COLS__"@, decimal(cols as nat));
        crate::text::lemma_decimal_no_underscore(cols as nat);
        crate::text::lemma_replace_no_underscore(decimal(cols as nat), "__ROWS__"@, decimal(rows as nat));
        crate::text::lemma_decimal_no_underscore(cols as nat);
        crate::text::lemma_replace_no_underscore(decimal(cols as nat), "__REQ_ID__"@, req_id);
        crate::text::lemma_decimal_no_underscore(cols as nat);
        crate::text::lemma_replace_no_underscore(decimal(cols as nat), "__PLUGIN__"@, plugin);
        crate::text::lemma_decimal_no_underscore(cols as nat);
        crate::text::lemma_replace_no_underscore(decimal(cols as nat), "__RESULT_PATH__"@, result_path);
        crate::text::lemma_decimal_no_underscore(cols as nat);
        ap.lemma_apply_plain(decimal(cols as nat));
    }
    assert(overlay_script("__ROWS__"@, cols, rows, req_id, plugin, result_path, ap) == decimal(rows as nat)) by {
        reveal_strlit("__COLS__");
        reveal_strlit("__PLUGIN__");
        reveal_strlit("__REQ_ID__");
        reveal_strlit("__RESULT_PATH__");
        reveal_strlit("__ROWS__");
        crate::text::lemma_replace_missing_char("__ROWS__"@, "__COLS__"@, decimal(cols as nat), 2);
        crate::text::lemma_replace_whole("__ROWS__"@, decimal(rows as nat));
        crate::text::lemma_decimal_no_underscore(rows as nat);
        crate::text::lemma_replace_no_underscore(decimal(rows as nat), "__REQ_ID__"@, req_id);
        crate::text::lemma_decimal_no_underscore(rows as nat);
        crate::text::lemma_replace_no_underscore(decimal(rows as nat), "__PLUGIN__"@, plugin);
        crate::text::lemma_decimal_no_underscore(rows as nat);
        crate::text::lemma_replace_no_underscore(decimal(rows as nat), "__RESULT_PATH__"@, result_path);
        crate::text::lemma_decimal_no_underscore(rows as nat);
        ap.lemma_apply_plain(decimal(rows as nat));
    }
    assert(overlay_script("__REQ_ID__"@, cols, rows, req_id, plugin, result_path, ap) == req_id) by {
        reveal_strlit("__COLS__");
        reveal_strlit("__PLUGIN__");
        reveal_strlit("__REQ_ID__");
        reveal_strlit("__RESULT_PATH__");
        reveal_strlit("__ROWS__");
        crate::text::lemma_replace_missing_char("__REQ_ID__"@, "__COLS__"@, decimal(cols as nat), 2);
        crate::text::lemma_replace_missing_char("__REQ_ID__"@, "__ROWS__"@, decimal(rows as nat), 3);
        crate::text::lemma_replace_whole("__REQ_ID__"@, req_id);
        crate::text::lemma_replace_no_underscore(req_id, "__PLUGIN__"@, plugin);
        crate::text::lemma_replace_no_underscore(req_id, "__RESULT_PATH__"@, result_path);
        ap.lemma_apply_plain(req_id);
    }
    assert(overlay_script("__PLUGIN__"@, cols, rows, req_id, plugin, result_path, ap) == plugin) by {
        reveal_strlit("__COLS__");
        reveal_strlit("__PLUGIN__");
        reveal_strlit("__REQ_ID__");
        reveal_strlit("__RESULT_PATH__");
        reveal_strlit("__ROWS__");
        crate::text::lemma_replace_missing_char("__PLUGIN__"@, "__COLS__"@, decimal(cols as nat), 2);
        crate::text::lemma_replace_missing_char("__PLUGIN__"@, "__ROWS__"@, decimal(rows as nat), 2);
        crate::text::lemma_replace_missing_char("__PLUGIN__"@, "__REQ_ID__"@, req_id, 2);
        crate::text::lemma_replace_whole("__PLUGIN__"@, plugin);
        crate::text::lemma_replace_no_underscore(plugin, "__RESULT_PATH__"@, result_path);
        ap.lemma_apply_plain(plugin);
    }
    assert(overlay_script("__RESULT_PATH__"@, cols, rows, req_id, plugin, result_path, ap) == result_path) by {
        reveal_strlit("__COLS__");
        reveal_strlit("__PLUGIN__");
        reveal_strlit("__REQ_ID__");
        reveal_strlit("__RESULT_PATH__");
        reveal_strlit("__ROWS__");
        crate::text::lemma_replace_missing_char("__RESULT_PATH__"@, "__COLS__"@, decimal(cols as nat), 2);
        crate::text::lemma_replace_missing_char("__RESULT_PATH__"@, "__ROWS__"@, decimal(rows as nat), 3);
        crate::text::lemma_replace_missing_char("__RESULT_PATH__"@, "__REQ_ID__"@, req_id, 4);
        crate::text::lemma_replace_missing_char("__RESULT_PATH__"@, "__PLUGIN__"@, plugin, 5);
        crate::text::lemma_replace_whole("__RESULT_PATH__"@, result_path);
        ap.lemma_apply_plain(result_path);
    }
}

/// The overlay script's appearance placeholders, which its own
/// substitutions leave in place.
proof fn lemma_overlay_appearance_placeholders(cols: u32, rows: u32, req_id: Seq<char>, plugin: Seq<char>, result_path: Seq<char>, ap: &Appearance)
    requires
        no_underscore(req_id),
        no_underscore(plugin),
        no_underscore(result_path),
        no_underscore(ap.bg_color@),
        no_underscore(ap.bg_opacity@),
        no_underscore(ap.cell_color@),
        no_underscore(ap.selection_color@),
        no_underscore(ap.anchor_color@),
        no_underscore(ap.border_color@),
        no_underscore(ap.popup_width_pct@),
    ensures
        overlay_script("__BG_COLOR__"@, cols, rows, req_id, plugin, result_path, ap) == ap.bg_color@,
        overlay_script("__BG_OPACITY__"@, cols, rows, req_id, plugin, result_path, ap) == ap.bg_opacity@,
        overlay_script("__CELL_COLOR__"@, cols, rows, req_id, plugin, result_path, ap) == ap.cell_color@,
        overlay_script("__SEL_COLOR__"@, cols, rows, req_id, plugin, result_path, ap) == ap.selection_color@,
        overlay_script("__ANCHOR_COLOR__"@, cols, rows, req_id, plugin, result_path, ap) == ap.anchor_color@,
        overlay_script("__BORDER_COLOR__"@, cols, rows, req_id, plugin, result_path, ap) == ap.border_color@,
        overlay_script("__POPUP_WIDTH__"@, cols, rows, req_id, plugin, result_path, ap) == decimal(ap.popup_width as nat),
        overlay_script("__POPUP_WIDTH_PCT__"@, cols, rows, req_id, plugin, result_path, ap) == ap.popup_width_pct@,
{
    lemma_appearance_placeholders(ap);
    assert(overlay_script("__BG_COLOR__"@, cols, rows, req_id, plugin, result_path, ap) == ap.bg_color@) by {
        reveal_strlit("__BG_COLOR__");
        reveal_strlit("__COLS__");
        reveal_strlit("__PLUGIN__");
        reveal_strlit("__REQ_ID__");
        reveal_strlit("__RESULT_PATH__");
        reveal_strlit("__ROWS__");
        crate::text::lemma_replace_missing_char("__BG_COLOR__"@, "__COLS__"@, decimal(cols as nat), 5);
        crate::text::lemma_replace_missing_char("__BG_COLOR__"@, "__ROWS__"@, decimal(rows as nat), 4);
        crate::text::lemma_replace_missing_char("__BG_COLOR__"@, "__REQ_ID__"@, req_id, 3);
        crate::text::lemma_replace_missing_char("__BG_COLOR__"@, "__PLUGIN__"@, plugin, 2);
        crate::text::lemma_replace_short("__BG_COLOR__"@, "__RESULT_PATH__"@, result_path);
    }
    assert(overlay_script("__BG_OPACITY__"@, cols, rows, req_id, plugin, result_path, ap) == ap.bg_opacity@) by {
        reveal_strlit("__BG_OPACITY__");
        reveal_strlit("__COLS__");
        reveal_strlit("__PLUGIN__");
        reveal_strlit("__REQ_ID__");
        reveal_strlit("__RESULT_PATH__");
        reveal_strlit("__ROWS__");
        crate::text::lemma_replace_missing_char("__BG_OPACITY__"@, "__COLS__"@, decimal(cols as nat), 4);
        crate::text::lemma_replace_missing_char("__BG_OPACITY__"@, "__ROWS__"@, decimal(rows as nat), 2);
        crate::text::lemma_replace_missing_char("__BG_OPACITY__"@, "__REQ_ID__"@, req_id, 2);
        crate::text::lemma_replace_missing_char("__BG_OPACITY__"@, "__PLUGIN__"@, plugin, 3);
        crate::text::lemma_replace_short("__BG_OPACITY__"@, "__RESULT_PATH__"@, result_path);
    }
    assert(overlay_script("__CELL_COLOR__"@, cols, rows, req_id, plugin, result_path, ap) == ap.cell_color@) by {
        reveal_strlit("__CELL_COLOR__");
        reveal_strlit("__COLS__");
        reveal_strlit("__PLUGIN__");
        reveal_strlit("__REQ_ID__");
        reveal_strlit("__RESULT_PATH__");
        reveal_strlit("__ROWS__");
        crate::text::lemma_replace_missing_char("__CELL_COLOR__"@, "__COLS__"@, decimal(cols as nat), 5);
        crate::text::lemma_replace_missing_char("__CELL_COLOR__"@, "__ROWS__"@, decimal(rows as nat), 4);
        crate::text::lemma_replace_missing_char("__CELL_COLOR__"@, "__REQ_ID__"@, req_id, 4);
        crate::text::lemma_replace_missing_char("__CELL_COLOR__"@, "__PLUGIN__"@, plugin, 2);
        crate::text::lemma_replace_short("__CELL_COLOR__"@, "__RESULT_PATH__"@, result_path);
    }
    assert(overlay_script("__SEL_COLOR__"@, cols, rows, req_id, plugin, result_path, ap) == ap.selection_color@) by {
        reveal_strlit("__COLS__");
        reveal_strlit("__PLUGIN__");
        reveal_strlit("__REQ_ID__");
        reveal_strlit("__RESULT_PATH__");
        reveal_strlit("__ROWS__");
        reveal_strlit("__SEL_COLOR__");
            assert forall|i: int| 0 <= i && i + "__COLS__"@.len() <= "__SEL_COLOR__"@.len() implies #[trigger] "__SEL_COLOR__"@.subrange(i, i + "__COLS__"@.len()) != "__COLS__"@ by {
            if i == 0 {
            assert("__SEL_COLOR__"@.subrange(i, i + "__COLS__"@.len())[2] != "__COLS__"@[2]);
            } else if i == 1 {
            assert("__SEL_COLOR__"@.subrange(i, i + "__COLS__"@.len())[1] != "__COLS__"@[1]);
            } else if i == 2 {
            assert("__SEL_COLOR__"@.subrange(i, i + "__COLS__"@.len())[0] != "__COLS__"@[0]);
            } else if i == 3 {
            assert("__SEL_COLOR__"@.subrange(i, i + "__COLS__"@.len())[0] != "__COLS__"@[0]);
            } else if i == 4 {
            assert("__SEL_COLOR__"@.subrange(i, i + "__COLS__"@.len())[0] != "__COLS__"@[0]);
            } else if i == 5 {
            assert("__SEL_COLOR__"@.subrange(i, i + "__COLS__"@.len())[1] != "__COLS__"@[1]);
            }
        }
        crate::text::lemma_replace_absent("__SEL_COLOR__"@, "__COLS__"@, decimal(cols as nat));
        crate::text::lemma_replace_missing_char("__SEL_COLOR__"@, "__ROWS__"@, decimal(rows as nat), 4);
        crate::text::lemma_replace_missing_char("__SEL_COLOR__"@, "__REQ_ID__"@, req_id, 4);
        crate::text::lemma_replace_missing_char("__SEL_COLOR__"@, "__PLUGIN__"@, plugin, 2);
        crate::text::lemma_replace_short("__SEL_COLOR__"@, "__RESULT_PATH__"@, result_path);
    }
    assert(overlay_script("__ANCHOR_COLOR__"@, cols, rows, req_id, plugin, result_path, ap) == ap.anchor_color@) by {
        reveal_strlit("__ANCHOR_COLOR__");
        reveal_strlit("__COLS__");
        reveal_strlit("__PLUGIN__");
        reveal_strlit("__REQ_ID__");
        reveal_strlit("__RESULT_PATH__");
        reveal_strlit("__ROWS__");
        crate::text::lemma_replace_missing_char("__ANCHOR_COLOR__"@, "__COLS__"@, decimal(cols as nat), 5);
        crate::text::lemma_replace_missing_char("__ANCHOR_COLOR__"@, "__ROWS__"@, decimal(rows as nat), 4);
        crate::text::lemma_replace_missing_char("__ANCHOR_COLOR__"@, "__REQ_ID__"@, req_id, 3);
        crate::text::lemma_replace_missing_char("__ANCHOR_COLOR__"@, "__PLUGIN__"@, plugin, 2);
        crate::text::lemma_replace_missing_char("__ANCHOR_COLOR__"@, "__RESULT_PATH__"@, result_path, 3);
    }
    assert(overlay_script("__BORDER_COLOR__"@, cols, rows, req_id, plugin, result_path, ap) == ap.border_color@) by {
        reveal_strlit("__BORDER_COLOR__");
        reveal_strlit("__COLS__");
        reveal_strlit("__PLUGIN__");
        reveal_strlit("__REQ_ID__");
        reveal_strlit("__RESULT_PATH__");
        reveal_strlit("__ROWS__");
        crate::text::lemma_replace_missing_char("__BORDER_COLOR__"@, "__COLS__"@, decimal(cols as nat), 5);
        crate::text::lemma_replace_missing_char("__BORDER_COLOR__"@, "__ROWS__"@, decimal(rows as nat), 4);
        crate::text::lemma_replace_missing_char("__BORDER_COLOR__"@, "__REQ_ID__"@, req_id, 4);
        crate::text::lemma_replace_missing_char("__BORDER_COLOR__"@, "__PLUGIN__"@, plugin, 2);
        crate::text::lemma_replace_missing_char("__BORDER_COLOR__"@, "__RESULT_PATH__"@, result_path, 4);
    }
    assert(overlay_script("__POPUP_WIDTH__"@, cols, rows, req_id, plugin, result_path, ap) == decimal(ap.popup_width as nat)) by {
        reveal_strlit("__COLS__");
        reveal_strlit("__PLUGIN__");
        reveal_strlit("__POPUP_WIDTH__");
        reveal_strlit("__REQ_ID__");
        reveal_strlit("__RESULT_PATH__");
        reveal_strlit("__ROWS__");
        crate::text::lemma_replace_missing_char("__POPUP_WIDTH__"@, "__COLS__"@, decimal(cols as nat), 2);
        crate::text::lemma_replace_missing_char("__POPUP_WIDTH__"@, "__ROWS__"@, decimal(rows as nat), 2);
        crate::text::lemma_replace_missing_char("__POPUP_WIDTH__"@, "__REQ_ID__"@, req_id, 2);
        crate::text::lemma_replace_missing_char("__POPUP_WIDTH__"@, "__PLUGIN__"@, plugin, 3);
        crate::text::lemma_replace_missing_char("__POPUP_WIDTH__"@, "__RESULT_PATH__"@, result_path, 2);
    }
    assert(overlay_script("__POPUP_WIDTH_PCT__"@, cols, rows, req_id, plugin, result_path, ap) == ap.popup_width_pct@) by {
        reveal_strlit("__COLS__");
        reveal_strlit("__PLUGIN__");
        reveal_strlit("__POPUP_WIDTH_PCT__");
        reveal_strlit("__REQ_ID__");
        reveal_strlit("__RESULT_PATH__");
        reveal_strlit("__ROWS__");
        crate::text::lemma_replace_missing_char("__POPUP_WIDTH_PCT__"@, "__COLS__"@, decimal(cols as nat), 4);
        crate::text::lemma_replace_missing_char("__POPUP_WIDTH_PCT__"@, "__ROWS__"@, decimal(rows as nat), 2);
        crate::text::lemma_replace_missing_char("__POPUP_WIDTH_PCT__"@, "__REQ_ID__"@, req_id, 2);
        crate::text::lemma_replace_missing_char("__POPUP_WIDTH_PCT__"@, "__PLUGIN__"@, plugin, 3);
        crate::text::lemma_replace_missing_char("__POPUP_WIDTH_PCT__"@, "__RESULT_PATH__"@, result_path, 2);
    }
}

/// Each placeholder of the popup script stands for its own value: a
/// template that is just that placeholder becomes the grid's columns or
/// rows, the request id, the plugin name, the anchor, `true`/`false` for
/// taking focus, or the appearance setting (for values that hold no `_`).
pub proof fn lemma_popup_placeholders(cols: u32, rows: u32, req_id: Seq<char>, plugin: Seq<char>, anchor: Seq<char>, grab_focus: bool, ap: &Appearance)
    requires
        no_underscore(req_id),
        no_underscore(plugin),
        no_underscore(anchor),
        no_underscore(ap.bg_color@),
        no_underscore(ap.bg_opacity@),
        no_underscore(ap.cell_color@),
        no_underscore(ap.selection_color@),
        no_underscore(ap.anchor_color@),
        no_underscore(ap.border_color@),
        no_underscore(ap.popup_width_pct@),
    ensures
        popup_script("__COLS__"@, cols, rows, req_id, plugin, anchor, grab_focus, ap) == decimal(cols as nat),
        popup_script("__ROWS__"@, cols, rows, req_id, plugin, anchor, grab_focus, ap) == decimal(rows as nat),
        popup_script("__REQ_ID__"@, cols, rows, req_id, plugin, anchor, grab_focus, ap) == req_id,
        popup_script("__PLUGIN__"@, cols, rows, req_id, plugin, anchor, grab_focus, ap) == plugin,
        popup_script("__ANCHOR__"@, cols, rows, req_id, plugin, anchor, grab_focus, ap) == anchor,
        popup_script("__GRAB_FOCUS__"@, cols, rows, req_id, plugin, anchor, grab_focus, ap) == bool_text(grab_focus),
        popup_script("__BG_COLOR__"@, cols, rows, req_id, plugin, anchor, grab_focus, ap) == ap.bg_color@,
        popup_script("__BG_OPACITY__"@, cols, rows, req_id, plugin, anchor, grab_focus, ap) == ap.bg_opacity@,
        popup_script("__CELL_COLOR__"@, cols, rows, req_id, plugin, anchor, grab_focus, ap) == ap.cell_color@,
        popup_script("__SEL_COLOR__"@, cols, rows, req_id, plugin, anchor, grab_focus, ap) == ap.selection_color@,
        popup_script("__ANCHOR_COLOR__"@, cols, rows, req_id, plugin, anchor, grab_focus, ap) == ap.anchor_color@,
        popup_script("__BORDER_COLOR__"@, cols, rows, req_id, plugin, anchor, grab_focus, ap) == ap.border_color@,
        popup_script("__POPUP_WIDTH__"@, cols, rows, req_id, plugin, anchor, grab_focus, ap) == decimal(ap.popup_width as nat),
        popup_script("__POPUP_WIDTH_PCT__"@, cols, rows, req_id, plugin, anchor, grab_focus, ap) == ap.popup_width_pct@,
{
    lemma_popup_field_placeholders(cols, rows, req_id, plugin, anchor, grab_focus, ap);
    lemma_popup_appearance_placeholders(cols, rows, req_id, plugin, anchor, grab_focus, ap);
}

/// The popup script's own placeholders: grid, request id, plugin name,
/// anchor and focus.
proof fn lemma_popup_field_placeholders(cols: u32, rows: u32, req_id: Seq<char>, plugin: Seq<char>, anchor: Seq<char>, grab_focus: bool, ap: &Appearance)
    requires
        no_underscore(req_id),
        no_underscore(plugin),
        no_underscore(anchor),
        no_underscore(ap.bg_color@),
        no_underscore(ap.bg_opacity@),
        no_underscore(ap.cell_color@),
        no_underscore(ap.selection_color@),
        no_underscore(ap.anchor_color@),
        no_underscore(ap.border_color@),
        no_underscore(ap.popup_width_pct@),
    ensures
        popup_script("__COLS__"@, cols, rows, req_id, plugin, anchor, grab_focus, ap) == decimal(cols as nat),
        popup_script("__ROWS__"@, cols, rows, req_id, plugin, anchor, grab_focus, ap) == decimal(rows as nat),
        popup_script("__REQ_ID__"@, cols, rows, req_id, plugin, anchor, grab_focus, ap) == req_id,
        popup_script("__PLUGIN__"@, cols, rows, req_id, plugin, anchor, grab_focus, ap) == plugin,
        popup_script("__ANCHOR__"@, cols, rows, req_id, plugin, anchor, grab_focus, ap) == anchor,
        popup_script("__GRAB_FOCUS__"@, cols, rows, req_id, plugin, anchor, grab_focus, ap) == bool_text(grab_focus),
{
    assert(no_underscore(bool_text(grab_focus))) by {
        reveal_strlit("true");
        reveal_strlit("false");
    }
    assert(popup_script("__COLS__"@, cols, rows, req_id, plugin, anchor, grab_focus, ap) == decimal(cols as nat)) by {
        reveal_strlit("__ANCHOR__");
        reveal_strlit("__COLS__");
        reveal_strlit("__GRAB_FOCUS__");
        reveal_strlit("__PLUGIN__");
        reveal_strlit("__REQ_ID__");
        reveal_strlit("__ROWS__");
        crate::text::lemma_replace_whole("__COLS__"@, decimal(cols as nat));
        crate::text::lemma_decimal_no_underscore(cols as nat);
        crate::text::lemma_replace_no_underscore(decimal(cols as nat), "__ROWS__"@, decimal(rows as nat));
        crate::text::lemma_decimal_no_underscore(cols as nat);
        crate::text::lemma_replace_no_underscore(decimal(cols as nat), "__REQ_ID__"@, req_id);
        crate::text::lemma_decimal_no_underscore(cols as nat);
        crate::text::lemma_replace_no_underscore(decimal(cols as nat), "__PLUGIN__"@, plugin);
        crate::text::lemma_decimal_no_underscore(cols as nat);
        crate::text::lemma_replace_no_underscore(decimal(cols as nat), "__ANCHOR__"@, anchor);
        crate::text::lemma_decimal_no_underscore(cols as nat);
        crate::text::lemma_replace_no_underscore(decimal(cols as nat), "__GRAB_FOCUS__"@, bool_text(grab_focus));
        crate::text::lemma_decimal_no_underscore(cols as nat);
        ap.lemma_apply_plain(decimal(cols as nat));
    }
    assert(popup_script("__ROWS__"@, cols, rows, req_id, plugin, anchor, grab_focus, ap) == decimal(rows as nat)) by {
        reveal_strlit("__ANCHOR__");
        reveal_strlit("__COLS__");
        reveal_strlit("__GRAB_FOCUS__");
        reveal_strlit("__PLUGIN__");
        reveal_strlit("__REQ_ID__");
        reveal_strlit("__ROWS__");
        crate::text::lemma_replace_missing_char("__ROWS__"@, "__COLS__"@, decimal(cols as nat), 2);
        crate::text::lemma_replace_whole("__ROWS__"@, decimal(rows as nat));
        crate::text::lemma_decimal_no_underscore(rows as nat);
        crate::text::lemma_replace_no_underscore(decimal(rows as nat), "__REQ_ID__"@, req_id);
        crate::text::lemma_decimal_no_underscore(rows as nat);
        crate::text::lemma_replace_no_underscore(decimal(rows as nat), "__PLUGIN__"@, plugin);
        crate::text::lemma_decimal_no_underscore(rows as nat);
        crate::text::lemma_replace_no_underscore(decimal(rows as nat), "__ANCHOR__"@, anchor);
        crate::text::lemma_decimal_no_underscore(rows as nat);
        crate::text::lemma_replace_no_underscore(decimal(rows as nat), "__GRAB_FOCUS__"@, bool_text(grab_focus));
        crate::text::lemma_decimal_no_underscore(rows as nat);
        ap.lemma_apply_plain(decimal(rows as nat));
    }
    assert(popup_script("__REQ_ID__"@, cols, rows, req_id, plugin, anchor, grab_focus, ap) == req_id) by {
        reveal_strlit("__ANCHOR__");
        reveal_strlit("__COLS__");
        reveal_strlit("__GRAB_FOCUS__");
        reveal_strlit("__PLUGIN__");
        reveal_strlit("__REQ_ID__");
        reveal_strlit("__ROWS__");
        crate::text::lemma_replace_missing_char("__REQ_ID__"@, "__COLS__"@, decimal(cols as nat), 2);
        crate::text::lemma_replace_missing_char("__REQ_ID__"@, "__ROWS__"@, decimal(rows as nat), 3);
        crate::text::lemma_replace_whole("__REQ_ID__"@, req_id);
        crate::text::lemma_replace_no_underscore(req_id, "__PLUGIN__"@, plugin);
        crate::text::lemma_replace_no_underscore(req_id, "__ANCHOR__"@, anchor);
        crate::text::lemma_replace_no_underscore(req_id, "__GRAB_FOCUS__"@, bool_text(grab_focus));
        ap.lemma_apply_plain(req_id);
    }
    assert(popup_script("__PLUGIN__"@, cols, rows, req_id, plugin, anchor, grab_focus, ap) == plugin) by {
        reveal_strlit("__ANCHOR__");
        reveal_strlit("__COLS__");
        reveal_strlit("__GRAB_FOCUS__");
        reveal_strlit("__PLUGIN__");
        reveal_strlit("__REQ_ID__");
        reveal_strlit("__ROWS__");
        crate::text::lemma_replace_missing_char("__PLUGIN__"@, "__COLS__"@, decimal(cols as nat), 2);
        crate::text::lemma_replace_missing_char("__PLUGIN__"@, "__ROWS__"@, decimal(rows as nat), 2);
        crate::text::lemma_replace_missing_char("__PLUGIN__"@, "__REQ_ID__"@, req_id, 2);
        crate::text::lemma_replace_whole("__PLUGIN__"@, plugin);
        crate::text::lemma_replace_no_underscore(plugin, "__ANCHOR__"@, anchor);
        crate::text::lemma_replace_no_underscore(plugin, "__GRAB_FOCUS__"@, bool_text(grab_focus));
        ap.lemma_apply_plain(plugin);
    }
    assert(popup_script("__ANCHOR__"@, cols, rows, req_id, plugin, anchor, grab_focus, ap) == anchor) by {
        reveal_strlit("__ANCHOR__");
        reveal_strlit("__COLS__");
        reveal_strlit("__GRAB_FOCUS__");
        reveal_strlit("__PLUGIN__");
        reveal_strlit("__REQ_ID__");
        reveal_strlit("__ROWS__");
        crate::text::lemma_replace_missing_char("__ANCHOR__"@, "__COLS__"@, decimal(cols as nat), 4);
        crate::text::lemma_replace_missing_char("__ANCHOR__"@, "__ROWS__"@, decimal(rows as nat), 4);
        crate::text::lemma_replace_missing_char("__ANCHOR__"@, "__REQ_ID__"@, req_id, 3);
        crate::text::lemma_replace_missing_char("__ANCHOR__"@, "__PLUGIN__"@, plugin, 2);
        crate::text::lemma_replace_whole("__ANCHOR__"@, anchor);
        crate::text::lemma_replace_no_underscore(anchor, "__GRAB_FOCUS__"@, bool_text(grab_focus));
        ap.lemma_apply_plain(anchor);
    }
    assert(popup_script("__GRAB_FOCUS__"@, cols, rows, req_id, plugin, anchor, grab_focus, ap) == bool_text(grab_focus)) by {
        reveal_strlit("__ANCHOR__");
        reveal_strlit("__COLS__");
        reveal_strlit("__GRAB_FOCUS__");
        reveal_strlit("__PLUGIN__");
        reveal_strlit("__REQ_ID__");
        reveal_strlit("__ROWS__");
        crate::text::lemma_replace_missing_char("__GRAB_FOCUS__"@, "__COLS__"@, decimal(cols as nat), 4);
        crate::text::lemma_replace_missing_char("__GRAB_FOCUS__"@, "__ROWS__"@, decimal(rows as nat), 4);
        crate::text::lemma_replace_missing_char("__GRAB_FOCUS__"@, "__REQ_ID__"@, req_id, 3);
        crate::text::lemma_replace_missing_char("__GRAB_FOCUS__"@, "__PLUGIN__"@, plugin, 2);
        crate::text::lemma_replace_missing_char("__GRAB_FOCUS__"@, "__ANCHOR__"@, anchor, 3);
        crate::text::lemma_replace_whole("__GRAB_FOCUS__"@, bool_text(grab_focus));
        ap.lemma_apply_plain(bool_text(grab_focus));
    }
}

/// The popup script's appearance placeholders, which its own substitutions
/// leave in place.
#[verifier::rlimit(40)]
proof fn lemma_popup_appearance_placeholders(cols: u32, rows: u32, req_id: Seq<char>, plugin: Seq<char>, anchor: Seq<char>, grab_focus: bool, ap: &Appearance)
    requires
        no_underscore(req_id),
        no_underscore(plugin),
        no_underscore(anchor),
        no_underscore(ap.bg_color@),
        no_underscore(ap.bg_opacity@),
        no_underscore(ap.cell_color@),
        no_underscore(ap.selection_color@),
        no_underscore(ap.anchor_color@),
        no_underscore(ap.border_color@),
        no_underscore(ap.popup_width_pct@),
    ensures
        popup_script("__BG_COLOR__"@, cols, rows, req_id, plugin, anchor, grab_focus, ap) == ap.bg_color@,
        popup_script("__BG_OPACITY__"@, cols, rows, req_id, plugin, anchor, grab_focus, ap) == ap.bg_opacity@,
        popup_script("__CELL_COLOR__"@, cols, rows, req_id, plugin, anchor, grab_focus, ap) == ap.cell_color@,
        popup_script("__SEL_COLOR__"@, cols, rows, req_id, plugin, anchor, grab_focus, ap) == ap.selection_color@,
        popup_script("__ANCHOR_COLOR__"@, cols, rows, req_id, plugin, anchor, grab_focus, ap) == ap.anchor_color@,
        popup_script("__BORDER_COLOR__"@, cols, rows, req_id, plugin, anchor, grab_focus, ap) == ap.border_color@,
        popup_script("__POPUP_WIDTH__"@, cols, rows, req_id, plugin, anchor, grab_focus, ap) == decimal(ap.popup_width as nat),
        popup_script("__POPUP_WIDTH_PCT__"@, cols, rows, req_id, plugin, anchor, grab_focus, ap) == ap.popup_width_pct@,
{
    lemma_appearance_placeholders(ap);
    assert(popup_script("__BG_COLOR__"@, cols, rows, req_id, plugin, anchor, grab_focus, ap) == ap.bg_color@) by {
        reveal_strlit("__ANCHOR__");
        reveal_strlit("__BG_COLOR__");
        reveal_strlit("__COLS__");
        reveal_strlit("__GRAB_FOCUS__");
        reveal_strlit("__PLUGIN__");
        reveal_strlit("__REQ_ID__");
        reveal_strlit("__ROWS__");
        crate::text::lemma_replace_missing_char("__BG_COLOR__"@, "__COLS__"@, decimal(cols as nat), 5);
        crate::text::lemma_replace_missing_char("__BG_COLOR__"@, "__ROWS__"@, decimal(rows as nat), 4);
        crate::text::lemma_replace_missing_char("__BG_COLOR__"@, "__REQ_ID__"@, req_id, 3);
        crate::text::lemma_replace_missing_char("__BG_COLOR__"@, "__PLUGIN__"@, plugin, 2);
        crate::text::lemma_replace_missing_char("__BG_COLOR__"@, "__ANCHOR__"@, anchor, 2);
        crate::text::lemma_replace_short("__BG_COLOR__"@, "__GRAB_FOCUS__"@, bool_text(grab_focus));
    }
    assert(popup_script("__BG_OPACITY__"@, cols, rows, req_id, plugin, anchor, grab_focus, ap) == ap.bg_opacity@) by {
        reveal_strlit("__ANCHOR__");
        reveal_strlit("__BG_OPACITY__");
        reveal_strlit("__COLS__");
        reveal_strlit("__GRAB_FOCUS__");
        reveal_strlit("__PLUGIN__");
        reveal_strlit("__REQ_ID__");
        reveal_strlit("__ROWS__");
        crate::text::lemma_replace_missing_char("__BG_OPACITY__"@, "__COLS__"@, decimal(cols as nat), 4);
        crate::text::lemma_replace_missing_char("__BG_OPACITY__"@, "__ROWS__"@, decimal(rows as nat), 2);
        crate::text::lemma_replace_missing_char("__BG_OPACITY__"@, "__REQ_ID__"@, req_id, 2);
        crate::text::lemma_replace_missing_char("__BG_OPACITY__"@, "__PLUGIN__"@, plugin, 3);
        crate::text::lemma_replace_missing_char("__BG_OPACITY__"@, "__ANCHOR__"@, anchor, 3);
        crate::text::lemma_replace_missing_char("__BG_OPACITY__"@, "__GRAB_FOCUS__"@, bool_text(grab_focus), 3);
    }
    assert(popup_script("__CELL_COLOR__"@, cols, rows, req_id, plugin, anchor, grab_focus, ap) == ap.cell_color@) by {
        reveal_strlit("__ANCHOR__");
        reveal_strlit("__CELL_COLOR__");
        reveal_strlit("__COLS__");
        reveal_strlit("__GRAB_FOCUS__");
        reveal_strlit("__PLUGIN__");
        reveal_strlit("__REQ_ID__");
        reveal_strlit("__ROWS__");
        crate::text::lemma_replace_missing_char("__CELL_COLOR__"@, "__COLS__"@, decimal(cols as nat), 5);
        crate::text::lemma_replace_missing_char("__CELL_COLOR__"@, "__ROWS__"@, decimal(rows as nat), 4);
        crate::text::lemma_replace_missing_char("__CELL_COLOR__"@, "__REQ_ID__"@, req_id, 4);
        crate::text::lemma_replace_missing_char("__CELL_COLOR__"@, "__PLUGIN__"@, plugin, 2);
        crate::text::lemma_replace_missing_char("__CELL_COLOR__"@, "__ANCHOR__"@, anchor, 2);
        crate::text::lemma_replace_missing_char("__CELL_COLOR__"@, "__GRAB_FOCUS__"@, bool_text(grab_focus), 2);
    }
    assert(popup_script("__SEL_COLOR__"@, cols, rows, req_id, plugin, anchor, grab_focus, ap) == ap.selection_color@) by {
        reveal_strlit("__ANCHOR__");
        reveal_strlit("__COLS__");
        reveal_strlit("__GRAB_FOCUS__");
        reveal_strlit("__PLUGIN__");
        reveal_strlit("__REQ_ID__");
        reveal_strlit("__ROWS__");
        reveal_strlit("__SEL_COLOR__");
            assert forall|i: int| 0 <= i && i + "__COLS__"@.len() <= "__SEL_COLOR__"@.len() implies #[trigger] "__SEL_COLOR__"@.subrange(i, i + "__COLS__"@.len()) != "__COLS__"@ by {
            if i == 0 {
            assert("__SEL_COLOR__"@.subrange(i, i + "__COLS__"@.len())[2] != "__COLS__"@[2]);
            } else if i == 1 {
            assert("__SEL_COLOR__"@.subrange(i, i + "__COLS__"@.len())[1] != "__COLS__"@[1]);
            } else if i == 2 {
            assert("__SEL_COLOR__"@.subrange(i, i + "__COLS__"@.len())[0] != "__COLS__"@[0]);
            } else if i == 3 {
            assert("__SEL_COLOR__"@.subrange(i, i + "__COLS__"@.len())[0] != "__COLS__"@[0]);
            } else if i == 4 {
            assert("__SEL_COLOR__"@.subrange(i, i + "__COLS__"@.len())[0] != "__COLS__"@[0]);
            } else if i == 5 {
            assert("__SEL_COLOR__"@.subrange(i, i + "__COLS__"@.len())[1] != "__COLS__"@[1]);
            }
        }
        crate::text::lemma_replace_absent("__SEL_COLOR__"@, "__COLS__"@, decimal(cols as nat));
        crate::text::lemma_replace_missing_char("__SEL_COLOR__"@, "__ROWS__"@, decimal(rows as nat), 4);
        crate::text::lemma_replace_missing_char("__SEL_COLOR__"@, "__REQ_ID__"@, req_id, 4);
        crate::text::lemma_replace_missing_char("__SEL_COLOR__"@, "__PLUGIN__"@, plugin, 2);
        crate::text::lemma_replace_missing_char("__SEL_COLOR__"@, "__ANCHOR__"@, anchor, 2);
        crate::text::lemma_replace_short("__SEL_COLOR__"@, "__GRAB_FOCUS__"@, bool_text(grab_focus));
    }
    assert(popup_script("__ANCHOR_COLOR__"@, cols, rows, req_id, plugin, anchor, grab_focus, ap) == ap.anchor_color@) by {
        reveal_strlit("__ANCHOR_COLOR__");
        reveal_strlit("__ANCHOR__");
        reveal_strlit("__COLS__");
        reveal_strlit("__GRAB_FOCUS__");
        reveal_strlit("__PLUGIN__");
        reveal_strlit("__REQ_ID__");
        reveal_strlit("__ROWS__");
        crate::text::lemma_replace_missing_char("__ANCHOR_COLOR__"@, "__COLS__"@, decimal(cols as nat), 5);
        crate::text::lemma_replace_missing_char("__ANCHOR_COLOR__"@, "__ROWS__"@, decimal(rows as nat), 4);
        crate::text::lemma_replace_missing_char("__ANCHOR_COLOR__"@, "__REQ_ID__"@, req_id, 3);
        crate::text::lemma_replace_missing_char("__ANCHOR_COLOR__"@, "__PLUGIN__"@, plugin, 2);
            assert forall|i: int| 0 <= i && i + "__ANCHOR__"@.len() <= "__ANCHOR_COLOR__"@.len() implies #[trigger] "__ANCHOR_COLOR__"@.subrange(i, i + "__ANCHOR__"@.len()) != "__ANCHOR__"@ by {
            if i == 0 {
            assert("__ANCHOR_COLOR__"@.subrange(i, i + "__ANCHOR__"@.len())[9] != "__ANCHOR__"@[9]);
            } else if i == 1 {
            assert("__ANCHOR_COLOR__"@.subrange(i, i + "__ANCHOR__"@.len())[1] != "__ANCHOR__"@[1]);
            } else if i == 2 {
            assert("__ANCHOR_COLOR__"@.subrange(i, i + "__ANCHOR__"@.len())[0] != "__ANCHOR__"@[0]);
            } else if i == 3 {
            assert("__ANCHOR_COLOR__"@.subrange(i, i + "__ANCHOR__"@.len())[0] != "__ANCHOR__"@[0]);
            } else if i == 4 {
            assert("__ANCHOR_COLOR__"@.subrange(i, i + "__ANCHOR__"@.len())[0] != "__ANCHOR__"@[0]);
            } else if i == 5 {
            assert("__ANCHOR_COLOR__"@.subrange(i, i + "__ANCHOR__"@.len())[0] != "__ANCHOR__"@[0]);
            } else if i == 6 {
            assert("__ANCHOR_COLOR__"@.subrange(i, i + "__ANCHOR__"@.len())[0] != "__ANCHOR__"@[0]);
            }
        }
        crate::text::lemma_replace_absent("__ANCHOR_COLOR__"@, "__ANCHOR__"@, anchor);
        crate::text::lemma_replace_missing_char("__ANCHOR_COLOR__"@, "__GRAB_FOCUS__"@, bool_text(grab_focus), 2);
    }
    assert(popup_script("__BORDER_COLOR__"@, cols, rows, req_id, plugin, anchor, grab_focus, ap) == ap.border_color@) by {
        reveal_strlit("__ANCHOR__");
        reveal_strlit("__BORDER_COLOR__");
        reveal_strlit("__COLS__");
        reveal_strlit("__GRAB_FOCUS__");
        reveal_strlit("__PLUGIN__");
        reveal_strlit("__REQ_ID__");
        reveal_strlit("__ROWS__");
        crate::text::lemma_replace_missing_char("__BORDER_COLOR__"@, "__COLS__"@, decimal(cols as nat), 5);
        crate::text::lemma_replace_missing_char("__BORDER_COLOR__"@, "__ROWS__"@, decimal(rows as nat), 4);
        crate::text::lemma_replace_missing_char("__BORDER_COLOR__"@, "__REQ_ID__"@, req_id, 4);
        crate::text::lemma_replace_missing_char("__BORDER_COLOR__"@, "__PLUGIN__"@, plugin, 2);
        crate::text::lemma_replace_missing_char("__BORDER_COLOR__"@, "__ANCHOR__"@, anchor, 2);
        crate::text::lemma_replace_missing_char("__BORDER_COLOR__"@, "__GRAB_FOCUS__"@, bool_text(grab_focus), 2);
    }
    assert(popup_script("__POPUP_WIDTH__"@, cols, rows, req_id, plugin, anchor, grab_focus, ap) == decimal(ap.popup_width as nat)) by {
        reveal_strlit("__ANCHOR__");
        reveal_strlit("__COLS__");
        reveal_strlit("__GRAB_FOCUS__");
        reveal_strlit("__PLUGIN__");
        reveal_strlit("__POPUP_WIDTH__");
        reveal_strlit("__REQ_ID__");
        reveal_strlit("__ROWS__");
        crate::text::lemma_replace_missing_char("__POPUP_WIDTH__"@, "__COLS__"@, decimal(cols as nat), 2);
        crate::text::lemma_replace_missing_char("__POPUP_WIDTH__"@, "__ROWS__"@, decimal(rows as nat), 2);
        crate::text::lemma_replace_missing_char("__POPUP_WIDTH__"@, "__REQ_ID__"@, req_id, 2);
        crate::text::lemma_replace_missing_char("__POPUP_WIDTH__"@, "__PLUGIN__"@, plugin, 3);
        crate::text::lemma_replace_missing_char("__POPUP_WIDTH__"@, "__ANCHOR__"@, anchor, 2);
        crate::text::lemma_replace_missing_char("__POPUP_WIDTH__"@, "__GRAB_FOCUS__"@, bool_text(grab_focus), 2);
    }
    assert(popup_script("__POPUP_WIDTH_PCT__"@, cols, rows, req_id, plugin, anchor, grab_focus, ap) == ap.popup_width_pct@) by {
        reveal_strlit("__ANCHOR__");
        reveal_strlit("__COLS__");
        reveal_strlit("__GRAB_FOCUS__");
        reveal_strlit("__PLUGIN__");
        reveal_strlit("__POPUP_WIDTH_PCT__");
        reveal_strlit("__REQ_ID__");
        reveal_strlit("__ROWS__");
        crate::text::lemma_replace_missing_char("__POPUP_WIDTH_PCT__"@, "__COLS__"@, decimal(cols as nat), 4);
        crate::text::lemma_replace_missing_char("__POPUP_WIDTH_PCT__"@, "__ROWS__"@, decimal(rows as nat), 2);
        crate::text::lemma_replace_missing_char("__POPUP_WIDTH_PCT__"@, "__REQ_ID__"@, req_id, 2);
        crate::text::lemma_replace_missing_char("__POPUP_WIDTH_PCT__"@, "__PLUGIN__"@, plugin, 3);
        crate::text::lemma_replace_missing_char("__POPUP_WIDTH_PCT__"@, "__ANCHOR__"@, anchor, 2);
        crate::text::lemma_replace_missing_char("__POPUP_WIDTH_PCT__"@, "__GRAB_FOCUS__"@, bool_text(grab_focus), 2);
    }
}

} // verus!
