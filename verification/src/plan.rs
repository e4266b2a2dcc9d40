//! What one invocation does: which mode it runs in, on which grid, under
//! which plugin name, how long it waits for the script, and how the
//! outcome is judged.
use vstd::prelude::*;
use crate::command::{Cli, ResolveError, ResolveFailure, opt_or, resolve_command, resolve_spec};
use crate::config::Config;
use crate::preset::{self, PresetModel, builtin, builtin_names};
use crate::text::{
    decimal, extend_str, pad_right, push_decimal, push_pad_right, str_eq, string_of,
};

verus! {

/// The three ways of running.
#[derive(Debug)]
pub enum Mode {
    /// Move the active window to a rectangle of a grid.
    Tile { cols: u32, rows: u32, rect: [u32; 4] },
    /// Full-screen interactive grid.
    Overlay { cols: u32, rows: u32 },
    /// Small interactive popup picker.
    Popup { cols: u32, rows: u32 },
}

/// The grid of an interactive mode: `--cols`/`--rows` win over the `COLS
/// [ROWS]` given after the mode's flag, which win over the configuration,
/// which wins over the built-in default; a side of 0 becomes 1.
pub open spec fn pick_grid_spec(
    args: Option<Seq<u32>>,
    flag_cols: Option<u32>,
    flag_rows: Option<u32>,
    cfg_cols: Option<u32>,
    cfg_rows: Option<u32>,
    default_cols: u32,
    default_rows: u32,
) -> (u32, u32) {
    let c0 = opt_or(cfg_cols, default_cols);
    let r0 = opt_or(cfg_rows, default_rows);
    let c1 = match args {
        Some(v) => if v.len() > 0 { v[0] } else { c0 },
        None => c0,
    };
    let r1 = match args {
        Some(v) => if v.len() > 1 { v[1] } else { r0 },
        None => r0,
    };
    let c = opt_or(flag_cols, c1);
    let r = opt_or(flag_rows, r1);
    (if c < 1 { 1 } else { c }, if r < 1 { 1 } else { r })
}

pub open spec fn opt_seq(o: Option<Vec<u32>>) -> Option<Seq<u32>> {
    match o {
        Some(v) => Some(v@),
        None => None,
    }
}

/// The grid of an interactive mode.
pub fn pick_grid(
    args: &Option<Vec<u32>>,
    flag_cols: Option<u32>,
    flag_rows: Option<u32>,
    cfg_cols: Option<u32>,
    cfg_rows: Option<u32>,
    default_cols: u32,
    default_rows: u32,
) -> (r: (u32, u32))
    ensures
        r == pick_grid_spec(opt_seq(*args), flag_cols, flag_rows, cfg_cols, cfg_rows, default_cols, default_rows),
{
    let mut c = match cfg_cols {
        Some(x) => x,
        None => default_cols,
    };
    let mut r = match cfg_rows {
        Some(x) => x,
        None => default_rows,
    };
    if let Some(v) = args {
        if v.len() > 0 {
            c = v[0];
        }
        if v.len() > 1 {
            r = v[1];
        }
    }
    if let Some(x) = flag_cols {
        c = x;
    }
    if let Some(x) = flag_rows {
        r = x;
    }
    (if c < 1 { 1 } else { c }, if r < 1 { 1 } else { r })
}

pub open spec fn mode_model(m: &Mode) -> (int, PresetModel) {
    match m {
        Mode::Tile { cols, rows, rect } => (0, (*cols, *rows, rect@)),
        Mode::Overlay { cols, rows } => (1, (*cols, *rows, Seq::empty())),
        Mode::Popup { cols, rows } => (2, (*cols, *rows, Seq::empty())),
    }
}

/// The mode that the command line asks for: the overlay if `--overlay` is
/// given, else the popup if `--show` (or its older spelling `--popup`) is,
/// else tiling by a preset or `--tile`.
pub open spec fn select_mode_spec(cli: &Cli, cfg: &Config) -> Result<(int, PresetModel), ResolveFailure> {
    if cli.overlay is Some {
        let g = pick_grid_spec(opt_seq(cli.overlay), cli.cols, cli.rows, cfg.overlay.cols, cfg.overlay.rows, 8, 6);
        Ok((1, (g.0, g.1, Seq::empty())))
    } else if cli.show is Some || cli.popup is Some {
        let args = if cli.show is Some { cli.show } else { cli.popup };
        let g = pick_grid_spec(opt_seq(args), cli.cols, cli.rows, cfg.popup.cols, cfg.popup.rows, 6, 4);
        Ok((2, (g.0, g.1, Seq::empty())))
    } else {
        match resolve_spec(cli, cfg) {
            Ok(m) => Ok((0, m)),
            Err(e) => Err(e),
        }
    }
}

/// The mode that the command line asks for.
pub fn select_mode(cli: &Cli, cfg: &Config) -> (r: Result<Mode, ResolveError>)
    ensures
        match r {
            Ok(m) => select_mode_spec(cli, cfg) == Ok::<(int, PresetModel), ResolveFailure>(mode_model(&m)),
            Err(e) => select_mode_spec(cli, cfg) == Err::<(int, PresetModel), ResolveFailure>(e@),
        },
{
    if cli.overlay.is_some() {
        let (cols, rows) = pick_grid(&cli.overlay, cli.cols, cli.rows, cfg.overlay.cols, cfg.overlay.rows, 8, 6);
        Ok(Mode::Overlay { cols, rows })
    } else if cli.show.is_some() || cli.popup.is_some() {
        let args = if cli.show.is_some() { &cli.show } else { &cli.popup };
        let (cols, rows) = pick_grid(args, cli.cols, cli.rows, cfg.popup.cols, cfg.popup.rows, 6, 4);
        Ok(Mode::Popup { cols, rows })
    } else {
        match resolve_command(cli, cfg) {
            Ok((cols, rows, rect)) => Ok(Mode::Tile { cols, rows, rect }),
            Err(e) => Err(e),
        }
    }
}

impl Mode {
    /// The KWin plugin name: unique per request when tiling, so that
    /// concurrent calls coexist; fixed for the interactive modes, so that a
    /// new invocation replaces a stuck earlier one.
    pub fn plugin_name(&self, req_id: &str) -> (r: String)
        ensures
            r@ == match self {
                Mode::Tile { .. } => "kridtiler-"@ + req_id@,
                Mode::Overlay { .. } => "kridtiler-overlay"@,
                Mode::Popup { .. } => "kridtiler-popup"@,
            },
    {
        match self {
            Mode::Tile { .. } => {
                let mut v: Vec<char> = Vec::new();
                extend_str(&mut v, "kridtiler-");
                extend_str(&mut v, req_id);
                string_of(&v)
            },
            Mode::Overlay { .. } => "kridtiler-overlay".to_owned(),
            Mode::Popup { .. } => "kridtiler-popup".to_owned(),
        }
    }

    /// The interactive modes are declarative (QML) scripts; tiling is a JS script.
    pub fn is_declarative(&self) -> (r: bool)
        ensures
            r == !(self is Tile),
    {
        !matches!(self, Mode::Tile { .. })
    }

    /// The extension of the script file: `qml` for the interactive modes, `js` for tiling.
    pub fn script_ext(&self) -> (r: &'static str)
        ensures
            r@ == if self is Tile { "js"@ } else { "qml"@ },
    {
        if matches!(self, Mode::Tile { .. }) { "js" } else { "qml" }
    }

    /// How long to wait for the script: interactive modes get at least a
    /// minute, since the user may take a while; tiling waits as asked.
    pub fn effective_wait_ms(&self, wait_ms: u64) -> (r: u64)
        ensures
            r == if self is Tile { wait_ms } else if wait_ms < 60_000 { 60_000 } else { wait_ms },
    {
        match self {
            Mode::Tile { .. } => wait_ms,
            _ => if wait_ms < 60_000 { 60_000 } else { wait_ms },
        }
    }

    /// Whether to listen for the script's callback: only when tiling (the
    /// interactive scripts have no callback channel), only when a callback is
    /// wanted, and only when the control service could be set up.
    pub fn waits_for_result(&self, want_callback: bool, service_up: bool) -> (r: bool)
        ensures
            r == (want_callback && service_up && self is Tile),
    {
        want_callback && service_up && matches!(self, Mode::Tile { .. })
    }
}

/// A callback is wanted unless `--no-wait` is given or the wait is zero.
pub fn want_callback(cli: &Cli) -> (r: bool)
    ensures
        r == (!cli.no_wait && cli.wait_ms > 0),
{
    !cli.no_wait && cli.wait_ms > 0
}

/// The log level: `--log`, else the configuration's; with neither, the
/// environment or `info` decides.
pub fn log_level(cli: &Cli, cfg: &Config) -> (r: Option<String>)
    ensures
        r == match cli.log {
            Some(l) => Some(l),
            None => cfg.general.log_level,
        },
{
    match &cli.log {
        Some(l) => Some(l.clone()),
        None => match &cfg.general.log_level {
            Some(l) => Some(l.clone()),
            None => None,
        },
    }
}

/// Where the popup appears: `--at`, else the configuration's anchor, else
/// "center"; anything but "cursor" means "center".
pub open spec fn popup_anchor_spec(at: Option<Seq<char>>, cfg_anchor: Option<Seq<char>>) -> Seq<char> {
    let chosen = match at {
        Some(a) => a,
        None => match cfg_anchor {
            Some(a) => a,
            None => "center"@,
        },
    };
    if chosen == "cursor"@ {
        "cursor"@
    } else {
        "center"@
    }
}

pub open spec fn opt_text(o: Option<String>) -> Option<Seq<char>> {
    match o {
        Some(s) => Some(s@),
        None => None,
    }
}

/// Where the popup appears.
pub fn popup_anchor(cli: &Cli, cfg: &Config) -> (r: &'static str)
    ensures
        r@ == popup_anchor_spec(opt_text(cli.at), opt_text(cfg.popup.anchor)),
{
    let chosen: &str = match &cli.at {
        Some(a) => a.as_str(),
        None => match &cfg.popup.anchor {
            Some(a) => a.as_str(),
            None => "center",
        },
    };
    if str_eq(chosen, "cursor") { "cursor" } else { "center" }
}

/// Whether the popup takes keyboard focus: only when the configuration asks
/// for it, since taking focus disturbs input methods.
pub fn popup_grabs_focus(cfg: &Config) -> (r: bool)
    ensures
        r == (cfg.popup.grab_focus == Some(true)),
{
    match cfg.popup.grab_focus {
        Some(b) => b,
        None => false,
    }
}

/// A script that reported something other than "ok".
#[derive(Debug)]
pub struct ScriptFailure {
    pub status: String,
    pub payload: String,
}

impl ScriptFailure {
    /// The text that reports the failure.
    pub fn message(&self) -> (r: String)
        ensures
            r@ == "script reported status="@ + self.status@ + ": "@ + self.payload@,
    {
        let mut v: Vec<char> = Vec::new();
        extend_str(&mut v, "script reported status=");
        extend_str(&mut v, self.status.as_str());
        extend_str(&mut v, ": ");
        extend_str(&mut v, self.payload.as_str());
        string_of(&v)
    }
}

/// How a run ends: without a callback it succeeds; with one, it succeeds
/// exactly when the script reported "ok".
pub fn judge_outcome(outcome: Option<(String, String)>) -> (r: Result<(), ScriptFailure>)
    ensures
        match outcome {
            None => r is Ok,
            Some((status, payload)) => if status@ == "ok"@ {
                r is Ok
            } else {
                r matches Err(f) && f.status@ == status@ && f.payload@ == payload@
            },
        },
{
    match outcome {
        None => Ok(()),
        Some((status, payload)) => {
            if str_eq(status.as_str(), "ok") {
                Ok(())
            } else {
                Err(ScriptFailure { status, payload })
            }
        },
    }
}

/// An interactive grid never has a side of zero.
pub proof fn lemma_interactive_grid_nonempty(
    args: Option<Seq<u32>>,
    flag_cols: Option<u32>,
    flag_rows: Option<u32>,
    cfg_cols: Option<u32>,
    cfg_rows: Option<u32>,
    default_cols: u32,
    default_rows: u32,
)
    ensures
        pick_grid_spec(args, flag_cols, flag_rows, cfg_cols, cfg_rows, default_cols, default_rows).0 >= 1,
        pick_grid_spec(args, flag_cols, flag_rows, cfg_cols, cfg_rows, default_cols, default_rows).1 >= 1,
{
}

/// Every mode that is selected has a non-empty grid, and a tiling mode's
/// rectangle lies inside it.
pub proof fn lemma_selected_mode_sound(cli: &Cli, cfg: &Config)
    ensures
        select_mode_spec(cli, cfg) matches Ok(m) ==> m.1.0 >= 1 && m.1.1 >= 1 && (m.0 == 0
            ==> crate::preset::rect_fits(m.1.0 as int, m.1.1 as int, m.1.2)),
{
    crate::command::lemma_resolved_fits(cli, cfg);
}

// ---------------------------------------------------------------------------
// Listing the presets
// ---------------------------------------------------------------------------

/// One line of the preset listing.
pub open spec fn preset_line_spec(name: Seq<char>, m: PresetModel, user: bool) -> Seq<char> {
    pad_right(name, 20) + "  grid "@ + decimal(m.0 as nat) + "x"@ + decimal(m.1 as nat) + "  rect ("@
        + decimal(m.2[0] as nat) + ","@ + decimal(m.2[1] as nat) + ")..("@ + decimal(m.2[2] as nat)
        + ","@ + decimal(m.2[3] as nat) + ")  "@ + if user {
        "[user]"@
    } else {
        "[built-in]"@
    }
}

fn preset_line(name: &str, cols: u32, rows: u32, rect: &[u32; 4], user: bool) -> (r: String)
    ensures
        r@ == preset_line_spec(name@, (cols, rows, rect@), user),
{
    let mut v: Vec<char> = Vec::new();
    let n = crate::text::chars_of(name);
    push_pad_right(&mut v, &n, 20);
    extend_str(&mut v, "  grid ");
    push_decimal(&mut v, cols as u64);
    extend_str(&mut v, "x");
    push_decimal(&mut v, rows as u64);
    extend_str(&mut v, "  rect (");
    push_decimal(&mut v, rect[0] as u64);
    extend_str(&mut v, ",");
    push_decimal(&mut v, rect[1] as u64);
    extend_str(&mut v, ")..(");
    push_decimal(&mut v, rect[2] as u64);
    extend_str(&mut v, ",");
    push_decimal(&mut v, rect[3] as u64);
    extend_str(&mut v, ")  ");
    if user {
        extend_str(&mut v, "[user]");
    } else {
        extend_str(&mut v, "[built-in]");
    }
    string_of(&v)
}

/// The preset listing: one line per built-in preset, in table order, then
/// one per user preset.
pub open spec fn preset_listing_spec(cfg: &Config) -> Seq<Seq<char>> {
    Seq::new(builtin_names().len(), |i: int| preset_line_spec(builtin_names()[i], builtin(builtin_names()[i])->0, false))
        + Seq::new(cfg.presets@.len(), |i: int| preset_line_spec(cfg.presets@[i].0@, cfg.presets@[i].1.model(), true))
}

/// The lines of `--list-presets`.
pub fn preset_listing(cfg: &Config) -> (r: Vec<String>)
    ensures
        r@.map_values(|s: String| s@) == preset_listing_spec(cfg),
{
    let names = preset::names();
    let mut r: Vec<String> = Vec::new();
    for i in 0..names.len()
        invariant
            names@.map_values(|s: &str| s@) == builtin_names(),
            r@.len() == i,
            forall|j: int| 0 <= j < i ==> #[trigger] r@[j]@ == preset_listing_spec(cfg)[j],
    {
        assert(names@.map_values(|s: &str| s@)[i as int] == names@[i as int]@);
        proof {
            preset::lemma_listed_names_known(i as int);
        }
        let p = preset::lookup(names[i]).unwrap();
        r.push(preset_line(names[i], p.cols, p.rows, &p.rect, false));
    }
    let nb = r.len();
    for i in 0..cfg.presets.len()
        invariant
            nb == builtin_names().len(),
            r@.len() == nb + i,
            forall|j: int| 0 <= j < nb + i ==> #[trigger] r@[j]@ == preset_listing_spec(cfg)[j],
    {
        let e = &cfg.presets[i];
        r.push(preset_line(e.0.as_str(), e.1.cols, e.1.rows, &e.1.rect, true));
    }
    assert(r@.map_values(|s: String| s@) =~= preset_listing_spec(cfg));
    r
}

/// A grid side: the flag's value, else the value given after the mode's flag,
/// else the configuration's, else the built-in default; zero becomes one.
pub open spec fn grid_side(flag: Option<u32>, given: Option<u32>, configured: Option<u32>, default: u32) -> u32 {
    let v = match flag {
        Some(f) => f,
        None => match given {
            Some(g) => g,
            None => match configured {
                Some(c) => c,
                None => default,
            },
        },
    };
    if v == 0 {
        1
    } else {
        v
    }
}

/// The `i`-th number given after a mode's flag, if there is one.
pub open spec fn given_at(args: Option<Vec<u32>>, i: int) -> Option<u32> {
    match args {
        Some(v) => if 0 <= i < v@.len() {
            Some(v@[i])
        } else {
            None
        },
        None => None,
    }
}

/// `--overlay` runs the overlay, whatever else is given, on a grid that
/// `--cols`/`--rows`, then the numbers after `--overlay`, then the `[overlay]`
/// section, then 8 x 6 decide.
pub proof fn lemma_overlay_grid(cli: &Cli, cfg: &Config)
    requires
        cli.overlay is Some,
    ensures
        select_mode_spec(cli, cfg) == Ok::<(int, PresetModel), ResolveFailure>(
            (
                1,
                (
                    grid_side(cli.cols, given_at(cli.overlay, 0), cfg.overlay.cols, 8),
                    grid_side(cli.rows, given_at(cli.overlay, 1), cfg.overlay.rows, 6),
                    Seq::empty(),
                ),
            ),
        ),
{
}

/// The overlay's grid does not depend on the `[popup]` section, nor on the
/// popup's flags: two configurations with the same `[overlay]` section give
/// the same overlay.
pub proof fn lemma_overlay_ignores_popup(cli1: &Cli, cli2: &Cli, cfg1: &Config, cfg2: &Config)
    requires
        cli1.overlay is Some,
        cli1.overlay == cli2.overlay,
        cli1.cols == cli2.cols,
        cli1.rows == cli2.rows,
        cfg1.overlay.cols == cfg2.overlay.cols,
        cfg1.overlay.rows == cfg2.overlay.rows,
    ensures
        select_mode_spec(cli1, cfg1) == select_mode_spec(cli2, cfg2),
{
    lemma_overlay_grid(cli1, cfg1);
    lemma_overlay_grid(cli2, cfg2);
}

/// Without `--overlay`, `--show` (or else `--popup`) runs the popup, on a grid
/// that `--cols`/`--rows`, then the numbers after the flag, then the `[popup]`
/// section, then 6 x 4 decide.
pub proof fn lemma_popup_grid(cli: &Cli, cfg: &Config)
    requires
        cli.overlay is None,
        cli.show is Some || cli.popup is Some,
    ensures
        ({
            let args = if cli.show is Some {
                cli.show
            } else {
                cli.popup
            };
            select_mode_spec(cli, cfg) == Ok::<(int, PresetModel), ResolveFailure>(
                (
                    2,
                    (
                        grid_side(cli.cols, given_at(args, 0), cfg.popup.cols, 6),
                        grid_side(cli.rows, given_at(args, 1), cfg.popup.rows, 4),
                        Seq::empty(),
                    ),
                ),
            )
        }),
{
}

/// The popup's grid does not depend on the `[overlay]` section.
pub proof fn lemma_popup_ignores_overlay(cli: &Cli, cfg1: &Config, cfg2: &Config)
    requires
        cli.overlay is None,
        cli.show is Some || cli.popup is Some,
        cfg1.popup.cols == cfg2.popup.cols,
        cfg1.popup.rows == cfg2.popup.rows,
    ensures
        select_mode_spec(cli, cfg1) == select_mode_spec(cli, cfg2),
{
    lemma_popup_grid(cli, cfg1);
    lemma_popup_grid(cli, cfg2);
}

/// With none of the interactive flags, the run tiles: its grid and rectangle
/// are the resolved request's.
pub proof fn lemma_tile_mode(cli: &Cli, cfg: &Config)
    requires
        cli.overlay is None,
        cli.show is None,
        cli.popup is None,
    ensures
        match resolve_spec(cli, cfg) {
            Ok(m) => select_mode_spec(cli, cfg) == Ok::<(int, PresetModel), ResolveFailure>((0, m)),
            Err(e) => select_mode_spec(cli, cfg) == Err::<(int, PresetModel), ResolveFailure>(e),
        },
{
}

/// When `--at` is given, it alone decides where the popup appears: "cursor"
/// for "cursor", "center" for anything else, whatever the configuration says.
pub proof fn lemma_at_decides(at: Seq<char>, cfg1: Option<Seq<char>>, cfg2: Option<Seq<char>>)
    ensures
        popup_anchor_spec(Some(at), cfg1) == popup_anchor_spec(Some(at), cfg2),
        popup_anchor_spec(Some(at), cfg1) == (if at == "cursor"@ {
            "cursor"@
        } else {
            "center"@
        }),
{
}

/// Without `--at`, the configured anchor decides just as `--at` would; with
/// neither, the popup is centred.
pub proof fn lemma_anchor_fallback(cfg_anchor: Option<Seq<char>>)
    ensures
        popup_anchor_spec(None, cfg_anchor) == match cfg_anchor {
            Some(a) => if a == "cursor"@ {
                "cursor"@
            } else {
                "center"@
            },
            None => "center"@,
        },
{
}

/// Each line of the preset listing shows its preset's name, grid and
/// rectangle, in the order `grid COLSxROWS  rect (x1,y1)..(x2,y2)`: the
/// built-in presets in table order, from the table, then the user's.
pub proof fn lemma_listing_shows_presets(cfg: &Config, i: int)
    requires
        0 <= i < builtin_names().len() + cfg.presets@.len(),
    ensures
        ({
            let nb = builtin_names().len() as int;
            let (name, m, tag) = if i < nb {
                (builtin_names()[i], builtin(builtin_names()[i])->0, "[built-in]"@)
            } else {
                (cfg.presets@[i - nb].0@, cfg.presets@[i - nb].1.model(), "[user]"@)
            };
            preset_listing_spec(cfg)[i] == pad_right(name, 20) + "  grid "@ + decimal(m.0 as nat) + "x"@
                + decimal(m.1 as nat) + "  rect ("@ + decimal(m.2[0] as nat) + ","@ + decimal(m.2[1] as nat)
                + ")..("@ + decimal(m.2[2] as nat) + ","@ + decimal(m.2[3] as nat) + ")  "@ + tag
        }),
{
}

} // verus!
