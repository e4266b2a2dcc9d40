//! The command line, and how a tiling request is resolved into a grid and a
//! rectangle of cells.
use vstd::prelude::*;
use crate::config::{Config, user_preset, user_preset_names};
use crate::preset::{self, PresetModel, builtin, builtin_names, rect_fits};
use crate::text::{
    decimal, extend_chars, extend_str, join, join_strings, parse_u32, parse_u32_spec,
    push_decimal, str_eq, string_of,
};

verus! {

/// The command line, as parsed.
#[derive(Debug)]
pub struct Cli {
    /// Preset name, optionally followed by a parameter (`center 70`).
    pub preset: Option<Vec<String>>,
    /// Grid rectangle `x1 y1 x2 y2`, 0-indexed and inclusive.
    pub tile: Option<Vec<u32>>,
    /// Grid columns override.
    pub cols: Option<u32>,
    /// Grid rows override.
    pub rows: Option<u32>,
    pub list_presets: bool,
    pub list_monitors: bool,
    /// Log level (`error` | `warn` | `info` | `debug` | `trace`).
    pub log: Option<String>,
    /// How long to wait for the script's callback, in milliseconds; 0 means fire-and-forget.
    pub wait_ms: u64,
    /// Small popup picker, with optional `COLS [ROWS]`.
    pub show: Option<Vec<u32>>,
    /// Full-screen overlay, with optional `COLS [ROWS]`.
    pub overlay: Option<Vec<u32>>,
    /// Older spelling of `show`.
    pub popup: Option<Vec<u32>>,
    /// Popup placement: "center" or "cursor".
    pub at: Option<String>,
    pub no_wait: bool,
}

/// Why a tiling request was refused.
pub enum ResolveFailure {
    EmptyPresetArgs,
    CenterParamNotInteger { param: Seq<char> },
    CenterParamOutOfRange { pct: u32 },
    UnexpectedParam { name: Seq<char>, param: Seq<char> },
    UnknownPreset { name: Seq<char>, known: Seq<Seq<char>> },
    TileArity,
    MissingTarget,
    EmptyGrid,
    InvertedRect,
    RectOutOfGrid { rect: Seq<u32>, cols: u32, rows: u32 },
}

/// Why a tiling request was refused.
#[derive(Debug)]
pub enum ResolveError {
    /// The preset argument list was empty.
    EmptyPresetArgs,
    /// `center` was given a parameter that is not an integer.
    CenterParamNotInteger { param: String },
    /// `center` was given a percentage outside `10..=95`.
    CenterParamOutOfRange { pct: u32 },
    /// A preset other than `center` was given a parameter.
    UnexpectedParam { name: String, param: String },
    /// No user or built-in preset has this name; `known` lists the names there are.
    UnknownPreset { name: String, known: Vec<String> },
    /// `--tile` did not get exactly four numbers.
    TileArity,
    /// Neither a preset nor `--tile` was given.
    MissingTarget,
    /// The grid has no columns or no rows.
    EmptyGrid,
    /// The rectangle's corners are in the wrong order.
    InvertedRect,
    /// The rectangle reaches outside the grid.
    RectOutOfGrid { rect: [u32; 4], cols: u32, rows: u32 },
}

impl View for ResolveError {
    type V = ResolveFailure;

    open spec fn view(&self) -> ResolveFailure {
        match self {
            ResolveError::EmptyPresetArgs => ResolveFailure::EmptyPresetArgs,
            ResolveError::CenterParamNotInteger { param } => ResolveFailure::CenterParamNotInteger {
                param: param@,
            },
            ResolveError::CenterParamOutOfRange { pct } => ResolveFailure::CenterParamOutOfRange {
                pct: *pct,
            },
            ResolveError::UnexpectedParam { name, param } => ResolveFailure::UnexpectedParam {
                name: name@,
                param: param@,
            },
            ResolveError::UnknownPreset { name, known } => ResolveFailure::UnknownPreset {
                name: name@,
                known: known@.map_values(|s: String| s@),
            },
            ResolveError::TileArity => ResolveFailure::TileArity,
            ResolveError::MissingTarget => ResolveFailure::MissingTarget,
            ResolveError::EmptyGrid => ResolveFailure::EmptyGrid,
            ResolveError::InvertedRect => ResolveFailure::InvertedRect,
            ResolveError::RectOutOfGrid { rect, cols, rows } => ResolveFailure::RectOutOfGrid {
                rect: rect@,
                cols: *cols,
                rows: *rows,
            },
        }
    }
}

pub open spec fn opt_or(o: Option<u32>, d: u32) -> u32 {
    match o {
        Some(v) => v,
        None => d,
    }
}

/// `center N`: an N% x N% block centred on a fine 1000 x 1000 grid, so that
/// every integer percentage maps exactly.
pub open spec fn center_model(pct: u32) -> PresetModel {
    let span = pct * 10;
    let pad = (1000 - span) / 2;
    (1000, 1000, seq![pad as u32, pad as u32, (pad + span - 1) as u32, (pad + span - 1) as u32])
}

/// The grid and rectangle that the preset or `--tile` asks for, before the
/// explicit `--cols`/`--rows` overrides and the checks.
pub open spec fn requested(cli: &Cli, cfg: &Config) -> Result<PresetModel, ResolveFailure> {
    match cli.preset {
        Some(args) => {
            if args@.len() == 0 {
                Err(ResolveFailure::EmptyPresetArgs)
            } else {
                let name = args@[0]@;
                if name == "center"@ && args@.len() > 1 {
                    let param = args@[1]@;
                    match parse_u32_spec(param) {
                        None => Err(ResolveFailure::CenterParamNotInteger { param }),
                        Some(pct) => if 10 <= pct && pct <= 95 {
                            Ok(center_model(pct))
                        } else {
                            Err(ResolveFailure::CenterParamOutOfRange { pct })
                        },
                    }
                } else if args@.len() > 1 {
                    Err(ResolveFailure::UnexpectedParam { name, param: args@[1]@ })
                } else {
                    match user_preset(cfg, name) {
                        Some(m) => Ok(m),
                        None => match builtin(name) {
                            Some(m) => Ok(m),
                            None => Err(
                                ResolveFailure::UnknownPreset {
                                    name,
                                    known: builtin_names() + user_preset_names(cfg),
                                },
                            ),
                        },
                    }
                }
            }
        },
        None => match cli.tile {
            Some(t) => if t@.len() == 4 {
                Ok(
                    (
                        opt_or(cli.cols, opt_or(cfg.general.default_cols, 2)),
                        opt_or(cli.rows, opt_or(cfg.general.default_rows, 1)),
                        t@,
                    ),
                )
            } else {
                Err(ResolveFailure::TileArity)
            },
            None => Err(ResolveFailure::MissingTarget),
        },
    }
}

/// The names of the built-in preset that fills the whole screen.
pub open spec fn is_maximize_name(name: Seq<char>) -> bool {
    name == "maximize"@ || name == "max"@ || name == "full"@
}

/// The request names the built-in whole-screen preset (and no user preset
/// of that name): it covers the whole grid at any resolution.
pub open spec fn whole_grid_request(cli: &Cli, cfg: &Config) -> bool {
    &&& cli.preset matches Some(args)
    &&& args@.len() == 1
    &&& user_preset(cfg, args@[0]@) is None
    &&& is_maximize_name(args@[0]@)
}

/// The request names the built-in `center` preset, without a percentage (and
/// no user preset of that name): it covers the middle half of the grid at any
/// resolution.
pub open spec fn center_block_request(cli: &Cli, cfg: &Config) -> bool {
    &&& cli.preset matches Some(args)
    &&& args@.len() == 1
    &&& user_preset(cfg, args@[0]@) is None
    &&& args@[0]@ == "center"@
}

/// The middle half of a `cols` x `rows` grid, widened to whole cells: a
/// quarter (rounded down) of each side is left free on both ends, so the
/// block is centred; on the preset's own 4 x 4 grid it is `[1, 1, 2, 2]`.
pub open spec fn center_block(cols: u32, rows: u32) -> Seq<u32> {
    seq![cols / 4, rows / 4, (cols - 1 - cols / 4) as u32, (rows - 1 - rows / 4) as u32]
}

/// The final grid and rectangle: explicit `--cols`/`--rows` win over what the
/// preset or configuration gives, then the grid must be non-empty; the
/// whole-screen preset then covers the whole grid, `center` its middle half,
/// and any other rectangle must be ordered and inside it.
pub open spec fn resolve_spec(cli: &Cli, cfg: &Config) -> Result<PresetModel, ResolveFailure> {
    match requested(cli, cfg) {
        Err(e) => Err(e),
        Ok(m) => {
            let cols = opt_or(cli.cols, m.0);
            let rows = opt_or(cli.rows, m.1);
            let r = if whole_grid_request(cli, cfg) {
                seq![0u32, 0u32, (cols - 1) as u32, (rows - 1) as u32]
            } else if center_block_request(cli, cfg) {
                center_block(cols, rows)
            } else {
                m.2
            };
            if cols == 0 || rows == 0 {
                Err(ResolveFailure::EmptyGrid)
            } else if r[2] < r[0] || r[3] < r[1] {
                Err(ResolveFailure::InvertedRect)
            } else if r[2] >= cols || r[3] >= rows {
                Err(ResolveFailure::RectOutOfGrid { rect: r, cols, rows })
            } else {
                Ok((cols, rows, r))
            }
        },
    }
}

fn center_rect(pct: u32) -> (r: (u32, u32, [u32; 4]))
    requires
        10 <= pct <= 95,
    ensures
        (r.0, r.1, r.2@) == center_model(pct),
{
    let span = pct * 10;
    let pad = (1000 - span) / 2;
    let x1 = pad;
    let x2 = pad + span - 1;
    let rect = [x1, x1, x2, x2];
    assert(rect@ =~= center_model(pct).2);
    (1000, 1000, rect)
}

/// All preset names there are: the built-in ones, then the user's.
fn known_names(cfg: &Config) -> (r: Vec<String>)
    ensures
        r@.map_values(|s: String| s@) == builtin_names() + user_preset_names(cfg),
{
    let builtins = preset::names();
    let mut r: Vec<String> = Vec::new();
    for i in 0..builtins.len()
        invariant
            builtins@.map_values(|s: &str| s@) == builtin_names(),
            r@.len() == i,
            forall|j: int| 0 <= j < i ==> #[trigger] r@[j]@ == builtin_names()[j],
    {
        let s = builtins[i].to_owned();
        assert(builtins@.map_values(|s: &str| s@)[i as int] == builtins@[i as int]@);
        r.push(s);
    }
    let users = cfg.preset_names();
    let ghost nb = r@.len();
    for i in 0..users.len()
        invariant
            nb == builtin_names().len(),
            users@.map_values(|s: String| s@) == user_preset_names(cfg),
            r@.len() == nb + i,
            forall|j: int| 0 <= j < nb ==> #[trigger] r@[j]@ == builtin_names()[j],
            forall|j: int| nb <= j < nb + i ==> #[trigger] r@[j]@ == user_preset_names(cfg)[j - nb],
    {
        assert(users@.map_values(|s: String| s@)[i as int] == users@[i as int]@);
        r.push(users[i].clone());
    }
    assert(r@.map_values(|s: String| s@) =~= builtin_names() + user_preset_names(cfg));
    r
}

/// The grid and rectangle named by the preset or `--tile` argument.
fn requested_target(cli: &Cli, cfg: &Config) -> (r: Result<(u32, u32, [u32; 4]), ResolveError>)
    ensures
        match r {
            Ok(t) => requested(cli, cfg) == Ok::<PresetModel, ResolveFailure>((t.0, t.1, t.2@)),
            Err(e) => requested(cli, cfg) == Err::<PresetModel, ResolveFailure>(e@),
        },
{
    match &cli.preset {
        Some(args) => {
            if args.len() == 0 {
                return Err(ResolveError::EmptyPresetArgs);
            }
            let name = args[0].as_str();
            if str_eq(name, "center") && args.len() > 1 {
                let param = args[1].as_str();
                match parse_u32(param) {
                    None => Err(ResolveError::CenterParamNotInteger { param: args[1].clone() }),
                    Some(pct) => {
                        if 10 <= pct && pct <= 95 {
                            Ok(center_rect(pct))
                        } else {
                            Err(ResolveError::CenterParamOutOfRange { pct })
                        }
                    },
                }
            } else if args.len() > 1 {
                Err(ResolveError::UnexpectedParam { name: args[0].clone(), param: args[1].clone() })
            } else if let Some(p) = cfg.find_preset(name) {
                Ok((p.cols, p.rows, p.rect))
            } else if let Some(p) = preset::lookup(name) {
                Ok((p.cols, p.rows, p.rect))
            } else {
                let known = known_names(cfg);
                Err(ResolveError::UnknownPreset { name: args[0].clone(), known })
            }
        },
        None => match &cli.tile {
            Some(t) => {
                if t.len() != 4 {
                    return Err(ResolveError::TileArity);
                }
                let rect = [t[0], t[1], t[2], t[3]];
                assert(rect@ =~= t@);
                // Default grid for a raw rectangle: the configuration's, else 2 x 1.
                let dc = match cfg.general.default_cols {
                    Some(c) => c,
                    None => 2,
                };
                let dr = match cfg.general.default_rows {
                    Some(r) => r,
                    None => 1,
                };
                let cols = match cli.cols {
                    Some(c) => c,
                    None => dc,
                };
                let rows = match cli.rows {
                    Some(r) => r,
                    None => dr,
                };
                Ok((cols, rows, rect))
            },
            None => Err(ResolveError::MissingTarget),
        },
    }
}

/// Whether the request names the built-in `center` preset, without a percentage.
fn is_center_block_request(cli: &Cli, cfg: &Config) -> (r: bool)
    ensures
        r == center_block_request(cli, cfg),
{
    match &cli.preset {
        Some(args) => {
            if args.len() != 1 {
                return false;
            }
            let name = args[0].as_str();
            cfg.find_preset(name).is_none() && str_eq(name, "center")
        },
        None => false,
    }
}

/// Whether the request names the built-in whole-screen preset.
fn is_whole_grid_request(cli: &Cli, cfg: &Config) -> (r: bool)
    ensures
        r == whole_grid_request(cli, cfg),
{
    match &cli.preset {
        Some(args) => {
            if args.len() != 1 {
                return false;
            }
            let name = args[0].as_str();
            cfg.find_preset(name).is_none() && (str_eq(name, "maximize") || str_eq(name, "max")
                || str_eq(name, "full"))
        },
        None => false,
    }
}

/// Resolves the command line into a final `(cols, rows, rect)`. Explicit
/// `--cols`/`--rows` always win over preset defaults, so that the grid's
/// resolution can be overridden per call. The whole-screen preset
/// (`maximize`) then covers the whole grid, and `center` the centred middle
/// half of it, whatever its resolution.
pub fn resolve_command(cli: &Cli, cfg: &Config) -> (r: Result<(u32, u32, [u32; 4]), ResolveError>)
    ensures
        match r {
            Ok(t) => resolve_spec(cli, cfg) == Ok::<PresetModel, ResolveFailure>((t.0, t.1, t.2@)),
            Err(e) => resolve_spec(cli, cfg) == Err::<PresetModel, ResolveFailure>(e@),
        },
{
    let (mut cols, mut rows, rect) = match requested_target(cli, cfg) {
        Ok(t) => t,
        Err(e) => return Err(e),
    };
    if let Some(c) = cli.cols {
        cols = c;
    }
    if let Some(r) = cli.rows {
        rows = r;
    }
    if cols == 0 || rows == 0 {
        return Err(ResolveError::EmptyGrid);
    }
    let mut rect = rect;
    if is_whole_grid_request(cli, cfg) {
        rect = [0, 0, cols - 1, rows - 1];
        assert(rect@ =~= seq![0u32, 0u32, (cols - 1) as u32, (rows - 1) as u32]);
    } else if is_center_block_request(cli, cfg) {
        rect = [cols / 4, rows / 4, cols - 1 - cols / 4, rows - 1 - rows / 4];
        assert(rect@ =~= center_block(cols, rows));
    }
    let x1 = rect[0];
    let y1 = rect[1];
    let x2 = rect[2];
    let y2 = rect[3];
    if x2 < x1 || y2 < y1 {
        return Err(ResolveError::InvertedRect);
    }
    if x2 >= cols || y2 >= rows {
        return Err(ResolveError::RectOutOfGrid { rect, cols, rows });
    }
    Ok((cols, rows, rect))
}

proof fn lemma_user_preset_rect_len(presets: Seq<(String, crate::config::PresetEntry)>, name: Seq<char>, from: int)
    ensures
        crate::config::user_preset_from(presets, name, from) matches Some(m) ==> m.2.len() == 4,
    decreases presets.len() - from,
{
    if 0 <= from < presets.len() && presets[from].0@ != name {
        lemma_user_preset_rect_len(presets, name, from + 1);
    }
}

/// A resolved request always describes an ordered rectangle inside a
/// non-empty grid.
pub proof fn lemma_resolved_fits(cli: &Cli, cfg: &Config)
    ensures
        resolve_spec(cli, cfg) matches Ok(m) ==> rect_fits(m.0 as int, m.1 as int, m.2),
{
    lemma_user_preset_rect_len(cfg.presets@, cli.preset->0@[0]@, 0);
}

/// Explicit `--cols` and `--rows` always win over the grid of a preset, of
/// the configuration or of the defaults.
pub proof fn lemma_explicit_grid_wins(cli: &Cli, cfg: &Config)
    ensures
        resolve_spec(cli, cfg) matches Ok(m) ==> {
            &&& cli.cols matches Some(c) ==> m.0 == c
            &&& cli.rows matches Some(r) ==> m.1 == r
        },
{
}

/// A user preset wins over a built-in preset of the same name.
pub proof fn lemma_user_preset_first(cli: &Cli, cfg: &Config, name: Seq<char>)
    requires
        cli.preset matches Some(args) && args@.len() == 1 && args@[0]@ == name,
        user_preset(cfg, name) is Some,
    ensures
        requested(cli, cfg) == Ok::<PresetModel, ResolveFailure>(user_preset(cfg, name)->0),
{
}

/// A built-in preset, with no user preset of that name and no grid override,
/// resolves to exactly its table entry.
pub proof fn lemma_builtin_resolves(cli: &Cli, cfg: &Config, name: Seq<char>)
    requires
        cli.preset matches Some(args) && args@.len() == 1 && args@[0]@ == name,
        cli.cols is None,
        cli.rows is None,
        user_preset(cfg, name) is None,
        builtin(name) is Some,
    ensures
        resolve_spec(cli, cfg) == Ok::<PresetModel, ResolveFailure>(builtin(name)->0),
{
    preset::lemma_builtin_fits(name);
    preset::lemma_table();
    if is_maximize_name(name) {
        assert((builtin(name)->0).2 =~= seq![0u32, 0u32, 0u32, 0u32]);
    }
    if name == "center"@ {
        assert((builtin(name)->0).2 =~= center_block(4, 4));
    }
}

/// The whole-screen preset covers the whole grid, at the preset's own
/// resolution or at one given by `--cols`/`--rows`; it fails only on an empty grid.
pub proof fn lemma_maximize_whole_grid(cli: &Cli, cfg: &Config)
    requires
        whole_grid_request(cli, cfg),
    ensures
        match resolve_spec(cli, cfg) {
            Ok(m) => m.0 >= 1 && m.1 >= 1 && m.2 == seq![0u32, 0u32, (m.0 - 1) as u32, (m.1 - 1) as u32],
            Err(e) => e == ResolveFailure::EmptyGrid,
        },
{
    preset::lemma_table();
}

/// The `center` preset, at its own resolution or at one given by
/// `--cols`/`--rows`, covers a block in the middle of the grid: as many cells
/// are left free on the left as on the right, and above as below, and the
/// block spans at least half of each side; it fails only on an empty grid.
pub proof fn lemma_center_block_centred(cli: &Cli, cfg: &Config)
    requires
        center_block_request(cli, cfg),
    ensures
        match resolve_spec(cli, cfg) {
            Ok(m) => {
                &&& m.2[0] == m.0 - 1 - m.2[2]
                &&& m.2[1] == m.1 - 1 - m.2[3]
                &&& 2 * (m.2[2] - m.2[0] + 1) >= m.0
                &&& 2 * (m.2[3] - m.2[1] + 1) >= m.1
            },
            Err(e) => e == ResolveFailure::EmptyGrid,
        },
{
    preset::lemma_table();
    reveal_strlit("center");
    reveal_strlit("maximize");
    reveal_strlit("max");
    reveal_strlit("full");
    assert(!is_maximize_name("center"@));
}

/// `center N` for N in 10..=95 (and no grid override) resolves to a block of
/// exactly N% of the width and height, centred: it leaves as many cells on
/// the left as on the right, and as many above as below.
pub proof fn lemma_center_percent(cli: &Cli, cfg: &Config, pct: u32)
    requires
        cli.preset matches Some(args) && args@.len() == 2 && args@[0]@ == "center"@
            && parse_u32_spec(args@[1]@) == Some(pct),
        10 <= pct <= 95,
        cli.cols is None,
        cli.rows is None,
    ensures
        resolve_spec(cli, cfg) matches Ok(m) && {
            &&& m.0 == 1000 && m.1 == 1000
            &&& m.2[2] - m.2[0] + 1 == 10 * pct
            &&& m.2[3] - m.2[1] + 1 == 10 * pct
            &&& m.2[0] == 999 - m.2[2]
            &&& m.2[1] == 999 - m.2[3]
        },
{
}

/// The text that reports a refused request.
pub open spec fn failure_message(f: ResolveFailure) -> Seq<char> {
    match f {
        ResolveFailure::EmptyPresetArgs => "internal: preset args empty"@,
        ResolveFailure::CenterParamNotInteger { param } => "center param must be an integer percent (10..95), got '"@
            + param + "'"@,
        ResolveFailure::CenterParamOutOfRange { pct } => "center param must be in 10..=95, got "@
            + decimal(pct as nat),
        ResolveFailure::UnexpectedParam { name, param } => "preset '"@ + name
            + "' does not accept a parameter (got '"@ + param + "')"@,
        ResolveFailure::UnknownPreset { name, known } => "unknown preset '"@ + name + "'. Try: "@
            + join(known, ", "@),
        ResolveFailure::TileArity => "--tile needs exactly 4 ints"@,
        ResolveFailure::MissingTarget => "need a preset or --tile X1 Y1 X2 Y2 (try `kridtiler --list-presets`)"@,
        ResolveFailure::EmptyGrid => "cols and rows must be positive"@,
        ResolveFailure::InvertedRect => "tile rect must satisfy x1<=x2 and y1<=y2"@,
        ResolveFailure::RectOutOfGrid { rect, cols, rows } => "tile rect ("@ + decimal(rect[0] as nat)
            + ","@ + decimal(rect[1] as nat) + ")..("@ + decimal(rect[2] as nat) + ","@
            + decimal(rect[3] as nat) + ") out of grid "@ + decimal(cols as nat) + "x"@
            + decimal(rows as nat),
    }
}

impl ResolveError {
    /// The text that reports this refusal.
    pub fn message(&self) -> (r: String)
        ensures
            r@ == failure_message(self@),
    {
        let mut m: Vec<char> = Vec::new();
        match self {
            ResolveError::EmptyPresetArgs => {
                extend_str(&mut m, "internal: preset args empty");
            },
            ResolveError::CenterParamNotInteger { param } => {
                extend_str(&mut m, "center param must be an integer percent (10..95), got '");
                extend_str(&mut m, param.as_str());
                extend_str(&mut m, "'");
            },
            ResolveError::CenterParamOutOfRange { pct } => {
                extend_str(&mut m, "center param must be in 10..=95, got ");
                push_decimal(&mut m, *pct as u64);
            },
            ResolveError::UnexpectedParam { name, param } => {
                extend_str(&mut m, "preset '");
                extend_str(&mut m, name.as_str());
                extend_str(&mut m, "' does not accept a parameter (got '");
                extend_str(&mut m, param.as_str());
                extend_str(&mut m, "')");
            },
            ResolveError::UnknownPreset { name, known } => {
                extend_str(&mut m, "unknown preset '");
                extend_str(&mut m, name.as_str());
                extend_str(&mut m, "'. Try: ");
                let list = join_strings(known, ", ");
                extend_chars(&mut m, &list);
            },
            ResolveError::TileArity => {
                extend_str(&mut m, "--tile needs exactly 4 ints");
            },
            ResolveError::MissingTarget => {
                extend_str(&mut m, "need a preset or --tile X1 Y1 X2 Y2 (try `kridtiler --list-presets`)");
            },
            ResolveError::EmptyGrid => {
                extend_str(&mut m, "cols and rows must be positive");
            },
            ResolveError::InvertedRect => {
                extend_str(&mut m, "tile rect must satisfy x1<=x2 and y1<=y2");
            },
            ResolveError::RectOutOfGrid { rect, cols, rows } => {
                extend_str(&mut m, "tile rect (");
                push_decimal(&mut m, rect[0] as u64);
                extend_str(&mut m, ",");
                push_decimal(&mut m, rect[1] as u64);
                extend_str(&mut m, ")..(");
                push_decimal(&mut m, rect[2] as u64);
                extend_str(&mut m, ",");
                push_decimal(&mut m, rect[3] as u64);
                extend_str(&mut m, ") out of grid ");
                push_decimal(&mut m, *cols as u64);
                extend_str(&mut m, "x");
                push_decimal(&mut m, *rows as u64);
            },
        }
        string_of(&m)
    }
}

} // verus!
