//! The user's configuration (`~/.config/kridtiler/config.toml`). Every
//! section is optional; a missing field falls back to a built-in default.
//!
//! Example:
//! ```toml
//! [general]
//! log_level = "info"
//!
//! [overlay]
//! cols = 12
//! rows = 8
//!
//! [popup]
//! cols = 8
//! rows = 6
//!
//! [appearance]
//! background_color = "#1e1e2e"
//! selection_color = "#4d9de0"
//! border_color = "#4a4a6a"
//!
//! [presets.work-left]
//! cols = 12
//! rows = 1
//! rect = [0, 0, 7, 0]   # left 8/12 of screen
//! ```
//!
//! The two fractional settings of `[appearance]` (`background_opacity` and
//! `popup_width_pct`) are read and clamped by the program around this
//! library; they reach the script renderer as text.
use vstd::prelude::*;
use crate::preset::PresetModel;

verus! {

#[derive(Debug)]
pub struct Popup {
    pub cols: Option<u32>,
    pub rows: Option<u32>,
    /// "center" (default): popup at the active monitor's center;
    /// "cursor": popup follows the mouse cursor.
    pub anchor: Option<String>,
    /// Whether the popup grabs keyboard focus when shown. Default false: taking
    /// focus breaks text-input reattachment of input methods in GTK/Qt apps.
    pub grab_focus: Option<bool>,
}

#[derive(Debug)]
pub struct General {
    pub log_level: Option<String>,
    pub default_cols: Option<u32>,
    pub default_rows: Option<u32>,
}

#[derive(Debug)]
pub struct Grid {
    pub cols: Option<u32>,
    pub rows: Option<u32>,
}

/// The colour and size settings of `[appearance]`.
#[derive(Debug)]
pub struct Appearance {
    pub background_color: Option<String>,
    pub cell_color: Option<String>,
    pub selection_color: Option<String>,
    pub anchor_color: Option<String>,
    pub border_color: Option<String>,
    pub popup_width: Option<u32>,
}

/// A user-defined preset; mirrors the built-in `Preset`.
#[derive(Debug)]
pub struct PresetEntry {
    pub cols: u32,
    pub rows: u32,
    pub rect: [u32; 4],
}

impl PresetEntry {
    pub open spec fn model(&self) -> PresetModel {
        (self.cols, self.rows, self.rect@)
    }
}

/// The whole configuration. User presets are kept as (name, preset) pairs;
/// names are unique in a parsed file, since they are the keys of a TOML table.
#[derive(Debug)]
pub struct Config {
    pub general: General,
    pub overlay: Grid,
    pub popup: Popup,
    pub appearance: Appearance,
    pub presets: Vec<(String, PresetEntry)>,
}

/// The first user preset called `name`, scanning `presets` from index `from`.
pub open spec fn user_preset_from(presets: Seq<(String, PresetEntry)>, name: Seq<char>, from: int) -> Option<PresetModel>
    decreases presets.len() - from,
{
    if from < 0 || from >= presets.len() {
        None
    } else if presets[from].0@ == name {
        Some(presets[from].1.model())
    } else {
        user_preset_from(presets, name, from + 1)
    }
}

/// The user preset called `name`, if the configuration defines one.
pub open spec fn user_preset(cfg: &Config, name: Seq<char>) -> Option<PresetModel> {
    user_preset_from(cfg.presets@, name, 0)
}

/// The names of the user presets, in the configuration's order.
pub open spec fn user_preset_names(cfg: &Config) -> Seq<Seq<char>> {
    cfg.presets@.map_values(|e: (String, PresetEntry)| e.0@)
}

impl Config {
    /// No two user presets share a name.
    pub open spec fn wf(&self) -> bool {
        forall|i: int, j: int|
            0 <= i < j < self.presets@.len() ==> #[trigger] self.presets@[i].0@ != #[trigger] self.presets@[j].0@
    }

    /// The user preset called `name`, if any.
    pub fn find_preset(&self, name: &str) -> (r: Option<&PresetEntry>)
        ensures
            r matches Some(p) ==> user_preset(self, name@) == Some(p.model()),
            r is None ==> user_preset(self, name@) is None,
    {
        let key = name.to_owned();
        let mut i: usize = 0;
        while i < self.presets.len()
            invariant
                i <= self.presets.len(),
                key@ == name@,
                user_preset(self, name@) == user_preset_from(self.presets@, name@, i as int),
            decreases self.presets.len() - i,
        {
            if self.presets[i].0 == key {
                return Some(&self.presets[i].1);
            }
            i += 1;
        }
        None
    }

    /// The names of the user presets, in order.
    pub fn preset_names(&self) -> (r: Vec<String>)
        ensures
            r@.map_values(|s: String| s@) == user_preset_names(self),
    {
        let mut r: Vec<String> = Vec::new();
        for i in 0..self.presets.len()
            invariant
                r@.len() == i,
                forall|j: int| 0 <= j < i ==> #[trigger] r@[j]@ == self.presets@[j].0@,
        {
            r.push(self.presets[i].0.clone());
        }
        assert(r@.map_values(|s: String| s@) =~= user_preset_names(self));
        r
    }
}

impl Default for Popup {
    fn default() -> (r: Self)
        ensures
            r.cols is None && r.rows is None && r.anchor is None && r.grab_focus is None,
    {
        Popup { cols: None, rows: None, anchor: None, grab_focus: None }
    }
}

impl Default for General {
    fn default() -> (r: Self)
        ensures
            r.log_level is None && r.default_cols is None && r.default_rows is None,
    {
        General { log_level: None, default_cols: None, default_rows: None }
    }
}

impl Default for Grid {
    fn default() -> (r: Self)
        ensures
            r.cols is None && r.rows is None,
    {
        Grid { cols: None, rows: None }
    }
}

impl Default for Appearance {
    fn default() -> (r: Self)
        ensures
            r.background_color is None && r.cell_color is None && r.selection_color is None
                && r.anchor_color is None && r.border_color is None && r.popup_width is None,
    {
        Appearance {
            background_color: None,
            cell_color: None,
            selection_color: None,
            anchor_color: None,
            border_color: None,
            popup_width: None,
        }
    }
}

/// Every setting of the configuration left unset, and no user presets.
pub open spec fn is_empty_config(c: &Config) -> bool {
    &&& c.general.log_level is None && c.general.default_cols is None && c.general.default_rows is None
    &&& c.overlay.cols is None && c.overlay.rows is None
    &&& c.popup.cols is None && c.popup.rows is None && c.popup.anchor is None && c.popup.grab_focus is None
    &&& c.appearance.background_color is None && c.appearance.cell_color is None
    &&& c.appearance.selection_color is None && c.appearance.anchor_color is None
    &&& c.appearance.border_color is None && c.appearance.popup_width is None
    &&& c.presets@.len() == 0
}

impl Default for Config {
    /// The configuration used when there is no file, or it cannot be read or parsed.
    fn default() -> (r: Self)
        ensures
            is_empty_config(&r),
            r.wf(),
    {
        Config {
            general: General::default(),
            overlay: Grid::default(),
            popup: Popup::default(),
            appearance: Appearance::default(),
            presets: Vec::new(),
        }
    }
}

/// The bytes of an ASCII text.
pub open spec fn ascii_bytes(s: Seq<char>) -> Seq<u8> {
    Seq::new(s.len(), |i: int| s[i] as u8)
}

/// `base` joined with the relative component `comp`, as `Path::join` does:
/// a `/` goes between them unless `base` is empty or already ends in one.
pub open spec fn path_join(base: Seq<u8>, comp: Seq<u8>) -> Seq<u8> {
    if base.len() == 0 {
        comp
    } else if base.last() == 47u8 {
        base + comp
    } else {
        base + seq![47u8] + comp
    }
}

/// Where the configuration file is: `$XDG_CONFIG_HOME/kridtiler/config.toml`,
/// with `$HOME/.config` standing in for an unset `XDG_CONFIG_HOME` (and an
/// empty path for an unset `HOME`). Paths are the raw bytes of the
/// environment's values.
pub open spec fn config_path_spec(xdg: Option<Seq<u8>>, home: Option<Seq<u8>>) -> Seq<u8> {
    let base = match xdg {
        Some(x) => x,
        None => path_join(
            match home {
                Some(h) => h,
                None => Seq::empty(),
            },
            ascii_bytes(".config"@),
        ),
    };
    path_join(path_join(base, ascii_bytes("kridtiler"@)), ascii_bytes("config.toml"@))
}

fn extend_ascii(dst: &mut Vec<u8>, s: &str)
    ensures
        final(dst)@ == old(dst)@ + ascii_bytes(s@),
{
    let v = crate::text::chars_of(s);
    let ghost start = dst@;
    for i in 0..v.len()
        invariant
            v@ == s@,
            dst@ == start + ascii_bytes(s@).take(i as int),
    {
        let c = v[i];
        dst.push(c as u8);
        assert(ascii_bytes(s@).take(i + 1) =~= ascii_bytes(s@).take(i as int).push(c as u8));
    }
    assert(ascii_bytes(s@).take(v.len() as int) =~= ascii_bytes(s@));
}

fn extend_bytes(dst: &mut Vec<u8>, src: &Vec<u8>)
    ensures
        final(dst)@ == old(dst)@ + src@,
{
    let ghost start = dst@;
    for i in 0..src.len()
        invariant
            dst@ == start + src@.take(i as int),
    {
        dst.push(src[i]);
        assert(src@.take(i + 1) == src@.take(i as int).push(src@[i as int]));
    }
    assert(src@.take(src.len() as int) == src@);
}

fn push_path_component(path: &mut Vec<u8>, comp: &str)
    ensures
        final(path)@ == path_join(old(path)@, ascii_bytes(comp@)),
{
    if path.len() > 0 && path[path.len() - 1] != 47u8 {
        path.push(47u8);
    }
    extend_ascii(path, comp);
}

/// The configuration file's path, given the raw values of `XDG_CONFIG_HOME` and `HOME`.
pub fn config_path_from(xdg: Option<Vec<u8>>, home: Option<Vec<u8>>) -> (r: Vec<u8>)
    ensures
        r@ == config_path_spec(
            match xdg {
                Some(x) => Some(x@),
                None => None,
            },
            match home {
                Some(h) => Some(h@),
                None => None,
            },
        ),
{
    let mut path: Vec<u8> = Vec::new();
    match xdg {
        Some(x) => {
            extend_bytes(&mut path, &x);
        },
        None => {
            if let Some(h) = home {
                extend_bytes(&mut path, &h);
            }
            push_path_component(&mut path, ".config");
        },
    }
    push_path_component(&mut path, "kridtiler");
    push_path_component(&mut path, "config.toml");
    path
}
/// With unique names (as in any parsed file), the preset found for `name` is
/// the one stored under that name, wherever it stands in the list: the order
/// of the list does not matter.
pub proof fn lemma_user_preset_by_name(cfg: &Config, name: Seq<char>, i: int)
    requires
        cfg.wf(),
        0 <= i < cfg.presets@.len(),
        cfg.presets@[i].0@ == name,
    ensures
        user_preset(cfg, name) == Some(cfg.presets@[i].1.model()),
{
    lemma_user_preset_scan(cfg, name, i, 0);
}

proof fn lemma_user_preset_scan(cfg: &Config, name: Seq<char>, i: int, from: int)
    requires
        cfg.wf(),
        0 <= from <= i < cfg.presets@.len(),
        cfg.presets@[i].0@ == name,
    ensures
        user_preset_from(cfg.presets@, name, from) == Some(cfg.presets@[i].1.model()),
    decreases i - from,
{
    if from < i {
        assert(cfg.presets@[from].0@ != cfg.presets@[i].0@);
        lemma_user_preset_scan(cfg, name, i, from + 1);
    }
}

/// A name that no user preset has finds nothing.
pub proof fn lemma_user_preset_absent(cfg: &Config, name: Seq<char>)
    requires
        forall|i: int| 0 <= i < cfg.presets@.len() ==> #[trigger] cfg.presets@[i].0@ != name,
    ensures
        user_preset(cfg, name) is None,
{
    lemma_user_preset_absent_from(cfg.presets@, name, 0);
}

proof fn lemma_user_preset_absent_from(presets: Seq<(String, PresetEntry)>, name: Seq<char>, from: int)
    requires
        0 <= from,
        forall|i: int| 0 <= i < presets.len() ==> #[trigger] presets[i].0@ != name,
    ensures
        user_preset_from(presets, name, from) is None,
    decreases presets.len() - from,
{
    if from < presets.len() {
        assert(presets[from].0@ != name);
        lemma_user_preset_absent_from(presets, name, from + 1);
    }
}


/// The configuration file is always `kridtiler/config.toml` under the base
/// directory, and where `XDG_CONFIG_HOME` is set, `HOME` plays no part.
pub proof fn lemma_config_path_shape(xdg: Option<Seq<u8>>, home1: Option<Seq<u8>>, home2: Option<Seq<u8>>)
    ensures
        ({
            let p = config_path_spec(xdg, home1);
            let tail = ascii_bytes("kridtiler"@) + seq![47u8] + ascii_bytes("config.toml"@);
            p.len() >= tail.len() && p.subrange(p.len() - tail.len(), p.len() as int) == tail
        }),
        xdg is Some ==> config_path_spec(xdg, home1) == config_path_spec(xdg, home2),
        xdg matches Some(x) ==> config_path_spec(xdg, home1).take(x.len() as int) == x,
{
    reveal_strlit("kridtiler");
    reveal_strlit("config.toml");
    let base = match xdg {
        Some(x) => x,
        None => path_join(
            match home1 {
                Some(h) => h,
                None => Seq::empty(),
            },
            ascii_bytes(".config"@),
        ),
    };
    let k = ascii_bytes("kridtiler"@);
    let c = ascii_bytes("config.toml"@);
    let d = path_join(base, k);
    assert(d.len() > 0 && d.last() != 47u8) by {
        assert(d.last() == k.last());
    }
    assert(path_join(d, c) == d + seq![47u8] + c);
    let p = config_path_spec(xdg, home1);
    let tail = k + seq![47u8] + c;
    assert(p.subrange(p.len() - tail.len(), p.len() as int) =~= tail) by {
        assert(d.subrange(d.len() - k.len(), d.len() as int) =~= k);
    }
    if let Some(x) = xdg {
        assert(d.take(x.len() as int) =~= x);
        assert(p.take(x.len() as int) =~= x);
    }
}

} // verus!
