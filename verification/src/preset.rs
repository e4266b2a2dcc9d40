//! Built-in semantic presets. Each maps a name to a grid (`cols` x `rows`)
//! and a rectangle of cells `[x1, y1, x2, y2]`, 0-indexed and inclusive on
//! both ends.
//!
//! The grid is chosen per preset, so that `thirds-left` can use a 3-column
//! grid without the caller passing `--cols 3`; explicit `--cols`/`--rows`
//! still override it, which suits `maximize` and `center`: they work at any
//! resolution (see `command::resolve_spec`).
use vstd::prelude::*;
use crate::text::str_eq;

verus! {

pub struct Preset {
    pub cols: u32,
    pub rows: u32,
    pub rect: [u32; 4],
}

/// What a preset stands for: grid columns, grid rows and the cell rectangle.
pub type PresetModel = (u32, u32, Seq<u32>);

impl Preset {
    pub open spec fn model(&self) -> PresetModel {
        (self.cols, self.rows, self.rect@)
    }
}

/// The rectangle `[x1, y1, x2, y2]` is ordered and lies inside a non-empty
/// `cols` x `rows` grid.
pub open spec fn rect_fits(cols: int, rows: int, rect: Seq<u32>) -> bool {
    &&& rect.len() == 4
    &&& cols > 0
    &&& rows > 0
    &&& rect[0] <= rect[2] < cols
    &&& rect[1] <= rect[3] < rows
}

pub open spec fn pm(cols: u32, rows: u32, x1: u32, y1: u32, x2: u32, y2: u32) -> Option<PresetModel> {
    Some((cols, rows, seq![x1, y1, x2, y2]))
}

/// The built-in preset table, by name (aliases included).
pub open spec fn builtin(name: Seq<char>) -> Option<PresetModel> {
    if name == "half-left"@ || name == "left"@ {
        pm(2, 1, 0, 0, 0, 0)
    } else if name == "half-right"@ || name == "right"@ {
        pm(2, 1, 1, 0, 1, 0)
    } else if name == "half-top"@ || name == "top"@ {
        pm(1, 2, 0, 0, 0, 0)
    } else if name == "half-bottom"@ || name == "bottom"@ {
        pm(1, 2, 0, 1, 0, 1)
    } else if name == "maximize"@ || name == "max"@ || name == "full"@ {
        pm(1, 1, 0, 0, 0, 0)
    } else if name == "center"@ {
        pm(4, 4, 1, 1, 2, 2)
    } else if name == "top-left"@ || name == "tl"@ {
        pm(2, 2, 0, 0, 0, 0)
    } else if name == "top-right"@ || name == "tr"@ {
        pm(2, 2, 1, 0, 1, 0)
    } else if name == "bottom-left"@ || name == "bl"@ {
        pm(2, 2, 0, 1, 0, 1)
    } else if name == "bottom-right"@ || name == "br"@ {
        pm(2, 2, 1, 1, 1, 1)
    } else if name == "thirds-left"@ {
        pm(3, 1, 0, 0, 0, 0)
    } else if name == "thirds-center"@ {
        pm(3, 1, 1, 0, 1, 0)
    } else if name == "thirds-right"@ {
        pm(3, 1, 2, 0, 2, 0)
    } else if name == "two-thirds-left"@ {
        pm(3, 1, 0, 0, 1, 0)
    } else if name == "two-thirds-right"@ {
        pm(3, 1, 1, 0, 2, 0)
    } else {
        None
    }
}

/// The canonical names of the built-in presets, in listing order.
pub open spec fn builtin_names() -> Seq<Seq<char>> {
    seq![
        "half-left"@, "half-right"@, "half-top"@, "half-bottom"@,
        "maximize"@, "center"@,
        "top-left"@, "top-right"@, "bottom-left"@, "bottom-right"@,
        "thirds-left"@, "thirds-center"@, "thirds-right"@,
        "two-thirds-left"@, "two-thirds-right"@,
    ]
}

fn mk(cols: u32, rows: u32, x1: u32, y1: u32, x2: u32, y2: u32) -> (p: Preset)
    ensures
        Some(p.model()) == pm(cols, rows, x1, y1, x2, y2),
{
    let p = Preset { cols, rows, rect: [x1, y1, x2, y2] };
    assert(p.rect@ =~= seq![x1, y1, x2, y2]);
    p
}

/// The built-in preset called `name`, if there is one.
pub fn lookup(name: &str) -> (r: Option<Preset>)
    ensures
        r matches Some(p) ==> builtin(name@) == Some(p.model()),
        r is None ==> builtin(name@) is None,
{
    if str_eq(name, "half-left") || str_eq(name, "left") {
        Some(mk(2, 1, 0, 0, 0, 0))
    } else if str_eq(name, "half-right") || str_eq(name, "right") {
        Some(mk(2, 1, 1, 0, 1, 0))
    } else if str_eq(name, "half-top") || str_eq(name, "top") {
        Some(mk(1, 2, 0, 0, 0, 0))
    } else if str_eq(name, "half-bottom") || str_eq(name, "bottom") {
        Some(mk(1, 2, 0, 1, 0, 1))
    } else if str_eq(name, "maximize") || str_eq(name, "max") || str_eq(name, "full") {
        Some(mk(1, 1, 0, 0, 0, 0))
    } else if str_eq(name, "center") {
        Some(mk(4, 4, 1, 1, 2, 2))
    } else if str_eq(name, "top-left") || str_eq(name, "tl") {
        Some(mk(2, 2, 0, 0, 0, 0))
    } else if str_eq(name, "top-right") || str_eq(name, "tr") {
        Some(mk(2, 2, 1, 0, 1, 0))
    } else if str_eq(name, "bottom-left") || str_eq(name, "bl") {
        Some(mk(2, 2, 0, 1, 0, 1))
    } else if str_eq(name, "bottom-right") || str_eq(name, "br") {
        Some(mk(2, 2, 1, 1, 1, 1))
    } else if str_eq(name, "thirds-left") {
        Some(mk(3, 1, 0, 0, 0, 0))
    } else if str_eq(name, "thirds-center") {
        Some(mk(3, 1, 1, 0, 1, 0))
    } else if str_eq(name, "thirds-right") {
        Some(mk(3, 1, 2, 0, 2, 0))
    } else if str_eq(name, "two-thirds-left") {
        Some(mk(3, 1, 0, 0, 1, 0))
    } else if str_eq(name, "two-thirds-right") {
        Some(mk(3, 1, 1, 0, 2, 0))
    } else {
        None
    }
}

/// The canonical names of the built-in presets, in listing order.
pub fn names() -> (r: &'static [&'static str])
    ensures
        r@.map_values(|s: &str| s@) == builtin_names(),
{
    let r: &'static [&'static str] = &[
        "half-left", "half-right", "half-top", "half-bottom",
        "maximize", "center",
        "top-left", "top-right", "bottom-left", "bottom-right",
        "thirds-left", "thirds-center", "thirds-right",
        "two-thirds-left", "two-thirds-right",
    ];
    assert(r@.map_values(|s: &str| s@) =~= builtin_names());
    r
}

/// Every built-in preset describes an ordered rectangle inside its own
/// non-empty grid, so it resolves without an error when no override is given.
pub proof fn lemma_builtin_fits(name: Seq<char>)
    ensures
        builtin(name) matches Some(m) ==> rect_fits(m.0 as int, m.1 as int, m.2),
{
}

/// What each name of the table stands for: the literals are told apart by
/// their lengths and characters.
pub proof fn lemma_table()
    ensures
        builtin("half-left"@) == pm(2, 1, 0, 0, 0, 0),
        builtin("left"@) == pm(2, 1, 0, 0, 0, 0),
        builtin("half-right"@) == pm(2, 1, 1, 0, 1, 0),
        builtin("right"@) == pm(2, 1, 1, 0, 1, 0),
        builtin("half-top"@) == pm(1, 2, 0, 0, 0, 0),
        builtin("top"@) == pm(1, 2, 0, 0, 0, 0),
        builtin("half-bottom"@) == pm(1, 2, 0, 1, 0, 1),
        builtin("bottom"@) == pm(1, 2, 0, 1, 0, 1),
        builtin("maximize"@) == pm(1, 1, 0, 0, 0, 0),
        builtin("max"@) == pm(1, 1, 0, 0, 0, 0),
        builtin("full"@) == pm(1, 1, 0, 0, 0, 0),
        builtin("center"@) == pm(4, 4, 1, 1, 2, 2),
        builtin("top-left"@) == pm(2, 2, 0, 0, 0, 0),
        builtin("tl"@) == pm(2, 2, 0, 0, 0, 0),
        builtin("top-right"@) == pm(2, 2, 1, 0, 1, 0),
        builtin("tr"@) == pm(2, 2, 1, 0, 1, 0),
        builtin("bottom-left"@) == pm(2, 2, 0, 1, 0, 1),
        builtin("bl"@) == pm(2, 2, 0, 1, 0, 1),
        builtin("bottom-right"@) == pm(2, 2, 1, 1, 1, 1),
        builtin("br"@) == pm(2, 2, 1, 1, 1, 1),
        builtin("thirds-left"@) == pm(3, 1, 0, 0, 0, 0),
        builtin("thirds-center"@) == pm(3, 1, 1, 0, 1, 0),
        builtin("thirds-right"@) == pm(3, 1, 2, 0, 2, 0),
        builtin("two-thirds-left"@) == pm(3, 1, 0, 0, 1, 0),
        builtin("two-thirds-right"@) == pm(3, 1, 1, 0, 2, 0),
{
    reveal_strlit("half-left");
    reveal_strlit("left");
    reveal_strlit("half-right");
    reveal_strlit("right");
    reveal_strlit("half-top");
    reveal_strlit("top");
    reveal_strlit("half-bottom");
    reveal_strlit("bottom");
    reveal_strlit("maximize");
    reveal_strlit("max");
    reveal_strlit("full");
    reveal_strlit("center");
    reveal_strlit("top-left");
    reveal_strlit("tl");
    reveal_strlit("top-right");
    reveal_strlit("tr");
    reveal_strlit("bottom-left");
    reveal_strlit("bl");
    reveal_strlit("bottom-right");
    reveal_strlit("br");
    reveal_strlit("thirds-left");
    reveal_strlit("thirds-center");
    reveal_strlit("thirds-right");
    reveal_strlit("two-thirds-left");
    reveal_strlit("two-thirds-right");
    assert("half-left"@.len() == 9);
    assert("left"@.len() == 4);
    assert("half-right"@.len() == 10);
    assert("right"@.len() == 5);
    assert("half-top"@.len() == 8);
    assert("top"@.len() == 3);
    assert("half-bottom"@.len() == 11);
    assert("bottom"@.len() == 6);
    assert("maximize"@.len() == 8);
    assert("max"@.len() == 3);
    assert("full"@.len() == 4);
    assert("center"@.len() == 6);
    assert("top-left"@.len() == 8);
    assert("tl"@.len() == 2);
    assert("top-right"@.len() == 9);
    assert("tr"@.len() == 2);
    assert("bottom-left"@.len() == 11);
    assert("bl"@.len() == 2);
    assert("bottom-right"@.len() == 12);
    assert("br"@.len() == 2);
    assert("thirds-left"@.len() == 11);
    assert("thirds-center"@.len() == 13);
    assert("thirds-right"@.len() == 12);
    assert("two-thirds-left"@.len() == 15);
    assert("two-thirds-right"@.len() == 16);
    assert("maximize"@[0] != "half-top"@[0]);
    assert("max"@[0] != "top"@[0]);
    assert("full"@[0] != "left"@[0]);
    assert("center"@[0] != "bottom"@[0]);
    assert("top-left"@[0] != "half-top"@[0]);
    assert("top-left"@[0] != "maximize"@[0]);
    assert("top-right"@[0] != "half-left"@[0]);
    assert("tr"@[1] != "tl"@[1]);
    assert("bottom-left"@[0] != "half-bottom"@[0]);
    assert("bl"@[0] != "tl"@[0]);
    assert("bl"@[0] != "tr"@[0]);
    assert("br"@[0] != "tl"@[0]);
    assert("br"@[0] != "tr"@[0]);
    assert("br"@[1] != "bl"@[1]);
    assert("thirds-left"@[0] != "half-bottom"@[0]);
    assert("thirds-left"@[0] != "bottom-left"@[0]);
    assert("thirds-right"@[0] != "bottom-right"@[0]);
}

/// Every name that the preset listing shows is found by `lookup`.
pub proof fn lemma_listed_names_known(i: int)
    requires
        0 <= i < builtin_names().len(),
    ensures
        builtin(builtin_names()[i]) is Some,
{
    lemma_table();
}

/// Each short alias names the same preset as its long form.
pub proof fn lemma_aliases()
    ensures
        builtin("left"@) == builtin("half-left"@),
        builtin("right"@) == builtin("half-right"@),
        builtin("top"@) == builtin("half-top"@),
        builtin("bottom"@) == builtin("half-bottom"@),
        builtin("max"@) == builtin("maximize"@),
        builtin("full"@) == builtin("maximize"@),
        builtin("tl"@) == builtin("top-left"@),
        builtin("tr"@) == builtin("top-right"@),
        builtin("bl"@) == builtin("bottom-left"@),
        builtin("br"@) == builtin("bottom-right"@),
{
    lemma_table();
}

} // verus!
