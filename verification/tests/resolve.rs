use kridtiler::command::{resolve_command, Cli, ResolveError};
use kridtiler::config::{Config, PresetEntry};
use kridtiler::preset::{lookup, names};

fn cli() -> Cli {
    Cli {
        preset: None,
        tile: None,
        cols: None,
        rows: None,
        list_presets: false,
        list_monitors: false,
        log: None,
        wait_ms: 800,
        show: None,
        overlay: None,
        popup: None,
        at: None,
        no_wait: false,
    }
}

fn with_preset(args: &[&str]) -> Cli {
    let mut c = cli();
    c.preset = Some(args.iter().map(|s| s.to_string()).collect());
    c
}

fn with_tile(rect: &[u32]) -> Cli {
    let mut c = cli();
    c.tile = Some(rect.to_vec());
    c
}

fn user_config() -> Config {
    let mut cfg = Config::default();
    cfg.presets.push(("work-left".to_string(), PresetEntry { cols: 12, rows: 1, rect: [0, 0, 7, 0] }));
    cfg.presets.push(("half-left".to_string(), PresetEntry { cols: 3, rows: 1, rect: [0, 0, 1, 0] }));
    cfg
}

#[test]
fn lookup_builtin_presets() {
    let p = lookup("half-left").unwrap();
    assert_eq!((p.cols, p.rows, p.rect), (2, 1, [0, 0, 0, 0]));
    let p = lookup("half-right").unwrap();
    assert_eq!((p.cols, p.rows, p.rect), (2, 1, [1, 0, 1, 0]));
    let p = lookup("half-bottom").unwrap();
    assert_eq!((p.cols, p.rows, p.rect), (1, 2, [0, 1, 0, 1]));
    let p = lookup("center").unwrap();
    assert_eq!((p.cols, p.rows, p.rect), (4, 4, [1, 1, 2, 2]));
    let p = lookup("bottom-right").unwrap();
    assert_eq!((p.cols, p.rows, p.rect), (2, 2, [1, 1, 1, 1]));
    let p = lookup("two-thirds-right").unwrap();
    assert_eq!((p.cols, p.rows, p.rect), (3, 1, [1, 0, 2, 0]));
    let p = lookup("thirds-right").unwrap();
    assert_eq!((p.cols, p.rows, p.rect), (3, 1, [2, 0, 2, 0]));
}

#[test]
fn lookup_aliases_match_long_names() {
    let pairs = [
        ("left", "half-left"),
        ("right", "half-right"),
        ("top", "half-top"),
        ("bottom", "half-bottom"),
        ("max", "maximize"),
        ("full", "maximize"),
        ("tl", "top-left"),
        ("tr", "top-right"),
        ("bl", "bottom-left"),
        ("br", "bottom-right"),
    ];
    for (alias, long) in pairs {
        let a = lookup(alias).unwrap();
        let b = lookup(long).unwrap();
        assert_eq!((a.cols, a.rows, a.rect), (b.cols, b.rows, b.rect), "{alias}");
    }
}

#[test]
fn lookup_unknown_is_none() {
    assert!(lookup("nope").is_none());
    assert!(lookup("").is_none());
    assert!(lookup("Half-Left").is_none());
    assert!(lookup("half-left ").is_none());
}

#[test]
fn every_listed_name_is_known_and_fits() {
    let all = names();
    assert_eq!(all.len(), 15);
    assert_eq!(all[0], "half-left");
    assert_eq!(all[14], "two-thirds-right");
    for n in all {
        let p = lookup(n).unwrap();
        assert!(p.cols > 0 && p.rows > 0);
        assert!(p.rect[0] <= p.rect[2] && p.rect[2] < p.cols);
        assert!(p.rect[1] <= p.rect[3] && p.rect[3] < p.rows);
    }
}

#[test]
fn resolve_builtin_preset() {
    let r = resolve_command(&with_preset(&["half-left"]), &Config::default()).unwrap();
    assert_eq!(r, (2, 1, [0, 0, 0, 0]));
    let r = resolve_command(&with_preset(&["maximize"]), &Config::default()).unwrap();
    assert_eq!(r, (1, 1, [0, 0, 0, 0]));
}

#[test]
fn resolve_explicit_grid_wins() {
    let mut c = with_preset(&["maximize"]);
    c.cols = Some(12);
    c.rows = Some(8);
    assert_eq!(resolve_command(&c, &Config::default()).unwrap(), (12, 8, [0, 0, 11, 7]));
    let mut c = with_tile(&[0, 0, 5, 7]);
    c.cols = Some(12);
    c.rows = Some(8);
    assert_eq!(resolve_command(&c, &Config::default()).unwrap(), (12, 8, [0, 0, 5, 7]));
}

#[test]
fn resolve_center_percent() {
    let r = resolve_command(&with_preset(&["center", "70"]), &Config::default()).unwrap();
    assert_eq!(r, (1000, 1000, [150, 150, 849, 849]));
    let r = resolve_command(&with_preset(&["center", "10"]), &Config::default()).unwrap();
    assert_eq!(r, (1000, 1000, [450, 450, 549, 549]));
    let r = resolve_command(&with_preset(&["center", "95"]), &Config::default()).unwrap();
    assert_eq!(r, (1000, 1000, [25, 25, 974, 974]));
    let r = resolve_command(&with_preset(&["center", "+50"]), &Config::default()).unwrap();
    assert_eq!(r, (1000, 1000, [250, 250, 749, 749]));
    let r = resolve_command(&with_preset(&["center", "0050"]), &Config::default()).unwrap();
    assert_eq!(r, (1000, 1000, [250, 250, 749, 749]));
    // Every percentage gives a centred block of exactly that size.
    for pct in 10..=95u32 {
        let (_, _, r) = resolve_command(&with_preset(&["center", &pct.to_string()]), &Config::default()).unwrap();
        assert_eq!(r[2] - r[0] + 1, pct * 10);
        assert_eq!(r[0] + r[2], 999);
    }
}

#[test]
fn resolve_center_errors() {
    let e = resolve_command(&with_preset(&["center", "5"]), &Config::default()).unwrap_err();
    assert!(matches!(e, ResolveError::CenterParamOutOfRange { pct: 5 }));
    assert_eq!(e.message(), "center param must be in 10..=95, got 5");
    let e = resolve_command(&with_preset(&["center", "96"]), &Config::default()).unwrap_err();
    assert_eq!(e.message(), "center param must be in 10..=95, got 96");
    let e = resolve_command(&with_preset(&["center", "abc"]), &Config::default()).unwrap_err();
    assert!(matches!(e, ResolveError::CenterParamNotInteger { .. }));
    assert_eq!(e.message(), "center param must be an integer percent (10..95), got 'abc'");
    for bad in ["", "+", "-50", "5.5", "99999999999", " 50"] {
        let e = resolve_command(&with_preset(&["center", bad]), &Config::default()).unwrap_err();
        assert!(matches!(e, ResolveError::CenterParamNotInteger { .. }), "{bad:?}");
    }
}

#[test]
fn resolve_param_on_other_preset() {
    let e = resolve_command(&with_preset(&["maximize", "70"]), &Config::default()).unwrap_err();
    assert!(matches!(e, ResolveError::UnexpectedParam { .. }));
    assert_eq!(e.message(), "preset 'maximize' does not accept a parameter (got '70')");
}

#[test]
fn resolve_unknown_preset() {
    let e = resolve_command(&with_preset(&["nope"]), &Config::default()).unwrap_err();
    assert_eq!(
        e.message(),
        "unknown preset 'nope'. Try: half-left, half-right, half-top, half-bottom, maximize, center, \
         top-left, top-right, bottom-left, bottom-right, thirds-left, thirds-center, thirds-right, \
         two-thirds-left, two-thirds-right"
    );
    let e = resolve_command(&with_preset(&["nope"]), &user_config()).unwrap_err();
    assert!(e.message().ends_with("two-thirds-right, work-left, half-left"));
}

#[test]
fn resolve_empty_preset_args() {
    let e = resolve_command(&with_preset(&[]), &Config::default()).unwrap_err();
    assert!(matches!(e, ResolveError::EmptyPresetArgs));
    assert_eq!(e.message(), "internal: preset args empty");
}

#[test]
fn resolve_user_presets() {
    let cfg = user_config();
    assert_eq!(resolve_command(&with_preset(&["work-left"]), &cfg).unwrap(), (12, 1, [0, 0, 7, 0]));
    // A user preset wins over the built-in one of the same name.
    assert_eq!(resolve_command(&with_preset(&["half-left"]), &cfg).unwrap(), (3, 1, [0, 0, 1, 0]));
    assert_eq!(resolve_command(&with_preset(&["half-right"]), &cfg).unwrap(), (2, 1, [1, 0, 1, 0]));
}

#[test]
fn resolve_tile_defaults() {
    assert_eq!(resolve_command(&with_tile(&[0, 0, 1, 0]), &Config::default()).unwrap(), (2, 1, [0, 0, 1, 0]));
    let mut cfg = Config::default();
    cfg.general.default_cols = Some(12);
    cfg.general.default_rows = Some(3);
    assert_eq!(resolve_command(&with_tile(&[0, 0, 7, 2]), &cfg).unwrap(), (12, 3, [0, 0, 7, 2]));
    let e = resolve_command(&with_tile(&[0, 0, 2, 0]), &Config::default()).unwrap_err();
    assert_eq!(e.message(), "tile rect (0,0)..(2,0) out of grid 2x1");
}

#[test]
fn resolve_tile_errors() {
    let e = resolve_command(&with_tile(&[0, 0, 1]), &Config::default()).unwrap_err();
    assert!(matches!(e, ResolveError::TileArity));
    assert_eq!(e.message(), "--tile needs exactly 4 ints");
    let e = resolve_command(&with_tile(&[1, 0, 0, 0]), &Config::default()).unwrap_err();
    assert!(matches!(e, ResolveError::InvertedRect));
    assert_eq!(e.message(), "tile rect must satisfy x1<=x2 and y1<=y2");
    let mut c = with_tile(&[0, 0, 0, 0]);
    c.cols = Some(0);
    let e = resolve_command(&c, &Config::default()).unwrap_err();
    assert!(matches!(e, ResolveError::EmptyGrid));
    assert_eq!(e.message(), "cols and rows must be positive");
    let mut c = with_tile(&[3, 4, 11, 7]);
    c.cols = Some(12);
    c.rows = Some(8);
    assert_eq!(resolve_command(&c, &Config::default()).unwrap(), (12, 8, [3, 4, 11, 7]));
    c.rows = Some(7);
    let e = resolve_command(&c, &Config::default()).unwrap_err();
    assert!(matches!(e, ResolveError::RectOutOfGrid { rect: [3, 4, 11, 7], cols: 12, rows: 7 }));
    assert_eq!(e.message(), "tile rect (3,4)..(11,7) out of grid 12x7");
}

#[test]
fn resolve_missing_target() {
    let e = resolve_command(&cli(), &Config::default()).unwrap_err();
    assert!(matches!(e, ResolveError::MissingTarget));
    assert_eq!(e.message(), "need a preset or --tile X1 Y1 X2 Y2 (try `kridtiler --list-presets`)");
}

#[test]
fn preset_takes_priority_over_tile() {
    let mut c = with_preset(&["half-right"]);
    c.tile = Some(vec![0, 0, 0, 0]);
    assert_eq!(resolve_command(&c, &Config::default()).unwrap(), (2, 1, [1, 0, 1, 0]));
}

#[test]
fn user_preset_order_does_not_matter() {
    let mut a = Config::default();
    a.presets.push(("one".to_string(), PresetEntry { cols: 4, rows: 1, rect: [0, 0, 1, 0] }));
    a.presets.push(("two".to_string(), PresetEntry { cols: 4, rows: 1, rect: [2, 0, 3, 0] }));
    let mut b = Config::default();
    b.presets.push(("two".to_string(), PresetEntry { cols: 4, rows: 1, rect: [2, 0, 3, 0] }));
    b.presets.push(("one".to_string(), PresetEntry { cols: 4, rows: 1, rect: [0, 0, 1, 0] }));
    for name in ["one", "two"] {
        assert_eq!(
            resolve_command(&with_preset(&[name]), &a).unwrap(),
            resolve_command(&with_preset(&[name]), &b).unwrap()
        );
    }
    assert_eq!(resolve_command(&with_preset(&["two"]), &a).unwrap(), (4, 1, [2, 0, 3, 0]));
}

#[test]
fn maximize_covers_any_grid() {
    let mut c = with_preset(&["maximize"]);
    c.cols = Some(4);
    c.rows = Some(3);
    assert_eq!(resolve_command(&c, &Config::default()).unwrap(), (4, 3, [0, 0, 3, 2]));
    let mut c = with_preset(&["max"]);
    c.cols = Some(6);
    assert_eq!(resolve_command(&c, &Config::default()).unwrap(), (6, 1, [0, 0, 5, 0]));
    let mut c = with_preset(&["full"]);
    c.rows = Some(0);
    assert!(matches!(resolve_command(&c, &Config::default()).unwrap_err(), ResolveError::EmptyGrid));
    // A user preset called "maximize" is taken as it is.
    let mut cfg = Config::default();
    cfg.presets.push(("maximize".to_string(), PresetEntry { cols: 2, rows: 2, rect: [0, 0, 0, 0] }));
    let mut c = with_preset(&["maximize"]);
    c.cols = Some(4);
    assert_eq!(resolve_command(&c, &cfg).unwrap(), (4, 2, [0, 0, 0, 0]));
}

#[test]
fn center_preset_stays_centred_under_override() {
    assert_eq!(resolve_command(&with_preset(&["center"]), &Config::default()).unwrap(), (4, 4, [1, 1, 2, 2]));
    let mut c = with_preset(&["center"]);
    c.cols = Some(8);
    c.rows = Some(8);
    assert_eq!(resolve_command(&c, &Config::default()).unwrap(), (8, 8, [2, 2, 5, 5]));
    c.cols = Some(5);
    c.rows = Some(3);
    assert_eq!(resolve_command(&c, &Config::default()).unwrap(), (5, 3, [1, 0, 3, 2]));
    c.cols = Some(1);
    c.rows = Some(1);
    assert_eq!(resolve_command(&c, &Config::default()).unwrap(), (1, 1, [0, 0, 0, 0]));
    c.cols = Some(0);
    assert!(matches!(resolve_command(&c, &Config::default()).unwrap_err(), ResolveError::EmptyGrid));
}
