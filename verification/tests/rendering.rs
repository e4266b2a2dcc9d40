use kridtiler::config::{self, config_path_from};
use kridtiler::script::{
    render_overlay, render_popup, render_tile, result_file_name, temp_file_name, Appearance,
};
use kridtiler::text::{chars_of, decimal_chars, parse_u32, replace_all, string_of};

fn appearance() -> Appearance {
    Appearance::from_config(&config::Appearance::default(), "0.95".to_string(), "0".to_string())
}

#[test]
fn appearance_defaults() {
    let ap = appearance();
    assert_eq!(ap.bg_color, "#1e1e2e");
    assert_eq!(ap.cell_color, "#2a2a3a");
    assert_eq!(ap.selection_color, "#3a7ab0");
    assert_eq!(ap.anchor_color, "#4d9de0");
    assert_eq!(ap.border_color, "#4a4a6a");
    assert_eq!(ap.popup_width, 320);
    assert_eq!(ap.bg_opacity, "0.95");
    assert_eq!(ap.popup_width_pct, "0");
}

#[test]
fn appearance_from_config_values() {
    let mut c = config::Appearance::default();
    c.background_color = Some("#000000".to_string());
    c.border_color = Some("red".to_string());
    c.popup_width = Some(400);
    let ap = Appearance::from_config(&c, "0.5".to_string(), "0.3".to_string());
    assert_eq!(ap.bg_color, "#000000");
    assert_eq!(ap.border_color, "red");
    assert_eq!(ap.cell_color, "#2a2a3a");
    assert_eq!(ap.popup_width, 400);
}

#[test]
fn appearance_apply_fills_all_placeholders() {
    let ap = appearance();
    let s = ap.apply(
        "bg=__BG_COLOR__/__BG_OPACITY__ cell=__CELL_COLOR__ sel=__SEL_COLOR__ anchor=__ANCHOR_COLOR__ \
         border=__BORDER_COLOR__ w=__POPUP_WIDTH__ pct=__POPUP_WIDTH_PCT__"
            .to_string(),
    );
    assert_eq!(
        s,
        "bg=#1e1e2e/0.95 cell=#2a2a3a sel=#3a7ab0 anchor=#4d9de0 border=#4a4a6a w=320 pct=0"
    );
}

#[test]
fn render_tile_fills_template() {
    let t = "grid(__COLS__, __ROWS__) rect(__X1__,__Y1__,__X2__,__Y2__) id=__REQ_ID__ again __COLS__";
    let s = render_tile(t, 12, 8, [0, 1, 5, 7], "abc123");
    assert_eq!(s, "grid(12, 8) rect(0,1,5,7) id=abc123 again 12");
}

#[test]
fn render_without_placeholders_is_unchanged() {
    let t = "workspace.activeWindow; // nothing to fill in: __ but no name";
    assert_eq!(render_tile(t, 2, 1, [0, 0, 0, 0], "x"), t);
}

#[test]
fn render_overlay_fills_template() {
    let ap = appearance();
    let t = "__COLS__x__ROWS__ __REQ_ID__ __PLUGIN__ __RESULT_PATH__ __BG_COLOR__ __POPUP_WIDTH__";
    let s = render_overlay(t, 8, 6, "id1", "kridtiler-overlay", "/tmp/kridtiler/result-id1.json", &ap);
    assert_eq!(s, "8x6 id1 kridtiler-overlay /tmp/kridtiler/result-id1.json #1e1e2e 320");
}

#[test]
fn render_popup_fills_template() {
    let ap = appearance();
    let t = "__COLS__ __ROWS__ __REQ_ID__ __PLUGIN__ __ANCHOR__ __GRAB_FOCUS__ __SEL_COLOR__";
    let s = render_popup(t, 6, 4, "id2", "kridtiler-popup", "cursor", false, &ap);
    assert_eq!(s, "6 4 id2 kridtiler-popup cursor false #3a7ab0");
    let s = render_popup(t, 6, 4, "id2", "kridtiler-popup", "center", true, &ap);
    assert_eq!(s, "6 4 id2 kridtiler-popup center true #3a7ab0");
}

#[test]
fn file_names() {
    assert_eq!(temp_file_name("abc", "qml"), "ui-abc.qml");
    assert_eq!(temp_file_name("abc", "js"), "tile-abc.js");
    assert_eq!(result_file_name("abc"), "result-abc.json");
}

#[test]
fn replace_is_leftmost_non_overlapping() {
    let r = replace_all(&chars_of("aaa"), &chars_of("aa"), &chars_of("b"));
    assert_eq!(string_of(&r), "aaa".replace("aa", "b"));
    let r = replace_all(&chars_of("xaaaay"), &chars_of("aa"), &chars_of("-"));
    assert_eq!(string_of(&r), "x--y");
    let r = replace_all(&chars_of("ééé"), &chars_of("é"), &chars_of("e"));
    assert_eq!(string_of(&r), "eee");
    let r = replace_all(&chars_of(""), &chars_of("a"), &chars_of("b"));
    assert_eq!(string_of(&r), "");
}

#[test]
fn decimal_and_parse() {
    assert_eq!(string_of(&decimal_chars(0)), "0");
    assert_eq!(string_of(&decimal_chars(7)), "7");
    assert_eq!(string_of(&decimal_chars(1000)), "1000");
    assert_eq!(string_of(&decimal_chars(u64::MAX)), u64::MAX.to_string());
    for n in [0u32, 1, 9, 10, 99, 100, 4294967295] {
        assert_eq!(parse_u32(&n.to_string()), Some(n));
    }
    assert_eq!(parse_u32("4294967296"), None);
    assert_eq!(parse_u32("+0"), Some(0));
    assert_eq!(parse_u32("+"), None);
    assert_eq!(parse_u32(""), None);
    assert_eq!(parse_u32("-0"), None);
    assert_eq!(parse_u32("++1"), None);
    assert_eq!(parse_u32("1a"), None);
    for s in ["", "+", "-1", "12", "+12", "007", "4294967295", "4294967296", "1 ", "٣"] {
        assert_eq!(parse_u32(s), s.parse::<u32>().ok(), "{s:?}");
    }
}

fn path(xdg: Option<&str>, home: Option<&str>) -> String {
    let r = config_path_from(xdg.map(|s| s.as_bytes().to_vec()), home.map(|s| s.as_bytes().to_vec()));
    String::from_utf8(r).unwrap()
}

#[test]
fn config_path_choices() {
    assert_eq!(path(Some("/x/cfg"), Some("/home/u")), "/x/cfg/kridtiler/config.toml");
    assert_eq!(path(Some("/x/cfg/"), None), "/x/cfg/kridtiler/config.toml");
    assert_eq!(path(None, Some("/home/u")), "/home/u/.config/kridtiler/config.toml");
    assert_eq!(path(None, None), ".config/kridtiler/config.toml");
    assert_eq!(path(Some(""), None), "kridtiler/config.toml");
    // Bytes that are not UTF-8 are kept as they are.
    let raw = config_path_from(Some(vec![b'/', 0xff, b'x']), None);
    assert_eq!(raw, b"/\xffx/kridtiler/config.toml".to_vec());
}

#[test]
fn default_config_is_empty() {
    let c = config::Config::default();
    assert!(c.presets.is_empty());
    assert!(c.general.log_level.is_none());
    assert!(c.overlay.cols.is_none());
    assert!(c.popup.anchor.is_none());
    assert!(c.appearance.popup_width.is_none());
}
