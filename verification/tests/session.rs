use kridtiler::json::{json_as_array, json_as_i64, json_as_str, json_as_u64, json_get, Json, JsonKind, JsonMember};
use kridtiler::command::Cli;
use kridtiler::config::{Config, PresetEntry};
use kridtiler::inbox::{await_step, AwaitStep, ResultInbox};
use kridtiler::monitors::{file_await_step, file_result, monitor_header, monitor_row, monitor_table, MonitorFields, MonitorsError};
use kridtiler::plan::{
    judge_outcome, log_level, pick_grid, popup_anchor, popup_grabs_focus, preset_listing, select_mode,
    want_callback, Mode,
};

fn cli() -> Cli {
    Cli {
        preset: None,
        tile: None,
        cols: None,
        rows: None,
        list_presets: false,
        list_monitors: false,
        log: None,
        wait_ms: 800,
        show: None,
        overlay: None,
        popup: None,
        at: None,
        no_wait: false,
    }
}

#[test]
fn inbox_takes_matching_report() {
    let mut inbox = ResultInbox::new();
    assert!(inbox.take_match("a").is_none());
    inbox.push("a".into(), "ok".into(), "{}".into());
    inbox.push("b".into(), "err".into(), "{\"x\":1}".into());
    inbox.push("c".into(), "ok".into(), "3".into());
    assert_eq!(inbox.take_match("b"), Some(("err".to_string(), "{\"x\":1}".to_string())));
    assert!(inbox.take_match("b").is_none());
    assert_eq!(inbox.take_match("a"), Some(("ok".to_string(), "{}".to_string())));
    assert_eq!(inbox.take_match("c"), Some(("ok".to_string(), "3".to_string())));
    assert!(inbox.take_match("c").is_none());
}

#[test]
fn inbox_first_report_wins() {
    let mut inbox = ResultInbox::new();
    inbox.push("a".into(), "first".into(), "1".into());
    inbox.push("a".into(), "second".into(), "2".into());
    assert_eq!(inbox.take_match("a"), Some(("first".to_string(), "1".to_string())));
    assert_eq!(inbox.take_match("a"), Some(("second".to_string(), "2".to_string())));
}

#[test]
fn await_step_outcomes() {
    let mut inbox = ResultInbox::new();
    assert!(matches!(await_step(&mut inbox, "r", false), AwaitStep::Wait));
    assert!(matches!(await_step(&mut inbox, "r", true), AwaitStep::TimedOut));
    inbox.push("r".into(), "ok".into(), "{}".into());
    match await_step(&mut inbox, "r", true) {
        AwaitStep::Found(s, p) => assert_eq!((s.as_str(), p.as_str()), ("ok", "{}")),
        other => panic!("{other:?}"),
    }
}

#[test]
fn pick_grid_precedence() {
    assert_eq!(pick_grid(&Some(vec![]), None, None, None, None, 8, 6), (8, 6));
    assert_eq!(pick_grid(&Some(vec![]), None, None, Some(12), Some(8), 8, 6), (12, 8));
    assert_eq!(pick_grid(&Some(vec![10]), None, None, Some(12), Some(8), 8, 6), (10, 8));
    assert_eq!(pick_grid(&Some(vec![10, 5]), None, None, Some(12), Some(8), 8, 6), (10, 5));
    assert_eq!(pick_grid(&Some(vec![10, 5]), Some(3), None, Some(12), Some(8), 8, 6), (3, 5));
    assert_eq!(pick_grid(&Some(vec![0, 0]), None, None, None, None, 8, 6), (1, 1));
    assert_eq!(pick_grid(&None, None, Some(0), None, None, 8, 6), (8, 1));
}

#[test]
fn mode_selection() {
    let mut c = cli();
    c.overlay = Some(vec![]);
    c.show = Some(vec![3, 3]);
    match select_mode(&c, &Config::default()).unwrap() {
        Mode::Overlay { cols, rows } => assert_eq!((cols, rows), (8, 6)),
        m => panic!("{m:?}"),
    }
    let mut c = cli();
    c.popup = Some(vec![7]);
    let mut cfg = Config::default();
    cfg.popup.rows = Some(5);
    match select_mode(&c, &cfg).unwrap() {
        Mode::Popup { cols, rows } => assert_eq!((cols, rows), (7, 5)),
        m => panic!("{m:?}"),
    }
    let mut c = cli();
    c.show = Some(vec![]);
    match select_mode(&c, &Config::default()).unwrap() {
        Mode::Popup { cols, rows } => assert_eq!((cols, rows), (6, 4)),
        m => panic!("{m:?}"),
    }
    let mut c = cli();
    c.preset = Some(vec!["top-right".to_string()]);
    match select_mode(&c, &Config::default()).unwrap() {
        Mode::Tile { cols, rows, rect } => assert_eq!((cols, rows, rect), (2, 2, [1, 0, 1, 0])),
        m => panic!("{m:?}"),
    }
    assert!(select_mode(&cli(), &Config::default()).is_err());
}

#[test]
fn mode_properties() {
    let tile = Mode::Tile { cols: 2, rows: 1, rect: [0, 0, 0, 0] };
    let overlay = Mode::Overlay { cols: 8, rows: 6 };
    let popup = Mode::Popup { cols: 6, rows: 4 };
    assert_eq!(tile.plugin_name("abc"), "kridtiler-abc");
    assert_eq!(overlay.plugin_name("abc"), "kridtiler-overlay");
    assert_eq!(popup.plugin_name("abc"), "kridtiler-popup");
    assert_eq!(tile.script_ext(), "js");
    assert_eq!(popup.script_ext(), "qml");
    assert!(!tile.is_declarative() && overlay.is_declarative() && popup.is_declarative());
    assert_eq!(tile.effective_wait_ms(800), 800);
    assert_eq!(popup.effective_wait_ms(800), 60_000);
    assert_eq!(overlay.effective_wait_ms(90_000), 90_000);
    assert!(tile.waits_for_result(true, true));
    assert!(!tile.waits_for_result(true, false));
    assert!(!tile.waits_for_result(false, true));
    assert!(!popup.waits_for_result(true, true));
}

#[test]
fn callback_and_logging_choices() {
    let mut c = cli();
    assert!(want_callback(&c));
    c.wait_ms = 0;
    assert!(!want_callback(&c));
    c.wait_ms = 800;
    c.no_wait = true;
    assert!(!want_callback(&c));

    let mut cfg = Config::default();
    let mut c = cli();
    assert_eq!(log_level(&c, &cfg), None);
    cfg.general.log_level = Some("debug".into());
    assert_eq!(log_level(&c, &cfg), Some("debug".to_string()));
    c.log = Some("trace".into());
    assert_eq!(log_level(&c, &cfg), Some("trace".to_string()));
}

#[test]
fn popup_anchor_and_focus() {
    let mut c = cli();
    let mut cfg = Config::default();
    assert_eq!(popup_anchor(&c, &cfg), "center");
    cfg.popup.anchor = Some("cursor".into());
    assert_eq!(popup_anchor(&c, &cfg), "cursor");
    c.at = Some("center".into());
    assert_eq!(popup_anchor(&c, &cfg), "center");
    c.at = Some("elsewhere".into());
    assert_eq!(popup_anchor(&c, &cfg), "center");
    assert!(!popup_grabs_focus(&cfg));
    cfg.popup.grab_focus = Some(true);
    assert!(popup_grabs_focus(&cfg));
}

#[test]
fn outcome_judgement() {
    assert!(judge_outcome(None).is_ok());
    assert!(judge_outcome(Some(("ok".into(), "{}".into()))).is_ok());
    let e = judge_outcome(Some(("no-window".into(), "{\"a\":1}".into()))).unwrap_err();
    assert_eq!(e.message(), "script reported status=no-window: {\"a\":1}");
}

#[test]
fn preset_listing_lines() {
    let mut cfg = Config::default();
    cfg.presets.push(("work-left".into(), PresetEntry { cols: 12, rows: 1, rect: [0, 0, 7, 0] }));
    let lines = preset_listing(&cfg);
    assert_eq!(lines.len(), 16);
    assert_eq!(lines[0], "half-left             grid 2x1  rect (0,0)..(0,0)  [built-in]");
    assert_eq!(lines[5], "center                grid 4x4  rect (1,1)..(2,2)  [built-in]");
    assert_eq!(lines[15], "work-left             grid 12x1  rect (0,0)..(7,0)  [user]");
    assert_eq!(
        lines[0],
        format!("{:20}  grid {}x{}  rect ({},{})..({},{})  [built-in]", "half-left", 2, 1, 0, 0, 0, 0)
    );
}

#[test]
fn monitor_lines() {
    assert_eq!(
        monitor_header(),
        format!("{:>3}  {:8}  {:>5}x{:<5}  {:>5},{:<5}  {:1}  {}", "idx", "name", "w", "h", "x", "y", "*", "model")
    );
    let f = MonitorFields {
        index: Some(1),
        name: Some("DP-1".into()),
        active: Some(true),
        model: Some("U2720Q".into()),
        manufacturer: Some("Dell".into()),
        x: Some(-2560),
        y: Some(0),
        width: Some(2560),
        height: Some(1440),
    };
    assert_eq!(
        monitor_row(&f),
        format!("{:>3}  {:8}  {:>5}x{:<5}  {:>5},{:<5}  {:1}  {}", 1, "DP-1", 2560, 1440, -2560, 0, "*", "Dell U2720Q")
    );
    let empty = MonitorFields {
        index: None,
        name: None,
        active: None,
        model: None,
        manufacturer: Some("Dell".into()),
        x: None,
        y: None,
        width: None,
        height: None,
    };
    assert_eq!(
        monitor_row(&empty),
        format!("{:>3}  {:8}  {:>5}x{:<5}  {:>5},{:<5}  {:1}  {}", 0, "?", 0, 0, 0, 0, " ", "")
    );
}

#[test]
fn monitor_table_from_report() {
    let payload = r#"{"monitors":[
        {"index":0,"name":"eDP-1","active":false,"model":"","manufacturer":"BOE",
         "geometry":{"x":0,"y":0,"width":1920,"height":1200}},
        {"index":"1","name":7,"active":true,"model":"X","geometry":3}
    ]}"#;
    let lines = monitor_table(payload).unwrap();
    assert_eq!(lines.len(), 3);
    assert_eq!(lines[0], monitor_header());
    assert_eq!(
        lines[1],
        format!("{:>3}  {:8}  {:>5}x{:<5}  {:>5},{:<5}  {:1}  {}", 0, "eDP-1", 1920, 1200, 0, 0, " ", "")
    );
    assert_eq!(
        lines[2],
        format!("{:>3}  {:8}  {:>5}x{:<5}  {:>5},{:<5}  {:1}  {}", 0, "?", 0, 0, 0, 0, "*", "X")
    );
    assert!(matches!(monitor_table("{\"other\":1}"), Err(MonitorsError::MissingMonitors)));
    assert!(matches!(monitor_table("{\"monitors\":{}}"), Err(MonitorsError::MissingMonitors)));
    let e = monitor_table("not json").unwrap_err();
    assert!(matches!(e, MonitorsError::InvalidJson(_)));
    assert_eq!(e.message(), "parse monitors json");
    assert_eq!(MonitorsError::MissingMonitors.message(), "missing monitors[] in payload");
}

#[test]
fn result_file_reading() {
    assert_eq!(file_result(b""), None);
    assert_eq!(file_result(b"{\"stat"), None);
    assert_eq!(
        file_result(br#"{"status":"ok","payload":{"a": [1, 2]}}"#),
        Some(("ok".to_string(), "{\"a\":[1,2]}".to_string()))
    );
    assert_eq!(file_result(b"{}"), Some(("unknown".to_string(), "{}".to_string())));
    assert_eq!(
        file_result(br#"{"status":5,"payload":"x"}"#),
        Some(("unknown".to_string(), "\"x\"".to_string()))
    );
}

#[test]
fn json_model_reading() {
    let num = |n: i64| Json {
        text: n.to_string(),
        kind: JsonKind::Number { as_u64: if n >= 0 { Some(n as u64) } else { None }, as_i64: Some(n) },
    };
    let obj = Json {
        text: String::new(),
        kind: JsonKind::Object(vec![
            JsonMember { key: "a".into(), value: num(-3) },
            JsonMember { key: "s".into(), value: Json { text: "\"x\"".into(), kind: JsonKind::Str("x".into()) } },
            JsonMember { key: "l".into(), value: Json { text: "[]".into(), kind: JsonKind::Array(vec![]) } },
        ]),
    };
    assert_eq!(json_get(&obj, "a").and_then(json_as_i64), Some(-3));
    assert_eq!(json_get(&obj, "a").and_then(json_as_u64), None);
    assert_eq!(json_get(&obj, "s").and_then(json_as_str), Some("x"));
    assert_eq!(json_get(&obj, "l").and_then(json_as_array).map(|v| v.len()), Some(0));
    assert!(json_get(&obj, "missing").is_none());
    assert!(json_get(&num(1), "a").is_none());
}

#[test]
fn file_await_step_outcomes() {
    assert!(matches!(file_await_step(None, false), AwaitStep::Wait));
    assert!(matches!(file_await_step(None, true), AwaitStep::TimedOut));
    assert!(matches!(file_await_step(Some(b""), false), AwaitStep::Wait));
    assert!(matches!(file_await_step(Some(b"{\"sta"), true), AwaitStep::TimedOut));
    match file_await_step(Some(br#"{"status":"ok","payload":[1]}"#), false) {
        AwaitStep::Found(s, p) => assert_eq!((s.as_str(), p.as_str()), ("ok", "[1]")),
        other => panic!("{other:?}"),
    }
}
