use bevy_easy_vec_ui::config::{clone_strings, BevyEasyVecUiPlugin, EasyVecUi};
use bevy_easy_vec_ui::render::{
    rebuild_commands, setup_ui, ui_update_system, update_ui, RenderedColumns, SetupCommand, Side,
    UiCommand,
};
use bevy_easy_vec_ui::timer::{EasyVecUiUpdateTimer, UPDATE_INTERVAL_NANOS};

const MS: u64 = 1_000_000;

fn strings(items: &[&str]) -> Vec<String> {
    items.iter().map(|s| s.to_string()).collect()
}

fn fresh_config() -> EasyVecUi {
    BevyEasyVecUiPlugin::init("fonts/mono.ttf").build().resource()
}

#[test]
fn timer_interval_is_a_quarter_second() {
    let t = EasyVecUiUpdateTimer::new();
    assert_eq!(t.interval_nanos, 250 * MS);
    assert_eq!(UPDATE_INTERVAL_NANOS, 250 * MS);
    assert_eq!(t.elapsed_nanos, 0);
}

#[test]
fn timer_zero_tick_never_fires() {
    let mut t = EasyVecUiUpdateTimer::new();
    assert!(!t.tick(0));
    assert!(!t.tick(249 * MS));
    assert!(!t.tick(0));
    assert_eq!(t.elapsed_nanos, 249 * MS);
    assert!(t.tick(1 * MS));
    assert!(!t.tick(0));
}

#[test]
fn timer_fire_count_matches_whole_intervals() {
    let mut t = EasyVecUiUpdateTimer::new();
    let mut fired = 0;
    for _ in 0..10 {
        if t.tick(100 * MS) {
            fired += 1;
        }
    }
    assert_eq!(fired, 4);
    assert_eq!(t.elapsed_nanos, 0);

    let mut t = EasyVecUiUpdateTimer::new();
    let deltas = [90 * MS, 170 * MS, 240 * MS, 10 * MS, 249 * MS, 1 * MS];
    let mut fired = 0;
    for d in deltas {
        if t.tick(d) {
            fired += 1;
        }
    }
    let sum: u64 = deltas.iter().sum();
    assert_eq!(fired, sum / (250 * MS));
    assert_eq!(t.elapsed_nanos, sum % (250 * MS));
}

#[test]
fn timer_exact_interval_fires_and_resets() {
    let mut t = EasyVecUiUpdateTimer::new();
    assert!(t.tick(250 * MS));
    assert_eq!(t.elapsed_nanos, 0);
}

#[test]
fn timer_long_stall_fires_once_and_keeps_remainder() {
    let mut t = EasyVecUiUpdateTimer::new();
    assert!(t.tick(600 * MS));
    assert_eq!(t.elapsed_nanos, 100 * MS);
    assert!(!t.tick(0));
    assert!(t.tick(150 * MS));
    assert_eq!(t.elapsed_nanos, 0);
}

#[test]
fn timer_with_custom_interval() {
    let mut t = EasyVecUiUpdateTimer::with_interval(10);
    assert!(!t.tick(7));
    assert!(t.tick(7));
    assert_eq!(t.elapsed_nanos, 4);
}

#[test]
fn config_defaults() {
    let plugin = BevyEasyVecUiPlugin::init("fonts/mono.ttf").build();
    assert_eq!(plugin.title, "Default Title: Not Set");
    assert_eq!(plugin.camera_layer, -1);
    assert_eq!(plugin.font_path, "fonts/mono.ttf");
    assert!(plugin.data_vec_left.is_empty());
    assert!(plugin.data_vec_right.is_empty());
    let res = plugin.resource();
    assert_eq!(res.title, "Default Title: Not Set");
    assert_eq!(res.camera_layer, -1);
    assert!(res.data_vec_left.is_empty());
    assert!(res.data_vec_right.is_empty());
}

#[test]
fn config_setters() {
    let plugin = BevyEasyVecUiPlugin::init("a.ttf").camera_layer(3).title("Lobby").build();
    assert_eq!(plugin.camera_layer, 3);
    assert_eq!(plugin.title, "Lobby");
    assert_eq!(plugin.font_path, "a.ttf");
    let res = plugin.resource();
    assert_eq!(res.camera_layer, 3);
    assert_eq!(res.title, "Lobby");
}

#[test]
fn clone_strings_keeps_order() {
    let v = strings(&["x", "", "z"]);
    assert_eq!(clone_strings(&v), v);
}

#[test]
fn inject_replaces_lists() {
    let mut cfg = fresh_config();
    cfg.inject_vec_left(strings(&["a", ""]));
    cfg.inject_vec_right(strings(&["r"]));
    assert_eq!(cfg.data_vec_left, strings(&["a", ""]));
    assert_eq!(cfg.data_vec_right, strings(&["r"]));
    cfg.inject_vec_right(Vec::new());
    assert!(cfg.data_vec_right.is_empty());
    assert_eq!(cfg.data_vec_left, strings(&["a", ""]));
}

#[test]
fn rebuild_order_preserved() {
    let cmds = rebuild_commands(Side::Left, &strings(&["a", "b", "c"]));
    assert_eq!(cmds.len(), 4);
    assert!(matches!(cmds[0], UiCommand::ClearChildren(Side::Left)));
    assert!(matches!(&cmds[1], UiCommand::AppendTextRow(Side::Left, s) if s == "a"));
    assert!(matches!(&cmds[2], UiCommand::AppendTextRow(Side::Left, s) if s == "b"));
    assert!(matches!(&cmds[3], UiCommand::AppendTextRow(Side::Left, s) if s == "c"));

    let mut cols = RenderedColumns::new();
    cols.rebuild(Side::Left, &strings(&["a", "b", "c"]));
    assert_eq!(cols.rows(Side::Left), &strings(&["a", "b", "c"]));
    assert!(cols.rows(Side::Right).is_empty());
}

#[test]
fn rebuild_twice_same_items() {
    let mut cols = RenderedColumns::new();
    cols.rebuild(Side::Right, &strings(&["old", "stale", "rows", "here"]));
    let items = strings(&["one", "two"]);
    cols.rebuild(Side::Right, &items);
    cols.rebuild(Side::Right, &items);
    assert_eq!(cols.right, items);
    assert_eq!(cols.right.len(), 2);
    assert!(cols.left.is_empty());
}

#[test]
fn inject_overwrite_renders_latest() {
    let mut cfg = fresh_config();
    cfg.inject_vec_left(strings(&["x"]));
    cfg.inject_vec_left(strings(&["y", "z"]));
    let mut cols = RenderedColumns::new();
    cols.apply_all(update_ui(&cfg));
    assert_eq!(cols.left, strings(&["y", "z"]));
    assert!(!cols.left.iter().any(|s| s == "x"));
}

#[test]
fn end_to_end_setup_tick_rebuild() {
    let mut cfg = fresh_config();
    let setup = setup_ui(&cfg);
    assert_eq!(setup.len(), 5);
    assert!(matches!(&setup[0], SetupCommand::LoadFont(p) if p == "fonts/mono.ttf"));
    assert!(matches!(setup[1], SetupCommand::SpawnCamera(-1)));
    assert!(matches!(&setup[2], SetupCommand::SpawnTitle(t) if t == "Default Title: Not Set"));
    assert!(matches!(setup[3], SetupCommand::SpawnContainer(Side::Left)));
    assert!(matches!(setup[4], SetupCommand::SpawnContainer(Side::Right)));

    let mut cols = RenderedColumns::new();
    let mut timer = EasyVecUiUpdateTimer::new();
    cfg.inject_vec_left(strings(&["P1"]));
    cfg.inject_vec_right(Vec::new());
    let cmds = ui_update_system(&mut timer, 300 * MS, &cfg);
    assert!(!cmds.is_empty());
    cols.apply_all(cmds);
    assert_eq!(cols.left, strings(&["P1"]));
    assert_eq!(cols.right.len(), 0);
    assert_eq!(timer.elapsed_nanos, 50 * MS);
}

#[test]
fn update_system_idle_frame_sends_nothing() {
    let mut cfg = fresh_config();
    cfg.inject_vec_left(strings(&["a"]));
    let mut timer = EasyVecUiUpdateTimer::new();
    assert!(ui_update_system(&mut timer, 100 * MS, &cfg).is_empty());
    assert!(ui_update_system(&mut timer, 0, &cfg).is_empty());
    let cmds = ui_update_system(&mut timer, 150 * MS, &cfg);
    assert_eq!(cmds.len(), 3);
    assert!(matches!(cmds[0], UiCommand::ClearChildren(Side::Left)));
    assert!(matches!(&cmds[1], UiCommand::AppendTextRow(Side::Left, s) if s == "a"));
    assert!(matches!(cmds[2], UiCommand::ClearChildren(Side::Right)));
}

#[test]
fn update_replaces_prior_rows_on_both_sides() {
    let mut cfg = fresh_config();
    let mut cols = RenderedColumns::new();
    cols.rebuild(Side::Left, &strings(&["l1", "l2", "l3"]));
    cols.rebuild(Side::Right, &strings(&["r1"]));
    cfg.inject_vec_right(strings(&["", "r2"]));
    cols.update(&cfg);
    assert!(cols.left.is_empty());
    assert_eq!(cols.right, strings(&["", "r2"]));
}
