use palladium::config::{Config, DiscordBranch};
use palladium::import::{
    apply_client_settings, count_plugins, count_themes, Available, ImportSource,
};
use palladium::json::Json;

fn obj(fields: Vec<(&str, Json)>) -> Json {
    Json::Object(fields.into_iter().map(|(k, v)| (k.to_string(), v)).collect())
}

#[test]
fn sources_and_their_names() {
    assert_eq!(ImportSource::all(), [ImportSource::Equibop, ImportSource::Vesktop]);
    assert_eq!(ImportSource::Vesktop.display_name(), "vesktop");
    assert_eq!(ImportSource::Equibop.dir_names(), ["equibop", "Equibop"]);
}

#[test]
fn client_settings_map_onto_the_config() {
    let mut c = Config::default();
    apply_client_settings(
        &mut c,
        &obj(vec![
            ("discordBranch", Json::string("canary")),
            ("minimizeToTray", Json::Bool(false)),
            ("arRPC", Json::Bool(false)),
        ]),
    );
    assert_eq!(c.discord_branch, DiscordBranch::Canary);
    assert!(!c.minimize_to_tray);
    assert!(!c.arrpc_enabled);

    apply_client_settings(&mut c, &obj(vec![("discordBranch", Json::string("weird"))]));
    assert_eq!(c.discord_branch, DiscordBranch::Stable);
}

#[test]
fn the_inverted_key_wins() {
    let mut c = Config::default();
    apply_client_settings(
        &mut c,
        &obj(vec![("arRPCDisabled", Json::Bool(true)), ("arRPC", Json::Bool(true))]),
    );
    assert!(!c.arrpc_enabled);
    let mut c = Config { arrpc_enabled: false, ..Config::default() };
    apply_client_settings(&mut c, &obj(vec![("arRPCDisabled", Json::Bool(false))]));
    assert!(c.arrpc_enabled);
}

#[test]
fn non_string_branch_and_non_bool_flags_are_ignored() {
    let mut c = Config::default();
    apply_client_settings(
        &mut c,
        &obj(vec![
            ("discordBranch", Json::uint(1)),
            ("minimizeToTray", Json::string("no")),
            ("arRPCDisabled", Json::string("yes")),
        ]),
    );
    assert_eq!(c, Config::default());
}

#[test]
fn plugins_and_themes_are_counted() {
    let settings = obj(vec![
        (
            "plugins",
            obj(vec![
                ("A", obj(vec![("enabled", Json::Bool(true))])),
                ("B", obj(vec![("enabled", Json::Bool(false))])),
                ("C", obj(vec![])),
                ("D", obj(vec![("enabled", Json::Bool(true))])),
            ]),
        ),
        (
            "enabledThemes",
            Json::Array(vec![Json::string("a.css"), Json::string("b.css"), Json::string("c.css")]),
        ),
    ]);
    assert_eq!(count_plugins(&settings), 2);
    assert_eq!(count_themes(&settings), 3);
    assert_eq!(count_plugins(&Json::Null), 0);
    assert_eq!(count_themes(&obj(vec![("enabledThemes", Json::Null)])), 0);

    let a = Available::describe(ImportSource::Equibop, Some(&settings), true);
    assert_eq!(a.name, "equibop");
    assert_eq!((a.plugins, a.themes, a.quick_css), (2, 3, true));
    let b = Available::describe(ImportSource::Vesktop, None, false);
    assert_eq!((b.plugins, b.themes, b.quick_css), (0, 0, false));
}
