use palladium::config::{ClientMod, Config, Theme};
use palladium::import::Pending;
use palladium::inject::{
    build_script, proxy_script, seed_script, theme_css_for, theme_script, user_agent,
};
use palladium::mods::ModBundle;

fn no_pending() -> Pending {
    Pending { mod_settings: None, quick_css: None }
}

fn script(bundle: Option<&ModBundle>, cfg: &Config) -> String {
    build_script(bundle, cfg, &no_pending(), "", None, "")
}

#[test]
fn css_containing_quotes_and_newlines_is_escaped() {
    let bundle = ModBundle {
        client_mod: ClientMod::Vencord,
        js: "/* mod */".into(),
        css: "body::after { content: \"</script>\\n\"; }".into(),
    };
    let script = script(Some(&bundle), &Config::default());
    assert!(!script.contains("content: \"</script>"));
    assert!(script.contains(r#"\"<\/script>"#) || script.contains(r#"\"</script>"#));
    assert!(script.contains("/* mod */"));
}

#[test]
fn user_agent_is_exact() {
    assert_eq!(
        user_agent(),
        "Mozilla/5.0 (Windows NT 10.0; Win64; x64) AppleWebKit/537.36 (KHTML, like Gecko) Chrome/150.0.0.0 Safari/537.36"
    );
}

#[test]
fn vanilla_mode_still_gets_the_theme_runtime() {
    let script = script(None, &Config::default());
    assert!(script.contains("__PALLADIUM_SET_THEME__"));
}

#[test]
fn mod_js_is_appended_after_the_bootstrap() {
    let bundle = ModBundle {
        client_mod: ClientMod::Equicord,
        js: "var Equicord = 1;".into(),
        css: String::new(),
    };
    let script = script(Some(&bundle), &Config::default());
    let theme = script.find("__PALLADIUM_SET_THEME__").unwrap();
    let bootstrap = script.find("__PALLADIUM__ =").unwrap();
    let mod_js = script.find("var Equicord = 1;").unwrap();
    assert!(theme < bootstrap, "theme runtime is set up first");
    assert!(bootstrap < mod_js, "mod js must come after the bootstrap");
}

#[test]
fn discord_theming_is_off_unless_opted_in() {
    let off = Config::default();
    assert!(!off.theme_discord);
    assert!(theme_css_for(&off).is_empty());

    let on = Config {
        theme_discord: true,
        theme: Theme::Gallium,
        ..Config::default()
    };
    let css = theme_css_for(&on);
    assert!(css.contains("--background-primary:#000000"));
    assert!(css.contains("--bg-base-primary"));
}

#[test]
fn every_theme_produces_css() {
    for theme in [
        Theme::Palladium,
        Theme::Oxygen,
        Theme::Hydrogen,
        Theme::Plutonium,
        Theme::Uranium,
        Theme::Iron,
        Theme::Gallium,
    ] {
        let cfg = Config {
            theme,
            theme_discord: true,
            ..Config::default()
        };
        let css = theme_css_for(&cfg);
        assert!(!css.is_empty(), "{} produced no css", theme.slug());
        assert!(css.contains("--text-normal"), "{}", theme.slug());
    }
}

#[test]
fn the_bootstrap_names_the_mod_and_version() {
    let bundle = ModBundle {
        client_mod: ClientMod::Vencord,
        js: String::new(),
        css: "a{}".into(),
    };
    let script = script(Some(&bundle), &Config::default());
    assert!(script.contains("window.__PALLADIUM__ = { mod: \"Vencord\", version: \"0.1.0\" };"));
    assert!(script.contains("var css = \"a{}\";"));
}

#[test]
fn theme_script_applies_the_configured_css() {
    let cfg = Config::default();
    let s = theme_script(&cfg);
    assert!(s.ends_with("window.__PALLADIUM_SET_THEME__(\"\");\n"));
}

#[test]
fn seeding_writes_both_values_in_order() {
    let pending = Pending {
        mod_settings: Some("{\"plugins\":{}}".into()),
        quick_css: Some("a { color: red }\n".into()),
    };
    let s = seed_script(&pending);
    assert_eq!(
        s,
        "(function(){try{\nlocalStorage.setItem('VencordSettings', \"{\\\"plugins\\\":{}}\");\nlocalStorage.setItem('VencordQuickCss', \"a { color: red }\\n\");\n}catch(e){console.warn('[palladium] seed failed',e);}})();\n"
    );
    assert_eq!(seed_script(&no_pending()), "");
}

#[test]
fn proxy_shim_gets_the_endpoint_base() {
    let shim = "fetch(__PALLADIUM_PROXY_BASE__ + '/x'); var b = '__PALLADIUM_PROXY_BASE__';";
    assert_eq!(
        proxy_script(shim, Some("http://127.0.0.1:5/tok")),
        "fetch(http://127.0.0.1:5/tok + '/x'); var b = 'http://127.0.0.1:5/tok';"
    );
    assert_eq!(proxy_script(shim, None), "");
}

#[test]
fn the_prelude_comes_in_order() {
    let pending = Pending { mod_settings: None, quick_css: Some("q".into()) };
    let s = build_script(None, &Config::default(), &pending, "P=__PALLADIUM_PROXY_BASE__;", Some("B"), "VOICE;");
    let seed = s.find("VencordQuickCss").unwrap();
    let proxy = s.find("P=B;").unwrap();
    let voice = s.find("VOICE;").unwrap();
    let theme = s.find("__PALLADIUM_SET_THEME__").unwrap();
    assert!(seed < proxy && proxy < voice && voice < theme);
}
