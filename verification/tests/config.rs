use palladium::config::{
    apply_patch, apply_setup, ClientMod, Config, ConfigPatch, DiscordBranch, LinuxBackend, Theme,
};

#[test]
fn defaults_match_the_documented_config() {
    let c = Config::default();
    assert_eq!(c.client_mod, ClientMod::Vencord);
    assert!(c.arrpc_enabled);
    assert_eq!(c.arrpc_bridge_port, 1337);
    assert!(!c.always_update_mod);
    assert!(c.minimize_to_tray);
    assert_eq!(c.discord_branch, DiscordBranch::Stable);
    assert_eq!(c.linux_backend, LinuxBackend::Auto);
    assert_eq!(c.theme, Theme::Palladium);
    assert!(!c.theme_discord);
}

#[test]
fn names_and_urls() {
    assert_eq!(ClientMod::Vanilla.display_name(), "Vanilla");
    assert_eq!(ClientMod::Equicord.slug(), "equicord");
    assert_eq!(ClientMod::Vanilla.release_base(), None);
    assert_eq!(
        ClientMod::Vencord.release_base(),
        Some("https://github.com/Vendicated/Vencord/releases/download/devbuild")
    );
    assert_eq!(LinuxBackend::X11.gdk_value(), Some("x11"));
    assert_eq!(LinuxBackend::Auto.gdk_value(), None);
    assert_eq!(DiscordBranch::Canary.url(), "https://canary.discord.com/channels/@me");
}

#[test]
fn start_url_prefers_a_non_blank_override() {
    let c = Config { discord_branch: DiscordBranch::Ptb, ..Config::default() };
    assert_eq!(c.start_url(None), "https://ptb.discord.com/channels/@me");
    assert_eq!(c.start_url(Some("  \t\n")), "https://ptb.discord.com/channels/@me");
    assert_eq!(c.start_url(Some("http://localhost:1")), "http://localhost:1");
}

#[test]
fn a_patch_sets_what_it_names_and_reports_changes() {
    let mut c = Config::default();
    let patch = ConfigPatch {
        client_mod: Some(ClientMod::Equicord),
        theme: Some(Theme::Iron),
        minimize_to_tray: Some(false),
        ..ConfigPatch::default()
    };
    let fx = apply_patch(&mut c, &patch);
    assert_eq!(c.client_mod, ClientMod::Equicord);
    assert_eq!(c.theme, Theme::Iron);
    assert!(!c.minimize_to_tray);
    assert!(c.arrpc_enabled);
    assert!(fx.reloading);
    assert!(!fx.needs_restart);
    assert!(fx.theme_changed);

    let again = apply_patch(&mut c, &patch);
    assert!(!again.reloading && !again.needs_restart && !again.theme_changed);
}

#[test]
fn arrpc_and_backend_changes_need_a_restart() {
    let mut c = Config::default();
    let fx = apply_patch(
        &mut c,
        &ConfigPatch { linux_backend: Some(LinuxBackend::Wayland), ..ConfigPatch::default() },
    );
    assert!(fx.needs_restart && !fx.reloading && !fx.theme_changed);
    let fx = apply_patch(
        &mut c,
        &ConfigPatch { arrpc_enabled: Some(true), ..ConfigPatch::default() },
    );
    assert!(!fx.needs_restart);
}

#[test]
fn setup_only_takes_the_mod_and_arrpc() {
    let mut c = Config::default();
    apply_setup(
        &mut c,
        &ConfigPatch {
            client_mod: Some(ClientMod::Vanilla),
            arrpc_enabled: Some(false),
            theme: Some(Theme::Gallium),
            ..ConfigPatch::default()
        },
    );
    assert_eq!(c.client_mod, ClientMod::Vanilla);
    assert!(!c.arrpc_enabled);
    assert_eq!(c.theme, Theme::Palladium);
}
