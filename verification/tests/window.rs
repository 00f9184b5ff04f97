use palladium::config::{Config, Theme};
use palladium::webkit::{file_chooser_title, grants_permission, wants_enabling};
use palladium::window::{
    hides_on_close, invite_script, ipc_slot_name, opens_in_app, splash_error_script,
    theme_update_script, window_title, TrayAction,
};

#[test]
fn discord_hosts_stay_in_the_app() {
    assert!(opens_in_app("discord.com"));
    assert!(opens_in_app("ptb.discord.com"));
    assert!(opens_in_app("cdn.discordapp.com"));
    assert!(opens_in_app("media.discordapp.net"));
    assert!(!opens_in_app("evil-discord.com"));
    assert!(!opens_in_app("discord.com.evil.org"));
    assert!(!opens_in_app("github.com"));
}

#[test]
fn titles_carry_the_app_name() {
    assert_eq!(window_title("#general"), "#general \u{2014} palladium");
    assert_eq!(window_title("   "), "palladium");
    assert_eq!(window_title(""), "palladium");
}

#[test]
fn invite_codes_are_whitelisted() {
    assert_eq!(
        invite_script("abc_D-9", true).as_deref(),
        Some("location.assign('https://discord.com/invite/abc_D-9')")
    );
    assert_eq!(
        invite_script("tmpl", false).as_deref(),
        Some("location.assign('https://discord.com/template/tmpl')")
    );
    assert_eq!(invite_script("x');alert(1)//", true), None);
    assert_eq!(invite_script("a b", true), None);
}

#[test]
fn page_scripts_quote_their_arguments() {
    assert_eq!(
        splash_error_script("bad \"thing\"\n"),
        "window.palladiumError && window.palladiumError(\"bad \\\"thing\\\"\\n\")"
    );
    let off = theme_update_script(&Config::default());
    assert_eq!(off, "window.__PALLADIUM_SET_THEME__ && window.__PALLADIUM_SET_THEME__(\"\")");
    let on = theme_update_script(&Config { theme_discord: true, theme: Theme::Oxygen, ..Config::default() });
    assert!(on.contains("color-scheme:light"));
}

#[test]
fn tray_entries_and_close_behaviour() {
    for a in [TrayAction::Open, TrayAction::Settings, TrayAction::Reload, TrayAction::Quit] {
        assert_eq!(TrayAction::from_menu_id(a.menu_id()), Some(a));
    }
    assert_eq!(TrayAction::from_menu_id("other"), None);
    assert_eq!(TrayAction::Quit.label(), "quit palladium");
    assert!(hides_on_close("main", true));
    assert!(!hides_on_close("main", false));
    assert!(!hides_on_close("settings", true));
}

#[test]
fn ipc_slots_are_numbered() {
    assert_eq!(ipc_slot_name(0), "discord-ipc-0");
    assert_eq!(ipc_slot_name(9), "discord-ipc-9");
}

#[test]
fn webkit_policy() {
    assert!(wants_enabling("PeerConnectionEnabled"));
    assert!(wants_enabling("WebRTCH265Codec"));
    assert!(!wants_enabling("WebGPU"));
    assert!(grants_permission("WebKitUserMediaPermissionRequest"));
    assert!(grants_permission("WebKitNotificationPermissionRequest"));
    assert!(!grants_permission("WebKitGeolocationPermissionRequest"));
    assert!(!grants_permission("WebKitPointerLockPermissionRequest"));
    assert_eq!(file_chooser_title(true), "Select Files");
    assert_eq!(file_chooser_title(false), "Select File");
}
