//! The user's settings and the rules for changing them.

use vstd::prelude::*;

use crate::text::{blank, is_blank};

verus! {

#[derive(Debug, Clone, Copy, PartialEq, Eq, Structural)]
pub enum ClientMod {
    Vanilla,
    Vencord,
    Equicord,
}

impl Default for ClientMod {
    fn default() -> (r: ClientMod)
        ensures
            r == ClientMod::Vencord,
    {
        ClientMod::Vencord
    }
}

impl ClientMod {
    #[verifier::allow_in_spec]
    pub fn display_name(self) -> &'static str
        returns
            match self {
                ClientMod::Vanilla => "Vanilla",
                ClientMod::Vencord => "Vencord",
                ClientMod::Equicord => "Equicord",
            },
    {
        match self {
            ClientMod::Vanilla => "Vanilla",
            ClientMod::Vencord => "Vencord",
            ClientMod::Equicord => "Equicord",
        }
    }

    /// The name used in the config file and for the cache directory.
    #[verifier::allow_in_spec]
    pub fn slug(self) -> &'static str
        returns
            match self {
                ClientMod::Vanilla => "none",
                ClientMod::Vencord => "vencord",
                ClientMod::Equicord => "equicord",
            },
    {
        match self {
            ClientMod::Vanilla => "none",
            ClientMod::Vencord => "vencord",
            ClientMod::Equicord => "equicord",
        }
    }

    /// Where the mod's browser build is published; vanilla Discord has none.
    #[verifier::allow_in_spec]
    pub fn release_base(self) -> Option<&'static str>
        returns
            match self {
                ClientMod::Vanilla => None,
                ClientMod::Vencord => Some(
                    "https://github.com/Vendicated/Vencord/releases/download/devbuild",
                ),
                ClientMod::Equicord => Some(
                    "https://github.com/Equicord/Equicord/releases/download/latest",
                ),
            },
    {
        match self {
            ClientMod::Vanilla => None,
            ClientMod::Vencord => Some(
                "https://github.com/Vendicated/Vencord/releases/download/devbuild",
            ),
            ClientMod::Equicord => Some(
                "https://github.com/Equicord/Equicord/releases/download/latest",
            ),
        }
    }
}

#[derive(Debug, Clone, Copy, PartialEq, Eq, Structural)]
pub enum Theme {
    Palladium,
    Oxygen,
    Hydrogen,
    Plutonium,
    Uranium,
    Iron,
    Gallium,
}

impl Default for Theme {
    fn default() -> (r: Theme)
        ensures
            r == Theme::Palladium,
    {
        Theme::Palladium
    }
}

#[derive(Debug, Clone, Copy, PartialEq, Eq, Structural)]
pub enum LinuxBackend {
    Auto,
    Wayland,
    X11,
}

impl Default for LinuxBackend {
    fn default() -> (r: LinuxBackend)
        ensures
            r == LinuxBackend::Auto,
    {
        LinuxBackend::Auto
    }
}

impl LinuxBackend {
    /// The `GDK_BACKEND` to force, if any.
    #[verifier::allow_in_spec]
    pub fn gdk_value(self) -> Option<&'static str>
        returns
            match self {
                LinuxBackend::Auto => None,
                LinuxBackend::Wayland => Some("wayland"),
                LinuxBackend::X11 => Some("x11"),
            },
    {
        match self {
            LinuxBackend::Auto => None,
            LinuxBackend::Wayland => Some("wayland"),
            LinuxBackend::X11 => Some("x11"),
        }
    }
}

#[derive(Debug, Clone, Copy, PartialEq, Eq, Structural)]
pub enum DiscordBranch {
    Stable,
    Ptb,
    Canary,
}

impl Default for DiscordBranch {
    fn default() -> (r: DiscordBranch)
        ensures
            r == DiscordBranch::Stable,
    {
        DiscordBranch::Stable
    }
}

impl DiscordBranch {
    #[verifier::allow_in_spec]
    pub fn url(self) -> &'static str
        returns
            match self {
                DiscordBranch::Stable => "https://discord.com/channels/@me",
                DiscordBranch::Ptb => "https://ptb.discord.com/channels/@me",
                DiscordBranch::Canary => "https://canary.discord.com/channels/@me",
            },
    {
        match self {
            DiscordBranch::Stable => "https://discord.com/channels/@me",
            DiscordBranch::Ptb => "https://ptb.discord.com/channels/@me",
            DiscordBranch::Canary => "https://canary.discord.com/channels/@me",
        }
    }
}

/// The settings, as the library reads them. (The zoom level, a float, is
/// kept alongside by the app.)
#[derive(Debug, Clone, Copy, PartialEq, Eq, Structural)]
pub struct Config {
    pub client_mod: ClientMod,
    pub arrpc_enabled: bool,
    pub arrpc_bridge_port: u16,
    pub always_update_mod: bool,
    pub minimize_to_tray: bool,
    pub discord_branch: DiscordBranch,
    pub linux_backend: LinuxBackend,
    pub theme: Theme,
    pub theme_discord: bool,
}

pub open spec fn default_config() -> Config {
    Config {
        client_mod: ClientMod::Vencord,
        arrpc_enabled: true,
        arrpc_bridge_port: 1337,
        always_update_mod: false,
        minimize_to_tray: true,
        discord_branch: DiscordBranch::Stable,
        linux_backend: LinuxBackend::Auto,
        theme: Theme::Palladium,
        theme_discord: false,
    }
}

impl Default for Config {
    fn default() -> (r: Config)
        ensures
            r == default_config(),
    {
        Config {
            client_mod: ClientMod::Vencord,
            arrpc_enabled: true,
            arrpc_bridge_port: 1337,
            always_update_mod: false,
            minimize_to_tray: true,
            discord_branch: DiscordBranch::Stable,
            linux_backend: LinuxBackend::Auto,
            theme: Theme::Palladium,
            theme_discord: false,
        }
    }
}

impl Config {
    /// The page the Discord window opens: `PALLADIUM_URL` when it is set to
    /// something other than whitespace, else the branch's URL.
    pub fn start_url(&self, env_url: Option<&str>) -> (r: String)
        ensures
            r@ == match env_url {
                Some(u) => if blank(u@) {
                    self.discord_branch.url()@
                } else {
                    u@
                },
                None => self.discord_branch.url()@,
            },
    {
        match env_url {
            Some(u) => if is_blank(u) {
                self.discord_branch.url().to_owned()
            } else {
                u.to_owned()
            },
            None => self.discord_branch.url().to_owned(),
        }
    }
}

/// A change to the settings from the settings window: each field that is
/// present replaces the current value.
#[derive(Debug, Clone, Copy, PartialEq, Eq, Structural)]
pub struct ConfigPatch {
    pub client_mod: Option<ClientMod>,
    pub arrpc_enabled: Option<bool>,
    pub always_update_mod: Option<bool>,
    pub minimize_to_tray: Option<bool>,
    pub discord_branch: Option<DiscordBranch>,
    pub linux_backend: Option<LinuxBackend>,
    pub theme: Option<Theme>,
    pub theme_discord: Option<bool>,
}

impl Default for ConfigPatch {
    fn default() -> (r: ConfigPatch)
        ensures
            r == empty_patch(),
    {
        ConfigPatch {
            client_mod: None,
            arrpc_enabled: None,
            always_update_mod: None,
            minimize_to_tray: None,
            discord_branch: None,
            linux_backend: None,
            theme: None,
            theme_discord: None,
        }
    }
}

pub open spec fn empty_patch() -> ConfigPatch {
    ConfigPatch {
        client_mod: None,
        arrpc_enabled: None,
        always_update_mod: None,
        minimize_to_tray: None,
        discord_branch: None,
        linux_backend: None,
        theme: None,
        theme_discord: None,
    }
}

pub open spec fn or_keep<T>(v: Option<T>, cur: T) -> T {
    match v {
        Some(x) => x,
        None => cur,
    }
}

/// `true` when the patch sets a value different from `cur`.
pub open spec fn differs<T>(v: Option<T>, cur: T) -> bool {
    match v {
        Some(x) => x != cur,
        None => false,
    }
}

/// The settings after a patch.
pub open spec fn patched(c: Config, p: ConfigPatch) -> Config {
    Config {
        client_mod: or_keep(p.client_mod, c.client_mod),
        arrpc_enabled: or_keep(p.arrpc_enabled, c.arrpc_enabled),
        arrpc_bridge_port: c.arrpc_bridge_port,
        always_update_mod: or_keep(p.always_update_mod, c.always_update_mod),
        minimize_to_tray: or_keep(p.minimize_to_tray, c.minimize_to_tray),
        discord_branch: or_keep(p.discord_branch, c.discord_branch),
        linux_backend: or_keep(p.linux_backend, c.linux_backend),
        theme: or_keep(p.theme, c.theme),
        theme_discord: or_keep(p.theme_discord, c.theme_discord),
    }
}

/// What a patch changed, and so what the app has to do about it.
#[derive(Debug, Clone, Copy, PartialEq, Eq, Structural)]
pub struct PatchEffects {
    /// The client mod or the branch changed: the Discord window is rebuilt.
    pub reloading: bool,
    /// arRPC was switched or the backend changed: both take a restart.
    pub needs_restart: bool,
    /// The theme or Discord theming changed: the theme is re-applied live.
    pub theme_changed: bool,
}

pub open spec fn patch_effects(c: Config, p: ConfigPatch) -> PatchEffects {
    PatchEffects {
        reloading: differs(p.client_mod, c.client_mod) || differs(
            p.discord_branch,
            c.discord_branch,
        ),
        needs_restart: differs(p.arrpc_enabled, c.arrpc_enabled) || differs(
            p.linux_backend,
            c.linux_backend,
        ),
        theme_changed: differs(p.theme, c.theme) || differs(p.theme_discord, c.theme_discord),
    }
}

fn pick<T: Copy>(v: Option<T>, cur: T) -> (r: T)
    ensures
        r == or_keep(v, cur),
{
    match v {
        Some(x) => x,
        None => cur,
    }
}

/// Applies a patch from the settings window (`palladium_update_config`),
/// reporting what changed against the settings as they were.
pub fn apply_patch(config: &mut Config, patch: &ConfigPatch) -> (r: PatchEffects)
    ensures
        *final(config) == patched(*old(config), *patch),
        r == patch_effects(*old(config), *patch),
{
    let c = *config;
    let mod_changed = match patch.client_mod {
        Some(m) => m != c.client_mod,
        None => false,
    };
    let branch_changed = match patch.discord_branch {
        Some(b) => b != c.discord_branch,
        None => false,
    };
    let arrpc_changed = match patch.arrpc_enabled {
        Some(a) => a != c.arrpc_enabled,
        None => false,
    };
    let backend_changed = match patch.linux_backend {
        Some(b) => b != c.linux_backend,
        None => false,
    };
    let theme_changed = match patch.theme {
        Some(t) => t != c.theme,
        None => false,
    } || match patch.theme_discord {
        Some(d) => d != c.theme_discord,
        None => false,
    };
    *config = Config {
        client_mod: pick(patch.client_mod, c.client_mod),
        arrpc_enabled: pick(patch.arrpc_enabled, c.arrpc_enabled),
        arrpc_bridge_port: c.arrpc_bridge_port,
        always_update_mod: pick(patch.always_update_mod, c.always_update_mod),
        minimize_to_tray: pick(patch.minimize_to_tray, c.minimize_to_tray),
        discord_branch: pick(patch.discord_branch, c.discord_branch),
        linux_backend: pick(patch.linux_backend, c.linux_backend),
        theme: pick(patch.theme, c.theme),
        theme_discord: pick(patch.theme_discord, c.theme_discord),
    };
    PatchEffects {
        reloading: mod_changed || branch_changed,
        needs_restart: arrpc_changed || backend_changed,
        theme_changed,
    }
}

/// Applies the first-run choices (`palladium_finish_setup`): only the client
/// mod and arRPC are taken from the patch.
pub fn apply_setup(config: &mut Config, patch: &ConfigPatch) -> (r: ())
    ensures
        *final(config) == (Config {
            client_mod: or_keep(patch.client_mod, old(config).client_mod),
            arrpc_enabled: or_keep(patch.arrpc_enabled, old(config).arrpc_enabled),
            ..*old(config)
        }),
{
    if let Some(v) = patch.client_mod {
        config.client_mod = v;
    }
    if let Some(v) = patch.arrpc_enabled {
        config.arrpc_enabled = v;
    }
}

/// Applying a patch a second time changes nothing more and reports no
/// change.
pub proof fn lemma_patch_idempotent(c: Config, p: ConfigPatch)
    ensures
        patched(patched(c, p), p) == patched(c, p),
        patch_effects(patched(c, p), p) == (PatchEffects {
            reloading: false,
            needs_restart: false,
            theme_changed: false,
        }),
{
}

/// A patch whose fields equal the current settings reports no change, and
/// an empty patch leaves the settings as they are.
pub proof fn lemma_empty_patch(c: Config)
    ensures
        patched(c, empty_patch()) == c,
        patch_effects(c, empty_patch()) == (PatchEffects {
            reloading: false,
            needs_restart: false,
            theme_changed: false,
        }),
{
}

/// What a patch reports follows from what it changes: the Discord window
/// is rebuilt exactly when the client mod or the Discord branch in effect
/// changes, a restart is asked for exactly when arRPC is switched or the
/// Linux backend changes, and the theme is re-applied exactly when the theme
/// or Discord theming changes.
pub proof fn lemma_effects_follow_changes(c: Config, p: ConfigPatch)
    ensures
        ({
            let n = patched(c, p);
            let e = patch_effects(c, p);
            &&& e.reloading == (n.client_mod != c.client_mod || n.discord_branch
                != c.discord_branch)
            &&& e.needs_restart == (n.arrpc_enabled != c.arrpc_enabled || n.linux_backend
                != c.linux_backend)
            &&& e.theme_changed == (n.theme != c.theme || n.theme_discord != c.theme_discord)
        }),
        p.discord_branch matches Some(b) && b != c.discord_branch ==> patch_effects(c, p).reloading,
        p.client_mod matches Some(m) && m != c.client_mod ==> patch_effects(c, p).reloading,
{
}

} // verus!
