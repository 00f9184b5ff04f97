//! Carrying settings over from Vesktop or Equibop.

use vstd::prelude::*;

use crate::config::{Config, DiscordBranch};
use crate::json::{view_fields, Json, JsonV};
use crate::text::str_eq;

verus! {

#[derive(Debug, Clone, Copy, PartialEq, Eq, Structural)]
pub enum ImportSource {
    Vesktop,
    Equibop,
}

impl ImportSource {
    /// Every source, in the order they are offered.
    pub fn all() -> (r: [ImportSource; 2])
        ensures
            r@ == seq![ImportSource::Equibop, ImportSource::Vesktop],
    {
        let r = [ImportSource::Equibop, ImportSource::Vesktop];
        assert(r@ =~= seq![ImportSource::Equibop, ImportSource::Vesktop]);
        r
    }

    #[verifier::allow_in_spec]
    pub fn display_name(self) -> &'static str
        returns
            match self {
                ImportSource::Vesktop => "vesktop",
                ImportSource::Equibop => "equibop",
            },
    {
        match self {
            ImportSource::Vesktop => "vesktop",
            ImportSource::Equibop => "equibop",
        }
    }

    /// The names its config directory may have, in the order they are tried.
    pub fn dir_names(self) -> (r: [&'static str; 2])
        ensures
            r@ == match self {
                ImportSource::Vesktop => seq!["vesktop", "Vesktop"],
                ImportSource::Equibop => seq!["equibop", "Equibop"],
            },
    {
        let r = match self {
            ImportSource::Vesktop => ["vesktop", "Vesktop"],
            ImportSource::Equibop => ["equibop", "Equibop"],
        };
        assert(r@ =~= match self {
            ImportSource::Vesktop => seq!["vesktop", "Vesktop"],
            ImportSource::Equibop => seq!["equibop", "Equibop"],
        });
        r
    }
}

/// A source found on this machine, with what it would bring along.
pub struct Available {
    pub id: ImportSource,
    pub name: &'static str,
    pub plugins: usize,
    pub themes: usize,
    pub quick_css: bool,
}

/// What an import hands back for seeding into the webview.
pub struct Imported {
    pub mod_settings: Option<String>,
    pub quick_css: Option<String>,
}

/// Imported client mod settings waiting for the next launch.
pub struct Pending {
    pub mod_settings: Option<String>,
    pub quick_css: Option<String>,
}

/// How many plugins are switched on: entries of `plugins` whose `enabled`
/// is `true`.
pub open spec fn enabled_count(plugins: Seq<(Seq<char>, JsonV)>) -> nat
    decreases plugins.len(),
{
    if plugins.len() == 0 {
        0
    } else {
        enabled_count(plugins.drop_last()) + if plugins.last().1.get("enabled"@) == Some(
            JsonV::Bool(true),
        ) {
            1nat
        } else {
            0nat
        }
    }
}

pub open spec fn plugin_count(settings: JsonV) -> nat {
    match settings.get("plugins"@) {
        Some(JsonV::Object(f)) => enabled_count(f),
        _ => 0,
    }
}

pub open spec fn theme_count(settings: JsonV) -> nat {
    match settings.get("enabledThemes"@) {
        Some(JsonV::Array(a)) => a.len(),
        _ => 0,
    }
}

fn count_enabled(fields: &Vec<(String, Json)>) -> (r: usize)
    ensures
        r == enabled_count(view_fields(fields@)),
{
    let ghost f = view_fields(fields@);
    let mut n: usize = 0;
    let mut i: usize = 0;
    proof {
        crate::json::lemma_view_fields(fields@);
    }
    while i < fields.len()
        invariant
            f == view_fields(fields@),
            f.len() == fields@.len(),
            i <= fields@.len(),
            n == enabled_count(f.take(i as int)),
            n <= i,
        decreases fields@.len() - i,
    {
        proof {
            crate::json::lemma_view_fields(fields@);
        }
        let on = match fields[i].1.get("enabled") {
            Some(v) => match v.as_bool() {
                Some(b) => b,
                None => false,
            },
            None => false,
        };
        assert(f.take(i + 1).drop_last() =~= f.take(i as int));
        assert(f.take(i + 1).last() == f[i as int]);
        if on {
            n = n + 1;
        }
        i = i + 1;
    }
    assert(f.take(i as int) =~= f);
    n
}

/// The number of plugins switched on in a client mod's settings.
pub fn count_plugins(settings: &Json) -> (r: usize)
    ensures
        r == plugin_count(settings@),
{
    match settings.get("plugins") {
        Some(p) => match p.as_object() {
            Some(f) => count_enabled(f),
            None => 0,
        },
        None => 0,
    }
}

/// The number of themes switched on in a client mod's settings.
pub fn count_themes(settings: &Json) -> (r: usize)
    ensures
        r == theme_count(settings@),
{
    match settings.get("enabledThemes") {
        Some(t) => match t.as_array() {
            Some(a) => {
                proof {
                    crate::json::lemma_view_items(a@);
                }
                a.len()
            },
            None => 0,
        },
        None => 0,
    }
}

impl Available {
    /// What a found source offers, from its client mod settings (when they
    /// could be read) and whether it has QuickCSS.
    pub fn describe(source: ImportSource, mod_settings: Option<&Json>, quick_css: bool) -> (r:
        Available)
        ensures
            r.id == source,
            r.name == source.display_name(),
            r.plugins == match mod_settings {
                Some(s) => plugin_count(s@),
                None => 0,
            },
            r.themes == match mod_settings {
                Some(s) => theme_count(s@),
                None => 0,
            },
            r.quick_css == quick_css,
    {
        let (plugins, themes) = match mod_settings {
            Some(s) => (count_plugins(s), count_themes(s)),
            None => (0, 0),
        };
        Available { id: source, name: source.display_name(), plugins, themes, quick_css }
    }
}

/// The branch named in Vesktop's settings: `ptb`, `canary`, anything else
/// stable.
pub open spec fn branch_named(b: Seq<char>) -> DiscordBranch {
    if b == "ptb"@ {
        DiscordBranch::Ptb
    } else if b == "canary"@ {
        DiscordBranch::Canary
    } else {
        DiscordBranch::Stable
    }
}

/// The settings after taking over what maps cleanly from a Vesktop or
/// Equibop `settings.json`: the branch, tray behaviour and arRPC, where
/// Equibop's inverted `arRPCDisabled` wins over `arRPC`.
pub open spec fn imported_config(c: Config, v: JsonV) -> Config {
    let branch = match v.get("discordBranch"@) {
        Some(JsonV::Str(b)) => branch_named(b),
        _ => c.discord_branch,
    };
    let tray = match v.get("minimizeToTray"@) {
        Some(JsonV::Bool(t)) => t,
        _ => c.minimize_to_tray,
    };
    let arrpc = match v.get("arRPCDisabled"@) {
        Some(JsonV::Bool(d)) => !d,
        _ => match v.get("arRPC"@) {
            Some(JsonV::Bool(on)) => on,
            _ => c.arrpc_enabled,
        },
    };
    Config { discord_branch: branch, minimize_to_tray: tray, arrpc_enabled: arrpc, ..c }
}

/// Takes over the settings that map cleanly from a client's `settings.json`.
pub fn apply_client_settings(config: &mut Config, v: &Json)
    ensures
        *final(config) == imported_config(*old(config), v@),
{
    match v.get("discordBranch") {
        Some(b) => match b.as_str() {
            Some(name) => {
                config.discord_branch = if str_eq(name, "ptb") {
                    DiscordBranch::Ptb
                } else if str_eq(name, "canary") {
                    DiscordBranch::Canary
                } else {
                    DiscordBranch::Stable
                };
            },
            None => {},
        },
        None => {},
    }
    match v.get("minimizeToTray") {
        Some(t) => match t.as_bool() {
            Some(tray) => {
                config.minimize_to_tray = tray;
            },
            None => {},
        },
        None => {},
    }
    let disabled = match v.get("arRPCDisabled") {
        Some(d) => d.as_bool(),
        None => None,
    };
    match disabled {
        Some(d) => {
            config.arrpc_enabled = !d;
        },
        None => match v.get("arRPC") {
            Some(a) => match a.as_bool() {
                Some(on) => {
                    config.arrpc_enabled = on;
                },
                None => {},
            },
            None => {},
        },
    }
}

/// Equibop's `arRPCDisabled` decides arRPC whenever it is present, whatever
/// `arRPC` says.
pub proof fn lemma_disabled_key_wins(c: Config, v: JsonV, d: bool)
    requires
        v.get("arRPCDisabled"@) == Some(JsonV::Bool(d)),
    ensures
        imported_config(c, v).arrpc_enabled == !d,
{
}

/// Importing touches nothing but the branch, tray behaviour and arRPC.
pub proof fn lemma_import_keeps_the_rest(c: Config, v: JsonV)
    ensures
        imported_config(c, v).client_mod == c.client_mod,
        imported_config(c, v).arrpc_bridge_port == c.arrpc_bridge_port,
        imported_config(c, v).always_update_mod == c.always_update_mod,
        imported_config(c, v).linux_backend == c.linux_backend,
        imported_config(c, v).theme == c.theme,
        imported_config(c, v).theme_discord == c.theme_discord,
{
}

/// The branch a client was set to is taken over as named: `ptb` gives PTB,
/// `canary` Canary, any other name Stable, and a settings file that names
/// no branch leaves the branch as it was.
pub proof fn lemma_branch_taken_by_name(c: Config, v: JsonV)
    ensures
        v.get("discordBranch"@) == Some(JsonV::Str("ptb"@)) ==> imported_config(c, v).discord_branch
            == DiscordBranch::Ptb,
        v.get("discordBranch"@) == Some(JsonV::Str("canary"@)) ==> imported_config(
            c,
            v,
        ).discord_branch == DiscordBranch::Canary,
        (v.get("discordBranch"@) matches Some(JsonV::Str(b)) && b != "ptb"@ && b != "canary"@)
            ==> imported_config(c, v).discord_branch == DiscordBranch::Stable,
        !(v.get("discordBranch"@) matches Some(JsonV::Str(_))) ==> imported_config(
            c,
            v,
        ).discord_branch == c.discord_branch,
{
    reveal_strlit("ptb");
    reveal_strlit("canary");
    assert("ptb"@ != "canary"@) by {
        assert("ptb"@.len() != "canary"@.len());
    }
}

} // verus!
