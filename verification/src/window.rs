//! Decisions the app makes about its windows: which links stay inside,
//! window titles, the scripts it evaluates in pages, and the tray menu.

use vstd::prelude::*;

use crate::config::Config;
use crate::inject::{theme_css_for, theme_css_spec};
use crate::json::{string_literal, string_literal_spec};
use crate::text::{
    blank, chars_of, decimal, ends_with, has_suffix, is_blank, push_decimal, push_str, str_eq,
};

verus! {

/// Hosts that belong to Discord: their pop-ups open as child windows, all
/// others in the system browser.
pub open spec fn discord_host(host: Seq<char>) -> bool {
    host == "discord.com"@ || has_suffix(host, ".discord.com"@) || has_suffix(
        host,
        ".discordapp.com"@,
    ) || has_suffix(host, ".discordapp.net"@)
}

pub fn opens_in_app(host: &str) -> (r: bool)
    ensures
        r == discord_host(host@),
{
    str_eq(host, "discord.com") || ends_with(host, ".discord.com") || ends_with(
        host,
        ".discordapp.com",
    ) || ends_with(host, ".discordapp.net")
}

/// The Discord window's title for a document title.
pub open spec fn window_title_spec(title: Seq<char>) -> Seq<char> {
    if blank(title) {
        "palladium"@
    } else {
        title + " \u{2014} palladium"@
    }
}

pub fn window_title(title: &str) -> (r: String)
    ensures
        r@ == window_title_spec(title@),
{
    if is_blank(title) {
        "palladium".to_owned()
    } else {
        let mut s = String::new();
        push_str(&mut s, title);
        push_str(&mut s, " \u{2014} palladium");
        s
    }
}

/// The script that re-applies the Discord theme in a running page.
pub open spec fn theme_update_script_spec(cfg: Config) -> Seq<char> {
    "window.__PALLADIUM_SET_THEME__ && window.__PALLADIUM_SET_THEME__("@ + string_literal_spec(
        theme_css_spec(cfg),
    ) + ")"@
}

pub fn theme_update_script(cfg: &Config) -> (r: String)
    ensures
        r@ == theme_update_script_spec(*cfg),
{
    let css = theme_css_for(cfg);
    let mut s = String::new();
    push_str(&mut s, "window.__PALLADIUM_SET_THEME__ && window.__PALLADIUM_SET_THEME__(");
    push_str(&mut s, string_literal(css.as_str()).as_str());
    push_str(&mut s, ")");
    assert(s@ =~= theme_update_script_spec(*cfg));
    s
}

/// The script that shows a start-up error on the splash screen.
pub open spec fn splash_error_script_spec(message: Seq<char>) -> Seq<char> {
    "window.palladiumError && window.palladiumError("@ + string_literal_spec(message) + ")"@
}

pub fn splash_error_script(message: &str) -> (r: String)
    ensures
        r@ == splash_error_script_spec(message@),
{
    let mut s = String::new();
    push_str(&mut s, "window.palladiumError && window.palladiumError(");
    push_str(&mut s, string_literal(message).as_str());
    push_str(&mut s, ")");
    assert(s@ =~= splash_error_script_spec(message@));
    s
}

/// The characters an invite or template code may have.
pub open spec fn code_char(c: char) -> bool {
    ('a' <= c && c <= 'z') || ('A' <= c && c <= 'Z') || ('0' <= c && c <= '9') || c == '-' || c
        == '_'
}

pub open spec fn valid_code(code: Seq<char>) -> bool {
    forall|i: int| 0 <= i < code.len() ==> code_char(#[trigger] code[i])
}

/// The navigation to an invite or guild template.
pub open spec fn invite_script_spec(code: Seq<char>, is_invite: bool) -> Seq<char> {
    "location.assign('https://discord.com/"@ + (if is_invite {
        "invite"@
    } else {
        "template"@
    }) + "/"@ + code + "')"@
}

/// The navigation script for an invite that an RPC client asked to open, or
/// none when the code holds anything but letters, digits, `-` and `_`, as
/// it comes from an untrusted local process.
pub fn invite_script(code: &str, is_invite: bool) -> (r: Option<String>)
    ensures
        match r {
            Some(s) => valid_code(code@) && s@ == invite_script_spec(code@, is_invite),
            None => !valid_code(code@),
        },
{
    let cs = chars_of(code);
    let mut i: usize = 0;
    while i < cs.len()
        invariant
            cs@ == code@,
            i <= cs@.len(),
            forall|j: int| 0 <= j < i ==> code_char(#[trigger] code@[j]),
        decreases cs@.len() - i,
    {
        let c = cs[i];
        if !(('a' <= c && c <= 'z') || ('A' <= c && c <= 'Z') || ('0' <= c && c <= '9') || c
            == '-' || c == '_') {
            return None;
        }
        i = i + 1;
    }
    let mut s = String::new();
    push_str(&mut s, "location.assign('https://discord.com/");
    push_str(
        &mut s,
        if is_invite {
            "invite"
        } else {
            "template"
        },
    );
    push_str(&mut s, "/");
    push_str(&mut s, code);
    push_str(&mut s, "')");
    assert(s@ =~= invite_script_spec(code@, is_invite));
    Some(s)
}

/// The quote that delimits the navigation's URL never occurs in an accepted
/// code, so the code cannot end the string and run script of its own.
pub proof fn lemma_invite_code_cannot_escape(code: Seq<char>, is_invite: bool)
    requires
        valid_code(code),
    ensures
        forall|i: int| 0 <= i < code.len() ==> #[trigger] code[i] != '\'' && code[i] != '\\',
{
}

/// Whether closing a window only hides it: the Discord window, when
/// minimising to the tray is on.
pub fn hides_on_close(label: &str, minimize_to_tray: bool) -> (r: bool)
    ensures
        r == (label@ == "main"@ && minimize_to_tray),
{
    str_eq(label, "main") && minimize_to_tray
}

/// The tray menu's entries.
#[derive(Debug, Clone, Copy, PartialEq, Eq, Structural)]
pub enum TrayAction {
    Open,
    Settings,
    Reload,
    Quit,
}

impl TrayAction {
    #[verifier::allow_in_spec]
    pub fn menu_id(self) -> &'static str
        returns
            match self {
                TrayAction::Open => "open",
                TrayAction::Settings => "settings",
                TrayAction::Reload => "reload",
                TrayAction::Quit => "quit",
            },
    {
        match self {
            TrayAction::Open => "open",
            TrayAction::Settings => "settings",
            TrayAction::Reload => "reload",
            TrayAction::Quit => "quit",
        }
    }

    #[verifier::allow_in_spec]
    pub fn label(self) -> &'static str
        returns
            match self {
                TrayAction::Open => "open discord",
                TrayAction::Settings => "palladium settings",
                TrayAction::Reload => "reload",
                TrayAction::Quit => "quit palladium",
            },
    {
        match self {
            TrayAction::Open => "open discord",
            TrayAction::Settings => "palladium settings",
            TrayAction::Reload => "reload",
            TrayAction::Quit => "quit palladium",
        }
    }

    /// The action a menu event names, if any.
    pub fn from_menu_id(id: &str) -> (r: Option<TrayAction>)
        ensures
            r == if id@ == "quit"@ {
                Some(TrayAction::Quit)
            } else if id@ == "open"@ {
                Some(TrayAction::Open)
            } else if id@ == "reload"@ {
                Some(TrayAction::Reload)
            } else if id@ == "settings"@ {
                Some(TrayAction::Settings)
            } else {
                None
            },
    {
        if str_eq(id, "quit") {
            Some(TrayAction::Quit)
        } else if str_eq(id, "open") {
            Some(TrayAction::Open)
        } else if str_eq(id, "reload") {
            Some(TrayAction::Reload)
        } else if str_eq(id, "settings") {
            Some(TrayAction::Settings)
        } else {
            None
        }
    }
}

/// Every tray entry's id leads back to that entry.
pub proof fn lemma_tray_ids_roundtrip(a: TrayAction)
    ensures
        (if a.menu_id()@ == "quit"@ {
            Some(TrayAction::Quit)
        } else if a.menu_id()@ == "open"@ {
            Some(TrayAction::Open)
        } else if a.menu_id()@ == "reload"@ {
            Some(TrayAction::Reload)
        } else if a.menu_id()@ == "settings"@ {
            Some(TrayAction::Settings)
        } else {
            None
        }) == Some(a),
{
    reveal_strlit("quit");
    reveal_strlit("open");
    reveal_strlit("reload");
    reveal_strlit("settings");
    assert("open"@[0] != "quit"@[0]);
    assert("reload"@.len() != "quit"@.len() && "reload"@.len() != "open"@.len());
    assert("settings"@.len() != "quit"@.len() && "settings"@.len() != "open"@.len()
        && "settings"@.len() != "reload"@.len());
}

/// How many `discord-ipc-N` slots the IPC server tries.
pub const IPC_SLOTS: u32 = 10;

/// The name of IPC slot `i`: `discord-ipc-` and the slot's number.
pub fn ipc_slot_name(i: u32) -> (r: String)
    ensures
        r@ == "discord-ipc-"@ + decimal(i as nat),
{
    let mut s = String::new();
    push_str(&mut s, "discord-ipc-");
    push_decimal(&mut s, i as u64);
    s
}

} // verus!
