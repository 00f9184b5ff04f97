//! The colour themes, and the stylesheet that restyles Discord to match one.

use vstd::prelude::*;

use crate::config::Theme;
use crate::text::{has_suffix, push_str};

verus! {

/// The colours of a theme, as CSS values.
#[derive(Clone, Copy)]
pub struct Palette {
    pub primary: &'static str,
    pub secondary: &'static str,
    pub secondary_alt: &'static str,
    pub tertiary: &'static str,
    pub floating: &'static str,
    pub text: &'static str,
    pub text_muted: &'static str,
    pub header: &'static str,
    pub accent: &'static str,
    pub hover: &'static str,
    pub active: &'static str,
    pub border: &'static str,
    pub dark: bool,
}

impl Theme {
    /// The name of the theme in the config file and the settings window.
    #[verifier::allow_in_spec]
    pub fn slug(self) -> &'static str
        returns
            match self {
                Theme::Palladium => "palladium",
                Theme::Oxygen => "oxygen",
                Theme::Hydrogen => "hydrogen",
                Theme::Plutonium => "plutonium",
                Theme::Uranium => "uranium",
                Theme::Iron => "iron",
                Theme::Gallium => "gallium",
            },
    {
        match self {
            Theme::Palladium => "palladium",
            Theme::Oxygen => "oxygen",
            Theme::Hydrogen => "hydrogen",
            Theme::Plutonium => "plutonium",
            Theme::Uranium => "uranium",
            Theme::Iron => "iron",
            Theme::Gallium => "gallium",
        }
    }

    #[verifier::allow_in_spec]
    pub fn palette(self) -> Palette
        returns
            self.palette_of(),
    {
        match self {
            Theme::Palladium => Palette {
                primary: "#12071f",
                secondary: "#180c28",
                secondary_alt: "#1d0f31",
                tertiary: "#0a0413",
                floating: "#070210",
                text: "#e2d4f0",
                text_muted: "#9b7cc0",
                header: "#f3e9ff",
                accent: "#a855f7",
                hover: "rgba(216,180,254,0.07)",
                active: "rgba(216,180,254,0.12)",
                border: "rgba(140,60,200,0.35)",
                dark: true,
            },
            Theme::Oxygen => Palette {
                primary: "#ffffff",
                secondary: "#f4f4f6",
                secondary_alt: "#eaeaee",
                tertiary: "#f7f7f9",
                floating: "#ffffff",
                text: "#18181b",
                text_muted: "#6b7280",
                header: "#09090b",
                accent: "#3f3f46",
                hover: "rgba(0,0,0,0.05)",
                active: "rgba(0,0,0,0.09)",
                border: "rgba(0,0,0,0.12)",
                dark: false,
            },
            Theme::Hydrogen => Palette {
                primary: "#0a0a0b",
                secondary: "#111113",
                secondary_alt: "#18181b",
                tertiary: "#000000",
                floating: "#000000",
                text: "#fafafa",
                text_muted: "#a1a1aa",
                header: "#ffffff",
                accent: "#71717a",
                hover: "rgba(255,255,255,0.06)",
                active: "rgba(255,255,255,0.1)",
                border: "rgba(255,255,255,0.12)",
                dark: true,
            },
            Theme::Plutonium => Palette {
                primary: "#0a1230",
                secondary: "#0d1838",
                secondary_alt: "#122045",
                tertiary: "#060c20",
                floating: "#04091a",
                text: "#eaf1ff",
                text_muted: "#8fa9d8",
                header: "#ffffff",
                accent: "#3b7de0",
                hover: "rgba(107,163,255,0.08)",
                active: "rgba(107,163,255,0.14)",
                border: "rgba(80,130,220,0.35)",
                dark: true,
            },
            Theme::Uranium => Palette {
                primary: "#062617",
                secondary: "#08301d",
                secondary_alt: "#0b3d26",
                tertiary: "#031710",
                floating: "#02120b",
                text: "#e8fff2",
                text_muted: "#79c99a",
                header: "#ffffff",
                accent: "#1f9d55",
                hover: "rgba(95,255,160,0.08)",
                active: "rgba(95,255,160,0.14)",
                border: "rgba(60,200,120,0.32)",
                dark: true,
            },
            Theme::Iron => Palette {
                primary: "#141417",
                secondary: "#1a1a1e",
                secondary_alt: "#232328",
                tertiary: "#0b0b0d",
                floating: "#08080a",
                text: "#f4f4f5",
                text_muted: "#8b8f98",
                header: "#ffffff",
                accent: "#6b7280",
                hover: "rgba(255,255,255,0.05)",
                active: "rgba(255,255,255,0.09)",
                border: "rgba(255,255,255,0.1)",
                dark: true,
            },
            Theme::Gallium => Palette {
                primary: "#000000",
                secondary: "#000000",
                secondary_alt: "#000000",
                tertiary: "#000000",
                floating: "#000000",
                text: "#ffffff",
                text_muted: "rgba(255,255,255,0.62)",
                header: "#ffffff",
                accent: "#ffffff",
                hover: "rgba(255,255,255,0.08)",
                active: "rgba(255,255,255,0.14)",
                border: "rgba(255,255,255,0.5)",
                dark: true,
            },
        }
    }

    pub open spec fn palette_of(self) -> Palette {
        match self {
            Theme::Palladium => Palette {
                primary: "#12071f",
                secondary: "#180c28",
                secondary_alt: "#1d0f31",
                tertiary: "#0a0413",
                floating: "#070210",
                text: "#e2d4f0",
                text_muted: "#9b7cc0",
                header: "#f3e9ff",
                accent: "#a855f7",
                hover: "rgba(216,180,254,0.07)",
                active: "rgba(216,180,254,0.12)",
                border: "rgba(140,60,200,0.35)",
                dark: true,
            },
            Theme::Oxygen => Palette {
                primary: "#ffffff",
                secondary: "#f4f4f6",
                secondary_alt: "#eaeaee",
                tertiary: "#f7f7f9",
                floating: "#ffffff",
                text: "#18181b",
                text_muted: "#6b7280",
                header: "#09090b",
                accent: "#3f3f46",
                hover: "rgba(0,0,0,0.05)",
                active: "rgba(0,0,0,0.09)",
                border: "rgba(0,0,0,0.12)",
                dark: false,
            },
            Theme::Hydrogen => Palette {
                primary: "#0a0a0b",
                secondary: "#111113",
                secondary_alt: "#18181b",
                tertiary: "#000000",
                floating: "#000000",
                text: "#fafafa",
                text_muted: "#a1a1aa",
                header: "#ffffff",
                accent: "#71717a",
                hover: "rgba(255,255,255,0.06)",
                active: "rgba(255,255,255,0.1)",
                border: "rgba(255,255,255,0.12)",
                dark: true,
            },
            Theme::Plutonium => Palette {
                primary: "#0a1230",
                secondary: "#0d1838",
                secondary_alt: "#122045",
                tertiary: "#060c20",
                floating: "#04091a",
                text: "#eaf1ff",
                text_muted: "#8fa9d8",
                header: "#ffffff",
                accent: "#3b7de0",
                hover: "rgba(107,163,255,0.08)",
                active: "rgba(107,163,255,0.14)",
                border: "rgba(80,130,220,0.35)",
                dark: true,
            },
            Theme::Uranium => Palette {
                primary: "#062617",
                secondary: "#08301d",
                secondary_alt: "#0b3d26",
                tertiary: "#031710",
                floating: "#02120b",
                text: "#e8fff2",
                text_muted: "#79c99a",
                header: "#ffffff",
                accent: "#1f9d55",
                hover: "rgba(95,255,160,0.08)",
                active: "rgba(95,255,160,0.14)",
                border: "rgba(60,200,120,0.32)",
                dark: true,
            },
            Theme::Iron => Palette {
                primary: "#141417",
                secondary: "#1a1a1e",
                secondary_alt: "#232328",
                tertiary: "#0b0b0d",
                floating: "#08080a",
                text: "#f4f4f5",
                text_muted: "#8b8f98",
                header: "#ffffff",
                accent: "#6b7280",
                hover: "rgba(255,255,255,0.05)",
                active: "rgba(255,255,255,0.09)",
                border: "rgba(255,255,255,0.1)",
                dark: true,
            },
            Theme::Gallium => Palette {
                primary: "#000000",
                secondary: "#000000",
                secondary_alt: "#000000",
                tertiary: "#000000",
                floating: "#000000",
                text: "#ffffff",
                text_muted: "rgba(255,255,255,0.62)",
                header: "#ffffff",
                accent: "#ffffff",
                hover: "rgba(255,255,255,0.08)",
                active: "rgba(255,255,255,0.14)",
                border: "rgba(255,255,255,0.5)",
                dark: true,
            },
        }
    }

}

/// The colour-token overrides, given the palette and its colour scheme.
pub open spec fn token_css(p: Palette, scheme: Seq<char>) -> Seq<char> {
    ":root,.theme-dark,.theme-light,.visual-refresh{color-scheme:"@
        + scheme
        + ";--background-primary:"@
        + p.primary@
        + ";--background-secondary:"@
        + p.secondary@
        + ";--background-secondary-alt:"@
        + p.secondary_alt@
        + ";--background-tertiary:"@
        + p.tertiary@
        + ";--background-floating:"@
        + p.floating@
        + ";--background-nested-floating:"@
        + p.floating@
        + ";--background-accent:"@
        + p.accent@
        + ";--background-mentioned:"@
        + p.active@
        + ";--background-mentioned-hover:"@
        + p.hover@
        + ";--background-modifier-hover:"@
        + p.hover@
        + ";--background-modifier-active:"@
        + p.active@
        + ";--background-modifier-selected:"@
        + p.active@
        + ";--background-modifier-accent:"@
        + p.border@
        + ";--bg-base-primary:"@
        + p.primary@
        + ";--bg-base-secondary:"@
        + p.secondary@
        + ";--bg-base-tertiary:"@
        + p.tertiary@
        + ";--bg-surface-overlay:"@
        + p.floating@
        + ";--bg-overlay-chat:"@
        + p.primary@
        + ";--bg-mod-faint:"@
        + p.hover@
        + ";--bg-mod-subtle:"@
        + p.hover@
        + ";--bg-mod-strong:"@
        + p.active@
        + ";--bg-mod-chat:"@
        + p.secondary@
        + ";--text-normal:"@
        + p.text@
        + ";--text-default:"@
        + p.text@
        + ";--text-muted:"@
        + p.text_muted@
        + ";--text-secondary:"@
        + p.text_muted@
        + ";--text-feedback-muted:"@
        + p.text_muted@
        + ";--header-primary:"@
        + p.header@
        + ";--header-secondary:"@
        + p.text_muted@
        + ";--interactive-normal:"@
        + p.text@
        + ";--interactive-hover:"@
        + p.header@
        + ";--interactive-active:"@
        + p.header@
        + ";--interactive-muted:"@
        + p.text_muted@
        + ";--channels-default:"@
        + p.text_muted@
        + ";--channel-icon:"@
        + p.text_muted@
        + ";--channeltextarea-background:"@
        + p.secondary_alt@
        + ";--chat-background:"@
        + p.primary@
        + ";--chat-input-container-background:"@
        + p.primary@
        + ";--brand-experiment:"@
        + p.accent@
        + ";--brand-500:"@
        + p.accent@
        + ";--brand-experiment-500:"@
        + p.accent@
        + ";--button-filled-brand-background:"@
        + p.accent@
        + ";--border-subtle:"@
        + p.border@
        + ";--border-faint:"@
        + p.border@
        + ";--border-strong:"@
        + p.border@
        + ";--scrollbar-thin-thumb:"@
        + p.border@
        + ";--scrollbar-auto-thumb:"@
        + p.border@
        + ";--scrollbar-thin-track:transparent;--scrollbar-auto-track:transparent;--elevation-low:none;--elevation-medium:none;--elevation-high:none}"@
}

/// Gallium's white panel outlines; the other themes have none.
pub open spec fn outline_css(theme: Theme) -> Seq<char> {
    if theme == Theme::Gallium {
        "[class*=\"scroller\"] > [class*=\"container\"],[class*=\"chat_\"],[class*=\"sidebar\"],[class*=\"guilds_\"],[class*=\"panels_\"],[class*=\"membersWrap\"],[class*=\"channelTextArea\"],[class*=\"searchBar\"],[class*=\"card_\"],[class*=\"modal\"]{border:1px solid "@ + theme.palette().border@ + " !important}"@
    } else {
        Seq::empty()
    }
}

/// The stylesheet that makes Discord's own colours follow `theme`.
pub open spec fn discord_css_spec(theme: Theme) -> Seq<char> {
    let p = theme.palette();
    token_css(
        p,
        if p.dark {
            "dark"@
        } else {
            "light"@
        },
    ) + outline_css(theme)
}

/// The stylesheet that makes Discord's own colours follow `theme`.
pub fn discord_css(theme: Theme) -> (r: String)
    ensures
        r@ == discord_css_spec(theme),
{
    let p = theme.palette();
    let scheme = if p.dark {
        "dark"
    } else {
        "light"
    };
    let mut s = String::new();
    push_str(&mut s, ":root,.theme-dark,.theme-light,.visual-refresh{color-scheme:");
    push_str(&mut s, scheme);
    push_str(&mut s, ";--background-primary:");
    push_str(&mut s, p.primary);
    push_str(&mut s, ";--background-secondary:");
    push_str(&mut s, p.secondary);
    push_str(&mut s, ";--background-secondary-alt:");
    push_str(&mut s, p.secondary_alt);
    push_str(&mut s, ";--background-tertiary:");
    push_str(&mut s, p.tertiary);
    push_str(&mut s, ";--background-floating:");
    push_str(&mut s, p.floating);
    push_str(&mut s, ";--background-nested-floating:");
    push_str(&mut s, p.floating);
    push_str(&mut s, ";--background-accent:");
    push_str(&mut s, p.accent);
    push_str(&mut s, ";--background-mentioned:");
    push_str(&mut s, p.active);
    push_str(&mut s, ";--background-mentioned-hover:");
    push_str(&mut s, p.hover);
    push_str(&mut s, ";--background-modifier-hover:");
    push_str(&mut s, p.hover);
    push_str(&mut s, ";--background-modifier-active:");
    push_str(&mut s, p.active);
    push_str(&mut s, ";--background-modifier-selected:");
    push_str(&mut s, p.active);
    push_str(&mut s, ";--background-modifier-accent:");
    push_str(&mut s, p.border);
    push_str(&mut s, ";--bg-base-primary:");
    push_str(&mut s, p.primary);
    push_str(&mut s, ";--bg-base-secondary:");
    push_str(&mut s, p.secondary);
    push_str(&mut s, ";--bg-base-tertiary:");
    push_str(&mut s, p.tertiary);
    push_str(&mut s, ";--bg-surface-overlay:");
    push_str(&mut s, p.floating);
    push_str(&mut s, ";--bg-overlay-chat:");
    push_str(&mut s, p.primary);
    push_str(&mut s, ";--bg-mod-faint:");
    push_str(&mut s, p.hover);
    push_str(&mut s, ";--bg-mod-subtle:");
    push_str(&mut s, p.hover);
    push_str(&mut s, ";--bg-mod-strong:");
    push_str(&mut s, p.active);
    push_str(&mut s, ";--bg-mod-chat:");
    push_str(&mut s, p.secondary);
    push_str(&mut s, ";--text-normal:");
    push_str(&mut s, p.text);
    push_str(&mut s, ";--text-default:");
    push_str(&mut s, p.text);
    push_str(&mut s, ";--text-muted:");
    push_str(&mut s, p.text_muted);
    push_str(&mut s, ";--text-secondary:");
    push_str(&mut s, p.text_muted);
    push_str(&mut s, ";--text-feedback-muted:");
    push_str(&mut s, p.text_muted);
    push_str(&mut s, ";--header-primary:");
    push_str(&mut s, p.header);
    push_str(&mut s, ";--header-secondary:");
    push_str(&mut s, p.text_muted);
    push_str(&mut s, ";--interactive-normal:");
    push_str(&mut s, p.text);
    push_str(&mut s, ";--interactive-hover:");
    push_str(&mut s, p.header);
    push_str(&mut s, ";--interactive-active:");
    push_str(&mut s, p.header);
    push_str(&mut s, ";--interactive-muted:");
    push_str(&mut s, p.text_muted);
    push_str(&mut s, ";--channels-default:");
    push_str(&mut s, p.text_muted);
    push_str(&mut s, ";--channel-icon:");
    push_str(&mut s, p.text_muted);
    push_str(&mut s, ";--channeltextarea-background:");
    push_str(&mut s, p.secondary_alt);
    push_str(&mut s, ";--chat-background:");
    push_str(&mut s, p.primary);
    push_str(&mut s, ";--chat-input-container-background:");
    push_str(&mut s, p.primary);
    push_str(&mut s, ";--brand-experiment:");
    push_str(&mut s, p.accent);
    push_str(&mut s, ";--brand-500:");
    push_str(&mut s, p.accent);
    push_str(&mut s, ";--brand-experiment-500:");
    push_str(&mut s, p.accent);
    push_str(&mut s, ";--button-filled-brand-background:");
    push_str(&mut s, p.accent);
    push_str(&mut s, ";--border-subtle:");
    push_str(&mut s, p.border);
    push_str(&mut s, ";--border-faint:");
    push_str(&mut s, p.border);
    push_str(&mut s, ";--border-strong:");
    push_str(&mut s, p.border);
    push_str(&mut s, ";--scrollbar-thin-thumb:");
    push_str(&mut s, p.border);
    push_str(&mut s, ";--scrollbar-auto-thumb:");
    push_str(&mut s, p.border);
    push_str(&mut s, ";--scrollbar-thin-track:transparent;--scrollbar-auto-track:transparent;--elevation-low:none;--elevation-medium:none;--elevation-high:none}");
    if theme == Theme::Gallium {
        push_str(&mut s, "[class*=\"scroller\"] > [class*=\"container\"],[class*=\"chat_\"],[class*=\"sidebar\"],[class*=\"guilds_\"],[class*=\"panels_\"],[class*=\"membersWrap\"],[class*=\"channelTextArea\"],[class*=\"searchBar\"],[class*=\"card_\"],[class*=\"modal\"]{border:1px solid ");
        push_str(&mut s, p.border);
        push_str(&mut s, " !important}");
    }
    assert(s@ =~= discord_css_spec(theme));
    s
}

/// Each theme has a name of its own, so a name in the config file picks
/// out one theme.
pub proof fn lemma_slugs_distinct(a: Theme, b: Theme)
    requires
        a != b,
    ensures
        a.slug()@ != b.slug()@,
{
    reveal_strlit("palladium");
    reveal_strlit("oxygen");
    reveal_strlit("hydrogen");
    reveal_strlit("plutonium");
    reveal_strlit("uranium");
    reveal_strlit("iron");
    reveal_strlit("gallium");
    assert("palladium"@.len() == 9 && "plutonium"@.len() == 9 && "palladium"@[0] != "plutonium"@[1]
        && "palladium"@[1] != "plutonium"@[1]);
    assert("oxygen"@.len() == 6 && "hydrogen"@.len() == 8 && "iron"@.len() == 4);
    assert("uranium"@.len() == 7 && "gallium"@.len() == 7 && "uranium"@[0] != "gallium"@[0]);
}

/// No theme's Discord stylesheet is empty.
#[verifier::rlimit(50)]
pub proof fn lemma_discord_css_nonempty(theme: Theme)
    ensures
        discord_css_spec(theme).len() > 0,
{
    reveal_strlit(":root,.theme-dark,.theme-light,.visual-refresh{color-scheme:");
    assert(":root,.theme-dark,.theme-light,.visual-refresh{color-scheme:"@.len() > 0);
}

/// Gallium, and only Gallium, outlines Discord's panels: its stylesheet ends
/// with a rule that gives the panels a one-pixel border in Gallium's border
/// colour, while every other theme's stylesheet ends with the colour tokens
/// and carries no such `!important` rule at its end.
#[verifier::rlimit(50)]
pub proof fn lemma_only_gallium_outlines_panels(t: Theme)
    ensures
        has_suffix(
            discord_css_spec(Theme::Gallium),
            "[class*=\"scroller\"] > [class*=\"container\"],[class*=\"chat_\"],[class*=\"sidebar\"],[class*=\"guilds_\"],[class*=\"panels_\"],[class*=\"membersWrap\"],[class*=\"channelTextArea\"],[class*=\"searchBar\"],[class*=\"card_\"],[class*=\"modal\"]{border:1px solid "@
                + Theme::Gallium.palette().border@ + " !important}"@,
        ),
        t != Theme::Gallium ==> !has_suffix(discord_css_spec(t), " !important}"@),
{
    let g = Theme::Gallium;
    let gp = g.palette();
    let gtok = token_css(gp, if gp.dark { "dark"@ } else { "light"@ });
    let rule = "[class*=\"scroller\"] > [class*=\"container\"],[class*=\"chat_\"],[class*=\"sidebar\"],[class*=\"guilds_\"],[class*=\"panels_\"],[class*=\"membersWrap\"],[class*=\"channelTextArea\"],[class*=\"searchBar\"],[class*=\"card_\"],[class*=\"modal\"]{border:1px solid "@
        + gp.border@ + " !important}"@;
    assert(outline_css(g) == rule);
    assert(discord_css_spec(g) == gtok + rule);
    assert((gtok + rule).skip((gtok + rule).len() - rule.len()) =~= rule);
    if t != Theme::Gallium {
        let p = t.palette();
        let tail = ";--scrollbar-thin-track:transparent;--scrollbar-auto-track:transparent;--elevation-low:none;--elevation-medium:none;--elevation-high:none}"@;
        let css = discord_css_spec(t);
        let tok = token_css(p, if p.dark { "dark"@ } else { "light"@ });
        assert(outline_css(t) == Seq::<char>::empty());
        assert(css =~= tok);
        reveal_strlit(";--scrollbar-thin-track:transparent;--scrollbar-auto-track:transparent;--elevation-low:none;--elevation-medium:none;--elevation-high:none}");
        reveal_strlit(" !important}");
        assert(tail[tail.len() - 2] == 'e');
        assert(" !important}"@[10] == 't');
        assert(tok[tok.len() - 2] == tail[tail.len() - 2]);
        if has_suffix(css, " !important}"@) {
            assert(css.skip(css.len() - 12)[10] == css[css.len() - 2]);
        }
    }
}

} // verus!
