//! The script evaluated in the Discord webview before its own code: the
//! imported settings seed, the local endpoint shim, the voice shim, the theme
//! runtime and the client mod itself.

use vstd::prelude::*;

use crate::config::Config;
use crate::import::Pending;
use crate::json::{string_literal, string_literal_spec};
use crate::mods::ModBundle;
use crate::text::{push_str, replace, replace_spec};
use crate::theme::{discord_css, discord_css_spec};

verus! {

/// The version reported to the page in `window.__PALLADIUM__`.
pub const APP_VERSION: &'static str = "0.1.0";

/// The placeholder in the endpoint shim that stands for the endpoint's base
/// URL.
pub const PROXY_BASE_PLACEHOLDER: &'static str = "__PALLADIUM_PROXY_BASE__";

/// Installs `window.__PALLADIUM_SET_THEME__`, which (re)applies the Discord
/// theme stylesheet.
pub const THEME_RUNTIME: &'static str = r#"(function(){
  if (window.__PALLADIUM_SET_THEME__) return;
  var sheet = null;
  var tag = null;
  window.__PALLADIUM_SET_THEME__ = function (css) {
    try {
      if (!sheet) {
        sheet = new CSSStyleSheet();
        document.adoptedStyleSheets = document.adoptedStyleSheets.concat(sheet);
      }
      sheet.replaceSync(css || "");
      return;
    } catch (e) {}
    var target = document.head || document.documentElement;
    if (!target) return;
    if (!tag) {
      tag = document.createElement("style");
      tag.id = "palladium-theme";
      target.appendChild(tag);
    }
    tag.textContent = css || "";
  };
})();
"#;

/// The browser's user agent: a current desktop Chrome, as Discord expects.
pub fn user_agent() -> (r: &'static str)
    ensures
        r@ == "Mozilla/5.0 (Windows NT 10.0; Win64; x64) AppleWebKit/537.36 (KHTML, like Gecko) Chrome/150.0.0.0 Safari/537.36"@,
{
    "Mozilla/5.0 (Windows NT 10.0; Win64; x64) AppleWebKit/537.36 (KHTML, like Gecko) Chrome/150.0.0.0 Safari/537.36"
}

/// The stylesheet that themes Discord itself: empty unless the user opted in.
pub open spec fn theme_css_spec(cfg: Config) -> Seq<char> {
    if cfg.theme_discord {
        discord_css_spec(cfg.theme)
    } else {
        Seq::empty()
    }
}

pub fn theme_css_for(cfg: &Config) -> (r: String)
    ensures
        r@ == theme_css_spec(*cfg),
{
    if cfg.theme_discord {
        discord_css(cfg.theme)
    } else {
        String::new()
    }
}

/// The theme runtime followed by a call that applies the configured theme.
pub open spec fn theme_script_spec(cfg: Config) -> Seq<char> {
    THEME_RUNTIME@ + "window.__PALLADIUM_SET_THEME__("@ + string_literal_spec(theme_css_spec(cfg))
        + ");\n"@
}

pub fn theme_script(cfg: &Config) -> (r: String)
    ensures
        r@ == theme_script_spec(*cfg),
{
    let css = theme_css_for(cfg);
    let mut out = String::new();
    push_str(&mut out, THEME_RUNTIME);
    push_str(&mut out, "window.__PALLADIUM_SET_THEME__(");
    push_str(&mut out, string_literal(css.as_str()).as_str());
    push_str(&mut out, ");\n");
    assert(out@ =~= theme_script_spec(*cfg));
    out
}

/// The endpoint shim pointed at the local endpoint, or nothing when the
/// endpoint is not running.
pub open spec fn proxy_script_spec(shim: Seq<char>, base: Option<Seq<char>>) -> Seq<char> {
    match base {
        Some(b) => replace_spec(shim, PROXY_BASE_PLACEHOLDER@, b),
        None => Seq::empty(),
    }
}

pub fn proxy_script(shim: &str, base: Option<&str>) -> (r: String)
    ensures
        r@ == proxy_script_spec(shim@, match base {
            Some(b) => Some(b@),
            None => None,
        }),
{
    proof {
        reveal_strlit("__PALLADIUM_PROXY_BASE__");
    }
    match base {
        Some(b) => replace(shim, PROXY_BASE_PLACEHOLDER, b),
        None => String::new(),
    }
}

/// A `localStorage.setItem` statement for one seeded value.
pub open spec fn seed_line(key: Seq<char>, value: Seq<char>) -> Seq<char> {
    "localStorage.setItem('"@ + key + "', "@ + string_literal_spec(value) + ");\n"@
}

/// The script that seeds imported client mod settings and QuickCSS into
/// `localStorage`, or nothing when nothing is pending.
pub open spec fn seed_script_spec(settings: Option<Seq<char>>, css: Option<Seq<char>>) -> Seq<char> {
    if settings is None && css is None {
        Seq::empty()
    } else {
        "(function(){try{\n"@ + match settings {
            Some(s) => seed_line("VencordSettings"@, s),
            None => Seq::empty(),
        } + match css {
            Some(c) => seed_line("VencordQuickCss"@, c),
            None => Seq::empty(),
        } + "}catch(e){console.warn('[palladium] seed failed',e);}})();\n"@
    }
}

pub open spec fn opt_view(o: Option<String>) -> Option<Seq<char>> {
    match o {
        Some(s) => Some(s@),
        None => None,
    }
}

fn push_seed_line(out: &mut String, key: &str, value: &str)
    ensures
        final(out)@ == old(out)@ + seed_line(key@, value@),
{
    push_str(out, "localStorage.setItem('");
    push_str(out, key);
    push_str(out, "', ");
    push_str(out, string_literal(value).as_str());
    push_str(out, ");\n");
    assert(final(out)@ =~= old(out)@ + seed_line(key@, value@));
}

pub fn seed_script(pending: &Pending) -> (r: String)
    ensures
        r@ == seed_script_spec(opt_view(pending.mod_settings), opt_view(pending.quick_css)),
{
    if pending.mod_settings.is_none() && pending.quick_css.is_none() {
        return String::new();
    }
    let mut out = String::new();
    push_str(&mut out, "(function(){try{\n");
    let ghost a = out@;
    match &pending.mod_settings {
        Some(s) => push_seed_line(&mut out, "VencordSettings", s.as_str()),
        None => {},
    }
    let ghost b = out@;
    match &pending.quick_css {
        Some(c) => push_seed_line(&mut out, "VencordQuickCss", c.as_str()),
        None => {},
    }
    let ghost c = out@;
    push_str(&mut out, "}catch(e){console.warn('[palladium] seed failed',e);}})();\n");
    assert(out@ =~= seed_script_spec(opt_view(pending.mod_settings), opt_view(pending.quick_css)));
    out
}

/// The bootstrap that records the mod and injects its stylesheet, followed
/// by the mod's own script.
pub open spec fn bootstrap_spec(b: ModBundle) -> Seq<char> {
    "\n(function () {\n  \"use strict\";\n\n  if (window.__PALLADIUM__) return;\n  window.__PALLADIUM__ = { mod: "@
        + string_literal_spec(b.client_mod.display_name()@)
        + ", version: "@
        + string_literal_spec(APP_VERSION@)
        + " };\n\n  var css = "@
        + string_literal_spec(b.css@)
        + ";\n  if (!css) return;\n\n  function injectCss() {\n    try {\n      var sheet = new CSSStyleSheet();\n      sheet.replaceSync(css);\n      document.adoptedStyleSheets = document.adoptedStyleSheets.concat(sheet);\n      return true;\n    } catch (e) {\n      var target = document.head || document.documentElement;\n      if (!target) return false;\n      var style = document.createElement(\"style\");\n      style.id = \"palladium-mod-css\";\n      style.textContent = css;\n      target.appendChild(style);\n      return true;\n    }\n  }\n\n  if (!injectCss()) {\n    document.addEventListener(\"DOMContentLoaded\", injectCss, { once: true });\n  }\n})();\n\n"@
        + b.js@
        + "\n"@
}

/// The whole initialisation script: seed, endpoint shim, voice shim and theme
/// runtime, then, with a client mod, its bootstrap and script.
pub open spec fn build_script_spec(
    bundle: Option<ModBundle>,
    cfg: Config,
    pending: Pending,
    proxy_shim: Seq<char>,
    base: Option<Seq<char>>,
    voice_shim: Seq<char>,
) -> Seq<char> {
    let prelude = seed_script_spec(opt_view(pending.mod_settings), opt_view(pending.quick_css))
        + proxy_script_spec(proxy_shim, base) + voice_shim + theme_script_spec(cfg);
    match bundle {
        None => prelude,
        Some(b) => prelude + bootstrap_spec(b),
    }
}

/// Builds the initialisation script. `pending` is the imported settings
/// taken for this launch, `proxy_base` the local endpoint's base URL when it
/// runs, and the two shims the page scripts shipped with the app.
pub fn build_script(
    bundle: Option<&ModBundle>,
    cfg: &Config,
    pending: &Pending,
    proxy_shim: &str,
    proxy_base: Option<&str>,
    voice_shim: &str,
) -> (r: String)
    ensures
        r@ == build_script_spec(
            match bundle {
                Some(b) => Some(*b),
                None => None,
            },
            *cfg,
            *pending,
            proxy_shim@,
            match proxy_base {
                Some(b) => Some(b@),
                None => None,
            },
            voice_shim@,
        ),
{
    let seed = seed_script(pending);
    let proxy = proxy_script(proxy_shim, proxy_base);
    let theme = theme_script(cfg);
    let mut out = String::new();
    push_str(&mut out, seed.as_str());
    push_str(&mut out, proxy.as_str());
    push_str(&mut out, voice_shim);
    push_str(&mut out, theme.as_str());
    let ghost prelude = out@;
    match bundle {
        None => {},
        Some(bundle) => {
            let name_literal = string_literal(bundle.client_mod.display_name());
            let version_literal = string_literal(APP_VERSION);
            let css_literal = string_literal(bundle.css.as_str());
            push_str(&mut out, "\n(function () {\n  \"use strict\";\n\n  if (window.__PALLADIUM__) return;\n  window.__PALLADIUM__ = { mod: ");
            push_str(&mut out, name_literal.as_str());
            push_str(&mut out, ", version: ");
            push_str(&mut out, version_literal.as_str());
            push_str(&mut out, " };\n\n  var css = ");
            push_str(&mut out, css_literal.as_str());
            push_str(&mut out, ";\n  if (!css) return;\n\n  function injectCss() {\n    try {\n      var sheet = new CSSStyleSheet();\n      sheet.replaceSync(css);\n      document.adoptedStyleSheets = document.adoptedStyleSheets.concat(sheet);\n      return true;\n    } catch (e) {\n      var target = document.head || document.documentElement;\n      if (!target) return false;\n      var style = document.createElement(\"style\");\n      style.id = \"palladium-mod-css\";\n      style.textContent = css;\n      target.appendChild(style);\n      return true;\n    }\n  }\n\n  if (!injectCss()) {\n    document.addEventListener(\"DOMContentLoaded\", injectCss, { once: true });\n  }\n})();\n\n");
            push_str(&mut out, bundle.js.as_str());
            push_str(&mut out, "\n");
            assert(out@ =~= prelude + bootstrap_spec(*bundle));
        },
    }
    out
}

/// Discord itself is only restyled when the user opted in: the stylesheet
/// is empty exactly when `theme_discord` is off.
pub proof fn lemma_discord_theming_is_opt_in(cfg: Config)
    ensures
        (theme_css_spec(cfg).len() == 0) == !cfg.theme_discord,
{
    crate::theme::lemma_discord_css_nonempty(cfg.theme);
}

/// With a client mod, the script ends with the mod's own code, after the
/// prelude that installs the theme runtime and after the bootstrap.
pub proof fn lemma_mod_script_comes_last(
    b: ModBundle,
    cfg: Config,
    pending: Pending,
    proxy_shim: Seq<char>,
    base: Option<Seq<char>>,
    voice_shim: Seq<char>,
)
    ensures
        ({
            let script = build_script_spec(Some(b), cfg, pending, proxy_shim, base, voice_shim);
            let without = build_script_spec(None, cfg, pending, proxy_shim, base, voice_shim);
            &&& script.take(without.len() as int) == without
            &&& script.skip(script.len() - b.js@.len() - 1) == b.js@ + "\n"@
        }),
{
    let script = build_script_spec(Some(b), cfg, pending, proxy_shim, base, voice_shim);
    let without = build_script_spec(None, cfg, pending, proxy_shim, base, voice_shim);
    reveal_strlit("\n");
    assert(script.take(without.len() as int) =~= without);
    assert(script.skip(script.len() - b.js@.len() - 1) =~= b.js@ + "\n"@);
}

/// Vanilla Discord still gets the theme runtime: without a client mod the
/// script is the seed, the endpoint shim, the voice shim and the theme
/// script, in that order.
pub proof fn lemma_vanilla_script(
    cfg: Config,
    pending: Pending,
    proxy_shim: Seq<char>,
    base: Option<Seq<char>>,
    voice_shim: Seq<char>,
)
    ensures
        build_script_spec(None, cfg, pending, proxy_shim, base, voice_shim).skip(
            build_script_spec(None, cfg, pending, proxy_shim, base, voice_shim).len()
                - theme_script_spec(cfg).len(),
        ) == theme_script_spec(cfg),
{
    let s = build_script_spec(None, cfg, pending, proxy_shim, base, voice_shim);
    assert(s.skip(s.len() - theme_script_spec(cfg).len()) =~= theme_script_spec(cfg));
}

} // verus!
