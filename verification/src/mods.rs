//! The client mod bundle and the rules for keeping its cached copy fresh.

use vstd::prelude::*;

use crate::config::ClientMod;
use crate::json::{
    get_field, insert_field, json_wf, lemma_view_fields, obj_get, obj_insert, view_fields, Json, JsonV,
};
use crate::text::{blank, is_blank, push_str};

verus! {

/// A client mod's browser build, ready to inject.
pub struct ModBundle {
    pub client_mod: ClientMod,
    pub js: String,
    pub css: String,
}

/// The files of a browser build, in the order they are fetched.
pub fn assets() -> (r: [&'static str; 2])
    ensures
        r@ == seq!["browser.js", "browser.css"],
{
    let r = ["browser.js", "browser.css"];
    assert(r@ =~= seq!["browser.js", "browser.css"]);
    r
}

/// Where an asset is downloaded from.
pub fn asset_url(base: &str, asset: &str) -> (r: String)
    ensures
        r@ == base@ + "/"@ + asset@,
{
    let mut s = String::new();
    push_str(&mut s, base);
    push_str(&mut s, "/");
    push_str(&mut s, asset);
    assert(s@ =~= base@ + "/"@ + asset@);
    s
}

/// The ETag last seen for each asset, as kept in `etags.json`.
pub struct EtagStore {
    pub tags: Vec<(String, Json)>,
}

impl View for EtagStore {
    type V = Seq<(Seq<char>, JsonV)>;

    open spec fn view(&self) -> Seq<(Seq<char>, JsonV)> {
        view_fields(self.tags@)
    }
}

/// The tag stored for an asset, if it is a string.
pub open spec fn tag_of(store: Seq<(Seq<char>, JsonV)>, asset: Seq<char>) -> Option<Seq<char>> {
    match obj_get(store, asset) {
        Some(JsonV::Str(t)) => Some(t),
        _ => None,
    }
}

impl EtagStore {
    pub fn new() -> (r: EtagStore)
        ensures
            r@ == Seq::<(Seq<char>, JsonV)>::empty(),
    {
        let tags: Vec<(String, Json)> = Vec::new();
        proof {
            lemma_view_fields(tags@);
        }
        let r = EtagStore { tags };
        assert(r@ =~= Seq::<(Seq<char>, JsonV)>::empty());
        r
    }

    pub fn get(&self, asset: &str) -> (r: Option<&str>)
        ensures
            match r {
                Some(t) => tag_of(self@, asset@) == Some(t@),
                None => tag_of(self@, asset@) is None,
            },
    {
        match get_field(&self.tags, asset) {
            Some(v) => v.as_str(),
            None => None,
        }
    }

    pub fn insert(&mut self, asset: &str, tag: &str)
        ensures
            final(self)@ == obj_insert(old(self)@, asset@, JsonV::Str(tag@)),
            json_wf(JsonV::Object(old(self)@)) ==> json_wf(JsonV::Object(final(self)@)),
    {
        insert_field(&mut self.tags, asset, Json::string(tag));
    }
}

/// The `If-None-Match` to send for an asset: its last ETag, when the cached
/// copy exists and a refetch is not forced.
pub fn conditional_tag(force: bool, etags: &EtagStore, asset: &str, cached: bool) -> (r: Option<
    String,
>)
    ensures
        match r {
            Some(t) => !force && cached && tag_of(etags@, asset@) == Some(t@),
            None => force || !cached || tag_of(etags@, asset@) is None,
        },
{
    if !force && cached {
        match etags.get(asset) {
            Some(t) => Some(t.to_owned()),
            None => None,
        }
    } else {
        None
    }
}

/// What to do with an asset after trying to download it.
#[derive(Debug, Clone, Copy, PartialEq, Eq, Structural)]
pub enum AssetStep {
    /// The server says the cached copy is current.
    UpToDate,
    /// The download failed but a cached copy exists: keep using it.
    UseCached,
    /// The download failed and there is nothing cached: give up.
    Fail,
    /// A fresh copy came back: store it.
    Store,
}

/// The step after the request could not be sent at all.
pub fn after_send_error(cached: bool) -> (r: AssetStep)
    ensures
        r == if cached {
            AssetStep::UseCached
        } else {
            AssetStep::Fail
        },
{
    if cached {
        AssetStep::UseCached
    } else {
        AssetStep::Fail
    }
}

/// The step after a response with HTTP status `status`: 304 keeps the cache,
/// a status outside 200..=299 falls back to the cache if there is one.
pub fn after_response(status: u16, cached: bool) -> (r: AssetStep)
    ensures
        r == if status == 304 {
            AssetStep::UpToDate
        } else if status < 200 || status > 299 {
            if cached {
                AssetStep::UseCached
            } else {
                AssetStep::Fail
            }
        } else {
            AssetStep::Store
        },
{
    if status == 304 {
        AssetStep::UpToDate
    } else if status < 200 || status > 299 {
        after_send_error(cached)
    } else {
        AssetStep::Store
    }
}

/// A downloaded body is only stored when it is more than whitespace.
pub fn body_usable(body: &str) -> (r: bool)
    ensures
        r == !blank(body@),
{
    !is_blank(body)
}

} // verus!
