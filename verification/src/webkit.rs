//! What the app asks of WebKitGTK: which runtime feature flags to switch
//! on, which permission requests to grant, and the file chooser's title.

use vstd::prelude::*;

use crate::text::{has_prefix, starts_with, str_eq};

verus! {

/// WebKit feature flags that voice needs: peer connections, media streams,
/// media devices, and every `WebRTC…` flag.
pub open spec fn wanted_feature(id: Seq<char>) -> bool {
    id == "PeerConnectionEnabled"@ || id == "MediaStreamEnabled"@ || id == "MediaDevicesEnabled"@
        || has_prefix(id, "WebRTC"@)
}

pub fn wants_enabling(id: &str) -> (r: bool)
    ensures
        r == wanted_feature(id@),
{
    str_eq(id, "PeerConnectionEnabled") || str_eq(id, "MediaStreamEnabled") || str_eq(
        id,
        "MediaDevicesEnabled",
    ) || starts_with(id, "WebRTC")
}

/// Permission requests granted: camera and microphone, device listing, and
/// notifications. Everything else (geolocation, pointer lock, ...) is denied.
pub open spec fn granted_permission(kind: Seq<char>) -> bool {
    kind == "WebKitUserMediaPermissionRequest"@ || kind == "WebKitDeviceInfoPermissionRequest"@
        || kind == "WebKitNotificationPermissionRequest"@
}

pub fn grants_permission(kind: &str) -> (r: bool)
    ensures
        r == granted_permission(kind@),
{
    str_eq(kind, "WebKitUserMediaPermissionRequest") || str_eq(
        kind,
        "WebKitDeviceInfoPermissionRequest",
    ) || str_eq(kind, "WebKitNotificationPermissionRequest")
}

pub fn file_chooser_title(multiple: bool) -> (r: &'static str)
    ensures
        r == if multiple {
            "Select Files"
        } else {
            "Select File"
        },
{
    if multiple {
        "Select Files"
    } else {
        "Select File"
    }
}

} // verus!
