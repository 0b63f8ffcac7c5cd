use vstd::prelude::*;

use crate::models::RuntimeCapabilities;

verus! {

/// Why the listener for other applications' notifications is off in a
/// packaged (MSIX) build.
pub open spec fn packaged_listener_reason() -> Seq<char> {
    "Pakiet ma tożsamość MSIX, ale adapter UserNotificationListener nie jest jeszcze aktywowany w tej kompilacji."@
}

/// Why the listener for other applications' notifications is off in an
/// unpackaged build.
pub open spec fn unpackaged_listener_reason() -> Seq<char> {
    "Listener powiadomień innych aplikacji wymaga adaptera MSIX oraz jawnej zgody użytkownika."@
}

/// What the running instance can do, given whether the native engine loaded
/// and whether the process runs with package identity. The audio mixer needs
/// the native engine; the system notification listener is never available in
/// this build, and the reason says what it would need.
pub fn get_runtime_capabilities(native_engine_loaded: bool, packaged: bool) -> (caps: RuntimeCapabilities)
    ensures
        caps.native_engine_loaded == native_engine_loaded,
        caps.audio_mixer_available == native_engine_loaded,
        !caps.system_notification_listener_available,
        caps.system_notification_listener_reason@ == if packaged {
            packaged_listener_reason()
        } else {
            unpackaged_listener_reason()
        },
        caps.packaged == packaged,
{
    let reason = if packaged {
        String::from_str(
            "Pakiet ma tożsamość MSIX, ale adapter UserNotificationListener nie jest jeszcze aktywowany w tej kompilacji.",
        )
    } else {
        String::from_str(
            "Listener powiadomień innych aplikacji wymaga adaptera MSIX oraz jawnej zgody użytkownika.",
        )
    };
    RuntimeCapabilities {
        native_engine_loaded,
        audio_mixer_available: native_engine_loaded,
        system_notification_listener_available: false,
        system_notification_listener_reason: reason,
        packaged,
    }
}

} // verus!
