//! Paste helpers on platforms without an accessibility gate: there the
//! permission is always there, and no application is remembered or
//! brought to the front before pasting.
use vstd::prelude::*;

verus! {

/// Whether the application may send key strokes to other applications.
pub fn check_accessibility_permission() -> (b: bool)
    ensures
        b,
{
    true
}

/// Opens the accessibility settings of the system; there are none to open.
pub fn open_accessibility_settings() -> (r: Result<(), String>)
    ensures
        r is Ok,
{
    Ok(())
}

/// The application that has the focus, by bundle id; not known here.
pub fn get_active_app_bundle_id() -> (r: Option<String>)
    ensures
        r is None,
{
    None
}

/// Brings an application to the front; nothing to do here.
pub fn activate_app_by_bundle_id(bundle_id: &str) -> (r: Result<(), String>)
    ensures
        r is Ok,
{
    Ok(())
}

} // verus!
