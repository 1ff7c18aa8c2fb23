//! Decisions of the app-configuration loader.
//!
//! An app-level VM configuration names an operating system and may
//! override parts of the base configuration shipped for it. Reading
//! the configuration out of the APK is file work; what it means is
//! decided here.

use crate::errors::{ErrorKind, ServiceError};
use vstd::prelude::*;

verus! {

/// Check the operating system the payload asks for. Only
/// "microdroid" is supported; anything else is rejected, so that a
/// filename may safely be derived from the name afterwards.
pub fn validate_os_name(os_name: &str) -> (r: Result<(), ServiceError>)
    ensures
        r is Ok <==> os_name@ == "microdroid"@,
        r matches Err(e) ==> e.kind == ErrorKind::ArgumentError,
{
    let name = String::from_str(os_name);
    let expected = String::from_str("microdroid");
    if name == expected {
        Ok(())
    } else {
        Err(ServiceError::new(ErrorKind::ArgumentError, "Unknown OS"))
    }
}

/// The path of the base configuration shipped for an operating
/// system. Safe only after [`validate_os_name`] accepted the name.
pub fn vm_config_path_for_os(os_name: &str) -> (r: String)
    ensures
        r@ == "/apex/com.android.virt/etc/"@ + os_name@ + ".json"@,
{
    let mut r = String::from_str("/apex/com.android.virt/etc/");
    r.append(os_name);
    r.append(".json");
    proof {
        assert(r@ =~= "/apex/com.android.virt/etc/"@ + os_name@ + ".json"@);
    }
    r
}

/// The memory size after the app's override: a positive requested
/// size replaces the base configuration's, anything else keeps it.
pub fn apply_memory_override(base_memory_mib: i32, requested_memory_mib: i32) -> (r: i32)
    ensures
        requested_memory_mib > 0 ==> r == requested_memory_mib,
        requested_memory_mib <= 0 ==> r == base_memory_mib,
{
    if requested_memory_mib > 0 {
        requested_memory_mib
    } else {
        base_memory_mib
    }
}

} // verus!
