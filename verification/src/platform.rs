//! Platform permission helpers, in the form they take on platforms without
//! an accessibility gate: access is always granted, and settings panels
//! cannot be opened programmatically.

use vstd::prelude::*;

verus! {

/// Whether the process may inject keystrokes; on this platform no
/// permission is needed.
pub fn ensure_accessibility(prompt: bool) -> (r: bool)
    ensures
        r,
{
    let _ = prompt;
    true
}

/// Open the accessibility permission panel; there is none here.
pub fn open_accessibility_settings() -> (r: Result<(), String>)
    ensures
        r matches Err(m) && m@ == "当前平台不需要辅助功能权限"@,
{
    Err("当前平台不需要辅助功能权限".to_owned())
}

/// Open the microphone permission panel; here the user is pointed at the
/// system settings instead.
pub fn open_microphone_settings() -> (r: Result<(), String>)
    ensures
        r matches Err(m) && m@ == "请在系统设置中检查麦克风权限/设备"@,
{
    Err("请在系统设置中检查麦克风权限/设备".to_owned())
}

/// Open the sound settings panel; this platform offers no way to.
pub fn open_sound_settings() -> (r: Result<(), String>)
    ensures
        r matches Err(m) && m@ == "当前平台不支持自动打开声音设置"@,
{
    Err("当前平台不支持自动打开声音设置".to_owned())
}

} // verus!
