//! The platform that a tool is installed on.
use vstd::prelude::*;

use crate::text;

verus! {

/// The platform that the program runs on.
pub struct Target {
    /// The operating system that the program was compiled for, as the compiler names it.
    pub target_os: String,
    /// The architecture that the program was compiled for, as the compiler names it.
    pub target_arch: String,
    /// The name that the program gives the operating system in its own version line.
    pub os_name: String,
    /// The name that the program gives the architecture in its own version line.
    pub arch_name: String,
    /// Whether the program was compiled for Windows.
    pub windows: bool,
}

/// The name of the operating system in an aqua registry.
pub open spec fn os_of(target: Target) -> Seq<char> {
    if target.target_os@ == "macos"@ {
        "darwin"@
    } else {
        target.os_name@
    }
}

/// The name of the architecture in an aqua registry.
pub open spec fn arch_of(target: Target) -> Seq<char> {
    if target.target_arch@ == "x86_64"@ {
        "amd64"@
    } else if target.target_arch@ == "arm"@ {
        "armv6l"@
    } else if target.target_arch@ == "aarch64"@ {
        "arm64"@
    } else {
        target.arch_name@
    }
}

/// The name of the operating system in an aqua registry.
pub fn os(target: &Target) -> (r: &str)
    ensures
        r@ == os_of(*target),
{
    if text::same(target.target_os.as_str(), "macos") {
        "darwin"
    } else {
        target.os_name.as_str()
    }
}

/// The name of the architecture in an aqua registry.
pub fn arch(target: &Target) -> (r: &str)
    ensures
        r@ == arch_of(*target),
{
    if text::same(target.target_arch.as_str(), "x86_64") {
        "amd64"
    } else if text::same(target.target_arch.as_str(), "arm") {
        "armv6l"
    } else if text::same(target.target_arch.as_str(), "aarch64") {
        "arm64"
    } else {
        target.arch_name.as_str()
    }
}

/// macOS is darwin; every other operating system keeps the name that the program gives it.
pub proof fn law_name_of_the_system(target: Target)
    ensures
        target.target_os@ == "macos"@ ==> os_of(target) == "darwin"@,
        target.target_os@ != "macos"@ ==> os_of(target) == target.os_name@,
{
}

/// x86_64 is amd64, arm is armv6l and aarch64 is arm64; every other architecture keeps the name that the
/// program gives it.
pub proof fn law_name_of_the_architecture(target: Target)
    ensures
        target.target_arch@ == "x86_64"@ ==> arch_of(target) == "amd64"@,
        target.target_arch@ == "arm"@ ==> arch_of(target) == "armv6l"@,
        target.target_arch@ == "aarch64"@ ==> arch_of(target) == "arm64"@,
        target.target_arch@ != "x86_64"@ && target.target_arch@ != "arm"@ && target.target_arch@
            != "aarch64"@ ==> arch_of(target) == target.arch_name@,
{
    reveal_strlit("x86_64");
    reveal_strlit("arm");
    reveal_strlit("aarch64");
    assert("x86_64"@.len() == 6 && "arm"@.len() == 3 && "aarch64"@.len() == 7);
}

} // verus!
