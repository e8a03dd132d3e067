//! The containers that build repositories: their targets, platforms and images.
use vstd::prelude::*;

use crate::text::push_str;

verus! {

/// A system binaries are built for.
#[derive(Debug, Clone, Copy, PartialEq, Eq, Structural)]
pub enum Target {
    Ubuntu,
    Alpine,
    Windows,
}

/// An operating system family.
#[derive(Debug, Clone, Copy, PartialEq, Eq, Structural)]
pub enum OperatingSystem {
    Linux,
    Windows,
}

/// A processor architecture.
#[derive(Debug, Clone, Copy, PartialEq, Eq, Structural)]
pub enum Architecture {
    Amd64,
    Arm64,
}

/// The operating system of a target.
pub open spec fn spec_operating_system(t: Target) -> OperatingSystem {
    match t {
        Target::Alpine | Target::Ubuntu => OperatingSystem::Linux,
        Target::Windows => OperatingSystem::Windows,
    }
}

/// The lowercase name of a target.
pub open spec fn spec_target_name(t: Target) -> Seq<char> {
    match t {
        Target::Ubuntu => "ubuntu"@,
        Target::Alpine => "alpine"@,
        Target::Windows => "windows"@,
    }
}

/// The lowercase name of an operating system.
pub open spec fn spec_os_name(o: OperatingSystem) -> Seq<char> {
    match o {
        OperatingSystem::Linux => "linux"@,
        OperatingSystem::Windows => "windows"@,
    }
}

/// The lowercase name of an architecture.
pub open spec fn spec_arch_name(a: Architecture) -> Seq<char> {
    match a {
        Architecture::Amd64 => "amd64"@,
        Architecture::Arm64 => "arm64"@,
    }
}

/// `os/arch`, the container platform of a target on an architecture.
pub open spec fn spec_platform(t: Target, a: Architecture) -> Seq<char> {
    spec_os_name(spec_operating_system(t)) + "/"@ + spec_arch_name(a)
}

/// The builder image of a target: `dmanuel99/codablellm-builder:{target}-{version}`, the
/// version `latest` when none is given.
pub open spec fn spec_image(t: Target, version: Option<Seq<char>>) -> Seq<char> {
    "dmanuel99/codablellm-builder:"@ + spec_target_name(t) + "-"@ + match version {
        Some(v) => v,
        None => "latest"@,
    }
}

impl OperatingSystem {
    /// The lowercase name of the operating system.
    pub fn to_string(&self) -> (r: String)
        ensures
            r@ == spec_os_name(*self),
    {
        match self {
            OperatingSystem::Linux => "linux".to_owned(),
            OperatingSystem::Windows => "windows".to_owned(),
        }
    }
}

impl Architecture {
    /// The lowercase name of the architecture.
    pub fn to_string(&self) -> (r: String)
        ensures
            r@ == spec_arch_name(*self),
    {
        match self {
            Architecture::Amd64 => "amd64".to_owned(),
            Architecture::Arm64 => "arm64".to_owned(),
        }
    }
}

impl Target {
    /// The lowercase name of the target.
    pub fn to_string(&self) -> (r: String)
        ensures
            r@ == spec_target_name(*self),
    {
        match self {
            Target::Ubuntu => "ubuntu".to_owned(),
            Target::Alpine => "alpine".to_owned(),
            Target::Windows => "windows".to_owned(),
        }
    }

    /// The target's operating system: Linux for Ubuntu and Alpine.
    pub fn operating_system(&self) -> (r: OperatingSystem)
        ensures
            r == spec_operating_system(*self),
    {
        match self {
            Target::Alpine | Target::Ubuntu => OperatingSystem::Linux,
            Target::Windows => OperatingSystem::Windows,
        }
    }

    /// The container platform `os/arch`.
    pub fn platform(&self, arch: &Architecture) -> (r: String)
        ensures
            r@ == spec_platform(*self, *arch),
    {
        let mut r = self.operating_system().to_string();
        push_str(&mut r, "/");
        let a = arch.to_string();
        push_str(&mut r, a.as_str());
        r
    }

    /// The builder image for the target, in the given version or `latest`.
    pub fn image(&self, version: Option<&str>) -> (r: String)
        ensures
            r@ == spec_image(
                *self,
                match version {
                    Some(v) => Some(v@),
                    None => None,
                },
            ),
    {
        let version = match version {
            Some(v) => v,
            None => "latest",
        };
        let mut r = "dmanuel99/codablellm-builder:".to_owned();
        let t = self.to_string();
        push_str(&mut r, t.as_str());
        push_str(&mut r, "-");
        push_str(&mut r, version);
        r
    }
}

/// Law: a target is named by the lowercase spelling of its variant (`ubuntu`, `alpine`,
/// `windows`), so its builder image is `dmanuel99/codablellm-builder:` followed by that
/// spelling, `-` and the version (`latest` when none is given).
pub proof fn lemma_target_names(t: Target, version: Option<Seq<char>>)
    ensures
        t == Target::Ubuntu ==> spec_target_name(t) == "ubuntu"@,
        t == Target::Alpine ==> spec_target_name(t) == "alpine"@,
        t == Target::Windows ==> spec_target_name(t) == "windows"@,
        t == Target::Ubuntu ==> spec_image(t, version) == "dmanuel99/codablellm-builder:ubuntu-"@
            + version.unwrap_or("latest"@),
        t == Target::Alpine ==> spec_image(t, version) == "dmanuel99/codablellm-builder:alpine-"@
            + version.unwrap_or("latest"@),
        t == Target::Windows ==> spec_image(t, version)
            == "dmanuel99/codablellm-builder:windows-"@ + version.unwrap_or("latest"@),
{
    reveal_strlit("ubuntu");
    reveal_strlit("alpine");
    reveal_strlit("windows");
    reveal_strlit("-");
    reveal_strlit("latest");
    reveal_strlit("dmanuel99/codablellm-builder:");
    reveal_strlit("dmanuel99/codablellm-builder:ubuntu-");
    reveal_strlit("dmanuel99/codablellm-builder:alpine-");
    reveal_strlit("dmanuel99/codablellm-builder:windows-");
    let v = version.unwrap_or("latest"@);
    let prefix = "dmanuel99/codablellm-builder:"@;
    assert(spec_image(t, version) == prefix + spec_target_name(t) + "-"@ + v);
    if t == Target::Ubuntu {
        assert(prefix + "ubuntu"@ + "-"@ =~= "dmanuel99/codablellm-builder:ubuntu-"@);
    } else if t == Target::Alpine {
        assert(prefix + "alpine"@ + "-"@ =~= "dmanuel99/codablellm-builder:alpine-"@);
    } else {
        assert(prefix + "windows"@ + "-"@ =~= "dmanuel99/codablellm-builder:windows-"@);
    }
}

/// Law: the Windows target is named as its operating system is, and the Linux targets by
/// their distribution, which no operating system shares; no two targets share a name.
pub proof fn lemma_target_name_matches_system(t: Target, u: Target)
    ensures
        spec_operating_system(t) == OperatingSystem::Windows ==> spec_target_name(t)
            == spec_os_name(OperatingSystem::Windows),
        spec_operating_system(t) == OperatingSystem::Linux ==> spec_target_name(t)
            != spec_os_name(OperatingSystem::Linux) && spec_target_name(t) != spec_os_name(
            OperatingSystem::Windows,
        ),
        t != u ==> spec_target_name(t) != spec_target_name(u),
{
    reveal_strlit("ubuntu");
    reveal_strlit("alpine");
    reveal_strlit("windows");
    reveal_strlit("linux");
    assert("ubuntu"@[0] != "alpine"@[0]);
    assert("ubuntu"@[0] != "windows"@[0]);
    assert("alpine"@[0] != "windows"@[0]);
    assert("ubuntu"@[0] != "linux"@[0]);
    assert("alpine"@[0] != "linux"@[0]);
}

/// The name given to the builder container.
pub const CONTAINER_NAME: &'static str = "codablellm-builder";

} // verus!
