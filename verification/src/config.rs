//! What a packaging run is configured with: the build system of the project,
//! the platform the binary is made for, and the cache location.

use vstd::prelude::*;
use vstd::string::*;
use crate::text::{join_path, path_joined, str_eq};

verus! {

/// The build tool of a project.
#[derive(Debug, Clone, Copy, PartialEq, Eq, Structural)]
pub enum BuildSystem {
    DepsEdn,
    Leiningen,
}

/// The operating system a binary is made for.
#[derive(Debug, Clone, Copy, PartialEq, Eq, Structural)]
pub enum TargetOs {
    Linux,
    MacOs,
}

/// The processor architecture a binary is made for.
#[derive(Debug, Clone, Copy, PartialEq, Eq, Structural)]
pub enum TargetArch {
    X86_64,
    Aarch64,
}

/// The platform a binary is made for.
#[derive(Debug, Clone, Copy, PartialEq, Eq, Structural)]
pub struct Target {
    pub os: TargetOs,
    pub arch: TargetArch,
}

/// The platform that an override string names, if it names one.
pub open spec fn parsed_target(s: Seq<char>) -> Option<Target> {
    if s == "linux-x64"@ {
        Some(Target { os: TargetOs::Linux, arch: TargetArch::X86_64 })
    } else if s == "linux-aarch64"@ {
        Some(Target { os: TargetOs::Linux, arch: TargetArch::Aarch64 })
    } else if s == "macos-x64"@ {
        Some(Target { os: TargetOs::MacOs, arch: TargetArch::X86_64 })
    } else if s == "macos-aarch64"@ {
        Some(Target { os: TargetOs::MacOs, arch: TargetArch::Aarch64 })
    } else {
        None
    }
}

/// The platform of a host whose operating system and architecture go by the
/// given names: macOS where the system is `macos`, Linux otherwise; 64-bit
/// ARM where the architecture is `aarch64`, x86-64 otherwise.
pub open spec fn host_target(os: Seq<char>, arch: Seq<char>) -> Target {
    Target {
        os: if os == "macos"@ {
            TargetOs::MacOs
        } else {
            TargetOs::Linux
        },
        arch: if arch == "aarch64"@ {
            TargetArch::Aarch64
        } else {
            TargetArch::X86_64
        },
    }
}

/// The name of an operating system.
pub open spec fn os_label(os: TargetOs) -> Seq<char> {
    match os {
        TargetOs::Linux => "linux"@,
        TargetOs::MacOs => "macos"@,
    }
}

/// The name of an architecture.
pub open spec fn arch_label(arch: TargetArch) -> Seq<char> {
    match arch {
        TargetArch::X86_64 => "x86_64"@,
        TargetArch::Aarch64 => "aarch64"@,
    }
}

/// The release catalog's name for an operating system.
pub open spec fn os_name(os: TargetOs) -> Seq<char> {
    match os {
        TargetOs::Linux => "linux"@,
        TargetOs::MacOs => "mac"@,
    }
}

/// The release catalog's name for an architecture.
pub open spec fn arch_name(arch: TargetArch) -> Seq<char> {
    match arch {
        TargetArch::X86_64 => "x64"@,
        TargetArch::Aarch64 => "aarch64"@,
    }
}

impl Target {
    /// The platform of the host, from the names the host gives its operating
    /// system and architecture.
    pub fn current(host_os: &str, host_arch: &str) -> (target: Target)
        ensures
            target == host_target(host_os@, host_arch@),
    {
        let os = if str_eq(host_os, "macos") {
            TargetOs::MacOs
        } else {
            TargetOs::Linux
        };
        let arch = if str_eq(host_arch, "aarch64") {
            TargetArch::Aarch64
        } else {
            TargetArch::X86_64
        };
        Target { os, arch }
    }

    /// Reads a platform override. Only the four supported names are accepted.
    pub fn from_str(s: &str) -> (target: Option<Target>)
        ensures
            target == parsed_target(s@),
    {
        if str_eq(s, "linux-x64") {
            Some(Target { os: TargetOs::Linux, arch: TargetArch::X86_64 })
        } else if str_eq(s, "linux-aarch64") {
            Some(Target { os: TargetOs::Linux, arch: TargetArch::Aarch64 })
        } else if str_eq(s, "macos-x64") {
            Some(Target { os: TargetOs::MacOs, arch: TargetArch::X86_64 })
        } else if str_eq(s, "macos-aarch64") {
            Some(Target { os: TargetOs::MacOs, arch: TargetArch::Aarch64 })
        } else {
            None
        }
    }

    /// The name of this platform's operating system.
    pub fn os_label(&self) -> (name: &'static str)
        ensures
            name@ == os_label(self.os),
    {
        match self.os {
            TargetOs::Linux => "linux",
            TargetOs::MacOs => "macos",
        }
    }

    /// The name of this platform's architecture.
    pub fn arch_label(&self) -> (name: &'static str)
        ensures
            name@ == arch_label(self.arch),
    {
        match self.arch {
            TargetArch::X86_64 => "x86_64",
            TargetArch::Aarch64 => "aarch64",
        }
    }

    /// The release catalog's name for this platform's operating system.
    pub fn adoptium_os(&self) -> (name: &'static str)
        ensures
            name@ == os_name(self.os),
    {
        match self.os {
            TargetOs::Linux => "linux",
            TargetOs::MacOs => "mac",
        }
    }

    /// The release catalog's name for this platform's architecture.
    pub fn adoptium_arch(&self) -> (name: &'static str)
        ensures
            name@ == arch_name(self.arch),
    {
        match self.arch {
            TargetArch::X86_64 => "x64",
            TargetArch::Aarch64 => "aarch64",
        }
    }
}

/// What one packaging run is asked to do.
#[derive(Debug, Clone, PartialEq, Eq)]
pub struct BuildConfig {
    /// The project directory, or an application bundle built already.
    pub input: String,
    /// Where to write the executable.
    pub output: String,
    /// The major version of the runtime to package.
    pub java_version: u8,
    /// The platform the executable is made for.
    pub target: Target,
    /// Extra arguments for the runtime, put in front of the application's.
    pub jvm_args: Vec<String>,
}

/// What the input of a packaging run is.
#[derive(Debug, Clone, Copy, PartialEq, Eq, Structural)]
pub enum InputKind {
    /// An application bundle: nothing is left to build.
    Jar,
    /// A project directory, to be built first.
    Project,
}

/// The cache root of the user whose home directory is `home`.
pub open spec fn cache_root(home: Seq<char>) -> Seq<char> {
    path_joined(path_joined(home, ".clj-pack"@), "cache"@)
}

/// `dirs::home_dir`: the home directory of the current user, where the
/// system knows of one and its path is valid text. Nothing is claimed of
/// it: it depends on the environment.
#[verifier::external_body]
fn home_dir() -> (home: Option<String>) {
    match dirs::home_dir() {
        Some(path) => path.into_os_string().into_string().ok(),
        None => None,
    }
}

impl BuildConfig {
    /// The cache root of the user whose home directory is `home`.
    pub fn cache_dir_in(home: &str) -> (dir: String)
        ensures
            dir@ == cache_root(home@),
    {
        let base = join_path(home, ".clj-pack");
        join_path(base.as_str(), "cache")
    }

    /// The cache root of the current user, where the system knows the
    /// user's home directory.
    pub fn cache_dir() -> (dir: Option<String>)
        ensures
            dir matches Some(d) ==> exists|home: Seq<char>| d@ == cache_root(home),
    {
        BuildConfig::cache_dir_from(home_dir())
    }

    /// The cache root for what the system says of the user's home
    /// directory: the cache root in that directory where it knows one, and
    /// none where it does not.
    pub fn cache_dir_from(home: Option<String>) -> (dir: Option<String>)
        ensures
            match home {
                Some(h) => (dir matches Some(d) && d@ == cache_root(h@)),
                None => dir is None,
            },
    {
        match home {
            Some(h) => Some(BuildConfig::cache_dir_in(h.as_str())),
            None => None,
        }
    }

    /// What the input is, by the extension of its path (`None` where the
    /// path has none): a path that ends in `.jar` is a bundle, any other a
    /// project directory.
    pub fn input_kind(extension: Option<&str>) -> (kind: InputKind)
        ensures
            kind == match extension {
                Some(e) => if e@ == "jar"@ {
                    InputKind::Jar
                } else {
                    InputKind::Project
                },
                None => InputKind::Project,
            },
    {
        match extension {
            Some(e) => {
                if str_eq(e, "jar") {
                    InputKind::Jar
                } else {
                    InputKind::Project
                }
            },
            None => InputKind::Project,
        }
    }
}

} // verus!
