//! Backend-selection logic of the interface-description tool: which
//! target and which source-code generator a run uses.

use vstd::prelude::*;

use crate::util::str_eq;

verus! {

/// The compilation target generated source is specialized for.
#[allow(non_camel_case_types)]
#[derive(Clone, Copy, Debug, PartialEq, Eq, Structural)]
pub enum Target {
    X86,
    X86_64,
    X86_64_32,
    Generic,
}

/// The language a run generates source for.
#[derive(Clone, Copy, Debug, PartialEq, Eq, Structural)]
pub enum Backend {
    C,
    Rust,
}

/// Options every backend honors.
#[derive(Clone, Copy, Debug, PartialEq, Eq, Structural)]
pub struct BackendConfig {
    /// Do not serialize native pointers; forces the generic target.
    pub zero_native_pointers: bool,
}

/// The target a command-line name selects; an unrecognized name selects
/// the generic target.
pub open spec fn spec_target_from(s: Seq<char>) -> Target {
    if s == "x86"@ {
        Target::X86
    } else if s == "x86_64"@ {
        Target::X86_64
    } else if s == "x86_64_32"@ {
        Target::X86_64_32
    } else {
        Target::Generic
    }
}

/// The backend a command-line name selects; any name other than `rust`
/// selects the portable C backend, which is also the default.
pub open spec fn spec_backend_from(s: Seq<char>) -> Backend {
    if s == "rust"@ {
        Backend::Rust
    } else {
        Backend::C
    }
}

impl Target {
    pub fn from(s: &str) -> (r: Target)
        ensures
            r == spec_target_from(s@),
    {
        if str_eq(s, "x86") {
            Target::X86
        } else if str_eq(s, "x86_64") {
            Target::X86_64
        } else if str_eq(s, "x86_64_32") {
            Target::X86_64_32
        } else {
            Target::Generic
        }
    }
}

impl Backend {
    pub fn from(s: &str) -> (r: Backend)
        ensures
            r == spec_backend_from(s@),
    {
        if str_eq(s, "rust") {
            Backend::Rust
        } else {
            Backend::C
        }
    }
}

/// A fully resolved run configuration.
#[derive(Clone, Copy, Debug, PartialEq, Eq, Structural)]
pub struct Config {
    pub target: Target,
    pub backend: Backend,
    pub backend_config: BackendConfig,
}

/// The source generator a configuration selects: one per backend, each
/// carrying the target and the options it will generate under.
#[derive(Clone, Copy, Debug, PartialEq, Eq, Structural)]
pub enum Generator {
    C { target: Target, backend_config: BackendConfig },
    Rust { target: Target, backend_config: BackendConfig },
}

impl Config {
    /// Resolve the command-line options to a configuration.  Zeroing
    /// native pointers makes the output target-independent, so it
    /// overrides the requested target with the generic one.
    pub fn parse(target_opt: &str, backend_opt: &str, zero_native_pointers: bool) -> (r: Config)
        ensures
            r.target == if zero_native_pointers {
                Target::Generic
            } else {
                spec_target_from(target_opt@)
            },
            r.backend == spec_backend_from(backend_opt@),
            r.backend_config == (BackendConfig { zero_native_pointers }),
    {
        let mut target = Target::from(target_opt);
        let backend = Backend::from(backend_opt);
        if zero_native_pointers {
            target = Target::Generic;
        }
        let backend_config = BackendConfig { zero_native_pointers };
        Config { target, backend, backend_config }
    }

    /// The generator for the configured backend, carrying this
    /// configuration's target and options.
    pub fn generator(&self) -> (r: Generator)
        ensures
            r == match self.backend {
                Backend::C => (Generator::C {
                    target: self.target,
                    backend_config: self.backend_config,
                }),
                Backend::Rust => (Generator::Rust {
                    target: self.target,
                    backend_config: self.backend_config,
                }),
            },
    {
        match self.backend {
            Backend::C => Generator::C {
                target: self.target,
                backend_config: self.backend_config,
            },
            Backend::Rust => Generator::Rust {
                target: self.target,
                backend_config: self.backend_config,
            },
        }
    }
}

impl Default for Config {
    /// The default configuration: generic target, C backend, native
    /// pointers kept.
    fn default() -> (r: Config)
        ensures
            r == (Config {
                target: Target::Generic,
                backend: Backend::C,
                backend_config: BackendConfig { zero_native_pointers: false },
            }),
    {
        Config {
            target: Target::Generic,
            backend: Backend::C,
            backend_config: BackendConfig { zero_native_pointers: false },
        }
    }
}

/// The configuration of one whole tool run: the input to read, where to
/// write (standard output when absent), and the generator configuration.
/// Paths are carried as plain strings; opening the files is the
/// embedding program's business.
#[derive(Clone, Debug)]
pub struct ExeConfig {
    pub input_path: String,
    pub output_path: Option<String>,
    pub config: Config,
}

} // verus!
