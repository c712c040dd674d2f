//! Selection of the low-level GPU backend.
//!
//! The host process may name a preferred backend (through an environment
//! variable it reads at its edge); the name is matched here against the
//! small set of known backends, and an unrecognized name is a fatal
//! configuration error.

use vstd::prelude::*;

verus! {

/// The low-level GPU backends a context may be created on.
#[derive(Debug, Clone, Copy, PartialEq, Eq, Structural)]
pub enum BackendSelection {
    /// No preference: every backend the platform offers may be tried.
    All,
    Vulkan,
    Metal,
    Dx12,
    Gl,
}

/// Errors of the stage's static configuration.
#[derive(Debug, Clone, Copy, PartialEq, Eq, Structural)]
pub enum ConfigError {
    /// The configured backend name is not one of the known backends.
    UnknownBackend,
}

/// What `backend_from_name` returns for a given (lower-cased) backend name,
/// or for no name at all.
pub open spec fn backend_of_name(name: Option<Seq<char>>) -> Result<BackendSelection, ConfigError> {
    match name {
        Option::None => Ok(BackendSelection::All),
        Option::Some(s) => if s == "vulkan"@ {
            Ok(BackendSelection::Vulkan)
        } else if s == "metal"@ {
            Ok(BackendSelection::Metal)
        } else if s == "dx12"@ {
            Ok(BackendSelection::Dx12)
        } else if s == "gl"@ {
            Ok(BackendSelection::Gl)
        } else {
            Err(ConfigError::UnknownBackend)
        },
    }
}

/// Resolves a configured backend name (already lower-cased by the caller
/// that read it from the environment) to a backend selection. No name means
/// no preference; an unrecognized name is a configuration error.
pub fn backend_from_name(name: Option<&String>) -> (r: Result<BackendSelection, ConfigError>)
    ensures
        r == backend_of_name(match name {
            Option::None => Option::None,
            Option::Some(s) => Option::Some(s@),
        }),
{
    match name {
        Option::None => Ok(BackendSelection::All),
        Option::Some(s) => {
            let vulkan: String = "vulkan".to_owned();
            let metal: String = "metal".to_owned();
            let dx12: String = "dx12".to_owned();
            let gl: String = "gl".to_owned();
            if *s == vulkan {
                Ok(BackendSelection::Vulkan)
            } else if *s == metal {
                Ok(BackendSelection::Metal)
            } else if *s == dx12 {
                Ok(BackendSelection::Dx12)
            } else if *s == gl {
                Ok(BackendSelection::Gl)
            } else {
                Err(ConfigError::UnknownBackend)
            }
        },
    }
}

} // verus!
