//! Socket-path resolution for the connection bootstrap.
//!
//! The display name is taken from the explicit argument, else from the
//! `WAYLAND_DISPLAY` environment value, else it is the fixed default
//! `wayland-0`. A relative name is resolved against the `XDG_RUNTIME_DIR`
//! environment value; needing it and not having it is a configuration
//! error. Reading the environment is I/O and happens outside this crate:
//! the caller passes both values in.

use vstd::prelude::*;
use vstd::string::StrSliceExecFns;
use vstd::string::StringExecFns;

use crate::errors::WdError;

verus! {

/// A path is absolute when it starts with the directory separator.
pub open spec fn spec_is_absolute(p: Seq<char>) -> bool {
    p.len() > 0 && p[0] == '/'
}

/// The display name before directory resolution: the explicit argument,
/// else the environment's, else the fixed default.
pub open spec fn spec_display_file(
    display: Option<Seq<char>>,
    env_display: Option<Seq<char>>,
) -> Seq<char> {
    match display {
        Some(d) => d,
        None => match env_display {
            Some(e) => e,
            None => "wayland-0"@,
        },
    }
}

/// Resolve the socket path: pick the display name, then make it
/// absolute against the runtime directory if it is not already.
pub fn resolve_socket_path(
    display: Option<String>,
    env_display: Option<String>,
    runtime_dir: Option<String>,
) -> (r: Result<String, WdError>)
    ensures
        ({
            let file = spec_display_file(
                match display {
                    Some(d) => Some(d@),
                    None => None,
                },
                match env_display {
                    Some(e) => Some(e@),
                    None => None,
                },
            );
            if spec_is_absolute(file) {
                r matches Ok(p) && p@ == file
            } else {
                match runtime_dir {
                    Some(dir) => r matches Ok(p) && p@ == dir@ + "/"@ + file,
                    None => r == Err::<String, WdError>(WdError::Configuration),
                }
            }
        }),
{
    let file: String = match display {
        Some(d) => d,
        None => match env_display {
            Some(e) => e,
            None => "wayland-0".to_owned(),
        },
    };
    let absolute = file.as_str().unicode_len() > 0 && file.as_str().get_char(0) == '/';
    if absolute {
        Ok(file)
    } else {
        match runtime_dir {
            Some(dir) => Ok(dir.concat("/").concat(file.as_str())),
            None => Err(WdError::Configuration),
        }
    }
}

} // verus!
