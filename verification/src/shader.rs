//! Shader sources, dispatched on the path's file extension.
//!
//! Shader modules are compiled and owned by the embedding; the library
//! decides, from the path alone, whether a source is plain-text shading
//! language or precompiled bytecode, and rejects anything else at
//! construction time.

use vstd::prelude::*;
use crate::error::RenderError;
use crate::text::str_eq;

verus! {

/// The two source forms the loader accepts.
#[derive(Clone, Copy, Debug, PartialEq, Eq, Structural)]
pub enum ShaderKind {
    /// Plain-text shading-language source (`.wgsl`).
    Wgsl,
    /// Precompiled bytecode (`.spv`).
    SpirV,
}

/// A shader as the registry records it: where it came from and which form
/// it is in. The compiled module handle lives with the embedding, keyed by
/// the same path.
#[derive(Debug)]
pub struct Shader {
    pub path: String,
    pub kind: ShaderKind,
}

/// The position of the last occurrence of `c` in `s`, if any.
pub open spec fn last_pos(s: Seq<char>, c: char) -> Option<int>
    decreases s.len(),
{
    if s.len() == 0 {
        None
    } else if s.last() == c {
        Some(s.len() - 1)
    } else {
        last_pos(s.drop_last(), c)
    }
}

/// The extension of a path: what follows the last dot of the final path
/// component, provided that dot is not the component's first character.
pub open spec fn path_extension(path: Seq<char>) -> Option<Seq<char>> {
    let name_start: int = match last_pos(path, '/') {
        Some(i) => i + 1,
        None => 0,
    };
    match last_pos(path, '.') {
        Some(d) => if d > name_start {
            Some(path.subrange(d + 1, path.len() as int))
        } else {
            None
        },
        None => None,
    }
}

/// Decide the source form from the path. Exactly the `wgsl` extension is
/// text, exactly `spv` is bytecode; any other extension is unsupported and
/// a path without an extension is rejected outright.
pub fn shader_source_kind(path: &str) -> (r: Result<ShaderKind, RenderError>)
    ensures
        match path_extension(path@) {
            Some(ext) => {
                if ext == "wgsl"@ {
                    r matches Ok(k) && k == ShaderKind::Wgsl
                } else if ext == "spv"@ {
                    r matches Ok(k) && k == ShaderKind::SpirV
                } else {
                    r matches Err(e)
                        && e matches RenderError::UnsupportedShaderExtension { extension }
                        && extension@ == ext
                }
            },
            None => r matches Err(e) && e matches RenderError::MissingShaderExtension,
        },
{
    let n = path.unicode_len();
    let mut last_slash: Option<usize> = None;
    let mut last_dot: Option<usize> = None;
    let mut i: usize = 0;
    while i < n
        invariant
            n == path@.len(),
            i <= n,
            match last_slash {
                Some(si) => last_pos(path@.take(i as int), '/') == Some(si as int) && si < i,
                None => last_pos(path@.take(i as int), '/') is None,
            },
            match last_dot {
                Some(di) => last_pos(path@.take(i as int), '.') == Some(di as int) && di < i,
                None => last_pos(path@.take(i as int), '.') is None,
            },
        decreases n - i,
    {
        let c = path.get_char(i);
        proof {
            assert(path@.take(i + 1int).drop_last() =~= path@.take(i as int));
            assert(path@.take(i + 1int).last() == path@[i as int]);
        }
        if c == '/' {
            last_slash = Some(i);
        } else if c == '.' {
            last_dot = Some(i);
        }
        i = i + 1;
    }
    proof {
        assert(path@.take(n as int) =~= path@);
    }

    let name_start: usize = match last_slash {
        Some(si) => si + 1,
        None => 0,
    };
    let dot: usize = match last_dot {
        Some(d) => {
            if d > name_start {
                d
            } else {
                return Err(RenderError::MissingShaderExtension);
            }
        },
        None => {
            return Err(RenderError::MissingShaderExtension);
        },
    };

    let ext = path.substring_char(dot + 1, n);
    if str_eq(ext, "wgsl") {
        Ok(ShaderKind::Wgsl)
    } else if str_eq(ext, "spv") {
        Ok(ShaderKind::SpirV)
    } else {
        Err(RenderError::UnsupportedShaderExtension { extension: ext.to_owned() })
    }
}

impl Shader {
    /// Record a shader source, accepting only paths whose extension names a
    /// form the loader can dispatch on.
    pub fn new_from_file(filepath: &str) -> (r: Result<Shader, RenderError>)
        ensures
            match path_extension(filepath@) {
                Some(ext) => {
                    if ext == "wgsl"@ {
                        r matches Ok(s) && s.kind == ShaderKind::Wgsl && s.path@ == filepath@
                    } else if ext == "spv"@ {
                        r matches Ok(s) && s.kind == ShaderKind::SpirV && s.path@ == filepath@
                    } else {
                        r matches Err(e)
                            && e matches RenderError::UnsupportedShaderExtension { extension }
                            && extension@ == ext
                    }
                },
                None => r matches Err(e) && e matches RenderError::MissingShaderExtension,
            },
    {
        match shader_source_kind(filepath) {
            Ok(kind) => Ok(Shader { path: filepath.to_owned(), kind }),
            Err(e) => Err(e),
        }
    }
}

} // verus!
