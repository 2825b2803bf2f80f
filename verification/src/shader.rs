//! Shader source preparation.
//!
//! Every shader stage is compiled from its source with one fixed GLSL
//! version directive prepended, so the files themselves stay
//! directive-free. Compiling and linking are the graphics API's work
//! and happen in the rendering shell; what is verified here is the
//! exact text handed to the compiler.

use vstd::prelude::*;
use vstd::string::StringExecFns;

verus! {

/// The directive prepended to every stage's source, newline included.
pub open spec fn version_directive() -> Seq<char> {
    "#version 430\n"@
}

/// The text to hand the shader compiler: the fixed version directive,
/// then the stage's source, unchanged.
pub fn source_with_version(src: &str) -> (r: String)
    ensures
        r@ == version_directive() + src@,
{
    let mut s = String::from_str("#version 430\n");
    s.append(src);
    s
}

} // verus!
