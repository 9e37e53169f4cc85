//! Kernel-name demangling, delegated to an outside demangler.

use vstd::prelude::*;

verus! {

/// What demangling a kernel name yields. The result is a function of the
/// name's characters alone; a name that is not a well-formed mangled symbol
/// comes back unchanged.
pub uninterp spec fn demangled_of(s: Seq<char>) -> Seq<char>;

/// Relies on cpp_demangle's `Symbol::new` and `Symbol::demangle`: parsing and
/// demangling depend on the name's bytes alone, and on any failure the name
/// is handed back unchanged.
#[verifier::external_body]
pub(crate) fn demangle_kernel_name(name: &str) -> (r: String)
    ensures
        r@ == demangled_of(name@),
{
    match cpp_demangle::Symbol::new(name.as_bytes()) {
        Ok(sym) => match sym.demangle() {
            Ok(d) => d,
            Err(_) => name.to_string(),
        },
        Err(_) => name.to_string(),
    }
}

} // verus!
