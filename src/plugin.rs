use vstd::prelude::*;
use vstd::string::StringExecFns;

verus! {

/// The version tag that a module's operation table must carry, letter for
/// letter, to be admitted: the table's layout is fixed per version, so a
/// module built against another version cannot be called safely.
pub const VERSION: &'static str = "0.1.0";

/// The operations that every plugin provides, and that the host forwards
/// to. Each implementation states in its own contract what it returns.
pub trait Plugin {
    /// The plugin's name.
    fn name(&self) -> &str;

    /// The symbol of the binary operation that `calc` performs.
    fn operator(&self) -> &str;

    /// The plugin's binary operation on `lhs` and `rhs`.
    fn calc(&self, lhs: u32, rhs: u32) -> u32;
}

/// Why a module could not be admitted as a plugin.
#[derive(Clone, Copy, Debug, PartialEq, Eq, Structural)]
pub enum LoadError {
    /// The file is missing or is not a loadable module.
    LibraryOpenFailure,
    /// The module does not export the entry point.
    MissingEntryPoint,
    /// The module's operation table carries another version tag.
    VersionMismatch,
    /// The entry point handed back no context.
    NullContext,
}

/// What a module's entry point handed back, as plain values: the version tag
/// of its operation table and the context it allocated, if any.
pub struct Entry<C> {
    pub version: String,
    pub context: Option<C>,
}

/// Whether `version` is the tag that this host accepts.
pub fn is_host_version(version: &String) -> (r: bool)
    ensures
        r == (version@ == VERSION@),
{
    let host = String::from_str(VERSION);
    *version == host
}

} // verus!
