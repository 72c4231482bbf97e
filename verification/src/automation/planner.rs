//! What a plan or a run is for: one macro or one assembly of a pack.

use vstd::prelude::*;

verus! {

/// A macro or an assembly, by name.
#[derive(Debug, Clone)]
pub enum MacroTarget {
    Macro(String),
    Assembly(String),
}

impl MacroTarget {
    /// The macro called `name`.
    pub fn macro_named(name: String) -> (r: Self)
        ensures
            r matches MacroTarget::Macro(n) && n == name,
    {
        MacroTarget::Macro(name)
    }

    /// The assembly called `name`.
    pub fn assembly_named(name: String) -> (r: Self)
        ensures
            r matches MacroTarget::Assembly(n) && n == name,
    {
        MacroTarget::Assembly(name)
    }

    /// The kind of the target: `macro` or `assembly`.
    pub fn kind(&self) -> (r: &'static str)
        ensures
            r@ == match self {
                MacroTarget::Macro(_) => "macro"@,
                MacroTarget::Assembly(_) => "assembly"@,
            },
    {
        match self {
            MacroTarget::Macro(_) => "macro",
            MacroTarget::Assembly(_) => "assembly",
        }
    }

    /// The name of the target.
    pub fn name(&self) -> (r: &str)
        ensures
            r@ == match self {
                MacroTarget::Macro(n) => n@,
                MacroTarget::Assembly(n) => n@,
            },
    {
        match self {
            MacroTarget::Macro(n) => n.as_str(),
            MacroTarget::Assembly(n) => n.as_str(),
        }
    }
}

} // verus!
