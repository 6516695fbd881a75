use vstd::prelude::*;

verus! {

/// The closed set of recognized guild file format tags.
#[derive(Copy, Clone, Debug, PartialEq, Eq, Structural)]
pub enum GuildFormat {
    Dump,
    Upload,
}

/// The canonical lowercase token of a format tag, as a sequence of characters.
pub open spec fn token_of(f: GuildFormat) -> Seq<char> {
    match f {
        GuildFormat::Dump => "dump"@,
        GuildFormat::Upload => "upload"@,
    }
}

/// A character sequence is a recognized format token when it is one of the
/// canonical tokens.
pub open spec fn recognized(s: Seq<char>) -> bool {
    s == "dump"@ || s == "upload"@
}

impl GuildFormat {
    /// The canonical lowercase string token of this format tag.
    pub fn as_str(&self) -> (r: &'static str)
        ensures
            r@ == token_of(*self),
    {
        match self {
            GuildFormat::Dump => "dump",
            GuildFormat::Upload => "upload",
        }
    }
}

} // verus!
