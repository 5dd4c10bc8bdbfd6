//! The options of one run.

use vstd::prelude::*;

verus! {

/// The extension that is taken where none is given.
pub open spec fn default_extension_text() -> Seq<char> {
    "pdf"@
}

/// The extension that is taken where none is given.
pub fn default_extension() -> (res: String)
    ensures
        res@ == default_extension_text(),
{
    String::from_str("pdf")
}

/// The options of one run, fixed once they are read.
#[derive(Debug)]
pub struct RunConfig {
    /// The folder whose entries are scanned.
    pub folder: String,
    /// An expression that is taken from the caller and kept; the sanitizer
    /// does not consult it.
    pub regex: Option<String>,
    /// Whether the lines are written to a file as well.
    pub log: bool,
    /// The extension, without its dot, that an entry must have to be renamed.
    pub ext: String,
}

impl RunConfig {
    /// The options for `folder` with every other option at its default: no
    /// expression, no log file, the extension `pdf`.
    pub fn new(folder: String) -> (res: RunConfig)
        ensures
            res.folder@ == folder@,
            res.regex is None,
            !res.log,
            res.ext@ == default_extension_text(),
    {
        RunConfig { folder, regex: None, log: false, ext: default_extension() }
    }
}

} // verus!
