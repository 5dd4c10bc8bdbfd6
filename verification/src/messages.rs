//! The messages of a run.

use vstd::prelude::*;
use crate::text::{decimal, decimal_string};

verus! {

/// What is shown when the logger cannot be set up.
pub open spec fn logger_failed_text(error: Seq<char>) -> Seq<char> {
    "Failed to initialize logger: "@ + error
}

/// What is logged when the folder of the run is not there.
pub open spec fn folder_missing_text(folder: Seq<char>) -> Seq<char> {
    "Folder "@ + folder + " does not exist"@
}

/// What is logged when the key press before the listing cannot be read.
pub open spec fn argument_read_failed_text(error: Seq<char>) -> Seq<char> {
    "Error reading from argument: "@ + error
}

/// What is logged when the key press at the end cannot be read.
pub open spec fn input_read_failed_text(error: Seq<char>) -> Seq<char> {
    "Error reading from stdin: "@ + error
}

/// What is logged for an entry that the listing could not read.
pub open spec fn entry_failed_text(error: Seq<char>) -> Seq<char> {
    "Failed to read entry: "@ + error
}

/// What is logged for a rename that was done, once with the two file names
/// and once with the two paths.
pub open spec fn renamed_text(from: Seq<char>, to: Seq<char>) -> Seq<char> {
    "Renamed "@ + from + " to "@ + to
}

/// What is logged for a rename that was refused.
pub open spec fn rename_failed_text(path: Seq<char>, error: Seq<char>) -> Seq<char> {
    "Failed to rename "@ + path + ": "@ + error
}

/// The progress marker after `count` entries.
pub open spec fn processed_text(count: nat) -> Seq<char> {
    "Processed "@ + decimal(count) + " files"@
}

/// What is logged when the listing is exhausted.
pub open spec fn finished_text() -> Seq<char> {
    "Process finished."@
}

/// What is shown before a key press is awaited.
pub open spec fn prompt_text() -> Seq<char> {
    "Press enter to exit"@
}

/// The text for a logger that cannot be set up.
pub fn logger_failed(error: &str) -> (res: String)
    ensures
        res@ == logger_failed_text(error@),
{
    let mut res = String::from_str("Failed to initialize logger: ");
    res.append(error);
    res
}

/// The message for a folder that is not there.
pub fn folder_missing(folder: &str) -> (res: String)
    ensures
        res@ == folder_missing_text(folder@),
{
    let mut res = String::from_str("Folder ");
    res.append(folder);
    res.append(" does not exist");
    res
}

/// The message for a key press before the listing that cannot be read.
pub fn argument_read_failed(error: &str) -> (res: String)
    ensures
        res@ == argument_read_failed_text(error@),
{
    let mut res = String::from_str("Error reading from argument: ");
    res.append(error);
    res
}

/// The message for a key press at the end that cannot be read.
pub fn input_read_failed(error: &str) -> (res: String)
    ensures
        res@ == input_read_failed_text(error@),
{
    let mut res = String::from_str("Error reading from stdin: ");
    res.append(error);
    res
}

/// The message for an entry that the listing could not read.
pub fn entry_failed(error: &str) -> (res: String)
    ensures
        res@ == entry_failed_text(error@),
{
    let mut res = String::from_str("Failed to read entry: ");
    res.append(error);
    res
}

/// The message for a rename that was done.
pub fn renamed(from: &str, to: &str) -> (res: String)
    ensures
        res@ == renamed_text(from@, to@),
{
    let mut res = String::from_str("Renamed ");
    res.append(from);
    res.append(" to ");
    res.append(to);
    res
}

/// The message for a rename that was refused.
pub fn rename_failed(path: &str, error: &str) -> (res: String)
    ensures
        res@ == rename_failed_text(path@, error@),
{
    let mut res = String::from_str("Failed to rename ");
    res.append(path);
    res.append(": ");
    res.append(error);
    res
}

/// The progress marker after `count` entries.
pub fn processed(count: u64) -> (res: String)
    ensures
        res@ == processed_text(count as nat),
{
    let mut res = String::from_str("Processed ");
    res.append(decimal_string(count).as_str());
    res.append(" files");
    res
}

/// The message at the end of the listing.
pub fn finished() -> (res: String)
    ensures
        res@ == finished_text(),
{
    String::from_str("Process finished.")
}

/// The text that is shown before a key press is awaited.
pub fn prompt() -> (res: String)
    ensures
        res@ == prompt_text(),
{
    String::from_str("Press enter to exit")
}

} // verus!
