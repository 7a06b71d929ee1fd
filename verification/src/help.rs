//! The texts that describe the tool.
use vstd::prelude::*;
use vstd::string::*;
use crate::text::concat2;

verus! {

/// What `humansize::format_size` makes of a number of bytes with the
/// options `DECIMAL`: the number scaled by powers of 1000, with up to two
/// decimals, a blank and the unit.
pub uninterp spec fn decimal_size(bytes: u64) -> Seq<char>;

/// `humansize::format_size` with the options `DECIMAL`. The text depends on
/// the number alone.
#[verifier::external_body]
fn format_decimal(bytes: u64) -> (text: String)
    ensures
        text@ == decimal_size(bytes),
{
    humansize::format_size(bytes, humansize::DECIMAL)
}

/// A number of bytes as it is shown: scaled by powers of 1000, with its
/// unit.
pub fn size_text(bytes: u64) -> (text: String)
    ensures
        text@ == decimal_size(bytes),
{
    format_decimal(bytes)
}

/// The lines that tell the version and, given as `size`, how much the
/// directory of all workspaces holds.
pub open spec fn info(size: Seq<char>) -> Seq<char> {
    "tobi v1.0.0\n    Total size of CTF dir: "@ + size
}

/// The lines that tell the version and the size of the directory of all
/// workspaces, where `size` is that size as it is to be shown.
pub fn info_text(size: &str) -> (text: String)
    ensures
        text@ == info(size@),
{
    concat2("tobi v1.0.0\n    Total size of CTF dir: ", size)
}

/// The lines that tell the version and the size of the directory of all
/// workspaces, which holds `ctf_size` bytes.
pub fn print_info(ctf_size: u64) -> (text: String)
    ensures
        text@ == info(decimal_size(ctf_size)),
{
    let size = format_decimal(ctf_size);
    info_text(size.as_str())
}

/// The line that tells what packing or unpacking did to the size.
pub open spec fn size_change(verb: Seq<char>, before: Seq<char>, after: Seq<char>) -> Seq<char> {
    "Size "@ + verb + " from "@ + before + " to "@ + after
}

/// The line that tells what packing (`verb` is "reduced") or unpacking
/// ("inflated") did to the size, where `before` and `after` are the two
/// sizes as they are to be shown.
pub fn size_change_text(verb: &str, before: &str, after: &str) -> (text: String)
    ensures
        text@ == size_change(verb@, before@, after@),
{
    let mut text = concat2("Size ", verb);
    text.append(" from ");
    text.append(before);
    text.append(" to ");
    text.append(after);
    text
}

/// The line that tells what packing or unpacking did to the size, from
/// `before` bytes to `after` bytes.
pub fn size_change_line(verb: &str, before: u64, after: u64) -> (text: String)
    ensures
        text@ == size_change(verb@, decimal_size(before), decimal_size(after)),
{
    let b = format_decimal(before);
    let a = format_decimal(after);
    size_change_text(verb, b.as_str(), a.as_str())
}

/// The help text.
pub const HELP: &'static str = "tobi v1.0.0

Usage:
    tobi [options]

Options:
    help                        Print this help message

    ctf                         change dir to the current CTF workspace
     |_ <ctf_name/chall_name>   change dir to the specified CTF or challenge
     |_ <ctf_name> <chall_name> change dir to the specified challenge

    new
     |_ ctf <ctf_name>          create a new CTF workspace and change dir to it
     |_ <category> <chall_name> create a new challenge and change dir to it

    edit
     |_ <category> <chall_name> edit the current chall's category and name
     |_ ctf <ctf_name>          edit the current CTF's name

    rm
     |_ <ctf_name>              remove the specified CTF
     |_ <ctf_name> <chall_name> remove the specified challenge

    context                     show the current context
     |_ <ctf_name/chall_name>   switch current context to the specified CTf or challenge
     |_ <ctf_name> <chall_name> switch current context to the specified challenge

    list                        list all challenges for the current CTF
     |_ all                     list all CTFs and challenges
     |_ ctf                     list all CTFs
     |_ <ctf_name>              list all challenges in the specified CTF
     |_ flags                   list all flags for the current CTF
     |_ archived                list all archived CTFs
     
    solve <flag>                submit a flag for the current challenge
    unsolve                     remove the flag for the current challenge

    undo                        undo the last action

    archive/unarchive           archive/unarchive the current CTF
     |_ <ctf_name>              archive/unarchive the specified CTF

    settings                    open the settings TUI menu
    ";

/// The help text.
pub fn print_help() -> (text: &'static str)
    ensures
        text@ == HELP@,
{
    HELP
}

} // verus!
