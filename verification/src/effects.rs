//! What a command asks of its caller: changes to directories, and the lines
//! that tell the surrounding shell to change its working directory.
use vstd::prelude::*;
use vstd::string::*;
use crate::text::concat3;

verus! {

/// An effect as contracts see it.
pub enum EffectView {
    ChangeDir(Seq<char>),
    ChangeDirPlain(Seq<char>),
    CreateDir(Seq<char>),
    EnsureDir(Seq<char>),
    Rename(Seq<char>, Seq<char>),
    RemoveDirAll(Seq<char>),
    RemoveFile(Seq<char>),
    Shell(Seq<char>),
}

/// Something for the caller to do, in the order in which it is handed over.
#[derive(Debug)]
pub enum Effect {
    /// Print the line that `change_dir_line` gives for the path.
    ChangeDir(String),
    /// Print the line that `plain_change_dir_line` gives for the path.
    ChangeDirPlain(String),
    /// Create the directory.
    CreateDir(String),
    /// Create the directory unless it exists.
    EnsureDir(String),
    /// Rename the first path to the second.
    Rename(String, String),
    /// Remove the directory and everything below it.
    RemoveDirAll(String),
    /// Remove the file.
    RemoveFile(String),
    /// Run the command in a shell and wait for it.
    Shell(String),
}

impl View for Effect {
    type V = EffectView;

    open spec fn view(&self) -> EffectView {
        match self {
            Effect::ChangeDir(p) => EffectView::ChangeDir(p@),
            Effect::ChangeDirPlain(p) => EffectView::ChangeDirPlain(p@),
            Effect::CreateDir(p) => EffectView::CreateDir(p@),
            Effect::EnsureDir(p) => EffectView::EnsureDir(p@),
            Effect::Rename(a, b) => EffectView::Rename(a@, b@),
            Effect::RemoveDirAll(p) => EffectView::RemoveDirAll(p@),
            Effect::RemoveFile(p) => EffectView::RemoveFile(p@),
            Effect::Shell(c) => EffectView::Shell(c@),
        }
    }
}

impl DeepView for Effect {
    type V = EffectView;

    open spec fn deep_view(&self) -> EffectView {
        self@
    }
}

/// The line that asks the surrounding shell to change to `path`.
pub open spec fn change_dir_text(path: Seq<char>) -> Seq<char> {
    "^CHANGE_DIR^"@ + path + "^CHANGE_DIR^"@
}

/// The line that asks the surrounding shell to change to `path`, in the form
/// that the undo of a directory change and the edit of a challenge use.
pub open spec fn plain_change_dir_text(path: Seq<char>) -> Seq<char> {
    "CHANGE_DIR: "@ + path
}

/// The line that asks the surrounding shell to change to `path`.
pub fn change_dir_line(path: &str) -> (line: String)
    ensures
        line@ == change_dir_text(path@),
{
    concat3("^CHANGE_DIR^", path, "^CHANGE_DIR^")
}

/// The line that asks the surrounding shell to change to `path`, in its
/// second form.
pub fn plain_change_dir_line(path: &str) -> (line: String)
    ensures
        line@ == plain_change_dir_text(path@),
{
    let mut line = "CHANGE_DIR: ".to_string();
    line.append(path);
    line
}

/// No effect.
pub fn nothing() -> (r: Vec<Effect>)
    ensures
        r.deep_view() == Seq::<EffectView>::empty(),
{
    let r: Vec<Effect> = Vec::new();
    assert(r.deep_view() =~= Seq::<EffectView>::empty());
    r
}

} // verus!
