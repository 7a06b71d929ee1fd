//! What the shell offers to complete a command line with.
use vstd::prelude::*;
use vstd::string::*;
use crate::ctf::challenge::{Challenge, ChallengeView};
use crate::ctf::{Ctf, CtfView};
use crate::db::{get_all_ctfs, get_ctf_from_name, Store, StoreView};
use crate::seqs::lemma_map_next;

verus! {

/// The commands.
pub open spec fn command_words() -> Seq<Seq<char>> {
    seq![
        "ctf"@,
        "new"@,
        "edit"@,
        "rm"@,
        "list"@,
        "context"@,
        "solve"@,
        "unsolve"@,
        "undo"@,
        "settings"@,
        "archive"@,
        "unarchive"@,
    ]
}

/// What can be created: a workspace, or a challenge of one of the
/// categories.
pub open spec fn new_words() -> Seq<Seq<char>> {
    seq!["ctf"@, "web"@, "pwn"@, "crypto"@, "misc"@, "reversing"@, "forensics"@]
}

/// Whether the command `word` takes the name of an open workspace.
pub open spec fn takes_ctf(word: Seq<char>) -> bool {
    word == "ctf"@ || word == "context"@ || word == "list"@ || word == "rm"@ || word
        == "archive"@
}

/// Whether the command `word` takes the name of a challenge after that of a
/// workspace.
pub open spec fn takes_challenge(word: Seq<char>) -> bool {
    word == "ctf"@ || word == "context"@ || word == "rm"@
}

/// The name of a workspace.
pub open spec fn ctf_name() -> spec_fn(CtfView) -> Seq<char> {
    |c: CtfView| c.name
}

/// The name of a challenge.
pub open spec fn chall_name() -> spec_fn(ChallengeView) -> Seq<char> {
    |c: ChallengeView| c.name
}

/// The words that complete the command line `args` at its word number
/// `level`: the commands at the first, what the command `args[1]` takes at
/// the second, and the challenges of the workspace `args[2]` at the third.
/// `None` where that workspace is not to be found.
pub open spec fn completion(store: StoreView, level: int, args: Seq<Seq<char>>) -> Option<
    Seq<Seq<char>>,
> {
    if level == 1 {
        Some(command_words())
    } else if level == 2 && args.len() >= 2 {
        if takes_ctf(args[1]) {
            Some(store.all_ctfs(false).map_values(ctf_name()))
        } else if args[1] == "unarchive"@ {
            Some(store.all_ctfs(true).map_values(ctf_name()))
        } else if args[1] == "new"@ {
            Some(new_words())
        } else {
            Some(Seq::empty())
        }
    } else if level == 3 && args.len() >= 3 && takes_challenge(args[1]) {
        match store.get_ctf(args[2], false) {
            Some(c) => Some(c.challenges.map_values(chall_name())),
            None => None,
        }
    } else {
        Some(Seq::empty())
    }
}

/// The names of the workspaces `ctfs`.
fn ctf_names(ctfs: &Vec<Ctf>) -> (names: Vec<String>)
    ensures
        names.deep_view() == ctfs.deep_view().map_values(ctf_name()),
{
    let ghost all = ctfs.deep_view();
    let mut names: Vec<String> = Vec::new();
    let mut i: usize = 0;
    assert(names.deep_view() =~= all.take(0).map_values(ctf_name()));
    while i < ctfs.len()
        invariant
            i <= ctfs.len(),
            all == ctfs.deep_view(),
            names.deep_view() == all.take(i as int).map_values(ctf_name()),
        decreases ctfs.len() - i,
    {
        proof {
            lemma_map_next(all, ctf_name(), i as int);
        }
        let ghost before = names.deep_view();
        let name = ctfs[i].metadata.name.clone();
        names.push(name);
        assert(names.deep_view() =~= before.push(name@));
        i = i + 1;
    }
    assert(all.take(ctfs.len() as int) =~= all);
    names
}

/// The names of the challenges `challenges`.
fn chall_names(challenges: &Vec<Challenge>) -> (names: Vec<String>)
    ensures
        names.deep_view() == challenges.deep_view().map_values(chall_name()),
{
    let ghost all = challenges.deep_view();
    let mut names: Vec<String> = Vec::new();
    let mut i: usize = 0;
    assert(names.deep_view() =~= all.take(0).map_values(chall_name()));
    while i < challenges.len()
        invariant
            i <= challenges.len(),
            all == challenges.deep_view(),
            names.deep_view() == all.take(i as int).map_values(chall_name()),
        decreases challenges.len() - i,
    {
        proof {
            lemma_map_next(all, chall_name(), i as int);
        }
        let ghost before = names.deep_view();
        let name = challenges[i].name.clone();
        names.push(name);
        assert(names.deep_view() =~= before.push(name@));
        i = i + 1;
    }
    assert(all.take(challenges.len() as int) =~= all);
    names
}

/// The words of `words`, owned.
fn owned(words: &[&str]) -> (out: Vec<String>)
    ensures
        out.deep_view().len() == words@.len(),
        forall|i: int| 0 <= i < words@.len() ==> out.deep_view()[i] == (#[trigger] words@[i])@,
{
    let mut out: Vec<String> = Vec::new();
    let mut i: usize = 0;
    while i < words.len()
        invariant
            i <= words@.len(),
            out@.len() == i,
            forall|j: int| 0 <= j < i ==> out@[j]@ == (#[trigger] words@[j])@,
        decreases words@.len() - i,
    {
        out.push(words[i].to_string());
        i = i + 1;
    }
    out
}

/// The words that complete the command line `args`, whose first word is
/// passed over, at its word number `level`.
pub fn print_completion(store: &Store, level: i32, args: &Vec<String>) -> (r: Option<Vec<String>>)
    ensures
        r.deep_view() == completion(store@, level as int, args.deep_view()),
{
    if level == 1 {
        let words = owned(
            &[
                "ctf",
                "new",
                "edit",
                "rm",
                "list",
                "context",
                "solve",
                "unsolve",
                "undo",
                "settings",
                "archive",
                "unarchive",
            ],
        );
        assert(words.deep_view() =~= command_words());
        return Some(words);
    }
    if level == 2 && args.len() >= 2 {
        let word = args[1].as_str();
        if word.eq("ctf") || word.eq("context") || word.eq("list") || word.eq("rm") || word.eq(
            "archive",
        ) {
            return Some(ctf_names(&get_all_ctfs(store, false)));
        }
        if word.eq("unarchive") {
            return Some(ctf_names(&get_all_ctfs(store, true)));
        }
        if word.eq("new") {
            let words = owned(&["ctf", "web", "pwn", "crypto", "misc", "reversing", "forensics"]);
            assert(words.deep_view() =~= new_words());
            return Some(words);
        }
        let none: Vec<String> = Vec::new();
        assert(none.deep_view() =~= Seq::<Seq<char>>::empty());
        return Some(none);
    }
    if level == 3 && args.len() >= 3 {
        let word = args[1].as_str();
        if word.eq("ctf") || word.eq("context") || word.eq("rm") {
            return match get_ctf_from_name(store, &args[2], false) {
                Ok(ctf) => Some(chall_names(&ctf.challenges)),
                Err(_) => None,
            };
        }
    }
    let none: Vec<String> = Vec::new();
    assert(none.deep_view() =~= Seq::<Seq<char>>::empty());
    Some(none)
}

} // verus!
