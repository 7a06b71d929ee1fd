//! The active context: which workspace and which challenge the user is in,
//! the one line that stores it, and the only way to change it.
use vstd::prelude::*;
use vstd::string::*;
use crate::ctf::challenge::{Challenge, ChallengeView};
use crate::ctf::{Ctf, CtfView};
use crate::db::{
    chall_exists, chall_in_named, count_solved_and_total, ctf_named_as, get_challenge_in,
    get_ctf_from_name, is_ctf_archived, Store, StoreView,
};
use crate::seqs::{first_where, lemma_first_where, lemma_first_where_is};
use crate::text::{
    chall_dir, chall_path, concat3, is_char, lemma_trimmed_is_identity, split_two, trimmed,
    two_fields, valid_name, white_space,
};
use crate::effects::{change_dir_line, change_dir_text};

verus! {

/// The file that stores the active context: its text, or `None` where the
/// file is missing or cannot be read.
#[derive(Debug)]
pub struct ContextFile {
    pub text: Option<String>,
}

impl View for ContextFile {
    type V = Option<Seq<char>>;

    open spec fn view(&self) -> Option<Seq<char>> {
        match self.text {
            Some(t) => Some(t@),
            None => None,
        }
    }
}

/// Why the active context could not be loaded.
#[derive(Clone, Copy, Debug, PartialEq, Eq, Structural)]
pub enum ContextError {
    /// There is no context file yet.
    ContextFileMissing,
    /// The line has no colon, or a name in it stands for nothing. The file
    /// has been reset to the empty context.
    ContextCorrupted,
}

/// Why the context was not switched.
#[derive(Clone, Copy, Debug, PartialEq, Eq, Structural)]
pub enum SwitchError {
    /// The workspace is archived.
    TargetArchived,
    /// No workspace has the name.
    TargetNotFound,
    /// The workspace holds no challenge of the name.
    ChallengeNotInWorkspace,
}

/// Why no directory could be given for the context.
#[derive(Clone, Copy, Debug, PartialEq, Eq, Structural)]
pub enum PathError {
    /// No workspace is active.
    NoContext,
    /// The records name a directory that is not on disk.
    DirectoryOutOfSync,
}

/// The name, or the empty text for none.
pub open spec fn name_or_empty(name: Option<Seq<char>>) -> Seq<char> {
    match name {
        Some(n) => n,
        None => Seq::empty(),
    }
}

/// The line that stores a context: the workspace, a colon, the challenge.
pub open spec fn context_line(ctf: Option<Seq<char>>, chall: Option<Seq<char>>) -> Seq<char> {
    name_or_empty(ctf) + seq![':'] + name_or_empty(chall)
}

/// The two names that a stored line holds: what stands before its first
/// colon and what stands between that and the next, white space around the
/// line aside. `None` where the line has no colon.
pub open spec fn line_names(text: Seq<char>) -> Option<(Seq<char>, Seq<char>)> {
    two_fields(trimmed(text), ':')
}

/// A loaded context as contracts see it.
pub type LoadedView = Result<(Option<CtfView>, Option<ChallengeView>), ContextError>;

/// What loading gives for the file `file` and the records `store`. A name
/// that is empty stands for nothing. The workspace has to be one that is not
/// archived, and the challenge one that this workspace holds: a challenge
/// without a workspace, or one that the workspace does not hold, is a
/// corrupted context.
pub open spec fn load(file: Option<Seq<char>>, store: StoreView) -> LoadedView {
    match file {
        None => Err(ContextError::ContextFileMissing),
        Some(text) => match line_names(text) {
            None => Err(ContextError::ContextCorrupted),
            Some((w, c)) => if w.len() == 0 {
                if c.len() == 0 {
                    Ok((None, None))
                } else {
                    Err(ContextError::ContextCorrupted)
                }
            } else {
                match store.get_ctf(w, false) {
                    None => Err(ContextError::ContextCorrupted),
                    Some(ctf) => if c.len() == 0 {
                        Ok((Some(ctf), None))
                    } else {
                        match store.challenge_in(w, c) {
                            None => Err(ContextError::ContextCorrupted),
                            Some(ch) => Ok((Some(ctf), Some(ch))),
                        }
                    },
                }
            },
        },
    }
}

/// The file after loading: a corrupted context is replaced by the empty one,
/// anything else stays.
pub open spec fn after_load(file: Option<Seq<char>>, store: StoreView) -> Option<Seq<char>> {
    if load(file, store) == Err::<(Option<CtfView>, Option<ChallengeView>), ContextError>(
        ContextError::ContextCorrupted,
    ) {
        Some(context_line(None, None))
    } else {
        file
    }
}

/// What a loaded context is to contracts.
pub open spec fn loaded_view(r: Result<(Option<Ctf>, Option<Challenge>), ContextError>)
    -> LoadedView {
    match r {
        Ok((ctf, chall)) => Ok(
            (
                match ctf {
                    Some(c) => Some(c@),
                    None => None,
                },
                match chall {
                    Some(c) => Some(c@),
                    None => None,
                },
            ),
        ),
        Err(e) => Err(e),
    }
}

/// The view of a name that may be absent.
pub open spec fn name_view(name: Option<&String>) -> Option<Seq<char>> {
    match name {
        Some(n) => Some(n@),
        None => None,
    }
}

/// The two names that the file holds, as they stand in it.
pub open spec fn stored_names(file: Option<Seq<char>>) -> Option<(Seq<char>, Seq<char>)> {
    match file {
        Some(text) => line_names(text),
        None => None,
    }
}

/// The two names that the file holds, not looked up anywhere. `None` where
/// there is no file, or no colon in it.
pub fn active_names(file: &ContextFile) -> (r: Option<(String, String)>)
    ensures
        r.deep_view() == stored_names(file@),
{
    match &file.text {
        None => None,
        Some(text) => split_two(text.as_str().trim(), ':'),
    }
}

/// Loads the active context: the workspace and the challenge that the file
/// names, each looked up in the records. Where the file cannot be read as a
/// context, or names what the records do not hold, it is reset to the empty
/// context and the load fails.
pub fn get_context(file: &mut ContextFile, store: &Store) -> (r: Result<
    (Option<Ctf>, Option<Challenge>),
    ContextError,
>)
    ensures
        loaded_view(r) == load(old(file)@, store@),
        final(file)@ == after_load(old(file)@, store@),
{
    if file.text.is_none() {
        return Err(ContextError::ContextFileMissing);
    }
    let (w, c) = match active_names(file) {
        None => {
            save_context(file, None, None);
            return Err(ContextError::ContextCorrupted);
        },
        Some(pair) => pair,
    };
    if w.as_str().is_empty() {
        if c.as_str().is_empty() {
            return Ok((None, None));
        }
        save_context(file, None, None);
        return Err(ContextError::ContextCorrupted);
    }
    let ctf = match get_ctf_from_name(store, &w, false) {
        Ok(found) => found,
        Err(_) => {
            save_context(file, None, None);
            return Err(ContextError::ContextCorrupted);
        },
    };
    if c.as_str().is_empty() {
        return Ok((Some(ctf), None));
    }
    match get_challenge_in(store, &w, &c) {
        Some(found) => Ok((Some(ctf), Some(found))),
        None => {
            save_context(file, None, None);
            Err(ContextError::ContextCorrupted)
        },
    }
}

/// Stores a context: the file then holds the workspace's name, a colon and
/// the challenge's name, with nothing for a name that is absent.
pub fn save_context(file: &mut ContextFile, ctf_name: Option<&String>, chall_name: Option<&String>)
    ensures
        final(file)@ == Some(context_line(name_view(ctf_name), name_view(chall_name))),
{
    let left: &str = match ctf_name {
        Some(n) => n.as_str(),
        None => "",
    };
    let right: &str = match chall_name {
        Some(n) => n.as_str(),
        None => "",
    };
    proof {
        reveal_strlit("");
        reveal_strlit(":");
        assert(""@ =~= Seq::<char>::empty());
        assert(":"@ =~= seq![':']);
    }
    file.text = Some(concat3(left, ":", right));
}

impl StoreView {
    /// What a switch to the workspace `ctf` and the challenge `chall` gives:
    /// the workspace must not be archived and has to exist, and the
    /// challenge, where one is given, has to be one of its challenges.
    pub open spec fn switch(self, ctf: Seq<char>, chall: Option<Seq<char>>) -> Result<
        CtfView,
        SwitchError,
    > {
        if self.ctf_archived(ctf) == Some(true) {
            Err(SwitchError::TargetArchived)
        } else if self.get_ctf(ctf, false) is None {
            Err(SwitchError::TargetNotFound)
        } else if chall is Some && self.chall_count(ctf, chall->0) == 0 {
            Err(SwitchError::ChallengeNotInWorkspace)
        } else {
            Ok(self.get_ctf(ctf, false)->0)
        }
    }
}

/// Makes the workspace `ctf_name`, and the challenge `chall_name` where one
/// is given, the active context, and hands back the workspace. Nothing is
/// stored where the switch is refused.
pub fn switch_context(
    file: &mut ContextFile,
    store: &Store,
    ctf_name: &String,
    chall_name: Option<&String>,
) -> (r: Result<Ctf, SwitchError>)
    ensures
        match r {
            Ok(c) => store@.switch(ctf_name@, name_view(chall_name)) == Ok::<CtfView, SwitchError>(
                c@,
            ) && final(file)@ == Some(context_line(Some(ctf_name@), name_view(chall_name))),
            Err(e) => store@.switch(ctf_name@, name_view(chall_name)) == Err::<
                CtfView,
                SwitchError,
            >(e) && final(file)@ == old(file)@,
        },
{
    match is_ctf_archived(store, ctf_name) {
        Ok(true) => {
            return Err(SwitchError::TargetArchived);
        },
        _ => {},
    }
    let ctf = match get_ctf_from_name(store, ctf_name, false) {
        Ok(c) => c,
        Err(_) => {
            return Err(SwitchError::TargetNotFound);
        },
    };
    match chall_name {
        Some(name) => {
            if chall_exists(store, ctf_name, name) == 0 {
                return Err(SwitchError::ChallengeNotInWorkspace);
            }
        },
        None => {},
    }
    save_context(file, Some(ctf_name), chall_name);
    Ok(ctf)
}

/// Why a switch to `ctf` and `chall` is refused on the records `store`, where
/// it is.
pub open spec fn switch_refusal(store: StoreView, ctf: Seq<char>, chall: Option<Seq<char>>)
    -> Option<SwitchError> {
    match store.switch(ctf, chall) {
        Ok(_) => None,
        Err(e) => Some(e),
    }
}

/// The context file after the context was told to follow a change to the
/// workspace `ctf` and the challenge `chall`: their line where the switch is
/// accepted, the empty context where it is refused.
pub open spec fn followed(store: StoreView, ctf: Seq<char>, chall: Option<Seq<char>>) -> Option<
    Seq<char>,
> {
    if store.switch(ctf, chall) is Ok {
        Some(context_line(Some(ctf), chall))
    } else {
        Some(context_line(None, None))
    }
}

/// Lets the active context follow a change of the records: it is switched
/// to the workspace `ctf_name` and the challenge `chall_name`, or emptied
/// where that switch is refused, so that it names nothing that the records
/// do not hold. Hands back why the switch was refused, where it was.
pub fn follow(
    file: &mut ContextFile,
    store: &Store,
    ctf_name: &String,
    chall_name: Option<&String>,
) -> (refusal: Option<SwitchError>)
    ensures
        final(file)@ == followed(store@, ctf_name@, name_view(chall_name)),
        refusal == switch_refusal(store@, ctf_name@, name_view(chall_name)),
{
    match switch_context(file, store, ctf_name, chall_name) {
        Ok(_) => None,
        Err(e) => {
            save_context(file, None, None);
            Some(e)
        },
    }
}

/// The active context with the progress in its workspace.
#[derive(Debug)]
pub struct ContextReport {
    /// The active workspace.
    pub ctf: Option<Ctf>,
    /// The active challenge.
    pub challenge: Option<Challenge>,
    /// How many challenges of the workspace have a flag.
    pub solved: usize,
    /// How many challenges the workspace holds.
    pub total: usize,
}

/// Loads the active context and counts the solved challenges of its
/// workspace. Without an active workspace both counts are 0.
pub fn show_context(file: &mut ContextFile, store: &Store) -> (r: Result<
    ContextReport,
    ContextError,
>)
    ensures
        final(file)@ == after_load(old(file)@, store@),
        match r {
            Ok(report) => load(old(file)@, store@) == Ok::<
                (Option<CtfView>, Option<ChallengeView>),
                ContextError,
            >(
                (
                    match report.ctf {
                        Some(c) => Some(c@),
                        None => None,
                    },
                    match report.challenge {
                        Some(c) => Some(c@),
                        None => None,
                    },
                ),
            ) && match report.ctf {
                Some(c) => report.solved == store@.solved(c@.name) && report.total
                    == store@.total(c@.name),
                None => report.solved == 0 && report.total == 0,
            },
            Err(e) => load(old(file)@, store@) == Err::<
                (Option<CtfView>, Option<ChallengeView>),
                ContextError,
            >(e),
        },
{
    let (ctf, challenge) = get_context(file, store)?;
    let (solved, total) = match &ctf {
        Some(c) => count_solved_and_total(store, &c.metadata.name),
        None => (0, 0),
    };
    Ok(ContextReport { ctf, challenge, solved, total })
}

/// The directory that belongs to a context: that of the challenge, below the
/// workspace's name and the challenge's category, where a challenge is
/// active; else the workspace's own. `None` without a workspace.
pub open spec fn context_dir(
    workdir: Seq<char>,
    ctf: Option<CtfView>,
    chall: Option<ChallengeView>,
) -> Option<Seq<char>> {
    match ctf {
        None => None,
        Some(w) => match chall {
            Some(c) => Some(chall_dir(workdir, w.name, c.category.name(), c.name)),
            None => Some(w.file_path),
        },
    }
}

/// The directory that belongs to the context `ctf`, `chall`.
pub fn directory_for(workdir: &String, ctf: &Option<Ctf>, chall: &Option<Challenge>) -> (r: Option<
    String,
>)
    ensures
        r.deep_view() == context_dir(
            workdir@,
            match ctf {
                Some(c) => Some(c@),
                None => None,
            },
            match chall {
                Some(c) => Some(c@),
                None => None,
            },
        ),
{
    match ctf {
        None => None,
        Some(w) => match chall {
            Some(c) => Some(
                chall_path(
                    workdir.as_str(),
                    w.metadata.name.as_str(),
                    c.category.as_str(),
                    c.name.as_str(),
                ),
            ),
            None => Some(w.file_path.clone()),
        },
    }
}

/// The line that sends the shell to the directory of the context. `present`
/// says whether that directory, as `directory_for` gives it, is on disk: a
/// directory that the records name and the disk lacks is reported, not
/// passed over.
pub fn change_directory(
    workdir: &String,
    ctf: &Option<Ctf>,
    chall: &Option<Challenge>,
    present: bool,
) -> (r: Result<String, PathError>)
    ensures
        match context_dir(
            workdir@,
            match ctf {
                Some(c) => Some(c@),
                None => None,
            },
            match chall {
                Some(c) => Some(c@),
                None => None,
            },
        ) {
            None => r == Err::<String, PathError>(PathError::NoContext),
            Some(dir) => if present {
                r matches Ok(line) && line@ == change_dir_text(dir)
            } else {
                r == Err::<String, PathError>(PathError::DirectoryOutOfSync)
            },
        },
{
    match directory_for(workdir, ctf, chall) {
        None => Err(PathError::NoContext),
        Some(dir) => {
            if present {
                Ok(change_dir_line(dir.as_str()))
            } else {
                Err(PathError::DirectoryOutOfSync)
            }
        },
    }
}

/// Whether `s` holds no colon.
pub open spec fn no_colon(s: Seq<char>) -> bool {
    forall|i: int| 0 <= i < s.len() ==> s[i] != ':'
}

/// Whether the context line keeps the two names as they are: neither holds a
/// colon, the workspace's name does not start with white space and the
/// challenge's name does not end with it.
pub open spec fn storable(w: Seq<char>, c: Seq<char>) -> bool {
    &&& no_colon(w)
    &&& no_colon(c)
    &&& w.len() > 0 ==> !white_space(w[0])
    &&& c.len() > 0 ==> !white_space(c.last())
}

/// The line of two storable names is read back as these names.
pub proof fn lemma_line_round_trip(w: Seq<char>, c: Seq<char>)
    requires
        storable(w, c),
    ensures
        line_names(w + seq![':'] + c) == Some((w, c)),
{
    let line = w + seq![':'] + c;
    assert(line.len() == w.len() + 1 + c.len());
    assert(!white_space(':'));
    assert(line[0] == if w.len() > 0 {
        w[0]
    } else {
        ':'
    });
    assert(line.last() == if c.len() > 0 {
        c.last()
    } else {
        ':'
    });
    lemma_trimmed_is_identity(line);
    assert forall|j: int| 0 <= j < w.len() implies !is_char(':')(#[trigger] line[j]) by {
        assert(line[j] == w[j]);
    }
    assert(line[w.len() as int] == ':');
    lemma_first_where_is(line, is_char(':'), w.len() as int);
    let rest = line.subrange(w.len() as int + 1, line.len() as int);
    assert(rest =~= c);
    lemma_first_where_is(c, is_char(':'), c.len() as int);
    assert(rest.subrange(0, c.len() as int) =~= c);
    assert(line.subrange(0, w.len() as int) =~= w);
}

/// A valid name holds no colon and no white space, so two valid names are
/// storable.
pub proof fn lemma_valid_names_storable(w: Seq<char>, c: Seq<char>)
    requires
        valid_name(w),
        valid_name(c),
    ensures
        storable(w, c),
{
    assert(!white_space('_'));
    assert forall|i: int| 0 <= i < w.len() implies w[i] != ':' && !white_space(w[i]) by {
        assert(crate::text::accepted_char(w[i]));
    }
    assert forall|i: int| 0 <= i < c.len() implies c[i] != ':' && !white_space(c[i]) by {
        assert(crate::text::accepted_char(c[i]));
    }
}

impl StoreView {
    /// A workspace that is found by its name has that name.
    pub proof fn lemma_get_ctf_name(self, name: Seq<char>, archived: bool)
        requires
            self.get_ctf(name, archived) is Some,
        ensures
            self.get_ctf(name, archived)->0.name == name,
    {
        lemma_first_where(self.ctfs, ctf_named_as(name, archived));
    }

    /// A workspace holds a challenge of a name exactly where the challenge of
    /// that name can be had from it, and that challenge has the name.
    pub proof fn lemma_challenge_in(self, ctf: Seq<char>, chall: Seq<char>)
        ensures
            self.chall_count(ctf, chall) > 0 <==> self.challenge_in(ctf, chall) is Some,
            self.challenge_in(ctf, chall) matches Some(c) ==> c.name == chall,
    {
        let p = chall_in_named(self.open_ctf_id(ctf), chall);
        let kept = self.challenges.filter(p);
        let at = first_where(self.challenges, p);
        lemma_first_where(self.challenges, p);
        if kept.len() > 0 {
            self.challenges.lemma_filter_pred(p, 0);
            assert(kept.contains(kept[0]));
            self.challenges.lemma_filter_contains_rev(p, kept[0]);
            let j = choose|j: int| 0 <= j < self.challenges.len() && self.challenges[j] == kept[0];
            if at >= self.challenges.len() {
                assert(!p(self.challenges[j]));
            }
        }
        if at < self.challenges.len() {
            self.challenges.lemma_filter_contains(p, at);
        }
    }
}

/// After a switch that succeeded, loading gives the workspace and the
/// challenge that were switched to: the workspace of that name, and the
/// challenge of that name as this workspace holds it.
///
/// The names have to pass through the context line unchanged: they are
/// storable and not empty.
pub proof fn lemma_switch_then_load(store: StoreView, w: Seq<char>, c: Option<Seq<char>>)
    requires
        store.switch(w, c) is Ok,
        w.len() > 0,
        storable(w, name_or_empty(c)),
        c matches Some(n) ==> n.len() > 0,
    ensures
        load(Some(context_line(Some(w), c)), store) matches Ok((Some(ctf), chall)) && ctf
            == store.switch(w, c)->Ok_0 && ctf.name == w && (match c {
            Some(n) => chall matches Some(found) && store.challenge_in(w, n) == Some(found)
                && found.name == n,
            None => chall is None,
        }),
{
    lemma_line_round_trip(w, name_or_empty(c));
    store.lemma_get_ctf_name(w, false);
    match c {
        Some(n) => {
            store.lemma_challenge_in(w, n);
        },
        None => {},
    }
}

/// A context that followed a change always loads: it names the workspace
/// and the challenge that it was switched to, or nothing.
///
/// The names have to pass through the context line unchanged, as in
/// `lemma_switch_then_load`.
pub proof fn lemma_followed_context_loads(store: StoreView, w: Seq<char>, c: Option<Seq<char>>)
    requires
        w.len() > 0,
        storable(w, name_or_empty(c)),
        c matches Some(n) ==> n.len() > 0,
    ensures
        load(followed(store, w, c), store) is Ok,
{
    if store.switch(w, c) is Ok {
        lemma_switch_then_load(store, w, c);
    } else {
        lemma_line_round_trip(Seq::empty(), Seq::empty());
        assert(context_line(None, None) =~= Seq::<char>::empty() + seq![':'] + Seq::<char>::empty());
    }
}

/// A context that loads holds no challenge without a workspace; its
/// workspace is not archived, and its challenge is one that this workspace
/// holds.
pub proof fn lemma_loaded_context_is_sound(file: Option<Seq<char>>, store: StoreView)
    requires
        load(file, store) is Ok,
    ensures
        ({
            let (ctf, chall) = load(file, store)->Ok_0;
            let (w, c) = stored_names(file)->0;
            &&& stored_names(file) is Some
            &&& ctf is None <==> w.len() == 0
            &&& chall is None <==> c.len() == 0
            &&& chall is Some ==> ctf is Some
            &&& ctf matches Some(found) ==> store.get_ctf(w, false) == Some(found) && found.name == w
            &&& chall matches Some(found) ==> store.challenge_in(w, c) == Some(found) && found.name
                == c && store.chall_count(w, c) > 0
        }),
{
    let (w, c) = stored_names(file)->0;
    if w.len() > 0 {
        store.lemma_get_ctf_name(w, false);
        if c.len() > 0 {
            store.lemma_challenge_in(w, c);
        }
    }
}

/// Loading twice gives the same twice, and leaves the file as it was, unless
/// the first load finds the context corrupted.
pub proof fn lemma_load_is_idempotent(file: Option<Seq<char>>, store: StoreView)
    requires
        load(file, store) != Err::<(Option<CtfView>, Option<ChallengeView>), ContextError>(
            ContextError::ContextCorrupted,
        ),
    ensures
        after_load(file, store) == file,
        load(after_load(file, store), store) == load(file, store),
{
}

/// A load that finds the context corrupted leaves the empty context behind:
/// the next load succeeds with no workspace and no challenge.
pub proof fn lemma_corrupted_context_recovers(file: Option<Seq<char>>, store: StoreView)
    requires
        load(file, store) == Err::<(Option<CtfView>, Option<ChallengeView>), ContextError>(
            ContextError::ContextCorrupted,
        ),
    ensures
        after_load(file, store) == Some(seq![':']),
        load(after_load(file, store), store) == Ok::<
            (Option<CtfView>, Option<ChallengeView>),
            ContextError,
        >((None, None)),
{
    lemma_line_round_trip(Seq::empty(), Seq::empty());
    assert(context_line(None, None) =~= seq![':']);
}

/// What is saved is what is loaded: the line of two valid names is read back
/// as these names, and where both are not empty and name a workspace that is
/// not archived and a challenge that it holds, loading gives that workspace
/// and its challenge.
pub proof fn lemma_save_then_load(store: StoreView, w: Seq<char>, c: Seq<char>)
    requires
        valid_name(w),
        valid_name(c),
    ensures
        line_names(context_line(Some(w), Some(c))) == Some((w, c)),
        w.len() > 0 && c.len() > 0 && store.get_ctf(w, false) is Some && store.chall_count(w, c) > 0
            ==> (load(Some(context_line(Some(w), Some(c))), store) matches Ok(
            (Some(ctf), Some(chall)),
        ) && store.get_ctf(w, false) == Some(ctf) && store.challenge_in(w, c) == Some(chall)
            && ctf.name == w && chall.name == c),
{
    lemma_valid_names_storable(w, c);
    lemma_line_round_trip(w, c);
    if store.get_ctf(w, false) is Some {
        store.lemma_get_ctf_name(w, false);
    }
    store.lemma_challenge_in(w, c);
}

} // verus!
