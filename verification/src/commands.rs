//! The commands that change the active context or the records, each
//! followed by the record that lets it be undone.
//!
//! A record is written only after the change has been made, so that an undo
//! never takes back what did not happen.
use vstd::prelude::*;
use vstd::string::*;
use crate::context::{
    active_names, after_load, change_directory, context_dir, context_line, follow, followed,
    get_context, PathError,
    lemma_followed_context_loads, lemma_line_round_trip, load, name_view, storable,
    save_context, stored_names, switch_context, switch_refusal, ContextError, ContextFile,
    SwitchError,
};
use crate::ctf::challenge::{
    check_type, edit_refusal, edit_steps, is_type_name, remove_chall, with_saved_challenge, Challenge, ChallengeType,
    ChallengeView, EditError, SaveError,
};
use crate::ctf::{
    archive_dir, archive_file, fresh_ctf, new_challenge, new_ctf_refusal, quick_new,
    unzip_command, zip_command, Creation, Ctf, CtfView, NewChallengeError, NewCtfError,
};
use crate::db::{
    ctf_named, ctf_named_as, get_challenge_from_name, get_challenge_in, get_ctf_from_name,
    get_ctf_name_from_challenge, is_ctf_archived, DbError, Store, StoreView,
};
use crate::seqs::lemma_first_where;
use crate::effects::{change_dir_line, change_dir_text, Effect, EffectView};
use crate::text::{
    category_dir, chall_dir, ctf_dir, is_valid_name, join_path, path_join, valid_name,
};
use crate::undo::{
    previous_names, switch_record, ActionKind, UndoAction, UndoActionView, UndoLog, UndoLogView,
};

verus! {

/// Hands the name back where it is valid: made of letters, digits and
/// underscores only.
pub fn validate(name: &String) -> (r: Option<&String>)
    ensures
        r is Some <==> valid_name(name@),
        r matches Some(n) ==> n@ == name@,
{
    if is_valid_name(name.as_str()) {
        Some(name)
    } else {
        None
    }
}

/// What a bare name stands for, as contracts see it.
pub enum TargetView {
    Workspace(Seq<char>),
    Challenge(Seq<char>, Seq<char>),
    Unknown,
}

/// What a bare name stands for.
#[derive(Debug)]
pub enum Target {
    /// The workspace of that name.
    Workspace(String),
    /// A challenge: first its workspace, then the challenge's name.
    Challenge(String, String),
    /// Nothing that can be switched to.
    Unknown,
}

impl View for Target {
    type V = TargetView;

    open spec fn view(&self) -> TargetView {
        match self {
            Target::Workspace(w) => TargetView::Workspace(w@),
            Target::Challenge(w, c) => TargetView::Challenge(w@, c@),
            Target::Unknown => TargetView::Unknown,
        }
    }
}

impl StoreView {
    /// What the bare name `name` stands for. A workspace that is not
    /// archived comes first; then a challenge, together with the workspace
    /// that holds it, which must not be archived.
    pub open spec fn resolve(self, name: Seq<char>) -> TargetView {
        if self.get_ctf(name, false) is Some {
            TargetView::Workspace(name)
        } else if self.get_challenge(name) is Ok {
            match self.open_owner(name) {
                Some(w) => TargetView::Challenge(w, name),
                None => TargetView::Unknown,
            }
        } else {
            TargetView::Unknown
        }
    }

    /// What a switch to the bare name `name` gives: the workspace switched
    /// to and the challenge, if the name stands for one.
    pub open spec fn switch_by_name(self, name: Seq<char>) -> Result<
        (CtfView, Option<Seq<char>>),
        SwitchError,
    > {
        if self.ctf_archived(name) == Some(true) {
            Err(SwitchError::TargetArchived)
        } else {
            match self.resolve(name) {
                TargetView::Workspace(w) => match self.switch(w, None) {
                    Ok(ctf) => Ok((ctf, None)),
                    Err(e) => Err(e),
                },
                TargetView::Challenge(w, c) => match self.switch(w, Some(c)) {
                    Ok(ctf) => Ok((ctf, Some(c))),
                    Err(e) => Err(e),
                },
                TargetView::Unknown => Err(SwitchError::TargetNotFound),
            }
        }
    }
}

/// Finds out what the bare name `name` stands for: a workspace first, then
/// a challenge.
pub fn resolve_name(store: &Store, name: &String) -> (t: Target)
    ensures
        t@ == store@.resolve(name@),
{
    if get_ctf_from_name(store, name, false).is_ok() {
        return Target::Workspace(name.clone());
    }
    if get_challenge_from_name(store, name.clone()).is_ok() {
        match get_ctf_name_from_challenge(store, name.clone()) {
            Ok(w) => Target::Challenge(w, name.clone()),
            Err(_) => Target::Unknown,
        }
    } else {
        Target::Unknown
    }
}

/// Switches the active context to the workspace `ctf_name` and, where one
/// is given, the challenge `chall_name`, and records the switch together
/// with the two names that were active before, so that they can be
/// restored. A switch that is refused changes nothing and records nothing.
pub fn switch_and_record(
    file: &mut ContextFile,
    log: &mut UndoLog,
    store: &Store,
    ctf_name: &String,
    chall_name: Option<&String>,
) -> (r: Result<Ctf, SwitchError>)
    ensures
        match store@.switch(ctf_name@, name_view(chall_name)) {
            Ok(ctf) => {
                &&& r matches Ok(c) && c@ == ctf
                &&& final(file)@ == Some(context_line(Some(ctf_name@), name_view(chall_name)))
                &&& final(log)@ == UndoLogView::Holds(
                    switch_record(ctf_name@, name_view(chall_name), previous_names(old(file)@)),
                )
            },
            Err(e) => r matches Err(x) && x == e && final(file)@ == old(file)@ && final(log)@
                == old(log)@,
        },
{
    proof {
        reveal_strlit("");
        assert(""@ =~= Seq::<char>::empty());
    }
    let (previous_ctf, previous_chall) = match active_names(file) {
        Some(names) => names,
        None => ("".to_string(), "".to_string()),
    };
    match switch_context(file, store, ctf_name, chall_name) {
        Ok(ctf) => {
            UndoAction::new_context_switch(
                ctf_name,
                chall_name,
                &previous_ctf,
                &previous_chall,
            ).log_action(log);
            Ok(ctf)
        },
        Err(e) => Err(e),
    }
}

/// Switches the active context to what the bare name `name` stands for, a
/// workspace or a challenge, and records the switch. The name of an
/// archived workspace is refused before anything else is tried.
pub fn switch_by_name(file: &mut ContextFile, log: &mut UndoLog, store: &Store, name: &String) -> (r:
    Result<Ctf, SwitchError>)
    ensures
        match store@.switch_by_name(name@) {
            Ok((ctf, chall)) => {
                &&& r matches Ok(c) && c@ == ctf
                &&& final(file)@ == Some(context_line(Some(ctf.name), chall))
                &&& final(log)@ == UndoLogView::Holds(
                    switch_record(ctf.name, chall, previous_names(old(file)@)),
                )
            },
            Err(e) => r matches Err(x) && x == e && final(file)@ == old(file)@ && final(log)@
                == old(log)@,
        },
{
    match is_ctf_archived(store, name) {
        Ok(true) => {
            return Err(SwitchError::TargetArchived);
        },
        _ => {},
    }
    match resolve_name(store, name) {
        Target::Workspace(w) => {
            proof {
                if store@.switch(w@, None) is Ok {
                    store@.lemma_get_ctf_name(w@, false);
                }
            }
            switch_and_record(file, log, store, &w, None)
        },
        Target::Challenge(w, c) => {
            proof {
                if store@.switch(w@, Some(c@)) is Ok {
                    store@.lemma_get_ctf_name(w@, false);
                }
            }
            switch_and_record(file, log, store, &w, Some(&c))
        },
        Target::Unknown => Err(SwitchError::TargetNotFound),
    }
}

/// Why the flag of the active challenge was not changed.
#[derive(Clone, Copy, Debug, PartialEq, Eq, Structural)]
pub enum SolveError {
    /// The active context could not be loaded.
    Context(ContextError),
    /// No workspace is active.
    NoWorkspace,
    /// No challenge is active.
    NoChallenge,
    /// The challenge could not be written to the records.
    Save(SaveError),
}

/// What solving or unsolving did, as contracts see it.
pub struct SolveView {
    pub result: Result<(Seq<char>, ChallengeView), SolveError>,
    pub store: StoreView,
    pub file: Option<Seq<char>>,
    pub log: UndoLogView,
}

/// What giving the active challenge the flag `flag` does. The record of the
/// change is `record`, made of the workspace and the challenge as they were
/// loaded.
pub open spec fn flagged(
    store: StoreView,
    file: Option<Seq<char>>,
    log: UndoLogView,
    flag: Seq<char>,
    record: spec_fn(Seq<char>, ChallengeView) -> UndoActionView,
) -> SolveView {
    match load(file, store) {
        Err(e) => SolveView {
            result: Err(SolveError::Context(e)),
            store,
            file: after_load(file, store),
            log,
        },
        Ok((None, _)) => SolveView { result: Err(SolveError::NoWorkspace), store, file, log },
        Ok((Some(_), None)) => SolveView { result: Err(SolveError::NoChallenge), store, file, log },
        Ok((Some(w), Some(ch))) => {
            let changed = ChallengeView { flag, ..ch };
            match with_saved_challenge(store, w.name, changed) {
                Err(e) => SolveView { result: Err(SolveError::Save(e)), store, file, log },
                Ok(s) => SolveView {
                    result: Ok((w.name, changed)),
                    store: s,
                    file,
                    log: UndoLogView::Holds(record(w.name, ch)),
                },
            }
        },
    }
}

/// The record of the solving of the challenge `ch` of the workspace `w`.
pub open spec fn solve_record() -> spec_fn(Seq<char>, ChallengeView) -> UndoActionView {
    |w: Seq<char>, ch: ChallengeView|
        UndoActionView { action: ActionKind::ChallengeSolve.tag(), args: seq![w, ch.name] }
}

/// The record of the unsolving of the challenge `ch` of the workspace `w`,
/// which keeps the flag that `ch` had.
pub open spec fn unsolve_record() -> spec_fn(Seq<char>, ChallengeView) -> UndoActionView {
    |w: Seq<char>, ch: ChallengeView|
        UndoActionView {
            action: ActionKind::ChallengeUnsolve.tag(),
            args: seq![w, ch.name, ch.flag],
        }
}

/// What solving or unsolving handed back, as contracts see it.
pub open spec fn solve_result_view(r: Result<(String, Challenge), SolveError>) -> Result<
    (Seq<char>, ChallengeView),
    SolveError,
> {
    match r {
        Ok((w, c)) => Ok((w@, c@)),
        Err(e) => Err(e),
    }
}

/// Gives the active challenge the flag `flag` and records that, so that the
/// flag can be cleared again. Hands back the name of the workspace and the
/// challenge with its flag.
pub fn solve(store: &mut Store, file: &mut ContextFile, log: &mut UndoLog, flag: String) -> (r:
    Result<(String, Challenge), SolveError>)
    ensures
        solve_result_view(r) == flagged(
            old(store)@,
            old(file)@,
            old(log)@,
            flag@,
            solve_record(),
        ).result,
        final(store)@ == flagged(old(store)@, old(file)@, old(log)@, flag@, solve_record()).store,
        final(file)@ == flagged(old(store)@, old(file)@, old(log)@, flag@, solve_record()).file,
        final(log)@ == flagged(old(store)@, old(file)@, old(log)@, flag@, solve_record()).log,
{
    let (ctf, mut challenge) = match get_context(file, store) {
        Err(e) => {
            return Err(SolveError::Context(e));
        },
        Ok((None, _)) => {
            return Err(SolveError::NoWorkspace);
        },
        Ok((Some(_), None)) => {
            return Err(SolveError::NoChallenge);
        },
        Ok((Some(ctf), Some(challenge))) => (ctf, challenge),
    };
    challenge.flag = flag;
    match challenge.save_to_db(store, &ctf.metadata.name) {
        Ok(_) => {},
        Err(e) => {
            return Err(SolveError::Save(e));
        },
    }
    UndoAction::new_chall_solve(&ctf.metadata.name, &challenge.name).log_action(log);
    Ok((ctf.metadata.name, challenge))
}

/// Clears the flag of the active challenge and records the flag that it
/// had, so that it can be given back.
pub fn unsolve(store: &mut Store, file: &mut ContextFile, log: &mut UndoLog) -> (r: Result<
    (String, Challenge),
    SolveError,
>)
    ensures
        solve_result_view(r) == flagged(
            old(store)@,
            old(file)@,
            old(log)@,
            Seq::empty(),
            unsolve_record(),
        ).result,
        final(store)@ == flagged(
            old(store)@,
            old(file)@,
            old(log)@,
            Seq::empty(),
            unsolve_record(),
        ).store,
        final(file)@ == flagged(
            old(store)@,
            old(file)@,
            old(log)@,
            Seq::empty(),
            unsolve_record(),
        ).file,
        final(log)@ == flagged(
            old(store)@,
            old(file)@,
            old(log)@,
            Seq::empty(),
            unsolve_record(),
        ).log,
{
    let (ctf, mut challenge) = match get_context(file, store) {
        Err(e) => {
            return Err(SolveError::Context(e));
        },
        Ok((None, _)) => {
            return Err(SolveError::NoWorkspace);
        },
        Ok((Some(_), None)) => {
            return Err(SolveError::NoChallenge);
        },
        Ok((Some(ctf), Some(challenge))) => (ctf, challenge),
    };
    proof {
        reveal_strlit("");
        assert(""@ =~= Seq::<char>::empty());
    }
    let record = UndoAction::new_chall_unsolve(&ctf.metadata.name, &challenge.name, &challenge.flag);
    challenge.flag = "".to_string();
    match challenge.save_to_db(store, &ctf.metadata.name) {
        Ok(_) => {},
        Err(e) => {
            return Err(SolveError::Save(e));
        },
    }
    record.log_action(log);
    Ok((ctf.metadata.name, challenge))
}

/// Records the new workspace `name`, lets the active context follow to it
/// and records its creation. `creation` says what became of its directory,
/// which callers create first. Where the directory was not created, or a
/// workspace bears the name already, nothing changes and nothing is
/// recorded: the log holds a creation only where a workspace was created.
pub fn create_ctf(
    store: &mut Store,
    file: &mut ContextFile,
    log: &mut UndoLog,
    workdir: &String,
    name: String,
    creation: Creation,
    now: String,
) -> (r: Result<Ctf, NewCtfError>)
    ensures
        match new_ctf_refusal(old(store)@, name@, creation) {
            Some(e) => r matches Err(x) && x == e && final(store)@ == old(store)@ && final(file)@
                == old(file)@ && final(log)@ == old(log)@,
            None => {
                &&& r matches Ok(c) && c@ == fresh_ctf(workdir@, name@, now@)
                &&& final(store)@ == old(store)@.with_new_ctf(fresh_ctf(workdir@, name@, now@))
                &&& final(file)@ == followed(final(store)@, name@, None)
                &&& final(log)@ == UndoLogView::Holds(
                    UndoActionView {
                        action: ActionKind::WorkspaceCreate.tag(),
                        args: seq![name@],
                    },
                )
            },
        },
{
    match quick_new(store, file, workdir, name, creation, now) {
        Ok(ctf) => {
            UndoAction::new_ctf_create(&ctf.metadata.name).log_action(log);
            Ok(ctf)
        },
        Err(e) => Err(e),
    }
}

/// Adds the challenge `name` of the category `category` to the active
/// workspace, lets the active context follow to it and records its
/// creation. Nothing is recorded where no challenge was added.
pub fn create_challenge(
    store: &mut Store,
    file: &mut ContextFile,
    log: &mut UndoLog,
    workdir: &String,
    name: String,
    category: String,
) -> (r: Result<(String, Challenge, Vec<Effect>), NewChallengeError>)
    ensures
        match r {
            Ok((w, c, effects)) => {
                &&& load(old(file)@, old(store)@) matches Ok((Some(ctf), _)) && ctf.name == w@
                &&& is_type_name(category@)
                &&& old(store)@.chall_count(w@, name@) == 0
                &&& c@ == (ChallengeView {
                    name: name@,
                    category: ChallengeType::of_name(category@),
                    flag: Seq::empty(),
                })
                &&& with_saved_challenge(old(store)@, w@, c@) == Ok::<StoreView, SaveError>(
                    final(store)@,
                )
                &&& effects.deep_view() == seq![
                    EffectView::EnsureDir(category_dir(workdir@, w@, c@.category.name())),
                    EffectView::CreateDir(chall_dir(workdir@, w@, c@.category.name(), name@)),
                ]
                &&& final(file)@ == followed(final(store)@, w@, Some(name@))
                &&& final(log)@ == UndoLogView::Holds(
                    UndoActionView {
                        action: ActionKind::ChallengeCreate.tag(),
                        args: seq![w@, name@],
                    },
                )
            },
            Err(e) => {
                &&& final(store)@ == old(store)@
                &&& final(log)@ == old(log)@
                &&& final(file)@ == after_load(old(file)@, old(store)@)
                &&& match load(old(file)@, old(store)@) {
                    Err(x) => e == NewChallengeError::Context(x),
                    Ok((None, _)) => e == NewChallengeError::NoWorkspace,
                    Ok((Some(ctf), _)) => if !is_type_name(category@) {
                        e == NewChallengeError::InvalidType
                    } else if old(store)@.chall_count(ctf.name, name@) > 0 {
                        e == NewChallengeError::AlreadyExists
                    } else {
                        with_saved_challenge(
                            old(store)@,
                            ctf.name,
                            ChallengeView {
                                name: name@,
                                category: ChallengeType::of_name(category@),
                                flag: Seq::empty(),
                            },
                        ) matches Err(x) && e == NewChallengeError::Save(x)
                    },
                }
            },
        },
{
    match new_challenge(store, file, workdir, name, category) {
        Ok((ctf_name, challenge, effects)) => {
            UndoAction::new_chall_create(&ctf_name, &challenge.name).log_action(log);
            Ok((ctf_name, challenge, effects))
        },
        Err(e) => Err(e),
    }
}

/// Why the active workspace or challenge was not edited.
#[derive(Clone, Copy, Debug, PartialEq, Eq, Structural)]
pub enum EditCommandError {
    /// The active context could not be loaded.
    Context(ContextError),
    /// No workspace is active.
    NoWorkspace,
    /// No challenge is active.
    NoChallenge,
    /// The category is not one of the known ones.
    InvalidType,
    /// The challenge could not be edited.
    Edit(EditError),
}

/// Renames the active workspace to `name`, records the renaming and lets
/// the active context follow to the new name. Hands back the workspace,
/// what is to be done on disk, and why the context was emptied in place of
/// following, where it was.
pub fn edit_ctf(
    store: &mut Store,
    file: &mut ContextFile,
    log: &mut UndoLog,
    workdir: &String,
    name: &String,
) -> (r: Result<(Ctf, Vec<Effect>, Option<SwitchError>), EditCommandError>)
    ensures
        match load(old(file)@, old(store)@) {
            Err(e) => r matches Err(x) && x == EditCommandError::Context(e) && final(store)@
                == old(store)@ && final(log)@ == old(log)@ && final(file)@ == after_load(
                old(file)@,
                old(store)@,
            ),
            Ok((None, _)) => r matches Err(x) && x == EditCommandError::NoWorkspace && final(store)@ == old(store)@ && final(log)@ == old(log)@ && final(file)@ == old(file)@,
            Ok((Some(w), _)) => {
                let renamed = old(store)@.with_ctf_renamed(w.name, name@, ctf_dir(workdir@, name@));
                &&& r matches Ok((c, effects, refusal))
                &&& c@ == (CtfView { name: name@, ..w })
                &&& effects.deep_view() == seq![
                    EffectView::Rename(ctf_dir(workdir@, w.name), ctf_dir(workdir@, name@)),
                    EffectView::ChangeDir(ctf_dir(workdir@, name@)),
                ]
                &&& final(store)@ == renamed
                &&& final(log)@ == UndoLogView::Holds(
                    UndoActionView {
                        action: ActionKind::WorkspaceRename.tag(),
                        args: seq![w.name, name@],
                    },
                )
                &&& refusal == switch_refusal(renamed, name@, None)
                &&& final(file)@ == followed(renamed, name@, None)
            },
        },
{
    let mut ctf = match get_context(file, store) {
        Err(e) => {
            return Err(EditCommandError::Context(e));
        },
        Ok((None, _)) => {
            return Err(EditCommandError::NoWorkspace);
        },
        Ok((Some(ctf), _)) => ctf,
    };
    let old_name = ctf.metadata.name.clone();
    let effects = ctf.change_name(store, workdir, name.clone());
    UndoAction::new_ctf_edit(&old_name, name).log_action(log);
    let refusal = follow(file, store, name, None);
    Ok((ctf, effects, refusal))
}

/// Renames the active challenge to `name` and puts it in the category
/// `category`, in the active workspace alone, records its old name and
/// category, and lets the active context follow to the new name. Hands back the challenge, what is to be
/// done on disk, and why the context was emptied in place of following,
/// where it was.
pub fn edit_challenge(
    store: &mut Store,
    file: &mut ContextFile,
    log: &mut UndoLog,
    workdir: &String,
    category: &String,
    name: &String,
) -> (r: Result<(Challenge, Vec<Effect>, Option<SwitchError>), EditCommandError>)
    ensures
        match load(old(file)@, old(store)@) {
            Err(e) => r matches Err(x) && x == EditCommandError::Context(e) && final(store)@
                == old(store)@ && final(log)@ == old(log)@ && final(file)@ == after_load(
                old(file)@,
                old(store)@,
            ),
            Ok((_, None)) => r matches Err(x) && x == EditCommandError::NoChallenge && final(store)@ == old(store)@ && final(log)@ == old(log)@ && final(file)@ == old(file)@,
            Ok((None, Some(_))) => r matches Err(x) && x == EditCommandError::NoWorkspace
                && final(store)@ == old(store)@ && final(log)@ == old(log)@ && final(file)@
                == old(file)@,
            Ok((Some(w), Some(ch))) => if !is_type_name(category@) {
                r matches Err(x) && x == EditCommandError::InvalidType && final(store)@ == old(
                    store,
                )@ && final(log)@ == old(log)@ && final(file)@ == old(file)@
            } else {
                match edit_refusal(old(store)@, w.name, ch.name, name@) {
                    Some(e) => r matches Err(x) && x == EditCommandError::Edit(e) && final(store)@ == old(store)@ && final(log)@ == old(log)@ && final(file)@ == old(file)@,
                    None => {
                        let renamed = old(store)@.with_challenge_renamed(
                            w.name,
                            ch.name,
                            name@,
                            category@,
                        );
                        &&& r matches Ok((c, effects, refusal))
                        &&& c@ == (ChallengeView {
                            name: name@,
                            category: ChallengeType::of_name(category@),
                            flag: ch.flag,
                        })
                        &&& effects.deep_view() == edit_steps(
                            workdir@,
                            w.name,
                            ch,
                            name@,
                            category@,
                        )
                        &&& final(store)@ == renamed
                        &&& final(log)@ == UndoLogView::Holds(
                            UndoActionView {
                                action: ActionKind::ChallengeEdit.tag(),
                                args: seq![w.name, ch.name, ch.category.name()],
                            },
                        )
                        &&& refusal == switch_refusal(renamed, w.name, Some(name@))
                        &&& final(file)@ == followed(renamed, w.name, Some(name@))
                    },
                }
            },
        },
{
    let (ctf, mut challenge) = match get_context(file, store) {
        Err(e) => {
            return Err(EditCommandError::Context(e));
        },
        Ok((_, None)) => {
            return Err(EditCommandError::NoChallenge);
        },
        Ok((None, Some(_))) => {
            return Err(EditCommandError::NoWorkspace);
        },
        Ok((Some(ctf), Some(challenge))) => (ctf, challenge),
    };
    if check_type(category.as_str()).is_none() {
        return Err(EditCommandError::InvalidType);
    }
    let record = UndoAction::new_chall_edit(
        &ctf.metadata.name,
        &challenge.name,
        &challenge.category.to_string(),
    );
    let effects = match challenge.edit_chall(store, workdir, &ctf.metadata.name, name, category) {
        Ok(effects) => effects,
        Err(e) => {
            return Err(EditCommandError::Edit(e));
        },
    };
    record.log_action(log);
    let refusal = follow(file, store, &ctf.metadata.name, Some(name));
    Ok((challenge, effects, refusal))
}

/// What was removed.
#[derive(Clone, Copy, Debug, PartialEq, Eq, Structural)]
pub enum Removed {
    /// A workspace with its directory.
    Workspace,
    /// An archived workspace with its archive.
    ArchivedWorkspace,
    /// A challenge with its directory.
    Challenge,
}

/// Why nothing was removed.
#[derive(Clone, Copy, Debug, PartialEq, Eq, Structural)]
pub enum RemoveError {
    /// The name stands for no workspace and no challenge.
    NotFound,
    /// The name stands for a challenge that no workspace holds which can
    /// be changed: its workspace is missing or archived.
    NoWorkspace,
}

/// What removing the bare name `name` does, as contracts see it.
pub struct RemovalView {
    pub result: Result<Removed, RemoveError>,
    pub store: StoreView,
    pub file: Option<Seq<char>>,
    pub effects: Seq<EffectView>,
}

/// What removing the bare name `name` does: a workspace of the name goes
/// first, then an archived one, then a challenge. Removing a workspace
/// empties the active context; removing a challenge lets it follow to the
/// workspace of the challenge.
pub open spec fn removal(
    store: StoreView,
    file: Option<Seq<char>>,
    workdir: Seq<char>,
    name: Seq<char>,
) -> RemovalView {
    if store.get_ctf(name, false) is Some {
        RemovalView {
            result: Ok(Removed::Workspace),
            store: store.without_ctf(name),
            file: Some(context_line(None, None)),
            effects: seq![EffectView::RemoveDirAll(ctf_dir(workdir, name))],
        }
    } else if store.get_ctf(name, true) is Some {
        RemovalView {
            result: Ok(Removed::ArchivedWorkspace),
            store: store.without_ctf(name),
            file: Some(context_line(None, None)),
            effects: seq![EffectView::RemoveFile(archive_file(workdir, name))],
        }
    } else {
        match store.get_challenge(name) {
            Err(_) => RemovalView {
                result: Err(RemoveError::NotFound),
                store,
                file,
                effects: Seq::empty(),
            },
            Ok(_) => match store.open_owner(name) {
                None => RemovalView {
                    result: Err(RemoveError::NoWorkspace),
                    store,
                    file,
                    effects: Seq::empty(),
                },
                Some(w) => match store.challenge_in(w, name) {
                    None => RemovalView {
                        result: Err(RemoveError::NoWorkspace),
                        store,
                        file,
                        effects: Seq::empty(),
                    },
                    Some(c) => RemovalView {
                        result: Ok(Removed::Challenge),
                        store: store.without_challenge_in(w, name),
                        file: followed(store.without_challenge_in(w, name), w, None),
                        effects: seq![
                            EffectView::RemoveDirAll(
                                chall_dir(workdir, w, c.category.name(), name),
                            ),
                        ],
                    },
                },
            },
        }
    }
}

/// After a removal the active context still loads: it names nothing, or the
/// workspace that held the removed challenge.
///
/// The name of that workspace has to pass through the context line
/// unchanged: it is not empty, holds no colon and does not start with white
/// space.
pub proof fn lemma_context_survives_removal(
    store: StoreView,
    file: Option<Seq<char>>,
    workdir: Seq<char>,
    name: Seq<char>,
)
    requires
        removal(store, file, workdir, name).result is Ok,
        store.open_owner(name) matches Some(w) ==> w.len() > 0 && storable(w, Seq::empty()),
    ensures
        load(
            removal(store, file, workdir, name).file,
            removal(store, file, workdir, name).store,
        ) is Ok,
{
    let after = removal(store, file, workdir, name);
    if after.result != Ok::<Removed, RemoveError>(Removed::Challenge) {
        lemma_line_round_trip(Seq::empty(), Seq::empty());
        assert(context_line(None, None) =~= Seq::<char>::empty() + seq![':'] + Seq::<char>::empty());
    } else {
        let w = store.open_owner(name)->0;
        lemma_followed_context_loads(after.store, w, None);
    }
}

/// Removes what the bare name `name` stands for: a workspace, an archived
/// workspace, or a challenge. Nothing is recorded, for a removal cannot be
/// undone.
pub fn remove_by_name(store: &mut Store, file: &mut ContextFile, workdir: &String, name: &String)
    -> (r: (Result<Removed, RemoveError>, Vec<Effect>))
    ensures
        r.0 == removal(old(store)@, old(file)@, workdir@, name@).result,
        r.1.deep_view() == removal(old(store)@, old(file)@, workdir@, name@).effects,
        final(store)@ == removal(old(store)@, old(file)@, workdir@, name@).store,
        final(file)@ == removal(old(store)@, old(file)@, workdir@, name@).file,
{
    match get_ctf_from_name(store, name, false) {
        Ok(ctf) => {
            proof {
                store@.lemma_get_ctf_name(name@, false);
            }
            return (Ok(Removed::Workspace), ctf.remove_ctf(store, file, workdir, false));
        },
        Err(_) => {},
    }
    match get_ctf_from_name(store, name, true) {
        Ok(ctf) => {
            proof {
                store@.lemma_get_ctf_name(name@, true);
            }
            return (Ok(Removed::ArchivedWorkspace), ctf.remove_ctf(store, file, workdir, true));
        },
        Err(_) => {},
    }
    if get_challenge_from_name(store, name.clone()).is_err() {
        return (Err(RemoveError::NotFound), crate::effects::nothing());
    }
    let owner = match get_ctf_name_from_challenge(store, name.clone()) {
        Ok(w) => w,
        Err(_) => {
            return (Err(RemoveError::NoWorkspace), crate::effects::nothing());
        },
    };
    match remove_chall(store, file, workdir, &owner, name) {
        Ok(effects) => (Ok(Removed::Challenge), effects),
        Err(_) => (Err(RemoveError::NoWorkspace), crate::effects::nothing()),
    }
}

/// Why a workspace was not archived, or not taken out of the archive.
#[derive(Clone, Copy, Debug, PartialEq, Eq, Structural)]
pub enum ArchiveError {
    /// The active context could not be loaded.
    Context(ContextError),
    /// No workspace is active.
    NoWorkspace,
    /// No workspace has the name.
    NotFound,
    /// The workspace is archived already.
    AlreadyArchived,
    /// The workspace is not archived.
    NotArchived,
}

/// The steps that pack the directory of the workspace `name`.
pub open spec fn zip_steps(workdir: Seq<char>, name: Seq<char>) -> Seq<EffectView> {
    seq![
        EffectView::EnsureDir(archive_dir(workdir)),
        EffectView::Shell(zip_command(archive_file(workdir, name), ctf_dir(workdir, name))),
        EffectView::RemoveDirAll(ctf_dir(workdir, name)),
    ]
}

/// The steps that unpack the archive of the workspace `name`.
pub open spec fn unzip_steps(workdir: Seq<char>, name: Seq<char>) -> Seq<EffectView> {
    seq![
        EffectView::EnsureDir(ctf_dir(workdir, name)),
        EffectView::Shell(unzip_command(archive_file(workdir, name), ctf_dir(workdir, name))),
        EffectView::RemoveFile(archive_file(workdir, name)),
    ]
}

/// Archives the active workspace, empties the active context and sends the
/// shell to the directory of all workspaces.
pub fn archive_current(store: &mut Store, file: &mut ContextFile, workdir: &String) -> (r: Result<
    (Ctf, Vec<Effect>),
    ArchiveError,
>)
    ensures
        match load(old(file)@, old(store)@) {
            Err(e) => r matches Err(x) && x == ArchiveError::Context(e) && final(store)@ == old(
                store,
            )@ && final(file)@ == after_load(old(file)@, old(store)@),
            Ok((None, _)) => r matches Err(x) && x == ArchiveError::NoWorkspace && final(store)@
                == old(store)@ && final(file)@ == old(file)@,
            Ok((Some(w), _)) => if old(store)@.ctf_archived(w.name) == Some(true) {
                r matches Err(x) && x == ArchiveError::AlreadyArchived && final(store)@ == old(
                    store,
                )@ && final(file)@ == old(file)@
            } else {
                &&& r matches Ok((c, effects)) && c@ == w && effects.deep_view() == zip_steps(
                    workdir@,
                    w.name,
                ).push(EffectView::ChangeDir(workdir@))
                &&& final(store)@ == old(store)@.with_mark(w.name, true)
                &&& final(file)@ == Some(context_line(None, None))
            },
        },
{
    let ctf = match get_context(file, store) {
        Err(e) => {
            return Err(ArchiveError::Context(e));
        },
        Ok((None, _)) => {
            return Err(ArchiveError::NoWorkspace);
        },
        Ok((Some(ctf), _)) => ctf,
    };
    match is_ctf_archived(store, &ctf.metadata.name) {
        Ok(true) => {
            return Err(ArchiveError::AlreadyArchived);
        },
        _ => {},
    }
    let mut effects = ctf.archive(store, workdir);
    save_context(file, None, None);
    let ghost before = effects.deep_view();
    effects.push(Effect::ChangeDir(workdir.clone()));
    assert(effects.deep_view() =~= before.push(EffectView::ChangeDir(workdir@)));
    Ok((ctf, effects))
}

/// Whether the context file names the workspace `name` as active.
pub open spec fn names_workspace(file: Option<Seq<char>>, name: Seq<char>) -> bool {
    stored_names(file) matches Some((w, _)) && w == name
}

/// Archives the workspace `name`. Where the shell stands inside its
/// directory, which `inside` says, it is first sent to the directory of all
/// workspaces. Where the workspace is the active one, the active context is
/// emptied, so that it never names an archived workspace.
pub fn archive_named(
    store: &mut Store,
    file: &mut ContextFile,
    workdir: &String,
    name: &String,
    inside: bool,
) -> (r: Result<Vec<Effect>, ArchiveError>)
    ensures
        match old(store)@.ctf_archived(name@) {
            None => r matches Err(x) && x == ArchiveError::NotFound && final(store)@ == old(
                store,
            )@ && final(file)@ == old(file)@,
            Some(true) => r matches Err(x) && x == ArchiveError::AlreadyArchived && final(store)@
                == old(store)@ && final(file)@ == old(file)@,
            Some(false) => {
                &&& r matches Ok(effects) && effects.deep_view() == if inside {
                    seq![EffectView::ChangeDir(workdir@)] + zip_steps(workdir@, name@)
                } else {
                    zip_steps(workdir@, name@)
                }
                &&& final(store)@ == old(store)@.with_mark(name@, true)
                &&& final(file)@ == if names_workspace(old(file)@, name@) {
                    Some(context_line(None, None))
                } else {
                    old(file)@
                }
            },
        },
{
    match is_ctf_archived(store, name) {
        Err(_) => {
            return Err(ArchiveError::NotFound);
        },
        Ok(true) => {
            return Err(ArchiveError::AlreadyArchived);
        },
        Ok(false) => {},
    }
    proof {
        lemma_first_where(store@.ctfs, ctf_named(name@));
        lemma_first_where(store@.ctfs, ctf_named_as(name@, false));
        store@.lemma_get_ctf_name(name@, false);
    }
    let ctf = match get_ctf_from_name(store, name, false) {
        Ok(ctf) => ctf,
        Err(_) => {
            return Err(ArchiveError::NotFound);
        },
    };
    let mut effects = ctf.archive(store, workdir);
    if inside {
        let ghost steps = effects.deep_view();
        effects.insert(0, Effect::ChangeDir(workdir.clone()));
        assert(effects.deep_view() =~= seq![EffectView::ChangeDir(workdir@)] + steps);
    }
    let active = match active_names(file) {
        Some((w, _)) => w == *name,
        None => false,
    };
    if active {
        save_context(file, None, None);
    }
    Ok(effects)
}

/// Takes the workspace `name` out of the archive.
pub fn unarchive_named(store: &mut Store, workdir: &String, name: &String) -> (r: Result<
    Vec<Effect>,
    ArchiveError,
>)
    ensures
        match old(store)@.ctf_archived(name@) {
            None => r matches Err(x) && x == ArchiveError::NotFound && final(store)@ == old(
                store,
            )@,
            Some(false) => r matches Err(x) && x == ArchiveError::NotArchived && final(store)@
                == old(store)@,
            Some(true) => r matches Ok(effects) && effects.deep_view() == unzip_steps(
                workdir@,
                name@,
            ) && final(store)@ == old(store)@.with_mark(name@, false),
        },
{
    match is_ctf_archived(store, name) {
        Err(_) => {
            return Err(ArchiveError::NotFound);
        },
        Ok(false) => {
            return Err(ArchiveError::NotArchived);
        },
        Ok(true) => {},
    }
    proof {
        lemma_first_where(store@.ctfs, ctf_named(name@));
        lemma_first_where(store@.ctfs, ctf_named_as(name@, true));
        store@.lemma_get_ctf_name(name@, true);
    }
    match get_ctf_from_name(store, name, true) {
        Ok(ctf) => Ok(ctf.unarchive(store, workdir)),
        Err(_) => Err(ArchiveError::NotFound),
    }
}

/// The line that sends the shell to the directory of the workspace `name`,
/// with the record of the directory `cur_dir` that it leaves. Nothing is
/// recorded where no workspace of the name is open.
pub fn go_to_ctf(store: &Store, log: &mut UndoLog, name: &String, cur_dir: String) -> (r: Result<
    String,
    DbError,
>)
    ensures
        match store@.get_ctf(name@, false) {
            Some(c) => r matches Ok(line) && line@ == change_dir_text(c.file_path) && final(log)@
                == UndoLogView::Holds(
                UndoActionView { action: ActionKind::DirChange.tag(), args: seq![cur_dir@] },
            ),
            None => r is Err && final(log)@ == old(log)@,
        },
{
    match get_ctf_from_name(store, name, false) {
        Ok(ctf) => {
            UndoAction::new_dir_change(cur_dir).log_action(log);
            Ok(change_dir_line(ctf.file_path.as_str()))
        },
        Err(e) => Err(e),
    }
}

/// Why the shell was not sent to a challenge.
#[derive(Clone, Copy, Debug, PartialEq, Eq, Structural)]
pub enum GoToError {
    /// No workspace of the name is open.
    NoWorkspace,
    /// No challenge has the name.
    NoChallenge,
}

/// The line that sends the shell to the directory of the category of the
/// challenge `chall_name`, inside the directory of the workspace
/// `ctf_name` that holds it, with the record of the directory `cur_dir`
/// that it leaves.
pub fn go_to_challenge(
    store: &Store,
    log: &mut UndoLog,
    ctf_name: &String,
    chall_name: &String,
    cur_dir: String,
) -> (r: Result<String, GoToError>)
    ensures
        match store@.get_ctf(ctf_name@, false) {
            None => r matches Err(e) && e == GoToError::NoWorkspace && final(log)@ == old(log)@,
            Some(c) => match store@.challenge_in(ctf_name@, chall_name@) {
                None => r matches Err(e) && e == GoToError::NoChallenge && final(log)@ == old(
                    log,
                )@,
                Some(ch) => r matches Ok(line) && line@ == change_dir_text(
                    path_join(c.file_path, ch.category.name()),
                ) && final(log)@ == UndoLogView::Holds(
                    UndoActionView { action: ActionKind::DirChange.tag(), args: seq![cur_dir@] },
                ),
            },
        },
{
    let ctf = match get_ctf_from_name(store, ctf_name, false) {
        Ok(c) => c,
        Err(_) => {
            return Err(GoToError::NoWorkspace);
        },
    };
    let challenge = match get_challenge_in(store, ctf_name, chall_name) {
        Some(c) => c,
        None => {
            return Err(GoToError::NoChallenge);
        },
    };
    UndoAction::new_dir_change(cur_dir).log_action(log);
    let dir = join_path(ctf.file_path.as_str(), challenge.category.as_str());
    Ok(change_dir_line(dir.as_str()))
}

/// The line that sends the shell to the directory of the context `ctf`,
/// `chall`, as `change_directory` gives it. Where `record` is set and the
/// line is given, the directory `cur_dir` that the shell leaves is
/// recorded: the log changes only once the shell is sent away.
pub fn go_to_context(
    workdir: &String,
    ctf: &Option<Ctf>,
    chall: &Option<Challenge>,
    present: bool,
    log: &mut UndoLog,
    cur_dir: String,
    record: bool,
) -> (r: Result<String, PathError>)
    ensures
        match context_dir(
            workdir@,
            match ctf {
                Some(c) => Some(c@),
                None => None,
            },
            match chall {
                Some(c) => Some(c@),
                None => None,
            },
        ) {
            None => r == Err::<String, PathError>(PathError::NoContext),
            Some(dir) => if present {
                r matches Ok(line) && line@ == change_dir_text(dir)
            } else {
                r == Err::<String, PathError>(PathError::DirectoryOutOfSync)
            },
        },
        final(log)@ == if r is Ok && record {
            UndoLogView::Holds(
                UndoActionView { action: ActionKind::DirChange.tag(), args: seq![cur_dir@] },
            )
        } else {
            old(log)@
        },
{
    match change_directory(workdir, ctf, chall, present) {
        Ok(line) => {
            if record {
                UndoAction::new_dir_change(cur_dir).log_action(log);
            }
            Ok(line)
        },
        Err(e) => Err(e),
    }
}

} // verus!
