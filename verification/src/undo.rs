//! The undo log: room for one record of the last change, and the replay
//! that takes the change back.
//!
//! Recording overwrites whatever the log held. Undoing reads the record,
//! performs the inverse of the change that it names, and leaves the log
//! empty whether or not that went well, so that no record is replayed twice.
use vstd::prelude::*;
use vstd::string::*;
use crate::context::{
    after_load, context_line, follow, followed, get_context, load, name_view, save_context,
    stored_names, switch_refusal, ContextFile, SwitchError,
};
use crate::ctf::challenge::{edit_refusal, edit_steps, remove_chall};
use crate::db::{get_ctf_from_name, remove_ctf, set_chall_flag, Store, StoreView};
use crate::effects::{Effect, EffectView};
use crate::text::{chall_dir, ctf_dir, join_path};

verus! {

/// The changes that can be taken back.
#[derive(Clone, Copy, Debug, PartialEq, Eq, Structural)]
pub enum ActionKind {
    /// The user went into a directory. Recorded: the directory left.
    DirChange,
    /// A workspace was created. Recorded: its name.
    WorkspaceCreate,
    /// A workspace was renamed. Recorded: the old name, the new name.
    WorkspaceRename,
    /// A challenge was created. Recorded: the workspace, the challenge.
    ChallengeCreate,
    /// A challenge got its flag. Recorded: the workspace, the challenge.
    ChallengeSolve,
    /// A challenge lost its flag. Recorded: the workspace, the challenge,
    /// the flag that it had.
    ChallengeUnsolve,
    /// A challenge was renamed or moved to another category. Recorded: the
    /// workspace, the old name, the old category.
    ChallengeEdit,
    /// The active context changed. Recorded: the workspace and the
    /// challenge that were switched to, then the workspace and the
    /// challenge that were active before; an empty name stands for none.
    /// Taking it back stores the pair that was active before.
    ContextSwitch,
}

impl ActionKind {
    /// The tag under which the kind is recorded.
    pub open spec fn tag(self) -> Seq<char> {
        match self {
            ActionKind::DirChange => "cd"@,
            ActionKind::WorkspaceCreate => "ctf_new"@,
            ActionKind::WorkspaceRename => "ctf_edit"@,
            ActionKind::ChallengeCreate => "chall_new"@,
            ActionKind::ChallengeSolve => "chall_solve"@,
            ActionKind::ChallengeUnsolve => "chall_unsolve"@,
            ActionKind::ChallengeEdit => "chall_edit"@,
            ActionKind::ContextSwitch => "context_switch"@,
        }
    }

    /// The kind that the tag `s` stands for.
    pub open spec fn of_tag(s: Seq<char>) -> Option<ActionKind> {
        if s == "cd"@ {
            Some(ActionKind::DirChange)
        } else if s == "ctf_new"@ {
            Some(ActionKind::WorkspaceCreate)
        } else if s == "ctf_edit"@ {
            Some(ActionKind::WorkspaceRename)
        } else if s == "chall_new"@ {
            Some(ActionKind::ChallengeCreate)
        } else if s == "chall_solve"@ {
            Some(ActionKind::ChallengeSolve)
        } else if s == "chall_unsolve"@ {
            Some(ActionKind::ChallengeUnsolve)
        } else if s == "chall_edit"@ {
            Some(ActionKind::ChallengeEdit)
        } else if s == "context_switch"@ {
            Some(ActionKind::ContextSwitch)
        } else {
            None
        }
    }

    /// How many arguments a record of the kind holds.
    pub open spec fn arity(self) -> nat {
        match self {
            ActionKind::DirChange => 1,
            ActionKind::WorkspaceCreate => 1,
            ActionKind::WorkspaceRename => 2,
            ActionKind::ChallengeCreate => 2,
            ActionKind::ChallengeSolve => 2,
            ActionKind::ChallengeUnsolve => 3,
            ActionKind::ChallengeEdit => 3,
            ActionKind::ContextSwitch => 4,
        }
    }

    /// The kind that the tag `s` stands for.
    pub fn from_tag(s: &str) -> (k: Option<Self>)
        ensures
            k == Self::of_tag(s@),
    {
        if s.eq("cd") {
            Some(ActionKind::DirChange)
        } else if s.eq("ctf_new") {
            Some(ActionKind::WorkspaceCreate)
        } else if s.eq("ctf_edit") {
            Some(ActionKind::WorkspaceRename)
        } else if s.eq("chall_new") {
            Some(ActionKind::ChallengeCreate)
        } else if s.eq("chall_solve") {
            Some(ActionKind::ChallengeSolve)
        } else if s.eq("chall_unsolve") {
            Some(ActionKind::ChallengeUnsolve)
        } else if s.eq("chall_edit") {
            Some(ActionKind::ChallengeEdit)
        } else if s.eq("context_switch") {
            Some(ActionKind::ContextSwitch)
        } else {
            None
        }
    }

    /// The tag under which the kind is recorded.
    pub fn as_tag(&self) -> (s: &'static str)
        ensures
            s@ == self.tag(),
    {
        match self {
            ActionKind::DirChange => "cd",
            ActionKind::WorkspaceCreate => "ctf_new",
            ActionKind::WorkspaceRename => "ctf_edit",
            ActionKind::ChallengeCreate => "chall_new",
            ActionKind::ChallengeSolve => "chall_solve",
            ActionKind::ChallengeUnsolve => "chall_unsolve",
            ActionKind::ChallengeEdit => "chall_edit",
            ActionKind::ContextSwitch => "context_switch",
        }
    }

    /// How many arguments a record of the kind holds.
    pub fn arg_count(&self) -> (n: usize)
        ensures
            n == self.arity(),
    {
        match self {
            ActionKind::DirChange => 1,
            ActionKind::WorkspaceCreate => 1,
            ActionKind::WorkspaceRename => 2,
            ActionKind::ChallengeCreate => 2,
            ActionKind::ChallengeSolve => 2,
            ActionKind::ChallengeUnsolve => 3,
            ActionKind::ChallengeEdit => 3,
            ActionKind::ContextSwitch => 4,
        }
    }

    /// The tags tell the kinds apart: each kind is read back from its own
    /// tag.
    pub proof fn lemma_tag_round_trip(self)
        ensures
            Self::of_tag(self.tag()) == Some(self),
    {
        reveal_strlit("cd");
        reveal_strlit("ctf_new");
        reveal_strlit("ctf_edit");
        reveal_strlit("chall_new");
        reveal_strlit("chall_solve");
        reveal_strlit("chall_unsolve");
        reveal_strlit("chall_edit");
        reveal_strlit("context_switch");
        assert("cd"@.len() == 2 && "ctf_new"@.len() == 7 && "ctf_edit"@.len() == 8);
        assert("chall_new"@.len() == 9 && "chall_solve"@.len() == 11);
        assert("chall_unsolve"@.len() == 13 && "chall_edit"@.len() == 10);
        assert("context_switch"@.len() == 14);
    }
}

/// A record as contracts see it.
pub struct UndoActionView {
    pub action: Seq<char>,
    pub args: Seq<Seq<char>>,
}

/// A record of one change: the tag of its kind and what is needed to take
/// it back.
#[derive(Debug)]
pub struct UndoAction {
    pub action: String,
    pub args: Vec<String>,
}

impl View for UndoAction {
    type V = UndoActionView;

    open spec fn view(&self) -> UndoActionView {
        UndoActionView { action: self.action@, args: self.args.deep_view() }
    }
}

impl UndoActionView {
    /// The kind of the record, where its tag is known and it holds as many
    /// arguments as the kind needs.
    pub open spec fn kind(self) -> Option<ActionKind> {
        match ActionKind::of_tag(self.action) {
            Some(k) => if self.args.len() >= k.arity() {
                Some(k)
            } else {
                None
            },
            None => None,
        }
    }
}

/// The log as contracts see it.
pub enum UndoLogView {
    Empty,
    Unreadable,
    Holds(UndoActionView),
}

/// The undo log. It has room for one record.
#[derive(Debug)]
pub enum UndoLog {
    /// Nothing is recorded.
    Empty,
    /// Something is recorded that cannot be read as a record.
    Unreadable,
    /// The record of the last change.
    Holds(UndoAction),
}

impl View for UndoLog {
    type V = UndoLogView;

    open spec fn view(&self) -> UndoLogView {
        match self {
            UndoLog::Empty => UndoLogView::Empty,
            UndoLog::Unreadable => UndoLogView::Unreadable,
            UndoLog::Holds(a) => UndoLogView::Holds(a@),
        }
    }
}

/// The two names that were active before a switch: those that the context
/// file held, and two empty names where it held none.
pub open spec fn previous_names(file: Option<Seq<char>>) -> (Seq<char>, Seq<char>) {
    match stored_names(file) {
        Some(names) => names,
        None => (Seq::empty(), Seq::empty()),
    }
}

/// The record of a switch to the workspace `ctf` and the challenge `chall`
/// that keeps the two names `previous` that were active before; the empty
/// name stands for no challenge.
pub open spec fn switch_record(
    ctf: Seq<char>,
    chall: Option<Seq<char>>,
    previous: (Seq<char>, Seq<char>),
) -> UndoActionView {
    UndoActionView {
        action: ActionKind::ContextSwitch.tag(),
        args: seq![
            ctf,
            match chall {
                Some(n) => n,
                None => Seq::empty(),
            },
            previous.0,
            previous.1,
        ],
    }
}

/// One text.
fn args1(a: &String) -> (v: Vec<String>)
    ensures
        v.deep_view() == seq![a@],
{
    let mut v: Vec<String> = Vec::new();
    v.push(a.clone());
    assert(v.deep_view() =~= seq![a@]);
    v
}

/// Two texts.
fn args2(a: &String, b: &String) -> (v: Vec<String>)
    ensures
        v.deep_view() == seq![a@, b@],
{
    let mut v: Vec<String> = Vec::new();
    v.push(a.clone());
    v.push(b.clone());
    assert(v.deep_view() =~= seq![a@, b@]);
    v
}

/// Four texts.
fn args4(a: &String, b: &String, c: &String, d: &String) -> (v: Vec<String>)
    ensures
        v.deep_view() == seq![a@, b@, c@, d@],
{
    let mut v: Vec<String> = Vec::new();
    v.push(a.clone());
    v.push(b.clone());
    v.push(c.clone());
    v.push(d.clone());
    assert(v.deep_view() =~= seq![a@, b@, c@, d@]);
    v
}

/// Three texts.
fn args3(a: &String, b: &String, c: &String) -> (v: Vec<String>)
    ensures
        v.deep_view() == seq![a@, b@, c@],
{
    let mut v: Vec<String> = Vec::new();
    v.push(a.clone());
    v.push(b.clone());
    v.push(c.clone());
    assert(v.deep_view() =~= seq![a@, b@, c@]);
    v
}

impl UndoAction {
    /// A record with the given tag and arguments.
    pub fn new(action: String, args: Vec<String>) -> (r: Self)
        ensures
            r@ == (UndoActionView { action: action@, args: args.deep_view() }),
    {
        UndoAction { action, args }
    }

    /// Puts the record in the log, in place of whatever the log held.
    pub fn log_action(self, log: &mut UndoLog)
        ensures
            final(log)@ == UndoLogView::Holds(self@),
    {
        *log = UndoLog::Holds(self);
    }

    /// The record of a change of directory away from `cur_dir`.
    pub fn new_dir_change(cur_dir: String) -> (r: Self)
        ensures
            r@ == (UndoActionView { action: ActionKind::DirChange.tag(), args: seq![cur_dir@] }),
    {
        UndoAction::new(ActionKind::DirChange.as_tag().to_string(), args1(&cur_dir))
    }

    /// The record of the creation of the workspace `name`.
    pub fn new_ctf_create(name: &String) -> (r: Self)
        ensures
            r@ == (UndoActionView {
                action: ActionKind::WorkspaceCreate.tag(),
                args: seq![name@],
            }),
    {
        UndoAction::new(ActionKind::WorkspaceCreate.as_tag().to_string(), args1(name))
    }

    /// The record of the creation of the challenge `name` in the workspace
    /// `ctf_name`.
    pub fn new_chall_create(ctf_name: &String, name: &String) -> (r: Self)
        ensures
            r@ == (UndoActionView {
                action: ActionKind::ChallengeCreate.tag(),
                args: seq![ctf_name@, name@],
            }),
    {
        UndoAction::new(ActionKind::ChallengeCreate.as_tag().to_string(), args2(ctf_name, name))
    }

    /// The record of a flag given to the challenge `chall_name` of the
    /// workspace `ctf_name`.
    pub fn new_chall_solve(ctf_name: &String, chall_name: &String) -> (r: Self)
        ensures
            r@ == (UndoActionView {
                action: ActionKind::ChallengeSolve.tag(),
                args: seq![ctf_name@, chall_name@],
            }),
    {
        UndoAction::new(
            ActionKind::ChallengeSolve.as_tag().to_string(),
            args2(ctf_name, chall_name),
        )
    }

    /// The record of the flag `flag` taken from the challenge `chall_name`
    /// of the workspace `ctf_name`.
    pub fn new_chall_unsolve(ctf_name: &String, chall_name: &String, flag: &String) -> (r: Self)
        ensures
            r@ == (UndoActionView {
                action: ActionKind::ChallengeUnsolve.tag(),
                args: seq![ctf_name@, chall_name@, flag@],
            }),
    {
        UndoAction::new(
            ActionKind::ChallengeUnsolve.as_tag().to_string(),
            args3(ctf_name, chall_name, flag),
        )
    }

    /// The record of a switch to the workspace `ctf_name` and the challenge
    /// `chall_name`, away from the workspace `previous_ctf` and the
    /// challenge `previous_chall`; the empty name stands for none.
    pub fn new_context_switch(
        ctf_name: &String,
        chall_name: Option<&String>,
        previous_ctf: &String,
        previous_chall: &String,
    ) -> (r: Self)
        ensures
            r@ == switch_record(
                ctf_name@,
                name_view(chall_name),
                (previous_ctf@, previous_chall@),
            ),
    {
        proof {
            reveal_strlit("");
            assert(""@ =~= Seq::<char>::empty());
        }
        let chall = match chall_name {
            Some(n) => n.clone(),
            None => "".to_string(),
        };
        let args = args4(ctf_name, &chall, previous_ctf, previous_chall);
        assert(args.deep_view() =~= switch_record(
            ctf_name@,
            name_view(chall_name),
            (previous_ctf@, previous_chall@),
        ).args);
        UndoAction::new(ActionKind::ContextSwitch.as_tag().to_string(), args)
    }

    /// The record of an edit of the challenge that was named `name` and in
    /// the category `category`, in the workspace `ctf_name`.
    pub fn new_chall_edit(ctf_name: &String, name: &String, category: &String) -> (r: Self)
        ensures
            r@ == (UndoActionView {
                action: ActionKind::ChallengeEdit.tag(),
                args: seq![ctf_name@, name@, category@],
            }),
    {
        UndoAction::new(
            ActionKind::ChallengeEdit.as_tag().to_string(),
            args3(ctf_name, name, category),
        )
    }

    /// The record of the renaming of the workspace `old_name` to `new_name`.
    pub fn new_ctf_edit(old_name: &String, new_name: &String) -> (r: Self)
        ensures
            r@ == (UndoActionView {
                action: ActionKind::WorkspaceRename.tag(),
                args: seq![old_name@, new_name@],
            }),
    {
        UndoAction::new(
            ActionKind::WorkspaceRename.as_tag().to_string(),
            args2(old_name, new_name),
        )
    }
}

/// Why nothing was undone.
#[derive(Clone, Copy, Debug, PartialEq, Eq, Structural)]
pub enum UndoError {
    /// The log is empty.
    NothingToUndo,
    /// What the log holds is no record: it cannot be read, its tag is
    /// unknown, or it holds too few arguments.
    UndoLogCorrupted,
    /// The records no longer hold what the inverse needs. Nothing was
    /// changed.
    ReplayFailed,
}

/// What a replay does, as contracts see it.
pub struct ReplayView {
    /// The records after the replay.
    pub store: StoreView,
    /// The context file after the replay.
    pub file: Option<Seq<char>>,
    /// What is left for the caller to do.
    pub effects: Seq<EffectView>,
    /// Why the context was emptied in place of following the change, where
    /// it was.
    pub context_error: Option<SwitchError>,
    /// Whether the inverse was performed.
    pub done: bool,
}

/// A replay that found the records unfit and changed nothing in them.
pub open spec fn failed(store: StoreView, file: Option<Seq<char>>) -> ReplayView {
    ReplayView { store, file, effects: Seq::empty(), context_error: None, done: false }
}

/// The inverse of a change of the kind `kind` that was recorded with the
/// arguments `args`.
pub open spec fn replay(
    kind: ActionKind,
    args: Seq<Seq<char>>,
    store: StoreView,
    file: Option<Seq<char>>,
    workdir: Seq<char>,
) -> ReplayView {
    match kind {
        ActionKind::DirChange => ReplayView {
            store,
            file,
            effects: seq![EffectView::ChangeDirPlain(args[0])],
            context_error: None,
            done: true,
        },
        ActionKind::WorkspaceCreate => ReplayView {
            store: store.without_ctf(args[0]),
            file: Some(context_line(None, None)),
            effects: seq![EffectView::RemoveDirAll(ctf_dir(workdir, args[0]))],
            context_error: None,
            done: true,
        },
        ActionKind::WorkspaceRename => match store.get_ctf(args[1], false) {
            None => failed(store, file),
            Some(_) => {
                let renamed = store.with_ctf_renamed(args[1], args[0], ctf_dir(workdir, args[0]));
                ReplayView {
                    store: renamed,
                    file: followed(renamed, args[0], None),
                    effects: seq![
                        EffectView::Rename(ctf_dir(workdir, args[1]), ctf_dir(workdir, args[0])),
                        EffectView::ChangeDir(ctf_dir(workdir, args[0])),
                    ],
                    context_error: switch_refusal(renamed, args[0], None),
                    done: true,
                }
            },
        },
        ActionKind::ChallengeCreate => match store.challenge_in(args[0], args[1]) {
            None => failed(store, file),
            Some(c) => ReplayView {
                store: store.without_challenge_in(args[0], args[1]),
                file: followed(store.without_challenge_in(args[0], args[1]), args[0], None),
                effects: seq![
                    EffectView::RemoveDirAll(
                        chall_dir(workdir, args[0], c.category.name(), args[1]),
                    ),
                ],
                context_error: None,
                done: true,
            },
        },
        ActionKind::ChallengeSolve => ReplayView {
            store: store.with_flag(args[0], args[1], Seq::empty()),
            file,
            effects: Seq::empty(),
            context_error: None,
            done: true,
        },
        ActionKind::ChallengeUnsolve => ReplayView {
            store: store.with_flag(args[0], args[1], args[2]),
            file,
            effects: Seq::empty(),
            context_error: None,
            done: true,
        },
        ActionKind::ChallengeEdit => match load(file, store) {
            Err(_) => failed(store, after_load(file, store)),
            Ok((_, None)) => failed(store, file),
            Ok((_, Some(ch))) => if edit_refusal(store, args[0], ch.name, args[1]) is Some {
                failed(store, file)
            } else {
                let renamed = store.with_challenge_renamed(args[0], ch.name, args[1], args[2]);
                ReplayView {
                    store: renamed,
                    file: followed(renamed, args[0], Some(args[1])),
                    effects: edit_steps(workdir, args[0], ch, args[1], args[2]),
                    context_error: switch_refusal(renamed, args[0], Some(args[1])),
                    done: true,
                }
            },
        },
        ActionKind::ContextSwitch => ReplayView {
            store,
            file: Some(context_line(Some(args[2]), Some(args[3]))),
            effects: Seq::empty(),
            context_error: None,
            done: true,
        },
    }
}

/// What a replay did.
struct Replayed {
    effects: Vec<Effect>,
    context_error: Option<SwitchError>,
    done: bool,
}

/// A replay that found the records unfit.
fn gave_up() -> (r: Replayed)
    ensures
        r.effects.deep_view() == Seq::<EffectView>::empty(),
        r.context_error is None,
        !r.done,
{
    let effects: Vec<Effect> = Vec::new();
    assert(effects.deep_view() =~= Seq::<EffectView>::empty());
    Replayed { effects, context_error: None, done: false }
}

/// A replay that was performed and leaves `effects` to the caller.
fn performed(effects: Vec<Effect>, context_error: Option<SwitchError>) -> (r: Replayed)
    ensures
        r.effects == effects,
        r.context_error == context_error,
        r.done,
{
    Replayed { effects, context_error, done: true }
}

impl Replayed {
    /// Whether this is what `replay` describes, with the records and the
    /// file as they are now.
    spec fn is(self, out: ReplayView, store: StoreView, file: Option<Seq<char>>) -> bool {
        &&& store == out.store
        &&& file == out.file
        &&& self.effects.deep_view() == out.effects
        &&& self.context_error == out.context_error
        &&& self.done == out.done
    }
}

impl UndoAction {
    /// Sends the shell back to the directory that was left.
    fn undo_dir_change(&self) -> (r: Replayed)
        requires
            self@.args.len() >= 1,
        ensures
            r.effects.deep_view() == seq![EffectView::ChangeDirPlain(self@.args[0])],
            r.context_error is None,
            r.done,
    {
        let mut effects: Vec<Effect> = Vec::new();
        effects.push(Effect::ChangeDirPlain(self.args[0].clone()));
        assert(effects.deep_view() =~= seq![EffectView::ChangeDirPlain(self@.args[0])]);
        performed(effects, None)
    }

    /// Removes the workspace that was created, and its directory, and
    /// empties the active context.
    fn undo_ctf_create(&self, store: &mut Store, file: &mut ContextFile, workdir: &String) -> (r:
        Replayed)
        requires
            self@.args.len() >= 1,
        ensures
            r.is(
                replay(
                    ActionKind::WorkspaceCreate,
                    self@.args,
                    old(store)@,
                    old(file)@,
                    workdir@,
                ),
                final(store)@,
                final(file)@,
            ),
    {
        let name = &self.args[0];
        remove_ctf(store, name);
        save_context(file, None, None);
        let mut effects: Vec<Effect> = Vec::new();
        effects.push(Effect::RemoveDirAll(join_path(workdir.as_str(), name.as_str())));
        assert(effects.deep_view() =~= seq![
            EffectView::RemoveDirAll(ctf_dir(workdir@, self@.args[0])),
        ]);
        performed(effects, None)
    }

    /// Removes the challenge that was created, and its directory, and lets
    /// the active context follow to its workspace alone.
    fn undo_chall_create(&self, store: &mut Store, file: &mut ContextFile, workdir: &String) -> (r:
        Replayed)
        requires
            self@.args.len() >= 2,
        ensures
            r.is(
                replay(
                    ActionKind::ChallengeCreate,
                    self@.args,
                    old(store)@,
                    old(file)@,
                    workdir@,
                ),
                final(store)@,
                final(file)@,
            ),
    {
        match remove_chall(store, file, workdir, &self.args[0], &self.args[1]) {
            Ok(effects) => performed(effects, None),
            Err(_) => gave_up(),
        }
    }

    /// Clears the flag that was given.
    fn undo_chall_solve(&self, store: &mut Store, Ghost(file): Ghost<Option<Seq<char>>>, Ghost(
        workdir,
    ): Ghost<Seq<char>>) -> (r: Replayed)
        requires
            self@.args.len() >= 2,
        ensures
            r.is(
                replay(ActionKind::ChallengeSolve, self@.args, old(store)@, file, workdir),
                final(store)@,
                file,
            ),
    {
        proof {
            reveal_strlit("");
            assert(""@ =~= Seq::<char>::empty());
        }
        set_chall_flag(store, &self.args[0], &self.args[1], &"".to_string());
        performed(crate::effects::nothing(), None)
    }

    /// Gives back the flag that was taken.
    fn undo_chall_unsolve(&self, store: &mut Store, Ghost(file): Ghost<Option<Seq<char>>>, Ghost(
        workdir,
    ): Ghost<Seq<char>>) -> (r: Replayed)
        requires
            self@.args.len() >= 3,
        ensures
            r.is(
                replay(ActionKind::ChallengeUnsolve, self@.args, old(store)@, file, workdir),
                final(store)@,
                file,
            ),
    {
        set_chall_flag(store, &self.args[0], &self.args[1], &self.args[2]);
        performed(crate::effects::nothing(), None)
    }

    /// Stores the pair that was active before the switch.
    fn undo_context_switch(&self, file: &mut ContextFile, Ghost(store): Ghost<StoreView>, Ghost(
        workdir,
    ): Ghost<Seq<char>>) -> (r: Replayed)
        requires
            self@.args.len() >= 4,
        ensures
            r.is(
                replay(ActionKind::ContextSwitch, self@.args, store, old(file)@, workdir),
                store,
                final(file)@,
            ),
    {
        save_context(file, Some(&self.args[2]), Some(&self.args[3]));
        performed(crate::effects::nothing(), None)
    }

    /// Gives the active challenge its old name and category back, and lets
    /// the active context follow.
    fn undo_chall_edit(&self, store: &mut Store, file: &mut ContextFile, workdir: &String) -> (r:
        Replayed)
        requires
            self@.args.len() >= 3,
        ensures
            r.is(
                replay(ActionKind::ChallengeEdit, self@.args, old(store)@, old(file)@, workdir@),
                final(store)@,
                final(file)@,
            ),
    {
        let mut challenge = match get_context(file, store) {
            Ok((_, Some(c))) => c,
            _ => {
                return gave_up();
            },
        };
        let effects = match challenge.edit_chall(
            store,
            workdir,
            &self.args[0],
            &self.args[1],
            &self.args[2],
        ) {
            Ok(effects) => effects,
            Err(_) => {
                return gave_up();
            },
        };
        let refusal = follow(file, store, &self.args[0], Some(&self.args[1]));
        performed(effects, refusal)
    }

    /// Gives the workspace its old name back and lets the active context
    /// follow.
    fn undo_ctf_edit(&self, store: &mut Store, file: &mut ContextFile, workdir: &String) -> (r:
        Replayed)
        requires
            self@.args.len() >= 2,
        ensures
            r.is(
                replay(
                    ActionKind::WorkspaceRename,
                    self@.args,
                    old(store)@,
                    old(file)@,
                    workdir@,
                ),
                final(store)@,
                final(file)@,
            ),
    {
        let mut ctf = match get_ctf_from_name(store, &self.args[1], false) {
            Ok(c) => c,
            Err(_) => {
                return gave_up();
            },
        };
        proof {
            store@.lemma_get_ctf_name(self@.args[1], false);
        }
        let effects = ctf.change_name(store, workdir, self.args[0].clone());
        let refusal = follow(file, store, &ctf.metadata.name, None);
        performed(effects, refusal)
    }
}

/// What was undone, as contracts see it.
pub struct UndoneView {
    pub kind: ActionKind,
    pub args: Seq<Seq<char>>,
    pub effects: Seq<EffectView>,
    pub context_error: Option<SwitchError>,
}

/// What was undone.
#[derive(Debug)]
pub struct Undone {
    /// The kind of the change that was taken back.
    pub kind: ActionKind,
    /// The arguments of the record.
    pub args: Vec<String>,
    /// What is left for the caller to do.
    pub effects: Vec<Effect>,
    /// Why the active context was emptied in place of following the
    /// change, where it was.
    pub context_error: Option<SwitchError>,
}

impl View for Undone {
    type V = UndoneView;

    open spec fn view(&self) -> UndoneView {
        UndoneView {
            kind: self.kind,
            args: self.args.deep_view(),
            effects: self.effects.deep_view(),
            context_error: self.context_error,
        }
    }
}

/// One undo, as contracts see it: what is handed back, and the log, the
/// records and the context file afterwards.
pub struct UndoView {
    pub result: Result<UndoneView, UndoError>,
    pub log: UndoLogView,
    pub store: StoreView,
    pub file: Option<Seq<char>>,
}

/// What undoing does. An empty log is reported and nothing happens. Anything
/// else empties the log: a record that cannot be read is reported, and a
/// record of a known kind is replayed.
pub open spec fn undone(
    log: UndoLogView,
    store: StoreView,
    file: Option<Seq<char>>,
    workdir: Seq<char>,
) -> UndoView {
    match log {
        UndoLogView::Empty => UndoView {
            result: Err(UndoError::NothingToUndo),
            log: UndoLogView::Empty,
            store,
            file,
        },
        UndoLogView::Unreadable => UndoView {
            result: Err(UndoError::UndoLogCorrupted),
            log: UndoLogView::Empty,
            store,
            file,
        },
        UndoLogView::Holds(record) => match record.kind() {
            None => UndoView {
                result: Err(UndoError::UndoLogCorrupted),
                log: UndoLogView::Empty,
                store,
                file,
            },
            Some(kind) => {
                let out = replay(kind, record.args, store, file, workdir);
                UndoView {
                    result: if out.done {
                        Ok(
                            UndoneView {
                                kind,
                                args: record.args,
                                effects: out.effects,
                                context_error: out.context_error,
                            },
                        )
                    } else {
                        Err(UndoError::ReplayFailed)
                    },
                    log: UndoLogView::Empty,
                    store: out.store,
                    file: out.file,
                }
            },
        },
    }
}

/// What an undo handed back, as contracts see it.
pub open spec fn undo_result_view(r: Result<Undone, UndoError>) -> Result<UndoneView, UndoError> {
    match r {
        Ok(u) => Ok(u@),
        Err(e) => Err(e),
    }
}

/// Takes back the change that the log records, and empties the log.
pub fn undo(log: &mut UndoLog, store: &mut Store, file: &mut ContextFile, workdir: &String) -> (r:
    Result<Undone, UndoError>)
    ensures
        undo_result_view(r) == undone(old(log)@, old(store)@, old(file)@, workdir@).result,
        final(log)@ == undone(old(log)@, old(store)@, old(file)@, workdir@).log,
        final(store)@ == undone(old(log)@, old(store)@, old(file)@, workdir@).store,
        final(file)@ == undone(old(log)@, old(store)@, old(file)@, workdir@).file,
{
    let mut taken = UndoLog::Empty;
    std::mem::swap(log, &mut taken);
    let record = match taken {
        UndoLog::Empty => {
            return Err(UndoError::NothingToUndo);
        },
        UndoLog::Unreadable => {
            return Err(UndoError::UndoLogCorrupted);
        },
        UndoLog::Holds(record) => record,
    };
    let kind = match ActionKind::from_tag(record.action.as_str()) {
        Some(k) => k,
        None => {
            return Err(UndoError::UndoLogCorrupted);
        },
    };
    if record.args.len() < kind.arg_count() {
        return Err(UndoError::UndoLogCorrupted);
    }
    let replayed = match kind {
        ActionKind::DirChange => record.undo_dir_change(),
        ActionKind::WorkspaceCreate => record.undo_ctf_create(store, file, workdir),
        ActionKind::WorkspaceRename => record.undo_ctf_edit(store, file, workdir),
        ActionKind::ChallengeCreate => record.undo_chall_create(store, file, workdir),
        ActionKind::ChallengeSolve => record.undo_chall_solve(
            store,
            Ghost(file@),
            Ghost(workdir@),
        ),
        ActionKind::ChallengeUnsolve => record.undo_chall_unsolve(
            store,
            Ghost(file@),
            Ghost(workdir@),
        ),
        ActionKind::ChallengeEdit => record.undo_chall_edit(store, file, workdir),
        ActionKind::ContextSwitch => record.undo_context_switch(
            file,
            Ghost(store@),
            Ghost(workdir@),
        ),
    };
    if replayed.done {
        Ok(
            Undone {
                kind,
                args: record.args,
                effects: replayed.effects,
                context_error: replayed.context_error,
            },
        )
    } else {
        Err(UndoError::ReplayFailed)
    }
}

/// The flag of every challenge named `chall` of the workspace `ctf` is
/// empty.
pub open spec fn flag_cleared(store: StoreView, old_store: StoreView, ctf: Seq<char>, chall: Seq<char>) -> bool {
    &&& store.challenges.len() == old_store.challenges.len()
    &&& forall|i: int|
        0 <= i < store.challenges.len() ==> #[trigger] store.challenges[i] == if old_store.ctf_id(ctf)
            == Some(old_store.challenges[i].ctf_id) && old_store.challenges[i].name == chall {
            crate::db::ChallengeRowView { flag: Seq::empty(), ..old_store.challenges[i] }
        } else {
            old_store.challenges[i]
        }
}

/// Undo works once. After the solving of the challenge `c` of the workspace
/// `w` has been recorded, a first undo succeeds, clears the flag of that
/// challenge and changes nothing else in the records; a second undo finds
/// nothing to undo and changes nothing at all.
pub proof fn lemma_undo_is_single_shot(
    store: StoreView,
    file: Option<Seq<char>>,
    workdir: Seq<char>,
    w: Seq<char>,
    c: Seq<char>,
)
    ensures
        ({
            let record = UndoActionView { action: ActionKind::ChallengeSolve.tag(), args: seq![w, c] };
            let first = undone(UndoLogView::Holds(record), store, file, workdir);
            let second = undone(first.log, first.store, first.file, workdir);
            &&& first.result is Ok
            &&& first.store.ctfs == store.ctfs
            &&& flag_cleared(first.store, store, w, c)
            &&& first.file == file
            &&& second.result == Err::<UndoneView, UndoError>(UndoError::NothingToUndo)
            &&& second.store == first.store
            &&& second.file == first.file
            &&& second.log == UndoLogView::Empty
        }),
{
    ActionKind::ChallengeSolve.lemma_tag_round_trip();
}

/// Whatever the log holds, a second undo right after a first finds nothing
/// to undo and changes nothing: no record is replayed twice.
pub proof fn lemma_second_undo_finds_nothing(
    log: UndoLogView,
    store: StoreView,
    file: Option<Seq<char>>,
    workdir: Seq<char>,
)
    ensures
        ({
            let first = undone(log, store, file, workdir);
            let second = undone(first.log, first.store, first.file, workdir);
            &&& first.log == UndoLogView::Empty
            &&& second.result == Err::<UndoneView, UndoError>(UndoError::NothingToUndo)
            &&& second.store == first.store
            &&& second.file == first.file
            &&& second.log == UndoLogView::Empty
        }),
{
}

/// Undoing a switch restores the context that was active before it: after
/// a switch to the workspace `w` and the challenge `c` has been recorded
/// together with the two names that the file `file` held, the undo leaves
/// the line of these two names, and changes nothing in the records.
pub proof fn lemma_undo_restores_context(
    store: StoreView,
    file: Option<Seq<char>>,
    workdir: Seq<char>,
    w: Seq<char>,
    c: Option<Seq<char>>,
)
    ensures
        ({
            let before = previous_names(file);
            let after = undone(
                UndoLogView::Holds(switch_record(w, c, before)),
                store,
                Some(context_line(Some(w), c)),
                workdir,
            );
            &&& after.result is Ok
            &&& after.file == Some(context_line(Some(before.0), Some(before.1)))
            &&& after.store == store
            &&& after.log == UndoLogView::Empty
        }),
{
    ActionKind::ContextSwitch.lemma_tag_round_trip();
}

} // verus!
