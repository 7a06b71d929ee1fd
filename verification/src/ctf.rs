//! Workspaces: a competition with its directory, its details and its
//! challenges.
use vstd::prelude::*;
use vstd::string::*;
use crate::context::{
    after_load, context_line, follow, followed, get_context, load, save_context, ContextError,
    ContextFile,
};
use crate::ctf::challenge::{check_type, is_type_name, Challenge, ChallengeType, ChallengeView, SaveError};
use crate::db::{
    archive_ctf, chall_exists, ctf_exists, remove_ctf, CtfError, InsertError, Store, StoreView,
};
use crate::effects::{Effect, EffectView};
use crate::text::{category_dir, chall_dir, concat2, concat3, ctf_dir, join_path};

pub mod challenge;

verus! {

/// A workspace as contracts see it.
pub struct CtfView {
    pub file_path: Seq<char>,
    pub name: Seq<char>,
    pub url: Seq<char>,
    pub creds: (Seq<char>, Seq<char>),
    pub start: Seq<char>,
    pub end: Seq<char>,
    pub challenges: Seq<ChallengeView>,
}

/// The details of a competition. `start` and `end` are instants in the
/// RFC 3339 form in which they are stored.
#[derive(Debug)]
pub struct Meta {
    pub name: String,
    pub url: String,
    pub creds: (String, String),
    pub start: String,
    pub end: String,
}

/// A workspace: the directory of a competition, its details and its
/// challenges.
#[derive(Debug)]
pub struct Ctf {
    pub file_path: String,
    pub metadata: Meta,
    pub challenges: Vec<Challenge>,
}

impl View for Ctf {
    type V = CtfView;

    open spec fn view(&self) -> CtfView {
        CtfView {
            file_path: self.file_path@,
            name: self.metadata.name@,
            url: self.metadata.url@,
            creds: (self.metadata.creds.0@, self.metadata.creds.1@),
            start: self.metadata.start@,
            end: self.metadata.end@,
            challenges: self.challenges.deep_view(),
        }
    }
}

impl DeepView for Ctf {
    type V = CtfView;

    open spec fn deep_view(&self) -> CtfView {
        self@
    }
}

impl Ctf {
    /// A workspace without challenges.
    pub fn new(
        file_path: String,
        name: String,
        url: String,
        creds: (String, String),
        start: String,
        end: String,
    ) -> (c: Self)
        ensures
            c@ == (CtfView {
                file_path: file_path@,
                name: name@,
                url: url@,
                creds: (creds.0@, creds.1@),
                start: start@,
                end: end@,
                challenges: Seq::empty(),
            }),
    {
        let c = Ctf { file_path, metadata: Meta { name, url, creds, start, end }, challenges: Vec::new() };
        assert(c.challenges.deep_view() =~= Seq::empty());
        c
    }

    /// Appends `challenge` to the workspace's challenges.
    pub fn add_challenge(&mut self, challenge: Challenge)
        ensures
            final(self)@ == (CtfView {
                challenges: old(self)@.challenges.push(challenge@),
                ..old(self)@
            }),
    {
        self.challenges.push(challenge);
        assert(self.challenges.deep_view() =~= old(self).challenges.deep_view().push(challenge@));
    }
}

impl Clone for Ctf {
    fn clone(&self) -> (c: Self)
        ensures
            c@ == self@,
    {
        let mut c = Ctf::new(
            self.file_path.clone(),
            self.metadata.name.clone(),
            self.metadata.url.clone(),
            (self.metadata.creds.0.clone(), self.metadata.creds.1.clone()),
            self.metadata.start.clone(),
            self.metadata.end.clone(),
        );
        let mut i: usize = 0;
        assert(self@.challenges.take(0) =~= Seq::empty());
        while i < self.challenges.len()
            invariant
                i <= self.challenges.len(),
                c@ == (CtfView { challenges: self@.challenges.take(i as int), ..self@ }),
            decreases self.challenges.len() - i,
        {
            let ghost before = c.challenges.deep_view();
            let item = self.challenges[i].clone();
            c.challenges.push(item);
            assert(c.challenges.deep_view() =~= before.push(item@));
            assert(self@.challenges.take(i + 1) =~= self@.challenges.take(i as int).push(item@));
            i = i + 1;
        }
        assert(self@.challenges.take(self.challenges.len() as int) =~= self@.challenges);
        c
    }
}

/// What saving a workspace did.
#[derive(Clone, Copy, Debug, PartialEq, Eq, Structural)]
pub enum Saved {
    /// The details of the existing workspace were written.
    Updated,
    /// The workspace was added.
    Inserted,
    /// The workspace is archived; nothing was written.
    Archived,
}

/// The archive of the workspace `name`.
pub open spec fn archive_file(workdir: Seq<char>, name: Seq<char>) -> Seq<char> {
    workdir + "/.archived/"@ + name + ".tar.bz2"@
}

/// The directory that holds the archives.
pub open spec fn archive_dir(workdir: Seq<char>) -> Seq<char> {
    workdir + "/.archived"@
}

/// The command that packs the directory `dir` into the archive `zip`.
pub open spec fn zip_command(zip: Seq<char>, dir: Seq<char>) -> Seq<char> {
    "tar -cjvf "@ + zip + " -C "@ + dir + " ."@
}

/// The command that unpacks the archive `zip` into the directory `dir`.
pub open spec fn unzip_command(zip: Seq<char>, dir: Seq<char>) -> Seq<char> {
    "tar -xjvf "@ + zip + " -C "@ + dir
}

/// The archive of the workspace `name`.
pub fn archive_path(workdir: &str, name: &str) -> (r: String)
    ensures
        r@ == archive_file(workdir@, name@),
{
    let mut r = concat3(workdir, "/.archived/", name);
    r.append(".tar.bz2");
    r
}

/// What happened to the directory of a workspace that was to be created.
#[derive(Clone, Copy, Debug, PartialEq, Eq, Structural)]
pub enum Creation {
    /// It was created.
    Created,
    /// It was there already.
    AlreadyExists,
    /// It could not be created.
    Failed,
}

/// Why no challenge was created.
#[derive(Clone, Copy, Debug, PartialEq, Eq, Structural)]
pub enum NewChallengeError {
    /// The active context could not be loaded.
    Context(ContextError),
    /// No workspace is active.
    NoWorkspace,
    /// The category is not one of the known ones.
    InvalidType,
    /// The active workspace holds a challenge of the name.
    AlreadyExists,
    /// The challenge could not be written to the records.
    Save(SaveError),
}

impl Ctf {
    /// Writes the workspace to the records: its details where a workspace of
    /// its name exists, a new row where none does. An archived workspace is
    /// left alone.
    pub fn save_to_db(&self, store: &mut Store) -> (r: Result<Saved, InsertError>)
        ensures
            match old(store)@.with_saved_ctf(self@) {
                Some(s) => {
                    &&& final(store)@ == s
                    &&& r matches Ok(saved) && saved == (match old(store)@.ctf_exists(self@.name) {
                        Ok(_) => Saved::Updated,
                        Err(CtfError::Archived) => Saved::Archived,
                        Err(CtfError::NotFound) => Saved::Inserted,
                    })
                },
                None => final(store)@ == old(store)@ && r is Err,
            },
    {
        match ctf_exists(store, &self.metadata.name) {
            Ok(_) => {
                store.update_ctf(self);
                Ok(Saved::Updated)
            },
            Err(CtfError::Archived) => Ok(Saved::Archived),
            Err(CtfError::NotFound) => match store.insert_ctf(self) {
                Ok(_) => Ok(Saved::Inserted),
                Err(e) => Err(e),
            },
        }
    }

    /// Renames the workspace to `new_name`, in the records and, by the
    /// effects handed back, on disk; the last effect sends the shell to the
    /// renamed directory.
    pub fn change_name(&mut self, store: &mut Store, workdir: &String, new_name: String) -> (effects:
        Vec<Effect>)
        ensures
            effects.deep_view() == seq![
                EffectView::Rename(
                    ctf_dir(workdir@, old(self)@.name),
                    ctf_dir(workdir@, new_name@),
                ),
                EffectView::ChangeDir(ctf_dir(workdir@, new_name@)),
            ],
            final(store)@ == old(store)@.with_ctf_renamed(
                old(self)@.name,
                new_name@,
                ctf_dir(workdir@, new_name@),
            ),
            final(self)@ == (CtfView { name: new_name@, ..old(self)@ }),
    {
        let old_path = join_path(workdir.as_str(), self.metadata.name.as_str());
        let new_path = join_path(workdir.as_str(), new_name.as_str());
        let mut effects: Vec<Effect> = Vec::new();
        effects.push(Effect::Rename(old_path, new_path.clone()));
        store.rename_ctf(&self.metadata.name, &new_name, &new_path);
        effects.push(Effect::ChangeDir(new_path));
        self.metadata.name = new_name;
        assert(effects.deep_view() =~= seq![
            EffectView::Rename(ctf_dir(workdir@, old(self)@.name), ctf_dir(workdir@, new_name@)),
            EffectView::ChangeDir(ctf_dir(workdir@, new_name@)),
        ]);
        effects
    }

    /// Removes the workspace and its challenges from the records, empties
    /// the active context, and hands back the removal of the workspace's
    /// directory, or of its archive where `archived` says that it is packed.
    pub fn remove_ctf(
        &self,
        store: &mut Store,
        file: &mut ContextFile,
        workdir: &String,
        archived: bool,
    ) -> (effects: Vec<Effect>)
        ensures
            final(store)@ == old(store)@.without_ctf(self@.name),
            final(file)@ == Some(context_line(None, None)),
            effects.deep_view() == seq![
                if archived {
                    EffectView::RemoveFile(archive_file(workdir@, self@.name))
                } else {
                    EffectView::RemoveDirAll(ctf_dir(workdir@, self@.name))
                },
            ],
    {
        remove_ctf(store, &self.metadata.name);
        save_context(file, None, None);
        let mut effects: Vec<Effect> = Vec::new();
        if archived {
            effects.push(
                Effect::RemoveFile(archive_path(workdir.as_str(), self.metadata.name.as_str())),
            );
        } else {
            effects.push(
                Effect::RemoveDirAll(join_path(workdir.as_str(), self.metadata.name.as_str())),
            );
        }
        assert(effects.deep_view() =~= seq![
            if archived {
                EffectView::RemoveFile(archive_file(workdir@, self@.name))
            } else {
                EffectView::RemoveDirAll(ctf_dir(workdir@, self@.name))
            },
        ]);
        effects
    }

    /// The steps that pack the workspace's directory: the directory of
    /// archives is made sure of, `tar` packs, the directory is removed.
    pub fn zip_ctf_dir(&self, workdir: &String) -> (effects: Vec<Effect>)
        ensures
            effects.deep_view() == seq![
                EffectView::EnsureDir(archive_dir(workdir@)),
                EffectView::Shell(
                    zip_command(
                        archive_file(workdir@, self@.name),
                        ctf_dir(workdir@, self@.name),
                    ),
                ),
                EffectView::RemoveDirAll(ctf_dir(workdir@, self@.name)),
            ],
    {
        let dir = join_path(workdir.as_str(), self.metadata.name.as_str());
        let zip = archive_path(workdir.as_str(), self.metadata.name.as_str());
        let mut command = concat3("tar -cjvf ", zip.as_str(), " -C ");
        command.append(dir.as_str());
        command.append(" .");
        let mut effects: Vec<Effect> = Vec::new();
        effects.push(Effect::EnsureDir(concat2(workdir.as_str(), "/.archived")));
        effects.push(Effect::Shell(command));
        effects.push(Effect::RemoveDirAll(dir));
        assert(effects.deep_view() =~= seq![
            EffectView::EnsureDir(archive_dir(workdir@)),
            EffectView::Shell(
                zip_command(archive_file(workdir@, self@.name), ctf_dir(workdir@, self@.name)),
            ),
            EffectView::RemoveDirAll(ctf_dir(workdir@, self@.name)),
        ]);
        effects
    }

    /// The steps that unpack the workspace's archive: the directory is made
    /// sure of, `tar` unpacks, the archive is removed.
    pub fn unzip_ctf_dir(&self, workdir: &String) -> (effects: Vec<Effect>)
        ensures
            effects.deep_view() == seq![
                EffectView::EnsureDir(ctf_dir(workdir@, self@.name)),
                EffectView::Shell(
                    unzip_command(
                        archive_file(workdir@, self@.name),
                        ctf_dir(workdir@, self@.name),
                    ),
                ),
                EffectView::RemoveFile(archive_file(workdir@, self@.name)),
            ],
    {
        let dir = join_path(workdir.as_str(), self.metadata.name.as_str());
        let zip = archive_path(workdir.as_str(), self.metadata.name.as_str());
        let mut command = concat3("tar -xjvf ", zip.as_str(), " -C ");
        command.append(dir.as_str());
        let mut effects: Vec<Effect> = Vec::new();
        effects.push(Effect::EnsureDir(dir));
        effects.push(Effect::Shell(command));
        effects.push(Effect::RemoveFile(zip));
        assert(effects.deep_view() =~= seq![
            EffectView::EnsureDir(ctf_dir(workdir@, self@.name)),
            EffectView::Shell(
                unzip_command(archive_file(workdir@, self@.name), ctf_dir(workdir@, self@.name)),
            ),
            EffectView::RemoveFile(archive_file(workdir@, self@.name)),
        ]);
        effects
    }

    /// Archives the workspace: its directory is packed, by the effects
    /// handed back, and it and its challenges are marked archived.
    pub fn archive(&self, store: &mut Store, workdir: &String) -> (effects: Vec<Effect>)
        ensures
            final(store)@ == old(store)@.with_mark(self@.name, true),
            effects.deep_view() == seq![
                EffectView::EnsureDir(archive_dir(workdir@)),
                EffectView::Shell(
                    zip_command(
                        archive_file(workdir@, self@.name),
                        ctf_dir(workdir@, self@.name),
                    ),
                ),
                EffectView::RemoveDirAll(ctf_dir(workdir@, self@.name)),
            ],
    {
        let effects = self.zip_ctf_dir(workdir);
        archive_ctf(store, &self.metadata.name, true);
        effects
    }

    /// Takes the workspace out of the archive: its archive is unpacked, by
    /// the effects handed back, and the archive mark is taken from it and
    /// from its challenges.
    pub fn unarchive(&self, store: &mut Store, workdir: &String) -> (effects: Vec<Effect>)
        ensures
            final(store)@ == old(store)@.with_mark(self@.name, false),
            effects.deep_view() == seq![
                EffectView::EnsureDir(ctf_dir(workdir@, self@.name)),
                EffectView::Shell(
                    unzip_command(
                        archive_file(workdir@, self@.name),
                        ctf_dir(workdir@, self@.name),
                    ),
                ),
                EffectView::RemoveFile(archive_file(workdir@, self@.name)),
            ],
    {
        let effects = self.unzip_ctf_dir(workdir);
        archive_ctf(store, &self.metadata.name, false);
        effects
    }
}

/// The workspace that `quick_new` makes of `name`: in its directory below
/// `workdir`, without address or credentials, starting and ending at `now`.
pub open spec fn fresh_ctf(workdir: Seq<char>, name: Seq<char>, now: Seq<char>) -> CtfView {
    CtfView {
        file_path: ctf_dir(workdir, name),
        name,
        url: Seq::empty(),
        creds: (Seq::empty(), Seq::empty()),
        start: now,
        end: now,
        challenges: Seq::empty(),
    }
}

/// Why no workspace was created.
#[derive(Clone, Copy, Debug, PartialEq, Eq, Structural)]
pub enum NewCtfError {
    /// The directory was there already.
    DirectoryExists,
    /// The directory could not be created.
    DirectoryFailed,
    /// A workspace bears the name.
    Exists,
    /// An archived workspace bears the name.
    Archived,
    /// No id is left for a new row.
    OutOfIds,
}

/// Why the workspace `name` is not created, where it is not: its directory
/// has to have been created just now, and no workspace may bear the name.
pub open spec fn new_ctf_refusal(store: StoreView, name: Seq<char>, creation: Creation) -> Option<
    NewCtfError,
> {
    match creation {
        Creation::AlreadyExists => Some(NewCtfError::DirectoryExists),
        Creation::Failed => Some(NewCtfError::DirectoryFailed),
        Creation::Created => match store.ctf_exists(name) {
            Ok(_) => Some(NewCtfError::Exists),
            Err(CtfError::Archived) => Some(NewCtfError::Archived),
            Err(CtfError::NotFound) => if store.next_ctf_id() > i32::MAX {
                Some(NewCtfError::OutOfIds)
            } else {
                None
            },
        },
    }
}

/// Records the new workspace `name` and lets the active context follow to
/// it. `creation` says what became of its directory, which callers create
/// first. Nothing changes where the directory was not created, or where a
/// workspace bears the name already. `now` is the present instant in
/// RFC 3339 form.
pub fn quick_new(
    store: &mut Store,
    file: &mut ContextFile,
    workdir: &String,
    name: String,
    creation: Creation,
    now: String,
) -> (r: Result<Ctf, NewCtfError>)
    ensures
        match new_ctf_refusal(old(store)@, name@, creation) {
            Some(e) => r matches Err(x) && x == e && final(store)@ == old(store)@ && final(file)@
                == old(file)@,
            None => {
                &&& r matches Ok(c) && c@ == fresh_ctf(workdir@, name@, now@)
                &&& final(store)@ == old(store)@.with_new_ctf(fresh_ctf(workdir@, name@, now@))
                &&& final(file)@ == followed(final(store)@, name@, None)
            },
        },
{
    match creation {
        Creation::AlreadyExists => {
            return Err(NewCtfError::DirectoryExists);
        },
        Creation::Failed => {
            return Err(NewCtfError::DirectoryFailed);
        },
        Creation::Created => {},
    }
    match ctf_exists(store, &name) {
        Ok(_) => {
            return Err(NewCtfError::Exists);
        },
        Err(CtfError::Archived) => {
            return Err(NewCtfError::Archived);
        },
        Err(CtfError::NotFound) => {},
    }
    proof {
        reveal_strlit("");
        assert(""@ =~= Seq::<char>::empty());
    }
    let file_path = join_path(workdir.as_str(), name.as_str());
    let ctf = Ctf::new(
        file_path,
        name,
        "".to_string(),
        ("".to_string(), "".to_string()),
        now.clone(),
        now,
    );
    match store.insert_ctf(&ctf) {
        Ok(_) => {},
        Err(_) => {
            return Err(NewCtfError::OutOfIds);
        },
    }
    follow(file, store, &ctf.metadata.name, None);
    Ok(ctf)
}

/// Adds the challenge `name` of the category `category` to the active
/// workspace and lets the active context follow to it. Hands back the name of that
/// workspace, the challenge, and the two directories that it needs as
/// effects.
pub fn new_challenge(
    store: &mut Store,
    file: &mut ContextFile,
    workdir: &String,
    name: String,
    category: String,
) -> (r: Result<(String, Challenge, Vec<Effect>), NewChallengeError>)
    ensures
        match load(old(file)@, old(store)@) {
            Err(e) => r matches Err(x) && x == NewChallengeError::Context(e) && final(store)@
                == old(store)@ && final(file)@ == after_load(old(file)@, old(store)@),
            Ok((None, _)) => r matches Err(x) && x == NewChallengeError::NoWorkspace && final(store)@ == old(store)@ && final(file)@ == old(file)@,
            Ok((Some(w), _)) => if !is_type_name(category@) {
                r matches Err(x) && x == NewChallengeError::InvalidType && final(store)@ == old(
                    store,
                )@ && final(file)@ == old(file)@
            } else if old(store)@.chall_count(w.name, name@) > 0 {
                r matches Err(x) && x == NewChallengeError::AlreadyExists && final(store)@ == old(
                    store,
                )@ && final(file)@ == old(file)@
            } else {
                match old(store)@.ctf_exists(w.name) {
                    Err(e) => r matches Err(x) && x == NewChallengeError::Save(SaveError::Ctf(e))
                        && final(store)@ == old(store)@ && final(file)@ == old(file)@,
                    Ok(id) => if old(store)@.next_chall_id() > i32::MAX {
                        r matches Err(x) && x == NewChallengeError::Save(SaveError::OutOfIds)
                            && final(store)@ == old(store)@ && final(file)@ == old(file)@
                    } else {
                        &&& r matches Ok((ctf_name, c, effects)) && ctf_name@ == w.name && c@ == (ChallengeView {
                            name: name@,
                            category: ChallengeType::of_name(category@),
                            flag: Seq::empty(),
                        }) && effects.deep_view() == seq![
                            EffectView::EnsureDir(
                                category_dir(workdir@, w.name, c@.category.name()),
                            ),
                            EffectView::CreateDir(
                                chall_dir(workdir@, w.name, c@.category.name(), name@),
                            ),
                        ] && final(store)@ == old(store)@.with_new_challenge(id, c@)
                        &&& final(file)@ == followed(final(store)@, w.name, Some(name@))
                    },
                }
            },
        },
{
    let ctf = match get_context(file, store) {
        Err(e) => {
            return Err(NewChallengeError::Context(e));
        },
        Ok((None, _)) => {
            return Err(NewChallengeError::NoWorkspace);
        },
        Ok((Some(ctf), _)) => ctf,
    };
    if check_type(category.as_str()).is_none() {
        return Err(NewChallengeError::InvalidType);
    }
    if chall_exists(store, &ctf.metadata.name, &name) > 0 {
        return Err(NewChallengeError::AlreadyExists);
    }
    proof {
        reveal_strlit("");
        assert(""@ =~= Seq::<char>::empty());
    }
    let challenge = Challenge::new(name, category, "".to_string());
    match challenge.save_to_db(store, &ctf.metadata.name) {
        Ok(_) => {},
        Err(e) => {
            return Err(NewChallengeError::Save(e));
        },
    }
    let effects = challenge.create_file(workdir, ctf.metadata.name.as_str());
    follow(file, store, &ctf.metadata.name, Some(&challenge.name));
    Ok((ctf.metadata.name, challenge, effects))
}

} // verus!
