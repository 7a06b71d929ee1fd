//! Challenges and their categories.
use vstd::prelude::*;
use vstd::string::*;
use crate::context::{follow, followed, ContextFile};
use crate::db::{
    chall_exists, ctf_exists, get_challenge_in, ChallengeError, CtfError, Store, StoreView,
};
use crate::effects::{Effect, EffectView};
use crate::text::{category_dir, category_path, chall_dir, chall_path};

verus! {

/// The category a challenge belongs to.
#[derive(Clone, Copy, Debug, PartialEq, Eq, Structural)]
pub enum ChallengeType {
    Web,
    Pwn,
    Crypto,
    Forensics,
    Reversing,
    Misc,
}

/// Whether `s` is the name of a category.
pub open spec fn is_type_name(s: Seq<char>) -> bool {
    s == "web"@ || s == "pwn"@ || s == "crypto"@ || s == "forensics"@ || s == "reversing"@ || s
        == "misc"@
}

impl ChallengeType {
    /// The category that `s` names; `Misc` where it names none.
    pub open spec fn of_name(s: Seq<char>) -> ChallengeType {
        if s == "web"@ {
            ChallengeType::Web
        } else if s == "pwn"@ {
            ChallengeType::Pwn
        } else if s == "crypto"@ {
            ChallengeType::Crypto
        } else if s == "forensics"@ {
            ChallengeType::Forensics
        } else if s == "reversing"@ {
            ChallengeType::Reversing
        } else {
            ChallengeType::Misc
        }
    }

    /// The name of the category, as it is stored and as it names a directory.
    pub open spec fn name(self) -> Seq<char> {
        match self {
            ChallengeType::Web => "web"@,
            ChallengeType::Pwn => "pwn"@,
            ChallengeType::Crypto => "crypto"@,
            ChallengeType::Forensics => "forensics"@,
            ChallengeType::Reversing => "reversing"@,
            ChallengeType::Misc => "misc"@,
        }
    }

    /// Reads a category from its name. An unknown name gives `Misc`.
    pub fn from_str(s: &str) -> (t: Self)
        ensures
            t == Self::of_name(s@),
    {
        if s.eq("web") {
            ChallengeType::Web
        } else if s.eq("pwn") {
            ChallengeType::Pwn
        } else if s.eq("crypto") {
            ChallengeType::Crypto
        } else if s.eq("forensics") {
            ChallengeType::Forensics
        } else if s.eq("reversing") {
            ChallengeType::Reversing
        } else {
            ChallengeType::Misc
        }
    }

    /// The name of the category.
    pub fn as_str(&self) -> (s: &'static str)
        ensures
            s@ == self.name(),
    {
        match self {
            ChallengeType::Web => "web",
            ChallengeType::Pwn => "pwn",
            ChallengeType::Crypto => "crypto",
            ChallengeType::Forensics => "forensics",
            ChallengeType::Reversing => "reversing",
            ChallengeType::Misc => "misc",
        }
    }

    /// The name of the category, as an owned string.
    pub fn to_string(&self) -> (s: String)
        ensures
            s@ == self.name(),
    {
        self.as_str().to_string()
    }

    /// Every category is read back from its own name, and its name is the
    /// name of a category.
    pub proof fn lemma_name_round_trip(self)
        ensures
            Self::of_name(self.name()) == self,
            is_type_name(self.name()),
    {
        reveal_strlit("web");
        reveal_strlit("pwn");
        reveal_strlit("crypto");
        reveal_strlit("forensics");
        reveal_strlit("reversing");
        reveal_strlit("misc");
        assert("web"@.len() == 3 && "pwn"@.len() == 3 && "crypto"@.len() == 6);
        assert("forensics"@.len() == 9 && "reversing"@.len() == 9 && "misc"@.len() == 4);
        assert("web"@[0] != "pwn"@[0]);
        assert("forensics"@[0] != "reversing"@[0]);
    }
}

/// A challenge as contracts see it.
pub struct ChallengeView {
    pub name: Seq<char>,
    pub category: ChallengeType,
    pub flag: Seq<char>,
}

/// A task of a workspace. It counts as solved while its flag is not empty.
#[derive(Debug)]
pub struct Challenge {
    pub name: String,
    pub category: ChallengeType,
    pub flag: String,
}

impl View for Challenge {
    type V = ChallengeView;

    open spec fn view(&self) -> ChallengeView {
        ChallengeView { name: self.name@, category: self.category, flag: self.flag@ }
    }
}

impl DeepView for Challenge {
    type V = ChallengeView;

    open spec fn deep_view(&self) -> ChallengeView {
        self@
    }
}

impl Clone for Challenge {
    fn clone(&self) -> (c: Self)
        ensures
            c@ == self@,
    {
        Challenge { name: self.name.clone(), category: self.category, flag: self.flag.clone() }
    }
}

impl Challenge {
    /// A challenge with the given name and flag, in the category that
    /// `category` names (`Misc` where it names none).
    pub fn new(name: String, category: String, flag: String) -> (c: Self)
        ensures
            c@ == (ChallengeView {
                name: name@,
                category: ChallengeType::of_name(category@),
                flag: flag@,
            }),
    {
        Challenge { name, category: ChallengeType::from_str(category.as_str()), flag }
    }

    /// Whether a flag has been recorded for the challenge.
    pub fn is_solved(&self) -> (b: bool)
        ensures
            b == (self@.flag.len() > 0),
    {
        !self.flag.as_str().is_empty()
    }
}

/// Hands `chall_type` back where it names a category.
pub fn check_type(chall_type: &str) -> (r: Option<&str>)
    ensures
        r is Some <==> is_type_name(chall_type@),
        r matches Some(t) ==> t@ == chall_type@,
{
    if chall_type.eq("web") {
        Some("web")
    } else if chall_type.eq("pwn") {
        Some("pwn")
    } else if chall_type.eq("crypto") {
        Some("crypto")
    } else if chall_type.eq("forensics") {
        Some("forensics")
    } else if chall_type.eq("reversing") {
        Some("reversing")
    } else if chall_type.eq("misc") {
        Some("misc")
    } else {
        None
    }
}

/// Why a challenge was not written to the records.
#[derive(Clone, Copy, Debug, PartialEq, Eq, Structural)]
pub enum SaveError {
    /// The workspace does not exist, or is archived.
    Ctf(CtfError),
    /// No id is left for a new row.
    OutOfIds,
}

/// Why a challenge was not edited.
#[derive(Clone, Copy, Debug, PartialEq, Eq, Structural)]
pub enum EditError {
    /// The workspace is archived or missing, or does not hold the challenge.
    NoWorkspace,
    /// Another challenge of the workspace bears the new name.
    NameTaken,
}

/// The records after the challenge `c` has been saved to the workspace
/// `ctf_name`, which has to exist and must not be archived: the flag of `c`
/// is written where the workspace holds a challenge of its name, and `c` is
/// added where it holds none.
pub open spec fn with_saved_challenge(store: StoreView, ctf_name: Seq<char>, c: ChallengeView)
    -> Result<StoreView, SaveError> {
    match store.ctf_exists(ctf_name) {
        Err(e) => Err(SaveError::Ctf(e)),
        Ok(id) => if store.chall_count(ctf_name, c.name) > 0 {
            Ok(store.with_flag_by_id(id, c.name, c.flag))
        } else if store.next_chall_id() <= i32::MAX {
            Ok(store.with_new_challenge(id, c))
        } else {
            Err(SaveError::OutOfIds)
        },
    }
}

impl Challenge {
    /// The directories that a new challenge of the workspace `ctf_name`
    /// needs: that of its category, unless it is there, and its own.
    pub fn create_file(&self, workdir: &String, ctf_name: &str) -> (effects: Vec<Effect>)
        ensures
            effects.deep_view() == seq![
                EffectView::EnsureDir(category_dir(workdir@, ctf_name@, self@.category.name())),
                EffectView::CreateDir(
                    chall_dir(workdir@, ctf_name@, self@.category.name(), self@.name),
                ),
            ],
    {
        let mut effects: Vec<Effect> = Vec::new();
        effects.push(
            Effect::EnsureDir(category_path(workdir.as_str(), ctf_name, self.category.as_str())),
        );
        effects.push(
            Effect::CreateDir(
                chall_path(
                    workdir.as_str(),
                    ctf_name,
                    self.category.as_str(),
                    self.name.as_str(),
                ),
            ),
        );
        assert(effects.deep_view() =~= seq![
            EffectView::EnsureDir(category_dir(workdir@, ctf_name@, self@.category.name())),
            EffectView::CreateDir(
                chall_dir(workdir@, ctf_name@, self@.category.name(), self@.name),
            ),
        ]);
        effects
    }

    /// Writes the challenge to the records of the workspace `ctf_name`: a
    /// new row where the workspace holds no challenge of the name, else the
    /// flag of those it holds. The workspace has to exist and must not be
    /// archived.
    pub fn save_to_db(&self, store: &mut Store, ctf_name: &String) -> (r: Result<(), SaveError>)
        ensures
            match with_saved_challenge(old(store)@, ctf_name@, self@) {
                Ok(s) => r is Ok && final(store)@ == s,
                Err(e) => r == Err::<(), SaveError>(e) && final(store)@ == old(store)@,
            },
    {
        let id = match ctf_exists(store, ctf_name) {
            Ok(id) => id,
            Err(e) => {
                return Err(SaveError::Ctf(e));
            },
        };
        if chall_exists(store, ctf_name, &self.name) == 0 {
            match store.insert_challenge(id, self) {
                Ok(_) => Ok(()),
                Err(_) => Err(SaveError::OutOfIds),
            }
        } else {
            store.update_flag(id, &self.name, &self.flag);
            Ok(())
        }
    }

    /// Renames the challenge, which the workspace `ctf_name` holds, to `name`
    /// and puts it in the category that `category` names, in the records
    /// and, by the effects handed back, on disk; the last effect sends the
    /// shell to the new directory. The challenges of other workspaces stay
    /// as they are.
    pub fn edit_chall(
        &mut self,
        store: &mut Store,
        workdir: &String,
        ctf_name: &String,
        name: &String,
        category: &String,
    ) -> (r: Result<Vec<Effect>, EditError>)
        ensures
            match edit_refusal(old(store)@, ctf_name@, old(self)@.name, name@) {
                Some(e) => r matches Err(x) && x == e && final(store)@ == old(store)@ && final(self)@ == old(self)@,
                None => {
                    &&& r matches Ok(effects) && effects.deep_view() == edit_steps(
                        workdir@,
                        ctf_name@,
                        old(self)@,
                        name@,
                        category@,
                    )
                    &&& final(store)@ == old(store)@.with_challenge_renamed(
                        ctf_name@,
                        old(self)@.name,
                        name@,
                        category@,
                    )
                    &&& final(self)@ == (ChallengeView {
                        name: name@,
                        category: ChallengeType::of_name(category@),
                        flag: old(self)@.flag,
                    })
                },
            },
    {
        if chall_exists(store, ctf_name, &self.name) == 0 {
            return Err(EditError::NoWorkspace);
        }
        let own: usize = if *name == self.name {
            1
        } else {
            0
        };
        if chall_exists(store, ctf_name, name) > own {
            return Err(EditError::NameTaken);
        }
        let old_path = chall_path(
            workdir.as_str(),
            ctf_name.as_str(),
            self.category.as_str(),
            self.name.as_str(),
        );
        let new_path = chall_path(
            workdir.as_str(),
            ctf_name.as_str(),
            category.as_str(),
            name.as_str(),
        );
        let mut effects: Vec<Effect> = Vec::new();
        effects.push(
            Effect::EnsureDir(
                category_path(workdir.as_str(), ctf_name.as_str(), category.as_str()),
            ),
        );
        effects.push(Effect::Rename(old_path, new_path.clone()));
        effects.push(Effect::ChangeDirPlain(new_path));
        store.rename_challenge(ctf_name, &self.name, name, category);
        self.name = name.clone();
        self.category = ChallengeType::from_str(category.as_str());
        assert(effects.deep_view() =~= edit_steps(
            workdir@,
            ctf_name@,
            old(self)@,
            name@,
            category@,
        ));
        Ok(effects)
    }
}

/// Why the challenge named `old_name` of the workspace `ctf` cannot be
/// renamed to `name`, where it cannot: the workspace has to hold it, and no
/// other challenge of the workspace may bear the new name.
pub open spec fn edit_refusal(store: StoreView, ctf: Seq<char>, old_name: Seq<char>, name: Seq<char>)
    -> Option<EditError> {
    if store.chall_count(ctf, old_name) == 0 {
        Some(EditError::NoWorkspace)
    } else if store.chall_count(ctf, name) > (if name == old_name {
        1nat
    } else {
        0nat
    }) {
        Some(EditError::NameTaken)
    } else {
        None
    }
}

/// What is to be done on disk where the challenge `c` of the workspace `ctf`
/// is renamed to `name` and put in the category `category`.
pub open spec fn edit_steps(
    workdir: Seq<char>,
    ctf: Seq<char>,
    c: ChallengeView,
    name: Seq<char>,
    category: Seq<char>,
) -> Seq<EffectView> {
    seq![
        EffectView::EnsureDir(category_dir(workdir, ctf, category)),
        EffectView::Rename(
            chall_dir(workdir, ctf, c.category.name(), c.name),
            chall_dir(workdir, ctf, category, name),
        ),
        EffectView::ChangeDirPlain(chall_dir(workdir, ctf, category, name)),
    ]
}

/// Removes the challenge `chall_name` from the workspace `ctf_name`, lets
/// the active context follow to that workspace alone, and hands back the
/// removal of the challenge's directory. Nothing happens where the workspace
/// is archived or missing, or does not hold the challenge.
pub fn remove_chall(
    store: &mut Store,
    file: &mut ContextFile,
    workdir: &String,
    ctf_name: &String,
    chall_name: &String,
) -> (r: Result<Vec<Effect>, ChallengeError>)
    ensures
        match old(store)@.challenge_in(ctf_name@, chall_name@) {
            None => r matches Err(x) && x == ChallengeError::NotFound && final(store)@ == old(
                store,
            )@ && final(file)@ == old(file)@,
            Some(c) => {
                &&& r matches Ok(effects) && effects.deep_view() == seq![
                    EffectView::RemoveDirAll(
                        chall_dir(workdir@, ctf_name@, c.category.name(), chall_name@),
                    ),
                ]
                &&& final(store)@ == old(store)@.without_challenge_in(ctf_name@, chall_name@)
                &&& final(file)@ == followed(final(store)@, ctf_name@, None)
            },
        },
{
    let category = match get_challenge_in(store, ctf_name, chall_name) {
        Some(c) => c.category,
        None => {
            return Err(ChallengeError::NotFound);
        },
    };
    store.remove_challenge_in(ctf_name, chall_name);
    follow(file, store, ctf_name, None);
    let mut effects: Vec<Effect> = Vec::new();
    effects.push(
        Effect::RemoveDirAll(
            chall_path(
                workdir.as_str(),
                ctf_name.as_str(),
                category.as_str(),
                chall_name.as_str(),
            ),
        ),
    );
    assert(effects.deep_view() =~= seq![
        EffectView::RemoveDirAll(
            chall_dir(workdir@, ctf_name@, category.name(), chall_name@),
        ),
    ]);
    Ok(effects)
}

/// An edit stays in its workspace: renaming the challenge `old_name` of the
/// workspace `ctf` changes the name and the category of the rows of that
/// workspace that bear the name, and nothing else in the records.
pub proof fn lemma_edit_stays_in_workspace(
    store: StoreView,
    ctf: Seq<char>,
    old_name: Seq<char>,
    name: Seq<char>,
    category: Seq<char>,
)
    ensures
        ({
            let after = store.with_challenge_renamed(ctf, old_name, name, category);
            &&& after.ctfs == store.ctfs
            &&& after.challenges.len() == store.challenges.len()
            &&& forall|i: int|
                0 <= i < store.challenges.len() ==> #[trigger] after.challenges[i] == if store.open_ctf_id(
                    ctf,
                ) == Some(store.challenges[i].ctf_id) && store.challenges[i].name == old_name {
                    crate::db::ChallengeRowView { name, category, ..store.challenges[i] }
                } else {
                    store.challenges[i]
                }
        }),
{
}

} // verus!
