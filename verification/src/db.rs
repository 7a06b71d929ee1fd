//! The records of workspaces and challenges: two tables held in memory, the
//! lookups by name and the changes that commands make to them.
//!
//! Rows keep the order in which they were inserted. A lookup that asks for
//! one row takes the first that matches. A challenge belongs to the workspace
//! whose id its `ctf_id` holds; where a workspace is given by name, its id is
//! that of the first row with the name.
use vstd::prelude::*;
use vstd::string::*;
use crate::ctf::challenge::{Challenge, ChallengeType, ChallengeView};
use crate::ctf::{Ctf, CtfView};
use crate::seqs::{
    first_where, lemma_filter_next, lemma_first_where, lemma_first_where_is, lemma_map_next,
    lemma_max_key_next, max_key, next_key, not,
};

verus! {

/// A row of the workspace table as contracts see it.
pub struct CtfRowView {
    pub id: i32,
    pub path: Seq<char>,
    pub name: Seq<char>,
    pub url: Seq<char>,
    pub creds: (Seq<char>, Seq<char>),
    pub start: Seq<char>,
    pub end: Seq<char>,
    pub archived: bool,
}

/// A row of the workspace table.
#[derive(Debug)]
pub struct CtfRow {
    pub id: i32,
    pub path: String,
    pub name: String,
    pub url: String,
    pub creds: (String, String),
    pub start: String,
    pub end: String,
    pub archived: bool,
}

impl View for CtfRow {
    type V = CtfRowView;

    open spec fn view(&self) -> CtfRowView {
        CtfRowView {
            id: self.id,
            path: self.path@,
            name: self.name@,
            url: self.url@,
            creds: (self.creds.0@, self.creds.1@),
            start: self.start@,
            end: self.end@,
            archived: self.archived,
        }
    }
}

impl DeepView for CtfRow {
    type V = CtfRowView;

    open spec fn deep_view(&self) -> CtfRowView {
        self@
    }
}

impl CtfRowView {
    /// The workspace that the row describes, holding `challenges`.
    pub open spec fn ctf(self, challenges: Seq<ChallengeView>) -> CtfView {
        CtfView {
            file_path: self.path,
            name: self.name,
            url: self.url,
            creds: self.creds,
            start: self.start,
            end: self.end,
            challenges,
        }
    }
}

impl Clone for CtfRow {
    fn clone(&self) -> (r: Self)
        ensures
            r@ == self@,
    {
        CtfRow {
            id: self.id,
            path: self.path.clone(),
            name: self.name.clone(),
            url: self.url.clone(),
            creds: (self.creds.0.clone(), self.creds.1.clone()),
            start: self.start.clone(),
            end: self.end.clone(),
            archived: self.archived,
        }
    }
}

/// A row of the challenge table as contracts see it.
pub struct ChallengeRowView {
    pub id: i32,
    pub ctf_id: i32,
    pub name: Seq<char>,
    pub category: Seq<char>,
    pub flag: Seq<char>,
    pub archived: bool,
}

/// A row of the challenge table. The category is kept as the text that was
/// stored.
#[derive(Debug)]
pub struct ChallengeRow {
    pub id: i32,
    pub ctf_id: i32,
    pub name: String,
    pub category: String,
    pub flag: String,
    pub archived: bool,
}

impl View for ChallengeRow {
    type V = ChallengeRowView;

    open spec fn view(&self) -> ChallengeRowView {
        ChallengeRowView {
            id: self.id,
            ctf_id: self.ctf_id,
            name: self.name@,
            category: self.category@,
            flag: self.flag@,
            archived: self.archived,
        }
    }
}

impl DeepView for ChallengeRow {
    type V = ChallengeRowView;

    open spec fn deep_view(&self) -> ChallengeRowView {
        self@
    }
}

impl ChallengeRowView {
    /// The challenge that the row describes.
    pub open spec fn challenge(self) -> ChallengeView {
        ChallengeView {
            name: self.name,
            category: ChallengeType::of_name(self.category),
            flag: self.flag,
        }
    }
}

impl Clone for ChallengeRow {
    fn clone(&self) -> (r: Self)
        ensures
            r@ == self@,
    {
        ChallengeRow {
            id: self.id,
            ctf_id: self.ctf_id,
            name: self.name.clone(),
            category: self.category.clone(),
            flag: self.flag.clone(),
            archived: self.archived,
        }
    }
}

impl ChallengeRow {
    /// The challenge that the row describes.
    pub fn to_challenge(&self) -> (c: Challenge)
        ensures
            c@ == self@.challenge(),
    {
        Challenge::new(self.name.clone(), self.category.clone(), self.flag.clone())
    }
}

/// The workspace rows named `name`.
pub open spec fn ctf_named(name: Seq<char>) -> spec_fn(CtfRowView) -> bool {
    |r: CtfRowView| r.name == name
}

/// The workspace rows named `name` whose archive mark is `archived`.
pub open spec fn ctf_named_as(name: Seq<char>, archived: bool) -> spec_fn(CtfRowView) -> bool {
    |r: CtfRowView| r.name == name && r.archived == archived
}

/// The workspace rows whose archive mark is `archived`.
pub open spec fn ctf_marked(archived: bool) -> spec_fn(CtfRowView) -> bool {
    |r: CtfRowView| r.archived == archived
}

/// The workspace rows with the id `id`.
pub open spec fn ctf_with_id(id: i32) -> spec_fn(CtfRowView) -> bool {
    |r: CtfRowView| r.id == id
}

/// The challenge rows named `name`.
pub open spec fn chall_named(name: Seq<char>) -> spec_fn(ChallengeRowView) -> bool {
    |h: ChallengeRowView| h.name == name
}

/// The challenge rows of the workspace with the id `id`; none where `id` is
/// `None`.
pub open spec fn chall_in(id: Option<i32>) -> spec_fn(ChallengeRowView) -> bool {
    |h: ChallengeRowView| id == Some(h.ctf_id)
}

/// The challenge rows named `name` of the workspace with the id `id`.
pub open spec fn chall_in_named(id: Option<i32>, name: Seq<char>) -> spec_fn(
    ChallengeRowView,
) -> bool {
    |h: ChallengeRowView| id == Some(h.ctf_id) && h.name == name
}

/// Among the challenge rows of the workspace with the id `id`, those with a
/// flag.
pub open spec fn chall_solved_in(id: Option<i32>) -> spec_fn(ChallengeRowView) -> bool {
    |h: ChallengeRowView| id == Some(h.ctf_id) && h.flag.len() > 0
}

/// The challenge that a row describes.
pub open spec fn row_challenge() -> spec_fn(ChallengeRowView) -> ChallengeView {
    |h: ChallengeRowView| h.challenge()
}

/// The id of a workspace row.
pub open spec fn ctf_key() -> spec_fn(CtfRowView) -> i32 {
    |r: CtfRowView| r.id
}

/// The id of a challenge row.
pub open spec fn chall_key() -> spec_fn(ChallengeRowView) -> i32 {
    |h: ChallengeRowView| h.id
}

/// Gives the rows that `p` picks the flag `flag`.
pub open spec fn put_flag(p: spec_fn(ChallengeRowView) -> bool, flag: Seq<char>) -> spec_fn(
    ChallengeRowView,
) -> ChallengeRowView {
    |h: ChallengeRowView|
        if p(h) {
            ChallengeRowView { flag, ..h }
        } else {
            h
        }
}

/// Gives the challenge rows that `p` picks the archive mark `archived`.
pub open spec fn put_chall_mark(p: spec_fn(ChallengeRowView) -> bool, archived: bool) -> spec_fn(
    ChallengeRowView,
) -> ChallengeRowView {
    |h: ChallengeRowView|
        if p(h) {
            ChallengeRowView { archived, ..h }
        } else {
            h
        }
}

/// Moves the challenge rows that `p` picks to the workspace with the id
/// `ctf_id`.
pub open spec fn put_owner(p: spec_fn(ChallengeRowView) -> bool, ctf_id: i32) -> spec_fn(
    ChallengeRowView,
) -> ChallengeRowView {
    |h: ChallengeRowView|
        if p(h) {
            ChallengeRowView { ctf_id, ..h }
        } else {
            h
        }
}

/// Gives the challenge rows that `p` picks the name `name` and the category
/// `category`.
pub open spec fn put_chall_name(
    p: spec_fn(ChallengeRowView) -> bool,
    name: Seq<char>,
    category: Seq<char>,
) -> spec_fn(ChallengeRowView) -> ChallengeRowView {
    |h: ChallengeRowView|
        if p(h) {
            ChallengeRowView { name, category, ..h }
        } else {
            h
        }
}

/// Gives the workspace rows that `p` picks the archive mark `archived`.
pub open spec fn put_ctf_mark(p: spec_fn(CtfRowView) -> bool, archived: bool) -> spec_fn(
    CtfRowView,
) -> CtfRowView {
    |r: CtfRowView|
        if p(r) {
            CtfRowView { archived, ..r }
        } else {
            r
        }
}

/// Gives the workspace rows that `p` picks the name `name` and the path
/// `path`.
pub open spec fn put_ctf_name(p: spec_fn(CtfRowView) -> bool, name: Seq<char>, path: Seq<char>)
    -> spec_fn(CtfRowView) -> CtfRowView {
    |r: CtfRowView|
        if p(r) {
            CtfRowView { name, path, ..r }
        } else {
            r
        }
}

/// Gives the workspace rows that `p` picks the details of `c`.
pub open spec fn put_details(p: spec_fn(CtfRowView) -> bool, c: CtfView) -> spec_fn(
    CtfRowView,
) -> CtfRowView {
    |r: CtfRowView|
        if p(r) {
            CtfRowView { url: c.url, creds: c.creds, start: c.start, end: c.end, ..r }
        } else {
            r
        }
}

/// The two tables as contracts see them.
pub struct StoreView {
    pub ctfs: Seq<CtfRowView>,
    pub challenges: Seq<ChallengeRowView>,
}

/// The records of workspaces and challenges.
#[derive(Debug)]
pub struct Store {
    pub ctfs: Vec<CtfRow>,
    pub challenges: Vec<ChallengeRow>,
}

impl View for Store {
    type V = StoreView;

    open spec fn view(&self) -> StoreView {
        StoreView { ctfs: self.ctfs.deep_view(), challenges: self.challenges.deep_view() }
    }
}

/// Why a lookup that asks for one row gave none.
#[derive(Clone, Copy, Debug, PartialEq, Eq, Structural)]
pub enum DbError {
    QueryReturnedNoRows,
}

/// Why a challenge could not be had by its name.
#[derive(Clone, Copy, Debug, PartialEq, Eq, Structural)]
pub enum ChallengeError {
    /// No challenge has the name.
    NotFound,
    /// The challenge is marked archived.
    Archived,
}

/// Why the workspace of a challenge could not be had.
#[derive(Debug)]
pub enum OwnerError {
    /// No challenge has the name, or none whose workspace exists.
    NotFound,
    /// The workspace, named here, is archived.
    Archived(String),
}

/// Why a workspace does not count as existing.
#[derive(Clone, Copy, Debug, PartialEq, Eq, Structural)]
pub enum CtfError {
    /// No workspace has the name.
    NotFound,
    /// The workspace is archived.
    Archived,
}

impl StoreView {
    /// The position of the first workspace row named `name`, or the number of
    /// rows.
    pub open spec fn ctf_pos(self, name: Seq<char>) -> int {
        first_where(self.ctfs, ctf_named(name))
    }

    /// Whether a workspace is named `name`.
    pub open spec fn has_ctf(self, name: Seq<char>) -> bool {
        self.ctf_pos(name) < self.ctfs.len()
    }

    /// The id by which challenges refer to the workspace named `name`.
    pub open spec fn ctf_id(self, name: Seq<char>) -> Option<i32> {
        if self.has_ctf(name) {
            Some(self.ctfs[self.ctf_pos(name)].id)
        } else {
            None
        }
    }

    /// The archive mark of the workspace named `name`.
    pub open spec fn ctf_archived(self, name: Seq<char>) -> Option<bool> {
        if self.has_ctf(name) {
            Some(self.ctfs[self.ctf_pos(name)].archived)
        } else {
            None
        }
    }

    /// The id of the first workspace named `name` that is not archived.
    pub open spec fn open_ctf_id(self, name: Seq<char>) -> Option<i32> {
        let i = first_where(self.ctfs, ctf_named_as(name, false));
        if i < self.ctfs.len() {
            Some(self.ctfs[i].id)
        } else {
            None
        }
    }

    /// The challenges of the workspace with the id `id`, in table order.
    pub open spec fn challenges_of(self, id: Option<i32>) -> Seq<ChallengeView> {
        self.challenges.filter(chall_in(id)).map_values(row_challenge())
    }

    /// The workspace named `name` with the archive mark `archived`, together
    /// with the challenges of the workspace that the name stands for.
    pub open spec fn get_ctf(self, name: Seq<char>, archived: bool) -> Option<CtfView> {
        let i = first_where(self.ctfs, ctf_named_as(name, archived));
        if i < self.ctfs.len() {
            Some(self.ctfs[i].ctf(self.challenges_of(self.ctf_id(name))))
        } else {
            None
        }
    }

    /// The archive mark of the challenge `chall_name` of the workspace
    /// `ctf_name`.
    pub open spec fn chall_archived(self, ctf_name: Seq<char>, chall_name: Seq<char>) -> Option<
        bool,
    > {
        let i = first_where(self.challenges, chall_in_named(self.ctf_id(ctf_name), chall_name));
        if i < self.challenges.len() {
            Some(self.challenges[i].archived)
        } else {
            None
        }
    }

    /// The first challenge named `name`, whatever workspace it is in. It is
    /// refused where it is marked archived.
    pub open spec fn get_challenge(self, name: Seq<char>) -> Result<ChallengeView, ChallengeError> {
        let i = first_where(self.challenges, chall_named(name));
        if i >= self.challenges.len() {
            Err(ChallengeError::NotFound)
        } else if self.challenges[i].archived {
            Err(ChallengeError::Archived)
        } else {
            Ok(self.challenges[i].challenge())
        }
    }

    /// The challenge named `chall_name` of the first workspace named
    /// `ctf_name` that is not archived.
    pub open spec fn challenge_in(self, ctf_name: Seq<char>, chall_name: Seq<char>) -> Option<
        ChallengeView,
    > {
        let i = first_where(
            self.challenges,
            chall_in_named(self.open_ctf_id(ctf_name), chall_name),
        );
        if i < self.challenges.len() {
            Some(self.challenges[i].challenge())
        } else {
            None
        }
    }

    /// How many challenges named `chall_name` the first workspace named
    /// `ctf_name` that is not archived holds.
    pub open spec fn chall_count(self, ctf_name: Seq<char>, chall_name: Seq<char>) -> nat {
        self.challenges.filter(chall_in_named(self.open_ctf_id(ctf_name), chall_name)).len()
    }

    /// The id of the workspace named `name`, where it exists and is not
    /// archived.
    pub open spec fn ctf_exists(self, name: Seq<char>) -> Result<i32, CtfError> {
        if !self.has_ctf(name) {
            Err(CtfError::NotFound)
        } else if self.ctfs[self.ctf_pos(name)].archived {
            Err(CtfError::Archived)
        } else {
            Ok(self.ctfs[self.ctf_pos(name)].id)
        }
    }

    /// How many challenges the workspace named `ctf_name` holds.
    pub open spec fn total(self, ctf_name: Seq<char>) -> nat {
        self.challenges.filter(chall_in(self.ctf_id(ctf_name))).len()
    }

    /// How many challenges of the workspace named `ctf_name` have a flag.
    pub open spec fn solved(self, ctf_name: Seq<char>) -> nat {
        self.challenges.filter(chall_solved_in(self.ctf_id(ctf_name))).len()
    }
}

impl StoreView {
    /// The challenge rows named `name` whose workspace row exists.
    pub open spec fn chall_joined(self, name: Seq<char>) -> spec_fn(ChallengeRowView) -> bool {
        |h: ChallengeRowView|
            h.name == name && first_where(self.ctfs, ctf_with_id(h.ctf_id)) < self.ctfs.len()
    }

    /// The name of the workspace that holds the first challenge named `name`.
    pub open spec fn owner(self, name: Seq<char>) -> Option<Seq<char>> {
        let i = first_where(self.challenges, self.chall_joined(name));
        if i < self.challenges.len() {
            Some(self.ctfs[first_where(self.ctfs, ctf_with_id(self.challenges[i].ctf_id))].name)
        } else {
            None
        }
    }

    /// The name of the workspace that holds the first challenge named `name`,
    /// where that workspace is not archived.
    pub open spec fn open_owner(self, name: Seq<char>) -> Option<Seq<char>> {
        match self.owner(name) {
            Some(w) => if self.ctf_archived(w) == Some(true) {
                None
            } else {
                Some(w)
            },
            None => None,
        }
    }

    /// The workspace that a row describes, with the challenges of the
    /// workspace that the row's name stands for.
    pub open spec fn row_ctf(self) -> spec_fn(CtfRowView) -> CtfView {
        |r: CtfRowView| r.ctf(self.challenges_of(self.ctf_id(r.name)))
    }

    /// The workspaces whose archive mark is `archived`, in table order.
    pub open spec fn all_ctfs(self, archived: bool) -> Seq<CtfView> {
        self.ctfs.filter(ctf_marked(archived)).map_values(self.row_ctf())
    }

    /// The tables without the workspaces named `name` and without the
    /// challenges of the workspace that the name stands for.
    pub open spec fn without_ctf(self, name: Seq<char>) -> StoreView {
        StoreView {
            ctfs: self.ctfs.filter(not(ctf_named(name))),
            challenges: self.challenges.filter(not(chall_in(self.ctf_id(name)))),
        }
    }

    /// The tables without the challenges named `chall_name` of the workspace
    /// `ctf_name`.
    pub open spec fn without_challenge(self, ctf_name: Seq<char>, chall_name: Seq<char>)
        -> StoreView {
        StoreView {
            challenges: self.challenges.filter(
                not(chall_in_named(self.ctf_id(ctf_name), chall_name)),
            ),
            ..self
        }
    }

    /// The tables with `flag` as the flag of the challenges named
    /// `chall_name` of the workspace `ctf_name`.
    pub open spec fn with_flag(self, ctf_name: Seq<char>, chall_name: Seq<char>, flag: Seq<char>)
        -> StoreView {
        StoreView {
            challenges: self.challenges.map_values(
                put_flag(chall_in_named(self.ctf_id(ctf_name), chall_name), flag),
            ),
            ..self
        }
    }

    /// The tables with the archive mark `archived` on the workspaces named
    /// `name` and on the challenges of the workspace that the name stands
    /// for.
    pub open spec fn with_mark(self, name: Seq<char>, archived: bool) -> StoreView {
        StoreView {
            ctfs: self.ctfs.map_values(put_ctf_mark(ctf_named(name), archived)),
            challenges: self.challenges.map_values(
                put_chall_mark(chall_in(self.ctf_id(name)), archived),
            ),
        }
    }

    /// The tables with the challenges named `chall_name` of the workspace
    /// `from` moved to the workspace with the id `to`.
    pub open spec fn with_owner(self, chall_name: Seq<char>, from: Seq<char>, to: i32)
        -> StoreView {
        StoreView {
            challenges: self.challenges.map_values(
                put_owner(chall_in_named(self.ctf_id(from), chall_name), to),
            ),
            ..self
        }
    }

    /// The tables with the workspaces named `old_name` renamed to `name` and
    /// placed at `path`.
    pub open spec fn with_ctf_renamed(self, old_name: Seq<char>, name: Seq<char>, path: Seq<char>)
        -> StoreView {
        StoreView { ctfs: self.ctfs.map_values(put_ctf_name(ctf_named(old_name), name, path)), ..self }
    }

    /// The tables with the details of `c` on the workspaces named as `c` is.
    pub open spec fn with_details(self, c: CtfView) -> StoreView {
        StoreView { ctfs: self.ctfs.map_values(put_details(ctf_named(c.name), c)), ..self }
    }

    /// The tables with the challenges named `old_name` of the first
    /// workspace named `ctf_name` that is not archived renamed to `name` and
    /// put in the category `category`. The challenges of other workspaces
    /// stay as they are.
    pub open spec fn with_challenge_renamed(
        self,
        ctf_name: Seq<char>,
        old_name: Seq<char>,
        name: Seq<char>,
        category: Seq<char>,
    ) -> StoreView {
        StoreView {
            challenges: self.challenges.map_values(
                put_chall_name(
                    chall_in_named(self.open_ctf_id(ctf_name), old_name),
                    name,
                    category,
                ),
            ),
            ..self
        }
    }

    /// The tables without the challenges named `chall_name` of the first
    /// workspace named `ctf_name` that is not archived.
    pub open spec fn without_challenge_in(self, ctf_name: Seq<char>, chall_name: Seq<char>)
        -> StoreView {
        StoreView {
            challenges: self.challenges.filter(
                not(chall_in_named(self.open_ctf_id(ctf_name), chall_name)),
            ),
            ..self
        }
    }

    /// The tables with `flag` as the flag of the challenges named `name` of
    /// the workspace with the id `ctf_id`.
    pub open spec fn with_flag_by_id(self, ctf_id: i32, name: Seq<char>, flag: Seq<char>)
        -> StoreView {
        StoreView {
            challenges: self.challenges.map_values(
                put_flag(chall_in_named(Some(ctf_id), name), flag),
            ),
            ..self
        }
    }

    /// The tables after the workspace `c` has been saved: its details are
    /// written where it exists, it is added where it does not, and nothing
    /// changes where it is archived. `None` where no id is left to add it.
    pub open spec fn with_saved_ctf(self, c: CtfView) -> Option<StoreView> {
        match self.ctf_exists(c.name) {
            Ok(_) => Some(self.with_details(c)),
            Err(CtfError::Archived) => Some(self),
            Err(CtfError::NotFound) => if self.next_ctf_id() <= i32::MAX {
                Some(self.with_new_ctf(c))
            } else {
                None
            },
        }
    }

    /// The id that the next workspace row gets.
    pub open spec fn next_ctf_id(self) -> int {
        next_key(self.ctfs, ctf_key())
    }

    /// The id that the next challenge row gets.
    pub open spec fn next_chall_id(self) -> int {
        next_key(self.challenges, chall_key())
    }

    /// The tables with one more workspace row, which describes `c` and is not
    /// archived.
    pub open spec fn with_new_ctf(self, c: CtfView) -> StoreView {
        StoreView {
            ctfs: self.ctfs.push(
                CtfRowView {
                    id: self.next_ctf_id() as i32,
                    path: c.file_path,
                    name: c.name,
                    url: c.url,
                    creds: c.creds,
                    start: c.start,
                    end: c.end,
                    archived: false,
                },
            ),
            ..self
        }
    }

    /// The tables with one more challenge row, which puts `c` in the
    /// workspace with the id `ctf_id` and is not archived.
    pub open spec fn with_new_challenge(self, ctf_id: i32, c: ChallengeView) -> StoreView {
        StoreView {
            challenges: self.challenges.push(
                ChallengeRowView {
                    id: self.next_chall_id() as i32,
                    ctf_id,
                    name: c.name,
                    category: c.category.name(),
                    flag: c.flag,
                    archived: false,
                },
            ),
            ..self
        }
    }
}

/// The position of the first workspace row named `name`.
fn ctf_position(store: &Store, name: &String) -> (i: usize)
    ensures
        i == store@.ctf_pos(name@),
        i <= store.ctfs.len(),
        i < store.ctfs.len() ==> store.ctfs[i as int]@.name == name@,
{
    let n = store.ctfs.len();
    let mut i: usize = 0;
    while i < n && store.ctfs[i].name != *name
        invariant
            n == store.ctfs.len(),
            i <= n,
            forall|j: int| 0 <= j < i ==> !ctf_named(name@)(#[trigger] store@.ctfs[j]),
        decreases n - i,
    {
        i = i + 1;
    }
    proof {
        lemma_first_where_is(store@.ctfs, ctf_named(name@), i as int);
    }
    i
}

/// The position of the first workspace row named `name` with the archive
/// mark `archived`.
fn ctf_position_as(store: &Store, name: &String, archived: bool) -> (i: usize)
    ensures
        i == first_where(store@.ctfs, ctf_named_as(name@, archived)),
        i <= store.ctfs.len(),
{
    let n = store.ctfs.len();
    let mut i: usize = 0;
    while i < n && !(store.ctfs[i].name == *name && store.ctfs[i].archived == archived)
        invariant
            n == store.ctfs.len(),
            i <= n,
            forall|j: int| 0 <= j < i ==> !ctf_named_as(name@, archived)(#[trigger] store@.ctfs[j]),
        decreases n - i,
    {
        i = i + 1;
    }
    proof {
        lemma_first_where_is(store@.ctfs, ctf_named_as(name@, archived), i as int);
    }
    i
}

/// The id by which challenges refer to the workspace named `name`.
fn ctf_id_of(store: &Store, name: &String) -> (id: Option<i32>)
    ensures
        id == store@.ctf_id(name@),
{
    let i = ctf_position(store, name);
    if i < store.ctfs.len() {
        Some(store.ctfs[i].id)
    } else {
        None
    }
}

/// The id of the first workspace named `name` that is not archived.
fn open_ctf_id_of(store: &Store, name: &String) -> (id: Option<i32>)
    ensures
        id == store@.open_ctf_id(name@),
{
    let i = ctf_position_as(store, name, false);
    if i < store.ctfs.len() {
        Some(store.ctfs[i].id)
    } else {
        None
    }
}

/// Whether `id` is `Some(ctf_id)`.
fn id_is(id: Option<i32>, ctf_id: i32) -> (b: bool)
    ensures
        b == (id == Some(ctf_id)),
{
    match id {
        Some(v) => v == ctf_id,
        None => false,
    }
}

/// The challenges of the workspace with the id `id`, in table order.
fn challenges_in(store: &Store, id: Option<i32>) -> (out: Vec<Challenge>)
    ensures
        out.deep_view() == store@.challenges_of(id),
{
    let n = store.challenges.len();
    let mut out: Vec<Challenge> = Vec::new();
    let mut i: usize = 0;
    assert(out.deep_view() =~= Seq::<ChallengeView>::empty());
    proof {
        if n > 0 {
            lemma_filter_next(store@.challenges, chall_in(id), 0);
        } else {
            reveal(Seq::filter);
        }
        assert(store@.challenges.take(0).filter(chall_in(id)) =~= Seq::empty()) by {
            reveal(Seq::filter);
            assert(store@.challenges.take(0) =~= Seq::empty());
        }
        assert(Seq::<ChallengeRowView>::empty().map_values(row_challenge()) =~= Seq::empty());
    }
    while i < n
        invariant
            n == store.challenges.len(),
            i <= n,
            out.deep_view() == store@.challenges.take(i as int).filter(chall_in(id)).map_values(
                row_challenge(),
            ),
        decreases n - i,
    {
        let ghost before = out.deep_view();
        let ghost kept = store@.challenges.take(i as int).filter(chall_in(id));
        proof {
            lemma_filter_next(store@.challenges, chall_in(id), i as int);
        }
        if id_is(id, store.challenges[i].ctf_id) {
            let c = store.challenges[i].to_challenge();
            out.push(c);
            proof {
                assert(out.deep_view() =~= before.push(c@));
                assert(kept.push(store@.challenges[i as int]).map_values(row_challenge())
                    =~= kept.map_values(row_challenge()).push(store@.challenges[i as int].challenge()));
            }
        }
        i = i + 1;
    }
    proof {
        assert(store@.challenges.take(n as int) =~= store@.challenges);
    }
    out
}

/// The workspace named `name` whose archive mark is `archived`, with the
/// challenges of the workspace that the name stands for.
pub fn get_ctf_from_name(store: &Store, name: &String, archived: bool) -> (r: Result<Ctf, DbError>)
    ensures
        match r {
            Ok(c) => store@.get_ctf(name@, archived) == Some(c@),
            Err(_) => store@.get_ctf(name@, archived) is None,
        },
{
    let i = ctf_position_as(store, name, archived);
    if i >= store.ctfs.len() {
        return Err(DbError::QueryReturnedNoRows);
    }
    let row = &store.ctfs[i];
    let mut ctf = Ctf::new(
        row.path.clone(),
        row.name.clone(),
        row.url.clone(),
        (row.creds.0.clone(), row.creds.1.clone()),
        row.start.clone(),
        row.end.clone(),
    );
    ctf.challenges = challenges_in(store, ctf_id_of(store, name));
    Ok(ctf)
}

/// Whether the workspace named `name` is archived.
pub fn is_ctf_archived(store: &Store, name: &String) -> (r: Result<bool, DbError>)
    ensures
        match r {
            Ok(b) => store@.ctf_archived(name@) == Some(b),
            Err(_) => store@.ctf_archived(name@) is None,
        },
{
    let i = ctf_position(store, name);
    if i < store.ctfs.len() {
        Ok(store.ctfs[i].archived)
    } else {
        Err(DbError::QueryReturnedNoRows)
    }
}

/// Whether the challenge `chall_name` of the workspace `ctf_name` is
/// archived.
pub fn is_chall_archived(store: &Store, ctf_name: &String, chall_name: &String) -> (r: Result<
    bool,
    DbError,
>)
    ensures
        match r {
            Ok(b) => store@.chall_archived(ctf_name@, chall_name@) == Some(b),
            Err(_) => store@.chall_archived(ctf_name@, chall_name@) is None,
        },
{
    let id = ctf_id_of(store, ctf_name);
    let n = store.challenges.len();
    let mut i: usize = 0;
    while i < n && !(id_is(id, store.challenges[i].ctf_id) && store.challenges[i].name
        == *chall_name)
        invariant
            n == store.challenges.len(),
            i <= n,
            forall|j: int|
                0 <= j < i ==> !chall_in_named(id, chall_name@)(#[trigger] store@.challenges[j]),
        decreases n - i,
    {
        i = i + 1;
    }
    proof {
        lemma_first_where_is(store@.challenges, chall_in_named(id, chall_name@), i as int);
    }
    if i < n {
        Ok(store.challenges[i].archived)
    } else {
        Err(DbError::QueryReturnedNoRows)
    }
}

/// The first challenge named `name`.
pub fn get_challenge_from_name(store: &Store, name: String) -> (r: Result<
    Challenge,
    ChallengeError,
>)
    ensures
        match r {
            Ok(c) => store@.get_challenge(name@) == Ok::<ChallengeView, ChallengeError>(c@),
            Err(e) => store@.get_challenge(name@) == Err::<ChallengeView, ChallengeError>(e),
        },
{
    let n = store.challenges.len();
    let mut i: usize = 0;
    while i < n && store.challenges[i].name != name
        invariant
            n == store.challenges.len(),
            i <= n,
            forall|j: int| 0 <= j < i ==> !chall_named(name@)(#[trigger] store@.challenges[j]),
        decreases n - i,
    {
        i = i + 1;
    }
    proof {
        lemma_first_where_is(store@.challenges, chall_named(name@), i as int);
    }
    if i >= n {
        return Err(ChallengeError::NotFound);
    }
    if store.challenges[i].archived {
        Err(ChallengeError::Archived)
    } else {
        Ok(store.challenges[i].to_challenge())
    }
}

/// The challenge named `chall_name` of the workspace `ctf_name`, where that
/// workspace is not archived and holds it.
pub fn get_challenge_in(store: &Store, ctf_name: &String, chall_name: &String) -> (r: Option<
    Challenge,
>)
    ensures
        r.deep_view() == store@.challenge_in(ctf_name@, chall_name@),
{
    let id = open_ctf_id_of(store, ctf_name);
    let n = store.challenges.len();
    let mut i: usize = 0;
    while i < n && !(id_is(id, store.challenges[i].ctf_id) && store.challenges[i].name
        == *chall_name)
        invariant
            n == store.challenges.len(),
            i <= n,
            forall|j: int|
                0 <= j < i ==> !chall_in_named(id, chall_name@)(#[trigger] store@.challenges[j]),
        decreases n - i,
    {
        i = i + 1;
    }
    proof {
        lemma_first_where_is(store@.challenges, chall_in_named(id, chall_name@), i as int);
    }
    if i < n {
        Some(store.challenges[i].to_challenge())
    } else {
        None
    }
}

/// How many challenges named `chall_name` the workspace `ctf_name` holds,
/// where that workspace is not archived.
pub fn chall_exists(store: &Store, ctf_name: &String, chall_name: &String) -> (count: usize)
    ensures
        count == store@.chall_count(ctf_name@, chall_name@),
{
    let id = open_ctf_id_of(store, ctf_name);
    let n = store.challenges.len();
    let mut count: usize = 0;
    let mut i: usize = 0;
    let ghost p = chall_in_named(id, chall_name@);
    proof {
        assert(store@.challenges.take(0).filter(p) =~= Seq::empty()) by {
            reveal(Seq::filter);
            assert(store@.challenges.take(0) =~= Seq::empty());
        }
    }
    while i < n
        invariant
            n == store.challenges.len(),
            i <= n,
            count <= i,
            p == chall_in_named(id, chall_name@),
            count == store@.challenges.take(i as int).filter(p).len(),
        decreases n - i,
    {
        proof {
            lemma_filter_next(store@.challenges, p, i as int);
        }
        if id_is(id, store.challenges[i].ctf_id) && store.challenges[i].name == *chall_name {
            count = count + 1;
        }
        i = i + 1;
    }
    proof {
        assert(store@.challenges.take(n as int) =~= store@.challenges);
    }
    count
}

/// The id of the workspace named `name`, where it exists and is not archived.
pub fn ctf_exists(store: &Store, name: &String) -> (r: Result<i32, CtfError>)
    ensures
        r == store@.ctf_exists(name@),
{
    let i = ctf_position(store, name);
    if i >= store.ctfs.len() {
        Err(CtfError::NotFound)
    } else if store.ctfs[i].archived {
        Err(CtfError::Archived)
    } else {
        Ok(store.ctfs[i].id)
    }
}

/// How many challenges of the workspace `ctf_name` have a flag, and how many
/// it holds.
pub fn count_solved_and_total(store: &Store, ctf_name: &String) -> (r: (usize, usize))
    ensures
        r.0 == store@.solved(ctf_name@),
        r.1 == store@.total(ctf_name@),
{
    let id = ctf_id_of(store, ctf_name);
    let n = store.challenges.len();
    let mut solved: usize = 0;
    let mut total: usize = 0;
    let mut i: usize = 0;
    proof {
        assert(store@.challenges.take(0) =~= Seq::empty());
        reveal(Seq::filter);
    }
    while i < n
        invariant
            n == store.challenges.len(),
            i <= n,
            solved <= i,
            total <= i,
            solved == store@.challenges.take(i as int).filter(chall_solved_in(id)).len(),
            total == store@.challenges.take(i as int).filter(chall_in(id)).len(),
        decreases n - i,
    {
        proof {
            lemma_filter_next(store@.challenges, chall_solved_in(id), i as int);
            lemma_filter_next(store@.challenges, chall_in(id), i as int);
        }
        if id_is(id, store.challenges[i].ctf_id) {
            total = total + 1;
            if !store.challenges[i].flag.as_str().is_empty() {
                solved = solved + 1;
            }
        }
        i = i + 1;
    }
    proof {
        assert(store@.challenges.take(n as int) =~= store@.challenges);
    }
    (solved, total)
}

/// Which challenge rows a change applies to.
enum Pick<'a> {
    /// Those of the workspace with the id.
    In(Option<i32>),
    /// Those of the workspace with the id that have the name.
    InNamed(Option<i32>, &'a String),
}

impl<'a> Pick<'a> {
    spec fn holds(self) -> spec_fn(ChallengeRowView) -> bool {
        match self {
            Pick::In(id) => chall_in(id),
            Pick::InNamed(id, name) => chall_in_named(id, name@),
        }
    }

    fn picks(&self, row: &ChallengeRow) -> (b: bool)
        ensures
            b == (self.holds())(row@),
    {
        match self {
            Pick::In(id) => id_is(*id, row.ctf_id),
            Pick::InNamed(id, name) => id_is(*id, row.ctf_id) && row.name == **name,
        }
    }
}

/// What changes in a challenge row.
enum Change<'a> {
    Flag(&'a String),
    Mark(bool),
    Owner(i32),
    Name(&'a String, &'a String),
}

impl<'a> Change<'a> {
    spec fn on(self, p: spec_fn(ChallengeRowView) -> bool) -> spec_fn(
        ChallengeRowView,
    ) -> ChallengeRowView {
        match self {
            Change::Flag(flag) => put_flag(p, flag@),
            Change::Mark(archived) => put_chall_mark(p, archived),
            Change::Owner(ctf_id) => put_owner(p, ctf_id),
            Change::Name(name, category) => put_chall_name(p, name@, category@),
        }
    }

    fn apply(&self, row: &ChallengeRow, Ghost(p): Ghost<spec_fn(ChallengeRowView) -> bool>) -> (r:
        ChallengeRow)
        requires
            p(row@),
        ensures
            r@ == (self.on(p))(row@),
    {
        let mut r = row.clone();
        match self {
            Change::Flag(flag) => {
                r.flag = (*flag).clone();
            },
            Change::Mark(archived) => {
                r.archived = *archived;
            },
            Change::Owner(ctf_id) => {
                r.ctf_id = *ctf_id;
            },
            Change::Name(name, category) => {
                r.name = (*name).clone();
                r.category = (*category).clone();
            },
        }
        r
    }
}

/// Removes the challenge rows that `pick` picks.
fn delete_challenges(store: &mut Store, pick: Pick)
    ensures
        final(store)@ == (StoreView {
            challenges: old(store)@.challenges.filter(not(pick.holds())),
            ..old(store)@
        }),
{
    let ghost rows = store@.challenges;
    let ghost p = not(pick.holds());
    let n = store.challenges.len();
    let mut kept: Vec<ChallengeRow> = Vec::new();
    let mut i: usize = 0;
    proof {
        assert(rows.take(0) =~= Seq::empty());
        reveal(Seq::filter);
        assert(kept.deep_view() =~= rows.take(0).filter(p));
    }
    while i < n
        invariant
            n == store.challenges.len(),
            i <= n,
            rows == store@.challenges,
            p == not(pick.holds()),
            kept.deep_view() == rows.take(i as int).filter(p),
        decreases n - i,
    {
        proof {
            lemma_filter_next(rows, p, i as int);
        }
        if !pick.picks(&store.challenges[i]) {
            let ghost before = kept.deep_view();
            let row = store.challenges[i].clone();
            kept.push(row);
            assert(kept.deep_view() =~= before.push(row@));
        }
        i = i + 1;
    }
    proof {
        assert(rows.take(n as int) =~= rows);
    }
    store.challenges = kept;
}

/// Makes `change` in the challenge rows that `pick` picks.
fn update_challenges(store: &mut Store, pick: Pick, change: Change)
    ensures
        final(store)@ == (StoreView {
            challenges: old(store)@.challenges.map_values(change.on(pick.holds())),
            ..old(store)@
        }),
{
    let ghost rows = store@.challenges;
    let ghost f = change.on(pick.holds());
    let n = store.challenges.len();
    let mut out: Vec<ChallengeRow> = Vec::new();
    let mut i: usize = 0;
    proof {
        assert(out.deep_view() =~= rows.take(0).map_values(f));
    }
    while i < n
        invariant
            n == store.challenges.len(),
            i <= n,
            rows == store@.challenges,
            f == change.on(pick.holds()),
            out.deep_view() == rows.take(i as int).map_values(f),
        decreases n - i,
    {
        proof {
            lemma_map_next(rows, f, i as int);
        }
        let ghost before = out.deep_view();
        let row = if pick.picks(&store.challenges[i]) {
            change.apply(&store.challenges[i], Ghost(pick.holds()))
        } else {
            store.challenges[i].clone()
        };
        out.push(row);
        assert(out.deep_view() =~= before.push(row@));
        i = i + 1;
    }
    proof {
        assert(rows.take(n as int) =~= rows);
    }
    store.challenges = out;
}

/// What changes in a workspace row.
enum CtfChange<'a> {
    Mark(bool),
    Name(&'a String, &'a String),
    Details(&'a Ctf),
}

impl<'a> CtfChange<'a> {
    spec fn on(self, p: spec_fn(CtfRowView) -> bool) -> spec_fn(CtfRowView) -> CtfRowView {
        match self {
            CtfChange::Mark(archived) => put_ctf_mark(p, archived),
            CtfChange::Name(name, path) => put_ctf_name(p, name@, path@),
            CtfChange::Details(c) => put_details(p, c@),
        }
    }

    fn apply(&self, row: &CtfRow, Ghost(p): Ghost<spec_fn(CtfRowView) -> bool>) -> (r: CtfRow)
        requires
            p(row@),
        ensures
            r@ == (self.on(p))(row@),
    {
        let mut r = row.clone();
        match self {
            CtfChange::Mark(archived) => {
                r.archived = *archived;
            },
            CtfChange::Name(name, path) => {
                r.name = (*name).clone();
                r.path = (*path).clone();
            },
            CtfChange::Details(c) => {
                r.url = c.metadata.url.clone();
                r.creds = (c.metadata.creds.0.clone(), c.metadata.creds.1.clone());
                r.start = c.metadata.start.clone();
                r.end = c.metadata.end.clone();
            },
        }
        r
    }
}

/// Removes the workspace rows named `name`.
fn delete_ctfs(store: &mut Store, name: &String)
    ensures
        final(store)@ == (StoreView {
            ctfs: old(store)@.ctfs.filter(not(ctf_named(name@))),
            ..old(store)@
        }),
{
    let ghost rows = store@.ctfs;
    let ghost p = not(ctf_named(name@));
    let n = store.ctfs.len();
    let mut kept: Vec<CtfRow> = Vec::new();
    let mut i: usize = 0;
    proof {
        assert(rows.take(0) =~= Seq::empty());
        reveal(Seq::filter);
        assert(kept.deep_view() =~= rows.take(0).filter(p));
    }
    while i < n
        invariant
            n == store.ctfs.len(),
            i <= n,
            rows == store@.ctfs,
            p == not(ctf_named(name@)),
            kept.deep_view() == rows.take(i as int).filter(p),
        decreases n - i,
    {
        proof {
            lemma_filter_next(rows, p, i as int);
        }
        if store.ctfs[i].name != *name {
            let ghost before = kept.deep_view();
            let row = store.ctfs[i].clone();
            kept.push(row);
            assert(kept.deep_view() =~= before.push(row@));
        }
        i = i + 1;
    }
    proof {
        assert(rows.take(n as int) =~= rows);
    }
    store.ctfs = kept;
}

/// Makes `change` in the workspace rows named `name`.
fn update_ctfs(store: &mut Store, name: &String, change: CtfChange)
    ensures
        final(store)@ == (StoreView {
            ctfs: old(store)@.ctfs.map_values(change.on(ctf_named(name@))),
            ..old(store)@
        }),
{
    let ghost rows = store@.ctfs;
    let ghost f = change.on(ctf_named(name@));
    let n = store.ctfs.len();
    let mut out: Vec<CtfRow> = Vec::new();
    let mut i: usize = 0;
    proof {
        assert(out.deep_view() =~= rows.take(0).map_values(f));
    }
    while i < n
        invariant
            n == store.ctfs.len(),
            i <= n,
            rows == store@.ctfs,
            f == change.on(ctf_named(name@)),
            out.deep_view() == rows.take(i as int).map_values(f),
        decreases n - i,
    {
        proof {
            lemma_map_next(rows, f, i as int);
        }
        let ghost before = out.deep_view();
        let row = if store.ctfs[i].name == *name {
            change.apply(&store.ctfs[i], Ghost(ctf_named(name@)))
        } else {
            store.ctfs[i].clone()
        };
        out.push(row);
        assert(out.deep_view() =~= before.push(row@));
        i = i + 1;
    }
    proof {
        assert(rows.take(n as int) =~= rows);
    }
    store.ctfs = out;
}

/// The name of the workspace that holds the challenge named `name`. An
/// archived workspace is refused, and named in the refusal.
pub fn get_ctf_name_from_challenge(store: &Store, name: String) -> (r: Result<String, OwnerError>)
    ensures
        match r {
            Ok(w) => store@.owner(name@) == Some(w@) && store@.ctf_archived(w@) == Some(false),
            Err(OwnerError::NotFound) => store@.owner(name@) is None,
            Err(OwnerError::Archived(w)) => store@.owner(name@) == Some(w@) && store@.ctf_archived(
                w@,
            ) == Some(true),
        },
        match r {
            Ok(w) => store@.open_owner(name@) == Some(w@),
            Err(_) => store@.open_owner(name@) is None,
        },
{
    let n = store.challenges.len();
    let mut i: usize = 0;
    let mut at: usize = store.ctfs.len();
    while i < n
        invariant_except_break
            at == store.ctfs.len(),
        invariant
            n == store.challenges.len(),
            i <= n,
            forall|j: int| 0 <= j < i ==> !store@.chall_joined(name@)(#[trigger] store@.challenges[j]),
        ensures
            i < n ==> at < store.ctfs.len() && store@.challenges[i as int].name == name@ && at
                == first_where(store@.ctfs, ctf_with_id(store@.challenges[i as int].ctf_id)),
        decreases n - i,
    {
        if store.challenges[i].name == name {
            let k = ctf_position_by_id(store, store.challenges[i].ctf_id);
            if k < store.ctfs.len() {
                at = k;
                break ;
            }
        }
        i = i + 1;
    }
    proof {
        lemma_first_where_is(store@.challenges, store@.chall_joined(name@), i as int);
    }
    if i >= n {
        return Err(OwnerError::NotFound);
    }
    let ctf_name = store.ctfs[at].name.clone();
    proof {
        lemma_first_where(store@.ctfs, ctf_named(ctf_name@));
    }
    match is_ctf_archived(store, &ctf_name) {
        Ok(true) => Err(OwnerError::Archived(ctf_name)),
        _ => Ok(ctf_name),
    }
}

/// The position of the first workspace row with the id `id`.
fn ctf_position_by_id(store: &Store, id: i32) -> (i: usize)
    ensures
        i == first_where(store@.ctfs, ctf_with_id(id)),
        i <= store.ctfs.len(),
{
    let n = store.ctfs.len();
    let mut i: usize = 0;
    while i < n && store.ctfs[i].id != id
        invariant
            n == store.ctfs.len(),
            i <= n,
            forall|j: int| 0 <= j < i ==> !ctf_with_id(id)(#[trigger] store@.ctfs[j]),
        decreases n - i,
    {
        i = i + 1;
    }
    proof {
        lemma_first_where_is(store@.ctfs, ctf_with_id(id), i as int);
    }
    i
}

/// The workspaces whose archive mark is `archived`, each with its
/// challenges, in table order.
pub fn get_all_ctfs(store: &Store, archived: bool) -> (out: Vec<Ctf>)
    ensures
        out.deep_view() == store@.all_ctfs(archived),
{
    let ghost rows = store@.ctfs;
    let ghost p = ctf_marked(archived);
    let ghost f = store@.row_ctf();
    let n = store.ctfs.len();
    let mut out: Vec<Ctf> = Vec::new();
    let mut i: usize = 0;
    proof {
        assert(rows.take(0) =~= Seq::empty());
        reveal(Seq::filter);
        assert(out.deep_view() =~= rows.take(0).filter(p).map_values(f));
    }
    while i < n
        invariant
            n == store.ctfs.len(),
            i <= n,
            rows == store@.ctfs,
            p == ctf_marked(archived),
            f == store@.row_ctf(),
            out.deep_view() == rows.take(i as int).filter(p).map_values(f),
        decreases n - i,
    {
        proof {
            lemma_filter_next(rows, p, i as int);
        }
        if store.ctfs[i].archived == archived {
            let ghost before = out.deep_view();
            let ghost kept = rows.take(i as int).filter(p);
            let row = &store.ctfs[i];
            let mut ctf = Ctf::new(
                row.path.clone(),
                row.name.clone(),
                row.url.clone(),
                (row.creds.0.clone(), row.creds.1.clone()),
                row.start.clone(),
                row.end.clone(),
            );
            ctf.challenges = challenges_in(store, ctf_id_of(store, &row.name));
            out.push(ctf);
            proof {
                assert(out.deep_view() =~= before.push(ctf@));
                assert(kept.push(rows[i as int]).map_values(f) =~= kept.map_values(f).push(
                    f(rows[i as int]),
                ));
            }
        }
        i = i + 1;
    }
    proof {
        assert(rows.take(n as int) =~= rows);
    }
    out
}

/// Removes the workspaces named `name` and the challenges of the workspace
/// that the name stands for.
pub fn remove_ctf(store: &mut Store, name: &String)
    ensures
        final(store)@ == old(store)@.without_ctf(name@),
{
    let id = ctf_id_of(store, name);
    delete_challenges(store, Pick::In(id));
    delete_ctfs(store, name);
}

/// Removes the challenges named `chall_name` from the workspace `ctf_name`.
pub fn remove_challenge(store: &mut Store, ctf_name: &String, chall_name: &String)
    ensures
        final(store)@ == old(store)@.without_challenge(ctf_name@, chall_name@),
{
    let id = ctf_id_of(store, ctf_name);
    delete_challenges(store, Pick::InNamed(id, chall_name));
}

/// Makes `flag` the flag of the challenge `chall_name` of the workspace
/// `ctf_name`. An empty flag marks the challenge as not solved.
pub fn set_chall_flag(store: &mut Store, ctf_name: &String, chall_name: &String, flag: &String)
    ensures
        final(store)@ == old(store)@.with_flag(ctf_name@, chall_name@, flag@),
{
    let id = ctf_id_of(store, ctf_name);
    update_challenges(store, Pick::InNamed(id, chall_name), Change::Flag(flag));
}

/// Puts the archive mark `flag` on the workspace `name` and on its
/// challenges.
pub fn archive_ctf(store: &mut Store, name: &String, flag: bool)
    ensures
        final(store)@ == old(store)@.with_mark(name@, flag),
{
    let id = ctf_id_of(store, name);
    update_ctfs(store, name, CtfChange::Mark(flag));
    update_challenges(store, Pick::In(id), Change::Mark(flag));
}

/// Why a challenge could not be moved.
#[derive(Clone, Copy, Debug, PartialEq, Eq, Structural)]
pub enum MoveError {
    /// The workspace to move to does not exist, or is archived.
    CtfDoesNotExist,
}

/// Moves the challenge `chall_name` from the workspace `old_ctf_name` to the
/// workspace `new_ctf_name`, which has to exist and must not be archived.
pub fn move_challenge(
    store: &mut Store,
    chall_name: &String,
    old_ctf_name: &String,
    new_ctf_name: &String,
) -> (r: Result<(), MoveError>)
    ensures
        match old(store)@.ctf_exists(new_ctf_name@) {
            Ok(to) => r is Ok && final(store)@ == old(store)@.with_owner(
                chall_name@,
                old_ctf_name@,
                to,
            ),
            Err(_) => r == Err::<(), MoveError>(MoveError::CtfDoesNotExist) && final(store)@ == old(
                store,
            )@,
        },
{
    match ctf_exists(store, new_ctf_name) {
        Err(_) => Err(MoveError::CtfDoesNotExist),
        Ok(to) => {
            let from = ctf_id_of(store, old_ctf_name);
            update_challenges(store, Pick::InNamed(from, chall_name), Change::Owner(to));
            Ok(())
        },
    }
}

/// Why a row could not be added.
#[derive(Clone, Copy, Debug, PartialEq, Eq, Structural)]
pub enum InsertError {
    /// The greatest id is taken.
    OutOfIds,
}

/// The greatest id of a workspace row, and whether there is a row at all.
fn max_ctf_id(store: &Store) -> (m: i32)
    ensures
        m == max_key(store@.ctfs, ctf_key()),
{
    let n = store.ctfs.len();
    let mut m: i32 = i32::MIN;
    let mut i: usize = 0;
    proof {
        if n > 0 {
            lemma_max_key_next(store@.ctfs, ctf_key(), 0);
        } else {
            assert(store@.ctfs.take(0) =~= store@.ctfs);
        }
    }
    while i < n
        invariant
            n == store.ctfs.len(),
            i <= n,
            m == max_key(store@.ctfs.take(i as int), ctf_key()),
        decreases n - i,
    {
        proof {
            lemma_max_key_next(store@.ctfs, ctf_key(), i as int);
        }
        if store.ctfs[i].id > m {
            m = store.ctfs[i].id;
        }
        i = i + 1;
    }
    proof {
        assert(store@.ctfs.take(n as int) =~= store@.ctfs);
    }
    m
}

/// The greatest id of a challenge row.
fn max_chall_id(store: &Store) -> (m: i32)
    ensures
        m == max_key(store@.challenges, chall_key()),
{
    let n = store.challenges.len();
    let mut m: i32 = i32::MIN;
    let mut i: usize = 0;
    proof {
        if n > 0 {
            lemma_max_key_next(store@.challenges, chall_key(), 0);
        } else {
            assert(store@.challenges.take(0) =~= store@.challenges);
        }
    }
    while i < n
        invariant
            n == store.challenges.len(),
            i <= n,
            m == max_key(store@.challenges.take(i as int), chall_key()),
        decreases n - i,
    {
        proof {
            lemma_max_key_next(store@.challenges, chall_key(), i as int);
        }
        if store.challenges[i].id > m {
            m = store.challenges[i].id;
        }
        i = i + 1;
    }
    proof {
        assert(store@.challenges.take(n as int) =~= store@.challenges);
    }
    m
}

impl Store {
    /// Two empty tables.
    pub fn new() -> (s: Self)
        ensures
            s@.ctfs.len() == 0,
            s@.challenges.len() == 0,
    {
        Store { ctfs: Vec::new(), challenges: Vec::new() }
    }

    /// Adds a row for the workspace `c`, not archived, under the next id.
    /// Nothing is added where that id would not fit.
    pub fn insert_ctf(&mut self, c: &Ctf) -> (r: Result<i32, InsertError>)
        ensures
            match r {
                Ok(id) => id == old(self)@.next_ctf_id() && final(self)@ == old(self)@.with_new_ctf(
                    c@,
                ),
                Err(_) => old(self)@.next_ctf_id() > i32::MAX && final(self)@ == old(self)@,
            },
    {
        let id: i32 = if self.ctfs.len() == 0 {
            1
        } else {
            let m = max_ctf_id(self);
            if m == i32::MAX {
                return Err(InsertError::OutOfIds);
            }
            m + 1
        };
        let ghost before = self.ctfs.deep_view();
        let row = CtfRow {
            id,
            path: c.file_path.clone(),
            name: c.metadata.name.clone(),
            url: c.metadata.url.clone(),
            creds: (c.metadata.creds.0.clone(), c.metadata.creds.1.clone()),
            start: c.metadata.start.clone(),
            end: c.metadata.end.clone(),
            archived: false,
        };
        self.ctfs.push(row);
        assert(self.ctfs.deep_view() =~= before.push(row@));
        Ok(id)
    }

    /// Adds a row that puts the challenge `c` in the workspace with the id
    /// `ctf_id`, not archived, under the next id. Nothing is added where that
    /// id would not fit.
    pub fn insert_challenge(&mut self, ctf_id: i32, c: &Challenge) -> (r: Result<i32, InsertError>)
        ensures
            match r {
                Ok(id) => id == old(self)@.next_chall_id() && final(self)@ == old(
                    self,
                )@.with_new_challenge(ctf_id, c@),
                Err(_) => old(self)@.next_chall_id() > i32::MAX && final(self)@ == old(self)@,
            },
    {
        let id: i32 = if self.challenges.len() == 0 {
            1
        } else {
            let m = max_chall_id(self);
            if m == i32::MAX {
                return Err(InsertError::OutOfIds);
            }
            m + 1
        };
        let ghost before = self.challenges.deep_view();
        let row = ChallengeRow {
            id,
            ctf_id,
            name: c.name.clone(),
            category: c.category.to_string(),
            flag: c.flag.clone(),
            archived: false,
        };
        self.challenges.push(row);
        assert(self.challenges.deep_view() =~= before.push(row@));
        Ok(id)
    }

    /// Writes the details of `c` to the workspaces named as `c` is.
    pub fn update_ctf(&mut self, c: &Ctf)
        ensures
            final(self)@ == old(self)@.with_details(c@),
    {
        update_ctfs(self, &c.metadata.name, CtfChange::Details(c));
    }

    /// Renames the workspaces named `old_name` to `name` and places them at
    /// `path`.
    pub fn rename_ctf(&mut self, old_name: &String, name: &String, path: &String)
        ensures
            final(self)@ == old(self)@.with_ctf_renamed(old_name@, name@, path@),
    {
        update_ctfs(self, old_name, CtfChange::Name(name, path));
    }

    /// Renames the challenges named `old_name` of the workspace `ctf_name`,
    /// where that workspace is not archived, to `name` and puts them in the
    /// category `category`.
    pub fn rename_challenge(
        &mut self,
        ctf_name: &String,
        old_name: &String,
        name: &String,
        category: &String,
    )
        ensures
            final(self)@ == old(self)@.with_challenge_renamed(
                ctf_name@,
                old_name@,
                name@,
                category@,
            ),
    {
        let id = open_ctf_id_of(self, ctf_name);
        update_challenges(self, Pick::InNamed(id, old_name), Change::Name(name, category));
    }

    /// Removes the challenges named `chall_name` from the workspace
    /// `ctf_name`, where that workspace is not archived.
    pub fn remove_challenge_in(&mut self, ctf_name: &String, chall_name: &String)
        ensures
            final(self)@ == old(self)@.without_challenge_in(ctf_name@, chall_name@),
    {
        let id = open_ctf_id_of(self, ctf_name);
        delete_challenges(self, Pick::InNamed(id, chall_name));
    }

    /// Makes `flag` the flag of the challenges named `name` of the workspace
    /// with the id `ctf_id`.
    pub fn update_flag(&mut self, ctf_id: i32, name: &String, flag: &String)
        ensures
            final(self)@ == old(self)@.with_flag_by_id(ctf_id, name@, flag@),
    {
        update_challenges(self, Pick::InNamed(Some(ctf_id), name), Change::Flag(flag));
    }
}

impl Clone for Store {
    fn clone(&self) -> (s: Self)
        ensures
            s@ == self@,
    {
        let mut s = Store::new();
        let mut i: usize = 0;
        assert(s.ctfs.deep_view() =~= self@.ctfs.take(0));
        while i < self.ctfs.len()
            invariant
                i <= self.ctfs.len(),
                s.ctfs.deep_view() == self@.ctfs.take(i as int),
                s.challenges@.len() == 0,
            decreases self.ctfs.len() - i,
        {
            let ghost before = s.ctfs.deep_view();
            let row = self.ctfs[i].clone();
            s.ctfs.push(row);
            assert(s.ctfs.deep_view() =~= before.push(row@));
            assert(self@.ctfs.take(i + 1) =~= self@.ctfs.take(i as int).push(row@));
            i = i + 1;
        }
        let mut k: usize = 0;
        assert(s.challenges.deep_view() =~= self@.challenges.take(0));
        while k < self.challenges.len()
            invariant
                k <= self.challenges.len(),
                s.ctfs.deep_view() == self@.ctfs.take(self.ctfs.len() as int),
                s.challenges.deep_view() == self@.challenges.take(k as int),
            decreases self.challenges.len() - k,
        {
            let ghost before = s.challenges.deep_view();
            let row = self.challenges[k].clone();
            s.challenges.push(row);
            assert(s.challenges.deep_view() =~= before.push(row@));
            assert(self@.challenges.take(k + 1) =~= self@.challenges.take(k as int).push(row@));
            k = k + 1;
        }
        proof {
            assert(self@.ctfs.take(self.ctfs.len() as int) =~= self@.ctfs);
            assert(self@.challenges.take(self.challenges.len() as int) =~= self@.challenges);
        }
        s
    }
}

} // verus!
