use tobi::commands::{solve, switch_and_record, unsolve, SolveError};
use tobi::context::ContextFile;
use tobi::db::{ChallengeRow, CtfRow, Store};
use tobi::effects::Effect;
use tobi::undo::{undo, ActionKind, UndoAction, UndoError, UndoLog};

fn ctf_row(id: i32, name: &str, archived: bool) -> CtfRow {
    CtfRow {
        id,
        path: format!("/work/{}", name),
        name: name.to_string(),
        url: String::new(),
        creds: (String::new(), String::new()),
        start: "2024-01-01T00:00:00+00:00".to_string(),
        end: "2024-01-01T00:00:00+00:00".to_string(),
        archived,
    }
}

fn chall_row(id: i32, ctf_id: i32, name: &str, category: &str, flag: &str) -> ChallengeRow {
    ChallengeRow {
        id,
        ctf_id,
        name: name.to_string(),
        category: category.to_string(),
        flag: flag.to_string(),
        archived: false,
    }
}

fn sample() -> Store {
    Store {
        ctfs: vec![ctf_row(1, "acme", false), ctf_row(2, "beta", false)],
        challenges: vec![
            chall_row(1, 1, "baby-rop", "pwn", ""),
            chall_row(2, 1, "login", "web", "FLAG{sql}"),
            chall_row(3, 2, "baby-rop", "pwn", "FLAG{beta}"),
        ],
    }
}

fn file(text: &str) -> ContextFile {
    ContextFile { text: Some(text.to_string()) }
}

fn s(text: &str) -> String {
    text.to_string()
}

fn flags(store: &Store) -> Vec<String> {
    store.challenges.iter().map(|h| h.flag.clone()).collect()
}

fn shown(effects: &[Effect]) -> Vec<String> {
    effects.iter().map(|e| format!("{:?}", e)).collect()
}

fn held(log: &UndoLog) -> (String, Vec<String>) {
    match log {
        UndoLog::Holds(a) => (a.action.clone(), a.args.clone()),
        other => panic!("{:?}", other),
    }
}

#[test]
fn records_carry_tag_and_arguments() {
    let a = UndoAction::new(s("anything"), vec![s("x"), s("y")]);
    assert_eq!((a.action.as_str(), a.args), ("anything", vec![s("x"), s("y")]));
    let a = UndoAction::new_dir_change(s("/home/me"));
    assert_eq!((a.action.as_str(), a.args), ("cd", vec![s("/home/me")]));
    let a = UndoAction::new_ctf_create(&s("acme"));
    assert_eq!((a.action.as_str(), a.args), ("ctf_new", vec![s("acme")]));
    let a = UndoAction::new_chall_create(&s("acme"), &s("heap"));
    assert_eq!((a.action.as_str(), a.args), ("chall_new", vec![s("acme"), s("heap")]));
    let a = UndoAction::new_chall_solve(&s("acme"), &s("heap"));
    assert_eq!((a.action.as_str(), a.args), ("chall_solve", vec![s("acme"), s("heap")]));
    let a = UndoAction::new_chall_unsolve(&s("acme"), &s("heap"), &s("FLAG{h}"));
    assert_eq!(
        (a.action.as_str(), a.args),
        ("chall_unsolve", vec![s("acme"), s("heap"), s("FLAG{h}")])
    );
    let a = UndoAction::new_context_switch(&s("acme"), Some(&s("heap")), &s("beta"), &s("x"));
    assert_eq!(
        (a.action.as_str(), a.args),
        ("context_switch", vec![s("acme"), s("heap"), s("beta"), s("x")])
    );
    let a = UndoAction::new_context_switch(&s("acme"), None, &s(""), &s(""));
    assert_eq!(
        (a.action.as_str(), a.args),
        ("context_switch", vec![s("acme"), s(""), s(""), s("")])
    );
    let a = UndoAction::new_chall_edit(&s("acme"), &s("heap"), &s("pwn"));
    assert_eq!((a.action.as_str(), a.args), ("chall_edit", vec![s("acme"), s("heap"), s("pwn")]));
    let a = UndoAction::new_ctf_edit(&s("acme"), &s("apex"));
    assert_eq!((a.action.as_str(), a.args), ("ctf_edit", vec![s("acme"), s("apex")]));
}

#[test]
fn tags_and_kinds_correspond() {
    let all = [
        (ActionKind::DirChange, "cd", 1),
        (ActionKind::WorkspaceCreate, "ctf_new", 1),
        (ActionKind::WorkspaceRename, "ctf_edit", 2),
        (ActionKind::ChallengeCreate, "chall_new", 2),
        (ActionKind::ChallengeSolve, "chall_solve", 2),
        (ActionKind::ChallengeUnsolve, "chall_unsolve", 3),
        (ActionKind::ChallengeEdit, "chall_edit", 3),
        (ActionKind::ContextSwitch, "context_switch", 4),
    ];
    for (kind, tag, count) in all {
        assert_eq!(kind.as_tag(), tag);
        assert_eq!(ActionKind::from_tag(tag), Some(kind));
        assert_eq!(kind.arg_count(), count);
    }
    assert_eq!(ActionKind::from_tag(""), None);
    assert_eq!(ActionKind::from_tag("CD"), None);
    assert_eq!(ActionKind::from_tag("chall_solved"), None);
}

#[test]
fn a_new_record_replaces_the_old_one() {
    let mut log = UndoLog::Empty;
    UndoAction::new_ctf_create(&s("acme")).log_action(&mut log);
    assert_eq!(held(&log), (s("ctf_new"), vec![s("acme")]));
    UndoAction::new_chall_solve(&s("acme"), &s("heap")).log_action(&mut log);
    assert_eq!(held(&log), (s("chall_solve"), vec![s("acme"), s("heap")]));
    let mut log = UndoLog::Unreadable;
    UndoAction::new_dir_change(s("/")).log_action(&mut log);
    assert_eq!(held(&log), (s("cd"), vec![s("/")]));
}

#[test]
fn nothing_to_undo_in_an_empty_log() {
    let mut log = UndoLog::Empty;
    let mut store = sample();
    let mut f = file("acme:login");
    let r = undo(&mut log, &mut store, &mut f, &s("/work"));
    assert!(matches!(r, Err(UndoError::NothingToUndo)));
    assert!(matches!(log, UndoLog::Empty));
    assert_eq!(flags(&store), vec![s(""), s("FLAG{sql}"), s("FLAG{beta}")]);
    assert_eq!(f.text, Some(s("acme:login")));
}

#[test]
fn an_unreadable_log_is_corrupted_and_emptied() {
    let mut log = UndoLog::Unreadable;
    let mut store = sample();
    let mut f = file("acme:login");
    let r = undo(&mut log, &mut store, &mut f, &s("/work"));
    assert!(matches!(r, Err(UndoError::UndoLogCorrupted)));
    assert!(matches!(log, UndoLog::Empty));
    assert_eq!(store.challenges.len(), 3);
    assert_eq!(f.text, Some(s("acme:login")));
    let r = undo(&mut log, &mut store, &mut f, &s("/work"));
    assert!(matches!(r, Err(UndoError::NothingToUndo)));
}

#[test]
fn an_unknown_tag_is_corrupted() {
    let mut log = UndoLog::Holds(UndoAction::new(s("frobnicate"), vec![s("acme")]));
    let mut store = sample();
    let mut f = file("acme:login");
    let r = undo(&mut log, &mut store, &mut f, &s("/work"));
    assert!(matches!(r, Err(UndoError::UndoLogCorrupted)));
    assert!(matches!(log, UndoLog::Empty));
    assert_eq!(store.ctfs.len(), 2);
}

#[test]
fn too_few_arguments_are_corrupted() {
    let cases = [
        ("cd", 0),
        ("ctf_new", 0),
        ("ctf_edit", 1),
        ("chall_new", 1),
        ("chall_solve", 1),
        ("chall_unsolve", 2),
        ("chall_edit", 2),
        ("context_switch", 3),
    ];
    for (tag, count) in cases {
        let args: Vec<String> =
            ["acme", "login", "x", "y"].iter().take(count).map(|a| s(a)).collect();
        let mut log = UndoLog::Holds(UndoAction::new(s(tag), args));
        let mut store = sample();
        let mut f = file("acme:login");
        let r = undo(&mut log, &mut store, &mut f, &s("/work"));
        assert!(matches!(r, Err(UndoError::UndoLogCorrupted)), "{}", tag);
        assert!(matches!(log, UndoLog::Empty));
        assert_eq!(store.ctfs.len(), 2);
        assert_eq!(store.challenges.len(), 3);
        assert_eq!(f.text, Some(s("acme:login")));
    }
}

#[test]
fn undo_single_shot() {
    let mut store = sample();
    let mut f = file("acme:login");
    let mut log = UndoLog::Empty;
    UndoAction::new_chall_solve(&s("acme"), &s("login")).log_action(&mut log);
    let first = undo(&mut log, &mut store, &mut f, &s("/work")).unwrap();
    assert_eq!(first.kind, ActionKind::ChallengeSolve);
    assert_eq!(first.args, vec![s("acme"), s("login")]);
    assert!(first.effects.is_empty());
    assert_eq!(first.context_error, None);
    assert_eq!(flags(&store), vec![s(""), s(""), s("FLAG{beta}")]);
    assert!(matches!(log, UndoLog::Empty));
    let second = undo(&mut log, &mut store, &mut f, &s("/work"));
    assert!(matches!(second, Err(UndoError::NothingToUndo)));
    assert_eq!(flags(&store), vec![s(""), s(""), s("FLAG{beta}")]);
    assert_eq!(f.text, Some(s("acme:login")));
}

#[test]
fn solve_unsolve_round_trip() {
    let mut store = sample();
    let mut f = file("acme:baby-rop");
    let mut log = UndoLog::Empty;
    let (w, c) = solve(&mut store, &mut f, &mut log, s("FLAG{x}")).unwrap();
    assert_eq!(w, "acme");
    assert_eq!(c.name, "baby-rop");
    assert_eq!(c.flag, "FLAG{x}");
    assert_eq!(flags(&store), vec![s("FLAG{x}"), s("FLAG{sql}"), s("FLAG{beta}")]);
    assert_eq!(held(&log), (s("chall_solve"), vec![s("acme"), s("baby-rop")]));
    let undone = undo(&mut log, &mut store, &mut f, &s("/work")).unwrap();
    assert_eq!(undone.kind, ActionKind::ChallengeSolve);
    assert_eq!(flags(&store), vec![s(""), s("FLAG{sql}"), s("FLAG{beta}")]);
    let again = undo(&mut log, &mut store, &mut f, &s("/work"));
    assert_eq!(again.err(), Some(UndoError::NothingToUndo));
    assert_eq!(flags(&store), vec![s(""), s("FLAG{sql}"), s("FLAG{beta}")]);
}

#[test]
fn unsolve_then_undo_gives_the_flag_back() {
    let mut store = sample();
    let mut f = file("acme:login");
    let mut log = UndoLog::Empty;
    let (w, c) = unsolve(&mut store, &mut f, &mut log).unwrap();
    assert_eq!((w.as_str(), c.name.as_str(), c.flag.as_str()), ("acme", "login", ""));
    assert_eq!(flags(&store), vec![s(""), s(""), s("FLAG{beta}")]);
    assert_eq!(held(&log), (s("chall_unsolve"), vec![s("acme"), s("login"), s("FLAG{sql}")]));
    let undone = undo(&mut log, &mut store, &mut f, &s("/work")).unwrap();
    assert_eq!(undone.kind, ActionKind::ChallengeUnsolve);
    assert_eq!(flags(&store), vec![s(""), s("FLAG{sql}"), s("FLAG{beta}")]);
    assert_eq!(undo(&mut log, &mut store, &mut f, &s("/work")).err(), Some(UndoError::NothingToUndo));
}

#[test]
fn solving_needs_an_active_challenge() {
    let mut log = UndoLog::Empty;
    let mut store = sample();
    let r = solve(&mut store, &mut file("acme:"), &mut log, s("F"));
    assert_eq!(r.err(), Some(SolveError::NoChallenge));
    let r = solve(&mut store, &mut file(":"), &mut log, s("F"));
    assert_eq!(r.err(), Some(SolveError::NoWorkspace));
    let r = unsolve(&mut store, &mut file(":login"), &mut log);
    assert!(matches!(r, Err(SolveError::Context(_))));
    let mut none = ContextFile { text: None };
    let r = solve(&mut store, &mut none, &mut log, s("F"));
    assert!(matches!(r, Err(SolveError::Context(_))));
    let mut bad = file("gone:login");
    let r = unsolve(&mut store, &mut bad, &mut log);
    assert!(matches!(r, Err(SolveError::Context(_))));
    assert_eq!(bad.text, Some(s(":")));
    assert!(matches!(log, UndoLog::Empty));
    assert_eq!(flags(&store), vec![s(""), s("FLAG{sql}"), s("FLAG{beta}")]);
}

#[test]
fn undoing_a_directory_change_sends_the_shell_back() {
    let mut log = UndoLog::Empty;
    UndoAction::new_dir_change(s("/home/me")).log_action(&mut log);
    let mut store = sample();
    let mut f = file("acme:");
    let undone = undo(&mut log, &mut store, &mut f, &s("/work")).unwrap();
    assert_eq!(undone.kind, ActionKind::DirChange);
    assert_eq!(shown(&undone.effects), vec![s("ChangeDirPlain(\"/home/me\")")]);
    assert_eq!(f.text, Some(s("acme:")));
    assert!(matches!(log, UndoLog::Empty));
}

#[test]
fn undoing_a_creation_removes_the_workspace() {
    let mut log = UndoLog::Empty;
    UndoAction::new_ctf_create(&s("acme")).log_action(&mut log);
    let mut store = sample();
    let mut f = file("acme:login");
    let undone = undo(&mut log, &mut store, &mut f, &s("/work")).unwrap();
    assert_eq!(undone.kind, ActionKind::WorkspaceCreate);
    assert_eq!(shown(&undone.effects), vec![s("RemoveDirAll(\"/work/acme\")")]);
    assert_eq!(store.ctfs.len(), 1);
    assert_eq!(store.ctfs[0].name, "beta");
    assert_eq!(flags(&store), vec![s("FLAG{beta}")]);
    assert_eq!(f.text, Some(s(":")));
}

#[test]
fn undoing_a_challenge_creation_removes_the_challenge() {
    let mut log = UndoLog::Empty;
    UndoAction::new_chall_create(&s("acme"), &s("login")).log_action(&mut log);
    let mut store = sample();
    let mut f = file("acme:login");
    let undone = undo(&mut log, &mut store, &mut f, &s("/work")).unwrap();
    assert_eq!(undone.kind, ActionKind::ChallengeCreate);
    assert_eq!(shown(&undone.effects), vec![s("RemoveDirAll(\"/work/acme/web/login\")")]);
    assert_eq!(flags(&store), vec![s(""), s("FLAG{beta}")]);
    assert_eq!(f.text, Some(s("acme:")));
}

#[test]
fn undoing_the_creation_of_a_challenge_that_is_gone_fails_and_empties_the_log() {
    let mut log = UndoLog::Empty;
    UndoAction::new_chall_create(&s("acme"), &s("gone")).log_action(&mut log);
    let mut store = sample();
    let mut f = file("acme:login");
    let r = undo(&mut log, &mut store, &mut f, &s("/work"));
    assert_eq!(r.err(), Some(UndoError::ReplayFailed));
    assert!(matches!(log, UndoLog::Empty));
    assert_eq!(store.challenges.len(), 3);
    assert_eq!(f.text, Some(s("acme:login")));
    let r = undo(&mut log, &mut store, &mut f, &s("/work"));
    assert_eq!(r.err(), Some(UndoError::NothingToUndo));
}

#[test]
fn undoing_a_switch_restores_the_context_before_it() {
    let mut store = sample();
    let mut f = file("acme:login");
    let mut log = UndoLog::Empty;
    switch_and_record(&mut f, &mut log, &store, &s("beta"), Some(&s("baby-rop"))).unwrap();
    assert_eq!(f.text, Some(s("beta:baby-rop")));
    assert_eq!(
        held(&log),
        (s("context_switch"), vec![s("beta"), s("baby-rop"), s("acme"), s("login")])
    );
    let undone = undo(&mut log, &mut store, &mut f, &s("/work")).unwrap();
    assert_eq!(undone.kind, ActionKind::ContextSwitch);
    assert!(undone.effects.is_empty());
    assert_eq!(undone.context_error, None);
    assert_eq!(f.text, Some(s("acme:login")));
    assert!(matches!(log, UndoLog::Empty));
}

#[test]
fn undoing_a_switch_from_a_workspace_alone_or_from_nothing() {
    let mut store = sample();
    let mut log = UndoLog::Empty;
    let mut f = file("acme:\n");
    switch_and_record(&mut f, &mut log, &store, &s("beta"), None).unwrap();
    assert_eq!(held(&log), (s("context_switch"), vec![s("beta"), s(""), s("acme"), s("")]));
    undo(&mut log, &mut store, &mut f, &s("/work")).unwrap();
    assert_eq!(f.text, Some(s("acme:")));
    let mut f = ContextFile { text: None };
    switch_and_record(&mut f, &mut log, &store, &s("beta"), None).unwrap();
    assert_eq!(held(&log), (s("context_switch"), vec![s("beta"), s(""), s(""), s("")]));
    undo(&mut log, &mut store, &mut f, &s("/work")).unwrap();
    assert_eq!(f.text, Some(s(":")));
}

#[test]
fn undoing_a_renaming_gives_the_old_name_back() {
    let mut store = sample();
    store.ctfs[0].name = s("apex");
    store.ctfs[0].path = s("/work/apex");
    let mut f = file("apex:");
    let mut log = UndoLog::Empty;
    UndoAction::new_ctf_edit(&s("acme"), &s("apex")).log_action(&mut log);
    let undone = undo(&mut log, &mut store, &mut f, &s("/work")).unwrap();
    assert_eq!(undone.kind, ActionKind::WorkspaceRename);
    assert_eq!(
        shown(&undone.effects),
        vec![s("Rename(\"/work/apex\", \"/work/acme\")"), s("ChangeDir(\"/work/acme\")")]
    );
    assert_eq!(undone.context_error, None);
    assert_eq!(store.ctfs[0].name, "acme");
    assert_eq!(store.ctfs[0].path, "/work/acme");
    assert_eq!(f.text, Some(s("acme:")));
}

#[test]
fn undoing_the_renaming_of_a_workspace_that_is_gone_fails() {
    let mut store = sample();
    let mut f = file("acme:");
    let mut log = UndoLog::Empty;
    UndoAction::new_ctf_edit(&s("acme"), &s("apex")).log_action(&mut log);
    let r = undo(&mut log, &mut store, &mut f, &s("/work"));
    assert_eq!(r.err(), Some(UndoError::ReplayFailed));
    assert!(matches!(log, UndoLog::Empty));
    assert_eq!(store.ctfs[0].name, "acme");
    assert_eq!(f.text, Some(s("acme:")));
}

#[test]
fn undoing_an_edit_gives_name_and_category_back() {
    let mut store = sample();
    store.challenges[1].name = s("signin");
    store.challenges[1].category = s("crypto");
    let mut f = file("acme:signin");
    let mut log = UndoLog::Empty;
    UndoAction::new_chall_edit(&s("acme"), &s("login"), &s("web")).log_action(&mut log);
    let undone = undo(&mut log, &mut store, &mut f, &s("/work")).unwrap();
    assert_eq!(undone.kind, ActionKind::ChallengeEdit);
    assert_eq!(
        shown(&undone.effects),
        vec![
            s("EnsureDir(\"/work/acme/web\")"),
            s("Rename(\"/work/acme/crypto/signin\", \"/work/acme/web/login\")"),
            s("ChangeDirPlain(\"/work/acme/web/login\")"),
        ]
    );
    assert_eq!(undone.context_error, None);
    assert_eq!(store.challenges[1].name, "login");
    assert_eq!(store.challenges[1].category, "web");
    assert_eq!(store.challenges[1].flag, "FLAG{sql}");
    assert_eq!(f.text, Some(s("acme:login")));
}

#[test]
fn undoing_an_edit_in_a_workspace_that_does_not_hold_the_challenge_fails() {
    let mut store = sample();
    store.challenges[1].name = s("signin");
    let mut f = file("acme:signin");
    let mut log = UndoLog::Empty;
    UndoAction::new_chall_edit(&s("gone"), &s("login"), &s("web")).log_action(&mut log);
    let r = undo(&mut log, &mut store, &mut f, &s("/work"));
    assert_eq!(r.err(), Some(UndoError::ReplayFailed));
    assert_eq!(store.challenges[1].name, "signin");
    assert_eq!(f.text, Some(s("acme:signin")));
    assert!(matches!(log, UndoLog::Empty));
}

#[test]
fn undoing_an_edit_leaves_other_workspaces_alone() {
    let mut store = sample();
    store.challenges[0].name = s("renamed");
    store.challenges[2].name = s("renamed");
    let mut f = file("acme:renamed");
    let mut log = UndoLog::Empty;
    UndoAction::new_chall_edit(&s("acme"), &s("baby-rop"), &s("pwn")).log_action(&mut log);
    let undone = undo(&mut log, &mut store, &mut f, &s("/work")).unwrap();
    assert_eq!(undone.context_error, None);
    assert_eq!(store.challenges[0].name, "baby-rop");
    assert_eq!(store.challenges[2].name, "renamed");
    assert_eq!(store.challenges[2].flag, "FLAG{beta}");
    assert_eq!(f.text, Some(s("acme:baby-rop")));
}

#[test]
fn undoing_an_edit_without_active_challenge_fails() {
    let mut store = sample();
    let mut f = file("acme:");
    let mut log = UndoLog::Empty;
    UndoAction::new_chall_edit(&s("acme"), &s("login"), &s("web")).log_action(&mut log);
    let r = undo(&mut log, &mut store, &mut f, &s("/work"));
    assert_eq!(r.err(), Some(UndoError::ReplayFailed));
    assert!(matches!(log, UndoLog::Empty));
    let mut gone = file("acme:nope");
    UndoAction::new_chall_edit(&s("acme"), &s("login"), &s("web")).log_action(&mut log);
    let r = undo(&mut log, &mut store, &mut gone, &s("/work"));
    assert_eq!(r.err(), Some(UndoError::ReplayFailed));
    assert_eq!(gone.text, Some(s(":")));
    assert_eq!(store.challenges[1].name, "login");
}

#[test]
fn solving_needs_a_challenge_that_the_active_workspace_holds() {
    let mut store = sample();
    let mut f = file("beta:login");
    let mut log = UndoLog::Empty;
    let r = solve(&mut store, &mut f, &mut log, s("FLAG{y}"));
    assert!(matches!(r, Err(SolveError::Context(_))));
    assert_eq!(store.challenges.len(), 3);
    assert_eq!(flags(&store), vec![s(""), s("FLAG{sql}"), s("FLAG{beta}")]);
    assert_eq!(f.text, Some(s(":")));
    assert!(matches!(log, UndoLog::Empty));
}

#[test]
fn solving_touches_the_challenge_of_the_active_workspace_only() {
    let mut store = sample();
    let mut f = file("beta:baby-rop");
    let mut log = UndoLog::Empty;
    let (w, c) = solve(&mut store, &mut f, &mut log, s("FLAG{new}")).unwrap();
    assert_eq!((w.as_str(), c.name.as_str(), c.flag.as_str()), ("beta", "baby-rop", "FLAG{new}"));
    assert_eq!(flags(&store), vec![s(""), s("FLAG{sql}"), s("FLAG{new}")]);
    let (_, c) = unsolve(&mut store, &mut f, &mut log).unwrap();
    assert_eq!(c.flag, "");
    assert_eq!(held(&log), (s("chall_unsolve"), vec![s("beta"), s("baby-rop"), s("FLAG{new}")]));
    assert_eq!(flags(&store), vec![s(""), s("FLAG{sql}"), s("")]);
}

#[test]
fn solving_fails_where_the_challenge_cannot_be_saved() {
    let mut store = sample();
    store.ctfs.insert(0, ctf_row(7, "acme", true));
    let mut log = UndoLog::Empty;
    let r = unsolve(&mut store, &mut file("acme:login"), &mut log);
    assert_eq!(
        r.err(),
        Some(SolveError::Save(tobi::ctf::challenge::SaveError::Ctf(tobi::db::CtfError::Archived)))
    );
    assert_eq!(store.challenges[1].flag, "FLAG{sql}");
    assert!(matches!(log, UndoLog::Empty));
}
