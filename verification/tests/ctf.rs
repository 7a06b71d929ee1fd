use tobi::context::ContextFile;
use tobi::ctf::challenge::{remove_chall, Challenge, ChallengeType, EditError, SaveError};
use tobi::ctf::{
    archive_path, new_challenge, quick_new, Creation, Ctf, NewChallengeError, NewCtfError, Saved,
};
use tobi::db::{ChallengeError, ChallengeRow, CtfError, CtfRow, Store};
use tobi::effects::{change_dir_line, plain_change_dir_line, Effect};

fn ctf_row(id: i32, name: &str, archived: bool) -> CtfRow {
    CtfRow {
        id,
        path: format!("/work/{}", name),
        name: name.to_string(),
        url: "old-url".to_string(),
        creds: ("u".to_string(), "p".to_string()),
        start: "2024-01-01T00:00:00+00:00".to_string(),
        end: "2024-01-01T00:00:00+00:00".to_string(),
        archived,
    }
}

fn chall_row(id: i32, ctf_id: i32, name: &str, category: &str, flag: &str) -> ChallengeRow {
    ChallengeRow {
        id,
        ctf_id,
        name: name.to_string(),
        category: category.to_string(),
        flag: flag.to_string(),
        archived: false,
    }
}

fn sample() -> Store {
    Store {
        ctfs: vec![ctf_row(1, "acme", false), ctf_row(2, "old", true)],
        challenges: vec![
            chall_row(1, 1, "baby_rop", "pwn", ""),
            chall_row(2, 1, "login", "web", "FLAG{sql}"),
            chall_row(3, 2, "rsa", "crypto", ""),
        ],
    }
}

fn s(text: &str) -> String {
    text.to_string()
}

fn file(text: &str) -> ContextFile {
    ContextFile { text: Some(text.to_string()) }
}

fn shown(effects: &[Effect]) -> Vec<String> {
    effects.iter().map(|e| format!("{:?}", e)).collect()
}

fn ctf(name: &str) -> Ctf {
    Ctf::new(
        format!("/work/{}", name),
        s(name),
        s("https://x"),
        (s("me"), s("secret")),
        s("2025-05-05T10:00:00+00:00"),
        s("2025-05-06T10:00:00+00:00"),
    )
}

#[test]
fn a_new_workspace_has_no_challenges() {
    let c = ctf("acme");
    assert_eq!(c.file_path, "/work/acme");
    assert_eq!(c.metadata.name, "acme");
    assert_eq!(c.metadata.url, "https://x");
    assert_eq!(c.metadata.creds, (s("me"), s("secret")));
    assert_eq!(c.metadata.start, "2025-05-05T10:00:00+00:00");
    assert_eq!(c.metadata.end, "2025-05-06T10:00:00+00:00");
    assert!(c.challenges.is_empty());
}

#[test]
fn challenges_are_added_at_the_end() {
    let mut c = ctf("acme");
    c.add_challenge(Challenge::new(s("a"), s("web"), s("")));
    c.add_challenge(Challenge::new(s("b"), s("pwn"), s("f")));
    assert_eq!(c.challenges.len(), 2);
    assert_eq!(c.challenges[0].name, "a");
    assert_eq!(c.challenges[1].name, "b");
    assert_eq!(c.challenges[1].category, ChallengeType::Pwn);
    let d = c.clone();
    assert_eq!(d.metadata.name, "acme");
    assert_eq!(d.challenges.len(), 2);
    assert_eq!(d.challenges[1].flag, "f");
}

#[test]
fn saving_a_workspace_updates_inserts_or_leaves_alone() {
    let mut store = sample();
    assert_eq!(ctf("acme").save_to_db(&mut store), Ok(Saved::Updated));
    assert_eq!(store.ctfs.len(), 2);
    assert_eq!(store.ctfs[0].url, "https://x");
    assert_eq!(store.ctfs[0].creds, (s("me"), s("secret")));
    assert_eq!(store.ctfs[0].start, "2025-05-05T10:00:00+00:00");
    assert_eq!(store.ctfs[0].end, "2025-05-06T10:00:00+00:00");
    assert_eq!(store.ctfs[0].path, "/work/acme");
    assert_eq!(store.ctfs[1].url, "old-url");
    assert_eq!(ctf("old").save_to_db(&mut store), Ok(Saved::Archived));
    assert_eq!(store.ctfs[1].url, "old-url");
    assert_eq!(ctf("fresh").save_to_db(&mut store), Ok(Saved::Inserted));
    assert_eq!(store.ctfs.len(), 3);
    assert_eq!(store.ctfs[2].id, 3);
    assert_eq!(store.ctfs[2].name, "fresh");
    assert_eq!(store.ctfs[2].path, "/work/fresh");
    assert!(!store.ctfs[2].archived);
}

#[test]
fn saving_a_challenge_inserts_or_writes_the_flag() {
    let mut store = sample();
    let known = Challenge::new(s("baby_rop"), s("web"), s("FLAG{x}"));
    assert_eq!(known.save_to_db(&mut store, &s("acme")), Ok(()));
    assert_eq!(store.challenges.len(), 3);
    assert_eq!(store.challenges[0].flag, "FLAG{x}");
    assert_eq!(store.challenges[0].category, "pwn");
    let fresh = Challenge::new(s("heap"), s("pwn"), s(""));
    assert_eq!(fresh.save_to_db(&mut store, &s("acme")), Ok(()));
    assert_eq!(store.challenges.len(), 4);
    assert_eq!(store.challenges[3].id, 4);
    assert_eq!(store.challenges[3].ctf_id, 1);
    assert_eq!(store.challenges[3].name, "heap");
    assert_eq!(store.challenges[3].category, "pwn");
    assert_eq!(
        fresh.save_to_db(&mut store, &s("old")),
        Err(SaveError::Ctf(CtfError::Archived))
    );
    assert_eq!(
        fresh.save_to_db(&mut store, &s("gone")),
        Err(SaveError::Ctf(CtfError::NotFound))
    );
    assert_eq!(store.challenges.len(), 4);
    store.challenges.push(chall_row(i32::MAX, 1, "last", "misc", ""));
    let more = Challenge::new(s("more"), s("pwn"), s(""));
    assert_eq!(more.save_to_db(&mut store, &s("acme")), Err(SaveError::OutOfIds));
}

#[test]
fn the_directories_of_a_new_challenge() {
    let c = Challenge::new(s("heap"), s("pwn"), s(""));
    assert_eq!(
        shown(&c.create_file(&s("/work"), "acme")),
        vec![s("EnsureDir(\"/work/acme/pwn\")"), s("CreateDir(\"/work/acme/pwn/heap\")")]
    );
}

#[test]
fn editing_a_challenge_renames_it_in_its_workspace_only() {
    let mut store = sample();
    store.ctfs.push(ctf_row(3, "beta", false));
    store.challenges.push(chall_row(4, 3, "login", "web", ""));
    let mut c = Challenge::new(s("login"), s("web"), s("FLAG{sql}"));
    let effects =
        c.edit_chall(&mut store, &s("/work"), &s("acme"), &s("signin"), &s("crypto")).unwrap();
    assert_eq!(
        shown(&effects),
        vec![
            s("EnsureDir(\"/work/acme/crypto\")"),
            s("Rename(\"/work/acme/web/login\", \"/work/acme/crypto/signin\")"),
            s("ChangeDirPlain(\"/work/acme/crypto/signin\")"),
        ]
    );
    assert_eq!(
        (c.name.as_str(), c.category, c.flag.as_str()),
        ("signin", ChallengeType::Crypto, "FLAG{sql}")
    );
    assert_eq!(store.challenges[1].name, "signin");
    assert_eq!(store.challenges[1].category, "crypto");
    assert_eq!(store.challenges[1].flag, "FLAG{sql}");
    assert_eq!(store.challenges[3].name, "login");
    assert_eq!(store.challenges[3].category, "web");
    assert_eq!(store.challenges[0].name, "baby_rop");
}

#[test]
fn editing_is_refused_without_workspace_or_with_a_name_held_twice() {
    let mut store = sample();
    let mut lost = Challenge::new(s("nope"), s("web"), s(""));
    assert_eq!(
        lost.edit_chall(&mut store, &s("/work"), &s("acme"), &s("x"), &s("web")).err(),
        Some(EditError::NoWorkspace)
    );
    let mut packed = Challenge::new(s("rsa"), s("crypto"), s(""));
    assert_eq!(
        packed.edit_chall(&mut store, &s("/work"), &s("old"), &s("x"), &s("web")).err(),
        Some(EditError::NoWorkspace)
    );
    let mut c = Challenge::new(s("login"), s("web"), s(""));
    assert_eq!(
        c.edit_chall(&mut store, &s("/work"), &s("gone"), &s("x"), &s("web")).err(),
        Some(EditError::NoWorkspace)
    );
    store.challenges.push(chall_row(4, 1, "twice", "web", ""));
    store.challenges.push(chall_row(5, 1, "twice", "web", ""));
    assert_eq!(
        c.edit_chall(&mut store, &s("/work"), &s("acme"), &s("twice"), &s("web")).err(),
        Some(EditError::NameTaken)
    );
    assert_eq!(
        c.edit_chall(&mut store, &s("/work"), &s("acme"), &s("baby_rop"), &s("web")).err(),
        Some(EditError::NameTaken)
    );
    assert_eq!(c.name, "login");
    assert_eq!(store.challenges[1].name, "login");
    assert_eq!(store.challenges[2].name, "rsa");
    let kept = c.edit_chall(&mut store, &s("/work"), &s("acme"), &s("login"), &s("pwn"));
    assert!(kept.is_ok());
    assert_eq!(store.challenges[1].category, "pwn");
    assert_eq!(c.name, "login");
}

#[test]
fn removing_a_challenge_leaves_the_workspace_active() {
    let mut store = sample();
    let mut f = file("acme:login");
    let effects = remove_chall(&mut store, &mut f, &s("/work"), &s("acme"), &s("login")).unwrap();
    assert_eq!(shown(&effects), vec![s("RemoveDirAll(\"/work/acme/web/login\")")]);
    assert_eq!(store.challenges.len(), 2);
    assert_eq!(f.text, Some(s("acme:")));
    let r = remove_chall(&mut store, &mut f, &s("/work"), &s("acme"), &s("login"));
    assert_eq!(r.err(), Some(ChallengeError::NotFound));
    assert_eq!(store.challenges.len(), 2);
}

#[test]
fn removing_a_challenge_that_the_workspace_does_not_hold_changes_nothing() {
    let mut store = sample();
    let mut f = file("acme:login");
    for (w, c) in [("gone", "login"), ("acme", "rsa"), ("old", "rsa")] {
        let r = remove_chall(&mut store, &mut f, &s("/work"), &s(w), &s(c));
        assert_eq!(r.err(), Some(ChallengeError::NotFound));
        assert_eq!(store.challenges.len(), 3);
        assert_eq!(f.text, Some(s("acme:login")));
    }
}

#[test]
fn the_removed_challenge_is_the_one_of_the_workspace() {
    let mut store = sample();
    store.ctfs.push(ctf_row(3, "beta", false));
    store.challenges.insert(0, chall_row(4, 3, "login", "misc", ""));
    let mut f = file("acme:login");
    let effects = remove_chall(&mut store, &mut f, &s("/work"), &s("acme"), &s("login")).unwrap();
    assert_eq!(shown(&effects), vec![s("RemoveDirAll(\"/work/acme/web/login\")")]);
    assert_eq!(store.challenges.len(), 3);
    assert_eq!(store.challenges[0].name, "login");
    assert_eq!(store.challenges[0].ctf_id, 3);
}

#[test]
fn a_new_workspace_needs_a_name_that_is_free() {
    let mut store = sample();
    let mut f = file("acme:login");
    for (name, creation, why) in [
        ("old", Creation::Created, NewCtfError::Archived),
        ("acme", Creation::Created, NewCtfError::Exists),
        ("gamma", Creation::AlreadyExists, NewCtfError::DirectoryExists),
        ("gamma", Creation::Failed, NewCtfError::DirectoryFailed),
    ] {
        let made = quick_new(&mut store, &mut f, &s("/work"), s(name), creation, s("t"));
        assert_eq!(made.err(), Some(why));
        assert_eq!(store.ctfs.len(), 2);
        assert_eq!(store.ctfs[0].url, "old-url");
        assert_eq!(f.text, Some(s("acme:login")));
    }
    store.ctfs.push(ctf_row(i32::MAX, "last", false));
    let made = quick_new(&mut store, &mut f, &s("/work"), s("gamma"), Creation::Created, s("t"));
    assert_eq!(made.err(), Some(NewCtfError::OutOfIds));
    assert_eq!(store.ctfs.len(), 3);
}

#[test]
fn renaming_a_workspace() {
    let mut store = sample();
    let mut c = ctf("acme");
    let effects = c.change_name(&mut store, &s("/work"), s("apex"));
    assert_eq!(
        shown(&effects),
        vec![s("Rename(\"/work/acme\", \"/work/apex\")"), s("ChangeDir(\"/work/apex\")")]
    );
    assert_eq!(c.metadata.name, "apex");
    assert_eq!(c.file_path, "/work/acme");
    assert_eq!(store.ctfs[0].name, "apex");
    assert_eq!(store.ctfs[0].path, "/work/apex");
    assert_eq!(store.ctfs[1].name, "old");
}

#[test]
fn removing_a_workspace_empties_the_context() {
    let mut store = sample();
    let mut f = file("acme:login");
    let effects = ctf("acme").remove_ctf(&mut store, &mut f, &s("/work"), false);
    assert_eq!(shown(&effects), vec![s("RemoveDirAll(\"/work/acme\")")]);
    assert_eq!(store.ctfs.len(), 1);
    assert_eq!(store.challenges.len(), 1);
    assert_eq!(f.text, Some(s(":")));
    let effects = ctf("old").remove_ctf(&mut store, &mut f, &s("/work"), true);
    assert_eq!(shown(&effects), vec![s("RemoveFile(\"/work/.archived/old.tar.bz2\")")]);
    assert!(store.ctfs.is_empty());
    assert!(store.challenges.is_empty());
}

#[test]
fn packing_and_unpacking() {
    let mut store = sample();
    let c = ctf("acme");
    assert_eq!(archive_path("/work", "acme"), "/work/.archived/acme.tar.bz2");
    let zip = vec![
        s("EnsureDir(\"/work/.archived\")"),
        s("Shell(\"tar -cjvf /work/.archived/acme.tar.bz2 -C /work/acme .\")"),
        s("RemoveDirAll(\"/work/acme\")"),
    ];
    let unzip = vec![
        s("EnsureDir(\"/work/acme\")"),
        s("Shell(\"tar -xjvf /work/.archived/acme.tar.bz2 -C /work/acme\")"),
        s("RemoveFile(\"/work/.archived/acme.tar.bz2\")"),
    ];
    assert_eq!(shown(&c.zip_ctf_dir(&s("/work"))), zip);
    assert_eq!(shown(&c.unzip_ctf_dir(&s("/work"))), unzip);
    assert_eq!(shown(&c.archive(&mut store, &s("/work"))), zip);
    assert!(store.ctfs[0].archived);
    assert!(store.challenges[0].archived && store.challenges[1].archived);
    assert_eq!(shown(&c.unarchive(&mut store, &s("/work"))), unzip);
    assert!(!store.ctfs[0].archived);
    assert!(!store.challenges[0].archived && !store.challenges[1].archived);
}

#[test]
fn a_quick_new_workspace_becomes_the_context() {
    let mut store = sample();
    let mut f = file("acme:login");
    let now = s("2026-01-01T00:00:00+00:00");
    let made =
        quick_new(&mut store, &mut f, &s("/work"), s("gamma"), Creation::Created, now.clone())
            .unwrap();
    assert_eq!(made.file_path, "/work/gamma");
    assert_eq!(made.metadata.name, "gamma");
    assert_eq!(made.metadata.url, "");
    assert_eq!(made.metadata.creds, (s(""), s("")));
    assert_eq!(made.metadata.start, now);
    assert_eq!(made.metadata.end, now);
    assert_eq!(store.ctfs.len(), 3);
    assert_eq!(store.ctfs[2].name, "gamma");
    assert_eq!(store.ctfs[2].id, 3);
    assert!(!store.ctfs[2].archived);
    assert_eq!(f.text, Some(s("gamma:")));
}

#[test]
fn a_new_challenge_goes_to_the_active_workspace() {
    let mut store = sample();
    let mut f = file("acme:login");
    let (w, c, effects) = new_challenge(&mut store, &mut f, &s("/work"), s("heap"), s("pwn")).unwrap();
    assert_eq!(w, "acme");
    assert_eq!((c.name.as_str(), c.category, c.flag.as_str()), ("heap", ChallengeType::Pwn, ""));
    assert_eq!(
        shown(&effects),
        vec![s("EnsureDir(\"/work/acme/pwn\")"), s("CreateDir(\"/work/acme/pwn/heap\")")]
    );
    assert_eq!(store.challenges.len(), 4);
    assert_eq!(store.challenges[3].ctf_id, 1);
    assert_eq!(f.text, Some(s("acme:heap")));
}

#[test]
fn a_new_challenge_is_refused() {
    let mut store = sample();
    let r = new_challenge(&mut store, &mut file(":"), &s("/work"), s("heap"), s("pwn"));
    assert_eq!(r.err(), Some(NewChallengeError::NoWorkspace));
    let r = new_challenge(&mut store, &mut file("acme:"), &s("/work"), s("heap"), s("ctf"));
    assert_eq!(r.err(), Some(NewChallengeError::InvalidType));
    let r = new_challenge(&mut store, &mut file("acme:"), &s("/work"), s("login"), s("web"));
    assert_eq!(r.err(), Some(NewChallengeError::AlreadyExists));
    let mut none = ContextFile { text: None };
    let r = new_challenge(&mut store, &mut none, &s("/work"), s("heap"), s("pwn"));
    assert!(matches!(r, Err(NewChallengeError::Context(_))));
    assert_eq!(store.challenges.len(), 3);
}

#[test]
fn the_two_directives() {
    assert_eq!(change_dir_line("/work/acme"), "^CHANGE_DIR^/work/acme^CHANGE_DIR^");
    assert_eq!(change_dir_line(""), "^CHANGE_DIR^^CHANGE_DIR^");
    assert_eq!(plain_change_dir_line("/work/acme"), "CHANGE_DIR: /work/acme");
}
