use password_vault::state::{
    change_error_message, check_password_change_form, clipboard_still_holds, check_unlock_password, clear_session_data,
    filter_entries, is_unlocked, save_entry_form, unlock_error_message, AppState,
};
use password_vault::text::{contains_chars, same_text, string_from_chars};
use password_vault::vault::{Entry, VaultError, VaultSession};
use std::path::PathBuf;

fn entry(id: u128, site: &str, username: &str, notes: Option<&str>) -> Entry {
    Entry {
        id,
        site: site.to_string(),
        username: username.to_string(),
        password: "pw".to_string(),
        notes: notes.map(|n| n.to_string()),
    }
}

fn session() -> VaultSession {
    VaultSession {
        key: [3u8; 32],
        salt: vec![1; 16],
        entries: vec![
            entry(1, "GitHub.com", "alice", None),
            entry(2, "mail.example", "Bob", Some("Personal ÉMAIL")),
            entry(3, "bank.example", "carol", Some("savings")),
        ],
    }
}

#[test]
fn new_state_is_locked() {
    let state = AppState::new(PathBuf::from("/tmp/vault.dat"));
    assert!(!is_unlocked(&state));
    assert_eq!(state.vault_path, PathBuf::from("/tmp/vault.dat"));
}

#[test]
fn clearing_session_locks_the_state() {
    let mut state = AppState { session: Some(session()), vault_path: PathBuf::from("v") };
    assert!(is_unlocked(&state));
    let wiped = clear_session_data(&mut state).expect("the open session is handed back");
    assert!(!is_unlocked(&state));
    assert_eq!(wiped.key, [0u8; 32]);
    assert_eq!(wiped.salt, vec![1; 16]);
    assert_eq!(wiped.entries.len(), 3);
    assert!(wiped.entries.iter().all(|e| e.password.is_empty()));
    assert_eq!(wiped.entries[1].notes.as_deref(), Some(""));
    assert_eq!(wiped.entries[0].notes, None);
    assert_eq!(wiped.entries[2].site, "bank.example");
    assert!(clear_session_data(&mut state).is_none());
    assert_eq!(state.vault_path, PathBuf::from("v"));
}

#[test]
fn empty_query_lists_every_entry() {
    let s = session();
    let found = filter_entries(&s, "");
    let ids: Vec<u128> = found.iter().map(|e| e.id).collect();
    assert_eq!(ids, vec![1, 2, 3]);
}

#[test]
fn search_ignores_case_in_site_username_and_notes() {
    let s = session();
    let ids = |q: &str| filter_entries(&s, q).iter().map(|e| e.id).collect::<Vec<u128>>();
    assert_eq!(ids("github"), vec![1]);
    assert_eq!(ids("BOB"), vec![2]);
    assert_eq!(ids("émail"), vec![2]);
    assert_eq!(ids("SAVINGS"), vec![3]);
    assert_eq!(ids(".example"), vec![2, 3]);
    assert_eq!(ids("nothing"), Vec::<u128>::new());
}

#[test]
fn unlock_rejects_empty_password() {
    assert_eq!(check_unlock_password(""), Err("A senha não pode estar vazia.".to_string()));
    assert_eq!(check_unlock_password("x"), Ok(()));
}

#[test]
fn unlock_messages_name_the_failure() {
    assert_eq!(unlock_error_message(&VaultError::WrongPassword), "Senha incorreta.");
    assert_eq!(unlock_error_message(&VaultError::EntryNotFound), "Entrada não encontrada.");
    assert_eq!(unlock_error_message(&VaultError::WeakPassword("fraca".to_string())), "fraca");
    let io = std::io::Error::new(std::io::ErrorKind::Other, "disk");
    assert_eq!(unlock_error_message(&VaultError::Io(io)), "Erro de acesso ao cofre.");
    let json = serde_json::from_slice::<u8>(b"x").unwrap_err();
    assert_eq!(unlock_error_message(&VaultError::Serialization(json)), "Arquivo do cofre corrompido.");
}

#[test]
fn change_form_checks_fields_confirmation_and_strength() {
    assert_eq!(
        check_password_change_form("", "Str0ng!Pass1", "Str0ng!Pass1"),
        Err("Preencha todos os campos.".to_string())
    );
    assert_eq!(
        check_password_change_form("old", "Str0ng!Pass1", "Str0ng!Pass2"),
        Err("As senhas não conferem.".to_string())
    );
    assert_eq!(
        check_password_change_form("old", "short1!A", "short1!A"),
        Err("A senha deve ter pelo menos 12 caracteres.".to_string())
    );
    assert_eq!(check_password_change_form("old", "Str0ng!Pass1", "Str0ng!Pass1"), Ok(()));
}

#[test]
fn change_messages_name_the_failure() {
    assert_eq!(change_error_message(&VaultError::WrongPassword), "Senha atual incorreta.");
    assert_eq!(change_error_message(&VaultError::WeakPassword("fraca".to_string())), "fraca");
    assert_eq!(
        change_error_message(&VaultError::EntryNotFound),
        "Não foi possível trocar a senha mestra."
    );
}

#[test]
fn saving_a_new_entry_appends_it_with_fresh_id() {
    let mut s = session();
    save_entry_form(&mut s, None, "new.site".into(), "dan".into(), "pw4".into(), "".into()).unwrap();
    assert_eq!(s.entries.len(), 4);
    let added = &s.entries[3];
    assert_eq!(added.site, "new.site");
    assert_eq!(added.username, "dan");
    assert_eq!(added.password, "pw4");
    assert_eq!(added.notes.as_deref(), Some(""));
    assert!(![1u128, 2, 3].contains(&added.id));
}

#[test]
fn saving_an_edited_entry_replaces_it() {
    let mut s = session();
    save_entry_form(&mut s, Some(2), "m.example".into(), "bobby".into(), "pw5".into(), "n".into()).unwrap();
    assert_eq!(s.entries.len(), 3);
    assert_eq!(s.entries[1].id, 2);
    assert_eq!(s.entries[1].username, "bobby");
    assert_eq!(s.entries[1].notes.as_deref(), Some("n"));
    assert!(matches!(
        save_entry_form(&mut s, Some(99), "x".into(), "y".into(), "z".into(), "w".into()),
        Err(VaultError::EntryNotFound)
    ));
}

#[test]
fn search_does_not_read_passwords() {
    let mut s = session();
    s.entries[0].password = "github".to_string();
    let ids: Vec<u128> = filter_entries(&s, "pw").iter().map(|e| e.id).collect();
    assert_eq!(ids, Vec::<u128>::new());
    let ids: Vec<u128> = filter_entries(&s, "bank").iter().map(|e| e.id).collect();
    assert_eq!(ids, vec![3]);
}

#[test]
fn substring_search_over_characters() {
    let hay: Vec<char> = "abcabd".chars().collect();
    assert!(contains_chars(&hay, &"abd".chars().collect()));
    assert!(contains_chars(&hay, &Vec::new()));
    assert!(!contains_chars(&hay, &"abe".chars().collect()));
    assert!(!contains_chars(&"ab".chars().collect(), &"abc".chars().collect()));
    assert!(same_text("é", "é"));
    assert!(!same_text("e", "é"));
    assert_eq!(string_from_chars(&vec!['ç', 'a']), "ça");
}

#[test]
fn clipboard_is_cleared_only_if_unchanged() {
    assert!(clipboard_still_holds(Some("s3cret"), "s3cret"));
    assert!(!clipboard_still_holds(Some("other"), "s3cret"));
    assert!(!clipboard_still_holds(None, "s3cret"));
}
