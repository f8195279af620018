use password_vault::crypto::decrypt;
use password_vault::vault::{
    add_entry, change_master_password, check_password_rules, choose_vault_start, create_new_vault, find_entry, open_vault, remove_entry,
    save_vault, seal_with_password, update_entry, validate_master_password, Entry, VaultError,
    VaultFile, VaultSession, VaultStart,
};
use uuid::Uuid;

fn entry(id: u128, site: &str, username: &str, password: &str, notes: Option<&str>) -> Entry {
    Entry {
        id,
        site: site.to_string(),
        username: username.to_string(),
        password: password.to_string(),
        notes: notes.map(|n| n.to_string()),
    }
}

fn session_with(entries: Vec<Entry>) -> VaultSession {
    VaultSession { key: [0u8; 32], salt: vec![], entries }
}

fn weak_message(result: Result<(), VaultError>) -> String {
    match result {
        Err(VaultError::WeakPassword(message)) => message,
        Ok(()) => panic!("password accepted"),
        Err(other) => panic!("unexpected error: {:?}", other),
    }
}

#[test]
fn strong_passwords_are_accepted() {
    assert!(validate_master_password("Str0ng!PassWord").is_ok());
}

#[test]
fn weak_passwords_are_rejected() {
    assert!(validate_master_password("teste").is_err());
    assert!(validate_master_password("12345678").is_err());
    assert!(validate_master_password("password").is_err());
    assert!(validate_master_password("Abcdef1!").is_err());
}

#[test]
fn short_password_names_the_length_rule() {
    assert_eq!(
        weak_message(validate_master_password("Abcdef1!")),
        "A senha deve ter pelo menos 12 caracteres."
    );
}

#[test]
fn length_counts_characters_not_bytes() {
    // Eleven characters (fourteen bytes in UTF-8), with every class.
    assert_eq!(
        weak_message(validate_master_password("Áb1!Áb1!Áb1")),
        "A senha deve ter pelo menos 12 caracteres."
    );
    // Twelve characters, one of them two bytes long.
    assert!(validate_master_password("Abcdéfgh1!xy").is_ok());
}

#[test]
fn missing_class_names_the_class_rule() {
    let expected = "A senha deve conter maiúscula, minúscula, número e símbolo.";
    assert_eq!(weak_message(validate_master_password("abcdefghij1!")), expected);
    assert_eq!(weak_message(validate_master_password("ABCDEFGHIJ1!")), expected);
    assert_eq!(weak_message(validate_master_password("Abcdefghijk!")), expected);
    assert_eq!(weak_message(validate_master_password("Abcdefghijk1")), expected);
}

#[test]
fn unicode_letters_count_as_cases() {
    // "Ä" is uppercase and "ß" lowercase in Unicode; "€" is a symbol.
    assert!(validate_master_password("Äßßßßßßßßß9€").is_ok());
}

#[test]
fn common_word_names_the_common_word_rule() {
    let expected = "A senha não pode conter palavras ou sequências comuns.";
    assert_eq!(weak_message(validate_master_password("Xx!9admin-Zzzz")), expected);
    assert_eq!(weak_message(validate_master_password("Ab1!12345678zz")), expected);
    assert_eq!(weak_message(validate_master_password("Welcome!welcome9")), expected);
}

#[test]
fn rules_are_checked_in_order() {
    let chars: Vec<char> = "password".chars().collect();
    assert_eq!(
        weak_message(check_password_rules(8, true, true, true, true, &chars)),
        "A senha deve ter pelo menos 12 caracteres."
    );
    assert_eq!(
        weak_message(check_password_rules(12, true, true, false, true, &chars)),
        "A senha deve conter maiúscula, minúscula, número e símbolo."
    );
    assert_eq!(
        weak_message(check_password_rules(12, true, true, true, true, &chars)),
        "A senha não pode conter palavras ou sequências comuns."
    );
    let fine: Vec<char> = "Zq9!Zq9!Zq9!".chars().collect();
    assert!(check_password_rules(12, true, true, true, true, &fine).is_ok());
}

#[test]
fn removing_entry_from_session_works() {
    let mut session = VaultSession {
        key: [0u8; 32],
        salt: vec![],
        entries: vec![Entry {
            id: Uuid::new_v4().as_u128(),
            site: "example.com".to_string(),
            username: "alice".to_string(),
            password: "secret".to_string(),
            notes: None,
        }],
    };

    let id = session.entries[0].id;
    remove_entry(&mut session, id).expect("deveria remover a entrada");

    assert!(session.entries.is_empty());
}

#[test]
fn removing_unknown_entry_fails_and_keeps_entries() {
    let mut session = session_with(vec![entry(1, "a.com", "a", "p", None)]);
    assert!(matches!(remove_entry(&mut session, 2), Err(VaultError::EntryNotFound)));
    assert_eq!(session.entries.len(), 1);
}

#[test]
fn removing_removes_only_the_first_with_the_id() {
    let mut session = session_with(vec![
        entry(7, "first.com", "a", "p", None),
        entry(8, "other.com", "b", "q", None),
        entry(7, "second.com", "c", "r", None),
    ]);
    remove_entry(&mut session, 7).unwrap();
    let sites: Vec<&str> = session.entries.iter().map(|e| e.site.as_str()).collect();
    assert_eq!(sites, vec!["other.com", "second.com"]);
}

#[test]
fn added_entry_is_found() {
    let mut session = session_with(vec![entry(1, "a.com", "a", "p", None)]);
    add_entry(&mut session, entry(2, "b.com", "bob", "pw", Some("n")));
    assert_eq!(session.entries.len(), 2);
    let found = find_entry(&session, 2).expect("entry should be found");
    assert_eq!(found.site, "b.com");
    assert_eq!(found.notes.as_deref(), Some("n"));
    assert!(find_entry(&session, 3).is_none());
}

#[test]
fn find_returns_the_first_with_the_id() {
    let session = session_with(vec![
        entry(5, "first.com", "a", "p", None),
        entry(5, "second.com", "b", "q", None),
    ]);
    assert_eq!(find_entry(&session, 5).unwrap().site, "first.com");
}

#[test]
fn update_replaces_the_entry() {
    let mut session = session_with(vec![
        entry(1, "a.com", "a", "p", None),
        entry(2, "b.com", "b", "q", None),
    ]);
    update_entry(&mut session, entry(2, "new.com", "nb", "nq", Some("x"))).unwrap();
    assert_eq!(session.entries[1].site, "new.com");
    assert_eq!(session.entries[1].password, "nq");
    assert_eq!(session.entries[0].site, "a.com");
    assert!(matches!(
        update_entry(&mut session, entry(9, "z", "z", "z", None)),
        Err(VaultError::EntryNotFound)
    ));
    assert_eq!(session.entries.len(), 2);
}

#[test]
fn clearing_wipes_key_passwords_and_notes() {
    let mut session = VaultSession {
        key: [7u8; 32],
        salt: vec![1, 2, 3],
        entries: vec![
            entry(1, "a.com", "alice", "secret", Some("hint")),
            entry(2, "b.com", "bob", "hunter2", None),
        ],
    };
    session.clear_sensitive_data();
    assert_eq!(session.key, [0u8; 32]);
    assert_eq!(session.salt, vec![1, 2, 3]);
    assert_eq!(session.entries[0].password, "");
    assert_eq!(session.entries[0].notes.as_deref(), Some(""));
    assert_eq!(session.entries[0].site, "a.com");
    assert_eq!(session.entries[1].password, "");
    assert_eq!(session.entries[1].notes, None);
    assert_eq!(session.entries[1].username, "bob");
}

#[test]
fn new_vault_opens_with_its_password() {
    let (session, file) = create_new_vault(b"Correct-Horse9");
    assert!(session.entries.is_empty());
    assert_eq!(file.salt.len(), 16);
    assert_eq!(session.salt, file.salt);
    assert_eq!(file.ciphertext.len(), 2 + 16);
    let key = session.key;
    let opened = open_vault(b"Correct-Horse9", file).unwrap_or_else(|e| panic!("{:?}", e));
    assert_eq!(opened.plaintext, b"[]".to_vec());
    assert_eq!(opened.key, key);
}

#[test]
fn vault_does_not_open_with_another_password() {
    let (_, file) = create_new_vault(b"Correct-Horse9");
    assert!(matches!(open_vault(b"Wrong-Horse9", file), Err(VaultError::WrongPassword)));
}

#[test]
fn resealing_under_a_new_password_moves_the_contents() {
    let (_, file) = create_new_vault(b"OldPass!1234");
    let old_salt = file.salt.clone();
    let opened = open_vault(b"OldPass!1234", file).unwrap_or_else(|e| panic!("{:?}", e));
    let (_, resealed) = seal_with_password(b"NewPass!4567", &opened.plaintext);
    assert_ne!(resealed.salt, old_salt);
    let copy = VaultFile {
        salt: resealed.salt.clone(),
        nonce: resealed.nonce,
        ciphertext: resealed.ciphertext.clone(),
    };
    assert_eq!(open_vault(b"NewPass!4567", resealed).unwrap_or_else(|e| panic!("{:?}", e)).plaintext, b"[]".to_vec());
    assert!(matches!(open_vault(b"OldPass!1234", copy), Err(VaultError::WrongPassword)));
}

#[test]
fn saved_session_decrypts_to_what_was_saved() {
    let (session, _) = create_new_vault(b"Correct-Horse9");
    let plaintext = b"[{\"site\":\"x\"}]";
    let file = save_vault(&session, plaintext);
    assert_eq!(file.salt, session.salt);
    assert_ne!(file.ciphertext[..plaintext.len()].to_vec(), plaintext.to_vec());
    let clear = decrypt(&session.key, &file.nonce, &file.ciphertext).unwrap();
    assert_eq!(clear, plaintext.to_vec());
}

#[test]
fn removing_a_freshly_added_entry_restores_the_entries() {
    let mut session = session_with(vec![entry(1, "a.com", "a", "p", None), entry(2, "b.com", "b", "q", None)]);
    add_entry(&mut session, entry(3, "c.com", "c", "r", Some("n")));
    remove_entry(&mut session, 3).unwrap();
    let ids: Vec<u128> = session.entries.iter().map(|e| e.id).collect();
    assert_eq!(ids, vec![1, 2]);
}

#[test]
fn updated_entry_is_found() {
    let mut session = session_with(vec![entry(4, "a.com", "a", "p", None)]);
    update_entry(&mut session, entry(4, "z.com", "zed", "pz", None)).unwrap();
    assert_eq!(find_entry(&session, 4).unwrap().username, "zed");
}

#[test]
fn saved_vault_reopens_with_its_password() {
    let (mut session, _) = create_new_vault(b"Correct-Horse9");
    add_entry(&mut session, entry(1, "a.com", "a", "p", None));
    let file = save_vault(&session, b"[1]");
    let opened = open_vault(b"Correct-Horse9", file).unwrap_or_else(|e| panic!("{:?}", e));
    assert_eq!(opened.plaintext, b"[1]".to_vec());
    assert_eq!(opened.salt, session.salt);
}

#[test]
fn stored_vault_is_opened_without_strength_check() {
    assert!(matches!(choose_vault_start(Some(b"{}"), "weak"), Ok(VaultStart::OpenStored)));
}

#[test]
fn missing_or_empty_vault_is_created_after_strength_check() {
    assert!(matches!(choose_vault_start(None, "Str0ng!PassWord"), Ok(VaultStart::CreateNew)));
    assert!(matches!(choose_vault_start(Some(b""), "Str0ng!PassWord"), Ok(VaultStart::CreateNew)));
    assert_eq!(
        weak_message(choose_vault_start(None, "weak").map(|_| ())),
        "A senha deve ter pelo menos 12 caracteres."
    );
}

#[test]
fn changed_master_password_opens_the_resealed_entries() {
    let (_, file) = create_new_vault(b"OldPass!1234");
    let resealed = change_master_password(&file, "OldPass!1234", "NewPass!4567", b"[]")
        .unwrap_or_else(|e| panic!("{:?}", e));
    assert_eq!(resealed.salt.len(), 16);
    assert_ne!(resealed.salt, file.salt);
    let opened = open_vault(b"NewPass!4567", resealed).unwrap_or_else(|e| panic!("{:?}", e));
    assert_eq!(opened.plaintext, b"[]".to_vec());
}

#[test]
fn master_password_change_checks_new_then_current() {
    let (_, file) = create_new_vault(b"OldPass!1234");
    assert_eq!(
        weak_message(change_master_password(&file, "Wrong!Pass99", "short", b"[]").map(|_| ())),
        "A senha deve ter pelo menos 12 caracteres."
    );
    assert!(matches!(
        change_master_password(&file, "Wrong!Pass99", "NewPass!4567", b"[]"),
        Err(VaultError::WrongPassword)
    ));
}

#[test]
fn entries_can_be_cloned() {
    let original = entry(9, "c.com", "carol", "pw", Some("n"));
    let copy = original.clone();
    assert_eq!(copy.id, 9);
    assert_eq!(copy.site, "c.com");
    assert_eq!(copy.notes.as_deref(), Some("n"));
}
