//! The application's state and the decisions its screens make: locking,
//! searching the entries, and judging what the user typed.
use crate::text::{chars_of, contains_chars, is_substring, occurs_at, same_text, to_lowercase, unicode_lowercase};
use crate::vault::{
    add_entry, has_entry_id, is_random_uuid_value, new_entry_id, first_index_of_id, update_entry, validate_master_password,
    master_password_weakness, wiped, Entry, VaultError, VaultSession,
};
use std::path::PathBuf;
use vstd::prelude::*;
use vstd::string::StringExecFns;

verus! {

#[verifier::external_type_specification]
#[verifier::external_body]
pub struct ExPathBuf(std::path::PathBuf);

/// The application's state: the open session, if the vault is unlocked,
/// and where the vault file lives.
pub struct AppState {
    pub session: Option<VaultSession>,
    pub vault_path: PathBuf,
}

impl AppState {
    /// A locked state for the vault at `vault_path`.
    pub fn new(vault_path: PathBuf) -> (state: Self)
        ensures
            state.session is None,
            state.vault_path == vault_path,
    {
        AppState { session: None, vault_path }
    }
}

/// Whether the vault is unlocked.
pub fn is_unlocked(state: &AppState) -> (r: bool)
    ensures
        r == state.session is Some,
{
    state.session.is_some()
}

/// Whether `after` is the session `before` with its secrets wiped: the key
/// all zeros, the salt kept, and each entry wiped in place.
pub open spec fn session_wiped(before: VaultSession, after: VaultSession) -> bool {
    &&& after.key@ == Seq::new(32, |i: int| 0u8)
    &&& after.salt == before.salt
    &&& after.entries@.len() == before.entries@.len()
    &&& forall|i: int|
        0 <= i < before.entries@.len() ==> wiped(#[trigger] before.entries@[i], after.entries@[i])
}

/// Locks the vault: takes the open session out of the state, wipes its
/// secrets and hands the wiped session back (`None` where the vault was
/// locked already).
pub fn clear_session_data(state: &mut AppState) -> (taken: Option<VaultSession>)
    ensures
        final(state).session is None,
        final(state).vault_path == old(state).vault_path,
        match old(state).session {
            Some(before) => taken matches Some(after) && session_wiped(before, after),
            None => taken is None,
        },
{
    match state.session.take() {
        Some(mut session) => {
            session.clear_sensitive_data();
            Some(session)
        },
        None => None,
    }
}

/// Whether `entry` turns up in a search for `query`: the lowercase query
/// occurs in the lowercase site, username or notes.
pub open spec fn entry_matches(entry: Entry, query: Seq<char>) -> bool {
    let q = unicode_lowercase(query);
    ||| is_substring(q, unicode_lowercase(entry.site@))
    ||| is_substring(q, unicode_lowercase(entry.username@))
    ||| (entry.notes matches Some(notes) && is_substring(q, unicode_lowercase(notes@)))
}

/// The entries of `entries` that turn up in a search for `query`, in order.
pub open spec fn search_results(entries: Seq<Entry>, query: Seq<char>) -> Seq<Entry> {
    entries.filter(|e: Entry| entry_matches(e, query))
}

/// A search finds every entry whose site, username or notes contain the
/// query, ignoring case, whether or not the entry has notes.
pub proof fn law_search_finds_every_match(entries: Seq<Entry>, query: Seq<char>, i: int)
    requires
        0 <= i < entries.len(),
        ({
            let q = unicode_lowercase(query);
            ||| is_substring(q, unicode_lowercase(entries[i].site@))
            ||| is_substring(q, unicode_lowercase(entries[i].username@))
            ||| (entries[i].notes matches Some(notes) && is_substring(q, unicode_lowercase(notes@)))
        }),
    ensures
        search_results(entries, query).contains(entries[i]),
{
    entries.lemma_filter_contains(|e: Entry| entry_matches(e, query), i);
}

/// Everything a search finds is an entry of the list whose site, username
/// or notes contain the query, ignoring case.
pub proof fn law_search_finds_only_matches(entries: Seq<Entry>, query: Seq<char>, j: int)
    requires
        0 <= j < search_results(entries, query).len(),
    ensures
        entries.contains(search_results(entries, query)[j]),
        ({
            let e = search_results(entries, query)[j];
            let q = unicode_lowercase(query);
            ||| is_substring(q, unicode_lowercase(e.site@))
            ||| is_substring(q, unicode_lowercase(e.username@))
            ||| (e.notes matches Some(notes) && is_substring(q, unicode_lowercase(notes@)))
        }),
{
    let pred = |e: Entry| entry_matches(e, query);
    entries.lemma_filter_pred(pred, j);
    assert(entries.filter(pred).contains(entries.filter(pred)[j]));
    entries.lemma_filter_contains_rev(pred, entries.filter(pred)[j]);
}

/// The lowercase characters of `text`.
fn lowercase_chars(text: &str) -> (r: Vec<char>)
    ensures
        r@ == unicode_lowercase(text@),
        text@.len() == 0 ==> r@.len() == 0,
{
    let lower = to_lowercase(text);
    chars_of(lower.as_str())
}

/// Whether `entry` turns up in a search for the lowercase query `query`.
fn entry_matches_lowered(entry: &Entry, query: &Vec<char>, Ghost(raw): Ghost<Seq<char>>) -> (r: bool)
    requires
        query@ == unicode_lowercase(raw),
    ensures
        r == entry_matches(*entry, raw),
{
    if contains_chars(&lowercase_chars(entry.site.as_str()), query) {
        return true;
    }
    if contains_chars(&lowercase_chars(entry.username.as_str()), query) {
        return true;
    }
    match &entry.notes {
        Some(notes) => contains_chars(&lowercase_chars(notes.as_str()), query),
        None => false,
    }
}

/// The session's entries that turn up in a search for `query`, in order:
/// those whose site, username or notes contain the query, ignoring case.
pub fn filter_entries<'a>(session: &'a VaultSession, query: &str) -> (found: Vec<&'a Entry>)
    ensures
        found@.map_values(|e: &Entry| *e) == search_results(session.entries@, query@),
        query@.len() == 0 ==> found@.map_values(|e: &Entry| *e) == session.entries@,
{
    let lowered = lowercase_chars(query);
    let entries = &session.entries;
    let mut found: Vec<&'a Entry> = Vec::new();
    let mut i: usize = 0;
    while i < entries.len()
        invariant
            i <= entries.len(),
            entries@ == session.entries@,
            lowered@ == unicode_lowercase(query@),
            query@.len() == 0 ==> lowered@.len() == 0,
            found@.map_values(|e: &Entry| *e) == search_results(entries@.take(i as int), query@),
            query@.len() == 0 ==> found@.map_values(|e: &Entry| *e) == entries@.take(i as int),
        decreases entries.len() - i,
    {
        let entry = &entries[i];
        let keep = entry_matches_lowered(entry, &lowered, Ghost(query@));
        proof {
            if query@.len() == 0 {
                let site = unicode_lowercase(entry.site@);
                assert(site.subrange(0, 0) =~= unicode_lowercase(query@));
                assert(occurs_at(site, unicode_lowercase(query@), 0));
            }
            reveal(Seq::filter);
            assert(entries@.take(i + 1).drop_last() =~= entries@.take(i as int));
        }
        if keep {
            found.push(entry);
        }
        assert(found@.map_values(|e: &Entry| *e) =~= search_results(entries@.take(i + 1), query@));
        assert(query@.len() == 0 ==> found@.map_values(|e: &Entry| *e) =~= entries@.take(i + 1));
        i = i + 1;
    }
    assert(entries@.take(entries.len() as int) =~= entries@);
    found
}

/// The message for an empty master password at unlock.
pub open spec fn empty_password_message() -> Seq<char> {
    "A senha não pode estar vazia."@
}

/// What the unlock screen says of a failure to open or create the vault.
pub open spec fn unlock_failure_message(error: VaultError) -> Seq<char> {
    match error {
        VaultError::WeakPassword(m) => m@,
        VaultError::WrongPassword => "Senha incorreta."@,
        VaultError::EntryNotFound => "Entrada não encontrada."@,
        VaultError::Io(_) => "Erro de acesso ao cofre."@,
        VaultError::Serialization(_) => "Arquivo do cofre corrompido."@,
    }
}

/// The message of the change form for a field left empty.
pub open spec fn empty_fields_message() -> Seq<char> {
    "Preencha todos os campos."@
}

/// The message of the change form for a confirmation that differs.
pub open spec fn mismatch_message() -> Seq<char> {
    "As senhas não conferem."@
}

/// What the master password change form says of a failed change.
pub open spec fn change_failure_message(error: VaultError) -> Seq<char> {
    match error {
        VaultError::WrongPassword => "Senha atual incorreta."@,
        VaultError::WeakPassword(m) => m@,
        _ => "Não foi possível trocar a senha mestra."@,
    }
}

/// The verdict of the change form on the current, new and confirmed
/// passwords, in the order the form checks them; `None` where the change
/// may go ahead.
pub open spec fn change_form_verdict(current: Seq<char>, new: &str, confirm: Seq<char>) -> Option<Seq<char>> {
    if current.len() == 0 || new@.len() == 0 || confirm.len() == 0 {
        Some(empty_fields_message())
    } else if new@ != confirm {
        Some(mismatch_message())
    } else {
        master_password_weakness(new)
    }
}

/// The change form lets a change go ahead only where the confirmation
/// repeats the new password character for character, every field is filled
/// and the new password is acceptable; where the filled-in confirmation
/// differs in any character (case included), it answers "As senhas não
/// conferem.". `r` is any outcome the form's check may give.
pub proof fn law_change_form_needs_exact_confirmation(
    current: &str,
    new: &str,
    confirm: &str,
    r: Result<(), String>,
)
    requires
        match r {
            Ok(()) => change_form_verdict(current@, new, confirm@) is None,
            Err(m) => change_form_verdict(current@, new, confirm@) == Some(m@),
        },
    ensures
        r is Ok ==> {
            &&& current@.len() > 0
            &&& new@.len() > 0
            &&& new@ == confirm@
            &&& master_password_weakness(new) is None
        },
        (current@.len() > 0 && new@.len() > 0 && confirm@.len() > 0 && new@ != confirm@) ==> (r matches Err(m)
            && m@ == "As senhas não conferem."@),
{
}

/// Checks the master password typed at unlock: it may not be empty.
pub fn check_unlock_password(password: &str) -> (r: Result<(), String>)
    ensures
        r is Ok <==> password@.len() > 0,
        r matches Err(m) ==> m@ == empty_password_message(),
{
    if password.is_empty() {
        Err(String::from_str("A senha não pode estar vazia."))
    } else {
        Ok(())
    }
}

/// What the unlock screen shows for `error`.
pub fn unlock_error_message(error: &VaultError) -> (m: String)
    ensures
        m@ == unlock_failure_message(*error),
{
    match error {
        VaultError::WeakPassword(message) => message.clone(),
        VaultError::WrongPassword => String::from_str("Senha incorreta."),
        VaultError::EntryNotFound => String::from_str("Entrada não encontrada."),
        VaultError::Io(_) => String::from_str("Erro de acesso ao cofre."),
        VaultError::Serialization(_) => String::from_str("Arquivo do cofre corrompido."),
    }
}

/// Checks the master password change form: every field filled, the new
/// password confirmed, and the new password acceptable; otherwise the
/// message to show.
pub fn check_password_change_form(current: &str, new: &str, confirm: &str) -> (r: Result<(), String>)
    ensures
        match r {
            Ok(()) => change_form_verdict(current@, new, confirm@) is None,
            Err(m) => change_form_verdict(current@, new, confirm@) == Some(m@),
        },
        r is Ok ==> current@.len() > 0 && new@ == confirm@ && master_password_weakness(new) is None,
        (current@.len() > 0 && new@.len() > 0 && confirm@.len() > 0 && new@ != confirm@) ==> (r matches Err(m)
            && m@ == "As senhas não conferem."@),
{
    if current.is_empty() || new.is_empty() || confirm.is_empty() {
        return Err(String::from_str("Preencha todos os campos."));
    }
    if !same_text(new, confirm) {
        return Err(String::from_str("As senhas não conferem."));
    }
    match validate_master_password(new) {
        Ok(()) => Ok(()),
        Err(VaultError::WeakPassword(message)) => Err(message),
        Err(_) => Err(String::from_str("Senha inválida.")),
    }
}

/// What the change form shows when the change itself failed with `error`.
pub fn change_error_message(error: &VaultError) -> (m: String)
    ensures
        m@ == change_failure_message(*error),
{
    match error {
        VaultError::WrongPassword => String::from_str("Senha atual incorreta."),
        VaultError::WeakPassword(message) => message.clone(),
        _ => String::from_str("Não foi possível trocar a senha mestra."),
    }
}

/// The entry that the entry form saves: the given id and fields, with the
/// notes always present.
pub open spec fn form_entry(id: u128, site: String, username: String, password: String, notes: String) -> Entry {
    Entry { id, site, username, password, notes: Some(notes) }
}

/// Saves what the entry form holds into `session`: where the form edits the
/// entry `existing_id`, that entry is replaced as `update_entry` does; where
/// it creates one, a new entry with a fresh random id is added at the end.
pub fn save_entry_form(
    session: &mut VaultSession,
    existing_id: Option<u128>,
    site: String,
    username: String,
    password: String,
    notes: String,
) -> (r: Result<(), VaultError>)
    ensures
        final(session).key == old(session).key,
        final(session).salt == old(session).salt,
        match existing_id {
            Some(id) => {
                &&& r is Ok <==> has_entry_id(old(session).entries@, id)
                &&& r is Ok ==> final(session).entries@ == old(session).entries@.update(
                    first_index_of_id(old(session).entries@, id),
                    form_entry(id, site, username, password, notes),
                )
                &&& r matches Err(e) ==> e is EntryNotFound && final(session).entries@ == old(session).entries@
            },
            None => {
                &&& r is Ok
                &&& final(session).entries@.len() == old(session).entries@.len() + 1
                &&& final(session).entries@.drop_last() == old(session).entries@
                &&& is_random_uuid_value(final(session).entries@.last().id)
                &&& final(session).entries@.last() == form_entry(
                    final(session).entries@.last().id,
                    site,
                    username,
                    password,
                    notes,
                )
            },
        },
{
    match existing_id {
        Some(id) => {
            let updated = Entry { id, site, username, password, notes: Some(notes) };
            update_entry(session, updated)
        },
        None => {
            let id = new_entry_id();
            let entry = Entry { id, site, username, password, notes: Some(notes) };
            add_entry(session, entry);
            assert(session.entries@.drop_last() =~= old(session).entries@);
            Ok(())
        },
    }
}

/// Whether the clipboard, read back once the copy has timed out, still holds
/// the copied text (and so is to be cleared).
pub fn clipboard_still_holds(current: Option<&str>, copied: &str) -> (r: bool)
    ensures
        r == (current matches Some(text) && text@ == copied@),
{
    match current {
        Some(text) => same_text(text, copied),
        None => false,
    }
}

/// Whether two entries agree on what a search reads: site, username and
/// notes.
pub open spec fn same_searchable_fields(a: Entry, b: Entry) -> bool {
    &&& a.site == b.site
    &&& a.username == b.username
    &&& a.notes == b.notes
}

/// A search never reads passwords or ids: two lists of entries that agree,
/// position by position, on site, username and notes give the same answer
/// for every entry and the same number of results, whatever their passwords.
pub proof fn law_search_ignores_passwords(a: Seq<Entry>, b: Seq<Entry>, query: Seq<char>)
    requires
        a.len() == b.len(),
        forall|i: int| 0 <= i < a.len() ==> same_searchable_fields(#[trigger] a[i], b[i]),
    ensures
        forall|i: int| 0 <= i < a.len() ==> entry_matches(#[trigger] a[i], query) == entry_matches(b[i], query),
        search_results(a, query).len() == search_results(b, query).len(),
    decreases a.len(),
{
    reveal(Seq::filter);
    if a.len() > 0 {
        let last = (a.len() - 1) as int;
        assert(same_searchable_fields(a[last], b[last]));
        assert forall|i: int| 0 <= i < a.drop_last().len() implies same_searchable_fields(
            #[trigger] a.drop_last()[i],
            b.drop_last()[i],
        ) by {
            assert(same_searchable_fields(a[i], b[i]));
        }
        law_search_ignores_passwords(a.drop_last(), b.drop_last(), query);
    }
}

} // verus!
