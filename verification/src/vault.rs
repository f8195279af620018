//! The vault: its entries, its sealed file form, the rules for master
//! passwords, and the operations on an open session.
use crate::crypto::{
    aes256gcm_open, aes256gcm_seal, argon2_accepts, argon2_default_key, decrypt, derive_key, encrypt,
    generate_salt, ARGON2_MAX_INPUT_LEN, MAX_PLAINTEXT_LEN, SALT_LEN,
};
use crate::text::{
    char_is_alphanumeric, char_is_lowercase, char_is_uppercase, chars_of,
    contains_chars, is_ascii_digit, is_substring, unicode_is_alphanumeric,
    unicode_is_lowercase, unicode_is_uppercase,
};
use vstd::prelude::*;
use zeroize::Zeroize;
use vstd::slice::slice_to_vec;
use vstd::string::StringExecFns;
use vstd::string::StringSliceAdditionalSpecFns;

verus! {

#[verifier::external_type_specification]
#[verifier::external_body]
pub struct ExIoError(std::io::Error);

#[verifier::external_type_specification]
#[verifier::external_body]
pub struct ExJsonError(serde_json::Error);

/// Why a vault operation failed.
#[derive(Debug)]
pub enum VaultError {
    /// The master password does not open the vault.
    WrongPassword,
    /// The proposed master password breaks a rule; the text says which.
    WeakPassword(String),
    /// No entry has the requested id.
    EntryNotFound,
    /// Reading or writing the vault file failed.
    Io(std::io::Error),
    /// The vault file or its contents are not well-formed.
    Serialization(serde_json::Error),
}

/// Fewest characters in an acceptable master password.
pub const MIN_MASTER_PASSWORD_LEN: usize = 12;

/// Number of common words that a master password may not contain.
pub const COMMON_WORD_COUNT: usize = 8;

/// The message for a master password shorter than the minimum.
pub open spec fn too_short_message() -> Seq<char> {
    "A senha deve ter pelo menos 12 caracteres."@
}

/// The message for a master password that lacks a class of characters.
pub open spec fn missing_class_message() -> Seq<char> {
    "A senha deve conter maiúscula, minúscula, número e símbolo."@
}

/// The message for a master password that contains a common word.
pub open spec fn common_word_message() -> Seq<char> {
    "A senha não pode conter palavras ou sequências comuns."@
}

/// The words and sequences that a master password may not contain.
pub open spec fn common_words() -> Seq<Seq<char>> {
    seq![
        "123456"@,
        "12345678"@,
        "password"@,
        "senha"@,
        "qwerty"@,
        "admin"@,
        "teste"@,
        "welcome"@,
    ]
}

/// Whether some character of `s` is uppercase.
pub open spec fn has_uppercase(s: Seq<char>) -> bool {
    exists|i: int| 0 <= i < s.len() && unicode_is_uppercase(#[trigger] s[i])
}

/// Whether some character of `s` is lowercase.
pub open spec fn has_lowercase(s: Seq<char>) -> bool {
    exists|i: int| 0 <= i < s.len() && unicode_is_lowercase(#[trigger] s[i])
}

/// Whether some character of `s` is an ASCII digit.
pub open spec fn has_ascii_digit(s: Seq<char>) -> bool {
    exists|i: int| 0 <= i < s.len() && is_ascii_digit(#[trigger] s[i])
}

/// Whether some character of `s` is neither alphabetic nor numeric.
pub open spec fn has_symbol(s: Seq<char>) -> bool {
    exists|i: int| 0 <= i < s.len() && !unicode_is_alphanumeric(#[trigger] s[i])
}

/// Whether `s` contains one of the common words. The search is
/// case-sensitive: the words are lowercase, and only their lowercase
/// spelling counts.
pub open spec fn contains_common_word(s: Seq<char>) -> bool {
    exists|k: int| 0 <= k < common_words().len() && is_substring(#[trigger] common_words()[k], s)
}

/// The rule that a password breaks, as its message, given its length in
/// characters, whether it has each class of characters, and its characters; the
/// rules are checked in this order. `None` where it breaks none.
pub open spec fn rules_verdict(
    char_len: int,
    upper: bool,
    lower: bool,
    digit: bool,
    symbol: bool,
    chars: Seq<char>,
) -> Option<Seq<char>> {
    if char_len < MIN_MASTER_PASSWORD_LEN {
        Some(too_short_message())
    } else if !(upper && lower && digit && symbol) {
        Some(missing_class_message())
    } else if contains_common_word(chars) {
        Some(common_word_message())
    } else {
        None
    }
}

/// The rule that the master password `p` breaks, as its message; `None`
/// where `p` is acceptable.
pub open spec fn master_password_weakness(p: &str) -> Option<Seq<char>> {
    rules_verdict(
        p@.len() as int,
        has_uppercase(p@),
        has_lowercase(p@),
        has_ascii_digit(p@),
        has_symbol(p@),
        p@,
    )
}

/// Whether `r` reports exactly `weakness`: `Ok` where it is `None`, the
/// message of a `WeakPassword` error where it is `Some`.
pub open spec fn reports_weakness(r: Result<(), VaultError>, weakness: Option<Seq<char>>) -> bool {
    match r {
        Ok(()) => weakness is None,
        Err(VaultError::WeakPassword(m)) => weakness == Some(m@),
        Err(_) => false,
    }
}

fn too_short_text() -> (s: String)
    ensures
        s@ == too_short_message(),
{
    String::from_str("A senha deve ter pelo menos 12 caracteres.")
}

fn missing_class_text() -> (s: String)
    ensures
        s@ == missing_class_message(),
{
    String::from_str("A senha deve conter maiúscula, minúscula, número e símbolo.")
}

fn common_word_text() -> (s: String)
    ensures
        s@ == common_word_message(),
{
    String::from_str("A senha não pode conter palavras ou sequências comuns.")
}

/// The `k`-th common word.
fn common_word(k: usize) -> (w: &'static str)
    requires
        k < COMMON_WORD_COUNT,
    ensures
        w@ == common_words()[k as int],
{
    match k {
        0 => "123456",
        1 => "12345678",
        2 => "password",
        3 => "senha",
        4 => "qwerty",
        5 => "admin",
        6 => "teste",
        _ => "welcome",
    }
}

/// Whether `chars` contains a common word.
pub fn has_common_word(chars: &Vec<char>) -> (r: bool)
    ensures
        r == contains_common_word(chars@),
        r <==> exists|k: int| 0 <= k < COMMON_WORD_COUNT && is_substring(#[trigger] common_words()[k], chars@),
        !r ==> forall|k: int| 0 <= k < COMMON_WORD_COUNT ==> !is_substring(#[trigger] common_words()[k], chars@),
{
    let mut k: usize = 0;
    while k < COMMON_WORD_COUNT
        invariant
            k <= COMMON_WORD_COUNT,
            forall|j: int| 0 <= j < k ==> !is_substring(#[trigger] common_words()[j], chars@),
        decreases COMMON_WORD_COUNT - k,
    {
        let word = chars_of(common_word(k));
        if contains_chars(chars, &word) {
            return true;
        }
        k = k + 1;
    }
    false
}

/// Decides a proposed master password from its length in characters, whether it
/// has an uppercase letter, a lowercase letter, an ASCII digit and a symbol,
/// and its characters.
pub fn check_password_rules(
    char_len: usize,
    upper: bool,
    lower: bool,
    digit: bool,
    symbol: bool,
    chars: &Vec<char>,
) -> (r: Result<(), VaultError>)
    ensures
        reports_weakness(r, rules_verdict(char_len as int, upper, lower, digit, symbol, chars@)),
        r is Ok ==> char_len >= MIN_MASTER_PASSWORD_LEN && upper && lower && digit && symbol,
        r is Ok ==> forall|k: int| 0 <= k < COMMON_WORD_COUNT ==> !is_substring(#[trigger] common_words()[k], chars@),
{
    if char_len < MIN_MASTER_PASSWORD_LEN {
        return Err(VaultError::WeakPassword(too_short_text()));
    }
    if !(upper && lower && digit && symbol) {
        return Err(VaultError::WeakPassword(missing_class_text()));
    }
    if has_common_word(chars) {
        return Err(VaultError::WeakPassword(common_word_text()));
    }
    Ok(())
}

/// Checks that `password` may serve as a master password: at least 12 characters,
/// with an uppercase letter, a lowercase letter, an ASCII digit and a symbol,
/// and no common word. Otherwise a `WeakPassword` error
/// names the first rule broken.
pub fn validate_master_password(password: &str) -> (r: Result<(), VaultError>)
    ensures
        reports_weakness(r, master_password_weakness(password)),
        r is Ok ==> password@.len() >= MIN_MASTER_PASSWORD_LEN,
        r is Ok ==> forall|k: int| 0 <= k < COMMON_WORD_COUNT ==> !is_substring(#[trigger] common_words()[k], password@),
{
    let chars = chars_of(password);
    let mut upper = false;
    let mut lower = false;
    let mut digit = false;
    let mut symbol = false;
    let mut i: usize = 0;
    while i < chars.len()
        invariant
            i <= chars.len(),
            chars@ == password@,
            upper == has_uppercase(chars@.take(i as int)),
            lower == has_lowercase(chars@.take(i as int)),
            digit == has_ascii_digit(chars@.take(i as int)),
            symbol == has_symbol(chars@.take(i as int)),
        decreases chars.len() - i,
    {
        let c = chars[i];
        let ghost prefix = chars@.take(i as int);
        let ghost next = chars@.take(i + 1);
        assert(next =~= prefix.push(c));
        if char_is_uppercase(c) {
            upper = true;
            assert(next[i as int] == c);
        }
        if char_is_lowercase(c) {
            lower = true;
            assert(next[i as int] == c);
        }
        if '0' <= c && c <= '9' {
            digit = true;
            assert(next[i as int] == c);
        }
        if !char_is_alphanumeric(c) {
            symbol = true;
            assert(next[i as int] == c);
        }
        assert(forall|j: int| 0 <= j < i ==> next[j] == prefix[j]);
        i = i + 1;
    }
    assert(chars@.take(chars.len() as int) =~= chars@);
    check_password_rules(chars.len(), upper, lower, digit, symbol, &chars)
}

/// One stored credential.
#[derive(Clone)]
pub struct Entry {
    /// The entry's identifier (the 128-bit value of a UUID).
    pub id: u128,
    pub site: String,
    pub username: String,
    pub password: String,
    pub notes: Option<String>,
}

/// The vault as it is stored: the salt of the key derivation, the nonce and
/// the AES-GCM ciphertext of the serialized entries.
pub struct VaultFile {
    pub salt: Vec<u8>,
    pub nonce: [u8; 12],
    pub ciphertext: Vec<u8>,
}

/// An open vault: the derived key, the salt it was derived with, and the
/// entries in the clear.
pub struct VaultSession {
    pub key: [u8; 32],
    pub salt: Vec<u8>,
    pub entries: Vec<Entry>,
}

/// A vault file opened with its password: the key, the salt, and the
/// serialized entries in the clear.
pub struct UnsealedVault {
    pub key: [u8; 32],
    pub salt: Vec<u8>,
    pub plaintext: Vec<u8>,
}

/// What the vault file `file` holds in the clear when opened with
/// `password`; `None` where the password does not authenticate it.
pub open spec fn vault_contents(password: Seq<u8>, file: VaultFile) -> Option<Seq<u8>> {
    aes256gcm_open(argon2_default_key(password, file.salt@), file.nonce@, file.ciphertext@)
}

/// Whether `file` and `key` are a sealing of `plaintext` under `password`:
/// the key is derived from the password and the file's salt, and the
/// ciphertext is the plaintext encrypted under that key and the file's nonce.
pub open spec fn sealed_under(password: Seq<u8>, plaintext: Seq<u8>, key: Seq<u8>, file: VaultFile) -> bool {
    &&& file.salt@.len() == SALT_LEN
    &&& key == argon2_default_key(password, file.salt@)
    &&& file.ciphertext@ == aes256gcm_seal(key, file.nonce@, plaintext)
    &&& aes256gcm_open(key, file.nonce@, file.ciphertext@) == Some(plaintext)
}

/// The serialized form of an empty list of entries: the JSON text `[]`.
pub open spec fn empty_entries_text() -> Seq<u8> {
    seq![0x5bu8, 0x5du8]
}

fn empty_entries_bytes() -> (v: Vec<u8>)
    ensures
        v@ == empty_entries_text(),
{
    let v: Vec<u8> = vec![0x5bu8, 0x5du8];
    assert(v@ =~= empty_entries_text());
    v
}

/// Seals `plaintext` under `password`: a fresh salt, the key derived from
/// the password and that salt, and the plaintext encrypted under that key
/// with a fresh nonce. Returns the key and the vault file.
pub fn seal_with_password(password: &[u8], plaintext: &[u8]) -> (sealed: ([u8; 32], VaultFile))
    requires
        password@.len() <= ARGON2_MAX_INPUT_LEN,
        plaintext@.len() <= MAX_PLAINTEXT_LEN,
    ensures
        sealed_under(password@, plaintext@, sealed.0@, sealed.1),
        vault_contents(password@, sealed.1) == Some(plaintext@),
{
    let salt_array = generate_salt();
    let salt = slice_to_vec(salt_array.as_slice());
    let key = derive_key(password, salt.as_slice());
    let (nonce, ciphertext) = encrypt(&key, plaintext);
    (key, VaultFile { salt, nonce, ciphertext })
}

/// Creates a vault with no entries under `password`: the open session and
/// the file to store.
pub fn create_new_vault(password: &[u8]) -> (created: (VaultSession, VaultFile))
    requires
        password@.len() <= ARGON2_MAX_INPUT_LEN,
    ensures
        created.0.entries@.len() == 0,
        created.0.salt@ == created.1.salt@,
        sealed_under(password@, empty_entries_text(), created.0.key@, created.1),
        vault_contents(password@, created.1) == Some(empty_entries_text()),
{
    let plaintext = empty_entries_bytes();
    let (key, vault_file) = seal_with_password(password, plaintext.as_slice());
    let salt = slice_to_vec(vault_file.salt.as_slice());
    let session = VaultSession { key, salt, entries: Vec::new() };
    (session, vault_file)
}

/// Opens `vault_file` with `password`: derives the key from the password and
/// the file's salt and decrypts the contents. Fails with `WrongPassword`
/// exactly where the ciphertext does not authenticate under that key.
pub fn open_vault(password: &[u8], vault_file: VaultFile) -> (r: Result<UnsealedVault, VaultError>)
    requires
        argon2_accepts(password@, vault_file.salt@),
    ensures
        r is Ok <==> vault_contents(password@, vault_file) is Some,
        r matches Ok(u) ==> {
            &&& u.key@ == argon2_default_key(password@, vault_file.salt@)
            &&& u.salt@ == vault_file.salt@
            &&& vault_contents(password@, vault_file) == Some(u.plaintext@)
        },
        r matches Err(e) ==> e is WrongPassword,
{
    let key = derive_key(password, vault_file.salt.as_slice());
    match decrypt(&key, &vault_file.nonce, vault_file.ciphertext.as_slice()) {
        Ok(plaintext) => Ok(UnsealedVault { key, salt: vault_file.salt, plaintext }),
        Err(_) => Err(VaultError::WrongPassword),
    }
}

/// How a vault is started from what was read at its path.
pub enum VaultStart {
    /// A stored vault was read: open it with the password.
    OpenStored,
    /// Nothing (or nothing readable, or an empty file) is stored: create a
    /// new vault under the password.
    CreateNew,
}

/// Decides how to start the vault, given what reading its file gave
/// (`None` where the read failed) and the master password typed: a
/// non-empty stored file is opened without a strength check; otherwise the
/// password must pass `validate_master_password` before a vault is created.
pub fn choose_vault_start(stored: Option<&[u8]>, password: &str) -> (r: Result<VaultStart, VaultError>)
    ensures
        (stored matches Some(bytes) && bytes@.len() > 0) ==> r matches Ok(VaultStart::OpenStored),
        !(stored matches Some(bytes) && bytes@.len() > 0) ==> match r {
            Ok(VaultStart::CreateNew) => master_password_weakness(password) is None,
            Ok(VaultStart::OpenStored) => false,
            Err(VaultError::WeakPassword(m)) => master_password_weakness(password) == Some(m@),
            Err(_) => false,
        },
{
    match stored {
        Some(bytes) => {
            if bytes.len() > 0 {
                return Ok(VaultStart::OpenStored);
            }
        },
        None => {},
    }
    match validate_master_password(password) {
        Ok(()) => Ok(VaultStart::CreateNew),
        Err(e) => Err(e),
    }
}

/// A copy of `file`.
fn copy_vault_file(file: &VaultFile) -> (copy: VaultFile)
    ensures
        copy.salt@ == file.salt@,
        copy.nonce@ == file.nonce@,
        copy.ciphertext@ == file.ciphertext@,
{
    VaultFile {
        salt: slice_to_vec(file.salt.as_slice()),
        nonce: file.nonce,
        ciphertext: slice_to_vec(file.ciphertext.as_slice()),
    }
}

/// Changes the master password of the stored vault `vault_file`: the new
/// password must pass the master password rules, the current password must
/// open the file, and then `plaintext` (the entries, serialized again) is
/// sealed under the new password with a fresh salt and nonce. Returns the
/// new file.
pub fn change_master_password(
    vault_file: &VaultFile,
    current_password: &str,
    new_password: &str,
    plaintext: &[u8],
) -> (r: Result<VaultFile, VaultError>)
    requires
        argon2_accepts(current_password.spec_bytes(), vault_file.salt@),
        new_password.spec_bytes().len() <= ARGON2_MAX_INPUT_LEN,
        plaintext@.len() <= MAX_PLAINTEXT_LEN,
    ensures
        match master_password_weakness(new_password) {
            Some(m) => r matches Err(VaultError::WeakPassword(w)) && w@ == m,
            None => match vault_contents(current_password.spec_bytes(), *vault_file) {
                None => r matches Err(e) && e is WrongPassword,
                Some(_) => r matches Ok(f) && {
                    &&& f.salt@.len() == SALT_LEN
                    &&& vault_contents(new_password.spec_bytes(), f) == Some(plaintext@)
                },
            },
        },
{
    validate_master_password(new_password)?;
    let stored = copy_vault_file(vault_file);
    let mut unsealed = open_vault(current_password.as_bytes(), stored)?;
    zeroize_key(&mut unsealed.key);
    let (_key, resealed) = seal_with_password(new_password.as_bytes(), plaintext);
    Ok(resealed)
}

/// Seals the serialized entries `plaintext` of `session` under the
/// session's key and salt, with a fresh nonce.
pub fn save_vault(session: &VaultSession, plaintext: &[u8]) -> (file: VaultFile)
    requires
        plaintext@.len() <= MAX_PLAINTEXT_LEN,
    ensures
        file.salt@ == session.salt@,
        file.ciphertext@ == aes256gcm_seal(session.key@, file.nonce@, plaintext@),
        aes256gcm_open(session.key@, file.nonce@, file.ciphertext@) == Some(plaintext@),
{
    let (nonce, ciphertext) = encrypt(&session.key, plaintext);
    let salt = slice_to_vec(session.salt.as_slice());
    VaultFile { salt, nonce, ciphertext }
}

/// Whether `i` is the first position in `entries` whose entry has `id`.
pub open spec fn is_first_with_id(entries: Seq<Entry>, id: u128, i: int) -> bool {
    &&& 0 <= i < entries.len()
    &&& entries[i].id == id
    &&& forall|j: int| 0 <= j < i ==> (#[trigger] entries[j]).id != id
}

/// Whether some entry in `entries` has `id`.
pub open spec fn has_entry_id(entries: Seq<Entry>, id: u128) -> bool {
    exists|i: int| 0 <= i < entries.len() && (#[trigger] entries[i]).id == id
}

/// The first position in `entries` whose entry has `id` (meaningful where
/// `has_entry_id(entries, id)`).
pub open spec fn first_index_of_id(entries: Seq<Entry>, id: u128) -> int {
    choose|i: int| is_first_with_id(entries, id, i)
}

/// Where some entry has `id`, `first_index_of_id` is the first such position.
pub proof fn lemma_first_index_of_id(entries: Seq<Entry>, id: u128)
    requires
        has_entry_id(entries, id),
    ensures
        is_first_with_id(entries, id, first_index_of_id(entries, id)),
{
    let i = choose|i: int| 0 <= i < entries.len() && (#[trigger] entries[i]).id == id;
    lemma_first_with_id_below(entries, id, i);
}

proof fn lemma_first_with_id_below(entries: Seq<Entry>, id: u128, i: int)
    requires
        0 <= i < entries.len(),
        entries[i].id == id,
    ensures
        exists|k: int| is_first_with_id(entries, id, k),
    decreases i,
{
    if forall|j: int| 0 <= j < i ==> (#[trigger] entries[j]).id != id {
        assert(is_first_with_id(entries, id, i));
    } else {
        let j = choose|j: int| 0 <= j < i && (#[trigger] entries[j]).id == id;
        lemma_first_with_id_below(entries, id, j);
    }
}

/// A first position with `id` is unique.
proof fn lemma_first_with_id_unique(entries: Seq<Entry>, id: u128, i: int, k: int)
    requires
        is_first_with_id(entries, id, i),
        is_first_with_id(entries, id, k),
    ensures
        i == k,
{
    if i < k {
        assert(entries[i].id != id);
    } else if k < i {
        assert(entries[k].id != id);
    }
}

/// The position of the first entry with `id`, if any.
fn position_of_id(entries: &Vec<Entry>, id: u128) -> (r: Option<usize>)
    ensures
        r is Some <==> has_entry_id(entries@, id),
        r matches Some(i) ==> i == first_index_of_id(entries@, id) && is_first_with_id(entries@, id, i as int),
{
    let mut i: usize = 0;
    while i < entries.len()
        invariant
            i <= entries.len(),
            forall|j: int| 0 <= j < i ==> (#[trigger] entries@[j]).id != id,
        decreases entries.len() - i,
    {
        if entries[i].id == id {
            proof {
                assert(is_first_with_id(entries@, id, i as int));
                lemma_first_with_id_unique(entries@, id, i as int, first_index_of_id(entries@, id));
            }
            return Some(i);
        }
        i = i + 1;
    }
    None
}

/// Whether `id` has the shape of a random (version 4, RFC 4122 variant)
/// UUID: version nibble 4 and variant bits `10`.
pub open spec fn is_random_uuid_value(id: u128) -> bool {
    id & 0xF000_C000_0000_0000_0000u128 == 0x4000_8000_0000_0000_0000u128
}

/// A random entry id can never be the nil id 0.
pub proof fn law_random_entry_id_is_not_nil(id: u128)
    requires
        is_random_uuid_value(id),
    ensures
        id != 0,
{
    assert(id & 0xF000_C000_0000_0000_0000u128 == 0x4000_8000_0000_0000_0000u128 ==> id != 0)
        by (bit_vector);
}

/// A fresh random entry id: `Uuid::new_v4()` of `uuid`, taken as its
/// 128-bit value (`as_u128`). The bits come from chance; the only claim is
/// the one `new_v4` makes of every outcome: it masks in version 4 and the
/// RFC 4122 variant.
#[verifier::external_body]
pub(crate) fn new_entry_id() -> (id: u128)
    ensures
        is_random_uuid_value(id),
{
    uuid::Uuid::new_v4().as_u128()
}

/// Adds `entry` at the end of the session's entries.
pub fn add_entry(session: &mut VaultSession, entry: Entry)
    ensures
        final(session).entries@ == old(session).entries@.push(entry),
        final(session).key == old(session).key,
        final(session).salt == old(session).salt,
{
    session.entries.push(entry);
}

/// Replaces the first entry whose id is `updated.id` by `updated`; fails
/// with `EntryNotFound`, changing nothing, where no entry has that id.
pub fn update_entry(session: &mut VaultSession, updated: Entry) -> (r: Result<(), VaultError>)
    ensures
        r is Ok <==> has_entry_id(old(session).entries@, updated.id),
        r is Ok ==> final(session).entries@ == old(session).entries@.update(
            first_index_of_id(old(session).entries@, updated.id),
            updated,
        ),
        r matches Err(e) ==> e is EntryNotFound && final(session).entries@ == old(session).entries@,
        final(session).key == old(session).key,
        final(session).salt == old(session).salt,
{
    match position_of_id(&session.entries, updated.id) {
        Some(index) => {
            session.entries.set(index, updated);
            Ok(())
        },
        None => Err(VaultError::EntryNotFound),
    }
}

/// Removes the first entry with `id`; fails with `EntryNotFound`, changing
/// nothing, where no entry has that id.
pub fn remove_entry(session: &mut VaultSession, id: u128) -> (r: Result<(), VaultError>)
    ensures
        r is Ok <==> has_entry_id(old(session).entries@, id),
        r is Ok ==> final(session).entries@ == old(session).entries@.remove(
            first_index_of_id(old(session).entries@, id),
        ),
        r matches Err(e) ==> e is EntryNotFound && final(session).entries@ == old(session).entries@,
        final(session).key == old(session).key,
        final(session).salt == old(session).salt,
{
    match position_of_id(&session.entries, id) {
        Some(index) => {
            session.entries.remove(index);
            Ok(())
        },
        None => Err(VaultError::EntryNotFound),
    }
}

/// The first entry with `id`, if any.
pub fn find_entry(session: &VaultSession, id: u128) -> (r: Option<&Entry>)
    ensures
        r is Some <==> has_entry_id(session.entries@, id),
        r matches Some(e) ==> *e == session.entries@[first_index_of_id(session.entries@, id)],
{
    match position_of_id(&session.entries, id) {
        Some(index) => Some(&session.entries[index]),
        None => None,
    }
}

/// `<String as Zeroize>::zeroize` of `zeroize`: overwrites the text's bytes
/// with zeros and empties it. Claims only that the text is empty afterwards.
#[verifier::external_body]
fn zeroize_text(text: &mut String)
    ensures
        final(text)@ == Seq::<char>::empty(),
{
    text.zeroize();
}

/// `<[u8; 32] as Zeroize>::zeroize` of `zeroize`: sets every byte to zero.
#[verifier::external_body]
fn zeroize_key(key: &mut [u8; 32])
    ensures
        final(key)@ == Seq::new(32, |i: int| 0u8),
{
    key.zeroize();
}

/// Whether `after` is `before` with its secrets wiped: same id, site and
/// username, an empty password, and empty notes where it had notes.
pub open spec fn wiped(before: Entry, after: Entry) -> bool {
    &&& after.id == before.id
    &&& after.site == before.site
    &&& after.username == before.username
    &&& after.password@ == Seq::<char>::empty()
    &&& match before.notes {
        Some(_) => after.notes matches Some(n) && n@ == Seq::<char>::empty(),
        None => after.notes is None,
    }
}

/// Wipes the secrets of `entry`.
fn wipe_entry(entry: &mut Entry)
    ensures
        wiped(*old(entry), *final(entry)),
{
    zeroize_text(&mut entry.password);
    match &mut entry.notes {
        Some(notes) => zeroize_text(notes),
        None => {},
    }
}

impl VaultSession {
    /// Overwrites the session's secrets: the key becomes all zeros, and each
    /// entry's password (and notes, where it has any) becomes empty. The
    /// salt, the number of entries and their ids, sites and usernames stay.
    pub fn clear_sensitive_data(&mut self)
        ensures
            final(self).key@ == Seq::new(32, |i: int| 0u8),
            final(self).salt == old(self).salt,
            final(self).entries@.len() == old(self).entries@.len(),
            forall|i: int|
                0 <= i < old(self).entries@.len() ==> wiped(
                    #[trigger] old(self).entries@[i],
                    final(self).entries@[i],
                ),
        {
        zeroize_key(&mut self.key);
        let n = self.entries.len();
        let mut i: usize = 0;
        while i < n
            invariant
                i <= n,
                n == old(self).entries@.len(),
                self.entries@.len() == n,
                self.key@ == Seq::new(32, |i: int| 0u8),
                self.salt == old(self).salt,
                forall|j: int| 0 <= j < i ==> wiped(#[trigger] old(self).entries@[j], self.entries@[j]),
                forall|j: int| i <= j < n ==> #[trigger] self.entries@[j] == old(self).entries@[j],
            decreases n - i,
        {
            wipe_entry(&mut self.entries[i]);
            i = i + 1;
        }
    }
}

/// A master password that `validate_master_password` accepts is at least 12
/// characters long, has an uppercase letter, a lowercase letter, an ASCII digit
/// and a symbol, and contains no common word.
pub proof fn law_accepted_master_password_is_strong(password: &str)
    requires
        master_password_weakness(password) is None,
    ensures
        password@.len() >= MIN_MASTER_PASSWORD_LEN,
        has_uppercase(password@),
        has_lowercase(password@),
        has_ascii_digit(password@),
        has_symbol(password@),
        !contains_common_word(password@),
{
}

/// No accepted master password contains any of the listed common words or
/// sequences: "123456", "12345678", "password", "senha", "qwerty", "admin",
/// "teste" or "welcome". `r` is any outcome that `validate_master_password`
/// may give for `password`.
pub proof fn law_accepted_password_contains_no_listed_word(password: &str, r: Result<(), VaultError>)
    requires
        reports_weakness(r, master_password_weakness(password)),
        r is Ok,
    ensures
        !is_substring("123456"@, password@),
        !is_substring("12345678"@, password@),
        !is_substring("password"@, password@),
        !is_substring("senha"@, password@),
        !is_substring("qwerty"@, password@),
        !is_substring("admin"@, password@),
        !is_substring("teste"@, password@),
        !is_substring("welcome"@, password@),
{
    assert(!contains_common_word(password@));
    assert(!is_substring(common_words()[0], password@));
    assert(!is_substring(common_words()[1], password@));
    assert(!is_substring(common_words()[2], password@));
    assert(!is_substring(common_words()[3], password@));
    assert(!is_substring(common_words()[4], password@));
    assert(!is_substring(common_words()[5], password@));
    assert(!is_substring(common_words()[6], password@));
    assert(!is_substring(common_words()[7], password@));
}

/// What is sealed under a password opens with that password: the key is the
/// one derived from the password and the file's salt, and the contents are
/// the sealed plaintext. (`seal_with_password` and `create_new_vault`
/// produce such files; `open_vault` opens them.)
pub proof fn law_sealed_vault_opens(password: Seq<u8>, plaintext: Seq<u8>, key: Seq<u8>, file: VaultFile)
    requires
        sealed_under(password, plaintext, key, file),
    ensures
        vault_contents(password, file) == Some(plaintext),
        key == argon2_default_key(password, file.salt@),
{
}

/// A session opened with a password, saved with `save_vault`, opens again
/// with the same password to what was saved.
pub proof fn law_saved_session_reopens(
    password: Seq<u8>,
    session: VaultSession,
    plaintext: Seq<u8>,
    file: VaultFile,
)
    requires
        session.key@ == argon2_default_key(password, session.salt@),
        file.salt@ == session.salt@,
        aes256gcm_open(session.key@, file.nonce@, file.ciphertext@) == Some(plaintext),
    ensures
        vault_contents(password, file) == Some(plaintext),
{
}

/// After adding an entry whose id no entry had, looking that id up finds the
/// added entry.
pub proof fn law_find_after_add(entries: Seq<Entry>, entry: Entry)
    requires
        !has_entry_id(entries, entry.id),
    ensures
        has_entry_id(entries.push(entry), entry.id),
        entries.push(entry)[first_index_of_id(entries.push(entry), entry.id)] == entry,
{
    let after = entries.push(entry);
    assert(after[entries.len() as int].id == entry.id);
    lemma_first_index_of_id(after, entry.id);
    let k = first_index_of_id(after, entry.id);
    if k < entries.len() {
        assert(entries[k].id == entry.id);
    }
}

/// After replacing the entry with an id, looking that id up finds the
/// replacement.
pub proof fn law_find_after_update(entries: Seq<Entry>, updated: Entry)
    requires
        has_entry_id(entries, updated.id),
    ensures
        ({
            let after = entries.update(first_index_of_id(entries, updated.id), updated);
            &&& has_entry_id(after, updated.id)
            &&& after[first_index_of_id(after, updated.id)] == updated
        }),
{
    lemma_first_index_of_id(entries, updated.id);
    let i = first_index_of_id(entries, updated.id);
    let after = entries.update(i, updated);
    assert(is_first_with_id(after, updated.id, i));
    lemma_first_index_of_id(after, updated.id);
    lemma_first_with_id_unique(after, updated.id, i, first_index_of_id(after, updated.id));
}

/// Adding an entry with a fresh id and then removing that id gives back the
/// entries as they were.
pub proof fn law_remove_undoes_add(entries: Seq<Entry>, entry: Entry)
    requires
        !has_entry_id(entries, entry.id),
    ensures
        entries.push(entry).remove(first_index_of_id(entries.push(entry), entry.id)) == entries,
{
    law_find_after_add(entries, entry);
    let after = entries.push(entry);
    lemma_first_index_of_id(after, entry.id);
    let k = first_index_of_id(after, entry.id);
    if k < entries.len() {
        assert(entries[k].id == entry.id);
    }
    assert(k == entries.len());
    assert(after.remove(k) =~= entries);
}

/// Where at most one entry has an id, removing that id leaves no entry with
/// it, and one entry fewer.
pub proof fn law_remove_leaves_no_entry_with_id(entries: Seq<Entry>, id: u128)
    requires
        has_entry_id(entries, id),
        forall|i: int, j: int|
            0 <= i < entries.len() && 0 <= j < entries.len() && #[trigger] entries[i].id == id
                && #[trigger] entries[j].id == id ==> i == j,
    ensures
        ({
            let after = entries.remove(first_index_of_id(entries, id));
            &&& !has_entry_id(after, id)
            &&& after.len() == entries.len() - 1
        }),
{
    lemma_first_index_of_id(entries, id);
    let k = first_index_of_id(entries, id);
    let after = entries.remove(k);
    if has_entry_id(after, id) {
        let j = choose|j: int| 0 <= j < after.len() && (#[trigger] after[j]).id == id;
        if j < k {
            assert(after[j] == entries[j]);
        } else {
            assert(after[j] == entries[j + 1]);
        }
    }
}

} // verus!
