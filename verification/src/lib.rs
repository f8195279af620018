//! A password vault: entries sealed under a key derived from a master
//! password, with the rules for master passwords, entry bookkeeping and
//! password generation stated and proved.

pub mod crypto;
pub mod password_gen;
pub mod state;
pub mod text;
pub mod vault;
