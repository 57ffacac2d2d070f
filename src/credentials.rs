//! Where the account password comes from: the session keyring, or a prompt
//! on the terminal whose answer may be stored for the next run.

use vstd::prelude::*;

verus! {

/// What the session keyring gave when asked for the stored password.
#[derive(Debug)]
pub enum KeyringLookup {
    /// Connecting, opening the default collection or searching it failed.
    Unavailable,
    /// No entry is stored.
    Missing,
    /// An entry is stored but its secret could not be read, or is not text.
    Unreadable,
    /// The stored password.
    Found(String),
    /// The entry was not read, since the stored password is to be ignored.
    Skipped,
}

/// How to obtain the password.
#[derive(Debug)]
pub enum PasswordSource {
    /// Ask on the terminal and keep nothing.
    Prompt,
    /// Ask on the terminal, then store the answer; `replace` overwrites an
    /// existing entry.
    PromptAndStore { replace: bool },
    /// Use the stored password.
    Stored(String),
}

/// Decides how to obtain the password. With `no_store_password` the keyring
/// plays no part and `lookup` is not read. A keyring that cannot be used
/// only ever leads to a prompt; `ignore_keyring`, or an entry skipped on its
/// account, asks anew and overwrites the entry; an unreadable entry is overwritten, a missing one created.
pub fn password_source(no_store_password: bool, ignore_keyring: bool, lookup: KeyringLookup) -> (r: PasswordSource)
    ensures
        no_store_password ==> r is Prompt,
        !no_store_password ==> match lookup {
            KeyringLookup::Unavailable => r is Prompt,
            KeyringLookup::Missing => if ignore_keyring {
                r == (PasswordSource::PromptAndStore { replace: true })
            } else {
                r == (PasswordSource::PromptAndStore { replace: false })
            },
            KeyringLookup::Unreadable => r == (PasswordSource::PromptAndStore { replace: true }),
            KeyringLookup::Skipped => r == (PasswordSource::PromptAndStore { replace: true }),
            KeyringLookup::Found(s) => if ignore_keyring {
                r == (PasswordSource::PromptAndStore { replace: true })
            } else {
                r == PasswordSource::Stored(s)
            },
        },
{
    if no_store_password {
        return PasswordSource::Prompt;
    }
    match lookup {
        KeyringLookup::Unavailable => PasswordSource::Prompt,
        _ if ignore_keyring => PasswordSource::PromptAndStore { replace: true },
        KeyringLookup::Found(s) => PasswordSource::Stored(s),
        KeyringLookup::Unreadable => PasswordSource::PromptAndStore { replace: true },
        KeyringLookup::Skipped => PasswordSource::PromptAndStore { replace: true },
        KeyringLookup::Missing => PasswordSource::PromptAndStore { replace: false },
    }
}

} // verus!
