//! The ACME account: loaded where there is one, else created and saved.

use vstd::prelude::*;
use instant_acme::AccountCredentials;
use crate::text::cat;

verus! {

#[verifier::external_type_specification]
#[verifier::external_body]
pub struct ExAccountCredentials(instant_acme::AccountCredentials);

/// The steps of getting an account.
#[derive(Debug, Clone, Copy, PartialEq, Eq, Structural)]
pub enum AccountStep {
    /// The account's file is read.
    Read,
    /// It is taken apart.
    Parse,
    /// The credentials in it are taken apart.
    ParseCredentials,
    /// The account is restored from its credentials.
    Restore,
    /// An account is created.
    Create,
    /// The directory for its file is made.
    MakeDirectory,
    /// The credentials are put together.
    Serialize,
    /// They are written to a temporary file.
    Write,
    /// That takes its place.
    Rename,
    /// The account was loaded.
    Loaded,
    /// The account was created and saved.
    Saved,
}

impl AccountStep {
    /// What a step that failed is called.
    pub open spec fn label_text(self) -> Seq<char> {
        match self {
            AccountStep::Read => "failed to read account file: "@,
            AccountStep::Parse => "failed to parse account file: "@,
            AccountStep::ParseCredentials => "failed to parse credentials: "@,
            AccountStep::Restore => "failed to restore account: "@,
            AccountStep::Create => "failed to create ACME account: "@,
            AccountStep::MakeDirectory => "failed to create acme dir: "@,
            AccountStep::Serialize => "serialize creds: "@,
            AccountStep::Write => "write tmp account: "@,
            AccountStep::Rename => "rename account: "@,
            _ => ""@,
        }
    }

    /// The step after this one.
    pub open spec fn following(self) -> AccountStep {
        match self {
            AccountStep::Read => AccountStep::Parse,
            AccountStep::Parse => AccountStep::ParseCredentials,
            AccountStep::ParseCredentials => AccountStep::Restore,
            AccountStep::Restore => AccountStep::Loaded,
            AccountStep::Create => AccountStep::MakeDirectory,
            AccountStep::MakeDirectory => AccountStep::Serialize,
            AccountStep::Serialize => AccountStep::Write,
            AccountStep::Write => AccountStep::Rename,
            AccountStep::Rename => AccountStep::Saved,
            _ => self,
        }
    }

    /// Whether there is an account.
    pub open spec fn is_over(self) -> bool {
        self is Loaded || self is Saved
    }

    /// What a step that failed is called.
    pub fn label(self) -> (r: &'static str)
        ensures
            r@ == self.label_text(),
    {
        match self {
            AccountStep::Read => "failed to read account file: ",
            AccountStep::Parse => "failed to parse account file: ",
            AccountStep::ParseCredentials => "failed to parse credentials: ",
            AccountStep::Restore => "failed to restore account: ",
            AccountStep::Create => "failed to create ACME account: ",
            AccountStep::MakeDirectory => "failed to create acme dir: ",
            AccountStep::Serialize => "serialize creds: ",
            AccountStep::Write => "write tmp account: ",
            AccountStep::Rename => "rename account: ",
            _ => "",
        }
    }

    /// Takes the outcome of this step: the next one, or the text of the error.
    pub fn next(self, outcome: Result<(), String>) -> (r: Result<AccountStep, String>)
        requires
            !self.is_over(),
        ensures
            match outcome {
                Ok(_) => r == Ok::<AccountStep, String>(self.following()),
                Err(e) => r matches Err(text) && text@ == self.label_text() + e@,
            },
    {
        match outcome {
            Ok(()) => Ok(
                match self {
                    AccountStep::Read => AccountStep::Parse,
                    AccountStep::Parse => AccountStep::ParseCredentials,
                    AccountStep::ParseCredentials => AccountStep::Restore,
                    AccountStep::Restore => AccountStep::Loaded,
                    AccountStep::Create => AccountStep::MakeDirectory,
                    AccountStep::MakeDirectory => AccountStep::Serialize,
                    AccountStep::Serialize => AccountStep::Write,
                    AccountStep::Write => AccountStep::Rename,
                    AccountStep::Rename => AccountStep::Saved,
                    _ => self,
                },
            ),
            Err(e) => Err(cat(self.label(), e.as_str())),
        }
    }

    /// The line to print once there is an account.
    pub fn line(self, path: &str) -> (r: Option<String>)
        ensures
            match self {
                AccountStep::Loaded => r matches Some(s) && s@
                    == "INFO rustwasgi: ACME account loaded from "@ + path@,
                AccountStep::Saved => r matches Some(s) && s@
                    == "INFO rustwasgi: ACME account created and saved to "@ + path@,
                _ => r is None,
            },
    {
        match self {
            AccountStep::Loaded => Some(cat("INFO rustwasgi: ACME account loaded from ", path)),
            AccountStep::Saved => Some(
                cat("INFO rustwasgi: ACME account created and saved to ", path),
            ),
            _ => None,
        }
    }
}

/// The first step of getting an account: it is loaded where its file exists.
pub fn load_or_create_account(file_exists: bool) -> (r: AccountStep)
    ensures
        r == if file_exists {
            AccountStep::Read
        } else {
            AccountStep::Create
        },
{
    if file_exists {
        AccountStep::Read
    } else {
        AccountStep::Create
    }
}

/// The credentials that a JSON text spells, or the text of the error.
pub uninterp spec fn stored_credentials(json: Seq<char>) -> Result<AccountCredentials, Seq<char>>;

/// `serde_json::from_str`, to `instant_acme::AccountCredentials`: the
/// credentials that the text spells, or the text of the error. The result
/// depends on the text alone; the format is not said here.
#[verifier::external_body]
fn read_credentials(json: &str) -> (r: Result<AccountCredentials, String>)
    ensures
        match r {
            Ok(c) => stored_credentials(json@) == Ok::<_, Seq<char>>(c),
            Err(e) => stored_credentials(json@) == Err::<AccountCredentials, _>(e@),
        },
{
    serde_json::from_str(json).map_err(|e| e.to_string())
}

/// The JSON text of credentials, or the text of the error.
pub uninterp spec fn credentials_json(credentials: AccountCredentials) -> Result<
    Seq<char>,
    Seq<char>,
>;

/// `serde_json::to_string`, of `instant_acme::AccountCredentials`: their JSON
/// text, or the text of the error. The result depends on the credentials
/// alone; the format is not said here, but that reading such a text gives the
/// credentials back.
#[verifier::external_body]
fn write_credentials(credentials: &AccountCredentials) -> (r: Result<String, String>)
    ensures
        match r {
            Ok(json) => {
                &&& credentials_json(*credentials) == Ok::<_, Seq<char>>(json@)
                &&& stored_credentials(json@) == Ok::<_, Seq<char>>(*credentials)
            },
            Err(e) => credentials_json(*credentials) == Err::<Seq<char>, _>(e@),
        },
{
    serde_json::to_string(credentials).map_err(|e| e.to_string())
}

/// The credentials that a stored text spells.
pub fn parse_credentials(json: &str) -> (r: Result<AccountCredentials, String>)
    ensures
        match stored_credentials(json@) {
            Ok(c) => r == Ok::<_, String>(c),
            Err(e) => r matches Err(text) && text@ == "failed to parse credentials: "@ + e,
        },
{
    match read_credentials(json) {
        Ok(c) => Ok(c),
        Err(e) => Err(cat(AccountStep::ParseCredentials.label(), e.as_str())),
    }
}

/// The text that credentials are stored as. Parsing it gives them back.
pub fn serialize_credentials(credentials: &AccountCredentials) -> (r: Result<String, String>)
    ensures
        match credentials_json(*credentials) {
            Ok(json) => r matches Ok(text) && text@ == json,
            Err(e) => r matches Err(text) && text@ == "serialize creds: "@ + e,
        },
        r matches Ok(text) ==> stored_credentials(text@) == Ok::<_, Seq<char>>(*credentials),
{
    match write_credentials(credentials) {
        Ok(json) => Ok(json),
        Err(e) => Err(cat(AccountStep::Serialize.label(), e.as_str())),
    }
}

/// What the account's file holds.
#[derive(Debug)]
pub struct AccountData {
    /// The credentials, as a JSON text.
    pub credentials: String,
    pub email: String,
    pub directory: String,
}

impl AccountData {
    /// What is saved of an account. The credentials can be restored from it.
    pub fn new(credentials: &AccountCredentials, email: &str, directory: &str) -> (r: Result<
        AccountData,
        String,
    >)
        ensures
            match credentials_json(*credentials) {
                Ok(json) => r matches Ok(data) && data.credentials@ == json && data.email@ == email@
                    && data.directory@ == directory@,
                Err(e) => r matches Err(text) && text@ == "serialize creds: "@ + e,
            },
            r matches Ok(data) ==> data.restorable(*credentials),
    {
        match serialize_credentials(credentials) {
            Ok(json) => Ok(
                AccountData {
                    credentials: json,
                    email: email.to_string(),
                    directory: directory.to_string(),
                },
            ),
            Err(e) => Err(e),
        }
    }

    /// Whether credentials are those that are restored from the file.
    pub open spec fn restorable(self, credentials: AccountCredentials) -> bool {
        stored_credentials(self.credentials@) == Ok::<_, Seq<char>>(credentials)
    }

    /// The credentials of a saved account.
    pub fn credentials(&self) -> (r: Result<AccountCredentials, String>)
        ensures
            match stored_credentials(self.credentials@) {
                Ok(c) => r == Ok::<_, String>(c),
                Err(e) => r matches Err(text) && text@ == "failed to parse credentials: "@ + e,
            },
    {
        parse_credentials(self.credentials.as_str())
    }
}

/// An account that was saved is restored with the credentials that it was
/// created with.
pub proof fn saved_is_restored(
    data: AccountData,
    credentials: AccountCredentials,
    restored: AccountCredentials,
)
    requires
        data.restorable(credentials),
        data.restorable(restored),
    ensures
        restored == credentials,
{
}

/// How the owner of an account is reached.
pub fn contact(email: &str) -> (r: String)
    ensures
        r@ == "mailto:"@ + email@,
{
    cat("mailto:", email)
}

/// Where a number of good steps leads.
pub open spec fn after_steps(step: AccountStep, n: nat) -> AccountStep
    decreases n,
{
    if n == 0 {
        step
    } else {
        after_steps(step, (n - 1) as nat).following()
    }
}

/// Where the account's file exists, no account is ever created; where it does
/// not, none is loaded. Either way there is an account once all steps went
/// well.
pub proof fn loads_or_creates(n: nat)
    ensures
        !(after_steps(AccountStep::Read, n) is Create),
        !(after_steps(AccountStep::Read, n) is Saved),
        !(after_steps(AccountStep::Create, n) is Read),
        !(after_steps(AccountStep::Create, n) is Loaded),
        n >= 4 ==> after_steps(AccountStep::Read, n) is Loaded,
        n >= 5 ==> after_steps(AccountStep::Create, n) is Saved,
{
    loading(n);
    creating(n);
}

proof fn loading(n: nat)
    ensures
        after_steps(AccountStep::Read, n) == if n == 0 {
            AccountStep::Read
        } else if n == 1 {
            AccountStep::Parse
        } else if n == 2 {
            AccountStep::ParseCredentials
        } else if n == 3 {
            AccountStep::Restore
        } else {
            AccountStep::Loaded
        },
    decreases n,
{
    if n > 0 {
        loading((n - 1) as nat);
    }
}

proof fn creating(n: nat)
    ensures
        after_steps(AccountStep::Create, n) == if n == 0 {
            AccountStep::Create
        } else if n == 1 {
            AccountStep::MakeDirectory
        } else if n == 2 {
            AccountStep::Serialize
        } else if n == 3 {
            AccountStep::Write
        } else if n == 4 {
            AccountStep::Rename
        } else {
            AccountStep::Saved
        },
    decreases n,
{
    if n > 0 {
        creating((n - 1) as nat);
    }
}

} // verus!
