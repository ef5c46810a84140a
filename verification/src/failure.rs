//! Why a command stops, and how that is told.

use crate::arg::ArgError;
use crate::flags::FlagError;
use crate::fulcio::FulcioError;
use crate::remote::RemoteError;
use crate::verification::VerificationError;
use vstd::prelude::*;

verus! {

/// Why a command stops before its end.
pub enum Failure {
    /// Something outside failed. The text is the cause's own.
    Outside(String),
    /// The policy's signatures are not what was asked for.
    NotValidated { uri: String, cause: String },
    /// A verification was asked for without saying of what.
    NoVerificationOptions,
    /// The request could not be read from the standard input.
    RequestFromStdin { cause: String },
    /// The file with the request could not be read.
    RequestFile { path: String, cause: String },
    /// The settings were given both as a file and as text.
    ConflictingSettings,
    /// The file with the settings could not be read.
    SettingsFile { path: String, cause: String },
    /// The options of remote servers could not be had.
    RemoteOptions { cause: String },
    /// An argument gives no answer.
    Argument(ArgError),
}

impl Failure {
    /// The message that the user gets.
    pub open spec fn text(self) -> Seq<char> {
        match self {
            Failure::Outside(cause) => cause@,
            Failure::NotValidated { uri, cause } => "Policy "@ + uri@ + " cannot be validated\n"@
                + cause@,
            Failure::NoVerificationOptions => "could not retrieve sigstore options"@,
            Failure::RequestFromStdin { cause } => "Error reading request from stdin: "@ + cause@,
            Failure::RequestFile { path, cause } => "Error opening request file "@ + path@ + "; "@
                + cause@,
            Failure::ConflictingSettings =>
            "'settings-path' and 'settings-json' cannot be used at the same time"@,
            Failure::SettingsFile { path, cause } => "Error reading settings from "@ + path@ + ": "@
                + cause@,
            Failure::RemoteOptions { cause } => "Error getting remote server options: "@ + cause@,
            Failure::Argument(error) => error.text(),
        }
    }

    /// The message that the user gets.
    pub fn message(&self) -> (res: String)
        ensures
            res@ == self.text(),
    {
        match self {
            Failure::Outside(cause) => cause.clone(),
            Failure::NotValidated { uri, cause } => "Policy ".to_owned().concat(
                uri.as_str(),
            ).concat(" cannot be validated\n").concat(cause.as_str()),
            Failure::NoVerificationOptions => "could not retrieve sigstore options".to_owned(),
            Failure::RequestFromStdin {
                cause,
            } => "Error reading request from stdin: ".to_owned().concat(cause.as_str()),
            Failure::RequestFile { path, cause } => "Error opening request file ".to_owned().concat(
                path.as_str(),
            ).concat("; ").concat(cause.as_str()),
            Failure::ConflictingSettings =>
            "'settings-path' and 'settings-json' cannot be used at the same time".to_owned(),
            Failure::SettingsFile {
                path,
                cause,
            } => "Error reading settings from ".to_owned().concat(path.as_str()).concat(
                ": ",
            ).concat(cause.as_str()),
            Failure::RemoteOptions {
                cause,
            } => "Error getting remote server options: ".to_owned().concat(cause.as_str()),
            Failure::Argument(error) => error.message(),
        }
    }
}

/// The failure of an outside action, if it failed.
pub open spec fn cause_of<T>(answer: Result<T, String>) -> Option<Failure> {
    match answer {
        Ok(_) => None,
        Err(cause) => Some(Failure::Outside(cause)),
    }
}

impl FlagError {
    /// The message that the user gets.
    pub open spec fn text(self) -> Seq<char> {
        match self {
            FlagError::AnnotationsWithoutSigner =>
            "Intending to verify annotations, but no verification keys, OIDC issuer or GitHub owner were passed"@,
            FlagError::RepositoryWithoutOwner =>
            "Intending to verify GitHub actions signature, but the repository owner is missing."@,
            FlagError::IncompleteIssuer =>
            "Intending to verify OIDC issuer, but no email or issuer were provided. You must pass the email and OIDC issuer to be validated together "@,
        }
    }

    /// The message that the user gets.
    pub fn message(&self) -> (res: String)
        ensures
            res@ == self.text(),
    {
        match self {
            FlagError::AnnotationsWithoutSigner =>
            "Intending to verify annotations, but no verification keys, OIDC issuer or GitHub owner were passed".to_owned(),
            FlagError::RepositoryWithoutOwner =>
            "Intending to verify GitHub actions signature, but the repository owner is missing.".to_owned(),
            FlagError::IncompleteIssuer =>
            "Intending to verify OIDC issuer, but no email or issuer were provided. You must pass the email and OIDC issuer to be validated together ".to_owned(),
        }
    }
}

impl VerificationError {
    /// The message that the user gets.
    pub open spec fn text(self) -> Seq<char> {
        match self {
            VerificationError::Flags(error) => error.text(),
            VerificationError::UnreadableKey { path, cause } => "could not read file "@ + path@
                + ": "@ + cause@,
            VerificationError::ConflictingConfigPath =>
            "verification-config-path cannot be used in conjunction with other verification flags"@,
            VerificationError::UnreadableConfig(cause) => cause@,
            VerificationError::Argument(error) => error.text(),
        }
    }

    /// The message that the user gets.
    pub fn message(&self) -> (res: String)
        ensures
            res@ == self.text(),
    {
        match self {
            VerificationError::Flags(error) => error.message(),
            VerificationError::UnreadableKey {
                path,
                cause,
            } => "could not read file ".to_owned().concat(path.as_str()).concat(": ").concat(
                cause.as_str(),
            ),
            VerificationError::ConflictingConfigPath =>
            "verification-config-path cannot be used in conjunction with other verification flags".to_owned(),
            VerificationError::UnreadableConfig(cause) => cause.clone(),
            VerificationError::Argument(error) => error.message(),
        }
    }
}

impl FulcioError {
    /// The message that the user gets.
    pub open spec fn text(self) -> Seq<char> {
        match self {
            FulcioError::Outside(cause) => cause@,
            FulcioError::Incomplete =>
            "both a fulcio certificate and a rekor public key are required"@,
            FulcioError::Argument(error) => error.text(),
        }
    }

    /// The message that the user gets.
    pub fn message(&self) -> (res: String)
        ensures
            res@ == self.text(),
    {
        match self {
            FulcioError::Outside(cause) => cause.clone(),
            FulcioError::Incomplete =>
            "both a fulcio certificate and a rekor public key are required".to_owned(),
            FulcioError::Argument(error) => error.message(),
        }
    }
}

impl RemoteError {
    /// The message that the user gets.
    pub open spec fn text(self) -> Seq<char> {
        match self {
            RemoteError::Outside(cause) => cause@,
            RemoteError::Argument(error) => error.text(),
        }
    }

    /// The message that the user gets.
    pub fn message(&self) -> (res: String)
        ensures
            res@ == self.text(),
    {
        match self {
            RemoteError::Outside(cause) => cause.clone(),
            RemoteError::Argument(error) => error.message(),
        }
    }
}

/// Each failure is told by its own words, with the cause and with what it concerns.
pub proof fn failures_name_their_cause(uri: String, path: String, cause: String, error: ArgError)
    ensures
        Failure::Outside(cause).text() == cause@,
        (Failure::NotValidated { uri, cause }).text() == "Policy "@ + uri@
            + " cannot be validated\n"@ + cause@,
        Failure::NoVerificationOptions.text() == "could not retrieve sigstore options"@,
        (Failure::RequestFromStdin { cause }).text() == "Error reading request from stdin: "@
            + cause@,
        (Failure::RequestFile { path, cause }).text() == "Error opening request file "@ + path@
            + "; "@ + cause@,
        Failure::ConflictingSettings.text()
            == "'settings-path' and 'settings-json' cannot be used at the same time"@,
        (Failure::SettingsFile { path, cause }).text() == "Error reading settings from "@ + path@
            + ": "@ + cause@,
        (Failure::RemoteOptions { cause }).text() == "Error getting remote server options: "@
            + cause@,
        Failure::Argument(error).text() == error.text(),
{
}

/// Each error of a search is told by its own words, with the cause and with what it concerns.
pub proof fn search_errors_name_their_cause(
    path: String,
    cause: String,
    flag_error: FlagError,
    error: ArgError,
)
    ensures
        FlagError::AnnotationsWithoutSigner.text()
            == "Intending to verify annotations, but no verification keys, OIDC issuer or GitHub owner were passed"@,
        FlagError::RepositoryWithoutOwner.text()
            == "Intending to verify GitHub actions signature, but the repository owner is missing."@,
        FlagError::IncompleteIssuer.text()
            == "Intending to verify OIDC issuer, but no email or issuer were provided. You must pass the email and OIDC issuer to be validated together "@,
        VerificationError::Flags(flag_error).text() == flag_error.text(),
        (VerificationError::UnreadableKey { path, cause }).text() == "could not read file "@ + path@
            + ": "@ + cause@,
        VerificationError::ConflictingConfigPath.text()
            == "verification-config-path cannot be used in conjunction with other verification flags"@,
        VerificationError::UnreadableConfig(cause).text() == cause@,
        VerificationError::Argument(error).text() == error.text(),
        FulcioError::Outside(cause).text() == cause@,
        FulcioError::Incomplete.text()
            == "both a fulcio certificate and a rekor public key are required"@,
        FulcioError::Argument(error).text() == error.text(),
        RemoteError::Outside(cause).text() == cause@,
        RemoteError::Argument(error).text() == error.text(),
{
}

} // verus!
