//! The configuration of a run and its validation.

use vstd::prelude::*;
use std::path::PathBuf;

verus! {

/// A path of the file system, carried through as it is.
#[verifier::external_type_specification]
#[verifier::external_body]
pub struct ExPathBuf(PathBuf);

/// `PathBuf::clone`, of whose result nothing is claimed.
pub assume_specification[ <PathBuf as Clone>::clone ](path: &PathBuf) -> PathBuf;

/// Every setting of a run.
#[derive(Debug, Clone)]
pub struct AppConfig {
    pub simkl: SimklConfig,
    pub tmdb: TmdbConfig,
    pub tvdb: TvdbConfig,
    pub mal: MalConfig,
    pub amazon: AmazonConfig,
    pub output: OutputConfig,
}

/// Credentials for Simkl.
#[derive(Debug, Clone)]
pub struct SimklConfig {
    pub client_id: String,
    pub client_secret: String,
}

/// Credentials for TMDB.
#[derive(Debug, Clone)]
pub struct TmdbConfig {
    pub access_token: String,
}

/// Credentials for TVDB.
#[derive(Debug, Clone)]
pub struct TvdbConfig {
    pub api_key: String,
}

/// Credentials for MyAnimeList.
#[derive(Debug, Clone)]
pub struct MalConfig {
    pub client_id: String,
    pub client_secret: String,
}

/// The account whose watch history is read.
#[derive(Debug, Clone)]
pub struct AmazonConfig {
    pub email: String,
    pub password: String,
}

/// Where the records go.
#[derive(Debug, Clone)]
pub struct OutputConfig {
    pub path: PathBuf,
}

/// A setting that validation looks at.
#[derive(Debug, Clone, Copy, PartialEq, Eq, Structural, Hash)]
pub enum ConfigField {
    SimklClientId,
    SimklClientSecret,
    TmdbAccessToken,
    TvdbApiKey,
    MalClientId,
    MalClientSecret,
    AmazonEmail,
    AmazonPassword,
}

/// The settings that validation refused, in the order of their declaration.
#[derive(Debug, Clone, PartialEq, Eq)]
pub struct ValidationErrors {
    pub fields: Vec<ConfigField>,
}

/// The lines that describe refused settings to the operator: for each
/// setting its place, a colon and what is wrong with it.
pub open spec fn spec_describe_fields(fields: Seq<ConfigField>) -> Seq<char>
    decreases fields.len(),
{
    if fields.len() == 0 {
        Seq::empty()
    } else {
        spec_describe_fields(fields.drop_last()) + fields.last().spec_path() + ": "@
            + fields.last().spec_message() + "\n"@
    }
}

impl ValidationErrors {
    /// The lines that describe the refused settings to the operator.
    pub fn describe(&self) -> (text: String)
        ensures
            text@ == spec_describe_fields(self.fields@),
    {
        let mut text = String::new();
        let mut i: usize = 0;
        while i < self.fields.len()
            invariant
                i <= self.fields.len(),
                text@ == spec_describe_fields(self.fields@.take(i as int)),
            decreases self.fields.len() - i,
        {
            let field = self.fields[i];
            proof {
                assert(self.fields@.take(i + 1).drop_last() =~= self.fields@.take(i as int));
            }
            text.append(field.path());
            text.append(": ");
            text.append(field.message());
            text.append("\n");
            i += 1;
        }
        proof {
            assert(self.fields@.take(self.fields@.len() as int) =~= self.fields@);
        }
        text
    }
}

/// Whether `validator` takes the address for an e-mail address: the result of
/// its `ValidateEmail::validate_email` on a string of these characters.
pub uninterp spec fn email_format_ok(address: Seq<char>) -> bool;

/// Asks `validator::ValidateEmail::validate_email` whether the address has
/// the form of an e-mail address. The check reads its argument only; what
/// it answers is named `email_format_ok`.
#[verifier::external_body]
fn email_is_valid(address: &str) -> (ok: bool)
    ensures
        ok == email_format_ok(address@),
{
    validator::ValidateEmail::validate_email(&address)
}

/// `field` where `refused` holds, else nothing.
pub open spec fn refused_if(refused: bool, field: ConfigField) -> Seq<ConfigField> {
    if refused {
        seq![field]
    } else {
        Seq::empty()
    }
}

fn note_if(errors: &mut Vec<ConfigField>, refused: bool, field: ConfigField)
    ensures
        final(errors)@ == old(errors)@ + refused_if(refused, field),
{
    if refused {
        errors.push(field);
    }
}

fn verdict(fields: Vec<ConfigField>) -> (checked: Result<(), ValidationErrors>)
    ensures
        checked is Ok <==> fields@.len() == 0,
        checked matches Err(e) ==> e.fields@ == fields@,
{
    if fields.len() == 0 {
        Ok(())
    } else {
        Err(ValidationErrors { fields })
    }
}

impl ConfigField {
    /// The setting's place in the configuration file.
    pub fn path(self) -> (path: &'static str)
        ensures
            path@ == self.spec_path(),
    {
        match self {
            ConfigField::SimklClientId => "simkl.client_id",
            ConfigField::SimklClientSecret => "simkl.client_secret",
            ConfigField::TmdbAccessToken => "tmdb.access_token",
            ConfigField::TvdbApiKey => "tvdb.api_key",
            ConfigField::MalClientId => "mal.client_id",
            ConfigField::MalClientSecret => "mal.client_secret",
            ConfigField::AmazonEmail => "amazon.email",
            ConfigField::AmazonPassword => "amazon.password",
        }
    }

    pub open spec fn spec_path(self) -> Seq<char> {
        match self {
            ConfigField::SimklClientId => "simkl.client_id"@,
            ConfigField::SimklClientSecret => "simkl.client_secret"@,
            ConfigField::TmdbAccessToken => "tmdb.access_token"@,
            ConfigField::TvdbApiKey => "tvdb.api_key"@,
            ConfigField::MalClientId => "mal.client_id"@,
            ConfigField::MalClientSecret => "mal.client_secret"@,
            ConfigField::AmazonEmail => "amazon.email"@,
            ConfigField::AmazonPassword => "amazon.password"@,
        }
    }

    /// What is wrong with the setting when validation refuses it.
    pub fn message(self) -> (message: &'static str)
        ensures
            message@ == self.spec_message(),
    {
        match self {
            ConfigField::SimklClientId => "Client ID cannot be empty",
            ConfigField::SimklClientSecret => "Client secret cannot be empty",
            ConfigField::TmdbAccessToken => "Access token cannot be empty",
            ConfigField::TvdbApiKey => "API key cannot be empty",
            ConfigField::MalClientId => "Client ID cannot be empty",
            ConfigField::MalClientSecret => "Client secret cannot be empty",
            ConfigField::AmazonEmail => "Invalid email format",
            ConfigField::AmazonPassword => "Password cannot be empty",
        }
    }

    pub open spec fn spec_message(self) -> Seq<char> {
        match self {
            ConfigField::SimklClientId => "Client ID cannot be empty"@,
            ConfigField::SimklClientSecret => "Client secret cannot be empty"@,
            ConfigField::TmdbAccessToken => "Access token cannot be empty"@,
            ConfigField::TvdbApiKey => "API key cannot be empty"@,
            ConfigField::MalClientId => "Client ID cannot be empty"@,
            ConfigField::MalClientSecret => "Client secret cannot be empty"@,
            ConfigField::AmazonEmail => "Invalid email format"@,
            ConfigField::AmazonPassword => "Password cannot be empty"@,
        }
    }
}

impl SimklConfig {
    /// The settings of this section that are refused: each one that is empty.
    pub open spec fn refused(&self) -> Seq<ConfigField> {
        refused_if(self.client_id@.len() == 0, ConfigField::SimklClientId) + refused_if(
            self.client_secret@.len() == 0,
            ConfigField::SimklClientSecret,
        )
    }

    /// Accepts the section when both credentials are non-empty.
    pub fn validate(&self) -> (checked: Result<(), ValidationErrors>)
        ensures
            checked is Ok <==> self.refused().len() == 0,
            checked matches Err(e) ==> e.fields@ == self.refused(),
    {
        let mut fields: Vec<ConfigField> = Vec::new();
        self.collect(&mut fields);
        verdict(fields)
    }

    fn collect(&self, fields: &mut Vec<ConfigField>)
        ensures
            final(fields)@ == old(fields)@ + self.refused(),
    {
        note_if(fields, self.client_id.as_str().is_empty(), ConfigField::SimklClientId);
        note_if(fields, self.client_secret.as_str().is_empty(), ConfigField::SimklClientSecret);
    }
}

impl TmdbConfig {
    /// The settings of this section that are refused: the token where it is
    /// empty.
    pub open spec fn refused(&self) -> Seq<ConfigField> {
        refused_if(self.access_token@.len() == 0, ConfigField::TmdbAccessToken)
    }

    /// Accepts the section when the access token is non-empty.
    pub fn validate(&self) -> (checked: Result<(), ValidationErrors>)
        ensures
            checked is Ok <==> self.refused().len() == 0,
            checked matches Err(e) ==> e.fields@ == self.refused(),
    {
        let mut fields: Vec<ConfigField> = Vec::new();
        self.collect(&mut fields);
        verdict(fields)
    }

    fn collect(&self, fields: &mut Vec<ConfigField>)
        ensures
            final(fields)@ == old(fields)@ + self.refused(),
    {
        note_if(fields, self.access_token.as_str().is_empty(), ConfigField::TmdbAccessToken);
    }
}

impl TvdbConfig {
    /// The settings of this section that are refused: the key where it is
    /// empty.
    pub open spec fn refused(&self) -> Seq<ConfigField> {
        refused_if(self.api_key@.len() == 0, ConfigField::TvdbApiKey)
    }

    /// Accepts the section when the API key is non-empty.
    pub fn validate(&self) -> (checked: Result<(), ValidationErrors>)
        ensures
            checked is Ok <==> self.refused().len() == 0,
            checked matches Err(e) ==> e.fields@ == self.refused(),
    {
        let mut fields: Vec<ConfigField> = Vec::new();
        self.collect(&mut fields);
        verdict(fields)
    }

    fn collect(&self, fields: &mut Vec<ConfigField>)
        ensures
            final(fields)@ == old(fields)@ + self.refused(),
    {
        note_if(fields, self.api_key.as_str().is_empty(), ConfigField::TvdbApiKey);
    }
}

impl MalConfig {
    /// The settings of this section that are refused: each one that is empty.
    pub open spec fn refused(&self) -> Seq<ConfigField> {
        refused_if(self.client_id@.len() == 0, ConfigField::MalClientId) + refused_if(
            self.client_secret@.len() == 0,
            ConfigField::MalClientSecret,
        )
    }

    /// Accepts the section when both credentials are non-empty.
    pub fn validate(&self) -> (checked: Result<(), ValidationErrors>)
        ensures
            checked is Ok <==> self.refused().len() == 0,
            checked matches Err(e) ==> e.fields@ == self.refused(),
    {
        let mut fields: Vec<ConfigField> = Vec::new();
        self.collect(&mut fields);
        verdict(fields)
    }

    fn collect(&self, fields: &mut Vec<ConfigField>)
        ensures
            final(fields)@ == old(fields)@ + self.refused(),
    {
        note_if(fields, self.client_id.as_str().is_empty(), ConfigField::MalClientId);
        note_if(fields, self.client_secret.as_str().is_empty(), ConfigField::MalClientSecret);
    }
}

impl AmazonConfig {
    /// The settings of this section that are refused, given whether the
    /// address has the form of an e-mail address: the address where it has
    /// not, the password where it is empty.
    pub open spec fn refused(&self, email_ok: bool) -> Seq<ConfigField> {
        refused_if(!email_ok, ConfigField::AmazonEmail) + refused_if(
            self.password@.len() == 0,
            ConfigField::AmazonPassword,
        )
    }

    /// Accepts the section when the address is an e-mail address and the
    /// password is non-empty.
    pub fn validate(&self) -> (checked: Result<(), ValidationErrors>)
        ensures
            checked is Ok <==> self.refused(email_format_ok(self.email@)).len() == 0,
            checked matches Err(e) ==> e.fields@ == self.refused(email_format_ok(self.email@)),
    {
        let email_ok = email_is_valid(self.email.as_str());
        self.validate_with(email_ok)
    }

    /// As `validate`, with the verdict on the address handed in.
    pub fn validate_with(&self, email_ok: bool) -> (checked: Result<(), ValidationErrors>)
        ensures
            checked is Ok <==> self.refused(email_ok).len() == 0,
            checked is Ok <==> email_ok && self.password@.len() > 0,
            checked matches Err(e) ==> e.fields@ == self.refused(email_ok),
    {
        let mut fields: Vec<ConfigField> = Vec::new();
        self.collect(&mut fields, email_ok);
        verdict(fields)
    }

    fn collect(&self, fields: &mut Vec<ConfigField>, email_ok: bool)
        ensures
            final(fields)@ == old(fields)@ + self.refused(email_ok),
    {
        note_if(fields, !email_ok, ConfigField::AmazonEmail);
        note_if(fields, self.password.as_str().is_empty(), ConfigField::AmazonPassword);
    }
}

impl AppConfig {
    /// Every setting that is refused, section by section in the order of
    /// their declaration.
    pub open spec fn refused(&self, email_ok: bool) -> Seq<ConfigField> {
        self.simkl.refused() + self.tmdb.refused() + self.tvdb.refused() + self.mal.refused()
            + self.amazon.refused(email_ok)
    }

    /// Accepts the configuration when every section is accepted. Otherwise
    /// the error lists every refused setting.
    pub fn validate(&self) -> (checked: Result<(), ValidationErrors>)
        ensures
            checked is Ok <==> self.refused(email_format_ok(self.amazon.email@)).len() == 0,
            checked matches Err(e) ==> e.fields@ == self.refused(
                email_format_ok(self.amazon.email@),
            ),
    {
        let email_ok = email_is_valid(self.amazon.email.as_str());
        self.validate_with(email_ok)
    }

    /// As `validate`, with the verdict on the e-mail address handed in.
    pub fn validate_with(&self, email_ok: bool) -> (checked: Result<(), ValidationErrors>)
        ensures
            checked is Ok <==> self.refused(email_ok).len() == 0,
            checked matches Err(e) ==> e.fields@ == self.refused(email_ok),
    {
        let mut fields: Vec<ConfigField> = Vec::new();
        self.simkl.collect(&mut fields);
        self.tmdb.collect(&mut fields);
        self.tvdb.collect(&mut fields);
        self.mal.collect(&mut fields);
        self.amazon.collect(&mut fields, email_ok);
        verdict(fields)
    }
}

/// A configuration is accepted exactly when every credential is non-empty
/// and the address has the form of an e-mail address.
pub proof fn lemma_accepted_configuration(config: AppConfig, email_ok: bool)
    ensures
        config.refused(email_ok).len() == 0 <==> {
            &&& config.simkl.client_id@.len() > 0
            &&& config.simkl.client_secret@.len() > 0
            &&& config.tmdb.access_token@.len() > 0
            &&& config.tvdb.api_key@.len() > 0
            &&& config.mal.client_id@.len() > 0
            &&& config.mal.client_secret@.len() > 0
            &&& email_ok
            &&& config.amazon.password@.len() > 0
        },
{
}

} // verus!
