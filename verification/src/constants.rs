//! The credentials and the endpoint, as the configuration file gives them.
//!
//! The file is INI text, read by the `ini` crate. Reading it from disk, and
//! writing the first one, are left to the caller: this module is handed the
//! text.

use ini::{Ini, Properties};
use vstd::prelude::*;
use vstd::string::*;

verus! {

#[verifier::external_type_specification]
#[verifier::external_body]
pub struct ExIni(ini::Ini);

#[verifier::external_type_specification]
#[verifier::external_body]
pub struct ExProperties(ini::Properties);

/// The named sections that an `Ini` holds: under each name the values of
/// the first section of that name.
pub uninterp spec fn ini_sections(conf: Ini) -> Map<Seq<char>, Map<Seq<char>, Seq<char>>>;

/// The values that a section holds: under each key the first value given
/// for it.
pub uninterp spec fn section_values(section: Properties) -> Map<Seq<char>, Seq<char>>;

/// What `Ini::load_from_str` makes of a text: the named sections it reads,
/// or the message of the error it reports.
pub uninterp spec fn ini_parse(text: Seq<char>) -> Result<
    Map<Seq<char>, Map<Seq<char>, Seq<char>>>,
    Seq<char>,
>;

/// Calls `Ini::load_from_str`.
///
/// Trusted: the outcome is a function of the text alone, named
/// [`ini_parse`]. An error is handed back as the message that its `Display`
/// gives.
#[verifier::external_body]
fn load_ini(text: &str) -> (loaded: Result<Ini, String>)
    ensures
        match loaded {
            Ok(conf) => ini_parse(text@) == Ok::<
                Map<Seq<char>, Map<Seq<char>, Seq<char>>>,
                Seq<char>,
            >(ini_sections(conf)),
            Err(message) => ini_parse(text@) == Err::<
                Map<Seq<char>, Map<Seq<char>, Seq<char>>>,
                Seq<char>,
            >(message@),
        },
{
    Ini::load_from_str(text).map_err(|e| e.to_string())
}

/// Calls `Ini::section` with a name.
///
/// Trusted: the first section of that name, `None` where there is none.
#[verifier::external_body]
fn ini_section<'a>(conf: &'a Ini, name: &str) -> (found: Option<&'a Properties>)
    ensures
        match found {
            Some(section) => ini_sections(*conf).contains_key(name@) && ini_sections(
                *conf,
            )[name@] == section_values(*section),
            None => !ini_sections(*conf).contains_key(name@),
        },
{
    conf.section(Some(name))
}

/// Calls `Properties::get`.
///
/// Trusted: the first value given for the key, `None` where there is none.
#[verifier::external_body]
fn section_value<'a>(section: &'a Properties, key: &str) -> (found: Option<&'a str>)
    ensures
        match found {
            Some(value) => section_values(*section).contains_key(key@) && section_values(
                *section,
            )[key@] == value@,
            None => !section_values(*section).contains_key(key@),
        },
{
    section.get(key)
}

/// Configuration values of the Salesforce integration.
#[derive(Debug, PartialEq, Eq)]
pub struct Constants {
    /// The consumer key of the Salesforce application.
    pub consumer_key: String,
    /// The consumer secret of the Salesforce application.
    pub consumer_secret: String,
    /// The username of the Salesforce account.
    pub username: String,
    /// The security token of the Salesforce account.
    pub token: String,
    /// The password of the Salesforce account.
    pub password: String,
    /// The endpoint URL of the Salesforce instance.
    pub endpoint: String,
}

/// Why a configuration text gives no [`Constants`].
#[derive(Debug, PartialEq, Eq)]
pub enum ConfigError {
    /// The text is not INI; the message says where.
    Malformed(String),
    /// There is no section `[Salesforce]`.
    MissingSection,
    /// The section lacks the key named here.
    MissingKey(String),
}

/// The characters of each value of a [`Constants`].
pub struct Credentials {
    pub consumer_key: Seq<char>,
    pub consumer_secret: Seq<char>,
    pub username: Seq<char>,
    pub token: Seq<char>,
    pub password: Seq<char>,
    pub endpoint: Seq<char>,
}

impl View for Constants {
    type V = Credentials;

    open spec fn view(&self) -> Credentials {
        Credentials {
            consumer_key: self.consumer_key@,
            consumer_secret: self.consumer_secret@,
            username: self.username@,
            token: self.token@,
            password: self.password@,
            endpoint: self.endpoint@,
        }
    }
}

/// The name of the section that holds the values.
pub open spec fn section_name() -> Seq<char> {
    "Salesforce"@
}

/// The first of the six keys that a section lacks, in the order in which
/// they are read.
pub open spec fn missing_key(values: Map<Seq<char>, Seq<char>>) -> Option<Seq<char>> {
    if !values.contains_key("CONSUMER_KEY"@) {
        Some("CONSUMER_KEY"@)
    } else if !values.contains_key("CONSUMER_SECRET"@) {
        Some("CONSUMER_SECRET"@)
    } else if !values.contains_key("USERNAME"@) {
        Some("USERNAME"@)
    } else if !values.contains_key("TOKEN"@) {
        Some("TOKEN"@)
    } else if !values.contains_key("PASSWORD"@) {
        Some("PASSWORD"@)
    } else if !values.contains_key("ENDPOINT"@) {
        Some("ENDPOINT"@)
    } else {
        None
    }
}

/// The credentials that a section with all six keys gives.
pub open spec fn credentials_of(values: Map<Seq<char>, Seq<char>>) -> Credentials {
    Credentials {
        consumer_key: values["CONSUMER_KEY"@],
        consumer_secret: values["CONSUMER_SECRET"@],
        username: values["USERNAME"@],
        token: values["TOKEN"@],
        password: values["PASSWORD"@],
        endpoint: values["ENDPOINT"@],
    }
}

/// What is wrong with a configuration, with the characters of what it
/// names.
pub enum ConfigFault {
    Malformed(Seq<char>),
    MissingSection,
    MissingKey(Seq<char>),
}

/// A [`ConfigError`] as a mathematical value.
pub open spec fn fault_of(error: ConfigError) -> ConfigFault {
    match error {
        ConfigError::Malformed(message) => ConfigFault::Malformed(message@),
        ConfigError::MissingSection => ConfigFault::MissingSection,
        ConfigError::MissingKey(name) => ConfigFault::MissingKey(name@),
    }
}

/// What the sections of a configuration give: the credentials of the
/// section `[Salesforce]`, or what is not there, the section or the first
/// of its keys.
pub open spec fn constants_in(sections: Map<Seq<char>, Map<Seq<char>, Seq<char>>>) -> Result<
    Credentials,
    ConfigFault,
> {
    if !sections.contains_key(section_name()) {
        Err(ConfigFault::MissingSection)
    } else {
        match missing_key(sections[section_name()]) {
            Some(key) => Err(ConfigFault::MissingKey(key)),
            None => Ok(credentials_of(sections[section_name()])),
        }
    }
}

/// The path of the token endpoint, below the configured endpoint.
pub open spec fn token_path() -> Seq<char> {
    "/services/oauth2/token"@
}

/// The text of a first configuration file: every key with a placeholder
/// that the operator has to replace.
pub open spec fn default_config_text() -> Seq<char> {
    "[Salesforce]\nSalesforceVersionNumber=60.0\nCONSUMER_KEY=ConsumerKey\nCONSUMER_SECRET=ConsumerSecret\nUSERNAME=LoginUsername\nTOKEN=SecurityToken\nPASSWORD=LoginPassword\nENDPOINT=salesforceinstanceurl\n"@
}

/// The text without the byte order mark that may stand at its start.
pub open spec fn without_byte_order_mark(text: Seq<char>) -> Seq<char> {
    if text.len() > 0 && text[0] == '\u{feff}' {
        text.subrange(1, text.len() as int)
    } else {
        text
    }
}

/// Skips a byte order mark at the start of a text.
fn skip_byte_order_mark(text: &str) -> (rest: &str)
    ensures
        rest@ == without_byte_order_mark(text@),
{
    let length: usize = text.unicode_len();
    if length > 0 && text.get_char(0) == '\u{feff}' {
        text.substring_char(1, length)
    } else {
        text
    }
}

/// The value of a key that has to be there.
fn required_value(section: &Properties, key: &str) -> (found: Result<String, ConfigError>)
    ensures
        match found {
            Ok(value) => section_values(*section).contains_key(key@) && section_values(
                *section,
            )[key@] == value@,
            Err(error) => {
                &&& !section_values(*section).contains_key(key@)
                &&& error matches ConfigError::MissingKey(name) && name@ == key@
            },
        },
{
    match section_value(section, key) {
        Some(value) => Ok(String::from_str(value)),
        None => Err(ConfigError::MissingKey(String::from_str(key))),
    }
}

impl Constants {
    /// The name of the configuration file.
    pub fn config_file_name() -> (name: &'static str)
        ensures
            name@ == "salesforce_config.ini"@,
    {
        "salesforce_config.ini"
    }

    /// The text to write where there is no configuration file yet.
    pub fn default_config() -> (text: &'static str)
        ensures
            text@ == default_config_text(),
    {
        "[Salesforce]\nSalesforceVersionNumber=60.0\nCONSUMER_KEY=ConsumerKey\nCONSUMER_SECRET=ConsumerSecret\nUSERNAME=LoginUsername\nTOKEN=SecurityToken\nPASSWORD=LoginPassword\nENDPOINT=salesforceinstanceurl\n"
    }

    /// Reads the values from the text of a configuration file: the six keys
    /// of its section `[Salesforce]`. A byte order mark at the start of the
    /// text is skipped.
    pub fn new(config_text: &str) -> (loaded: Result<Constants, ConfigError>)
        ensures
            match ini_parse(without_byte_order_mark(config_text@)) {
                Err(message) => loaded matches Err(ConfigError::Malformed(m)) && m@ == message,
                Ok(sections) => match constants_in(sections) {
                    Ok(credentials) => loaded matches Ok(constants) && constants@ == credentials,
                    Err(fault) => loaded matches Err(error) && fault_of(error) == fault,
                },
            },
    {
        match load_ini(skip_byte_order_mark(config_text)) {
            Ok(conf) => Constants::from_ini(&conf),
            Err(message) => Err(ConfigError::Malformed(message)),
        }
    }

    /// Reads the values from a configuration that was parsed already: the
    /// six keys of its section `[Salesforce]`, or the error that says what
    /// is not there.
    pub fn from_ini(conf: &Ini) -> (loaded: Result<Constants, ConfigError>)
        ensures
            match constants_in(ini_sections(*conf)) {
                Ok(credentials) => loaded matches Ok(constants) && constants@ == credentials,
                Err(fault) => loaded matches Err(error) && fault_of(error) == fault,
            },
    {
        let section = match ini_section(conf, "Salesforce") {
            Some(section) => section,
            None => {
                return Err(ConfigError::MissingSection);
            },
        };
        let consumer_key = match required_value(section, "CONSUMER_KEY") {
            Ok(value) => value,
            Err(error) => {
                return Err(error);
            },
        };
        let consumer_secret = match required_value(section, "CONSUMER_SECRET") {
            Ok(value) => value,
            Err(error) => {
                return Err(error);
            },
        };
        let username = match required_value(section, "USERNAME") {
            Ok(value) => value,
            Err(error) => {
                return Err(error);
            },
        };
        let token = match required_value(section, "TOKEN") {
            Ok(value) => value,
            Err(error) => {
                return Err(error);
            },
        };
        let password = match required_value(section, "PASSWORD") {
            Ok(value) => value,
            Err(error) => {
                return Err(error);
            },
        };
        let endpoint = match required_value(section, "ENDPOINT") {
            Ok(value) => value,
            Err(error) => {
                return Err(error);
            },
        };
        Ok(Constants { consumer_key, consumer_secret, username, token, password, endpoint })
    }

    /// The URL of the token endpoint: the configured endpoint followed by
    /// the path of the OAuth2 token service.
    pub fn token_request_endpoint_url(&self) -> (url: String)
        ensures
            url@ == self.endpoint@ + token_path(),
    {
        self.endpoint.clone().concat("/services/oauth2/token")
    }
}

} // verus!
