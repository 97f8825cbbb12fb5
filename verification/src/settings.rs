//! The settings that the process starts with.
//!
//! Reading the environment is the caller's business. What is decided here is
//! which values must be there, and what is reported when one is not.

use crate::error::{ConfigError, ConfigFailure};
use crate::lookup::{first_from, first_under};
use vstd::prelude::*;

verus! {

/// The name of the environment variable that holds the API key.
pub const API_KEY_VARIABLE: &'static str = "API_KEY";

/// The name of the field for the API key.
pub const API_KEY_FIELD: &'static str = "api_key";

/// The name of the field for the database URL.
pub const DATABASE_URL_FIELD: &'static str = "database_url";

/// The name of the field for the environment's name.
pub const ENVIRONMENT_FIELD: &'static str = "environment";

/// The configuration of the process: made once at start-up, never changed.
#[derive(Debug, PartialEq, Eq)]
pub struct Settings {
    pub api_key: String,
    pub database_url: String,
    pub environment: String,
}

/// The mathematical value of [`Settings`].
pub ghost struct SettingsView {
    pub api_key: Seq<char>,
    pub database_url: Seq<char>,
    pub environment: Seq<char>,
}

impl View for Settings {
    type V = SettingsView;

    open spec fn view(&self) -> SettingsView {
        SettingsView {
            api_key: self.api_key@,
            database_url: self.database_url@,
            environment: self.environment@,
        }
    }
}

/// The characters of a text that may be absent.
pub open spec fn chars_of(text: Option<String>) -> Option<Seq<char>> {
    match text {
        Some(present) => Some(present@),
        None => None,
    }
}

/// The names and values of a list of environment variables.
pub open spec fn variables_of(variables: Seq<(String, String)>) -> Seq<(Seq<char>, Seq<char>)> {
    Seq::new(variables.len(), |i: int| (variables[i].0@, variables[i].1@))
}

impl SettingsView {
    /// The settings that three values give, each of which may be absent: all
    /// three are required, and the first absent one, in the order of the
    /// fields, is the one reported.
    pub open spec fn load(
        api_key: Option<Seq<char>>,
        database_url: Option<Seq<char>>,
        environment: Option<Seq<char>>,
    ) -> Result<SettingsView, ConfigFailure> {
        if api_key is None {
            Err(ConfigFailure::NotFound(API_KEY_FIELD@))
        } else if database_url is None {
            Err(ConfigFailure::NotFound(DATABASE_URL_FIELD@))
        } else if environment is None {
            Err(ConfigFailure::NotFound(ENVIRONMENT_FIELD@))
        } else {
            Ok(
                SettingsView {
                    api_key: api_key->0,
                    database_url: database_url->0,
                    environment: environment->0,
                },
            )
        }
    }
}

impl Settings {
    /// Puts the settings together from the values found for the three fields.
    /// All three are required.
    pub fn new(
        api_key: Option<String>,
        database_url: Option<String>,
        environment: Option<String>,
    ) -> (outcome: Result<Settings, ConfigError>)
        ensures
            match outcome {
                Ok(settings) => SettingsView::load(
                    chars_of(api_key),
                    chars_of(database_url),
                    chars_of(environment),
                ) == Ok::<SettingsView, ConfigFailure>(settings@),
                Err(error) => SettingsView::load(
                    chars_of(api_key),
                    chars_of(database_url),
                    chars_of(environment),
                ) == Err::<SettingsView, ConfigFailure>(error@),
            },
    {
        match api_key {
            None => Err(ConfigError::NotFound(API_KEY_FIELD.to_owned())),
            Some(api_key) => match database_url {
                None => Err(ConfigError::NotFound(DATABASE_URL_FIELD.to_owned())),
                Some(database_url) => match environment {
                    None => Err(ConfigError::NotFound(ENVIRONMENT_FIELD.to_owned())),
                    Some(environment) => Ok(Settings { api_key, database_url, environment }),
                },
            },
        }
    }

    /// The API key among the variables of the environment: the value of the
    /// first one named `API_KEY`. The key has to be there.
    pub fn get_api_key(variables: &Vec<(String, String)>) -> (api_key: String)
        requires
            first_under(variables_of(variables@), API_KEY_VARIABLE@) is Some,
        ensures
            first_under(variables_of(variables@), API_KEY_VARIABLE@) == Some(api_key@),
    {
        let wanted = API_KEY_VARIABLE.to_owned();
        let ghost model = variables_of(variables@);
        let mut index: usize = 0;
        loop
            invariant
                index < variables.len(),
                wanted@ == API_KEY_VARIABLE@,
                model == variables_of(variables@),
                first_under(model, API_KEY_VARIABLE@) is Some,
                first_under(model, API_KEY_VARIABLE@) == first_from(
                    model,
                    API_KEY_VARIABLE@,
                    index as int,
                ),
            decreases variables.len() - index,
        {
            if variables[index].0 == wanted {
                return variables[index].1.clone();
            }
            index += 1;
        }
    }
}

} // verus!
