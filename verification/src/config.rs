//! Where the data directory lies.

use crate::book::FileText;
use crate::decode::text_field;
use crate::document::{document_content, parse_table, table_get, value_text};
use vstd::prelude::*;
use vstd::string::*;

verus! {

/// The settings of the application.
#[derive(Debug, Clone)]
pub struct Config {
    /// The directory that holds the record files.
    pub data_path: String,
}

/// The data directory by default: `antiquar` inside the user's data
/// directory, which is `data_home` where that is set and `.local/share`
/// inside `home` where it is not.
pub open spec fn default_data_path(data_home: Option<Seq<char>>, home: Seq<char>) -> Seq<char> {
    match data_home {
        Some(dir) => dir + "/antiquar"@,
        None => home + "/.local/share"@ + "/antiquar"@,
    }
}

impl Config {
    /// The default settings, from the values of the environment that decide
    /// them: the user's data directory, if one is set, and the user's home.
    pub fn from_environment(data_home: Option<&str>, home: &str) -> (r: Config)
        ensures
            r.data_path@ == default_data_path(
                match data_home {
                    Some(dir) => Some(dir@),
                    None => None,
                },
                home@,
            ),
    {
        let base = match data_home {
            Some(dir) => dir.to_owned(),
            None => home.to_owned().concat("/.local/share"),
        };
        Config { data_path: base.concat("/antiquar") }
    }
}

/// The data directory that the text of a settings file names: the string
/// under the key `datapath`. `None` where the text was not read to the end,
/// is no TOML document, or holds no such string.
pub open spec fn configured_data_path(content: Seq<char>, complete: bool) -> Option<Seq<char>> {
    if !complete {
        None
    } else {
        match document_content(content) {
            Err(_) => None,
            Ok(doc) => match text_field(doc, "datapath"@) {
                Ok(path) => Some(path),
                Err(_) => None,
            },
        }
    }
}

/// The settings in force: those of the settings file where one was given
/// and its text names a data directory, and `default` in every other case.
pub fn load_config(source: Option<FileText>, default: Config) -> (r: Config)
    ensures
        r.data_path@ == match source {
            Some(text) => match configured_data_path(text.content@, text.complete) {
                Some(path) => path,
                None => default.data_path@,
            },
            None => default.data_path@,
        },
{
    let text = match source {
        Some(text) => text,
        None => {
            return default;
        },
    };
    if !text.complete {
        return default;
    }
    let table = match parse_table(text.content.as_str()) {
        Ok(table) => table,
        Err(_) => {
            return default;
        },
    };
    match table_get(&table, "datapath") {
        None => default,
        Some(value) => match value_text(value) {
            Some(path) => Config { data_path: path.to_owned() },
            None => default,
        },
    }
}

} // verus!
