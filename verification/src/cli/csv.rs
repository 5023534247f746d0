//! Options of the `csv` command, and the name that selects an output format.

use crate::text_ops::{lowercase, lowercased, same_text};
use vstd::prelude::*;
use vstd::std_specs::convert::{FromSpecImpl, TryFromSpecImpl};
use vstd::string::*;

verus! {

/// The formats that CSV records can be written in.
#[derive(Debug, Clone, Copy, PartialEq, Eq, Structural)]
pub enum OutputFormat {
    /// A JSON array of objects.
    Json,
    /// A YAML sequence of mappings.
    Yaml,
    /// A TOML table with the records under `data`.
    Toml,
}

/// The format that a name in lower case selects, if any.
pub open spec fn format_of_lower(lower: Seq<char>) -> Option<OutputFormat> {
    if lower == "json"@ {
        Some(OutputFormat::Json)
    } else if lower == "yaml"@ {
        Some(OutputFormat::Yaml)
    } else if lower == "toml"@ {
        Some(OutputFormat::Toml)
    } else {
        None
    }
}

/// Each of the three names selects its format, and the empty name selects
/// none.
pub proof fn lemma_names_select_formats()
    ensures
        format_of_lower("json"@) == Some(OutputFormat::Json),
        format_of_lower("yaml"@) == Some(OutputFormat::Yaml),
        format_of_lower("toml"@) == Some(OutputFormat::Toml),
        format_of_lower(""@) is None,
{
    reveal_strlit("json");
    reveal_strlit("yaml");
    reveal_strlit("toml");
    reveal_strlit("");
    assert("json"@[0] == 'j');
    assert("yaml"@[0] == 'y');
    assert("toml"@[0] == 't');
    assert(""@.len() == 0);
}

/// The format that a name selects, if any. Case does not matter.
pub open spec fn format_of_name(name: Seq<char>) -> Option<OutputFormat> {
    format_of_lower(lowercase(name))
}

/// Selects the format that a name in lower case names.
pub fn format_of_lowered(lower: &str) -> (format: Option<OutputFormat>)
    ensures
        format == format_of_lower(lower@),
{
    if same_text(lower, "json") {
        Some(OutputFormat::Json)
    } else if same_text(lower, "yaml") {
        Some(OutputFormat::Yaml)
    } else if same_text(lower, "toml") {
        Some(OutputFormat::Toml)
    } else {
        None
    }
}

/// What is said of a name that selects no format.
pub open spec fn unsupported_format_message(name: Seq<char>) -> Seq<char> {
    "Unsupported output format: "@ + name + ". Supported formats are: json, yaml, toml"@
}

impl OutputFormat {
    /// Selects the format that `name` names. On a name that selects none
    /// the error is a message that quotes the name.
    pub fn from_name(name: &str) -> (format: Result<OutputFormat, String>)
        ensures
            match format_of_name(name@) {
                Some(f) => format == Ok::<OutputFormat, String>(f),
                None => format matches Err(message) && message@ == unsupported_format_message(
                    name@,
                ),
            },
    {
        match format_of_lowered(lowercased(name).as_str()) {
            Some(format) => Ok(format),
            None => Err(
                "Unsupported output format: ".to_owned().concat(name).concat(
                    ". Supported formats are: json, yaml, toml",
                ),
            ),
        }
    }
}

impl OutputFormat {
    /// The characters of the format's name.
    pub open spec fn name_text(self) -> Seq<char> {
        match self {
            OutputFormat::Json => "json"@,
            OutputFormat::Yaml => "yaml"@,
            OutputFormat::Toml => "toml"@,
        }
    }

    /// The format's name, which is also the extension of its files.
    pub fn name(self) -> (name: &'static str)
        ensures
            name == match self {
                OutputFormat::Json => "json",
                OutputFormat::Yaml => "yaml",
                OutputFormat::Toml => "toml",
            },
            name@ == self.name_text(),
    {
        match self {
            OutputFormat::Json => "json",
            OutputFormat::Yaml => "yaml",
            OutputFormat::Toml => "toml",
        }
    }
}

impl From<OutputFormat> for &'static str {
    fn from(format: OutputFormat) -> (name: &'static str) {
        format.name()
    }
}

impl FromSpecImpl<OutputFormat> for &'static str {
    open spec fn obeys_from_spec() -> bool {
        true
    }

    open spec fn from_spec(format: OutputFormat) -> &'static str {
        match format {
            OutputFormat::Json => "json",
            OutputFormat::Yaml => "yaml",
            OutputFormat::Toml => "toml",
        }
    }
}

impl<'a> TryFrom<&'a str> for OutputFormat {
    type Error = String;

    fn try_from(value: &'a str) -> (format: Result<OutputFormat, String>)
        ensures
            match format_of_name(value@) {
                Some(f) => format == Ok::<OutputFormat, String>(f),
                None => format matches Err(message) && message@ == unsupported_format_message(
                    value@,
                ),
            },
    {
        OutputFormat::from_name(value)
    }
}

/// An error of `try_from` is a fresh message, and `String` has no value to
/// name it by: what `try_from` returns is stated by its own clause.
impl<'a> TryFromSpecImpl<&'a str> for OutputFormat {
    open spec fn obeys_try_from_spec() -> bool {
        false
    }

    open spec fn try_from_spec(value: &'a str) -> Result<OutputFormat, String> {
        match format_of_name(value@) {
            Some(f) => Ok(f),
            None => Err(arbitrary()),
        }
    }
}

impl core::str::FromStr for OutputFormat {
    type Err = String;

    fn from_str(s: &str) -> (format: Result<OutputFormat, String>)
        ensures
            match format_of_name(s@) {
                Some(f) => format == Ok::<OutputFormat, String>(f),
                None => format matches Err(message) && message@ == unsupported_format_message(
                    s@,
                ),
            },
    {
        OutputFormat::from_name(s)
    }
}

/// What the `csv` command is given.
#[derive(Debug)]
pub struct CsvOpts {
    /// The CSV file to read.
    pub input: String,
    /// The file to write; where none is given, `output.` and the format's
    /// name.
    pub output: Option<String>,
    /// The format to write.
    pub format: OutputFormat,
    /// Whether the first record holds the column names.
    pub header: bool,
    /// The character between fields.
    pub delimiter: char,
}

impl CsvOpts {
    /// The file that the records are written to: the one that was given,
    /// else `output.` and the format's name.
    pub fn output_path(&self) -> (path: String)
        ensures
            path@ == match self.output {
                Some(given) => given@,
                None => "output."@ + self.format.name_text(),
            },
    {
        match &self.output {
            Some(given) => given.clone(),
            None => "output.".to_owned().concat(self.format.name()),
        }
    }
}

/// Reads a format's name as the command line gives it.
pub fn parse_format(format: &str) -> (parsed: Result<OutputFormat, String>)
    ensures
        match format_of_name(format@) {
            Some(f) => parsed == Ok::<OutputFormat, String>(f),
            None => parsed matches Err(message) && message@ == unsupported_format_message(
                format@,
            ),
        },
{
    OutputFormat::from_name(format)
}

} // verus!
