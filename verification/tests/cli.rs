use rcli::cli::base64::parse_base64_format;
use rcli::cli::text::parse_format as parse_text_format;
use rcli::cli::{
    checked_directory, checked_file, checked_input_file, names_stdin, verify_input_file,
};
use rcli::{
    parse_format, verify_file, verify_path, Base64Format, OutputFormat, SignError, TextSignFormat,
};
use std::str::FromStr;

#[test]
fn test_verify_file() {
    assert_eq!(verify_file("-"), Ok("-".into()));
    assert_eq!(verify_file("*"), Err("Input file * does not exist".into()));
    assert_eq!(verify_file("src/cli/mod.rs"), Ok("src/cli/mod.rs".into()));
    assert!(verify_file("non_existent_file.txt").is_err());
}

#[test]
fn only_a_dash_names_standard_input() {
    assert!(names_stdin("-"));
    assert!(!names_stdin(""));
    assert!(!names_stdin("--"));
    assert!(!names_stdin(" -"));
    assert!(!names_stdin("\u{2212}"));
}

#[test]
fn checked_file_decides_from_the_answer() {
    assert_eq!(checked_file("-", false), Ok("-".to_string()));
    assert_eq!(checked_file("-", true), Ok("-".to_string()));
    assert_eq!(checked_file("notes.txt", true), Ok("notes.txt".to_string()));
    assert_eq!(
        checked_file("notes.txt", false),
        Err("Input file notes.txt does not exist".to_string())
    );
    assert_eq!(checked_file("", false), Err("Input file  does not exist".to_string()));
}

#[test]
fn verify_path_takes_directories_only() {
    assert_eq!(verify_path("src"), Ok("src".to_string()));
    assert_eq!(verify_path("src/cli"), Ok("src/cli".to_string()));
    assert_eq!(
        verify_path("src/lib.rs"),
        Err("Input file \"src/lib.rs\" does not exist or is not a directory".to_string())
    );
    assert_eq!(
        verify_path("no/such dir"),
        Err("Input file \"no/such dir\" does not exist or is not a directory".to_string())
    );
}

#[test]
fn checked_directory_decides_from_the_answers() {
    assert_eq!(checked_directory("a", true, true), Ok("a".to_string()));
    let refused = Err("Input file \"a\" does not exist or is not a directory".to_string());
    assert_eq!(checked_directory("a", true, false), refused);
    assert_eq!(checked_directory("a", false, false), refused);
    assert_eq!(checked_directory("a", false, true), refused);
}

#[test]
fn output_format_names() {
    assert_eq!(parse_format("json"), Ok(OutputFormat::Json));
    assert_eq!(parse_format("Json"), Ok(OutputFormat::Json));
    assert_eq!(parse_format("YAML"), Ok(OutputFormat::Yaml));
    assert_eq!(parse_format("toml"), Ok(OutputFormat::Toml));
    assert_eq!(
        parse_format("xml"),
        Err("Unsupported output format: xml. Supported formats are: json, yaml, toml".to_string())
    );
    assert_eq!(OutputFormat::from_str("yaml"), Ok(OutputFormat::Yaml));
    assert_eq!(OutputFormat::try_from("toml"), Ok(OutputFormat::Toml));
    assert!(OutputFormat::try_from("").is_err());
    assert_eq!(<&str>::from(OutputFormat::Json), "json");
    assert_eq!(<&str>::from(OutputFormat::Yaml), "yaml");
    assert_eq!(<&str>::from(OutputFormat::Toml), "toml");
    assert_eq!(OutputFormat::Toml.name(), "toml");
}

#[test]
fn base64_format_names() {
    assert_eq!(parse_base64_format("standard"), Ok(Base64Format::Standard));
    assert_eq!(parse_base64_format("STANDARD"), Ok(Base64Format::Standard));
    assert_eq!(parse_base64_format("urlsafe"), Ok(Base64Format::UrlSafe));
    assert_eq!(parse_base64_format("url_safe"), Ok(Base64Format::UrlSafe));
    assert_eq!(
        parse_base64_format("hex"),
        Err("Invalid base64 format: hex. Use 'standard' or 'urlsafe'".to_string())
    );
    assert_eq!(Base64Format::from_str("UrlSafe"), Ok(Base64Format::UrlSafe));
    assert_eq!(Base64Format::try_from("standard"), Ok(Base64Format::Standard));
    assert_eq!(<&str>::from(Base64Format::Standard), "standard");
    assert_eq!(<&str>::from(Base64Format::UrlSafe), "urlsafe");
    assert_eq!(Base64Format::UrlSafe.name(), "urlsafe");
}

#[test]
fn text_format_tags() {
    assert_eq!(parse_text_format("blake3"), Ok(TextSignFormat::Blake3));
    assert_eq!(parse_text_format("Blake3"), Ok(TextSignFormat::Blake3));
    assert_eq!(parse_text_format("ed25519"), Ok(TextSignFormat::Ed25519));
    assert_eq!(parse_text_format("blake3-equivalent"), Ok(TextSignFormat::Blake3));
    assert_eq!(parse_text_format("ed25519-equivalent"), Ok(TextSignFormat::Ed25519));
    // The Kelvin sign is a capital letter whose small form is `k`.
    assert_eq!(parse_text_format("BLA\u{212a}E3"), Ok(TextSignFormat::Blake3));
    assert_eq!(
        parse_text_format("rsa"),
        Err("Invalid text sign format: rsa".to_string())
    );
    assert_eq!(TextSignFormat::from_str("ED25519"), Ok(TextSignFormat::Ed25519));
    assert_eq!(TextSignFormat::from_str("md5"), Err("Invalid format: md5".to_string()));
    assert_eq!(<&str>::from(TextSignFormat::Blake3), "blake3");
    assert_eq!(<&str>::from(TextSignFormat::Ed25519), "ed25519");
    assert_eq!(TextSignFormat::Ed25519.name(), "ed25519");
}

#[test]
fn unknown_tag_is_unknown_format() {
    assert_eq!(TextSignFormat::from_tag("blake3"), Ok(TextSignFormat::Blake3));
    assert_eq!(TextSignFormat::from_tag("ed25519-equivalent"), Ok(TextSignFormat::Ed25519));
    assert_eq!(TextSignFormat::from_tag("blake2"), Err(SignError::UnknownFormat));
    assert_eq!(TextSignFormat::from_tag(""), Err(SignError::UnknownFormat));
    assert_eq!(TextSignFormat::from_tag(" blake3"), Err(SignError::UnknownFormat));
}

#[test]
fn an_input_file_has_to_be_there() {
    assert_eq!(verify_input_file("src/lib.rs"), Ok("src/lib.rs".to_string()));
    assert_eq!(verify_input_file("-"), Err("Input file - does not exist".to_string()));
    assert_eq!(
        verify_input_file("no_such_file.csv"),
        Err("Input file no_such_file.csv does not exist".to_string())
    );
}

#[test]
fn checked_input_file_decides_from_the_answer() {
    assert_eq!(checked_input_file("in.csv", true), Ok("in.csv".to_string()));
    assert_eq!(
        checked_input_file("in.csv", false),
        Err("Input file in.csv does not exist".to_string())
    );
    assert_eq!(checked_input_file("-", true), Ok("-".to_string()));
    assert_eq!(checked_input_file("-", false), Err("Input file - does not exist".to_string()));
}

#[test]
fn lower_case_tags_select_the_schemes() {
    assert_eq!(rcli::cli::text::format_of_lowered("blake3"), Some(TextSignFormat::Blake3));
    assert_eq!(rcli::cli::text::format_of_lowered("blake3-equivalent"), Some(TextSignFormat::Blake3));
    assert_eq!(rcli::cli::text::format_of_lowered("ed25519"), Some(TextSignFormat::Ed25519));
    assert_eq!(rcli::cli::text::format_of_lowered("ed25519-equivalent"), Some(TextSignFormat::Ed25519));
    assert_eq!(rcli::cli::text::format_of_lowered("Blake3"), None);
    assert_eq!(rcli::cli::text::format_of_lowered("blake3-"), None);
    assert_eq!(rcli::cli::text::format_of_lowered(""), None);
}

#[test]
fn lower_case_names_select_the_base64_forms() {
    assert_eq!(rcli::cli::base64::format_of_lowered("standard"), Some(Base64Format::Standard));
    assert_eq!(rcli::cli::base64::format_of_lowered("urlsafe"), Some(Base64Format::UrlSafe));
    assert_eq!(rcli::cli::base64::format_of_lowered("url_safe"), Some(Base64Format::UrlSafe));
    assert_eq!(rcli::cli::base64::format_of_lowered("Standard"), None);
    assert_eq!(rcli::cli::base64::format_of_lowered("url-safe"), None);
    assert_eq!(rcli::cli::base64::format_of_lowered(""), None);
}

#[test]
fn lower_case_names_select_the_output_formats() {
    assert_eq!(rcli::cli::csv::format_of_lowered("json"), Some(OutputFormat::Json));
    assert_eq!(rcli::cli::csv::format_of_lowered("yaml"), Some(OutputFormat::Yaml));
    assert_eq!(rcli::cli::csv::format_of_lowered("toml"), Some(OutputFormat::Toml));
    assert_eq!(rcli::cli::csv::format_of_lowered("JSON"), None);
    assert_eq!(rcli::cli::csv::format_of_lowered("yml"), None);
    assert_eq!(rcli::cli::csv::format_of_lowered(""), None);
}

#[test]
fn each_failure_has_its_report() {
    assert_eq!(SignError::MalformedInput.message(), "not valid UTF-8");
    assert_eq!(
        SignError::KeyTooShort.message(),
        "Key length is too short, need at least 32 bytes"
    );
    assert_eq!(
        SignError::InvalidKeyEncoding.message(),
        "Key is not the encoding of a point on the curve"
    );
    assert_eq!(SignError::InvalidSignatureEncoding.message(), "Signature cannot be decoded");
    assert_eq!(SignError::UnknownFormat.message(), "Unknown signing format");
}
