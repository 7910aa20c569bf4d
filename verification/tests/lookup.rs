use ff_profile::document::{Document, Section};
use ff_profile::errors::{Error, IniSyntaxError};
use ff_profile::parse::parse_ini;
use ff_profile::paths::{
    default_profile_path, find_profiles_ini, firefox_home_path, join_profile, profiles_ini_path,
};
use ff_profile::select::find_default_profile;

fn parsed(text: &str) -> Document {
    match parse_ini(text) {
        Ok(doc) => doc,
        Err(_) => panic!("expected the text to parse"),
    }
}

#[test]
fn unique_install_section_yields_joined_path() {
    let text = "[Install4F96D1932A9F858E]\nDefault=abcd.default\n";
    let r = default_profile_path("/home/user", text);
    assert_eq!(r, Ok(String::from("/home/user/.mozilla/firefox/abcd.default")));
}

#[test]
fn absent_file_is_no_profiles_ini() {
    let r = find_profiles_ini("/home/user", false);
    assert_eq!(r, Err(Error::NoProfilesIni));
}

#[test]
fn present_file_yields_its_path() {
    let r = find_profiles_ini("/home/user", true);
    assert_eq!(r, Ok(String::from("/home/user/.mozilla/firefox/profiles.ini")));
}

#[test]
fn unterminated_header_is_parse_error() {
    let r = default_profile_path("/home/user", "[Foo");
    assert_eq!(
        r,
        Err(Error::ParseIniError { source: IniSyntaxError::UnterminatedHeader })
    );
}

#[test]
fn parse_error_message_carries_diagnostic() {
    let e = Error::ParseIniError { source: IniSyntaxError::UnterminatedHeader };
    assert_eq!(e.message(), "parsing INI failed: unterminated section header");
    let e = Error::ParseIniError { source: IniSyntaxError::MissingEquals };
    assert_eq!(e.message(), "parsing INI failed: expected a 'key = value' line");
}

#[test]
fn line_without_equals_is_parse_error() {
    let r = default_profile_path("/home/user", "[Install1]\njust some words\n");
    assert_eq!(r, Err(Error::ParseIniError { source: IniSyntaxError::MissingEquals }));
}

#[test]
fn no_install_section_is_reported() {
    let text = "[General]\nStartWithLastProfile=1\n\n[Crash Reporter]\nEnabled=1\n";
    let r = default_profile_path("/home/user", text);
    assert_eq!(r, Err(Error::NoInstallSection));
}

#[test]
fn install_section_without_default_is_reported() {
    let text = "[Install0123456789ABCDEF]\nLocked=1\n";
    let r = default_profile_path("/home/user", text);
    assert_eq!(r, Err(Error::NoDefaultProfile));
}

#[test]
fn first_install_section_wins() {
    let text = "[Install1]\nDefault=abc.default\n[Install2]\nDefault=xyz.default\n";
    let r = default_profile_path("/home/user", text);
    assert_eq!(r, Ok(String::from("/home/user/.mozilla/firefox/abc.default")));
}

#[test]
fn rerunning_with_unchanged_inputs_is_identical() {
    let text = "[Install1]\nDefault=abc.default\n";
    let r1 = default_profile_path("/home/user", text);
    let r2 = default_profile_path("/home/user", text);
    assert_eq!(r1, r2);
}

#[test]
fn empty_text_is_one_anonymous_section() {
    let doc = parsed("");
    assert_eq!(doc.sections.len(), 1);
    assert!(doc.sections[0].name.is_none());
    assert_eq!(doc.sections[0].entries.len(), 0);
}

#[test]
fn comments_and_blank_lines_are_ignored() {
    let text = "; a comment\n# another\n\n[Install1]\n; inside\nDefault=abc\n";
    let doc = parsed(text);
    assert_eq!(doc.sections.len(), 2);
    assert_eq!(doc.sections[1].name.as_deref(), Some("Install1"));
    assert_eq!(doc.sections[1].entries.len(), 1);
    assert_eq!(doc.sections[1].entries[0].0, "Default");
    assert_eq!(doc.sections[1].entries[0].1, "abc");
}

#[test]
fn content_before_a_header_is_anonymous() {
    let text = "orphan=1\n[Install1]\nDefault=abc\n";
    let doc = parsed(text);
    assert_eq!(doc.sections.len(), 2);
    assert!(doc.sections[0].name.is_none());
    assert_eq!(doc.sections[0].entries[0].0, "orphan");
    let r = find_default_profile(&doc);
    assert_eq!(r, Ok(String::from("abc")));
}

#[test]
fn whitespace_around_tokens_is_trimmed() {
    let text = "  [Install1]  \n  Default  =  padded.value  \n";
    let doc = parsed(text);
    assert_eq!(doc.sections[1].name.as_deref(), Some("Install1"));
    assert_eq!(doc.sections[1].entries[0].0, "Default");
    assert_eq!(doc.sections[1].entries[0].1, "padded.value");
}

#[test]
fn windows_line_endings_are_accepted() {
    let text = "[Install1]\r\nDefault=abc\r\n";
    let r = default_profile_path("/home/user", text);
    assert_eq!(r, Ok(String::from("/home/user/.mozilla/firefox/abc")));
}

#[test]
fn later_binding_of_a_key_overrides_an_earlier_one() {
    let text = "[Install1]\nDefault=first\nDefault=second\n";
    let doc = parsed(text);
    assert_eq!(doc.sections[1].entries.len(), 2);
    let r = find_default_profile(&doc);
    assert_eq!(r, Ok(String::from("second")));
}

#[test]
fn section_lookup_misses_absent_keys() {
    let sec = Section {
        name: Some(String::from("Install1")),
        entries: vec![(String::from("Locked"), String::from("1"))],
    };
    assert_eq!(sec.lookup("Default"), None);
    assert_eq!(sec.lookup("Locked"), Some(String::from("1")));
}

#[test]
fn install_prefix_is_case_sensitive_and_exact() {
    let r = default_profile_path("/h", "[install1]\nDefault=abc\n");
    assert_eq!(r, Err(Error::NoInstallSection));
    let r = default_profile_path("/h", "[Instal]\nDefault=abc\n");
    assert_eq!(r, Err(Error::NoInstallSection));
    let r = default_profile_path("/h", "[Install]\nDefault=abc\n");
    assert_eq!(r, Ok(String::from("/h/.mozilla/firefox/abc")));
}

#[test]
fn default_key_is_case_sensitive() {
    let r = default_profile_path("/h", "[Install1]\ndefault=abc\n");
    assert_eq!(r, Err(Error::NoDefaultProfile));
}

#[test]
fn anonymous_section_is_no_install_candidate() {
    let text = "Default=orphan\n[Install1]\nDefault=abc\n";
    let r = default_profile_path("/h", text);
    assert_eq!(r, Ok(String::from("/h/.mozilla/firefox/abc")));
}

#[test]
fn path_helpers_join_as_documented() {
    assert_eq!(firefox_home_path("/home/user"), "/home/user/.mozilla/firefox");
    assert_eq!(
        profiles_ini_path("/home/user"),
        "/home/user/.mozilla/firefox/profiles.ini"
    );
    assert_eq!(join_profile("/base", "abc.default"), "/base/abc.default");
}

#[test]
fn error_messages_match_their_kinds() {
    assert_eq!(Error::NoHomeDir.message(), "user home directory doesn't exist");
    assert_eq!(Error::NoProfilesIni.message(), "profiles.ini doesn't exist");
    assert_eq!(Error::NoInstallSection.message(), "no Install* section in profiles.ini");
    assert_eq!(Error::NoDefaultProfile.message(), "no default profile in profiles.ini");
}
