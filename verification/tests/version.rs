use obs_rs::version::{
    header_define, libobs_soname_major, parse_major_override, parse_pkg_config_major,
    select_obs_major, DefineError, MajorSelectionError, SUPPORTED_MAJORS,
};
use obs_rs::version::{chars_of, parse_short_version_major};

fn plist(value: &str) -> String {
    format!(
        "<?xml version=\"1.0\"?>\n<plist><dict>\n<key>CFBundleName</key>\n<string>OBS</string>\n\
         <key>CFBundleShortVersionString</key>\n<string>{}</string>\n</dict></plist>\n",
        value
    )
}

#[test]
fn version_major_plain() {
    assert_eq!(parse_short_version_major(&plist("31.0.3")), Some(31));
    assert_eq!(parse_short_version_major(&plist("30")), Some(30));
}

#[test]
fn version_major_trims_white_space() {
    assert_eq!(parse_short_version_major(&plist("  32.1.0 \n")), Some(32));
    assert_eq!(parse_short_version_major(&plist("\u{a0}29.1")), Some(29));
}

#[test]
fn version_major_accepts_plus_sign() {
    assert_eq!(parse_short_version_major(&plist("+31.0")), Some(31));
}

#[test]
fn version_major_rejects_bad_numbers() {
    assert_eq!(parse_short_version_major(&plist("")), None);
    assert_eq!(parse_short_version_major(&plist("v31.0")), None);
    assert_eq!(parse_short_version_major(&plist("-1.0")), None);
    assert_eq!(parse_short_version_major(&plist("+")), None);
    assert_eq!(parse_short_version_major(&plist("3 1.0")), None);
    assert_eq!(parse_short_version_major(&plist("4294967296.0")), None);
    assert_eq!(parse_short_version_major(&plist("4294967295.0")), Some(4294967295));
}

#[test]
fn version_major_needs_key_and_elements() {
    assert_eq!(parse_short_version_major("<string>31.0</string>"), None);
    assert_eq!(
        parse_short_version_major("<key>CFBundleShortVersionString</key> 31.0"),
        None
    );
    assert_eq!(
        parse_short_version_major("<key>CFBundleShortVersionString</key><string>31.0"),
        None
    );
    assert_eq!(
        parse_short_version_major("<key>CFBundleShortVersionString</key><string>31.0</string>"),
        Some(31)
    );
}

#[test]
fn version_major_reads_first_string_after_key() {
    let text = "<string>7</string><key>CFBundleShortVersionString</key>\
                <integer>1</integer><string>28.0</string><string>99</string>";
    assert_eq!(parse_short_version_major(text), Some(28));
}

#[test]
fn chars_of_lists_characters() {
    assert_eq!(chars_of("aé."), vec!['a', 'é', '.']);
    assert_eq!(chars_of(""), Vec::<char>::new());
}

#[test]
fn major_override_trims() {
    assert_eq!(parse_major_override(" 31\n"), Some(31));
    assert_eq!(parse_major_override("31.0"), None);
    assert_eq!(parse_major_override(""), None);
}

#[test]
fn pkg_config_major() {
    assert_eq!(parse_pkg_config_major("31.0.3\n"), Some(31));
    assert_eq!(parse_pkg_config_major("32\n"), Some(32));
    assert_eq!(parse_pkg_config_major(" 30 .1"), Some(30));
    assert_eq!(parse_pkg_config_major("x.1"), None);
}

#[test]
fn soname_major() {
    assert_eq!(libobs_soname_major("libobs.so.30"), Some(30));
    assert_eq!(libobs_soname_major("libobs.so.31.0.3"), Some(31));
    assert_eq!(libobs_soname_major("libobs.so."), None);
    assert_eq!(libobs_soname_major("libobs-frontend-api.so.1"), None);
    assert_eq!(libobs_soname_major("libobs.so"), None);
}

#[test]
fn obs_major_selection() {
    assert_eq!(SUPPORTED_MAJORS, [30, 31, 32]);
    assert_eq!(select_obs_major([false, true, false]), Ok(31));
    assert_eq!(select_obs_major([false, false, false]), Err(MajorSelectionError::NoneEnabled));
    assert_eq!(
        select_obs_major([true, false, true]),
        Err(MajorSelectionError::Multiple(vec![30, 32]))
    );
}

#[test]
fn header_defines() {
    let header = "#pragma once\r\n\r\n/* version */\r\n  #define LIBOBS_API_MAJOR_VER 31\r\n\
                  #define LIBOBS_API_MINOR_VER  0 \n#define LIBOBS_API_PATCH_VER x\n\
                  #define LIBOBS_API_MAJOR_VER 99\n#define LIBOBS_API_MAJOR_VERSION 7";
    assert_eq!(header_define(header, "LIBOBS_API_MAJOR_VER"), Ok(31));
    assert_eq!(header_define(header, "LIBOBS_API_MINOR_VER"), Ok(0));
    assert_eq!(header_define(header, "LIBOBS_API_PATCH_VER"), Err(DefineError::Unparsable));
    assert_eq!(header_define(header, "LIBOBS_API_VER"), Err(DefineError::NotFound));
    assert_eq!(header_define("", "X"), Err(DefineError::NotFound));
    assert_eq!(header_define("#define X", "X"), Err(DefineError::NotFound));
}
