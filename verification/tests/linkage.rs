use obs_rs::linkage::{mac_link_directives, LibraryProbe, MacLinkError};

fn probe(dir: &str, dylib: bool, framework: bool, frontend: bool) -> LibraryProbe {
    LibraryProbe {
        dir: String::from(dir),
        obs_dylib_is_file: dylib,
        obs_framework_is_dir: framework,
        frontend_dylib_is_file: frontend,
    }
}

#[test]
fn explicit_path_wins() {
    let probes = vec![probe("/a", true, true, true)];
    assert_eq!(
        mac_link_directives(Some("/opt/obs/lib"), &probes),
        Ok(vec![String::from("cargo:rustc-link-search=native=/opt/obs/lib")])
    );
    assert_eq!(
        mac_link_directives(Some("/x"), &Vec::new()),
        Ok(vec![String::from("cargo:rustc-link-search=native=/x")])
    );
}

#[test]
fn finds_dylib_and_frontend_in_macos_dir() {
    let probes = vec![
        probe("/Users/u/Applications/OBS.app/Contents/MacOS", false, false, false),
        probe("/Users/u/Applications/OBS.app/Contents/Frameworks", false, false, false),
        probe("/Applications/OBS.app/Contents/MacOS", true, false, true),
        probe("/Applications/OBS.app/Contents/Frameworks", true, true, true),
    ];
    assert_eq!(
        mac_link_directives(None, &probes),
        Ok(vec![
            String::from("cargo:rustc-link-search=/Applications/OBS.app/Contents/MacOS"),
            String::from("cargo:rustc-link-lib=dylib=obs.0"),
            String::from("cargo:rustc-link-search=/Applications/OBS.app/Contents/MacOS"),
            String::from("cargo:rustc-link-lib=dylib=obs-frontend-api.1"),
        ])
    );
}

#[test]
fn dylib_and_framework_in_one_dir_both_count() {
    let probes = vec![probe("/F", true, true, false), probe("/G", false, true, true)];
    assert_eq!(
        mac_link_directives(None, &probes),
        Ok(vec![
            String::from("cargo:rustc-link-search=/F"),
            String::from("cargo:rustc-link-lib=dylib=obs.0"),
            String::from("cargo:rustc-link-search=framework=/F"),
            String::from("cargo:rustc-link-lib=framework=libobs"),
            String::from("cargo:rustc-link-search=/G"),
            String::from("cargo:rustc-link-lib=dylib=obs-frontend-api.1"),
        ])
    );
}

#[test]
fn missing_libraries_are_reported() {
    assert_eq!(mac_link_directives(None, &Vec::new()), Err(MacLinkError::LibObsNotFound));
    let only_frontend = vec![probe("/A", false, false, true)];
    assert_eq!(mac_link_directives(None, &only_frontend), Err(MacLinkError::LibObsNotFound));
    let only_obs = vec![probe("/A", false, true, false)];
    assert_eq!(mac_link_directives(None, &only_obs), Err(MacLinkError::FrontendApiNotFound));
}
