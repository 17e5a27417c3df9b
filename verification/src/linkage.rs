//! Where the build links libobs from on macOS.
//!
//! The build looks for libobs and the frontend API inside the OBS
//! application bundles it knows of. Probing the file system is the
//! caller's part; [`mac_link_directives`] decides, from what was found in
//! each candidate directory, which `cargo:` directives are emitted.

use vstd::prelude::*;
use vstd::string::StringExecFns;

verus! {

/// What was found in one candidate directory.
pub struct LibraryProbe {
    /// The directory, as it is printed in directives.
    pub dir: String,
    /// Whether `libobs.0.dylib` there is a file.
    pub obs_dylib_is_file: bool,
    /// Whether `libobs.framework` there is a directory.
    pub obs_framework_is_dir: bool,
    /// Whether `libobs-frontend-api.1.dylib` there is a file.
    pub frontend_dylib_is_file: bool,
}

/// Why linking cannot be set up.
#[derive(Debug, Clone, Copy, PartialEq, Eq, Structural)]
pub enum MacLinkError {
    /// No candidate holds libobs.
    LibObsNotFound,
    /// No candidate holds the frontend API library.
    FrontendApiNotFound,
}

/// `cargo:rustc-link-search=` followed by `dir`.
pub open spec fn search_line(dir: Seq<char>) -> Seq<char> {
    "cargo:rustc-link-search="@ + dir
}

/// `cargo:rustc-link-search=framework=` followed by `dir`.
pub open spec fn framework_search_line(dir: Seq<char>) -> Seq<char> {
    "cargo:rustc-link-search=framework="@ + dir
}

/// The directives one candidate adds, and whether libobs and the frontend
/// API have been found once it is looked at: libobs is looked for only
/// until it is found (a dylib and a framework in the same directory both
/// count), and so is the frontend API.
pub open spec fn candidate_lines(p: LibraryProbe, found_obs: bool, found_frontend: bool) -> (Seq<
    Seq<char>,
>, bool, bool) {
    let dylib_lines = if !found_obs && p.obs_dylib_is_file {
        seq![search_line(p.dir@), "cargo:rustc-link-lib=dylib=obs.0"@]
    } else {
        Seq::empty()
    };
    let framework_lines = if !found_obs && p.obs_framework_is_dir {
        seq![framework_search_line(p.dir@), "cargo:rustc-link-lib=framework=libobs"@]
    } else {
        Seq::empty()
    };
    let frontend_lines = if !found_frontend && p.frontend_dylib_is_file {
        seq![search_line(p.dir@), "cargo:rustc-link-lib=dylib=obs-frontend-api.1"@]
    } else {
        Seq::empty()
    };
    (
        dylib_lines + framework_lines + frontend_lines,
        found_obs || p.obs_dylib_is_file || p.obs_framework_is_dir,
        found_frontend || p.frontend_dylib_is_file,
    )
}

/// The directives the candidates add in order, and whether libobs and the
/// frontend API were found, starting from the given findings.
pub open spec fn link_lines(probes: Seq<LibraryProbe>, found_obs: bool, found_frontend: bool) -> (Seq<
    Seq<char>,
>, bool, bool)
    decreases probes.len(),
{
    if probes.len() == 0 {
        (Seq::empty(), found_obs, found_frontend)
    } else {
        let (lines, fo, ff) = candidate_lines(probes[0], found_obs, found_frontend);
        let (rest, fo2, ff2) = link_lines(probes.drop_first(), fo, ff);
        (lines + rest, fo2, ff2)
    }
}

/// What the build emits: with an explicit libobs path, a single native
/// search directive; otherwise the directives of the candidates in order,
/// provided libobs and then the frontend API were found somewhere.
pub open spec fn spec_mac_link(libobs_path: Option<Seq<char>>, probes: Seq<LibraryProbe>) -> Result<
    Seq<Seq<char>>,
    MacLinkError,
> {
    match libobs_path {
        Some(path) => Ok(seq!["cargo:rustc-link-search=native="@ + path]),
        None => {
            let (lines, found_obs, found_frontend) = link_lines(probes, false, false);
            if !found_obs {
                Err(MacLinkError::LibObsNotFound)
            } else if !found_frontend {
                Err(MacLinkError::FrontendApiNotFound)
            } else {
                Ok(lines)
            }
        },
    }
}

/// An explicit libobs path is always honored: whatever the candidate
/// directories hold, the build then emits exactly the native search
/// directive for that path.
pub proof fn lemma_libobs_path_overrides_probes(
    path: Seq<char>,
    probes1: Seq<LibraryProbe>,
    probes2: Seq<LibraryProbe>,
)
    ensures
        spec_mac_link(Some(path), probes1) == spec_mac_link(Some(path), probes2),
        spec_mac_link(Some(path), probes1) == Ok::<Seq<Seq<char>>, MacLinkError>(
            seq!["cargo:rustc-link-search=native="@ + path],
        ),
{
}

/// The text of a string, for each string of a vector.
pub open spec fn texts(v: Seq<String>) -> Seq<Seq<char>> {
    v.map_values(|s: String| s@)
}

fn concat_line(prefix: &str, dir: &str) -> (r: String)
    ensures
        r@ == prefix@ + dir@,
{
    let mut line = String::from_str(prefix);
    line.append(dir);
    line
}

fn push_line(out: &mut Vec<String>, line: String)
    ensures
        texts(final(out)@) == texts(old(out)@).push(line@),
{
    let ghost before = out@;
    out.push(line);
    assert(texts(out@) =~= texts(before).push(line@));
}

/// Appends the directives one candidate adds and returns the findings
/// after it.
fn add_candidate_lines(
    out: &mut Vec<String>,
    p: &LibraryProbe,
    found_obs: bool,
    found_frontend: bool,
) -> (r: (bool, bool))
    ensures
        ({
            let (lines, fo, ff) = candidate_lines(*p, found_obs, found_frontend);
            texts(final(out)@) == texts(old(out)@) + lines && r == (fo, ff)
        }),
{
    let ghost before = texts(out@);
    let mut fo = found_obs;
    let mut ff = found_frontend;
    if !found_obs {
        if p.obs_dylib_is_file {
            push_line(out, concat_line("cargo:rustc-link-search=", p.dir.as_str()));
            push_line(out, String::from_str("cargo:rustc-link-lib=dylib=obs.0"));
        }
        if p.obs_framework_is_dir {
            push_line(out, concat_line("cargo:rustc-link-search=framework=", p.dir.as_str()));
            push_line(out, String::from_str("cargo:rustc-link-lib=framework=libobs"));
        }
        fo = p.obs_dylib_is_file || p.obs_framework_is_dir;
    }
    if !found_frontend && p.frontend_dylib_is_file {
        push_line(out, concat_line("cargo:rustc-link-search=", p.dir.as_str()));
        push_line(out, String::from_str("cargo:rustc-link-lib=dylib=obs-frontend-api.1"));
        ff = true;
    }
    proof {
        let (lines, sfo, sff) = candidate_lines(*p, found_obs, found_frontend);
        assert(texts(out@) =~= before + lines);
    }
    (fo, ff)
}

/// Decides the link directives for macOS builds from `LIBOBS_PATH` (when
/// set) and the probes of the candidate directories, in search order.
pub fn mac_link_directives(libobs_path: Option<&str>, probes: &Vec<LibraryProbe>) -> (r: Result<
    Vec<String>,
    MacLinkError,
>)
    ensures
        match r {
            Ok(lines) => spec_mac_link(
                match libobs_path {
                    Some(p) => Some(p@),
                    None => None,
                },
                probes@,
            ) == Ok::<Seq<Seq<char>>, MacLinkError>(texts(lines@)),
            Err(e) => spec_mac_link(
                match libobs_path {
                    Some(p) => Some(p@),
                    None => None,
                },
                probes@,
            ) == Err::<Seq<Seq<char>>, MacLinkError>(e),
        },
{
    let ghost views = probes@;
    if let Some(path) = libobs_path {
        let mut out: Vec<String> = Vec::new();
        let line = concat_line("cargo:rustc-link-search=native=", path);
        push_line(&mut out, line);
        proof {
            assert(texts(out@) =~= seq!["cargo:rustc-link-search=native="@ + path@]);
        }
        return Ok(out);
    }
    let mut out: Vec<String> = Vec::new();
    let mut found_obs = false;
    let mut found_frontend = false;
    let mut i: usize = 0;
    proof {
        assert(views.skip(0) =~= views);
        assert(texts(out@) =~= Seq::<Seq<char>>::empty());
    }
    while i < probes.len()
        invariant
            i <= probes.len(),
            views == probes@,
            link_lines(views, false, false) == ({
                let (rest, fo, ff) = link_lines(views.skip(i as int), found_obs, found_frontend);
                (texts(out@) + rest, fo, ff)
            }),
        decreases probes.len() - i,
    {
        let p = &probes[i];
        proof {
            assert(views.skip(i as int).drop_first() =~= views.skip(i + 1));
            assert(views.skip(i as int)[0] == *p);
        }
        let (fo, ff) = add_candidate_lines(&mut out, p, found_obs, found_frontend);
        found_obs = fo;
        found_frontend = ff;
        i = i + 1;
    }
    proof {
        assert(views.skip(i as int) =~= Seq::<LibraryProbe>::empty());
        assert(texts(out@) + Seq::<Seq<char>>::empty() =~= texts(out@));
    }
    if !found_obs {
        return Err(MacLinkError::LibObsNotFound);
    }
    if !found_frontend {
        return Err(MacLinkError::FrontendApiNotFound);
    }
    Ok(out)
}

} // verus!
