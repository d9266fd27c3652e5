//! Where the backend runs: a per-user application-data directory, given as
//! its path components (the first one absolute, the rest joined below it).
use vstd::prelude::*;

verus! {

/// The platform families whose data directories differ.
#[derive(Clone, Copy, Debug, PartialEq, Eq, Structural)]
pub enum Platform {
    Windows,
    MacOs,
    Other,
}

/// The mathematical value of an optional string.
pub open spec fn opt_chars(s: Option<String>) -> Option<Seq<char>> {
    match s {
        Some(x) => Some(x@),
        None => None,
    }
}

/// The mathematical value of optional path components.
pub open spec fn opt_components(r: Option<Vec<String>>) -> Option<Seq<Seq<char>>> {
    match r {
        Some(v) => Some(v@.map_values(|s: String| s@)),
        None => None,
    }
}

/// The data directory of a platform, from the roaming application-data
/// directory (Windows) and the home directory; `None` where the home
/// directory is needed and unknown.
pub open spec fn data_dir_of(
    platform: Platform,
    appdata: Option<Seq<char>>,
    home: Option<Seq<char>>,
) -> Option<Seq<Seq<char>>> {
    match platform {
        Platform::Windows => match appdata {
            Some(a) => Some(seq![a, "Document-QA"@]),
            None => match home {
                Some(h) => Some(seq![h, "AppData\\Roaming"@, "Document-QA"@]),
                None => None,
            },
        },
        Platform::MacOs => match home {
            Some(h) => Some(seq![h, "Library"@, "Application Support"@, "Document-QA"@]),
            None => None,
        },
        Platform::Other => match home {
            Some(h) => Some(seq![h, ".document-qa"@]),
            None => None,
        },
    }
}

/// The data directory of a platform, from the roaming application-data
/// directory (Windows) and the home directory.
pub fn data_dir(platform: Platform, appdata: Option<String>, home: Option<String>) -> (r: Option<
    Vec<String>,
>)
    ensures
        opt_components(r) == data_dir_of(platform, opt_chars(appdata), opt_chars(home)),
{
    let mut v: Vec<String> = Vec::new();
    match platform {
        Platform::Windows => match appdata {
            Some(a) => {
                v.push(a);
            },
            None => match home {
                Some(h) => {
                    v.push(h);
                    v.push(String::from_str("AppData\\Roaming"));
                },
                None => {
                    return None;
                },
            },
        },
        Platform::MacOs => match home {
            Some(h) => {
                v.push(h);
                v.push(String::from_str("Library"));
                v.push(String::from_str("Application Support"));
            },
            None => {
                return None;
            },
        },
        Platform::Other => match home {
            Some(h) => {
                v.push(h);
                v.push(String::from_str(".document-qa"));
                proof {
                    assert(v@.map_values(|s: String| s@) =~= seq![h@, ".document-qa"@]);
                }
                return Some(v);
            },
            None => {
                return None;
            },
        },
    }
    v.push(String::from_str("Document-QA"));
    proof {
        assert(opt_components(Some(v)) =~= data_dir_of(
            platform,
            opt_chars(appdata),
            opt_chars(home),
        ));
    }
    Some(v)
}

/// Relies on `dirs::home_dir`: the user's home directory, which depends on
/// the environment and the user database, so nothing is stated of it.
#[verifier::external_body]
fn home_dir() -> (r: Option<String>) {
    dirs::home_dir().map(|p| p.to_string_lossy().into_owned())
}

/// The data directory of a platform, with the home directory looked up:
/// whatever the lookup gives, the result is `data_dir_of` for it.
pub fn resolve_data_dir(platform: Platform, appdata: Option<String>) -> (r: Option<Vec<String>>)
    ensures
        exists|home: Option<Seq<char>>|
            opt_components(r) == data_dir_of(platform, opt_chars(appdata), home),
{
    let home = home_dir();
    let r = data_dir(platform, appdata, home);
    proof {
        let w = opt_chars(home);
        assert(opt_components(r) == data_dir_of(platform, opt_chars(appdata), w));
    }
    r
}

} // verus!
