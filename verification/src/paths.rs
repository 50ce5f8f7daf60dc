use vstd::prelude::*;

verus! {

/// The home directory to use: the first of `USERPROFILE` and `HOME` that is
/// set to a non-empty value.
pub fn choose_home_dir(userprofile: Option<String>, home: Option<String>) -> (dir: Option<String>)
    ensures
        dir == (if userprofile is Some && userprofile->0@.len() > 0 {
            userprofile
        } else if home is Some && home->0@.len() > 0 {
            home
        } else {
            None::<String>
        }),
{
    match userprofile {
        Some(p) => {
            if p.as_str().unicode_len() > 0 {
                return Some(p);
            }
        },
        None => {},
    }
    match home {
        Some(h) => {
            if h.as_str().unicode_len() > 0 {
                Some(h)
            } else {
                None
            }
        },
        None => None,
    }
}

/// A single relative path component with no separator, drive colon or dot:
/// joining it to a path can neither replace nor normalize that path.
pub open spec fn plain_component(part: Seq<char>) -> bool {
    &&& part.len() > 0
    &&& forall|i: int|
        0 <= i < part.len() ==> #[trigger] part[i] != '/' && part[i] != '\\' && part[i] != ':'
            && part[i] != '.'
}

/// `base` starts with a Windows verbatim prefix (`\\?\`), under which
/// joining normalizes the whole path.
pub open spec fn verbatim_prefixed(base: Seq<char>) -> bool {
    &&& base.len() >= 4
    &&& base[0] == '\\'
    &&& base[1] == '\\'
    &&& base[2] == '?'
    &&& base[3] == '\\'
}

/// `base` is non-empty and its last character is neither a separator nor a
/// drive colon, so joining puts a separator after it.
pub open spec fn needs_separator(base: Seq<char>) -> bool {
    &&& base.len() > 0
    &&& base.last() != '/'
    &&& base.last() != '\\'
    &&& base.last() != ':'
}

/// The bounds that joining a plain component `part` to `base` keeps on every
/// platform: `base`, then at most one separator (`/` or `\`), then `part`;
/// exactly one separator where `base` needs one.
pub open spec fn joined_as(joined: Seq<char>, base: Seq<char>, part: Seq<char>) -> bool {
    &&& base.len() + part.len() <= joined.len() <= base.len() + 1 + part.len()
    &&& joined.subrange(0, base.len() as int) == base
    &&& joined.subrange(joined.len() - part.len(), joined.len() as int) == part
    &&& joined.len() == base.len() + 1 + part.len() ==> (joined[base.len() as int] == '/'
        || joined[base.len() as int] == '\\')
    &&& needs_separator(base) ==> joined.len() == base.len() + 1 + part.len()
}

/// `std::path::Path::join`, as a string. For a plain relative component and a
/// base without a verbatim prefix the result is `base`, then one separator
/// (`/` or `\`, the platform's) unless `base` is empty or already ends in a
/// separator or drive colon, then `part`. Under a verbatim prefix the joined
/// path is normalized, and nothing is said of it.
#[verifier::external_body]
fn join_path(base: &str, part: &str) -> (joined: String)
    ensures
        plain_component(part@) && !verbatim_prefixed(base@) ==> joined_as(joined@, base@, part@),
{
    std::path::Path::new(base).join(part).to_string_lossy().into_owned()
}

/// Where to look for save files: the `Saved Games` folder of `home` when it
/// exists, else `home` itself.
pub fn default_save_folder_for_home(home: &str, saved_games_exists: bool) -> (folder: String)
    ensures
        !saved_games_exists ==> folder@ == home@,
        saved_games_exists && !verbatim_prefixed(home@) ==> joined_as(folder@, home@, "Saved Games"@),
{
    if saved_games_exists {
        proof {
            reveal_strlit("Saved Games");
        }
        join_path(home, "Saved Games")
    } else {
        String::from_str(home)
    }
}

} // verus!
