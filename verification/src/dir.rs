//! Directory paths.

use vstd::prelude::*;

use crate::text::{join, spec_join};

verus! {

/// The user's configuration directory, by `xdir::config`: `$XDG_CONFIG_HOME`
/// when set and non-empty, else `.config` under the home directory; `None`
/// when neither is known. A path that is not Unicode is read lossily.
///
/// The result depends on the environment, so the contract states only what
/// holds of every outcome: a path found is never empty.
#[verifier::external_body]
fn xdg_config() -> (r: Option<String>)
    ensures
        r matches Some(p) ==> p@.len() > 0,
{
    ::xdir::config().map(|p| p.to_string_lossy().into_owned())
}

/// The user's data directory, by `xdir::data`: `$XDG_DATA_HOME` when set and
/// non-empty, else `.local/share` under the home directory; `None` when
/// neither is known. A path that is not Unicode is read lossily.
///
/// The result depends on the environment, so the contract states only what
/// holds of every outcome: a path found is never empty.
#[verifier::external_body]
fn xdg_data() -> (r: Option<String>)
    ensures
        r matches Some(p) ==> p@.len() > 0,
{
    ::xdir::data().map(|p| p.to_string_lossy().into_owned())
}

/// The application's directory under a standard directory; the empty path
/// when the standard directory is unknown.
pub open spec fn spec_app_dir(base: Option<Seq<char>>) -> Seq<char> {
    match base {
        Some(b) => spec_join(b, "media"@),
        None => Seq::empty(),
    }
}

/// The application's directory under a standard directory.
pub fn app_dir(base: Option<String>) -> (r: String)
    ensures
        r@ == spec_app_dir(match base {
            Some(b) => Some(b@),
            None => None,
        }),
{
    match base {
        Some(b) => join(b.as_str(), "media"),
        None => String::new(),
    }
}

/// The application's configuration directory: `media` under the user's
/// configuration directory, or the empty path when that is unknown.
pub fn config() -> (r: String)
    ensures
        exists|b: Option<Seq<char>>| r@ == spec_app_dir(b),
{
    let base = xdg_config();
    let ghost b = match &base {
        Some(p) => Some(p@),
        None => None,
    };
    let r = app_dir(base);
    assert(r@ == spec_app_dir(b));
    r
}

/// The application's data directory: `media` under the user's data
/// directory, or the empty path when that is unknown.
pub fn data() -> (r: String)
    ensures
        exists|b: Option<Seq<char>>| r@ == spec_app_dir(b),
{
    let base = xdg_data();
    let ghost b = match &base {
        Some(p) => Some(p@),
        None => None,
    };
    let r = app_dir(base);
    assert(r@ == spec_app_dir(b));
    r
}

/// The application's directory is `media` under the standard directory,
/// separated by one `/`, and the empty path when the standard directory is
/// unknown.
pub proof fn lemma_app_dir(base: Seq<char>)
    requires
        base.len() > 0,
        base.last() != '/',
    ensures
        spec_app_dir(Some(base)) == base + "/media"@,
        spec_app_dir(None) == Seq::<char>::empty(),
{
    reveal_strlit("/media");
    reveal_strlit("media");
    reveal_strlit("/");
    assert(base + "/"@ + "media"@ =~= base + "/media"@);
}

} // verus!
