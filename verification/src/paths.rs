//! Where the cache lives, given the user's home directory.

use vstd::prelude::*;
use vstd::string::StringExecFns;

verus! {

/// The cache directory and the cache file in it.
#[derive(Debug)]
pub struct PathInfo {
    dir: String,
    file: String,
}

/// The view of a [`PathInfo`].
pub struct PathInfoView {
    pub dir: Seq<char>,
    pub file: Seq<char>,
}

impl View for PathInfo {
    type V = PathInfoView;

    closed spec fn view(&self) -> PathInfoView {
        PathInfoView { dir: self.dir@, file: self.file@ }
    }
}

/// The cache directory under `home`: `{home}/.cache/emoji_picker`.
pub open spec fn cache_dir(home: Seq<char>) -> Seq<char> {
    home + "/.cache/emoji_picker"@
}

/// The cache file under `home`: `emoji.json` in [`cache_dir`].
pub open spec fn cache_file(home: Seq<char>) -> Seq<char> {
    cache_dir(home) + "/emoji.json"@
}

/// Both paths under `home`.
pub open spec fn paths_for(home: Seq<char>) -> PathInfoView {
    PathInfoView { dir: cache_dir(home), file: cache_file(home) }
}

/// The cache directory and file for the home directory `home`.
pub fn get_paths(home: &str) -> (paths: PathInfo)
    ensures
        paths@ == paths_for(home@),
{
    let mut dir = String::from_str(home);
    dir.append("/.cache/emoji_picker");
    let mut file = String::from_str(dir.as_str());
    file.append("/emoji.json");
    PathInfo { dir, file }
}

impl PathInfo {
    /// The cache directory.
    pub fn dir(&self) -> (path: &str)
        ensures
            path@ == self@.dir,
    {
        self.dir.as_str()
    }

    /// The cache file.
    pub fn file(&self) -> (path: &str)
        ensures
            path@ == self@.file,
    {
        self.file.as_str()
    }
}

} // verus!
