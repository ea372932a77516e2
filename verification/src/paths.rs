//! Where the files of a sound pack are looked for: a fixed list of
//! directories, tried in order.

use vstd::prelude::*;

verus! {

/// The number of directories that are searched.
pub const SEARCH_DIRS: usize = 5;

/// The directory tried at `attempt`, counted from zero.
pub open spec fn search_dir(attempt: int) -> Seq<char> {
    if attempt == 0 {
        "nk-cream/"@
    } else if attempt == 1 {
        "./nk-cream/"@
    } else if attempt == 2 {
        "../nk-cream/"@
    } else if attempt == 3 {
        "rusty-mechanical-keyboard/nk-cream/"@
    } else {
        "./rusty-mechanical-keyboard/nk-cream/"@
    }
}

/// The path under which `filename` is looked for at `attempt`.
pub open spec fn search_path(attempt: int, filename: Seq<char>) -> Seq<char> {
    search_dir(attempt) + filename
}

/// The name of the configuration file.
pub open spec fn config_filename() -> Seq<char> {
    "config.json"@
}

/// What a search for `filename` finds among `files` from `attempt` on: the
/// content of the first path, in the order of the attempts, that is there.
pub open spec fn found(files: Map<Seq<char>, Seq<u8>>, filename: Seq<char>, attempt: nat) -> Option<
    Seq<u8>,
>
    decreases SEARCH_DIRS - attempt,
{
    if attempt >= SEARCH_DIRS {
        None
    } else if files.contains_key(search_path(attempt as int, filename)) {
        Some(files[search_path(attempt as int, filename)])
    } else {
        found(files, filename, attempt + 1)
    }
}

/// The first directory that has the file wins: what a search from `attempt`
/// on finds is the content at the first attempt, from there on, whose path
/// is among `files`; and it finds nothing exactly if none of them is.
pub proof fn lemma_found_is_first(files: Map<Seq<char>, Seq<u8>>, filename: Seq<char>, attempt: nat)
    requires
        attempt <= SEARCH_DIRS,
    ensures
        match found(files, filename, attempt) {
            Some(content) => exists|first: int|
                {
                    &&& attempt <= first < SEARCH_DIRS
                    &&& files.contains_key(#[trigger] search_path(first, filename))
                    &&& content == files[search_path(first, filename)]
                    &&& forall|earlier: int|
                        attempt <= earlier < first ==> !files.contains_key(
                            #[trigger] search_path(earlier, filename),
                        )
                },
            None => forall|later: int|
                attempt <= later < SEARCH_DIRS ==> !files.contains_key(
                    #[trigger] search_path(later, filename),
                ),
        },
    decreases SEARCH_DIRS - attempt,
{
    if attempt < SEARCH_DIRS && !files.contains_key(search_path(attempt as int, filename)) {
        lemma_found_is_first(files, filename, attempt + 1);
    }
}

/// The path under which `filename` is looked for at `attempt`.
pub fn search_path_for(attempt: usize, filename: &str) -> (path: String)
    requires
        attempt < SEARCH_DIRS,
    ensures
        path@ == search_path(attempt as int, filename@),
{
    let dir = if attempt == 0 {
        "nk-cream/"
    } else if attempt == 1 {
        "./nk-cream/"
    } else if attempt == 2 {
        "../nk-cream/"
    } else if attempt == 3 {
        "rusty-mechanical-keyboard/nk-cream/"
    } else {
        "./rusty-mechanical-keyboard/nk-cream/"
    };
    String::from_str(dir).concat(filename)
}

/// The path under which the configuration file is looked for at `attempt`.
pub fn config_path_for(attempt: usize) -> (path: String)
    requires
        attempt < SEARCH_DIRS,
    ensures
        path@ == search_path(attempt as int, config_filename()),
{
    search_path_for(attempt, "config.json")
}

} // verus!
