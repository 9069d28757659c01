//! Where the client keeps its token, project identifiers and release files,
//! and how a project's identifier is found: from its cache file when there is
//! one, else from the service's listing, which then fills the cache.

use crate::directories::{app_dir, Directory};
use crate::error::MainError;
use crate::paths::{join, join_path};
use vstd::prelude::*;

verus! {

pub open spec fn token_path_of(root: Seq<char>) -> Seq<char> {
    join_path(root, "token"@)
}

pub open spec fn project_tokens_dir_of(root: Seq<char>) -> Seq<char> {
    join_path(root, "project_tokens"@)
}

pub open spec fn project_token_path_of(root: Seq<char>, project: Seq<char>) -> Seq<char> {
    join_path(project_tokens_dir_of(root), project)
}

pub open spec fn release_dir_of(root: Seq<char>) -> Seq<char> {
    join_path(root, "release"@)
}

pub open spec fn release_config_path_of(root: Seq<char>, project: Seq<char>) -> Seq<char> {
    join_path(release_dir_of(root), project + ".toml"@)
}

/// The client's cache directory, looked up once and handed down to whatever
/// needs one of the paths below it.
pub struct CachePaths {
    root: Option<String>,
}

impl View for CachePaths {
    type V = Option<Seq<char>>;

    closed spec fn view(&self) -> Option<Seq<char>> {
        match self.root {
            Some(r) => Some(r@),
            None => None,
        }
    }
}

impl CachePaths {
    /// Paths below `root`; without a root every path is unavailable.
    pub fn new(root: Option<String>) -> (r: CachePaths)
        ensures
            r@ == (match root {
                Some(s) => Some(s@),
                None => None::<Seq<char>>,
            }),
    {
        CachePaths { root }
    }

    /// Paths below the application's directory in the user's cache directory.
    pub fn resolve() -> (r: CachePaths)
        ensures
            r@ matches Some(p) ==> exists|b: Seq<char>| p == app_dir(b),
    {
        match Directory::Cache.get() {
            Ok(root) => CachePaths { root: Some(root) },
            Err(_) => CachePaths { root: None },
        }
    }

    /// The cache root, or `GetCache` when the platform has no cache directory.
    pub fn root(&self) -> (r: Result<String, MainError>)
        ensures
            match self@ {
                Some(root) => r matches Ok(p) && p@ == root,
                None => r == Err::<String, MainError>(MainError::GetCache),
            },
    {
        match &self.root {
            Some(root) => Ok(root.clone()),
            None => Err(MainError::GetCache),
        }
    }

    fn below(&self, leaf: &str) -> (r: Result<String, MainError>)
        ensures
            match self@ {
                Some(root) => r matches Ok(p) && p@ == join_path(root, leaf@),
                None => r == Err::<String, MainError>(MainError::GetCache),
            },
    {
        match &self.root {
            Some(root) => Ok(join(root.as_str(), leaf)),
            None => Err(MainError::GetCache),
        }
    }

    /// The file that holds the authentication token.
    pub fn token_path(&self) -> (r: Result<String, MainError>)
        ensures
            match self@ {
                Some(root) => r matches Ok(p) && p@ == token_path_of(root),
                None => r == Err::<String, MainError>(MainError::GetCache),
            },
    {
        self.below("token")
    }

    /// The directory with one identifier file per project.
    pub fn project_tokens_dir(&self) -> (r: Result<String, MainError>)
        ensures
            match self@ {
                Some(root) => r matches Ok(p) && p@ == project_tokens_dir_of(root),
                None => r == Err::<String, MainError>(MainError::GetCache),
            },
    {
        self.below("project_tokens")
    }

    /// The file that caches the identifier of `project`.
    pub fn project_token_path(&self, project: &str) -> (r: Result<String, MainError>)
        ensures
            match self@ {
                Some(root) => r matches Ok(p) && p@ == project_token_path_of(root, project@),
                None => r == Err::<String, MainError>(MainError::GetCache),
            },
    {
        let dir = self.project_tokens_dir()?;
        Ok(join(dir.as_str(), project))
    }

    /// The directory of release configurations.
    pub fn release_dir(&self) -> (r: Result<String, MainError>)
        ensures
            match self@ {
                Some(root) => r matches Ok(p) && p@ == release_dir_of(root),
                None => r == Err::<String, MainError>(MainError::GetCache),
            },
    {
        self.below("release")
    }

    /// The release configuration of `project`.
    pub fn release_config_path(&self, project: &str) -> (r: Result<String, MainError>)
        ensures
            match self@ {
                Some(root) => r matches Ok(p) && p@ == release_config_path_of(root, project@),
                None => r == Err::<String, MainError>(MainError::GetCache),
            },
    {
        let dir = self.release_dir()?;
        let mut file = project.to_owned();
        file.append(".toml");
        Ok(join(dir.as_str(), file.as_str()))
    }
}

/// The token, from what reading its file gave; without one the user has
/// not logged in yet.
pub fn token_from(read: Option<String>) -> (r: Result<String, MainError>)
    ensures
        match read {
            Some(token) => r == Ok::<String, MainError>(token),
            None => r == Err::<String, MainError>(MainError::GetToken),
        },
{
    match read {
        Some(token) => Ok(token),
        None => Err(MainError::GetToken),
    }
}

/// One project of the service's listing.
#[derive(Debug, Clone, PartialEq, Eq)]
pub struct ProjectEntry {
    pub id: String,
    pub name: String,
}

/// The identifier of the last project in `listing` called `name`: the one
/// whose cache file is written last when the listing fills the cache.
pub open spec fn listed_id(listing: Seq<ProjectEntry>, name: Seq<char>) -> Option<Seq<char>>
    decreases listing.len(),
{
    if listing.len() == 0 {
        None
    } else if listing.last().name@ == name {
        Some(listing.last().id@)
    } else {
        listed_id(listing.drop_last(), name)
    }
}

/// The files, with their contents, that a listing writes into the cache below `root`.
pub open spec fn listing_writes(root: Seq<char>, listing: Seq<ProjectEntry>) -> Seq<(Seq<char>, Seq<char>)> {
    listing.map_values(|e: ProjectEntry| (project_token_path_of(root, e.name@), e.id@))
}

/// The cache, as a map from path to contents, after `writes` in order.
pub open spec fn apply_writes(
    cache: Map<Seq<char>, Seq<char>>,
    writes: Seq<(Seq<char>, Seq<char>)>,
) -> Map<Seq<char>, Seq<char>>
    decreases writes.len(),
{
    if writes.len() == 0 {
        cache
    } else {
        apply_writes(cache, writes.drop_last()).insert(writes.last().0, writes.last().1)
    }
}

/// What to do next while resolving a project's identifier.
#[derive(Debug, PartialEq, Eq)]
pub enum IdLookup {
    /// The identifier is known: no request is needed.
    Found(String),
    /// The cache holds nothing for the project: ask the service for its listing.
    FetchListing,
}

/// First step of resolving an identifier: the contents of the project's cache
/// file, when it could be read, answer without a request.
pub fn id_from_cache(cached: Option<String>) -> (r: IdLookup)
    ensures
        match cached {
            Some(id) => r == IdLookup::Found(id),
            None => r == IdLookup::FetchListing,
        },
{
    match cached {
        Some(id) => IdLookup::Found(id),
        None => IdLookup::FetchListing,
    }
}

/// The identifier of the last project called `name` in `listing`, or
/// `NonExistantProject` when there is none.
pub fn find_project_id(listing: &Vec<ProjectEntry>, name: &str) -> (r: Result<String, MainError>)
    ensures
        match listed_id(listing@, name@) {
            Some(id) => r matches Ok(s) && s@ == id,
            None => r matches Err(MainError::NonExistantProject(n)) && n@ == name@,
        },
{
    let mut i: usize = listing.len();
    assert(listing@.subrange(0, i as int) =~= listing@);
    while i > 0
        invariant
            i <= listing@.len(),
            listed_id(listing@, name@) == listed_id(listing@.subrange(0, i as int), name@),
        decreases i,
    {
        let entry = &listing[i - 1];
        assert(listing@.subrange(0, i as int).drop_last() =~= listing@.subrange(0, i - 1));
        if entry.name.eq(&name.to_owned()) {
            return Ok(entry.id.clone());
        }
        i = i - 1;
    }
    assert(listing@.subrange(0, 0) =~= Seq::<ProjectEntry>::empty());
    Err(MainError::NonExistantProject(name.to_owned()))
}

impl CachePaths {
    /// The cache files that `listing` fills: for each project in order, its
    /// identifier file and the identifier.
    pub fn listing_writes(&self, listing: &Vec<ProjectEntry>) -> (r: Result<Vec<(String, String)>, MainError>)
        ensures
            match self@ {
                Some(root) => r matches Ok(w) && w@.len() == listing@.len() && forall|i: int|
                    0 <= i < w@.len() ==> (#[trigger] w@[i]).0@ == listing_writes(root, listing@)[i].0
                        && w@[i].1@ == listing_writes(root, listing@)[i].1,
                None => r == Err::<Vec<(String, String)>, MainError>(MainError::GetCache),
            },
    {
        let dir = self.project_tokens_dir()?;
        let mut writes: Vec<(String, String)> = Vec::new();
        let mut i: usize = 0;
        while i < listing.len()
            invariant
                i <= listing@.len(),
                self@ matches Some(root) && dir@ == project_tokens_dir_of(root),
                writes@.len() == i,
                forall|j: int| 0 <= j < i ==> (#[trigger] writes@[j]).0@ == join_path(dir@, listing@[j].name@)
                    && writes@[j].1@ == listing@[j].id@,
            decreases listing@.len() - i,
        {
            let entry = &listing[i];
            writes.push((join(dir.as_str(), entry.name.as_str()), entry.id.clone()));
            i = i + 1;
        }
        Ok(writes)
    }

    /// Last step of resolving an identifier, once the listing came: the cache
    /// files to write (a failed write changes nothing else) and the answer.
    pub fn id_from_listing(&self, name: &str, listing: Vec<ProjectEntry>) -> (r: (
        Vec<(String, String)>,
        Result<String, MainError>,
    ))
        ensures
            match self@ {
                Some(root) => r.0@.len() == listing@.len() && (forall|i: int|
                    0 <= i < r.0@.len() ==> (#[trigger] r.0@[i]).0@ == listing_writes(root, listing@)[i].0
                        && r.0@[i].1@ == listing_writes(root, listing@)[i].1),
                None => r.0@.len() == 0 && r.1 == Err::<String, MainError>(MainError::GetCache),
            },
            self@ is Some ==> match listed_id(listing@, name@) {
                Some(id) => r.1 matches Ok(s) && s@ == id,
                None => r.1 matches Err(MainError::NonExistantProject(n)) && n@ == name@,
            },
    {
        match self.listing_writes(&listing) {
            Ok(writes) => (writes, find_project_id(&listing, name)),
            Err(e) => (Vec::new(), Err(e)),
        }
    }
}

proof fn lemma_project_path_injective(root: Seq<char>, a: Seq<char>, b: Seq<char>)
    requires
        project_token_path_of(root, a) == project_token_path_of(root, b),
    ensures
        a == b,
{
    let pre = project_tokens_dir_of(root) + seq!['/'];
    assert(project_token_path_of(root, a) =~= pre + a);
    assert(project_token_path_of(root, b) =~= pre + b);
    assert(a =~= (pre + a).subrange(pre.len() as int, (pre + a).len() as int));
    assert(b =~= (pre + b).subrange(pre.len() as int, (pre + b).len() as int));
}

/// Once a listing has filled the cache, the identifier file of any project in
/// it holds the identifier that the lookup answered, whatever the cache held
/// before; so a later lookup of that project is answered from the cache.
pub proof fn lemma_filled_cache_answers(
    root: Seq<char>,
    listing: Seq<ProjectEntry>,
    name: Seq<char>,
    cache: Map<Seq<char>, Seq<char>>,
)
    requires
        listed_id(listing, name) is Some,
    ensures
        apply_writes(cache, listing_writes(root, listing)).contains_key(project_token_path_of(root, name)),
        apply_writes(cache, listing_writes(root, listing))[project_token_path_of(root, name)]
            == listed_id(listing, name)->Some_0,
    decreases listing.len(),
{
    let w = listing_writes(root, listing);
    assert(w.drop_last() =~= listing_writes(root, listing.drop_last()));
    if listing.last().name@ == name {
    } else {
        lemma_filled_cache_answers(root, listing.drop_last(), name, cache);
        if w.last().0 == project_token_path_of(root, name) {
            lemma_project_path_injective(root, listing.last().name@, name);
        }
    }
}

/// The operating systems whose cache directory is found differently.
#[derive(Debug, Clone, Copy, PartialEq, Eq)]
pub enum Platform {
    MacOs,
    /// A Unix other than macOS.
    Unix,
    Windows,
    Other,
}

/// The environment variables that the cache directory is found from on
/// `platform`, which a user without one should set.
pub fn cache_env_vars(platform: Platform) -> (r: Vec<&'static str>)
    ensures
        match platform {
            Platform::MacOs => r@.len() == 1 && r@[0]@ == "HOME"@,
            Platform::Unix => r@.len() == 2 && r@[0]@ == "XDG_CACHE_HOME"@ && r@[1]@ == "HOME"@,
            Platform::Windows => r@.len() == 1 && r@[0]@ == "LOCALAPPDATA"@,
            Platform::Other => r@.len() == 0,
        },
{
    match platform {
        Platform::MacOs => vec!["HOME"],
        Platform::Unix => vec!["XDG_CACHE_HOME", "HOME"],
        Platform::Windows => vec!["LOCALAPPDATA"],
        Platform::Other => Vec::new(),
    }
}

} // verus!
