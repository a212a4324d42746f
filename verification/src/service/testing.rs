//! Testing utilities for HTTP services.
//!
//! [`HttpTestService`] is a test HTTP service that returns static responses
//! without making any actual HTTP requests over a network, and
//! [`TestDataLoader`] loads and deserializes data that can be used as POST
//! request bodies in tests.
//!
//! Both answer requests out of a [`FixtureStore`]: an in-memory image of the
//! fixture files under their root directory, keyed by file path. Code that
//! sits next to the file system fills the store by reading the directory
//! tree; tests can just as well install fixture text directly.
//!
//! A missing fixture indicates a broken test setup, not a runtime condition
//! callers should handle. Accordingly, every request method demands by
//! precondition that its fixture is present; an unverified caller that
//! breaks the precondition aborts instead of receiving a recoverable error.

use crate::auth::Auth;
use crate::json::{json_error_detail, json_value_of, json_wf, parse_json};
use crate::service::{HttpGet, HttpPost};
use crate::text::{trim, trim_spec};
use crate::{HTTPError, HTTPResult};
use vstd::prelude::*;

verus! {

/// An in-memory image of a directory of fixture files: text keyed by file
/// path. A later entry for the same path replaces an earlier one.
pub struct FixtureStore {
    entries: Vec<(String, String)>,
}

/// The mapping from path to text that an entry list represents, with later
/// entries taking precedence.
closed spec fn entries_map(es: Seq<(String, String)>) -> Map<Seq<char>, Seq<char>>
    decreases es.len(),
{
    if es.len() == 0 {
        Map::empty()
    } else {
        entries_map(es.drop_last()).insert(es.last().0@, es.last().1@)
    }
}

impl View for FixtureStore {
    type V = Map<Seq<char>, Seq<char>>;

    closed spec fn view(&self) -> Map<Seq<char>, Seq<char>> {
        entries_map(self.entries@)
    }
}

proof fn lemma_entries_map_take(es: Seq<(String, String)>, i: int)
    requires
        1 <= i <= es.len(),
    ensures
        entries_map(es.take(i)) == entries_map(es.take(i - 1)).insert(es[i - 1].0@, es[i - 1].1@),
{
    assert(es.take(i).drop_last() =~= es.take(i - 1));
    assert(es.take(i).last() == es[i - 1]);
}

impl FixtureStore {
    /// Creates an empty store.
    pub fn new() -> (r: FixtureStore)
        ensures
            r@ == Map::<Seq<char>, Seq<char>>::empty(),
    {
        FixtureStore { entries: Vec::new() }
    }

    /// Stores `contents` under `path`, replacing what was there.
    pub fn insert(&mut self, path: String, contents: String)
        ensures
            final(self)@ == old(self)@.insert(path@, contents@),
    {
        let ghost old_entries = self.entries@;
        let ghost p = path@;
        let ghost c = contents@;
        self.entries.push((path, contents));
        proof {
            assert(self.entries@.drop_last() =~= old_entries);
            assert(self.entries@.last().0@ == p);
            assert(self.entries@.last().1@ == c);
        }
    }

    /// Looks up the text stored under `path`.
    pub fn lookup<'a>(&'a self, path: &String) -> (r: Option<&'a String>)
        ensures
            match r {
                Some(c) => self@.contains_key(path@) && c@ == self@[path@],
                None => !self@.contains_key(path@),
            },
    {
        let mut i: usize = self.entries.len();
        proof {
            assert(self.entries@.take(i as int) =~= self.entries@);
        }
        while i > 0
            invariant
                i <= self.entries@.len(),
                entries_map(self.entries@.take(i as int)).contains_key(path@) == self@.contains_key(
                    path@,
                ),
                self@.contains_key(path@) ==> entries_map(self.entries@.take(i as int))[path@]
                    == self@[path@],
            decreases i,
        {
            let entry = &self.entries[i - 1];
            proof {
                lemma_entries_map_take(self.entries@, i as int);
            }
            if entry.0 == *path {
                return Some(&entry.1);
            }
            i = i - 1;
        }
        proof {
            assert(self.entries@.take(0) =~= Seq::<(String, String)>::empty());
        }
        None
    }
}

/// A service useful for unit tests that answers requests with fixture text
/// instead of making calls over a network.
///
/// A request for `uri` is answered from the fixture at `{root}{uri}.{ext}`,
/// the path the matching fixture file would have on disk; the extension is
/// fixed to `json`.
pub struct HttpTestService {
    root: String,
    ext: String,
    fixtures: FixtureStore,
}

impl HttpTestService {
    /// The root that fixture paths start with.
    pub closed spec fn root_spec(&self) -> Seq<char> {
        self.root@
    }

    /// The extension that fixture paths end with.
    pub closed spec fn ext_spec(&self) -> Seq<char> {
        self.ext@
    }

    /// The installed fixtures, as text keyed by fixture path.
    pub closed spec fn fixtures_spec(&self) -> Map<Seq<char>, Seq<char>> {
        self.fixtures@
    }

    /// The fixture path that `uri` maps to: `{root}{uri}.{ext}`.
    pub open spec fn path_spec(&self, uri: Seq<char>) -> Seq<char> {
        self.root_spec() + uri + "."@ + self.ext_spec()
    }

    /// Whether a fixture is installed for `uri`.
    pub open spec fn has_fixture(&self, uri: Seq<char>) -> bool {
        self.fixtures_spec().contains_key(self.path_spec(uri))
    }

    /// The raw text of the fixture for `uri`.
    pub open spec fn fixture_text(&self, uri: Seq<char>) -> Seq<char> {
        self.fixtures_spec()[self.path_spec(uri)]
    }

    /// Creates a new test service that answers requests from fixtures
    /// rooted at the `root` directory. The root is taken verbatim and not
    /// validated.
    pub fn new(root: &str) -> (r: Self)
        ensures
            r.root_spec() == root@,
            r.ext_spec() == "json"@,
            r.fixtures_spec() == Map::<Seq<char>, Seq<char>>::empty(),
    {
        Self {
            root: String::from_str(root),
            ext: String::from_str("json"),
            fixtures: FixtureStore::new(),
        }
    }

    /// The fixture path backing `uri`: `{root}{uri}.{ext}`.
    pub fn resource_path(&self, uri: &str) -> (r: String)
        ensures
            r@ == self.path_spec(uri@),
    {
        String::from_str(self.root.as_str()).concat(uri).concat(".").concat(self.ext.as_str())
    }

    /// Installs the fixture text answering requests for `uri`.
    pub fn add_fixture(&mut self, uri: &str, contents: &str)
        ensures
            final(self).root_spec() == old(self).root_spec(),
            final(self).ext_spec() == old(self).ext_spec(),
            final(self).fixtures_spec() == old(self).fixtures_spec().insert(
                old(self).path_spec(uri@),
                contents@,
            ),
    {
        let path = self.resource_path(uri);
        self.fixtures.insert(path, String::from_str(contents));
    }

    /// Loads the fixture text mapped to `uri`.
    fn load_resource(&self, uri: &str) -> (r: String)
        requires
            self.has_fixture(uri@),
        ensures
            r@ == self.fixture_text(uri@),
    {
        let path = self.resource_path(uri);
        let found = self.fixtures.lookup(&path);
        found.unwrap().clone()
    }
}

impl HttpGet for HttpTestService {
    /// A GET may be issued when its fixture is installed.
    open spec fn get_ready(&self, uri: Seq<char>) -> bool {
        self.has_fixture(uri)
    }

    /// Mocks an HTTP GET request by returning the fixture text mapped to
    /// the given `uri`, trimmed of surrounding whitespace.
    fn get(&self, uri: &str) -> (r: HTTPResult<String>)
        ensures
            r matches Ok(body) && body@ == trim_spec(self.fixture_text(uri@)),
    {
        let raw = self.load_resource(uri);
        Ok(trim(raw.as_str()))
    }
}

impl HttpPost for HttpTestService {
    /// A POST may be issued when its fixture is installed.
    open spec fn post_ready(&self, uri: Seq<char>) -> bool {
        self.has_fixture(uri)
    }

    /// Mocks an HTTP POST request by deserializing the fixture text mapped
    /// to the given `uri`. This method does nothing with the POST `data`
    /// itself, nor does it operate on `auth`: the returned document depends
    /// on the fixture text alone.
    fn post(&self, uri: &str, auth: &Auth, data: &serde_json::Value) -> (r: HTTPResult<
        serde_json::Value,
    >)
        ensures
            r is Ok <==> json_wf(self.fixture_text(uri@)),
            r matches Ok(v) ==> v == json_value_of(self.fixture_text(uri@)),
            r matches Err(e) ==> e matches HTTPError::Serialization(d) && d@ == json_error_detail(
                self.fixture_text(uri@),
            ),
    {
        let raw = self.load_resource(uri);
        match parse_json(raw.as_str()) {
            Ok(v) => Ok(v),
            Err(e) => Err(HTTPError::from(e)),
        }
    }
}

/// Loads data for mock test requests from fixture text.
///
/// A resource named `r` is read from the fixture at `{root}/{r}.{ext}`, the
/// path the matching fixture file would have on disk; the extension is
/// fixed to `json`.
pub struct TestDataLoader {
    root: String,
    ext: String,
    fixtures: FixtureStore,
}

impl TestDataLoader {
    /// The root that resource paths start with.
    pub closed spec fn root_spec(&self) -> Seq<char> {
        self.root@
    }

    /// The extension that resource paths end with.
    pub closed spec fn ext_spec(&self) -> Seq<char> {
        self.ext@
    }

    /// The installed resources, as text keyed by resource path.
    pub closed spec fn resources_spec(&self) -> Map<Seq<char>, Seq<char>> {
        self.fixtures@
    }

    /// The resource path that `resource` maps to: `{root}/{resource}.{ext}`.
    pub open spec fn path_spec(&self, resource: Seq<char>) -> Seq<char> {
        self.root_spec() + "/"@ + resource + "."@ + self.ext_spec()
    }

    /// Whether text is installed for `resource`.
    pub open spec fn has_resource(&self, resource: Seq<char>) -> bool {
        self.resources_spec().contains_key(self.path_spec(resource))
    }

    /// The raw text installed for `resource`.
    pub open spec fn resource_text(&self, resource: Seq<char>) -> Seq<char> {
        self.resources_spec()[self.path_spec(resource)]
    }

    /// Create a new loader that loads test data rooted at the `root`
    /// directory.
    pub fn new(root: &str) -> (r: Self)
        ensures
            r.root_spec() == root@,
            r.ext_spec() == "json"@,
            r.resources_spec() == Map::<Seq<char>, Seq<char>>::empty(),
    {
        Self {
            root: String::from_str(root),
            ext: String::from_str("json"),
            fixtures: FixtureStore::new(),
        }
    }

    /// The resource path backing `resource`: `{root}/{resource}.{ext}`.
    pub fn resource_path(&self, resource: &str) -> (r: String)
        ensures
            r@ == self.path_spec(resource@),
    {
        String::from_str(self.root.as_str()).concat("/").concat(resource).concat(".").concat(
            self.ext.as_str(),
        )
    }

    /// Installs the text backing `resource`.
    pub fn add_resource(&mut self, resource: &str, contents: &str)
        ensures
            final(self).root_spec() == old(self).root_spec(),
            final(self).ext_spec() == old(self).ext_spec(),
            final(self).resources_spec() == old(self).resources_spec().insert(
                old(self).path_spec(resource@),
                contents@,
            ),
    {
        let path = self.resource_path(resource);
        self.fixtures.insert(path, String::from_str(contents));
    }

    /// Whether text is installed for `resource`.
    pub fn contains(&self, resource: &str) -> (b: bool)
        ensures
            b == self.has_resource(resource@),
    {
        let path = self.resource_path(resource);
        self.fixtures.lookup(&path).is_some()
    }

    /// Loads the raw text backing `resource`, exactly as installed.
    pub fn load_raw(&self, resource: &str) -> (r: String)
        requires
            self.has_resource(resource@),
        ensures
            r@ == self.resource_text(resource@),
    {
        let path = self.resource_path(resource);
        let found = self.fixtures.lookup(&path);
        found.unwrap().clone()
    }

    /// Loads test data and deserializes it into a JSON document.
    ///
    /// Both a missing resource and text that does not deserialize indicate
    /// a broken test setup, so they are excluded by precondition; an
    /// unverified caller that breaks it aborts. [`try_load`](Self::try_load)
    /// is the total variant.
    pub fn load(&self, resource: &str) -> (r: serde_json::Value)
        requires
            self.has_resource(resource@),
            json_wf(self.resource_text(resource@)),
        ensures
            r == json_value_of(self.resource_text(resource@)),
    {
        let raw = self.load_raw(resource);
        let parsed = parse_json(raw.as_str());
        parsed.unwrap()
    }

    /// Loads and deserializes test data, returning `None` when the
    /// resource is missing or its text does not deserialize.
    pub fn try_load(&self, resource: &str) -> (r: Option<serde_json::Value>)
        ensures
            r is Some <==> self.has_resource(resource@) && json_wf(self.resource_text(resource@)),
            r matches Some(v) ==> v == json_value_of(self.resource_text(resource@)),
    {
        if !self.contains(resource) {
            return None;
        }
        let raw = self.load_raw(resource);
        match parse_json(raw.as_str()) {
            Ok(_) => Some(self.load(resource)),
            Err(_) => None,
        }
    }
}

/// Round trip: a document whose text is installed both as a loader
/// resource and as a service fixture is handed to the deserializer as that
/// same text on both paths. Loading it and posting for it therefore
/// succeed or fail together, and on success both return the same
/// deserialized document -- the one the shared text deserializes to, which
/// `load`'s and `post`'s own contracts tie their results to.
pub proof fn lemma_round_trip(
    loader: &TestDataLoader,
    service: &HttpTestService,
    resource: Seq<char>,
    uri: Seq<char>,
)
    requires
        loader.has_resource(resource),
        service.has_fixture(uri),
        loader.resource_text(resource) == service.fixture_text(uri),
    ensures
        json_wf(loader.resource_text(resource)) == json_wf(service.fixture_text(uri)),
        json_value_of(loader.resource_text(resource)) == json_value_of(service.fixture_text(uri)),
{
}

} // verus!
