use vstd::prelude::*;

use crate::portal_map::{map_of, pairs_view, unique_keys, PairView, PortalMap};

verus! {

/// The tag used where the command line names none.
pub const DEFAULT_PRTL_TAG: &'static str = "default_prtl";

/// The view of a configuration: its default tag and its tag-to-path map.
pub type ConfigView = (Seq<char>, Map<Seq<char>, Seq<char>>);

/// What a freshly defaulted configuration holds.
pub open spec fn default_config() -> ConfigView {
    ("default_prtl"@, Map::empty())
}

/// The configuration that a persisted record describes: its default tag,
/// and its pairs read in order.
pub open spec fn config_of(parts: (Seq<char>, Seq<PairView>)) -> ConfigView {
    (parts.0, map_of(parts.1))
}

/// The message for a path that has no canonical form.
pub open spec fn path_invalid_message(path: Seq<char>) -> Seq<char> {
    "Path "@ + path + " is invalid."@
}

/// The message for a tag that has no portal.
pub open spec fn tag_not_found_message(tag: Seq<char>) -> Seq<char> {
    "Did not find prtl with tag "@ + tag
}

/// The message for a configuration file that cannot be read.
pub open spec fn load_failed_message() -> Seq<char> {
    "Error loading config."@
}

/// The message for a configuration that cannot be written.
pub open spec fn store_failed_message() -> Seq<char> {
    "Failed to save config"@
}

/// The canonical path that a resolution gave, as a view.
pub open spec fn resolved_view(resolved: Option<String>) -> Option<Seq<char>> {
    match resolved {
        Some(dir) => Some(dir@),
        None => None,
    }
}

/// The portals after one `set` of `tag`: stored where its path resolved to
/// `Some` canonical path, unchanged where it did not.
pub open spec fn apply_set(
    m: Map<Seq<char>, Seq<char>>,
    tag: Seq<char>,
    resolved: Option<Seq<char>>,
) -> Map<Seq<char>, Seq<char>> {
    match resolved {
        Some(dir) => m.insert(tag, dir),
        None => m,
    }
}

/// The portals after a run of `set`s, each a tag and what its path
/// resolved to, in order.
pub open spec fn apply_sets(
    m: Map<Seq<char>, Seq<char>>,
    steps: Seq<(Seq<char>, Option<Seq<char>>)>,
) -> Map<Seq<char>, Seq<char>>
    decreases steps.len(),
{
    if steps.len() == 0 {
        m
    } else {
        apply_set(apply_sets(m, steps.drop_last()), steps.last().0, steps.last().1)
    }
}

/// The compact JSON text of an object with one string member for each
/// entry of `m`.
pub uninterp spec fn json_object_of(m: Map<Seq<char>, Seq<char>>) -> Seq<char>;

/// Relies on serde_json's `Map` and on `Value`'s `Display`: the object with
/// one string member per pair, written compactly. In this build (no
/// `preserve_order`) the map orders its members by key, so for distinct keys
/// the text depends only on the mapping.
#[verifier::external_body]
fn json_object(pairs: &Vec<(String, String)>) -> (r: String)
    requires
        unique_keys(pairs_view(pairs@)),
    ensures
        r@ == json_object_of(map_of(pairs_view(pairs@))),
{
    let members: serde_json::Map<String, serde_json::Value> = pairs.iter().map(
        |p| (p.0.clone(), serde_json::Value::String(p.1.clone())),
    ).collect();
    serde_json::Value::Object(members).to_string()
}

/// An error of the portal store, carrying a message for the user.
#[derive(Debug)]
pub struct Error {
    message: String,
}

impl Error {
    /// The message.
    pub closed spec fn view(&self) -> Seq<char> {
        self.message@
    }

    /// An error with the given message.
    pub fn new(message: String) -> (r: Error)
        ensures
            r@ == message@,
    {
        Error { message }
    }

    /// The message, as shown to the user.
    pub fn message(&self) -> (r: String)
        ensures
            r@ == self@,
    {
        self.message.clone()
    }

    /// A path that could not be resolved to a canonical one.
    pub fn path_invalid(path: &String) -> (r: Error)
        ensures
            r@ == path_invalid_message(path@),
    {
        let mut m = String::from_str("Path ");
        m.append(path.as_str());
        m.append(" is invalid.");
        Error { message: m }
    }

    /// A tag that has no portal.
    pub fn tag_not_found(tag: &String) -> (r: Error)
        ensures
            r@ == tag_not_found_message(tag@),
    {
        let mut m = String::from_str("Did not find prtl with tag ");
        m.append(tag.as_str());
        Error { message: m }
    }

    /// The configuration file exists but could not be read.
    pub fn load_failed() -> (r: Error)
        ensures
            r@ == load_failed_message(),
    {
        Error { message: String::from_str("Error loading config.") }
    }

    /// The configuration could not be written.
    pub fn store_failed() -> (r: Error)
        ensures
            r@ == store_failed_message(),
    {
        Error { message: String::from_str("Failed to save config") }
    }
}

/// The persisted configuration: the default tag and every portal.
#[derive(Debug)]
pub struct Config {
    prtl: String,
    pub portal_map: PortalMap,
}

impl Config {
    /// The default tag.
    pub closed spec fn default_tag_view(&self) -> Seq<char> {
        self.prtl@
    }

    /// Each tag is stored once.
    pub closed spec fn wf(&self) -> bool {
        self.portal_map.wf()
    }

    /// The default tag and the mapping from tags to paths.
    pub closed spec fn view(&self) -> ConfigView {
        (self.default_tag_view(), self.portal_map@)
    }

    /// The record that is persisted: the default tag and the pairs in order.
    pub closed spec fn parts(&self) -> (Seq<char>, Seq<PairView>) {
        (self.default_tag_view(), self.portal_map.pairs())
    }

    /// A configuration with the given default tag and no portal.
    pub fn new(default_tag: String) -> (r: Config)
        ensures
            r.wf(),
            r@ == (default_tag@, Map::<Seq<char>, Seq<char>>::empty()),
    {
        Config { prtl: default_tag, portal_map: PortalMap::new() }
    }

    /// The default tag.
    pub fn default_tag(&self) -> (r: String)
        ensures
            r@ == self@.0,
    {
        self.prtl.clone()
    }

    /// The path stored under `tag`, if any. Nothing changes.
    pub fn get(&self, tag: &String) -> (r: Option<String>)
        requires
            self.wf(),
        ensures
            r.is_some() == self@.1.contains_key(tag@),
            r.is_some() ==> r.unwrap()@ == self@.1[tag@],
    {
        match self.portal_map.get(tag) {
            Some(dir) => Some(dir.clone()),
            None => None,
        }
    }

    /// Records `dir`, an already canonical path, under `tag`, replacing any
    /// path stored there before.
    pub fn put(&mut self, tag: String, dir: String)
        requires
            old(self).wf(),
        ensures
            final(self).wf(),
            final(self)@ == (old(self)@.0, old(self)@.1.insert(tag@, dir@)),
    {
        let _ = self.portal_map.insert(tag, dir);
    }
    /// The outcome of `set` once the path has been resolved: `resolved` is
    /// the canonical form of `path`, or `None` where it has none (it does
    /// not exist). Then nothing is stored and the error names `path`.
    pub fn set_resolved(&mut self, tag: String, path: &String, resolved: Option<String>) -> (r:
        Result<(), Error>)
        requires
            old(self).wf(),
        ensures
            final(self).wf(),
            final(self)@ == (old(self)@.0, apply_set(old(self)@.1, tag@, resolved_view(resolved))),
            r.is_ok() == resolved.is_some(),
            match resolved {
                Some(dir) => final(self)@ == (old(self)@.0, old(self)@.1.insert(tag@, dir@)),
                None => *final(self) == *old(self) && r.unwrap_err()@ == path_invalid_message(
                    path@,
                ),
            },
    {
        match resolved {
            Some(dir) => {
                self.put(tag, dir);
                Ok(())
            },
            None => Err(Error::path_invalid(path)),
        }
    }

    /// The path stored under `tag`, or the error that names the tag.
    pub fn lookup(&self, tag: &String) -> (r: Result<String, Error>)
        requires
            self.wf(),
        ensures
            r.is_ok() == self@.1.contains_key(tag@),
            r.is_ok() ==> r.unwrap()@ == self@.1[tag@],
            r.is_err() ==> r.unwrap_err()@ == tag_not_found_message(tag@),
    {
        match self.get(tag) {
            Some(dir) => Ok(dir),
            None => Err(Error::tag_not_found(tag)),
        }
    }

    /// Every portal as one JSON object, tag to path.
    pub fn list_json(&self) -> (r: String)
        requires
            self.wf(),
        ensures
            r@ == json_object_of(self@.1),
    {
        let pairs = self.portal_map.to_pairs();
        json_object(&pairs)
    }

    /// The record to persist: the default tag and the pairs in order.
    pub fn to_parts(&self) -> (r: (String, Vec<(String, String)>))
        requires
            self.wf(),
        ensures
            (r.0@, pairs_view(r.1@)) == self.parts(),
            unique_keys(pairs_view(r.1@)),
    {
        (self.prtl.clone(), self.portal_map.to_pairs())
    }

    /// The configuration that a persisted record describes.
    pub fn from_parts(default_tag: String, pairs: Vec<(String, String)>) -> (r: Config)
        ensures
            r.wf(),
            r@ == config_of((default_tag@, pairs_view(pairs@))),
            unique_keys(pairs_view(pairs@)) ==> r.parts() == (default_tag@, pairs_view(pairs@)),
    {
        Config { prtl: default_tag, portal_map: PortalMap::from_pairs(pairs) }
    }
}

impl Default for Config {
    /// The default tag and no portal.
    fn default() -> (r: Config)
        ensures
            r.wf(),
            r@ == default_config(),
    {
        let r = Config::new(String::from_str(DEFAULT_PRTL_TAG));
        r
    }
}

/// Storing a configuration and reading it back gives the same
/// configuration: its persisted record describes it exactly.
pub proof fn law_round_trip(c: &Config)
    requires
        c.wf(),
    ensures
        config_of(c.parts()) == c@,
{
}

/// Putting `b` after `a` under one tag leaves `b` there, as if `a` had never
/// been put.
pub proof fn law_put_overwrites(
    m: Map<Seq<char>, Seq<char>>,
    tag: Seq<char>,
    a: Seq<char>,
    b: Seq<char>,
)
    ensures
        m.insert(tag, a).insert(tag, b) == m.insert(tag, b),
        m.insert(tag, a).insert(tag, b)[tag] == b,
{
    assert(m.insert(tag, a).insert(tag, b) =~= m.insert(tag, b));
}

/// A run of `set`s in which no path for `tag` resolved leaves `tag` as it
/// was: a failed `set` adds nothing, and only a successful `set` of `tag`
/// itself can make it found. From a fresh configuration, `tag` stays unfound.
pub proof fn law_sets_of_other_tags_keep_tag(
    m: Map<Seq<char>, Seq<char>>,
    steps: Seq<(Seq<char>, Option<Seq<char>>)>,
    tag: Seq<char>,
)
    requires
        forall|i: int| 0 <= i < steps.len() ==> steps[i].0 != tag || steps[i].1 is None,
    ensures
        apply_sets(m, steps).contains_key(tag) == m.contains_key(tag),
        m.contains_key(tag) ==> apply_sets(m, steps)[tag] == m[tag],
        m == default_config().1 ==> !apply_sets(m, steps).contains_key(tag),
    decreases steps.len(),
{
    if steps.len() > 0 {
        let t = steps.drop_last();
        assert forall|i: int| 0 <= i < t.len() implies t[i].0 != tag || t[i].1 is None by {
            assert(t[i] == steps[i]);
        }
        law_sets_of_other_tags_keep_tag(m, t, tag);
        assert(steps.last() == steps[steps.len() - 1]);
    }
}

/// A freshly defaulted configuration finds no tag.
pub proof fn law_default_finds_nothing(tag: Seq<char>)
    ensures
        !default_config().1.contains_key(tag),
{
}

/// The JSON listing depends on the portals alone, not on the order in which
/// they were set.
pub proof fn law_listing_ignores_order(a: &Config, b: &Config)
    requires
        a.wf(),
        b.wf(),
        a@.1 == b@.1,
    ensures
        json_object_of(a@.1) == json_object_of(b@.1),
{
}

} // verus!
