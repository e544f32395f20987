//! A version's record: where it is installed, what it is, and which
//! sub-versions it has.

use vstd::prelude::*;

verus! {

/// Name of the file that holds a directory's record.
pub const RECORD_FILE: &'static str = ".kadot";

/// The record kept in a version's directory.
#[derive(Debug, PartialEq, Eq)]
pub struct Config {
    target: String,
    info: String,
    ignore: Vec<String>,
    children: Vec<String>,
}

/// What a record says, as mathematical values.
pub struct ConfigView {
    /// Directory into which the version is installed.
    pub target: Seq<char>,
    /// Free description.
    pub info: Seq<char>,
    /// Patterns left out of an installation.
    pub ignore: Seq<Seq<char>>,
    /// Names of the immediate sub-versions, oldest first.
    pub children: Seq<Seq<char>>,
}

impl ConfigView {
    /// A leaf has no sub-version: it is what gets installed.
    pub open spec fn is_leaf(self) -> bool {
        self.children.len() == 0
    }

    /// Whether `name` is one of the sub-versions, letter for letter.
    pub open spec fn has_child(self, name: Seq<char>) -> bool {
        self.children.contains(name)
    }

    /// The same record with `name` as its newest sub-version.
    pub open spec fn with_child(self, name: Seq<char>) -> ConfigView {
        ConfigView { children: self.children.push(name), ..self }
    }

    /// The invariant of a record: no sub-version is listed twice.
    pub open spec fn unique_children(self) -> bool {
        self.children.no_duplicates()
    }

    /// The record of a version that was just made: nothing ignored, no child.
    pub open spec fn fresh(target: Seq<char>, info: Seq<char>) -> ConfigView {
        ConfigView { target, info, ignore: Seq::empty(), children: Seq::empty() }
    }
}

impl View for Config {
    type V = ConfigView;

    closed spec fn view(&self) -> ConfigView {
        ConfigView {
            target: self.target@,
            info: self.info@,
            ignore: self.ignore.deep_view(),
            children: self.children.deep_view(),
        }
    }
}

impl Clone for Config {
    fn clone(&self) -> (copy: Self)
        ensures
            copy@ == self@,
    {
        let ignore = self.ignore.clone();
        let children = self.children.clone();
        Config { target: self.target.clone(), info: self.info.clone(), ignore, children }
    }
}

impl Config {
    /// A record with the given fields.
    pub fn new(target: String, info: String, ignore: Vec<String>, children: Vec<String>) -> (config:
        Config)
        ensures
            config@ == (ConfigView {
                target: target@,
                info: info@,
                ignore: ignore.deep_view(),
                children: children.deep_view(),
            }),
    {
        Config { target, info, ignore, children }
    }

    /// The record of a version that was just made.
    pub fn fresh(target: String, info: String) -> (config: Config)
        ensures
            config@ == ConfigView::fresh(target@, info@),
    {
        let config = Config { target, info, ignore: Vec::new(), children: Vec::new() };
        assert(config@.ignore =~= Seq::empty());
        assert(config@.children =~= Seq::empty());
        config
    }

    /// Directory into which the version is installed.
    pub fn target(&self) -> (target: &String)
        ensures
            target@ == self@.target,
    {
        &self.target
    }

    /// Free description.
    pub fn info(&self) -> (info: &String)
        ensures
            info@ == self@.info,
    {
        &self.info
    }

    /// Patterns left out of an installation.
    pub fn ignore(&self) -> (ignore: &Vec<String>)
        ensures
            ignore.deep_view() == self@.ignore,
    {
        &self.ignore
    }

    /// Whether the version has no sub-version.
    pub fn is_leaf(&self) -> (leaf: bool)
        ensures
            leaf == self@.is_leaf(),
    {
        self.children.len() == 0
    }

    /// Whether the record keeps its invariant: no sub-version listed twice.
    pub fn has_unique_children(&self) -> (unique: bool)
        ensures
            unique == self@.unique_children(),
    {
        let ghost names = self.children.deep_view();
        let mut i: usize = 0;
        while i < self.children.len()
            invariant
                i <= self.children.len(),
                names == self.children.deep_view(),
                forall|a: int, b: int| 0 <= a < b < i ==> names[a] != names[b],
            decreases self.children.len() - i,
        {
            let mut j: usize = 0;
            while j < i
                invariant
                    j <= i < self.children.len(),
                    names == self.children.deep_view(),
                    forall|a: int| 0 <= a < j ==> names[a] != names[i as int],
                decreases i - j,
            {
                if self.children[j] == self.children[i] {
                    assert(names[j as int] == names[i as int]);
                    return false;
                }
                j += 1;
            }
            i += 1;
        }
        true
    }
}

/// The sub-versions of a record, oldest first.
pub fn get_versions(config: &Config) -> (versions: &Vec<String>)
    ensures
        versions.deep_view() == config@.children,
{
    &config.children
}

/// Lists `version` as the newest sub-version of `config`.
///
/// Nothing else changes. The record keeps its invariant when the name was not
/// listed before.
pub fn add_version(config: &mut Config, version: &str)
    ensures
        final(config)@ == old(config)@.with_child(version@),
        old(config)@.unique_children() && !old(config)@.has_child(version@)
            ==> final(config)@.unique_children(),
{
    config.children.push(version.to_owned());
    assert(config@.children =~= old(config)@.children.push(version@));
}

/// Whether `version` is one of the sub-versions of `config`, letter for letter.
pub fn exist_version(config: &Config, version: &str) -> (found: bool)
    ensures
        found == config@.has_child(version@),
{
    let wanted = version.to_owned();
    let ghost names = config.children.deep_view();
    let mut i: usize = 0;
    while i < config.children.len()
        invariant
            i <= config.children.len(),
            names == config.children.deep_view(),
            wanted@ == version@,
            forall|k: int| 0 <= k < i ==> names[k] != version@,
        decreases config.children.len() - i,
    {
        if config.children[i] == wanted {
            assert(names[i as int] == version@);
            return true;
        }
        i += 1;
    }
    false
}

} // verus!
