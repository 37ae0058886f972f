//! From a file's name to the label and icon of its language.

use vstd::prelude::*;
use vstd::std_specs::iter::IteratorSpec;
use vstd::string::*;

verus! {

/// What an [`AssetPair`] stands for.
pub struct AssetPairView {
    pub text: Seq<char>,
    pub image: Seq<char>,
}

/// A label fit for display and the key of the icon that goes with it.
#[derive(Debug, PartialEq, Eq)]
pub struct AssetPair {
    /// Human-readable label.
    pub text: String,
    /// Identifier of the icon.
    pub image: String,
}

impl View for AssetPair {
    type V = AssetPairView;

    open spec fn view(&self) -> AssetPairView {
        AssetPairView { text: self.text@, image: self.image@ }
    }
}

impl AssetPair {
    /// The pair made of `text` and `image`.
    pub fn new(text: &str, image: &str) -> (pair: Self)
        ensures
            pair@ == (AssetPairView { text: text@, image: image@ }),
    {
        AssetPair { text: text.to_owned(), image: image.to_owned() }
    }

    /// A second pair with the same label and icon.
    pub fn duplicate(&self) -> (pair: Self)
        ensures
            pair@ == self@,
    {
        AssetPair { text: self.text.clone(), image: self.image.clone() }
    }
}

/// Whether `at` is the position of the last dot in `name`.
pub open spec fn is_last_dot(name: Seq<char>, at: int) -> bool {
    &&& 0 <= at < name.len()
    &&& name[at] == '.'
    &&& forall|j: int| at < j < name.len() ==> name[j] != '.'
}

/// The extension of a file name: what follows its last dot. A name without a
/// dot has none.
pub open spec fn extension_of(name: Seq<char>) -> Option<Seq<char>> {
    if exists|at: int| is_last_dot(name, at) {
        let at = choose|at: int| is_last_dot(name, at);
        Some(name.subrange(at + 1, name.len() as int))
    } else {
        None
    }
}

/// A name has at most one last dot.
pub proof fn lemma_last_dot_unique(name: Seq<char>, first: int, second: int)
    requires
        is_last_dot(name, first),
        is_last_dot(name, second),
    ensures
        first == second,
{
}

/// A name has an extension exactly when it holds a dot; the extension holds
/// no dot itself, and the name is some stem, a dot, and the extension.
pub proof fn lemma_extension_splits(name: Seq<char>)
    ensures
        extension_of(name) is Some <==> name.contains('.'),
        extension_of(name) matches Some(extension) ==> {
            &&& !extension.contains('.')
            &&& exists|stem: Seq<char>| name == stem + seq!['.'] + extension
        },
{
    if name.contains('.') {
        assert(name.take(name.len() as int) == name);
        lemma_contains_has_last(name, name.len() as int);
    }
    if exists|at: int| is_last_dot(name, at) {
        let at = choose|at: int| is_last_dot(name, at);
        let extension = name.subrange(at + 1, name.len() as int);
        let stem = name.subrange(0, at);
        assert(name == stem + seq!['.'] + extension);
    }
}

/// If a dot occurs among the first `upto` characters of `name`, one of them
/// is the last to do so.
proof fn lemma_contains_has_last(name: Seq<char>, upto: int)
    requires
        0 <= upto <= name.len(),
        name.take(upto).contains('.'),
    ensures
        exists|at: int| is_last_dot(name.take(upto), at),
    decreases upto,
{
    let prefix = name.take(upto);
    if prefix[upto - 1] == '.' {
        assert(is_last_dot(prefix, upto - 1));
    } else {
        let shorter = name.take(upto - 1);
        lemma_contains_has_last(name, upto - 1);
        let at = choose|at: int| is_last_dot(shorter, at);
        assert(is_last_dot(prefix, at));
    }
}

/// The extension of the file called `name`, if it has one.
pub fn file_extension(name: &str) -> (extension: Option<String>)
    ensures
        extension matches Some(found) ==> extension_of(name@) == Some(found@),
        extension is None ==> extension_of(name@) is None,
{
    let total = name.unicode_len();
    let mut dot: Option<usize> = None;
    let mut count: usize = 0;
    for c in it: name.chars()
        invariant
            total == name@.len(),
            it.seq() == name@,
            count == it.index(),
            dot matches Some(at) ==> is_last_dot(name@.take(count as int), at as int),
            dot is None ==> !name@.take(count as int).contains('.'),
    {
        if c == '.' {
            dot = Some(count);
        }
        count = count + 1;
    }
    assert(name@.take(count as int) == name@);
    match dot {
        Some(at) => {
            let tail = name.substring_char(at + 1, total);
            proof {
                let chosen = choose|at: int| is_last_dot(name@, at);
                lemma_last_dot_unique(name@, at as int, chosen);
            }
            Some(tail.to_owned())
        },
        None => {
            proof {
                lemma_extension_splits(name@);
            }
            None
        },
    }
}

/// What a [`LanguageTable`] stands for: the pair registered for each known
/// extension, and the pair for everything else.
pub struct LanguageTableView {
    pub known: Map<Seq<char>, AssetPairView>,
    pub unknown: AssetPairView,
}

impl LanguageTableView {
    /// The pair for an extension: the registered one, or the pair of the
    /// unknown language where none is registered.
    pub open spec fn lookup(self, extension: Seq<char>) -> AssetPairView {
        if self.known.contains_key(extension) {
            self.known[extension]
        } else {
            self.unknown
        }
    }

    /// The pair for a file: that of its extension, or the pair of the
    /// unknown language where the name has no extension.
    pub open spec fn assets_for(self, file: Seq<char>) -> AssetPairView {
        match extension_of(file) {
            Some(extension) => self.lookup(extension),
            None => self.unknown,
        }
    }
}

/// An extension and the pair shown for the files that carry it.
#[derive(Debug)]
struct LanguageEntry {
    extension: String,
    assets: AssetPair,
}

/// Lookup table from file extensions to languages.
#[derive(Debug)]
pub struct LanguageTable {
    entries: Vec<LanguageEntry>,
    unknown: AssetPair,
}

/// The map that a list of entries stands for; a later entry replaces an
/// earlier one for the same extension.
spec fn known_of(entries: Seq<LanguageEntry>) -> Map<Seq<char>, AssetPairView>
    decreases entries.len(),
{
    if entries.len() == 0 {
        Map::empty()
    } else {
        known_of(entries.drop_last()).insert(entries.last().extension@, entries.last().assets@)
    }
}

impl View for LanguageTable {
    type V = LanguageTableView;

    closed spec fn view(&self) -> LanguageTableView {
        LanguageTableView { known: known_of(self.entries@), unknown: self.unknown@ }
    }
}

impl LanguageTable {
    /// A table that knows no extension yet and answers `unknown` for every
    /// file.
    pub fn new(unknown: AssetPair) -> (table: Self)
        ensures
            table@ == (LanguageTableView { known: Map::empty(), unknown: unknown@ }),
    {
        LanguageTable { entries: Vec::new(), unknown }
    }

    /// Makes `assets` the pair of the files that end in `extension`,
    /// replacing what was registered for it before.
    pub fn register(&mut self, extension: &str, assets: AssetPair)
        ensures
            final(self)@ == (LanguageTableView {
                known: old(self)@.known.insert(extension@, assets@),
                unknown: old(self)@.unknown,
            }),
    {
        let entry = LanguageEntry { extension: extension.to_owned(), assets };
        self.entries.push(entry);
        assert(self.entries@.drop_last() == old(self).entries@);
    }

    /// The pair of the unknown language.
    pub fn unknown(&self) -> (pair: AssetPair)
        ensures
            pair@ == self@.unknown,
    {
        self.unknown.duplicate()
    }

    /// The pair registered for `extension`, or that of the unknown language.
    pub fn lookup(&self, extension: &str) -> (pair: AssetPair)
        ensures
            pair@ == self@.lookup(extension@),
    {
        let wanted = extension.to_owned();
        let mut remaining: usize = self.entries.len();
        assert(self.entries@.take(remaining as int) == self.entries@);
        while remaining > 0
            invariant
                remaining <= self.entries.len(),
                wanted@ == extension@,
                (LanguageTableView {
                    known: known_of(self.entries@.take(remaining as int)),
                    unknown: self.unknown@,
                }).lookup(wanted@) == self@.lookup(wanted@),
            decreases remaining,
        {
            let ghost considered = self.entries@.take(remaining as int);
            remaining = remaining - 1;
            assert(considered.drop_last() == self.entries@.take(remaining as int));
            if self.entries[remaining].extension == wanted {
                return self.entries[remaining].assets.duplicate();
            }
        }
        self.unknown.duplicate()
    }

    /// The pair for the file called `file`.
    pub fn assets_for(&self, file: &str) -> (pair: AssetPair)
        ensures
            pair@ == self@.assets_for(file@),
    {
        match file_extension(file) {
            Some(extension) => self.lookup(extension.as_str()),
            None => self.unknown(),
        }
    }
}

} // verus!
