//! Release configurations: the document a user edits, the schema it must
//! meet, and the changes made to it once accepted.
//!
//! A document is the sequence of its top-level keys with their values, in
//! the order they are written. Validation reads it as a strict schema reader
//! does: values are checked in the order they appear and the first bad one is
//! reported; then the first required key that is absent, in schema order.
//! Keys outside the schema are ignored.

use crate::error::ConfigError;
use vstd::prelude::*;

verus! {

/// A calendar date.
#[derive(Debug, Clone, Copy, PartialEq, Eq)]
pub struct Date {
    pub year: u16,
    pub month: u8,
    pub day: u8,
}

/// A top-level value, as far as validation reads it.
#[derive(Debug, PartialEq, Eq)]
pub enum FieldValue {
    Str(String),
    /// An array; an element that is not a string is `None`.
    Array(Vec<Option<String>>),
    Date(Date),
    /// Any other kind of value.
    Other,
}

/// A release configuration: its top-level keys and values in written order.
#[derive(Debug, PartialEq, Eq)]
pub struct ReleaseDocument {
    pub entries: Vec<(String, FieldValue)>,
}

/// The commented document that a project's first edit starts from. Every
/// value is a placeholder, so it must be filled in before it is accepted.
pub const INITIAL_RELEASE_CONFIG: &'static str = r#"# All the fields, unless specified otherwise should contain a value
# Project
codeUrl = "" # The link to your repository
description = "" # Project description
playableUrl = "" # Link that showcases your project. Can be a live demo like a website or a release link

# Screenshots
# An array of urls pointing to screenshots
# You should not use this to add new screenshots, instead you should only use this to remove screenshots
screenshots = []
# An array of paths that will be uploaded and then added to the screenshot array above
# newScreenshotPaths = []

# Personal information
addressLine1 = ""
addressLine2 = "" # Optional
birthday = 2000-01-01 # ISO-8601 format (YYYY-MM-DD)
city = ""
country = "" # Country code
email = "" # The email used to sign up into neighborhood
githubUsername = ""
firstName = ""
lastName = ""
stateProvince = ""
zipCode = ""

# Telemetry
howCanWeImprove = ""
howDidYouHear = ""
whatAreWeDoingWell = """#;

/// What a key of the schema must hold.
#[derive(Debug, Clone, Copy, PartialEq, Eq)]
pub enum FieldKind {
    /// A non-empty string.
    NonEmpty,
    /// Any string.
    Text,
    /// An array of non-empty strings.
    NonEmptyList,
    Date,
}

/// The keys of the schema, in schema order.
pub open spec fn required_keys() -> Seq<Seq<char>> {
    seq![
        "codeUrl"@, "description"@, "playableUrl"@, "screenshots"@, "addressLine1"@,
        "addressLine2"@, "birthday"@, "city"@, "country"@, "email"@, "githubUsername"@,
        "firstName"@, "lastName"@, "stateProvince"@, "zipCode"@, "howCanWeImprove"@,
        "howDidYouHear"@, "whatAreWeDoingWell"@,
    ]
}

pub open spec fn kind_of(key: Seq<char>) -> Option<FieldKind> {
    if key == "screenshots"@ {
        Some(FieldKind::NonEmptyList)
    } else if key == "addressLine2"@ {
        Some(FieldKind::Text)
    } else if key == "birthday"@ {
        Some(FieldKind::Date)
    } else if required_keys().contains(key) {
        Some(FieldKind::NonEmpty)
    } else {
        None
    }
}

/// The index of the first empty string among `items`.
pub open spec fn first_empty(items: Seq<Option<String>>) -> Option<int>
    decreases items.len(),
{
    if items.len() == 0 {
        None
    } else {
        match first_empty(items.drop_last()) {
            Some(k) => Some(k),
            None => if items.last() is Some && items.last()->Some_0@.len() == 0 {
                Some(items.len() - 1)
            } else {
                None
            },
        }
    }
}

pub open spec fn all_strings(items: Seq<Option<String>>) -> bool {
    forall|i: int| 0 <= i < items.len() ==> (#[trigger] items[i]) is Some
}

/// What is wrong with `value` as the value of `key`, of kind `kind`.
pub open spec fn value_error(key: String, kind: FieldKind, value: FieldValue) -> Option<ConfigError> {
    match (kind, value) {
        (FieldKind::NonEmpty, FieldValue::Str(s)) => if s@.len() == 0 {
            Some(ConfigError::EmptyField(key))
        } else {
            None
        },
        (FieldKind::Text, FieldValue::Str(_)) => None,
        (FieldKind::Date, FieldValue::Date(_)) => None,
        (FieldKind::NonEmptyList, FieldValue::Array(items)) => if !all_strings(items@) {
            Some(ConfigError::InvalidType(key))
        } else {
            match first_empty(items@) {
                Some(i) => Some(ConfigError::EmptyScreenshot(i as usize)),
                None => None,
            }
        },
        _ => Some(ConfigError::InvalidType(key)),
    }
}

pub open spec fn entry_error(entry: (String, FieldValue)) -> Option<ConfigError> {
    match kind_of(entry.0@) {
        Some(kind) => value_error(entry.0, kind, entry.1),
        None => None,
    }
}

/// The error of the first entry, in written order, whose value is wrong.
pub open spec fn first_invalid(entries: Seq<(String, FieldValue)>) -> Option<ConfigError>
    decreases entries.len(),
{
    if entries.len() == 0 {
        None
    } else {
        match first_invalid(entries.drop_last()) {
            Some(e) => Some(e),
            None => entry_error(entries.last()),
        }
    }
}

pub open spec fn has_key(entries: Seq<(String, FieldValue)>, key: Seq<char>) -> bool {
    exists|j: int| 0 <= j < entries.len() && (#[trigger] entries[j]).0@ == key
}

/// The `i`-th key of the schema is the first one that `entries` lacks.
pub open spec fn first_missing(entries: Seq<(String, FieldValue)>, i: int) -> bool {
    &&& 0 <= i < required_keys().len()
    &&& !has_key(entries, required_keys()[i])
    &&& forall|j: int| 0 <= j < i ==> has_key(entries, #[trigger] required_keys()[j])
}

pub open spec fn none_missing(entries: Seq<(String, FieldValue)>) -> bool {
    forall|i: int| 0 <= i < required_keys().len() ==> has_key(entries, #[trigger] required_keys()[i])
}

/// The keys of the schema, in schema order.
pub fn schema_keys() -> (r: Vec<&'static str>)
    ensures
        r@.len() == required_keys().len(),
        forall|i: int| 0 <= i < r@.len() ==> (#[trigger] r@[i])@ == required_keys()[i],
{
    let r = vec![
        "codeUrl", "description", "playableUrl", "screenshots", "addressLine1",
        "addressLine2", "birthday", "city", "country", "email", "githubUsername",
        "firstName", "lastName", "stateProvince", "zipCode", "howCanWeImprove",
        "howDidYouHear", "whatAreWeDoingWell",
    ];
    assert(r@.len() == 18);
    r
}

/// What the schema asks of `key`; `None` for a key outside the schema.
pub fn field_kind(key: &String) -> (r: Option<FieldKind>)
    ensures
        r == kind_of(key@),
{
    if key.eq(&"screenshots".to_owned()) {
        return Some(FieldKind::NonEmptyList);
    }
    if key.eq(&"addressLine2".to_owned()) {
        return Some(FieldKind::Text);
    }
    if key.eq(&"birthday".to_owned()) {
        return Some(FieldKind::Date);
    }
    let keys = schema_keys();
    let mut i: usize = 0;
    while i < keys.len()
        invariant
            keys@.len() == required_keys().len(),
            forall|j: int| 0 <= j < keys@.len() ==> (#[trigger] keys@[j])@ == required_keys()[j],
            i <= keys@.len(),
            key@ != "screenshots"@ && key@ != "addressLine2"@ && key@ != "birthday"@,
            forall|j: int| 0 <= j < i ==> required_keys()[j] != key@,
        decreases keys@.len() - i,
    {
        if key.eq(&keys[i].to_owned()) {
            assert(required_keys()[i as int] == key@);
            assert(required_keys().contains(key@));
            return Some(FieldKind::NonEmpty);
        }
        i = i + 1;
    }
    assert(!required_keys().contains(key@));
    None
}

/// What is wrong with `items` as a list of non-empty strings.
fn list_error(key: &String, items: &Vec<Option<String>>) -> (r: Option<ConfigError>)
    ensures
        r == value_error(*key, FieldKind::NonEmptyList, FieldValue::Array(*items)),
{
    let mut i: usize = 0;
    while i < items.len()
        invariant
            i <= items@.len(),
            all_strings(items@.subrange(0, i as int)),
        decreases items@.len() - i,
    {
        if items[i].is_none() {
            assert(!all_strings(items@)) by {
                assert(items@[i as int] is None);
            }
            return Some(ConfigError::InvalidType(key.clone()));
        }
        assert(all_strings(items@.subrange(0, i + 1))) by {
            assert forall|j: int| 0 <= j < i + 1 implies (#[trigger] items@.subrange(0, i + 1)[j]) is Some by {
                if j < i {
                    assert(items@.subrange(0, i + 1)[j] == items@.subrange(0, i as int)[j]);
                }
            }
        }
        i = i + 1;
    }
    assert(items@.subrange(0, items@.len() as int) =~= items@);
    let mut k: usize = 0;
    assert(items@.subrange(0, 0) =~= Seq::<Option<String>>::empty());
    while k < items.len()
        invariant
            k <= items@.len(),
            all_strings(items@),
            first_empty(items@.subrange(0, k as int)) is None,
        decreases items@.len() - k,
    {
        assert(items@.subrange(0, k + 1).drop_last() =~= items@.subrange(0, k as int));
        match &items[k] {
            Some(s) => {
                if s.unicode_len() == 0 {
                    proof {
                        lemma_first_empty_prefix(items@, k as int + 1);
                    }
                    return Some(ConfigError::EmptyScreenshot(k));
                }
            },
            None => {},
        }
        k = k + 1;
    }
    assert(items@.subrange(0, items@.len() as int) =~= items@);
    None
}

/// A first empty string found in a prefix is the first of the whole list.
proof fn lemma_first_empty_prefix(items: Seq<Option<String>>, n: int)
    requires
        0 <= n <= items.len(),
        first_empty(items.subrange(0, n)) is Some,
    ensures
        first_empty(items) == first_empty(items.subrange(0, n)),
    decreases items.len() - n,
{
    if n < items.len() {
        assert(items.subrange(0, n + 1).drop_last() =~= items.subrange(0, n));
        lemma_first_empty_prefix(items, n + 1);
    } else {
        assert(items.subrange(0, n) =~= items);
    }
}

/// What is wrong with `value` as the value of `key`.
pub fn entry_check(key: &String, value: &FieldValue) -> (r: Option<ConfigError>)
    ensures
        r == entry_error((*key, *value)),
{
    match field_kind(key) {
        None => None,
        Some(kind) => match (kind, value) {
            (FieldKind::NonEmpty, FieldValue::Str(s)) => if s.unicode_len() == 0 {
                Some(ConfigError::EmptyField(key.clone()))
            } else {
                None
            },
            (FieldKind::Text, FieldValue::Str(_)) => None,
            (FieldKind::Date, FieldValue::Date(_)) => None,
            (FieldKind::NonEmptyList, FieldValue::Array(items)) => list_error(key, items),
            _ => Some(ConfigError::InvalidType(key.clone())),
        },
    }
}

/// Whether some entry is written under `key`.
fn contains_key(entries: &Vec<(String, FieldValue)>, key: &str) -> (r: bool)
    ensures
        r == has_key(entries@, key@),
{
    let k = key.to_owned();
    let mut j: usize = 0;
    while j < entries.len()
        invariant
            j <= entries@.len(),
            k@ == key@,
            forall|i: int| 0 <= i < j ==> (#[trigger] entries@[i]).0@ != key@,
        decreases entries@.len() - j,
    {
        if entries[j].0.eq(&k) {
            return true;
        }
        j = j + 1;
    }
    false
}

impl ReleaseDocument {
    /// Checks the document against the schema: the first value, in written
    /// order, that the schema refuses is reported; else the first key of the
    /// schema, in schema order, that the document lacks.
    pub fn validate(&self) -> (r: Result<(), ConfigError>)
        ensures
            match first_invalid(self.entries@) {
                Some(e) => r == Err::<(), ConfigError>(e),
                None => (forall|i: int| first_missing(self.entries@, i) ==> (r matches Err(ConfigError::MissingField(k))
                    && k@ == required_keys()[i]))
                    && (r is Ok <==> none_missing(self.entries@))
                    && (r is Err ==> r matches Err(ConfigError::MissingField(_))),
            },
    {
        let entries = &self.entries;
        let mut i: usize = 0;
        assert(entries@.subrange(0, 0) =~= Seq::<(String, FieldValue)>::empty());
        while i < entries.len()
            invariant
                i <= entries@.len(),
                entries == &self.entries,
                first_invalid(entries@.subrange(0, i as int)) is None,
            decreases entries@.len() - i,
        {
            assert(entries@.subrange(0, i + 1).drop_last() =~= entries@.subrange(0, i as int));
            let entry = &entries[i];
            match entry_check(&entry.0, &entry.1) {
                Some(e) => {
                    proof {
                        assert(entries@.subrange(0, i + 1).last() == entries@[i as int]);
                        assert(first_invalid(entries@.subrange(0, i + 1)) == Some(e));
                        lemma_first_invalid_prefix(entries@, i as int + 1);
                    }
                    return Err(e);
                },
                None => {},
            }
            i = i + 1;
        }
        assert(entries@.subrange(0, entries@.len() as int) =~= entries@);
        let keys = schema_keys();
        let mut m: usize = 0;
        while m < keys.len()
            invariant
                keys@.len() == required_keys().len(),
                forall|j: int| 0 <= j < keys@.len() ==> (#[trigger] keys@[j])@ == required_keys()[j],
                m <= keys@.len(),
                entries == &self.entries,
                first_invalid(entries@) is None,
                forall|j: int| 0 <= j < m ==> has_key(entries@, #[trigger] required_keys()[j]),
            decreases keys@.len() - m,
        {
            if !contains_key(entries, keys[m]) {
                proof {
                    assert(first_missing(entries@, m as int));
                    assert forall|i: int| first_missing(entries@, i) implies i == m by {
                        if i < m {
                            assert(has_key(entries@, required_keys()[i]));
                        }
                        if i > m {
                            assert(has_key(entries@, required_keys()[m as int]));
                        }
                    }
                }
                let k = keys[m].to_owned();
                assert(k@ == required_keys()[m as int]);
                assert(!none_missing(entries@)) by {
                    assert(!has_key(entries@, required_keys()[m as int]));
                }
                return Err(ConfigError::MissingField(k));
            }
            m = m + 1;
        }
        assert forall|i: int| !first_missing(entries@, i) by {
            if 0 <= i < required_keys().len() {
                assert(has_key(entries@, required_keys()[i]));
            }
        }
        Ok(())
    }
}

/// An error found in a prefix is the first error of the whole sequence.
proof fn lemma_first_invalid_prefix(entries: Seq<(String, FieldValue)>, n: int)
    requires
        0 <= n <= entries.len(),
        first_invalid(entries.subrange(0, n)) is Some,
    ensures
        first_invalid(entries) == first_invalid(entries.subrange(0, n)),
    decreases entries.len() - n,
{
    if n < entries.len() {
        assert(entries.subrange(0, n + 1).drop_last() =~= entries.subrange(0, n));
        lemma_first_invalid_prefix(entries, n + 1);
    } else {
        assert(entries.subrange(0, n) =~= entries);
    }
}

/// Entry `i` is the first one written under `key`.
pub open spec fn first_key_at(entries: Seq<(String, FieldValue)>, key: Seq<char>, i: int) -> bool {
    &&& 0 <= i < entries.len()
    &&& entries[i].0@ == key
    &&& forall|j: int| 0 <= j < i ==> (#[trigger] entries[j]).0@ != key
}

/// The strings among `items`, in order.
pub open spec fn strings_of(items: Seq<Option<String>>) -> Seq<String>
    decreases items.len(),
{
    if items.len() == 0 {
        Seq::empty()
    } else {
        let prefix = strings_of(items.drop_last());
        match items.last() {
            Some(s) => prefix.push(s),
            None => prefix,
        }
    }
}

/// The non-empty strings among `urls`, in order, as array elements.
pub open spec fn non_empty_elements(urls: Seq<String>) -> Seq<Option<String>>
    decreases urls.len(),
{
    if urls.len() == 0 {
        Seq::empty()
    } else {
        let prefix = non_empty_elements(urls.drop_last());
        if urls.last()@.len() == 0 {
            prefix
        } else {
            prefix.push(Some(urls.last()))
        }
    }
}

/// The index of the first entry written under `key`, if any.
fn find_key(entries: &Vec<(String, FieldValue)>, key: &str) -> (r: Option<usize>)
    ensures
        match r {
            Some(i) => first_key_at(entries@, key@, i as int),
            None => forall|j: int| 0 <= j < entries@.len() ==> (#[trigger] entries@[j]).0@ != key@,
        },
{
    let k = key.to_owned();
    let mut j: usize = 0;
    while j < entries.len()
        invariant
            j <= entries@.len(),
            k@ == key@,
            forall|i: int| 0 <= i < j ==> (#[trigger] entries@[i]).0@ != key@,
        decreases entries@.len() - j,
    {
        if entries[j].0.eq(&k) {
            return Some(j);
        }
        j = j + 1;
    }
    None
}

/// `after` is `before` without its first `newScreenshotPaths` entry, whose
/// strings, in order, are `paths`; nothing is taken when there is no such entry.
pub open spec fn took_new_paths(
    before: Seq<(String, FieldValue)>,
    after: Seq<(String, FieldValue)>,
    paths: Seq<String>,
) -> bool {
    &&& forall|i: int| first_key_at(before, NEW_SCREENSHOT_PATHS@, i) ==> {
        &&& after == before.remove(i)
        &&& match before[i].1 {
            FieldValue::Array(items) => paths == strings_of(items@),
            _ => paths.len() == 0,
        }
    }
    &&& (forall|j: int| 0 <= j < before.len() ==> (#[trigger] before[j]).0@ != NEW_SCREENSHOT_PATHS@) ==> {
        &&& after == before
        &&& paths.len() == 0
    }
}

/// `after` is `before` with the non-empty ones of `urls`, in order, appended
/// to the array of its first `screenshots` entry; unchanged when there is no
/// such array.
pub open spec fn merged(before: Seq<(String, FieldValue)>, urls: Seq<String>, after: Seq<(String, FieldValue)>) -> bool {
    &&& forall|i: int| first_key_at(before, SCREENSHOTS@, i) ==> match before[i].1 {
        FieldValue::Array(items) => {
            &&& after.len() == before.len()
            &&& after[i].0 == before[i].0
            &&& after[i].1 matches FieldValue::Array(m) && m@ == items@ + non_empty_elements(urls)
            &&& forall|j: int| 0 <= j < before.len() && j != i ==> #[trigger] after[j] == before[j]
        },
        _ => after == before,
    }
    &&& (forall|j: int| 0 <= j < before.len() ==> (#[trigger] before[j]).0@ != SCREENSHOTS@) ==> after == before
}

/// The name of the transient key that lists files to upload as screenshots.
pub const NEW_SCREENSHOT_PATHS: &'static str = "newScreenshotPaths";

/// The name of the key that lists the screenshots' addresses.
pub const SCREENSHOTS: &'static str = "screenshots";

impl ReleaseDocument {
    /// Takes the transient list of screenshot files out of the document: the
    /// first entry under `newScreenshotPaths` is removed, and the strings of
    /// its array, in order, are returned (nothing when it is not an array).
    pub fn take_new_screenshot_paths(&mut self) -> (r: Vec<String>)
        ensures
            took_new_paths(old(self).entries@, final(self).entries@, r@),
    {
        match find_key(&self.entries, NEW_SCREENSHOT_PATHS) {
            None => Vec::new(),
            Some(i) => {
                proof {
                    assert forall|k: int| first_key_at(old(self).entries@, NEW_SCREENSHOT_PATHS@, k) implies k == i by {
                        if k < i {
                            assert(old(self).entries@[k].0@ != NEW_SCREENSHOT_PATHS@);
                        }
                        if k > i {
                            assert(old(self).entries@[i as int].0@ == NEW_SCREENSHOT_PATHS@);
                        }
                    }
                }
                let (_, value) = self.entries.remove(i);
                let mut paths: Vec<String> = Vec::new();
                match value {
                    FieldValue::Array(items) => {
                        let mut j: usize = 0;
                        assert(items@.subrange(0, 0) =~= Seq::<Option<String>>::empty());
                        while j < items.len()
                            invariant
                                j <= items@.len(),
                                paths@ == strings_of(items@.subrange(0, j as int)),
                            decreases items@.len() - j,
                        {
                            assert(items@.subrange(0, j + 1).drop_last() =~= items@.subrange(0, j as int));
                            match &items[j] {
                                Some(s) => {
                                    paths.push(s.clone());
                                },
                                None => {},
                            }
                            j = j + 1;
                        }
                        assert(items@.subrange(0, items@.len() as int) =~= items@);
                    },
                    _ => {},
                }
                paths
            },
        }
    }

    /// Appends the non-empty ones of `urls`, in order, to the array of the
    /// first `screenshots` entry; a document without such an array is left
    /// as it is.
    pub fn merge_screenshots(&mut self, urls: Vec<String>)
        ensures
            merged(old(self).entries@, urls@, final(self).entries@),
    {
        match find_key(&self.entries, SCREENSHOTS) {
            None => {},
            Some(i) => {
                proof {
                    assert forall|k: int| first_key_at(old(self).entries@, SCREENSHOTS@, k) implies k == i by {
                        if k < i {
                            assert(old(self).entries@[k].0@ != SCREENSHOTS@);
                        }
                        if k > i {
                            assert(old(self).entries@[i as int].0@ == SCREENSHOTS@);
                        }
                    }
                }
                let ghost before = self.entries@;
                let (key, value) = self.entries.remove(i);
                match value {
                    FieldValue::Array(items) => {
                        let ghost start = items@;
                        let mut items = items;
                        let mut j: usize = 0;
                        assert(urls@.subrange(0, 0) =~= Seq::<String>::empty());
                        assert(items@ =~= start + non_empty_elements(urls@.subrange(0, 0)));
                        while j < urls.len()
                            invariant
                                j <= urls@.len(),
                                items@ == start + non_empty_elements(urls@.subrange(0, j as int)),
                            decreases urls@.len() - j,
                        {
                            assert(urls@.subrange(0, j + 1).drop_last() =~= urls@.subrange(0, j as int));
                            if urls[j].unicode_len() > 0 {
                                items.push(Some(urls[j].clone()));
                                assert(items@ =~= start + non_empty_elements(urls@.subrange(0, j + 1)));
                            } else {
                                assert(items@ =~= start + non_empty_elements(urls@.subrange(0, j + 1)));
                            }
                            j = j + 1;
                        }
                        assert(urls@.subrange(0, urls@.len() as int) =~= urls@);
                        self.entries.insert(i, (key, FieldValue::Array(items)));
                        assert forall|j: int| 0 <= j < before.len() && j != i
                            implies #[trigger] self.entries@[j] == before[j] by {
                        }
                    },
                    other => {
                        self.entries.insert(i, (key, other));
                        assert(self.entries@ =~= before);
                    },
                }
            },
        }
    }
}

proof fn lemma_all_valid(entries: Seq<(String, FieldValue)>)
    requires
        forall|j: int| 0 <= j < entries.len() ==> entry_error(#[trigger] entries[j]) is None,
    ensures
        first_invalid(entries) is None,
    decreases entries.len(),
{
    if entries.len() > 0 {
        let prefix = entries.drop_last();
        assert forall|j: int| 0 <= j < prefix.len() implies entry_error(#[trigger] prefix[j]) is None by {
            assert(prefix[j] == entries[j]);
        }
        lemma_all_valid(prefix);
        assert(entry_error(entries[entries.len() - 1]) is None);
    }
}

/// A document whose values all meet the schema, and which lacks exactly one
/// key of the schema, is refused naming that key.
pub proof fn lemma_missing_field_named(entries: Seq<(String, FieldValue)>, i: int)
    requires
        0 <= i < required_keys().len(),
        forall|j: int| 0 <= j < entries.len() ==> entry_error(#[trigger] entries[j]) is None,
        !has_key(entries, required_keys()[i]),
        forall|j: int| 0 <= j < required_keys().len() && j != i ==> has_key(entries, #[trigger] required_keys()[j]),
    ensures
        first_invalid(entries) is None,
        first_missing(entries, i),
        forall|k: int| #[trigger] first_missing(entries, k) ==> k == i,
{
    lemma_all_valid(entries);
    assert forall|k: int| #[trigger] first_missing(entries, k) implies k == i by {
        if k != i {
            assert(has_key(entries, required_keys()[k]));
        }
    }
}

/// A document whose only wrong value is a `screenshots` array of strings,
/// the first empty one at index `i`, is refused naming `screenshots[i]`.
pub proof fn lemma_empty_screenshot_named(entries: Seq<(String, FieldValue)>, s: int, i: int)
    requires
        0 <= s < entries.len(),
        entries[s].0@ == SCREENSHOTS@,
        entries[s].1 matches FieldValue::Array(items) && all_strings(items@) && first_empty(items@) == Some(i),
        forall|j: int| 0 <= j < entries.len() && j != s ==> entry_error(#[trigger] entries[j]) is None,
    ensures
        first_invalid(entries) == Some(ConfigError::EmptyScreenshot(i as usize)),
    decreases entries.len(),
{
    assert(kind_of(entries[s].0@) == Some(FieldKind::NonEmptyList));
    if s == entries.len() - 1 {
        let prefix = entries.drop_last();
        assert forall|j: int| 0 <= j < prefix.len() implies entry_error(#[trigger] prefix[j]) is None by {
            assert(prefix[j] == entries[j]);
        }
        lemma_all_valid(prefix);
    } else {
        let prefix = entries.drop_last();
        assert forall|j: int| 0 <= j < prefix.len() && j != s implies entry_error(#[trigger] prefix[j]) is None by {
            assert(prefix[j] == entries[j]);
        }
        assert(prefix[s] == entries[s]);
        lemma_empty_screenshot_named(prefix, s, i);
    }
}

} // verus!
