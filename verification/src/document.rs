//! Lock documents: TOML text, parsed by the `toml` crate, and the package
//! records that are read out of the parsed value.

use crate::edge::texts;
use crate::error::{LockIssue, PrepopError, RecordField};
use crate::package::{records_view, PackageRecord, PackageRecordView};
use vstd::prelude::*;
use vstd::string::*;

verus! {

/// `toml::Value`, a parsed TOML value. Nothing inside it is visible here:
/// what the library reads of one, it reads through the crate's own methods.
#[verifier::external_type_specification]
#[verifier::external_body]
pub struct ExValue(toml::Value);

/// `toml::de::Error`, the error with which the `toml` crate turns a text
/// down.
#[verifier::external_type_specification]
#[verifier::external_body]
pub struct ExParseError(toml::de::Error);

/// The value that the `toml` crate parses the document `text` into; `None`
/// where it turns the text down.
pub uninterp spec fn toml_parse(text: Seq<char>) -> Option<toml::Value>;

/// What `toml::Value::get` finds under the string `key`: the entry of that
/// key where `value` is a table that has one.
pub uninterp spec fn toml_get(value: toml::Value, key: Seq<char>) -> Option<toml::Value>;

/// The characters of `value` where it is a TOML string.
pub uninterp spec fn toml_str(value: toml::Value) -> Option<Seq<char>>;

/// The items of `value` where it is a TOML array.
pub uninterp spec fn toml_array(value: toml::Value) -> Option<Seq<toml::Value>>;

/// Calls `str::parse` for `toml::Value`, which is `toml::from_str`: the text
/// is parsed as a whole TOML document. Trusted: the outcome depends on the
/// text alone, and is named `toml_parse`.
#[verifier::external_body]
fn parse_document(text: &str) -> (parsed: Result<toml::Value, toml::de::Error>)
    ensures
        match parsed {
            Ok(value) => toml_parse(text@) == Some(value),
            Err(_) => toml_parse(text@) is None,
        },
{
    text.parse::<toml::Value>()
}

/// Calls `to_string` on a `toml::de::Error`, which gives the parser's
/// message with the line and column. Nothing is claimed of the message.
#[verifier::external_body]
fn parse_error_message(error: &toml::de::Error) -> String {
    error.to_string()
}

/// Calls `toml::Value::get` with a string key. Trusted: the outcome depends
/// on the value and the key alone, and is named `toml_get`.
#[verifier::external_body]
fn get<'a>(value: &'a toml::Value, key: &str) -> (found: Option<&'a toml::Value>)
    ensures
        match found {
            Some(entry) => toml_get(*value, key@) == Some(*entry),
            None => toml_get(*value, key@) is None,
        },
{
    value.get(key)
}

/// `toml::Value::as_str` gives the string of a `Value::String` and `None`
/// for every other variant; the outcome is named `toml_str`.
pub assume_specification<'a>[ toml::Value::as_str ](value: &'a toml::Value) -> (text: Option<
    &'a str,
>)
    ensures
        match text {
            Some(text) => toml_str(*value) == Some(text@),
            None => toml_str(*value) is None,
        },
;

/// `toml::Value::as_array` gives the items of a `Value::Array` and `None`
/// for every other variant; the outcome is named `toml_array`.
pub assume_specification<'a>[ toml::Value::as_array ](value: &'a toml::Value) -> (items: Option<
    &'a Vec<toml::Value>,
>)
    ensures
        match items {
            Some(items) => toml_array(*value) == Some(items@),
            None => toml_array(*value) is None,
        },
;

/// The string under `key` in `entry`; `None` where there is no such key or
/// its value is no string.
pub open spec fn text_under(entry: toml::Value, key: Seq<char>) -> Option<Seq<char>> {
    match toml_get(entry, key) {
        Some(value) => toml_str(value),
        None => None,
    }
}

/// The strings that `items` hold; `None` where one of them is no string.
pub open spec fn strings_of(items: Seq<toml::Value>) -> Option<Seq<Seq<char>>> {
    if forall|i: int| 0 <= i < items.len() ==> toml_str(#[trigger] items[i]) is Some {
        Some(Seq::new(items.len(), |i: int| toml_str(items[i])->0))
    } else {
        None
    }
}

/// The source of `entry`: absent where the key is, an error where its value
/// is no string.
pub open spec fn source_of(entry: toml::Value) -> Result<Option<Seq<char>>, RecordField> {
    match toml_get(entry, "source"@) {
        None => Ok(None),
        Some(value) => match toml_str(value) {
            Some(text) => Ok(Some(text)),
            None => Err(RecordField::Source),
        },
    }
}

/// The edges of `entry`: absent where the key is, an error where its value
/// is no array of strings.
pub open spec fn dependencies_of(entry: toml::Value) -> Result<
    Option<Seq<Seq<char>>>,
    RecordField,
> {
    match toml_get(entry, "dependencies"@) {
        None => Ok(None),
        Some(value) => match toml_array(value) {
            Some(items) => match strings_of(items) {
                Some(edges) => Ok(Some(edges)),
                None => Err(RecordField::Dependencies),
            },
            None => Err(RecordField::Dependencies),
        },
    }
}

/// The record that `entry` holds, or the first field, in the order name,
/// version, source, dependencies, that is missing or of the wrong type.
pub open spec fn record_of(entry: toml::Value) -> Result<PackageRecordView, RecordField> {
    if text_under(entry, "name"@) is None {
        Err(RecordField::Name)
    } else if text_under(entry, "version"@) is None {
        Err(RecordField::Version)
    } else {
        match source_of(entry) {
            Err(field) => Err(field),
            Ok(source) => match dependencies_of(entry) {
                Err(field) => Err(field),
                Ok(dependencies) => Ok(
                    PackageRecordView {
                        name: text_under(entry, "name"@)->0,
                        version: text_under(entry, "version"@)->0,
                        source,
                        dependencies,
                    },
                ),
            },
        }
    }
}

/// The records that `entries` hold, in order, or the first entry that holds
/// none, with the field at fault.
pub open spec fn records_of(entries: Seq<toml::Value>) -> Result<Seq<PackageRecordView>, LockIssue>
    decreases entries.len(),
{
    if entries.len() == 0 {
        Ok(Seq::empty())
    } else {
        match records_of(entries.drop_last()) {
            Err(issue) => Err(issue),
            Ok(records) => match record_of(entries.last()) {
                Ok(record) => Ok(records.push(record)),
                Err(field) => Err(
                    LockIssue::BadField { entry: (entries.len() - 1) as usize, field },
                ),
            },
        }
    }
}

/// The records of the document `document`: those of the array under its key
/// `package`.
pub open spec fn document_records(document: toml::Value) -> Result<
    Seq<PackageRecordView>,
    LockIssue,
> {
    match toml_get(document, "package"@) {
        None => Err(LockIssue::MissingPackageList),
        Some(list) => match toml_array(list) {
            None => Err(LockIssue::PackageListNotArray),
            Some(entries) => records_of(entries),
        },
    }
}

fn read_text(entry: &toml::Value, key: &str) -> (text: Option<String>)
    ensures
        match text {
            Some(text) => text_under(*entry, key@) == Some(text@),
            None => text_under(*entry, key@) is None,
        },
{
    match get(entry, key) {
        Some(value) => match value.as_str() {
            Some(text) => Some(String::from_str(text)),
            None => None,
        },
        None => None,
    }
}

fn read_strings(items: &Vec<toml::Value>) -> (strings: Option<Vec<String>>)
    ensures
        match strings {
            Some(strings) => strings_of(items@) == Some(texts(strings@)),
            None => strings_of(items@) is None,
        },
{
    let mut strings: Vec<String> = Vec::new();
    let mut i: usize = 0;
    while i < items.len()
        invariant
            i <= items.len(),
            strings.len() == i,
            forall|j: int| 0 <= j < i ==> toml_str(#[trigger] items[j]) == Some(strings[j]@),
        decreases items.len() - i,
    {
        match items[i].as_str() {
            Some(text) => {
                strings.push(String::from_str(text));
            },
            None => {
                return None;
            },
        }
        i += 1;
    }
    assert(strings_of(items@)->0 =~= texts(strings@));
    Some(strings)
}

fn read_source(entry: &toml::Value) -> (source: Result<Option<String>, RecordField>)
    ensures
        match source {
            Ok(Some(text)) => source_of(*entry) == Ok::<_, RecordField>(Some(text@)),
            Ok(None) => source_of(*entry) == Ok::<Option<Seq<char>>, RecordField>(None),
            Err(field) => source_of(*entry) == Err::<Option<Seq<char>>, _>(field),
        },
{
    match get(entry, "source") {
        None => Ok(None),
        Some(value) => match value.as_str() {
            Some(text) => Ok(Some(String::from_str(text))),
            None => Err(RecordField::Source),
        },
    }
}

fn read_dependencies(entry: &toml::Value) -> (edges: Result<Option<Vec<String>>, RecordField>)
    ensures
        match edges {
            Ok(Some(edges)) => dependencies_of(*entry) == Ok::<_, RecordField>(
                Some(texts(edges@)),
            ),
            Ok(None) => dependencies_of(*entry) == Ok::<Option<Seq<Seq<char>>>, RecordField>(
                None,
            ),
            Err(field) => dependencies_of(*entry) == Err::<Option<Seq<Seq<char>>>, _>(field),
        },
{
    match get(entry, "dependencies") {
        None => Ok(None),
        Some(value) => match value.as_array() {
            Some(items) => match read_strings(items) {
                Some(edges) => Ok(Some(edges)),
                None => Err(RecordField::Dependencies),
            },
            None => Err(RecordField::Dependencies),
        },
    }
}

/// Reads one entry of a package list.
pub fn read_record(entry: &toml::Value) -> (record: Result<PackageRecord, RecordField>)
    ensures
        match record {
            Ok(record) => record_of(*entry) == Ok::<_, RecordField>(record@),
            Err(field) => record_of(*entry) == Err::<PackageRecordView, _>(field),
        },
{
    let name = match read_text(entry, "name") {
        Some(name) => name,
        None => {
            return Err(RecordField::Name);
        },
    };
    let version = match read_text(entry, "version") {
        Some(version) => version,
        None => {
            return Err(RecordField::Version);
        },
    };
    let source = match read_source(entry) {
        Ok(source) => source,
        Err(field) => {
            return Err(field);
        },
    };
    let dependencies = match read_dependencies(entry) {
        Ok(dependencies) => dependencies,
        Err(field) => {
            return Err(field);
        },
    };
    Ok(PackageRecord { name, version, source, dependencies })
}

/// Reads the package list of a parsed lock document.
///
/// Fails where the document has no `package` key, where the value under it
/// is no array, and where an entry of the array holds no record; then with
/// the first such entry.
pub fn read_packages(document: &toml::Value) -> (packages: Result<Vec<PackageRecord>, PrepopError>)
    ensures
        match packages {
            Ok(records) => document_records(*document) == Ok::<_, LockIssue>(
                records_view(records@),
            ),
            Err(error) => error matches PrepopError::FormatError(issue) && document_records(
                *document,
            ) == Err::<Seq<PackageRecordView>, _>(issue),
        },
{
    let list = match get(document, "package") {
        Some(list) => list,
        None => {
            return Err(PrepopError::FormatError(LockIssue::MissingPackageList));
        },
    };
    let entries = match list.as_array() {
        Some(entries) => entries,
        None => {
            return Err(PrepopError::FormatError(LockIssue::PackageListNotArray));
        },
    };
    let mut records: Vec<PackageRecord> = Vec::new();
    let mut i: usize = 0;
    assert(entries@.take(0) =~= Seq::<toml::Value>::empty());
    assert(records_view(records@) =~= Seq::<PackageRecordView>::empty());
    while i < entries.len()
        invariant
            i <= entries.len(),
            document_records(*document) == records_of(entries@),
            records_of(entries@.take(i as int)) == Ok::<_, LockIssue>(records_view(records@)),
        decreases entries.len() - i,
    {
        proof {
            assert(entries@.take(i + 1).drop_last() =~= entries@.take(i as int));
            assert(entries@.take(i + 1).last() == entries[i as int]);
        }
        let ghost before = records_view(records@);
        match read_record(&entries[i]) {
            Ok(record) => {
                records.push(record);
                assert(records_view(records@) =~= before.push(record@));
            },
            Err(field) => {
                proof {
                    records_fail_at(entries@, i as int);
                }
                return Err(PrepopError::FormatError(LockIssue::BadField { entry: i, field }));
            },
        }
        i += 1;
    }
    assert(entries@.take(i as int) =~= entries@);
    Ok(records)
}

/// Where the entries before `at` hold records and the one at `at` holds
/// none, reading the whole list fails at `at`.
pub proof fn records_fail_at(entries: Seq<toml::Value>, at: int)
    requires
        0 <= at < entries.len(),
        records_of(entries.take(at)) is Ok,
        record_of(entries[at]) is Err,
    ensures
        records_of(entries) == Err::<Seq<PackageRecordView>, _>(
            LockIssue::BadField { entry: at as usize, field: record_of(entries[at])->Err_0 },
        ),
    decreases entries.len(),
{
    let init = entries.drop_last();
    if at == entries.len() - 1 {
        assert(init =~= entries.take(at));
    } else {
        assert(init.take(at) =~= entries.take(at));
        records_fail_at(init, at);
    }
}

/// A package list is read exactly if each of its entries holds a record, and
/// the records then stand in the order of the entries.
pub proof fn records_follow_entries(entries: Seq<toml::Value>)
    ensures
        records_of(entries) is Ok <==> forall|i: int|
            0 <= i < entries.len() ==> record_of(#[trigger] entries[i]) is Ok,
        records_of(entries) matches Ok(records) ==> records.len() == entries.len() && forall|
            i: int,
        |
            0 <= i < entries.len() ==> record_of(entries[i]) == Ok::<_, RecordField>(
                #[trigger] records[i],
            ),
    decreases entries.len(),
{
    if entries.len() > 0 {
        let init = entries.drop_last();
        records_follow_entries(init);
        if records_of(entries) is Ok {
            assert forall|i: int| 0 <= i < entries.len() implies record_of(
                #[trigger] entries[i],
            ) is Ok by {
                if i < init.len() {
                    assert(init[i] == entries[i]);
                }
            }
        }
        if forall|i: int| 0 <= i < entries.len() ==> record_of(#[trigger] entries[i]) is Ok {
            assert forall|i: int| 0 <= i < init.len() implies record_of(#[trigger] init[i]) is Ok by {
                assert(init[i] == entries[i]);
            }
            assert(record_of(entries.last()) is Ok);
        }
        if let Ok(records) = records_of(entries) {
            assert forall|i: int| 0 <= i < entries.len() implies record_of(entries[i]) == Ok::<
                _,
                RecordField,
            >(#[trigger] records[i]) by {
                if i < init.len() {
                    assert(init[i] == entries[i]);
                }
            }
        }
    }
}

/// Parses the text of a lock document.
pub fn parse_toml(text: &str) -> (parsed: Result<toml::Value, PrepopError>)
    ensures
        match parsed {
            Ok(value) => toml_parse(text@) == Some(value),
            Err(error) => toml_parse(text@) is None && error matches PrepopError::FormatError(
                LockIssue::Syntax(_),
            ),
        },
{
    match parse_document(text) {
        Ok(value) => Ok(value),
        Err(error) => Err(
            PrepopError::FormatError(LockIssue::Syntax(parse_error_message(&error))),
        ),
    }
}

} // verus!
