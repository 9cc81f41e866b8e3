//! Validation of the raw configuration document into the typed service
//! table.
//!
//! The unverified shell reads and tokenizes the configuration file and hands
//! the result over as a [`RawValue`] tree; everything from there on — the
//! schema, the checks, and the exact error reported for the first violation
//! — is decided and proved here. The expected shape is a top-level table of
//! named entries, each a table with a string `name`, a string `type`, an
//! integer `port` (`0` means auto-assign) and an optional string-to-string
//! `text` table.

use vstd::prelude::*;

use crate::service::{ServiceEntry, ServiceEntryView, ServiceSpec, ServiceSpecView, ServiceTable};

verus! {

/// One raw configuration value, as read from the file before validation.
/// Anything the schema has no use for (a float, a boolean, an array) arrives
/// as `Other` and is rejected by validation wherever it stands.
#[derive(Debug, PartialEq, Eq)]
pub enum RawValue {
    Str(String),
    Int(i64),
    Table(Vec<(String, RawValue)>),
    Other,
}

/// The kind of value a field was expected to hold.
#[derive(Clone, Copy, PartialEq, Eq, Structural, Debug)]
pub enum FieldKind {
    Str,
    Int,
    Table,
}

/// Why the configuration document was rejected. Any of these aborts startup
/// before a single worker is spawned.
#[derive(Debug, PartialEq, Eq)]
pub enum ConfigError {
    /// The document's top level is not a table of entries.
    RootNotTable,
    /// Two entries share a key.
    DuplicateService { key: String },
    /// An entry's value is not a table of fields.
    ServiceNotTable { key: String },
    /// A required field of an entry is absent.
    MissingField { key: String, field: String },
    /// A field holds a value of the wrong kind.
    WrongType { key: String, field: String, expected: FieldKind },
    /// The `port` field is an integer outside `0..=65535`.
    PortOutOfRange { key: String, value: i64 },
    /// Two attributes of an entry's `text` table share a key.
    DuplicateAttribute { key: String, attribute: String },
}

/// Mathematical model of a rejection, over character sequences.
#[verifier::ext_equal]
pub ghost enum ConfigErrorView {
    RootNotTable,
    DuplicateService { key: Seq<char> },
    ServiceNotTable { key: Seq<char> },
    MissingField { key: Seq<char>, field: Seq<char> },
    WrongType { key: Seq<char>, field: Seq<char>, expected: FieldKind },
    PortOutOfRange { key: Seq<char>, value: i64 },
    DuplicateAttribute { key: Seq<char>, attribute: Seq<char> },
}

impl View for ConfigError {
    type V = ConfigErrorView;

    open spec fn view(&self) -> ConfigErrorView {
        match self {
            ConfigError::RootNotTable => ConfigErrorView::RootNotTable,
            ConfigError::DuplicateService { key } => ConfigErrorView::DuplicateService {
                key: key@,
            },
            ConfigError::ServiceNotTable { key } => ConfigErrorView::ServiceNotTable { key: key@ },
            ConfigError::MissingField { key, field } => ConfigErrorView::MissingField {
                key: key@,
                field: field@,
            },
            ConfigError::WrongType { key, field, expected } => ConfigErrorView::WrongType {
                key: key@,
                field: field@,
                expected: *expected,
            },
            ConfigError::PortOutOfRange { key, value } => ConfigErrorView::PortOutOfRange {
                key: key@,
                value: *value,
            },
            ConfigError::DuplicateAttribute { key, attribute } => (
            ConfigErrorView::DuplicateAttribute { key: key@, attribute: attribute@ }),
        }
    }
}

/// The first value under a field name, if any; later occurrences of the
/// same name are shadowed.
pub open spec fn lookup(fields: Seq<(String, RawValue)>, name: Seq<char>) -> Option<RawValue>
    decreases fields.len(),
{
    if fields.len() == 0 {
        None
    } else if fields[0].0@ == name {
        Some(fields[0].1)
    } else {
        lookup(fields.drop_first(), name)
    }
}

/// The first violation in an entry's `text` table at or after attribute
/// `i`, scanning in order: a key already used by an earlier attribute, or a
/// value that is not a string.
pub open spec fn text_check_from(
    key: Seq<char>,
    attrs: Seq<(String, RawValue)>,
    i: nat,
) -> Option<ConfigErrorView>
    decreases attrs.len() - i,
{
    if i >= attrs.len() {
        None
    } else if exists|j: int| 0 <= j < i && attrs[j].0@ == attrs[i as int].0@ {
        Some(ConfigErrorView::DuplicateAttribute { key, attribute: attrs[i as int].0@ })
    } else if !(attrs[i as int].1 matches RawValue::Str(_)) {
        Some(ConfigErrorView::WrongType {
            key,
            field: attrs[i as int].0@,
            expected: FieldKind::Str,
        })
    } else {
        text_check_from(key, attrs, i + 1)
    }
}

/// The first violation in one entry's fields, checking `name`, `type`,
/// `port` and `text` in that order.
pub open spec fn entry_check(key: Seq<char>, fields: Seq<(String, RawValue)>) -> Option<
    ConfigErrorView,
> {
    if lookup(fields, "name"@) is None {
        Some(ConfigErrorView::MissingField { key, field: "name"@ })
    } else if !(lookup(fields, "name"@) matches Some(RawValue::Str(_))) {
        Some(ConfigErrorView::WrongType { key, field: "name"@, expected: FieldKind::Str })
    } else if lookup(fields, "type"@) is None {
        Some(ConfigErrorView::MissingField { key, field: "type"@ })
    } else if !(lookup(fields, "type"@) matches Some(RawValue::Str(_))) {
        Some(ConfigErrorView::WrongType { key, field: "type"@, expected: FieldKind::Str })
    } else if lookup(fields, "port"@) is None {
        Some(ConfigErrorView::MissingField { key, field: "port"@ })
    } else if !(lookup(fields, "port"@) matches Some(RawValue::Int(_))) {
        Some(ConfigErrorView::WrongType { key, field: "port"@, expected: FieldKind::Int })
    } else if lookup(fields, "port"@) matches Some(RawValue::Int(p)) && !(0 <= p <= 65535) {
        Some(ConfigErrorView::PortOutOfRange {
            key,
            value: lookup(fields, "port"@)->Some_0->Int_0,
        })
    } else {
        match lookup(fields, "text"@) {
            Option::None => None,
            Option::Some(RawValue::Table(t)) => text_check_from(key, t@, 0),
            Option::Some(_) => Some(ConfigErrorView::WrongType {
                key,
                field: "text"@,
                expected: FieldKind::Table,
            }),
        }
    }
}

/// The first violation among the entries at or after entry `i`, scanning in
/// order: a key already used by an earlier entry, an entry that is not a
/// table, or the entry's own first violation.
pub open spec fn entries_check(entries: Seq<(String, RawValue)>, i: nat) -> Option<ConfigErrorView>
    decreases entries.len() - i,
{
    if i >= entries.len() {
        None
    } else if exists|j: int| 0 <= j < i && entries[j].0@ == entries[i as int].0@ {
        Some(ConfigErrorView::DuplicateService { key: entries[i as int].0@ })
    } else {
        match entries[i as int].1 {
            RawValue::Table(fields) => match entry_check(entries[i as int].0@, fields@) {
                Some(e) => Some(e),
                None => entries_check(entries, i + 1),
            },
            _ => Some(ConfigErrorView::ServiceNotTable { key: entries[i as int].0@ }),
        }
    }
}

/// The first violation in the whole document, if any.
pub open spec fn config_check(root: RawValue) -> Option<ConfigErrorView> {
    match root {
        RawValue::Table(entries) => entries_check(entries@, 0),
        _ => Some(ConfigErrorView::RootNotTable),
    }
}

/// A validated `text` table: one attribute per raw attribute, in order,
/// each carrying the raw key and its string value.
pub open spec fn text_matches(
    attrs: Seq<(String, RawValue)>,
    text: Seq<(Seq<char>, Seq<char>)>,
) -> bool {
    &&& text.len() == attrs.len()
    &&& forall|i: int|
        0 <= i < attrs.len() ==> ((#[trigger] attrs[i]).1 matches RawValue::Str(v) && text[i] == (
        attrs[i].0@,
        v@,
        ))
}

/// A validated entry: each typed field holds exactly the value found under
/// its name in the raw fields.
pub open spec fn svc_matches(fields: Seq<(String, RawValue)>, svc: ServiceSpecView) -> bool {
    &&& lookup(fields, "name"@) matches Some(RawValue::Str(s)) && s@ == svc.name
    &&& lookup(fields, "type"@) matches Some(RawValue::Str(s)) && s@ == svc.service_type
    &&& lookup(fields, "port"@) matches Some(RawValue::Int(p)) && svc.port == p
    &&& match lookup(fields, "text"@) {
        Option::None => svc.text.len() == 0,
        Option::Some(RawValue::Table(t)) => text_matches(t@, svc.text),
        Option::Some(_) => false,
    }
}

/// A validated table: one typed entry per raw entry, in document order,
/// each under the raw entry's key.
pub open spec fn table_matches(
    entries: Seq<(String, RawValue)>,
    table: Seq<ServiceEntryView>,
) -> bool {
    &&& table.len() == entries.len()
    &&& forall|i: int|
        0 <= i < entries.len() ==> ((#[trigger] table[i]).key == entries[i].0@ && (entries[i].1
            matches RawValue::Table(f) && svc_matches(f@, table[i].svc)))
}

/// Find the first value under a field name.
fn find_field<'a>(fields: &'a Vec<(String, RawValue)>, name: &String) -> (r: Option<
    &'a RawValue,
>)
    ensures
        match r {
            Some(v) => lookup(fields@, name@) == Some(*v),
            None => lookup(fields@, name@) is None,
        },
{
    let n = fields.len();
    let mut i: usize = 0;
    proof {
        assert(fields@.skip(0) =~= fields@);
    }
    while i < n
        invariant
            n == fields@.len(),
            i <= n,
            lookup(fields@, name@) == lookup(fields@.skip(i as int), name@),
        decreases n - i,
    {
        let pair = &fields[i];
        proof {
            assert(fields@.skip(i as int)[0] == fields@[i as int]);
            assert(fields@.skip(i as int).drop_first() =~= fields@.skip(i + 1));
        }
        if pair.0 == *name {
            return Some(&pair.1);
        }
        i += 1;
    }
    proof {
        assert(fields@.skip(n as int) =~= Seq::<(String, RawValue)>::empty());
    }
    None
}

/// Validate one entry's `text` table into an attribute list.
fn parse_text(key: &String, attrs: &Vec<(String, RawValue)>) -> (r: Result<
    Vec<(String, String)>,
    ConfigError,
>)
    ensures
        match r {
            Ok(text) => {
                &&& text_check_from(key@, attrs@, 0) is None
                &&& text_matches(attrs@, text.deep_view())
                &&& forall|i: int, j: int|
                    0 <= i < j < text@.len() ==> text@[i].0@ != text@[j].0@
            },
            Err(e) => text_check_from(key@, attrs@, 0) == Some(e@),
        },
{
    let n = attrs.len();
    let mut out: Vec<(String, String)> = Vec::new();
    let mut i: usize = 0;
    while i < n
        invariant
            n == attrs@.len(),
            i <= n,
            out@.len() == i,
            text_check_from(key@, attrs@, 0) == text_check_from(key@, attrs@, i as nat),
            text_matches(attrs@.take(i as int), out.deep_view()),
            forall|p: int, q: int| 0 <= p < q < i ==> out@[p].0@ != out@[q].0@,
        decreases n - i,
    {
        let pair = &attrs[i];
        let dup = contains_text_key(&out, &pair.0);
        proof {
            assert forall|j: int| 0 <= j < i implies (#[trigger] attrs@[j]).0@
                == out@[j].0@ by {
                assert(attrs@.take(i as int)[j] == attrs@[j]);
                assert(out.deep_view()[j] == out@[j].deep_view());
            }
            if dup {
                let j0 = choose|j: int| 0 <= j < out@.len() && out@[j].0@ == pair.0@;
                assert(attrs@[j0].0@ == attrs@[i as int].0@);
            } else {
                let at_i = attrs@[i as int].0@;
                assert forall|j: int| 0 <= j < i implies attrs@[j].0@ != at_i by {
                    assert(attrs@[j].0@ == out@[j].0@);
                }
            }
            assert(dup == exists|j: int| 0 <= j < i && attrs@[j].0@ == attrs@[i as int].0@);
        }
        if dup {
            return Err(ConfigError::DuplicateAttribute {
                key: key.clone(),
                attribute: pair.0.clone(),
            });
        }
        match &pair.1 {
            RawValue::Str(v) => {
                let ghost pre = out.deep_view();
                out.push((pair.0.clone(), v.clone()));
                proof {
                    assert forall|k: int| 0 <= k < i + 1 implies ((#[trigger] attrs@.take(
                        i + 1,
                    )[k]).1 matches RawValue::Str(w) && out.deep_view()[k] == (
                    attrs@.take(i + 1)[k].0@,
                    w@,
                    )) by {
                        assert(attrs@.take(i + 1)[k] == attrs@[k]);
                        assert(out.deep_view()[k] == out@[k].deep_view());
                        if k < i {
                            assert(attrs@.take(i as int)[k] == attrs@[k]);
                            assert(pre[k] == out@[k].deep_view());
                        }
                    }
                    assert(text_matches(attrs@.take(i + 1), out.deep_view()));
                    assert(text_check_from(key@, attrs@, i as nat) == text_check_from(
                        key@,
                        attrs@,
                        (i + 1) as nat,
                    ));
                }
            },
            _ => {
                return Err(ConfigError::WrongType {
                    key: key.clone(),
                    field: pair.0.clone(),
                    expected: FieldKind::Str,
                });
            },
        }
        i += 1;
    }
    proof {
        assert(attrs@.take(n as int) =~= attrs@);
    }
    Ok(out)
}

/// Whether an attribute list already holds a key.
fn contains_text_key(out: &Vec<(String, String)>, key: &String) -> (b: bool)
    ensures
        b == exists|j: int| 0 <= j < out@.len() && out@[j].0@ == key@,
{
    let n = out.len();
    let mut i: usize = 0;
    while i < n
        invariant
            n == out@.len(),
            i <= n,
            forall|j: int| 0 <= j < i ==> (#[trigger] out@[j]).0@ != key@,
        decreases n - i,
    {
        if out[i].0 == *key {
            return true;
        }
        i += 1;
    }
    false
}

/// Whether the table built so far already holds an entry key.
fn contains_entry_key(out: &Vec<ServiceEntry>, key: &String) -> (b: bool)
    ensures
        b == exists|j: int| 0 <= j < out@.len() && out@[j].key@ == key@,
{
    let n = out.len();
    let mut i: usize = 0;
    while i < n
        invariant
            n == out@.len(),
            i <= n,
            forall|j: int| 0 <= j < i ==> (#[trigger] out@[j]).key@ != key@,
        decreases n - i,
    {
        if out[i].key == *key {
            return true;
        }
        i += 1;
    }
    false
}

/// Validate one entry's fields into a typed service record.
fn parse_entry(key: &String, fields: &Vec<(String, RawValue)>) -> (r: Result<
    ServiceSpec,
    ConfigError,
>)
    ensures
        match r {
            Ok(svc) => {
                &&& entry_check(key@, fields@) is None
                &&& svc_matches(fields@, svc@)
                &&& svc.wf()
            },
            Err(e) => entry_check(key@, fields@) == Some(e@),
        },
{
    let name = match find_field(fields, &field_name()) {
        None => {
            return Err(ConfigError::MissingField { key: key.clone(), field: field_name() });
        },
        Some(RawValue::Str(s)) => s.clone(),
        Some(_) => {
            return Err(ConfigError::WrongType {
                key: key.clone(),
                field: field_name(),
                expected: FieldKind::Str,
            });
        },
    };
    let service_type = match find_field(fields, &field_type()) {
        None => {
            return Err(ConfigError::MissingField { key: key.clone(), field: field_type() });
        },
        Some(RawValue::Str(s)) => s.clone(),
        Some(_) => {
            return Err(ConfigError::WrongType {
                key: key.clone(),
                field: field_type(),
                expected: FieldKind::Str,
            });
        },
    };
    let port = match find_field(fields, &field_port()) {
        None => {
            return Err(ConfigError::MissingField { key: key.clone(), field: field_port() });
        },
        Some(RawValue::Int(p)) => {
            if *p < 0 || *p > 65535 {
                return Err(ConfigError::PortOutOfRange { key: key.clone(), value: *p });
            }
            *p as u16
        },
        Some(_) => {
            return Err(ConfigError::WrongType {
                key: key.clone(),
                field: field_port(),
                expected: FieldKind::Int,
            });
        },
    };
    let text = match find_field(fields, &field_text()) {
        None => Vec::new(),
        Some(RawValue::Table(t)) => match parse_text(key, t) {
            Ok(text) => text,
            Err(e) => {
                return Err(e);
            },
        },
        Some(_) => {
            return Err(ConfigError::WrongType {
                key: key.clone(),
                field: field_text(),
                expected: FieldKind::Table,
            });
        },
    };
    let svc = ServiceSpec { service_type, name, port, text };
    proof {
        assert forall|p: int, q: int| 0 <= p < q < svc@.text.len() implies svc@.text[p].0
            != svc@.text[q].0 by {
            assert(svc@.text[p] == svc.text@[p].deep_view());
            assert(svc@.text[q] == svc.text@[q].deep_view());
        }
    }
    Ok(svc)
}

/// The `name` field's name.
fn field_name() -> (s: String)
    ensures
        s@ == "name"@,
{
    "name".to_owned()
}

/// The `type` field's name.
fn field_type() -> (s: String)
    ensures
        s@ == "type"@,
{
    "type".to_owned()
}

/// The `port` field's name.
fn field_port() -> (s: String)
    ensures
        s@ == "port"@,
{
    "port".to_owned()
}

/// The `text` field's name.
fn field_text() -> (s: String)
    ensures
        s@ == "text"@,
{
    "text".to_owned()
}

/// Validate a raw configuration document into the typed service table.
///
/// Succeeds exactly when the document is a table of entries with pairwise
/// distinct keys, each entry a table holding a string `name`, a string
/// `type`, an integer `port` in `0..=65535`, and, if present, a `text`
/// table of string attributes with pairwise distinct keys. The returned
/// table holds one entry per raw entry, in document order, with exactly the
/// raw values; a rejected document is reported with its first violation, in
/// scan order. Nothing is ever spawned from a rejected document: startup
/// aborts before any worker exists.
pub fn parse_config(root: &RawValue) -> (r: Result<ServiceTable, ConfigError>)
    ensures
        match r {
            Ok(table) => {
                &&& config_check(*root) is None
                &&& table.wf()
                &&& *root matches RawValue::Table(entries) && table_matches(entries@, table@)
            },
            Err(e) => config_check(*root) == Some(e@),
        },
{
    let entries = match root {
        RawValue::Table(entries) => entries,
        _ => {
            return Err(ConfigError::RootNotTable);
        },
    };
    let n = entries.len();
    let mut out: Vec<ServiceEntry> = Vec::new();
    let mut i: usize = 0;
    while i < n
        invariant
            n == entries@.len(),
            i <= n,
            out@.len() == i,
            *root matches RawValue::Table(e) && e@ == entries@,
            entries_check(entries@, 0) == entries_check(entries@, i as nat),
            table_matches(entries@.take(i as int), out.deep_view()),
            forall|p: int, q: int| 0 <= p < q < i ==> out@[p].key@ != out@[q].key@,
            forall|p: int| 0 <= p < i ==> (#[trigger] out@[p]).svc.wf(),
        decreases n - i,
    {
        let pair = &entries[i];
        let dup = contains_entry_key(&out, &pair.0);
        proof {
            assert forall|j: int| 0 <= j < i implies (#[trigger] entries@[j]).0@
                == out@[j].key@ by {
                assert(entries@.take(i as int)[j] == entries@[j]);
                assert(out.deep_view()[j] == out@[j].deep_view());
            }
            if dup {
                let j0 = choose|j: int| 0 <= j < out@.len() && out@[j].key@ == pair.0@;
                assert(entries@[j0].0@ == entries@[i as int].0@);
            } else {
                let at_i = entries@[i as int].0@;
                assert forall|j: int| 0 <= j < i implies entries@[j].0@ != at_i by {
                    assert(entries@[j].0@ == out@[j].key@);
                }
            }
            assert(dup == exists|j: int| 0 <= j < i && entries@[j].0@ == entries@[i as int].0@);
        }
        if dup {
            return Err(ConfigError::DuplicateService { key: pair.0.clone() });
        }
        match &pair.1 {
            RawValue::Table(fields) => match parse_entry(&pair.0, fields) {
                Ok(svc) => {
                    let ghost pre = out.deep_view();
                    out.push(ServiceEntry { key: pair.0.clone(), svc });
                    proof {
                        assert forall|k: int| 0 <= k < i + 1 implies ((#[trigger] out.deep_view()[k]).key
                            == entries@.take(i + 1)[k].0@ && (entries@.take(i + 1)[k].1
                            matches RawValue::Table(f) && svc_matches(
                            f@,
                            out.deep_view()[k].svc,
                        ))) by {
                            assert(entries@.take(i + 1)[k] == entries@[k]);
                            assert(out.deep_view()[k] == out@[k].deep_view());
                            if k < i {
                                assert(entries@.take(i as int)[k] == entries@[k]);
                                assert(pre[k] == out@[k].deep_view());
                            }
                        }
                        assert(table_matches(entries@.take(i + 1), out.deep_view()));
                        assert(entries_check(entries@, i as nat) == entries_check(
                            entries@,
                            (i + 1) as nat,
                        ));
                    }
                },
                Err(e) => {
                    return Err(e);
                },
            },
            _ => {
                return Err(ConfigError::ServiceNotTable { key: pair.0.clone() });
            },
        }
        i += 1;
    }
    proof {
        assert(entries@.take(n as int) =~= entries@);
    }
    let table = ServiceTable { entries: out };
    proof {
        assert forall|p: int, q: int| 0 <= p < q < table@.len() implies table@[p].key
            != table@[q].key by {
            assert(table@[p] == table.entries@[p].deep_view());
            assert(table@[q] == table.entries@[q].deep_view());
        }
    }
    Ok(table)
}

} // verus!
