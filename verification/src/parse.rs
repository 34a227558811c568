//! Conversion of one JSON catalog document into validated profile
//! records: localization fallback, default-value substitution, and the
//! shape rules whose violation aborts the whole parse.

use vstd::prelude::*;
use crate::json::{
    JsonValue, bool_or_false, get, int_or_zero, json_doc_of, lookup_field, lookup_opt,
    parse_json_text, spec_bool_or_false, spec_int_or_zero, spec_str_or_empty, str_or_empty,
};
use crate::profile::{Profile, ProfileModel, models, opt_str_seq, opt_str_seqs, str_seqs};

verus! {

/// Why a parse failed: the text was not a JSON document at all, or a
/// mandatory-shape field of some record held a value of the wrong shape.
#[derive(Debug, PartialEq, Eq, Clone, Copy)]
pub enum ParseError {
    InvalidDocument,
    ShapeViolation,
}

/// The object key under which a description localized for `locale`
/// is looked up.
pub open spec fn i18n_key(locale: Seq<char>) -> Seq<char> {
    "i18n_desc["@ + locale + "]"@
}

/// Relies on `format!` of std: the result is the first literal, the
/// argument's characters, then the closing bracket.
#[verifier::external_body]
fn locale_desc_key(locale: &str) -> (r: String)
    ensures
        r@ == i18n_key(locale@),
{
    format!("i18n_desc[{}]", locale)
}

/// Each element of `items` read as a string, defaulting to empty.
pub open spec fn spec_strings_of(items: Seq<JsonValue>) -> Seq<Seq<char>> {
    items.map_values(|it: JsonValue| spec_str_or_empty(it))
}

/// Reads every element of `items` as a string, defaulting to empty.
#[verifier::loop_isolation(false)]
pub fn strings_of(items: &Vec<JsonValue>) -> (r: Vec<String>)
    ensures
        str_seqs(r@) == spec_strings_of(items@),
{
    let n = items.len();
    let mut r: Vec<String> = Vec::new();
    let mut i: usize = 0;
    while i < n
        invariant
            i <= n,
            r@.len() == i,
            forall|j: int| 0 <= j < i ==> r@[j]@ == spec_str_or_empty(items@[j]),
        decreases n - i,
    {
        r.push(str_or_empty(&items[i]));
        i = i + 1;
    }
    proof {
        assert(str_seqs(r@) =~= spec_strings_of(items@));
    }
    r
}

/// An id-list field: an absent field means empty, an array is read
/// element-wise, and any present non-array value (an explicit `null`
/// included) is a violation (`None`).
pub open spec fn spec_id_list(f: Option<JsonValue>) -> Option<Seq<Seq<char>>> {
    match f {
        None => Some(Seq::<Seq<char>>::empty()),
        Some(JsonValue::Array(items)) => Some(spec_strings_of(items@)),
        Some(_) => None,
    }
}

/// Reads one id-list field of `rec`.
fn id_list_field(rec: &JsonValue, key: &String) -> (r: Result<Vec<String>, ParseError>)
    ensures
        match spec_id_list(lookup_opt(*rec, key@)) {
            Some(l) => r matches Ok(v) && str_seqs(v@) == l,
            None => r matches Err(e) && e == ParseError::ShapeViolation,
        },
{
    proof {
        assert(str_seqs(Seq::<String>::empty()) =~= Seq::<Seq<char>>::empty());
    }
    match get(rec, key) {
        None => Ok(Vec::new()),
        Some(f) => match f {
            JsonValue::Array(items) => Ok(strings_of(items)),
            _ => Err(ParseError::ShapeViolation),
        },
    }
}

/// The packages field: a string value or an absent field means no
/// packages, an array means exactly its elements, and any other
/// present value (an explicit `null` included) is a violation.
pub open spec fn spec_packages(f: Option<JsonValue>) -> Option<Option<Seq<Seq<char>>>> {
    match f {
        None => Some(None),
        Some(JsonValue::Str(_)) => Some(None),
        Some(JsonValue::Array(items)) => Some(Some(spec_strings_of(items@))),
        Some(_) => None,
    }
}

/// Reads the packages field of `rec`.
fn packages_field(rec: &JsonValue, key: &String) -> (r: Result<
    Option<Vec<String>>,
    ParseError,
>)
    ensures
        match spec_packages(lookup_opt(*rec, key@)) {
            Some(p) => r matches Ok(o) && opt_str_seqs(o) == p,
            None => r matches Err(e) && e == ParseError::ShapeViolation,
        },
{
    match get(rec, key) {
        None => Ok(None),
        Some(f) => match f {
            JsonValue::Str(_) => Ok(None),
            JsonValue::Array(items) => Ok(Some(strings_of(items))),
            _ => Err(ParseError::ShapeViolation),
        },
    }
}

/// A script field: the value read as a string (defaulting to empty);
/// the sentinel literal means no script, anything else is kept.
pub open spec fn spec_script(v: JsonValue) -> Option<Seq<char>> {
    if spec_str_or_empty(v) == "Option::is_none"@ {
        None
    } else {
        Some(spec_str_or_empty(v))
    }
}

/// Reads one script field of `rec`.
fn script_field(rec: &JsonValue, key: &String) -> (r: Option<String>)
    ensures
        opt_str_seq(r) == spec_script(lookup_field(*rec, key@)),
{
    let s = match get(rec, key) {
        Some(f) => str_or_empty(f),
        None => String::new(),
    };
    let sentinel: String = "Option::is_none".to_owned();
    if s == sentinel {
        None
    } else {
        Some(s)
    }
}

/// The description: the locale-qualified value where it is a non-empty
/// string, else the unqualified value read as a string.
pub open spec fn spec_description(rec: JsonValue, lkey: Seq<char>) -> Seq<char> {
    match lookup_field(rec, lkey) {
        JsonValue::Str(s) => if s@.len() > 0 {
            s@
        } else {
            spec_str_or_empty(lookup_field(rec, "i18n_desc"@))
        },
        _ => spec_str_or_empty(lookup_field(rec, "i18n_desc"@)),
    }
}

/// Reads the description of `rec`, preferring the field under
/// `locale_key` when it holds a non-empty string.
fn description_field(rec: &JsonValue, locale_key: &String) -> (r: String)
    ensures
        r@ == spec_description(*rec, locale_key@),
{
    match get(rec, locale_key) {
        Some(f) => match f {
            JsonValue::Str(s) => {
                if !s.as_str().is_empty() {
                    s.clone()
                } else {
                    str_field(rec, &("i18n_desc".to_owned()))
                }
            },
            _ => str_field(rec, &("i18n_desc".to_owned())),
        },
        None => str_field(rec, &("i18n_desc".to_owned())),
    }
}

/// The icon: a string value is kept, anything else becomes the
/// generic icon identifier.
pub open spec fn spec_icon(v: JsonValue) -> Seq<char> {
    match v {
        JsonValue::Str(s) => s@,
        _ => "package-x-generic"@,
    }
}

/// Reads the icon field of `rec`.
fn icon_field(rec: &JsonValue, key: &String) -> (r: String)
    ensures
        r@ == spec_icon(lookup_field(*rec, key@)),
{
    match get(rec, key) {
        Some(f) => match f {
            JsonValue::Str(s) => s.clone(),
            _ => "package-x-generic".to_owned(),
        },
        None => "package-x-generic".to_owned(),
    }
}

/// Reads one field of `rec` as a string, defaulting to empty.
fn str_field(rec: &JsonValue, key: &String) -> (r: String)
    ensures
        r@ == spec_str_or_empty(lookup_field(*rec, key@)),
{
    match get(rec, key) {
        Some(f) => str_or_empty(f),
        None => String::new(),
    }
}

/// Reads one field of `rec` as a boolean, defaulting to `false`.
fn bool_field(rec: &JsonValue, key: &String) -> (r: bool)
    ensures
        r == spec_bool_or_false(lookup_field(*rec, key@)),
{
    match get(rec, key) {
        Some(f) => bool_or_false(f),
        None => false,
    }
}

/// Reads one field of `rec` as an integer, defaulting to `0`.
fn int_field(rec: &JsonValue, key: &String) -> (r: i64)
    ensures
        r == spec_int_or_zero(lookup_field(*rec, key@)),
{
    match get(rec, key) {
        Some(f) => int_or_zero(f),
        None => 0,
    }
}

/// Every mandatory-shape field of `rec` has an acceptable shape.
/// Only these seven fields can make a record fail; their rules do not
/// look at the locale.
pub open spec fn record_shape_ok(rec: JsonValue) -> bool {
    &&& spec_id_list(lookup_opt(rec, "class_ids"@)) is Some
    &&& spec_id_list(lookup_opt(rec, "vendor_ids"@)) is Some
    &&& spec_id_list(lookup_opt(rec, "device_ids"@)) is Some
    &&& spec_id_list(lookup_opt(rec, "blacklisted_class_ids"@)) is Some
    &&& spec_id_list(lookup_opt(rec, "blacklisted_vendor_ids"@)) is Some
    &&& spec_id_list(lookup_opt(rec, "blacklisted_device_ids"@)) is Some
    &&& spec_packages(lookup_opt(rec, "packages"@)) is Some
}

/// One record converted to its model under the description key `lkey`;
/// `None` exactly where a mandatory-shape field is violated.
pub open spec fn spec_record(rec: JsonValue, lkey: Seq<char>) -> Option<ProfileModel> {
    if record_shape_ok(rec) {
        Some(
            (ProfileModel {
                codename: spec_str_or_empty(lookup_field(rec, "codename"@)),
                i18n_desc: spec_description(rec, lkey),
                icon_name: spec_icon(lookup_field(rec, "icon_name"@)),
                class_ids: spec_id_list(lookup_opt(rec, "class_ids"@)).unwrap(),
                vendor_ids: spec_id_list(lookup_opt(rec, "vendor_ids"@)).unwrap(),
                device_ids: spec_id_list(lookup_opt(rec, "device_ids"@)).unwrap(),
                blacklisted_class_ids: spec_id_list(
                    lookup_opt(rec, "blacklisted_class_ids"@),
                ).unwrap(),
                blacklisted_vendor_ids: spec_id_list(
                    lookup_opt(rec, "blacklisted_vendor_ids"@),
                ).unwrap(),
                blacklisted_device_ids: spec_id_list(
                    lookup_opt(rec, "blacklisted_device_ids"@),
                ).unwrap(),
                packages: spec_packages(lookup_opt(rec, "packages"@)).unwrap(),
                install_script: spec_script(lookup_field(rec, "install_script"@)),
                remove_script: spec_script(lookup_field(rec, "remove_script"@)),
                experimental: spec_bool_or_false(lookup_field(rec, "experimental"@)),
                removable: spec_bool_or_false(lookup_field(rec, "removable"@)),
                priority: spec_int_or_zero(lookup_field(rec, "priority"@)),
            }),
        )
    } else {
        None
    }
}

/// Converts one record of the document under the description key
/// `locale_key`, or reports the shape violation that forbids it.
pub fn parse_record(rec: &JsonValue, locale_key: &String) -> (r: Result<Profile, ParseError>)
    ensures
        match spec_record(*rec, locale_key@) {
            Some(m) => r matches Ok(p) && p@ == m,
            None => r matches Err(e) && e == ParseError::ShapeViolation,
        },
{
    let codename = str_field(rec, &("codename".to_owned()));
    let i18n_desc = description_field(rec, locale_key);
    let icon_name = icon_field(rec, &("icon_name".to_owned()));
    let class_ids = match id_list_field(rec, &("class_ids".to_owned())) {
        Ok(v) => v,
        Err(_) => {
            return Err(ParseError::ShapeViolation);
        },
    };
    let vendor_ids = match id_list_field(rec, &("vendor_ids".to_owned())) {
        Ok(v) => v,
        Err(_) => {
            return Err(ParseError::ShapeViolation);
        },
    };
    let device_ids = match id_list_field(rec, &("device_ids".to_owned())) {
        Ok(v) => v,
        Err(_) => {
            return Err(ParseError::ShapeViolation);
        },
    };
    let blacklisted_class_ids = match id_list_field(rec, &("blacklisted_class_ids".to_owned())) {
        Ok(v) => v,
        Err(_) => {
            return Err(ParseError::ShapeViolation);
        },
    };
    let blacklisted_vendor_ids = match id_list_field(rec, &("blacklisted_vendor_ids".to_owned())) {
        Ok(v) => v,
        Err(_) => {
            return Err(ParseError::ShapeViolation);
        },
    };
    let blacklisted_device_ids = match id_list_field(rec, &("blacklisted_device_ids".to_owned())) {
        Ok(v) => v,
        Err(_) => {
            return Err(ParseError::ShapeViolation);
        },
    };
    let packages = match packages_field(rec, &("packages".to_owned())) {
        Ok(o) => o,
        Err(_) => {
            return Err(ParseError::ShapeViolation);
        },
    };
    let install_script = script_field(rec, &("install_script".to_owned()));
    let remove_script = script_field(rec, &("remove_script".to_owned()));
    let experimental = bool_field(rec, &("experimental".to_owned()));
    let removable = bool_field(rec, &("removable".to_owned()));
    let priority = int_field(rec, &("priority".to_owned()));
    Ok(
        Profile {
            codename,
            i18n_desc,
            icon_name,
            class_ids,
            vendor_ids,
            device_ids,
            blacklisted_class_ids,
            blacklisted_vendor_ids,
            blacklisted_device_ids,
            packages,
            install_script,
            remove_script,
            experimental,
            removable,
            priority,
        },
    )
}

/// The records of `items` in document order, or `None` as soon as any
/// record is violated.
pub open spec fn spec_records(items: Seq<JsonValue>, lkey: Seq<char>) -> Option<
    Seq<ProfileModel>,
>
    decreases items.len(),
{
    if items.len() == 0 {
        Some(Seq::<ProfileModel>::empty())
    } else {
        match spec_records(items.drop_last(), lkey) {
            Some(ps) => match spec_record(items.last(), lkey) {
                Some(p) => Some(ps.push(p)),
                None => None,
            },
            None => None,
        }
    }
}

/// A violated record anywhere makes the whole list fail.
proof fn lemma_records_none(items: Seq<JsonValue>, lkey: Seq<char>, j: int)
    requires
        0 <= j < items.len(),
        spec_record(items[j], lkey) is None,
    ensures
        spec_records(items, lkey) is None,
    decreases items.len(),
{
    if j < items.len() - 1 {
        assert(items.drop_last()[j] == items[j]);
        lemma_records_none(items.drop_last(), lkey, j);
    }
}

/// Converts every record of `items` under the description key
/// `locale_key`, all-or-nothing.
#[verifier::loop_isolation(false)]
pub fn parse_records(items: &Vec<JsonValue>, locale_key: &String) -> (r: Result<
    Vec<Profile>,
    ParseError,
>)
    ensures
        match spec_records(items@, locale_key@) {
            Some(ps) => r matches Ok(v) && models(v@) == ps,
            None => r matches Err(e) && e == ParseError::ShapeViolation,
        },
{
    let n = items.len();
    let mut out: Vec<Profile> = Vec::new();
    let mut i: usize = 0;
    proof {
        assert(items@.take(0) =~= Seq::<JsonValue>::empty());
        assert(models(out@) =~= Seq::<ProfileModel>::empty());
    }
    while i < n
        invariant
            i <= n,
            spec_records(items@.take(i as int), locale_key@) == Some(models(out@)),
        decreases n - i,
    {
        let ghost prefix = models(out@);
        match parse_record(&items[i], locale_key) {
            Ok(p) => {
                out.push(p);
                proof {
                    assert(models(out@) =~= prefix.push(p@));
                    assert(items@.take(i as int + 1).drop_last() =~= items@.take(i as int));
                    assert(items@.take(i as int + 1).last() == items@[i as int]);
                }
            },
            Err(_) => {
                proof {
                    lemma_records_none(items@, locale_key@, i as int);
                }
                return Err(ParseError::ShapeViolation);
            },
        }
        i = i + 1;
    }
    proof {
        assert(items@.take(n as int) =~= items@);
    }
    Ok(out)
}

/// The whole document: a top-level `profiles` array is read record by
/// record; any other document shape means an empty catalog, not an
/// error.
pub open spec fn spec_parse_doc(doc: JsonValue, lkey: Seq<char>) -> Option<Seq<ProfileModel>> {
    match lookup_field(doc, "profiles"@) {
        JsonValue::Array(items) => spec_records(items@, lkey),
        _ => Some(Seq::<ProfileModel>::empty()),
    }
}

/// Converts one parsed document into profile records for `locale`.
pub fn parse_document(doc: &JsonValue, locale: &str) -> (r: Result<Vec<Profile>, ParseError>)
    ensures
        match spec_parse_doc(*doc, i18n_key(locale@)) {
            Some(ps) => r matches Ok(v) && models(v@) == ps,
            None => r matches Err(e) && e == ParseError::ShapeViolation,
        },
{
    let locale_key = locale_desc_key(locale);
    proof {
        assert(models(Seq::<Profile>::empty()) =~= Seq::<ProfileModel>::empty());
    }
    match get(doc, &("profiles".to_owned())) {
        Some(f) => match f {
            JsonValue::Array(items) => parse_records(items, &locale_key),
            _ => Ok(Vec::new()),
        },
        None => Ok(Vec::new()),
    }
}

/// Parses raw catalog text into profile records for `locale`: invalid
/// JSON and shape violations fail, missing optional fields never do.
pub fn parse(text: &str, locale: &str) -> (r: Result<Vec<Profile>, ParseError>)
    ensures
        match json_doc_of(text@) {
            Some(doc) => match spec_parse_doc(doc, i18n_key(locale@)) {
                Some(ps) => r matches Ok(v) && models(v@) == ps,
                None => r matches Err(e) && e == ParseError::ShapeViolation,
            },
            None => r matches Err(e) && e == ParseError::InvalidDocument,
        },
{
    match parse_json_text(text) {
        Some(doc) => parse_document(&doc, locale),
        None => Err(ParseError::InvalidDocument),
    }
}

/// A record is converted exactly when its mandatory-shape fields are
/// acceptable: the locale, the description and every optional field
/// have no say in success.
pub proof fn lemma_parse_total_on_shapes(rec: JsonValue, lkey: Seq<char>)
    ensures
        spec_record(rec, lkey) is Some <==> record_shape_ok(rec),
{
}

/// A record list fails exactly where some record of it is violated.
proof fn lemma_records_none_iff(items: Seq<JsonValue>, lkey: Seq<char>)
    ensures
        spec_records(items, lkey) is None <==> exists|j: int|
            0 <= j < items.len() && !record_shape_ok(items[j]),
    decreases items.len(),
{
    if items.len() > 0 {
        lemma_records_none_iff(items.drop_last(), lkey);
        if spec_records(items, lkey) is None {
            if spec_records(items.drop_last(), lkey) is None {
                let j = choose|j: int|
                    0 <= j < items.drop_last().len() && !record_shape_ok(items.drop_last()[j]);
                assert(items.drop_last()[j] == items[j]);
                assert(0 <= j < items.len() && !record_shape_ok(items[j]));
            } else {
                assert(!record_shape_ok(items[items.len() - 1]));
            }
        }
        if exists|j: int| 0 <= j < items.len() && !record_shape_ok(items[j]) {
            let j = choose|j: int| 0 <= j < items.len() && !record_shape_ok(items[j]);
            if j < items.len() - 1 {
                assert(items.drop_last()[j] == items[j]);
                assert(spec_records(items.drop_last(), lkey) is None);
            } else {
                assert(spec_record(items.last(), lkey) is None);
            }
        }
    }
}

/// A document parse fails exactly where its `profiles` array holds a
/// record with a violated mandatory-shape field: the locale and every
/// optional field have no say, so a document without violations always
/// parses.
pub proof fn lemma_doc_fails_only_on_shape(doc: JsonValue, lkey: Seq<char>)
    ensures
        spec_parse_doc(doc, lkey) is None <==> (match lookup_field(doc, "profiles"@) {
            JsonValue::Array(items) => exists|j: int|
                0 <= j < items@.len() && !record_shape_ok(items@[j]),
            _ => false,
        }),
{
    match lookup_field(doc, "profiles"@) {
        JsonValue::Array(items) => lemma_records_none_iff(items@, lkey),
        _ => {},
    }
}

/// A locale-qualified description that is present and non-empty is
/// chosen over the unqualified one; where it is absent, empty, or not
/// a string, the unqualified description is chosen instead.
pub proof fn lemma_description_localization(rec: JsonValue, lkey: Seq<char>)
    ensures
        match lookup_field(rec, lkey) {
            JsonValue::Str(s) => spec_description(rec, lkey) == if s@.len() > 0 {
                s@
            } else {
                spec_str_or_empty(lookup_field(rec, "i18n_desc"@))
            },
            _ => spec_description(rec, lkey) == spec_str_or_empty(
                lookup_field(rec, "i18n_desc"@),
            ),
        },
{
}

/// A packages value that is a string means no packages, as does an
/// absent field; an array means exactly its elements, each read as a
/// string; anything else present violates the field's shape.
pub proof fn lemma_packages_optionality(f: Option<JsonValue>)
    ensures
        match f {
            None => spec_packages(f) == Some(None::<Seq<Seq<char>>>),
            Some(JsonValue::Str(_)) => spec_packages(f) == Some(None::<Seq<Seq<char>>>),
            Some(JsonValue::Array(items)) => spec_packages(f) == Some(
                Some(spec_strings_of(items@)),
            ),
            Some(_) => spec_packages(f) is None,
        },
{
}

/// A script value reading as exactly the sentinel literal means no
/// script; any other value, the empty string included, is kept.
pub proof fn lemma_script_sentinel(v: JsonValue)
    ensures
        spec_str_or_empty(v) == "Option::is_none"@ ==> spec_script(v) is None,
        spec_str_or_empty(v) != "Option::is_none"@ ==> spec_script(v) == Some(
            spec_str_or_empty(v),
        ),
{
}

} // verus!
