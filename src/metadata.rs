//! Firmware descriptor carried in an attribute response.
use vstd::prelude::*;
use vstd::utf8::encode_utf8;

verus! {

#[verifier::external_type_specification]
#[verifier::external_body]
pub struct ExJsonValue(serde_json::Value);

#[verifier::external_type_specification]
#[verifier::external_body]
pub struct ExBoundedString<const N: usize>(heapless::String<N>);

/// The document that a JSON text parses to, if it is valid JSON.
pub uninterp spec fn json_parse(text: Seq<char>) -> Option<serde_json::Value>;

/// The member `key` of a JSON value, if it is an object that has one.
pub uninterp spec fn json_member(v: serde_json::Value, key: Seq<char>) -> Option<serde_json::Value>;

/// The text of a JSON value, if it is a string.
pub uninterp spec fn json_str(v: serde_json::Value) -> Option<Seq<char>>;

/// The number of a JSON value, if it is a non-negative integer that fits in 64 bits.
pub uninterp spec fn json_u64(v: serde_json::Value) -> Option<u64>;

/// The characters held by a title buffer.
pub uninterp spec fn title_text(s: heapless::String<32>) -> Seq<char>;

/// The characters held by a version buffer.
pub uninterp spec fn version_text(s: heapless::String<16>) -> Seq<char>;

/// Relies on serde_json::from_str into a `Value`: the document depends on the
/// text alone; any parse error gives no document.
#[verifier::external_body]
fn parse_json(text: &str) -> (r: Option<serde_json::Value>)
    ensures
        r == json_parse(text@),
{
    serde_json::from_str::<serde_json::Value>(text).ok()
}

/// Relies on serde_json::Value::get with a string key.
#[verifier::external_body]
fn member<'a>(v: &'a serde_json::Value, key: &str) -> (r: Option<&'a serde_json::Value>)
    ensures
        r.is_some() == json_member(*v, key@).is_some(),
        r.is_some() ==> json_member(*v, key@) == Some(*r.unwrap()),
{
    v.get(key)
}

/// Relies on serde_json::Value::as_str.
#[verifier::external_body]
fn value_str(v: &serde_json::Value) -> (r: Option<&str>)
    ensures
        r.is_some() == json_str(*v).is_some(),
        r.is_some() ==> json_str(*v) == Some(r.unwrap()@),
{
    v.as_str()
}

/// Relies on serde_json::Value::as_u64.
#[verifier::external_body]
fn value_u64(v: &serde_json::Value) -> (r: Option<u64>)
    ensures
        r == json_u64(*v),
{
    v.as_u64()
}

/// Relies on heapless::String::<32>::try_from, which copies the text when its
/// UTF-8 encoding fits in 32 bytes and fails otherwise.
#[verifier::external_body]
fn title_from(t: &str) -> (r: Option<heapless::String<32>>)
    ensures
        r.is_some() == (encode_utf8(t@).len() <= 32),
        r.is_some() ==> title_text(r.unwrap()) == t@,
{
    heapless::String::<32>::try_from(t).ok()
}

/// Relies on heapless::String::<16>::try_from, which copies the text when its
/// UTF-8 encoding fits in 16 bytes and fails otherwise.
#[verifier::external_body]
fn version_from(t: &str) -> (r: Option<heapless::String<16>>)
    ensures
        r.is_some() == (encode_utf8(t@).len() <= 16),
        r.is_some() ==> version_text(r.unwrap()) == t@,
{
    heapless::String::<16>::try_from(t).ok()
}

/// Relies on heapless::String::<32>::as_str, which shows the held text.
#[verifier::external_body]
fn title_str(s: &heapless::String<32>) -> (r: &str)
    ensures
        r@ == title_text(*s),
{
    s.as_str()
}

/// Relies on heapless::String::<16>::as_str, which shows the held text.
#[verifier::external_body]
fn version_str(s: &heapless::String<16>) -> (r: &str)
    ensures
        r@ == version_text(*s),
{
    s.as_str()
}

/// The mathematical model of a firmware descriptor.
pub struct MetadataModel {
    pub title: Seq<char>,
    pub version: Seq<char>,
    pub total_size: u64,
    pub checksum: Option<Seq<char>>,
    pub checksum_algorithm: Option<Seq<char>>,
}

/// Bytes a title may take.
pub const TITLE_CAPACITY: usize = 32;

/// Bytes a version may take.
pub const VERSION_CAPACITY: usize = 16;

/// The text of member `key`, if there is one and it is a string.
pub open spec fn member_text(obj: serde_json::Value, key: Seq<char>) -> Option<Seq<char>> {
    match json_member(obj, key) {
        Some(v) => json_str(v),
        None => None,
    }
}

/// The number of member `key`, if there is one and it is a 64-bit count.
pub open spec fn member_u64(obj: serde_json::Value, key: Seq<char>) -> Option<u64> {
    match json_member(obj, key) {
        Some(v) => json_u64(v),
        None => None,
    }
}

pub open spec fn text_or(t: Option<Seq<char>>, default: Seq<char>) -> Seq<char> {
    match t {
        Some(s) => s,
        None => default,
    }
}

/// The descriptor held by the `shared` container of an attribute response:
/// present exactly when `fw_size` is a count and title and version fit their
/// buffers; a missing or non-text title or version takes its default.
pub open spec fn metadata_of_shared(shared: serde_json::Value) -> Option<MetadataModel> {
    match member_u64(shared, "fw_size"@) {
        None => None,
        Some(size) => {
            let title = text_or(member_text(shared, "fw_title"@), "ota"@);
            let version = text_or(member_text(shared, "fw_version"@), "1.0"@);
            if encode_utf8(title).len() <= TITLE_CAPACITY && encode_utf8(version).len()
                <= VERSION_CAPACITY {
                Some(
                    MetadataModel {
                        title,
                        version,
                        total_size: size,
                        checksum: member_text(shared, "fw_checksum"@),
                        checksum_algorithm: member_text(shared, "fw_checksum_algorithm"@),
                    },
                )
            } else {
                None
            }
        },
    }
}

/// The descriptor of a parsed attribute response.
pub open spec fn metadata_of_doc(doc: serde_json::Value) -> Option<MetadataModel> {
    match json_member(doc, "shared"@) {
        Some(shared) => metadata_of_shared(shared),
        None => None,
    }
}

/// The descriptor of an attribute-response payload.
pub open spec fn metadata_of_text(text: Seq<char>) -> Option<MetadataModel> {
    match json_parse(text) {
        Some(doc) => metadata_of_doc(doc),
        None => None,
    }
}

/// A firmware descriptor: display name, version, image size and the
/// advisory checksum fields, which are carried but not enforced.
pub struct UpdateMetadata {
    title: heapless::String<32>,
    version: heapless::String<16>,
    total_size: u64,
    checksum: Option<String>,
    checksum_algorithm: Option<String>,
}

pub open spec fn opt_text(o: Option<String>) -> Option<Seq<char>> {
    match o {
        Some(s) => Some(s@),
        None => None,
    }
}

impl View for UpdateMetadata {
    type V = MetadataModel;

    closed spec fn view(&self) -> MetadataModel {
        MetadataModel {
            title: title_text(self.title),
            version: version_text(self.version),
            total_size: self.total_size,
            checksum: opt_text(self.checksum),
            checksum_algorithm: opt_text(self.checksum_algorithm),
        }
    }
}

pub open spec fn opt_view(o: Option<UpdateMetadata>) -> Option<MetadataModel> {
    match o {
        Some(m) => Some(m@),
        None => None,
    }
}

fn member_string(obj: &serde_json::Value, key: &str) -> (r: Option<String>)
    ensures
        opt_text(r) == member_text(*obj, key@),
{
    match member(obj, key) {
        Some(v) => match value_str(v) {
            Some(s) => Some(s.to_owned()),
            None => None,
        },
        None => None,
    }
}

impl UpdateMetadata {
    pub fn title(&self) -> (r: &str)
        ensures
            r@ == self@.title,
    {
        title_str(&self.title)
    }

    pub fn version(&self) -> (r: &str)
        ensures
            r@ == self@.version,
    {
        version_str(&self.version)
    }

    pub fn total_size(&self) -> (r: u64)
        ensures
            r == self@.total_size,
    {
        self.total_size
    }

    pub fn checksum(&self) -> (r: Option<&str>)
        ensures
            r.is_some() == self@.checksum.is_some(),
            r.is_some() ==> self@.checksum == Some(r.unwrap()@),
    {
        match &self.checksum {
            Some(s) => Some(s.as_str()),
            None => None,
        }
    }

    pub fn checksum_algorithm(&self) -> (r: Option<&str>)
        ensures
            r.is_some() == self@.checksum_algorithm.is_some(),
            r.is_some() ==> self@.checksum_algorithm == Some(r.unwrap()@),
    {
        match &self.checksum_algorithm {
            Some(s) => Some(s.as_str()),
            None => None,
        }
    }
}

/// Extracts the descriptor from the `shared` container of a parsed
/// attribute response.
pub fn metadata_from_json(doc: &serde_json::Value) -> (r: Option<UpdateMetadata>)
    ensures
        opt_view(r) == metadata_of_doc(*doc),
{
    let shared = match member(doc, "shared") {
        Some(s) => s,
        None => return None,
    };
    let size = match member(shared, "fw_size") {
        Some(v) => value_u64(v),
        None => None,
    };
    let total_size = match size {
        Some(n) => n,
        None => return None,
    };
    let title_text = match member(shared, "fw_title") {
        Some(v) => value_str(v),
        None => None,
    };
    let title_text = match title_text {
        Some(t) => t,
        None => "ota",
    };
    let version_text = match member(shared, "fw_version") {
        Some(v) => value_str(v),
        None => None,
    };
    let version_text = match version_text {
        Some(t) => t,
        None => "1.0",
    };
    let title = match title_from(title_text) {
        Some(t) => t,
        None => return None,
    };
    let version = match version_from(version_text) {
        Some(v) => v,
        None => return None,
    };
    let checksum = member_string(shared, "fw_checksum");
    let checksum_algorithm = member_string(shared, "fw_checksum_algorithm");
    Some(UpdateMetadata { title, version, total_size, checksum, checksum_algorithm })
}

/// Parses an attribute-response payload. Gives no descriptor for malformed
/// JSON, a missing `shared` container, a missing or non-numeric `fw_size`,
/// or a title or version too long for its buffer.
pub fn parse_metadata(payload: &str) -> (r: Option<UpdateMetadata>)
    ensures
        opt_view(r) == metadata_of_text(payload@),
{
    match parse_json(payload) {
        Some(doc) => metadata_from_json(&doc),
        None => None,
    }
}

} // verus!
