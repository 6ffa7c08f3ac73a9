use vstd::prelude::*;

verus! {

#[verifier::external_type_specification]
#[verifier::external_body]
pub struct ExJsonValue(serde_json::Value);

/// Whether `bytes` hold one well-formed JSON document.
pub uninterp spec fn json_well_formed(bytes: Seq<u8>) -> bool;

/// The string that the JSON pointer `pointer` selects in the document `bytes`,
/// if it selects a string.
pub uninterp spec fn json_string_at(bytes: Seq<u8>, pointer: Seq<char>) -> Option<Seq<char>>;

/// The JSON text of an object whose members are the given names and strings.
pub uninterp spec fn json_object_text(members: Seq<(Seq<char>, Seq<char>)>) -> Seq<char>;

pub open spec fn string_option_view(o: Option<String>) -> Option<Seq<char>> {
    match o {
        Some(s) => Some(s@),
        None => None,
    }
}

pub open spec fn members_view(members: Seq<(String, String)>) -> Seq<(Seq<char>, Seq<char>)> {
    members.map_values(|m: (String, String)| (m.0@, m.1@))
}

/// A response body together with the JSON document it decodes to.
#[derive(Debug)]
pub struct Document {
    bytes: Vec<u8>,
    value: serde_json::Value,
}

impl View for Document {
    type V = Seq<u8>;

    closed spec fn view(&self) -> Seq<u8> {
        self.bytes@
    }
}

impl Document {
    /// Relies on `serde_json::from_slice` into a `serde_json::Value`: it
    /// succeeds exactly on well-formed documents; the bytes are kept either way.
    #[verifier::external_body]
    pub(crate) fn parse(bytes: Vec<u8>) -> (r: Result<Document, (serde_json::Error, Vec<u8>)>)
        ensures
            r is Ok <==> json_well_formed(bytes@),
            r matches Ok(d) ==> d@ == bytes@,
            r matches Err(e) ==> e.1@ == bytes@,
    {
        match serde_json::from_slice::<serde_json::Value>(&bytes) {
            Ok(value) => Ok(Document { bytes, value }),
            Err(error) => Err((error, bytes)),
        }
    }

    /// Relies on `serde_json::Value::pointer`: the value that a JSON pointer
    /// selects in the decoded document, kept only where it is a string.
    #[verifier::external_body]
    pub(crate) fn string_at(&self, pointer: &str) -> (r: Option<String>)
        ensures
            string_option_view(r) == json_string_at(self@, pointer@),
    {
        match self.value.pointer(pointer) {
            Some(serde_json::Value::String(s)) => Some(s.clone()),
            _ => None,
        }
    }

    /// The raw bytes of the response body.
    pub fn bytes(&self) -> (r: &Vec<u8>)
        ensures
            r@ == self@,
    {
        &self.bytes
    }

    /// The raw bytes and the decoded document.
    pub fn into_parts(self) -> (r: (Vec<u8>, serde_json::Value))
        ensures
            r.0@ == self@,
    {
        (self.bytes, self.value)
    }
}

/// Relies on `serde_json::Value`'s text form (its `Display`), applied to an
/// object built from the given members, each value a JSON string.
#[verifier::external_body]
pub(crate) fn object_text(members: &Vec<(String, String)>) -> (r: String)
    ensures
        r@ == json_object_text(members_view(members@)),
{
    let map: serde_json::Map<String, serde_json::Value> = members
        .iter()
        .map(|(k, v)| (k.clone(), serde_json::Value::String(v.clone())))
        .collect();
    serde_json::Value::Object(map).to_string()
}

} // verus!
