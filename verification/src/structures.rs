use vstd::prelude::*;

verus! {

/// Struct of incoming name
pub struct Name {
    pub name: String,
}

/// Struct of outgoing name
pub struct NameOutput {
    pub student_name: String,
}

/// Requests that a client sends: store a hash under a key, or load the hash of a key.
pub enum ClientRequest {
    Store { key: String, hash: String },
    Load { key: String },
}

/// Responses sent back to the client.
#[derive(PartialEq, Debug)]
pub enum RequestResponse {
    Success { requested_key: String, requested_hash: String },
    KeyNotFound,
}

/// A command that carries a type, a key and a hash.
pub struct CommandUniversal {
    pub request_type: String,
    pub key: String,
    pub hash: String,
}

/// A command that carries only a type and a key.
pub struct CommandLoad {
    pub request_type: String,
    pub key: String,
}

impl CommandUniversal {
    /// A command whose three fields are empty.
    pub fn new() -> (c: Self)
        ensures
            c.request_type@ == Seq::<char>::empty(),
            c.key@ == Seq::<char>::empty(),
            c.hash@ == Seq::<char>::empty(),
    {
        CommandUniversal { request_type: String::new(), key: String::new(), hash: String::new() }
    }
}

/// What a request says, as sequences of characters.
pub enum RequestView {
    Store { key: Seq<char>, hash: Seq<char> },
    Load { key: Seq<char> },
}

/// What a response says, as sequences of characters.
pub enum ResponseView {
    Success { key: Seq<char>, hash: Seq<char> },
    KeyNotFound,
}

impl View for ClientRequest {
    type V = RequestView;

    open spec fn view(&self) -> RequestView {
        match self {
            ClientRequest::Store { key, hash } => RequestView::Store { key: key@, hash: hash@ },
            ClientRequest::Load { key } => RequestView::Load { key: key@ },
        }
    }
}

impl View for RequestResponse {
    type V = ResponseView;

    open spec fn view(&self) -> ResponseView {
        match self {
            RequestResponse::Success { requested_key, requested_hash } => ResponseView::Success {
                key: requested_key@,
                hash: requested_hash@,
            },
            RequestResponse::KeyNotFound => ResponseView::KeyNotFound,
        }
    }
}

/// Checks whether two byte sequences are equal, byte by byte.
pub fn bytes_equal(x: &[u8], y: &[u8]) -> (r: bool)
    ensures
        r == (x@ == y@),
{
    if x.len() != y.len() {
        return false;
    }
    let mut i: usize = 0;
    while i < x.len()
        invariant
            x@.len() == y@.len(),
            i <= x@.len(),
            forall|j: int| 0 <= j < i ==> x@[j] == y@[j],
        decreases x@.len() - i,
    {
        if x[i] != y[i] {
            assert(x@[i as int] != y@[i as int]);
            return false;
        }
        i = i + 1;
    }
    assert(x@ =~= y@);
    true
}

/// Checks whether two strings hold the same characters, by comparing their UTF-8 bytes.
pub fn str_equals(a: &str, b: &str) -> (r: bool)
    ensures
        r == (a@ == b@),
{
    broadcast use vstd::utf8::encode_utf8_decode_utf8;

    let same_bytes = bytes_equal(a.as_bytes(), b.as_bytes());
    proof {
        // Equal texts have equal encodings, and equal encodings decode to equal texts.
        if same_bytes {
            assert(vstd::utf8::decode_utf8(vstd::utf8::encode_utf8(a@)) == a@);
        }
    }
    same_bytes
}

/// Function used by the serializer to decide whether `requested_key` is left out:
/// true for every value but `"load"`.
pub fn type_of_request(v: &str) -> (r: bool)
    ensures
        r == (v@ != "load"@),
{
    !str_equals(v, "load")
}

} // verus!
