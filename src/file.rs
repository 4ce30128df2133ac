use vstd::prelude::*;
use vstd::string::StrSliceExecFns;
use vstd::utf8::encode_utf8;

verus! {

#[verifier::external_type_specification]
#[verifier::external_body]
pub struct ExBase64DecodeError(base64::DecodeError);

/// What `base64::decode` yields for a text: the bytes, or `None` where the
/// text is not valid padded base64 in the standard alphabet.
pub uninterp spec fn base64_decoded(s: Seq<char>) -> Option<Seq<u8>>;

/// Relies on base64::decode (standard alphabet, padding required): it either
/// yields the decoded bytes or reports the text as malformed, and the outcome
/// depends on the text alone.
#[verifier::external_body]
fn base64_decode(s: &str) -> (r: Result<Vec<u8>, base64::DecodeError>)
    ensures
        match r {
            Ok(b) => base64_decoded(s@) == Some(b@),
            Err(_) => base64_decoded(s@) is None,
        },
{
    #[allow(deprecated)]
    base64::decode(s)
}

/// How a file's declared content is turned into bytes.
#[derive(Clone, Copy, Debug, PartialEq, Eq, Structural)]
pub enum Encoding {
    /// The UTF-8 bytes of the text, unchanged.
    Identity,
    /// The text is standard base64.
    Base64,
}

/// The encoding a file has when it names none.
pub fn encoding_identity() -> (r: Encoding)
    ensures
        r == Encoding::Identity,
{
    Encoding::Identity
}

pub open spec fn ascii_lower(c: char) -> char {
    if 'A' <= c && c <= 'Z' {
        ((c as u32) + 32) as char
    } else {
        c
    }
}

/// `a` and `b` are equal once ASCII letters are folded to lower case.
pub open spec fn eq_ignore_ascii_case(a: Seq<char>, b: Seq<char>) -> bool {
    a.len() == b.len() && forall|i: int| 0 <= i < a.len() ==> ascii_lower(#[trigger] a[i])
        == ascii_lower(b[i])
}

pub open spec fn identity_name() -> Seq<char> {
    seq!['i', 'd', 'e', 'n', 't', 'i', 't', 'y']
}

pub open spec fn base64_name() -> Seq<char> {
    seq!['b', 'a', 's', 'e', '6', '4']
}

/// The encoding a name denotes: `identity` or `base64`, in any case.
pub open spec fn encoding_named(s: Seq<char>) -> Option<Encoding> {
    if eq_ignore_ascii_case(s, identity_name()) {
        Some(Encoding::Identity)
    } else if eq_ignore_ascii_case(s, base64_name()) {
        Some(Encoding::Base64)
    } else {
        None
    }
}

fn lower_char(c: char) -> (r: char)
    ensures
        r == ascii_lower(c),
{
    if 'A' <= c && c <= 'Z' {
        ((c as u32) + 32) as u8 as char
    } else {
        c
    }
}

fn matches_ignore_ascii_case(s: &str, name: &Vec<char>) -> (r: bool)
    ensures
        r == eq_ignore_ascii_case(s@, name@),
{
    let n = s.unicode_len();
    if n != name.len() {
        return false;
    }
    let mut i: usize = 0;
    while i < n
        invariant
            n == s@.len() == name@.len(),
            i <= n,
            forall|j: int| 0 <= j < i ==> ascii_lower(#[trigger] s@[j]) == ascii_lower(name@[j]),
        decreases n - i,
    {
        if lower_char(s.get_char(i)) != lower_char(name[i]) {
            return false;
        }
        i = i + 1;
    }
    true
}

impl Encoding {
    /// The encoding a name denotes, ignoring ASCII case.
    pub fn from_name(s: &str) -> (r: Option<Encoding>)
        ensures
            r == encoding_named(s@),
    {
        let identity = vec!['i', 'd', 'e', 'n', 't', 'i', 't', 'y'];
        let base64 = vec!['b', 'a', 's', 'e', '6', '4'];
        assert(identity@ =~= identity_name());
        assert(base64@ =~= base64_name());
        if matches_ignore_ascii_case(s, &identity) {
            Some(Encoding::Identity)
        } else if matches_ignore_ascii_case(s, &base64) {
            Some(Encoding::Base64)
        } else {
            None
        }
    }
}

/// One declared file: where it lives, who owns it, its permissions, and its
/// content. A file without content is one that must not exist.
#[derive(Debug)]
pub struct File {
    pub path: String,
    pub user: Option<String>,
    pub group: Option<String>,
    pub mode: Option<String>,
    pub content: Option<String>,
    pub encoding: Encoding,
}

/// The declared content of a file cannot be decoded under its encoding.
#[derive(Clone, Copy, Debug, PartialEq, Eq, Structural)]
pub enum ContentError {
    InvalidBase64,
}

/// The bytes a file's declared content stands for: empty where there is no
/// content, `None` where the content does not decode.
pub open spec fn content_bytes(f: &File) -> Option<Seq<u8>> {
    match f.content {
        None => Some(Seq::empty()),
        Some(s) => match f.encoding {
            Encoding::Identity => Some(encode_utf8(s@)),
            Encoding::Base64 => base64_decoded(s@),
        },
    }
}

impl File {
    /// Turns the declared content into bytes according to the encoding.
    pub fn decode(&self) -> (r: Result<Vec<u8>, ContentError>)
        ensures
            match content_bytes(self) {
                Some(b) => r matches Ok(v) && v@ == b,
                None => r == Err::<Vec<u8>, ContentError>(ContentError::InvalidBase64),
            },
    {
        match &self.content {
            None => Ok(Vec::new()),
            Some(content) => match self.encoding {
                Encoding::Identity => Ok(content.as_str().as_bytes_vec()),
                Encoding::Base64 => match base64_decode(content.as_str()) {
                    Ok(b) => Ok(b),
                    Err(_) => Err(ContentError::InvalidBase64),
                },
            },
        }
    }
}

} // verus!
