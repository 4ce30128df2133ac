use vstd::prelude::*;
use vstd::string::StrSliceExecFns;

use crate::file::{encoding_named, Encoding, File};

verus! {

/// A generic document: tables keyed by strings, lists, and string scalars.
/// Within a table a key is looked up at its first occurrence.
#[derive(Debug)]
pub enum Node {
    Text(String),
    Table(Vec<(String, Node)>),
    List(Vec<Node>),
}

/// Why a fileset document was refused as a whole.
#[derive(Debug)]
pub enum ParseError {
    /// The document is not a table.
    NotTable,
    /// The entry with this id is not a table.
    EntryNotTable(String),
    /// The entry with this id has no path, or an empty one.
    MissingPath(String),
    /// A field of the entry with this id is not a string.
    FieldNotText(String),
    /// The entry with this id names an encoding other than identity or base64.
    UnknownEncoding(String),
}

/// The value of the first entry of a table under `key`.
pub open spec fn lookup(t: Seq<(String, Node)>, key: Seq<char>) -> Option<Node>
    decreases t.len(),
{
    if t.len() == 0 {
        None
    } else if t[0].0@ == key {
        Some(t[0].1)
    } else {
        lookup(t.drop_first(), key)
    }
}

pub open spec fn file_key() -> Seq<char> {
    seq!['f', 'i', 'l', 'e']
}

pub open spec fn path_key() -> Seq<char> {
    seq!['p', 'a', 't', 'h']
}

pub open spec fn user_key() -> Seq<char> {
    seq!['u', 's', 'e', 'r']
}

pub open spec fn group_key() -> Seq<char> {
    seq!['g', 'r', 'o', 'u', 'p']
}

pub open spec fn mode_key() -> Seq<char> {
    seq!['m', 'o', 'd', 'e']
}

pub open spec fn content_key() -> Seq<char> {
    seq!['c', 'o', 'n', 't', 'e', 'n', 't']
}

pub open spec fn encoding_key() -> Seq<char> {
    seq!['e', 'n', 'c', 'o', 'd', 'i', 'n', 'g']
}

/// An optional string field: absent, a string, or (`None`) something else.
pub open spec fn text_field(t: Seq<(String, Node)>, key: Seq<char>) -> Option<Option<String>> {
    match lookup(t, key) {
        None => Some(None),
        Some(Node::Text(s)) => Some(Some(s)),
        Some(_) => None,
    }
}

/// The file an entry of the fileset declares, or why it declares none.
/// Fields are checked in the order path, user, group, mode, content, encoding;
/// other keys are ignored.
pub open spec fn entry_file(id: String, n: Node) -> Result<File, ParseError> {
    match n {
        Node::Table(t) => {
            let t = t@;
            match lookup(t, path_key()) {
                Some(Node::Text(path)) if path@.len() > 0 => {
                    if text_field(t, user_key()) is None || text_field(t, group_key()) is None
                        || text_field(t, mode_key()) is None || text_field(t, content_key()) is None
                        || text_field(t, encoding_key()) is None {
                        Err(ParseError::FieldNotText(id))
                    } else {
                        let encoding = match text_field(t, encoding_key())->0 {
                            None => Some(Encoding::Identity),
                            Some(e) => encoding_named(e@),
                        };
                        match encoding {
                            None => Err(ParseError::UnknownEncoding(id)),
                            Some(encoding) => Ok(
                                File {
                                    path,
                                    user: text_field(t, user_key())->0,
                                    group: text_field(t, group_key())->0,
                                    mode: text_field(t, mode_key())->0,
                                    content: text_field(t, content_key())->0,
                                    encoding,
                                },
                            ),
                        }
                    }
                },
                _ => Err(ParseError::MissingPath(id)),
            }
        },
        _ => Err(ParseError::EntryNotTable(id)),
    }
}

/// The files of a sequence of entries, in order; the first refused entry
/// refuses them all.
pub open spec fn files_of(es: Seq<(String, Node)>) -> Result<Seq<(String, File)>, ParseError>
    decreases es.len(),
{
    if es.len() == 0 {
        Ok(Seq::empty())
    } else {
        match files_of(es.drop_last()) {
            Err(e) => Err(e),
            Ok(v) => match entry_file(es.last().0, es.last().1) {
                Ok(f) => Ok(v.push((es.last().0, f))),
                Err(e) => Err(e),
            },
        }
    }
}

/// The fileset a document declares: the entries of its `file` table. A
/// document without a `file` table, or whose `file` is no table, declares none.
pub open spec fn fileset_of(doc: Node) -> Result<Seq<(String, File)>, ParseError> {
    match doc {
        Node::Table(t) => match lookup(t@, file_key()) {
            Some(Node::Table(es)) => files_of(es@),
            _ => Ok(Seq::empty()),
        },
        _ => Err(ParseError::NotTable),
    }
}

fn same_text(a: &str, b: &Vec<char>) -> (r: bool)
    ensures
        r == (a@ == b@),
{
    let n = a.unicode_len();
    if n != b.len() {
        return false;
    }
    let mut i: usize = 0;
    while i < n
        invariant
            n == a@.len() == b@.len(),
            i <= n,
            forall|j: int| 0 <= j < i ==> a@[j] == b@[j],
        decreases n - i,
    {
        if a.get_char(i) != b[i] {
            return false;
        }
        i = i + 1;
    }
    assert(a@ =~= b@);
    true
}

fn find<'a>(t: &'a Vec<(String, Node)>, key: &Vec<char>) -> (r: Option<&'a Node>)
    ensures
        match lookup(t@, key@) {
            Some(n) => r == Some(&n),
            None => r is None,
        },
{
    let mut i: usize = 0;
    assert(t@.subrange(0, t@.len() as int) =~= t@);
    while i < t.len()
        invariant
            i <= t@.len(),
            lookup(t@, key@) == lookup(t@.subrange(i as int, t@.len() as int), key@),
        decreases t.len() - i,
    {
        assert(t@.subrange(i as int, t@.len() as int).drop_first() =~= t@.subrange(
            i as int + 1,
            t@.len() as int,
        ));
        if same_text(t[i].0.as_str(), key) {
            return Some(&t[i].1);
        }
        i = i + 1;
    }
    None
}

fn find_text(t: &Vec<(String, Node)>, key: &Vec<char>) -> (r: Option<Option<String>>)
    ensures
        r == text_field(t@, key@),
{
    match find(t, key) {
        None => Some(None),
        Some(Node::Text(s)) => Some(Some(s.clone())),
        Some(_) => None,
    }
}

fn entry_to_file(id: &String, n: &Node) -> (r: Result<File, ParseError>)
    ensures
        r == entry_file(*id, *n),
{
    let t = match n {
        Node::Table(t) => t,
        _ => {
            return Err(ParseError::EntryNotTable(id.clone()));
        },
    };
    let path = match find(t, &vec!['p', 'a', 't', 'h']) {
        Some(Node::Text(p)) if p.as_str().unicode_len() > 0 => p.clone(),
        _ => {
            return Err(ParseError::MissingPath(id.clone()));
        },
    };
    let user = find_text(t, &vec!['u', 's', 'e', 'r']);
    let group = find_text(t, &vec!['g', 'r', 'o', 'u', 'p']);
    let mode = find_text(t, &vec!['m', 'o', 'd', 'e']);
    let content = find_text(t, &vec!['c', 'o', 'n', 't', 'e', 'n', 't']);
    let encoding = find_text(t, &vec!['e', 'n', 'c', 'o', 'd', 'i', 'n', 'g']);
    let (user, group, mode, content, encoding) = match (user, group, mode, content, encoding) {
        (Some(u), Some(g), Some(m), Some(c), Some(e)) => (u, g, m, c, e),
        _ => {
            return Err(ParseError::FieldNotText(id.clone()));
        },
    };
    let encoding = match encoding {
        None => Encoding::Identity,
        Some(e) => match Encoding::from_name(e.as_str()) {
            Some(e) => e,
            None => {
                return Err(ParseError::UnknownEncoding(id.clone()));
            },
        },
    };
    Ok(File { path, user, group, mode, content, encoding })
}

/// Reads the fileset a document declares: one file for each entry of its
/// `file` table, in the table's order, paired with the entry's id.
pub fn parse_fileset(doc: &Node) -> (r: Result<Vec<(String, File)>, ParseError>)
    ensures
        match (r, fileset_of(*doc)) {
            (Ok(v), Ok(s)) => v@ == s,
            (Err(e), Err(f)) => e == f,
            _ => false,
        },
{
    let t = match doc {
        Node::Table(t) => t,
        _ => {
            return Err(ParseError::NotTable);
        },
    };
    let es = match find(t, &vec!['f', 'i', 'l', 'e']) {
        Some(Node::Table(es)) => es,
        _ => {
            return Ok(Vec::new());
        },
    };
    let mut out: Vec<(String, File)> = Vec::new();
    let mut i: usize = 0;
    while i < es.len()
        invariant
            i <= es@.len(),
            files_of(es@.take(i as int)) == Ok::<Seq<(String, File)>, ParseError>(out@),
            fileset_of(*doc) == files_of(es@),
        decreases es.len() - i,
    {
        assert(es@.take(i as int + 1).drop_last() =~= es@.take(i as int));
        match entry_to_file(&es[i].0, &es[i].1) {
            Ok(f) => {
                out.push((es[i].0.clone(), f));
            },
            Err(e) => {
                proof {
                    lemma_files_of_err(es@, i as int + 1);
                }
                return Err(e);
            },
        }
        i = i + 1;
    }
    assert(es@.take(es@.len() as int) =~= es@);
    Ok(out)
}

/// Once a prefix of the entries is refused, every longer prefix is refused
/// with the same error.
proof fn lemma_files_of_err(es: Seq<(String, Node)>, k: int)
    requires
        0 <= k <= es.len(),
        files_of(es.take(k)) is Err,
    ensures
        files_of(es) == files_of(es.take(k)),
    decreases es.len() - k,
{
    if k < es.len() {
        assert(es.take(k + 1).drop_last() =~= es.take(k));
        lemma_files_of_err(es, k + 1);
    } else {
        assert(es.take(k) =~= es);
    }
}

} // verus!
