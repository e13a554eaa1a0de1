//! Media types of file contents.
//!
//! The type of a file is guessed from the extension of its path. Where the
//! extension says nothing, the first bytes of the file are searched for the
//! marker `html`.

use vstd::prelude::*;

verus! {

/// Number of leading bytes of a file that the sniffer looks at.
pub const SNIFF_LEN: usize = 100;

/// A media type, held as its text, such as `text/html`.
#[derive(Debug)]
pub struct Mime {
    text: String,
}

impl View for Mime {
    type V = Seq<char>;

    closed spec fn view(&self) -> Seq<char> {
        self.text@
    }
}

/// The media type that `mime_guess` associates with the extension of `path`,
/// if it knows one.
pub uninterp spec fn mime_of_path(path: Seq<char>) -> Option<Seq<char>>;

/// Calls `mime_guess::from_path(path).first()` and renders the media type
/// found as text. The guess is a table lookup on the extension of the path
/// and reads nothing from disk, so the contract only gives the result a
/// name: [`mime_of_path`].
#[verifier::external_body]
fn guess_from_path(path: &str) -> (guess: Option<String>)
    ensures
        guess matches Some(text) ==> mime_of_path(path@) == Some(text@),
        guess is None ==> mime_of_path(path@) is None,
{
    mime_guess::from_path(path).first().map(|mime| mime.to_string())
}

/// The part of `head` that the sniffer looks at.
pub open spec fn sniff_window(head: Seq<u8>) -> Seq<u8> {
    if head.len() <= SNIFF_LEN {
        head
    } else {
        head.take(SNIFF_LEN as int)
    }
}

/// The four bytes `html` stand at position `at` of `bytes`.
pub open spec fn html_at(bytes: Seq<u8>, at: int) -> bool {
    &&& 0 <= at
    &&& at + 4 <= bytes.len()
    &&& bytes[at] == 0x68
    &&& bytes[at + 1] == 0x74
    &&& bytes[at + 2] == 0x6d
    &&& bytes[at + 3] == 0x6c
}

/// The bytes `html` occur somewhere in `bytes`.
pub open spec fn has_html_marker(bytes: Seq<u8>) -> bool {
    exists|at: int| html_at(bytes, at)
}

/// The media type of a file, from what its path suggests and from its first
/// bytes: the suggestion if there is one, else `text/html` if the sniffed
/// window holds the marker, else `application/octet-stream`.
pub open spec fn resolved_mime(guess: Option<Seq<char>>, head: Seq<u8>) -> Seq<char> {
    match guess {
        Some(text) => text,
        None => if has_html_marker(sniff_window(head)) {
            "text/html"@
        } else {
            "application/octet-stream"@
        },
    }
}

/// Whether the marker `html` occurs in the first [`SNIFF_LEN`] bytes of
/// `head`.
pub fn sniff_html(head: &[u8]) -> (found: bool)
    ensures
        found == has_html_marker(sniff_window(head@)),
{
    let limit: usize = if head.len() <= SNIFF_LEN {
        head.len()
    } else {
        SNIFF_LEN
    };
    let ghost window = sniff_window(head@);
    assert(window.len() == limit);
    assert(forall|k: int| 0 <= k < limit ==> window[k] == head@[k]);
    if limit < 4 {
        assert(forall|at: int| !html_at(window, at));
        return false;
    }
    let mut at: usize = 0;
    while at + 4 <= limit
        invariant
            4 <= limit <= head@.len(),
            limit <= SNIFF_LEN,
            at + 3 <= limit,
            window == sniff_window(head@),
            window.len() == limit,
            forall|k: int| 0 <= k < limit ==> window[k] == head@[k],
            forall|k: int| 0 <= k < at ==> !html_at(window, k),
        decreases limit - at,
    {
        if head[at] == 0x68 && head[at + 1] == 0x74 && head[at + 2] == 0x6d && head[at + 3]
            == 0x6c {
            assert(html_at(window, at as int));
            return true;
        }
        at += 1;
    }
    assert(forall|k: int| !html_at(window, k));
    false
}

impl Mime {
    /// The media type written as `text`.
    pub fn new(text: String) -> (mime: Self)
        ensures
            mime@ == text@,
    {
        Mime { text }
    }

    /// `text/html`.
    pub fn text_html() -> (mime: Self)
        ensures
            mime@ == "text/html"@,
    {
        Mime { text: "text/html".to_owned() }
    }

    /// `application/octet-stream`.
    pub fn octet_stream() -> (mime: Self)
        ensures
            mime@ == "application/octet-stream"@,
    {
        Mime { text: "application/octet-stream".to_owned() }
    }

    /// The media type as text.
    pub fn as_str(&self) -> (text: &str)
        ensures
            text@ == self@,
    {
        self.text.as_str()
    }

    /// A copy of this media type.
    pub fn duplicate(&self) -> (mime: Self)
        ensures
            mime@ == self@,
    {
        Mime { text: self.text.clone() }
    }

    /// The media type as an owned string.
    pub fn to_string(&self) -> (text: String)
        ensures
            text@ == self@,
    {
        self.text.clone()
    }

    /// Decides the media type of a file from the suggestion made for its
    /// path and from its first bytes.
    pub fn resolve(guess: Option<String>, head: &[u8]) -> (mime: Self)
        ensures
            mime@ == resolved_mime(
                match guess {
                    Some(text) => Some(text@),
                    None => None,
                },
                head@,
            ),
    {
        match guess {
            Some(text) => Mime { text },
            None => if sniff_html(head) {
                Mime::text_html()
            } else {
                Mime::octet_stream()
            },
        }
    }

    /// The media type of the file at `path` whose first bytes are `head`.
    pub fn detect(path: &str, head: &[u8]) -> (mime: Self)
        ensures
            mime@ == resolved_mime(mime_of_path(path@), head@),
    {
        Mime::resolve(guess_from_path(path), head)
    }
}

} // verus!
