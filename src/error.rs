//! Errors of manifest loading.

use vstd::prelude::*;
use vstd::string::StringExecFns;

verus! {

/// The two classes of failure when loading a manifest.
#[derive(Debug, Clone, Copy, PartialEq, Eq, Structural)]
pub enum ErrorKind {
    /// The manifest file could not be opened or read.
    Io,
    /// The content of the manifest does not have the expected structure.
    Schema,
}

/// A failure with a message for humans and, where there is one, the
/// description of the lower-level cause.
#[derive(Debug, Clone, PartialEq, Eq)]
pub struct Error {
    pub kind: ErrorKind,
    pub message: String,
    pub cause: Option<String>,
}

/// `text` occurs in `msg` as a contiguous piece.
pub open spec fn mentions(msg: Seq<char>, text: Seq<char>) -> bool {
    exists|k: int|
        0 <= k && k + text.len() <= msg.len() && #[trigger] msg.subrange(k, k + text.len()) == text
}

/// `s` between double quotes.
pub open spec fn quoted(s: Seq<char>) -> Seq<char> {
    seq!['"'] + s + seq!['"']
}

/// The message of a manifest that could not be opened.
pub open spec fn open_failed_message(path: Seq<char>) -> Seq<char> {
    "Cannot open manifest "@ + quoted(path) + "!"@
}

/// The message of a manifest whose content could not be decoded.
pub open spec fn syntax_message(path: Seq<char>) -> Seq<char> {
    "Syntax error in manifest "@ + quoted(path) + "!"@
}

/// The message of a manifest that declares the artifact `name` twice.
pub open spec fn duplicate_message(path: Seq<char>, name: Seq<char>) -> Seq<char> {
    "Duplicate artifact "@ + quoted(name) + " in manifest "@ + quoted(path) + "!"@
}

/// `a + text + b` mentions `text`.
pub proof fn lemma_mentions_middle(a: Seq<char>, text: Seq<char>, b: Seq<char>)
    ensures
        mentions(a + text + b, text),
{
    let msg = a + text + b;
    assert(msg.subrange(a.len() as int, a.len() + text.len() as int) =~= text);
}

/// Appends `s` between double quotes to `out`.
fn push_quoted(out: &mut String, s: &str)
    ensures
        final(out)@ == old(out)@ + quoted(s@),
{
    out.append("\"");
    out.append(s);
    out.append("\"");
    proof {
        reveal_strlit("\"");
        assert(final(out)@ =~= old(out)@ + quoted(s@));
    }
}

impl Error {
    /// The error for a manifest at `path` that could not be opened or read,
    /// with the description of the underlying failure.
    pub fn open_failed(path: &str, cause: String) -> (e: Error)
        ensures
            e.kind == ErrorKind::Io,
            e.message@ == open_failed_message(path@),
            mentions(e.message@, path@),
            e.cause == Some(cause),
    {
        let mut message = String::from_str("Cannot open manifest ");
        push_quoted(&mut message, path);
        message.append("!");
        proof {
            let a = "Cannot open manifest "@ + seq!['"'];
            let b = seq!['"'] + "!"@;
            assert(message@ =~= a + path@ + b);
            lemma_mentions_middle(a, path@, b);
        }
        Error { kind: ErrorKind::Io, message, cause: Some(cause) }
    }

    /// The error for a manifest at `path` whose content could not be decoded
    /// into the expected structure, with the decoder's diagnostic.
    pub fn syntax(path: &str, cause: String) -> (e: Error)
        ensures
            e.kind == ErrorKind::Schema,
            e.message@ == syntax_message(path@),
            mentions(e.message@, path@),
            e.cause == Some(cause),
    {
        let mut message = String::from_str("Syntax error in manifest ");
        push_quoted(&mut message, path);
        message.append("!");
        proof {
            let a = "Syntax error in manifest "@ + seq!['"'];
            let b = seq!['"'] + "!"@;
            assert(message@ =~= a + path@ + b);
            lemma_mentions_middle(a, path@, b);
        }
        Error { kind: ErrorKind::Schema, message, cause: Some(cause) }
    }

    /// The error for a manifest at `path` that declares the artifact `name`
    /// more than once.
    pub fn duplicate_artifact(path: &str, name: &str) -> (e: Error)
        ensures
            e.kind == ErrorKind::Schema,
            e.message@ == duplicate_message(path@, name@),
            mentions(e.message@, path@),
            mentions(e.message@, name@),
            e.cause.is_none(),
    {
        let mut message = String::from_str("Duplicate artifact ");
        push_quoted(&mut message, name);
        message.append(" in manifest ");
        push_quoted(&mut message, path);
        message.append("!");
        proof {
            let a = "Duplicate artifact "@ + seq!['"'];
            let b = seq!['"'] + " in manifest "@ + quoted(path@) + "!"@;
            assert(message@ =~= a + name@ + b);
            lemma_mentions_middle(a, name@, b);
            let c = "Duplicate artifact "@ + quoted(name@) + " in manifest "@ + seq!['"'];
            let d = seq!['"'] + "!"@;
            assert(message@ =~= c + path@ + d);
            lemma_mentions_middle(c, path@, d);
        }
        Error { kind: ErrorKind::Schema, message, cause: None }
    }
}

} // verus!
