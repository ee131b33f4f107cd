//! Domain errors of the My Files server functions and their wire form.

use vstd::prelude::*;
use vstd::string::*;

verus! {

/// Domain errors for My Files; each one has a stable prefix on the wire.
#[derive(Debug)]
pub enum MesonAppError {
    /// Missing or invalid session.
    Auth(String),
    /// Missing row, or a row that belongs to someone else.
    NotFound(String),
    /// Ownership denial (the wire usually collapses it to `NotFound`).
    Forbidden(String),
    /// Backend or storage failure.
    Io {
        /// Client-visible detail after the `io:` prefix.
        msg: String,
        /// Description of the underlying failure, kept for operators and
        /// never put on the wire.
        source: Option<String>,
    },
}

/// Prefix of the wire form of an authentication error.
pub open spec fn auth_prefix() -> Seq<char> {
    seq!['a', 'u', 't', 'h', ':', ' ']
}

/// Prefix of the wire form of a not-found error.
pub open spec fn not_found_prefix() -> Seq<char> {
    seq!['n', 'o', 't', '_', 'f', 'o', 'u', 'n', 'd', ':', ' ']
}

/// Prefix of the wire form of a forbidden error.
pub open spec fn forbidden_prefix() -> Seq<char> {
    seq!['f', 'o', 'r', 'b', 'i', 'd', 'd', 'e', 'n', ':', ' ']
}

/// Prefix of the wire form of an I/O error.
pub open spec fn io_prefix() -> Seq<char> {
    seq!['i', 'o', ':', ' ']
}

impl MesonAppError {
    /// The client-visible detail that follows the prefix on the wire.
    pub open spec fn detail(self) -> Seq<char> {
        match self {
            MesonAppError::Auth(d) => d@,
            MesonAppError::NotFound(d) => d@,
            MesonAppError::Forbidden(d) => d@,
            MesonAppError::Io { msg, .. } => msg@,
        }
    }

    /// The stable prefix of this error's variant.
    pub open spec fn prefix(self) -> Seq<char> {
        match self {
            MesonAppError::Auth(_) => auth_prefix(),
            MesonAppError::NotFound(_) => not_found_prefix(),
            MesonAppError::Forbidden(_) => forbidden_prefix(),
            MesonAppError::Io { .. } => io_prefix(),
        }
    }

    /// The wire form: the prefix, then the detail.
    pub open spec fn wire(self) -> Seq<char> {
        self.prefix() + self.detail()
    }

    /// An authentication error with the given detail.
    pub fn auth(detail: &str) -> (e: MesonAppError)
        ensures
            e matches MesonAppError::Auth(d) && d@ == detail@,
    {
        MesonAppError::Auth(String::from_str(detail))
    }

    /// A not-found error with the given detail.
    pub fn not_found(detail: &str) -> (e: MesonAppError)
        ensures
            e matches MesonAppError::NotFound(d) && d@ == detail@,
    {
        MesonAppError::NotFound(String::from_str(detail))
    }

    /// A forbidden error with the given detail.
    pub fn forbidden(detail: &str) -> (e: MesonAppError)
        ensures
            e matches MesonAppError::Forbidden(d) && d@ == detail@,
    {
        MesonAppError::Forbidden(String::from_str(detail))
    }

    /// An I/O error with a client-visible message and no underlying source.
    pub fn io_msg(msg: &str) -> (e: MesonAppError)
        ensures
            e matches MesonAppError::Io { msg: m, source } && m@ == msg@ && source is None,
    {
        MesonAppError::Io { msg: String::from_str(msg), source: None }
    }

    /// An I/O error with a client-visible message and the description of the
    /// failure that caused it.
    pub fn io_source(msg: &str, source: String) -> (e: MesonAppError)
        ensures
            e matches MesonAppError::Io { msg: m, source: s } && m@ == msg@ && s == Some(source),
    {
        MesonAppError::Io { msg: String::from_str(msg), source: Some(source) }
    }

    /// The wire form of this error, as the server function sends it.
    pub fn to_string(&self) -> (s: String)
        ensures
            s@ == self.wire(),
            self matches MesonAppError::Auth(d) ==> s@ == "auth: "@ + d@,
            self matches MesonAppError::NotFound(d) ==> s@ == "not_found: "@ + d@,
            self matches MesonAppError::Forbidden(d) ==> s@ == "forbidden: "@ + d@,
            self matches MesonAppError::Io { msg, .. } ==> s@ == "io: "@ + msg@,
    {
        proof {
            reveal_strlit("auth: ");
            reveal_strlit("not_found: ");
            reveal_strlit("forbidden: ");
            reveal_strlit("io: ");
        }
        match self {
            MesonAppError::Auth(d) => String::from_str("auth: ").concat(d.as_str()),
            MesonAppError::NotFound(d) => String::from_str("not_found: ").concat(d.as_str()),
            MesonAppError::Forbidden(d) => String::from_str("forbidden: ").concat(d.as_str()),
            MesonAppError::Io { msg, .. } => String::from_str("io: ").concat(msg.as_str()),
        }
    }
}

/// An authentication error (`auth:` on the wire).
pub fn auth_error(detail: &str) -> (e: MesonAppError)
    ensures
        e matches MesonAppError::Auth(d) && d@ == detail@,
{
    MesonAppError::auth(detail)
}

/// A not-found error (`not_found:` on the wire).
pub fn not_found_error(detail: &str) -> (e: MesonAppError)
    ensures
        e matches MesonAppError::NotFound(d) && d@ == detail@,
{
    MesonAppError::not_found(detail)
}

/// A forbidden error (`forbidden:` on the wire).
pub fn forbidden_error(detail: &str) -> (e: MesonAppError)
    ensures
        e matches MesonAppError::Forbidden(d) && d@ == detail@,
{
    MesonAppError::forbidden(detail)
}

/// An I/O error (`io:` on the wire).
pub fn io_error(detail: &str) -> (e: MesonAppError)
    ensures
        e matches MesonAppError::Io { msg, source } && msg@ == detail@ && source is None,
{
    MesonAppError::io_msg(detail)
}

/// The wire form tells the variant and the detail apart: two errors that read
/// the same on the wire have the same variant and the same detail.
pub proof fn lemma_wire_determines_error(e1: MesonAppError, e2: MesonAppError)
    requires
        e1.wire() == e2.wire(),
    ensures
        e1.prefix() == e2.prefix(),
        e1.detail() == e2.detail(),
{
    let w1 = e1.wire();
    let w2 = e2.wire();
    assert(w1[0] == e1.prefix()[0]);
    assert(w2[0] == e2.prefix()[0]);
    assert(e1.prefix() == e2.prefix());
    let n = e1.prefix().len() as int;
    assert(e1.detail() =~= w1.subrange(n, w1.len() as int));
    assert(e2.detail() =~= w2.subrange(n, w2.len() as int));
}

} // verus!
