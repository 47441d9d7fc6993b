use vstd::prelude::*;

verus! {

/// The error taxonomy of the execution core. Each variant carries its
/// payload as plain values; rendering a display message is left to the
/// surrounding program, so no detail is lost inside the state machine.
#[derive(Debug, PartialEq, Eq)]
pub enum ErrorCode {
    /// A cooperative cancellation won the race against normal completion.
    AbortedQuery,
    /// A grant target named a table that does not exist (database, table).
    UnknownTable(String, String),
    /// A grant target named a database that does not exist.
    UnknownDatabase(String),
    /// A caller failed the authentication handshake, or sent no token.
    Unauthenticated(String),
    /// An error raised by the operator pipeline in the middle of a stream.
    UnknownException(String),
    /// The statement could not be planned.
    SyntaxException(String),
}

impl Clone for ErrorCode {
    fn clone(&self) -> (res: Self)
        ensures
            res == *self,
    {
        match self {
            ErrorCode::AbortedQuery => ErrorCode::AbortedQuery,
            ErrorCode::UnknownTable(d, t) => ErrorCode::UnknownTable(d.clone(), t.clone()),
            ErrorCode::UnknownDatabase(d) => ErrorCode::UnknownDatabase(d.clone()),
            ErrorCode::Unauthenticated(m) => ErrorCode::Unauthenticated(m.clone()),
            ErrorCode::UnknownException(m) => ErrorCode::UnknownException(m.clone()),
            ErrorCode::SyntaxException(m) => ErrorCode::SyntaxException(m.clone()),
        }
    }
}

impl ErrorCode {
    /// True of the distinguished kind that records a user-initiated abort,
    /// so callers can avoid treating a cancellation as a system fault.
    pub fn is_aborted(&self) -> (r: bool)
        ensures
            r == (*self is AbortedQuery),
    {
        matches!(self, ErrorCode::AbortedQuery)
    }

    /// The human-readable message, in place of a display implementation.
    pub fn message(&self) -> (r: String)
        ensures
            match *self {
                ErrorCode::AbortedQuery => r@ == "query aborted"@,
                ErrorCode::UnknownTable(d, t) => r@ == "table "@ + d@ + "."@ + t@
                    + " not exists"@,
                ErrorCode::UnknownDatabase(d) => r@ == "database "@ + d@ + " not exists"@,
                ErrorCode::Unauthenticated(m) => r@ == "Unauthenticated: "@ + m@,
                ErrorCode::UnknownException(m) => r@ == m@,
                ErrorCode::SyntaxException(m) => r@ == m@,
            },
    {
        match self {
            ErrorCode::AbortedQuery => String::from_str("query aborted"),
            ErrorCode::UnknownTable(d, t) => {
                let mut s = String::from_str("table ");
                s.append(d.as_str());
                s.append(".");
                s.append(t.as_str());
                s.append(" not exists");
                s
            },
            ErrorCode::UnknownDatabase(d) => {
                let mut s = String::from_str("database ");
                s.append(d.as_str());
                s.append(" not exists");
                s
            },
            ErrorCode::Unauthenticated(m) => {
                let mut s = String::from_str("Unauthenticated: ");
                s.append(m.as_str());
                s
            },
            ErrorCode::UnknownException(m) => m.clone(),
            ErrorCode::SyntaxException(m) => m.clone(),
        }
    }
}

} // verus!
