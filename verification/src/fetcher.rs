//! Source-name addressing: deciding how a source is to be fetched.
//!
//! The decision is made here, before any fetch: a name opening with `http`
//! (so also `https`) goes over the network as it stands; one opening with
//! exactly `file://` is read from local storage under the path after those
//! seven characters; every other name is rejected.

use vstd::prelude::*;
use crate::error::QueryError;

verus! {

/// Where a source's content is to be read from.
#[derive(Debug, PartialEq, Eq)]
pub enum SourceRef {
    /// Fetch this URL over the network.
    Http(String),
    /// Read this path from local storage.
    File(String),
}

/// The name opens with `http`.
pub open spec fn is_http_source(s: Seq<char>) -> bool {
    s.len() >= 4 && s[0] == 'h' && s[1] == 't' && s[2] == 't' && s[3] == 'p'
}

/// The name opens with exactly `file://`.
pub open spec fn is_file_source(s: Seq<char>) -> bool {
    s.len() >= 7 && s[0] == 'f' && s[1] == 'i' && s[2] == 'l' && s[3] == 'e' && s[4] == ':'
        && s[5] == '/' && s[6] == '/'
}

/// Decides how `source` is to be fetched: the full name for a network
/// source, the path after `file://` for a local one, and the scheme error,
/// carrying the name, for everything else.
pub fn resolve_source(source: &str) -> (r: Result<SourceRef, QueryError>)
    ensures
        is_http_source(source@) ==> (r matches Ok(SourceRef::Http(u)) && u@ == source@),
        !is_http_source(source@) && is_file_source(source@) ==> (r matches Ok(SourceRef::File(p))
            && p@ == source@.skip(7)),
        !is_http_source(source@) && !is_file_source(source@) ==> (r matches Err(e) && e matches
            QueryError::UnsupportedSourceScheme(t) && t@ == source@),
{
    let n = source.unicode_len();
    let is_http = if n >= 4 {
        source.get_char(0) == 'h' && source.get_char(1) == 't' && source.get_char(2) == 't'
            && source.get_char(3) == 'p'
    } else {
        false
    };
    if is_http {
        return Ok(SourceRef::Http(source.to_owned()));
    }
    let is_file = if n >= 7 {
        source.get_char(0) == 'f' && source.get_char(1) == 'i' && source.get_char(2) == 'l'
            && source.get_char(3) == 'e' && source.get_char(4) == ':' && source.get_char(5) == '/'
            && source.get_char(6) == '/'
    } else {
        false
    };
    if is_file {
        let path = source.substring_char(7, n);
        assert(path@ =~= source@.skip(7));
        return Ok(SourceRef::File(path.to_owned()));
    }
    Err(QueryError::UnsupportedSourceScheme(source.to_owned()))
}

} // verus!
