//! The out-of-band session-info document and its cache.
//!
//! The session-info blob is a separate byte region with its own update
//! counter in the header.  Its text is decoded with the legacy code page
//! and parsed as a structured document; the parse is memoized against the
//! counter so an unchanged document is never parsed twice, and every
//! caller of the cache shares one reference-counted copy.

use vstd::prelude::*;
use std::sync::Arc;
use yaml_rust::Yaml;
use crate::codepage::{cp1252_decode, cp1252_to_string};
use crate::error::TelemetryError;

verus! {

#[verifier::external_type_specification]
#[verifier::external_body]
pub struct ExYaml(Yaml);

/// What the structured-document parser yields for the given text: the
/// first document, or nothing when the text is malformed or holds no
/// document.  Parsing depends on the text alone.
pub uninterp spec fn session_document_of(text: Seq<char>) -> Option<Yaml>;

/// Relies on `yaml_rust::YamlLoader::load_from_str`: the parse is a
/// function of the text alone; a scan error or an empty document list
/// yields nothing, otherwise the first document is returned.
#[verifier::external_body]
fn load_first_document(text: &str) -> (r: Option<Yaml>)
    ensures
        r == session_document_of(text@),
{
    match yaml_rust::YamlLoader::load_from_str(text) {
        Ok(mut docs) => {
            if docs.is_empty() {
                None
            } else {
                Some(docs.swap_remove(0))
            }
        },
        Err(_) => None,
    }
}

/// Decode the session-info bytes with the legacy code page and parse the
/// text as a structured document.  An empty or malformed document is an
/// error, which callers tolerate without dropping the telemetry row.
pub fn parse_session_info(raw: &[u8]) -> (r: Result<Yaml, TelemetryError>)
    ensures
        r matches Ok(doc) ==> session_document_of(cp1252_decode(raw@)) == Some(doc),
        r is Err <==> session_document_of(cp1252_decode(raw@)) is None,
        r matches Err(e) ==> e == TelemetryError::SessionInfoUnavailable,
{
    let text = cp1252_to_string(raw);
    match load_first_document(text.as_str()) {
        Some(doc) => Ok(doc),
        None => Err(TelemetryError::SessionInfoUnavailable),
    }
}

/// The memoized session-info document, keyed by the header's update
/// counter.
pub struct SessionInfoCache {
    content: Option<(i32, Arc<Yaml>)>,
}

impl SessionInfoCache {
    /// The update counter the cached document was parsed from, if any.
    pub closed spec fn cached_counter(&self) -> Option<i32> {
        match self.content {
            Some((id, _)) => Some(id),
            None => None,
        }
    }

    /// The cached document, if any.
    pub closed spec fn cached_doc(&self) -> Option<Arc<Yaml>> {
        match self.content {
            Some((_, doc)) => Some(doc),
            None => None,
        }
    }

    /// An empty cache, holding no document.
    pub fn new() -> (r: SessionInfoCache)
        ensures
            r.cached_counter() is None,
            r.cached_doc() is None,
    {
        SessionInfoCache { content: None }
    }

    /// Whether the cached document was parsed from the given counter, so
    /// that no re-parse is needed.
    pub fn is_current(&self, counter: i32) -> (r: bool)
        ensures
            r == (self.cached_counter() == Some(counter)),
    {
        match &self.content {
            Some((id, _)) => *id == counter,
            None => false,
        }
    }

    /// The shared cached document; across two polls whose counters are
    /// equal this is the identical document, not a re-parse.
    pub fn cached(&self) -> (r: Option<Arc<Yaml>>)
        ensures
            r == self.cached_doc(),
    {
        match &self.content {
            Some((_, doc)) => Some(crate::shared::arc_clone(doc)),
            None => None,
        }
    }

    /// Parse fresh session-info bytes and remember the result under the
    /// given counter.  On failure the previous content is kept, so the
    /// next poll with a changed counter retries.
    pub fn refresh(&mut self, counter: i32, raw: &[u8]) -> (r: Result<(), TelemetryError>)
        ensures
            r is Ok <==> session_document_of(cp1252_decode(raw@)) is Some,
            r is Ok ==> final(self).cached_counter() == Some(counter) && (final(self).cached_doc()
                matches Some(doc) && (session_document_of(cp1252_decode(raw@)) matches Some(d) && d
                == doc)),
            r matches Err(e) ==> e == TelemetryError::SessionInfoUnavailable && *final(self)
                == *old(self),
    {
        match parse_session_info(raw) {
            Ok(doc) => {
                self.content = Some((counter, Arc::new(doc)));
                Ok(())
            },
            Err(e) => Err(e),
        }
    }
}

} // verus!
