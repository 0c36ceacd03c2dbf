//! Choosing which NodeInfo document to fetch from an instance's well-known pointer.
use vstd::prelude::*;
use crate::http::same_text;

verus! {

#[verifier::external_type_specification]
#[verifier::external_body]
pub struct ExUrl(url::Url);

#[verifier::external_type_specification]
#[verifier::external_body]
pub struct ExParseError(url::ParseError);

/// Whether `url::Url::parse` accepts `s`.
pub uninterp spec fn url_parses(s: Seq<char>) -> bool;

/// Relies on `url::Url::parse`: it succeeds exactly on the strings it accepts as URLs, which
/// depends on the string alone.
#[verifier::external_body]
fn parse_url(s: &str) -> (r: Result<url::Url, url::ParseError>)
    ensures
        r is Ok <==> url_parses(s@),
{
    url::Url::parse(s)
}

/// One link of a NodeInfo pointer: the schema it follows and where the document is.
#[derive(Debug, PartialEq, Eq, Clone)]
pub struct NodeInfoPointerLink {
    pub rel: String,
    pub href: String,
}

/// The well-known NodeInfo document: links to the NodeInfo documents an instance offers.
#[derive(Debug, PartialEq, Eq, Clone)]
pub struct NodeInfoPointer {
    pub links: Vec<NodeInfoPointerLink>,
}

/// Why no NodeInfo document could be picked.
#[derive(Debug)]
pub enum NodeInfoError {
    /// No link follows a supported schema.
    NoSupportedVersion,
    /// The chosen link's target is not a URL.
    InvalidUrl(url::ParseError),
}

/// The priority of a supported NodeInfo schema, in ascending order of versions.
pub open spec fn schema_priority(rel: Seq<char>) -> Option<int> {
    if rel == "http://nodeinfo.diaspora.software/ns/schema/1.0"@ {
        Some(0)
    } else if rel == "http://nodeinfo.diaspora.software/ns/schema/1.1"@ {
        Some(1)
    } else if rel == "http://nodeinfo.diaspora.software/ns/schema/2.0"@ {
        Some(2)
    } else if rel == "http://nodeinfo.diaspora.software/ns/schema/2.1"@ {
        Some(3)
    } else {
        None
    }
}

/// The priority of the schema `rel`, if it is supported.
pub fn supported_schema_priority(rel: &str) -> (r: Option<u8>)
    ensures
        match r {
            Some(p) => schema_priority(rel@) == Some(p as int),
            None => schema_priority(rel@) is None,
        },
{
    if same_text(rel, "http://nodeinfo.diaspora.software/ns/schema/1.0") {
        Some(0)
    } else if same_text(rel, "http://nodeinfo.diaspora.software/ns/schema/1.1") {
        Some(1)
    } else if same_text(rel, "http://nodeinfo.diaspora.software/ns/schema/2.0") {
        Some(2)
    } else if same_text(rel, "http://nodeinfo.diaspora.software/ns/schema/2.1") {
        Some(3)
    } else {
        None
    }
}

/// The priority of link `i`, if its schema is supported.
pub open spec fn link_priority(links: Seq<NodeInfoPointerLink>, i: int) -> Option<int> {
    schema_priority(links[i].rel@)
}

/// Whether link `i` has the highest supported schema, and is the last such link.
pub open spec fn is_highest_link(links: Seq<NodeInfoPointerLink>, i: int) -> bool {
    &&& 0 <= i < links.len()
    &&& link_priority(links, i) is Some
    &&& forall|j: int|
        0 <= j < links.len() && #[trigger] link_priority(links, j) is Some ==> link_priority(
            links,
            j,
        )->Some_0 <= link_priority(links, i)->Some_0
    &&& forall|j: int|
        i < j < links.len() && #[trigger] link_priority(links, j) is Some ==> link_priority(
            links,
            j,
        )->Some_0 < link_priority(links, i)->Some_0
}

/// The link with the highest supported schema; of several such links, the last one.
pub fn highest_supported_link(links: &Vec<NodeInfoPointerLink>) -> (r: Option<usize>)
    ensures
        match r {
            Some(i) => is_highest_link(links@, i as int),
            None => forall|j: int| 0 <= j < links@.len() ==> #[trigger] link_priority(links@, j) is None,
        },
{
    let mut best: Option<usize> = None;
    let mut best_priority: u8 = 0;
    let mut i: usize = 0;
    while i < links.len()
        invariant
            0 <= i <= links@.len(),
            match best {
                Some(b) => {
                    &&& b < i
                    &&& link_priority(links@, b as int) == Some(best_priority as int)
                    &&& forall|j: int|
                        0 <= j < i && #[trigger] link_priority(links@, j) is Some ==> link_priority(
                            links@,
                            j,
                        )->Some_0 <= best_priority
                    &&& forall|j: int|
                        b < j < i && #[trigger] link_priority(links@, j) is Some ==> link_priority(
                            links@,
                            j,
                        )->Some_0 < best_priority
                },
                None => forall|j: int| 0 <= j < i ==> #[trigger] link_priority(links@, j) is None,
            },
        decreases links@.len() - i,
    {
        match supported_schema_priority(links[i].rel.as_str()) {
            Some(p) => {
                let better = match best {
                    None => true,
                    Some(_) => p >= best_priority,
                };
                if better {
                    best = Some(i);
                    best_priority = p;
                }
            },
            None => {},
        }
        i += 1;
    }
    best
}

/// The URL of the NodeInfo document with the highest supported schema version.
pub fn pick_highest_supported_nodeinfo_version(pointer: &NodeInfoPointer) -> (r: Result<
    url::Url,
    NodeInfoError,
>)
    ensures
        (forall|j: int|
            0 <= j < pointer.links@.len() ==> #[trigger] link_priority(pointer.links@, j) is None)
            <==> r is Err && r->Err_0 is NoSupportedVersion,
        r is Ok ==> exists|i: int|
            is_highest_link(pointer.links@, i) && url_parses(
                (#[trigger] pointer.links@[i]).href@,
            ),
        (r is Err && r->Err_0 is InvalidUrl) ==> exists|i: int|
            is_highest_link(pointer.links@, i) && !url_parses(
                (#[trigger] pointer.links@[i]).href@,
            ),
{
    match highest_supported_link(&pointer.links) {
        None => Err(NodeInfoError::NoSupportedVersion),
        Some(i) => {
            match parse_url(pointer.links[i].href.as_str()) {
                Ok(u) => Ok(u),
                Err(e) => Err(NodeInfoError::InvalidUrl(e)),
            }
        },
    }
}

} // verus!
