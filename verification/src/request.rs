//! The outgoing request: a fixed method and target, the content-type header,
//! the preconfigured custom headers merged in after it, and the payload bytes
//! as the body.

use vstd::prelude::*;

use crate::encode::EncodedPayload;

verus! {

/// One HTTP-shaped request, held as plain values; the transport turns it
/// into its own request type at the network boundary.
pub struct OutgoingRequest {
    /// The request method; always `POST`.
    pub method: String,
    /// The fixed collector endpoint the exporter was constructed with.
    pub uri: String,
    /// All headers, in the order they were set.
    pub headers: Vec<(String, String)>,
    /// The encoded payload.
    pub body: Vec<u8>,
}

/// The name of the content-type header.
pub open spec fn content_type_name() -> Seq<char> {
    "content-type"@
}

/// The header list of an outgoing request: the content-type header first,
/// then every preconfigured custom header, in configuration order.
pub open spec fn merged_header_views(
    content_type: Seq<char>,
    custom: Seq<(Seq<char>, Seq<char>)>,
) -> Seq<(Seq<char>, Seq<char>)> {
    seq![(content_type_name(), content_type)] + custom
}

/// The value a header list gives a name: that of the last entry carrying the
/// name, so that later entries win over earlier ones.
pub open spec fn header_value(
    headers: Seq<(Seq<char>, Seq<char>)>,
    name: Seq<char>,
) -> Option<Seq<char>>
    decreases headers.len(),
{
    if headers.len() == 0 {
        None
    } else if headers.last().0 == name {
        Some(headers.last().1)
    } else {
        header_value(headers.drop_last(), name)
    }
}

/// Law: merging keeps every custom header: each one stands in the merged
/// list right after the content-type entry, in configuration order.
pub proof fn lemma_custom_headers_kept(
    content_type: Seq<char>,
    custom: Seq<(Seq<char>, Seq<char>)>,
    i: int,
)
    requires
        0 <= i < custom.len(),
    ensures
        merged_header_views(content_type, custom)[0] == (content_type_name(), content_type),
        merged_header_views(content_type, custom)[i + 1] == custom[i],
        merged_header_views(content_type, custom).contains(custom[i]),
{
    let merged = merged_header_views(content_type, custom);
    assert(merged.contains(custom[i])) by {
        assert(merged[i + 1] == custom[i]);
    }
}

/// Law: custom headers take precedence: for a name that some custom header
/// carries, the merged list answers exactly as the custom headers alone do,
/// with the last entry winning — also when the name is `content-type`.
pub proof fn lemma_custom_headers_take_precedence(
    content_type: Seq<char>,
    custom: Seq<(Seq<char>, Seq<char>)>,
    name: Seq<char>,
)
    requires
        exists|i: int| 0 <= i < custom.len() && custom[i].0 == name,
    ensures
        header_value(merged_header_views(content_type, custom), name) == header_value(
            custom,
            name,
        ),
    decreases custom.len(),
{
    let merged = merged_header_views(content_type, custom);
    let i = choose|i: int| 0 <= i < custom.len() && custom[i].0 == name;
    assert(merged.last() == custom.last());
    if custom.last().0 == name {
    } else {
        assert(i < custom.len() - 1);
        assert(custom.drop_last()[i] == custom[i]);
        assert(merged.drop_last() =~= merged_header_views(content_type, custom.drop_last()));
        lemma_custom_headers_take_precedence(content_type, custom.drop_last(), name);
    }
}

/// Law: the content-type header answers for its name whenever no custom
/// header carries that name, so merging never loses the payload's format.
pub proof fn lemma_content_type_answers_when_not_overridden(
    content_type: Seq<char>,
    custom: Seq<(Seq<char>, Seq<char>)>,
)
    requires
        forall|i: int| 0 <= i < custom.len() ==> custom[i].0 != content_type_name(),
    ensures
        header_value(merged_header_views(content_type, custom), content_type_name()) == Some(
            content_type,
        ),
    decreases custom.len(),
{
    let merged = merged_header_views(content_type, custom);
    if custom.len() == 0 {
        assert(merged.last() == (content_type_name(), content_type));
    } else {
        assert(merged.last() == custom.last());
        assert(custom.last().0 != content_type_name());
        assert(merged.drop_last() =~= merged_header_views(content_type, custom.drop_last()));
        assert(forall|i: int|
            0 <= i < custom.drop_last().len() ==> custom.drop_last()[i] == custom[i]);
        lemma_content_type_answers_when_not_overridden(content_type, custom.drop_last());
    }
}

/// Builds the outgoing request for one export call: method `POST`, the fixed
/// endpoint, the content-type header of the payload followed by every custom
/// header, and the payload bytes as the body.
pub fn build_request(
    endpoint: &String,
    payload: EncodedPayload,
    custom: &Vec<(String, String)>,
) -> (r: OutgoingRequest)
    ensures
        r.method@ == "POST"@,
        r.uri == *endpoint,
        r.body == payload.bytes,
        r.headers.deep_view() == merged_header_views(payload.content_type@, custom.deep_view()),
        r.headers@.len() == custom@.len() + 1,
        r.headers@[0].1 == payload.content_type,
        forall|i: int| 0 <= i < custom@.len() ==> r.headers@[i + 1] == custom@[i],
{
    let mut headers: Vec<(String, String)> = Vec::new();
    headers.push((String::from_str("content-type"), payload.content_type));
    let ghost merged = merged_header_views(payload.content_type@, custom.deep_view());
    let mut i: usize = 0;
    while i < custom.len()
        invariant
            0 <= i <= custom@.len(),
            headers@.len() == i + 1,
            headers@[0].0@ == content_type_name(),
            headers@[0].1 == payload.content_type,
            forall|j: int| 0 <= j < i ==> headers@[j + 1] == custom@[j],
        decreases custom@.len() - i,
    {
        let pair = &custom[i];
        headers.push((pair.0.clone(), pair.1.clone()));
        i = i + 1;
    }
    proof {
        assert(headers.deep_view() =~= merged);
    }
    OutgoingRequest {
        method: String::from_str("POST"),
        uri: endpoint.clone(),
        headers,
        body: payload.bytes,
    }
}

} // verus!
