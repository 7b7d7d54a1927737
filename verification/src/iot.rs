//! AWS IoT Core custom authorizer events.
//!
//! A custom authorizer answers with policy documents. AWS IoT rejects null
//! policy documents, so absent (`None`) entries are left out when the response
//! is serialized; the others keep their order.

use vstd::prelude::*;

verus! {

/// Declares `http::HeaderValue` so that header maps can be carried in fields;
/// nothing about its contents is assumed.
#[verifier::external_type_specification]
#[verifier::external_body]
pub struct ExHeaderValue(http::HeaderValue);

/// Declares `http::HeaderMap` so that the headers of an HTTP context can be
/// carried in a field; nothing about its contents is assumed.
#[verifier::external_type_specification]
#[verifier::external_body]
#[verifier::reject_recursive_types(T)]
pub struct ExHeaderMap<T>(http::HeaderMap<T>);

/// The request to an IoT Core custom authorizer.
pub struct IoTCoreCustomAuthorizerRequest {
    pub token: Option<String>,
    pub signature_verified: bool,
    pub protocols: Vec<String>,
    pub protocol_data: Option<IoTCoreProtocolData>,
    pub connection_metadata: Option<IoTCoreConnectionMetadata>,
}

/// The protocol data of a custom authorizer request.
pub struct IoTCoreProtocolData {
    pub tls: Option<IoTCoreTlsContext>,
    pub http: Option<IoTCoreHttpContext>,
    pub mqtt: Option<IoTCoreMqttContext>,
}

/// The TLS context of a custom authorizer request.
pub struct IoTCoreTlsContext {
    pub server_name: Option<String>,
    pub x509_certificate_pem: Option<String>,
    pub principal_id: Option<String>,
}

/// The HTTP context of a custom authorizer request.
pub struct IoTCoreHttpContext {
    pub headers: http::HeaderMap<http::HeaderValue>,
    pub query_string: Option<String>,
}

/// The MQTT context of a custom authorizer request. X.509 custom authorizer
/// requests carry no password; it is then empty.
pub struct IoTCoreMqttContext {
    pub client_id: Option<String>,
    pub password: Vec<u8>,
    pub username: Option<String>,
}

/// The connection metadata of a custom authorizer request.
pub struct IoTCoreConnectionMetadata {
    pub id: Option<String>,
}

/// The response of an IoT Core custom authorizer, with policy documents of
/// type `D`.
pub struct IoTCoreCustomAuthorizerResponse<D> {
    pub is_authenticated: bool,
    pub principal_id: Option<String>,
    pub disconnect_after_in_seconds: u32,
    pub refresh_after_in_seconds: u32,
    /// Policy documents returned to AWS IoT; `None` entries are omitted when
    /// serialized.
    pub policy_documents: Vec<Option<D>>,
}

/// The present entries of a sequence, in order.
pub open spec fn present_documents<D>(s: Seq<Option<D>>) -> Seq<D>
    decreases s.len(),
{
    if s.len() == 0 {
        Seq::empty()
    } else {
        let rest = present_documents(s.drop_last());
        match s.last() {
            Some(d) => rest.push(d),
            None => rest,
        }
    }
}

/// The present entries of a list of optional documents, in order.
pub fn present_policy_documents<D>(docs: &Vec<Option<D>>) -> (r: Vec<&D>)
    ensures
        r@.map_values(|x: &D| *x) == present_documents(docs@),
{
    let mut out: Vec<&D> = Vec::new();
    let n = docs.len();
    let mut i: usize = 0;
    while i < n
        invariant
            n == docs@.len(),
            i <= n,
            out@.map_values(|x: &D| *x) == present_documents(docs@.take(i as int)),
        decreases n - i,
    {
        assert(docs@.take(i + 1).drop_last() =~= docs@.take(i as int));
        let ghost before = out@;
        match &docs[i] {
            Some(d) => {
                out.push(d);
                assert(out@.map_values(|x: &D| *x) =~= before.map_values(|x: &D| *x).push(*d));
            },
            None => {},
        }
        i = i + 1;
    }
    assert(docs@.take(n as int) =~= docs@);
    out
}

impl<D> IoTCoreCustomAuthorizerResponse<D> {
    /// The policy documents as they are serialized: the present ones, in order.
    pub fn serialized_policy_documents(&self) -> (r: Vec<&D>)
        ensures
            r@.map_values(|x: &D| *x) == present_documents(self.policy_documents@),
    {
        present_policy_documents(&self.policy_documents)
    }
}

/// Law: leaving out the absent entries distributes over concatenation, so
/// present documents keep their relative order.
pub proof fn lemma_present_documents_append<D>(a: Seq<Option<D>>, b: Seq<Option<D>>)
    ensures
        present_documents(a + b) == present_documents(a) + present_documents(b),
    decreases b.len(),
{
    if b.len() == 0 {
        assert(a + b =~= a);
        assert(present_documents(a) + present_documents(b) =~= present_documents(a));
    } else {
        assert((a + b).drop_last() =~= a + b.drop_last());
        assert((a + b).last() == b.last());
        lemma_present_documents_append(a, b.drop_last());
        match b.last() {
            Some(d) => {
                assert(present_documents(a) + present_documents(b.drop_last()).push(d)
                    =~= (present_documents(a) + present_documents(b.drop_last())).push(d));
            },
            None => {},
        }
    }
}

/// Law: a response whose documents are all absent serializes no document.
pub proof fn lemma_absent_documents_vanish<D>(n: nat)
    ensures
        present_documents(Seq::new(n, |i: int| None::<D>)) == Seq::<D>::empty(),
    decreases n,
{
    if n > 0 {
        lemma_absent_documents_vanish::<D>((n - 1) as nat);
        assert(Seq::new(n, |i: int| None::<D>).drop_last() =~= Seq::new((n - 1) as nat, |i: int| None::<D>));
    }
}

/// Law: present documents are all kept, in order.
pub proof fn lemma_present_documents_kept<D>(docs: Seq<D>)
    ensures
        present_documents(docs.map_values(|d: D| Some(d))) == docs,
    decreases docs.len(),
{
    if docs.len() > 0 {
        lemma_present_documents_kept(docs.drop_last());
        assert(docs.map_values(|d: D| Some(d)).drop_last() =~= docs.drop_last().map_values(|d: D| Some(d)));
        assert(docs.drop_last().push(docs.last()) =~= docs);
    } else {
        assert(docs.map_values(|d: D| Some(d)) =~= Seq::<Option<D>>::empty());
        assert(docs =~= Seq::<D>::empty());
    }
}

} // verus!
