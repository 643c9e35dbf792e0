//! The check, at start-up, that the broker serves every API version this
//! client speaks.
use crate::api_client::ApiRequestError;
use crate::protocol_request::KafkaApiVersioned;
use crate::protocol_requests::alterconfigs_request::AlterConfigsRequest;
use crate::protocol_requests::createtopics_request::CreateTopicsRequest;
use crate::protocol_requests::deletetopics_request::DeleteTopicsRequest;
use crate::protocol_requests::describeconfigs_request::DescribeConfigsRequest;
use crate::protocol_requests::findcoordinator_request::FindCoordinatorRequest;
use crate::protocol_requests::listoffsets_request::ListOffsetsRequest;
use crate::protocol_requests::metadata_request::MetadataRequest;
use crate::protocol_requests::offsetfetch_request::OffsetFetchRequest;
use crate::protocol_response::Response;
use crate::protocol_responses::apiversions_response::ApiVersion;
use crate::protocol_responses::apiversions_response::ApiVersionModel;
use crate::protocol_responses::apiversions_response::ApiVersionResponse;
use vstd::prelude::*;

verus! {

/// Why the broker cannot be used.
#[derive(Debug)]
pub enum ApiVerificationFailure {
    NoVerification(String),
    ApiNotSupported(i16),
    ApiVersionNotSupported(i16, i16),
}

/// An API key and the version of it that this client sends.
#[derive(Clone, Copy, Debug, PartialEq, Eq)]
pub struct ApiVersionQuery(pub i16, pub i16);

/// The first entry the broker lists for `api_key`.
pub open spec fn find_version(vs: Seq<ApiVersionModel>, api_key: i16) -> Option<ApiVersionModel>
    decreases vs.len(),
{
    if vs.len() == 0 {
        None
    } else if vs[0].api_key == api_key {
        Some(vs[0])
    } else {
        find_version(vs.drop_first(), api_key)
    }
}

/// What is wrong with one query, if anything: its API is not listed, or its
/// version lies outside the listed range.
pub open spec fn query_failure(vs: Seq<ApiVersionModel>, q: ApiVersionQuery) -> Option<(bool, i16, i16)> {
    match find_version(vs, q.0) {
        None => Some((false, q.0, q.1)),
        Some(v) => if v.min_version <= q.1 && q.1 <= v.max_version {
            None
        } else {
            Some((true, q.0, q.1))
        },
    }
}

/// The failures of the queries, in the queries' order. `(false, k, _)` is an
/// API that is not served, `(true, k, v)` a version that is not.
pub open spec fn query_failures(vs: Seq<ApiVersionModel>, qs: Seq<ApiVersionQuery>) -> Seq<(bool, i16, i16)>
    decreases qs.len(),
{
    if qs.len() == 0 {
        seq![]
    } else {
        query_failures(vs, qs.drop_last()) + match query_failure(vs, qs.last()) {
            Some(f) => seq![f],
            None => seq![],
        }
    }
}

/// `f` reports the triple `t`.
pub open spec fn reports(f: ApiVerificationFailure, t: (bool, i16, i16)) -> bool {
    match f {
        ApiVerificationFailure::ApiNotSupported(k) => !t.0 && k == t.1,
        ApiVerificationFailure::ApiVersionNotSupported(k, v) => t.0 && k == t.1 && v == t.2,
        ApiVerificationFailure::NoVerification(_) => false,
    }
}

/// `fs` reports the triples `ts`, one for one and in order.
pub open spec fn reports_all(fs: Seq<ApiVerificationFailure>, ts: Seq<(bool, i16, i16)>) -> bool {
    fs.len() == ts.len() && forall|i: int| 0 <= i < fs.len() ==> reports(#[trigger] fs[i], ts[i])
}

fn find_api_version(api_versions: &Vec<ApiVersion>, api_key: i16) -> (r: Option<usize>)
    ensures
        match r {
            Some(i) => i < api_versions@.len() && find_version(api_versions.deep_view(), api_key)
                == Some(api_versions.deep_view()[i as int]),
            None => find_version(api_versions.deep_view(), api_key) is None,
        },
{
    let ghost vs = api_versions.deep_view();
    let mut i: usize = 0;
    assert(vs.skip(0) =~= vs);
    while i < api_versions.len()
        invariant
            i <= api_versions@.len(),
            vs == api_versions.deep_view(),
            find_version(vs, api_key) == find_version(vs.skip(i as int), api_key),
        decreases api_versions@.len() - i,
    {
        assert(vs.skip(i as int)[0] == vs[i as int]);
        if api_versions[i].api_key == api_key {
            return Some(i);
        }
        assert(vs.skip(i as int).drop_first() =~= vs.skip(i + 1));
        i = i + 1;
    }
    None
}

/// Checks every query against the versions the broker lists, and returns
/// the failures in the queries' order.
pub fn verify_api_versions(api_versions: &Vec<ApiVersion>, queries: &Vec<ApiVersionQuery>) -> (r: Vec<
    ApiVerificationFailure,
>)
    ensures
        reports_all(r@, query_failures(api_versions.deep_view(), queries@)),
{
    let ghost vs = api_versions.deep_view();
    let mut out: Vec<ApiVerificationFailure> = Vec::new();
    let mut i: usize = 0;
    while i < queries.len()
        invariant
            i <= queries@.len(),
            vs == api_versions.deep_view(),
            reports_all(out@, query_failures(vs, queries@.take(i as int))),
        decreases queries@.len() - i,
    {
        let q = queries[i];
        let ghost before = out@;
        assert(queries@.take(i + 1).drop_last() =~= queries@.take(i as int));
        assert(queries@.take(i + 1).last() == q);
        match find_api_version(api_versions, q.0) {
            None => {
                out.push(ApiVerificationFailure::ApiNotSupported(q.0));
            },
            Some(j) => {
                let v = &api_versions[j];
                if !(v.min_version <= q.1 && q.1 <= v.max_version) {
                    out.push(ApiVerificationFailure::ApiVersionNotSupported(q.0, q.1));
                }
            },
        }
        proof {
            let ts = query_failures(vs, queries@.take(i + 1));
            assert(forall|k: int| 0 <= k < before.len() ==> out@[k] == before[k]);
            assert(reports_all(out@, ts));
        }
        i = i + 1;
    }
    assert(queries@.take(queries@.len() as int) =~= queries@);
    out
}

/// The outcome of the check, given what the ApiVersions call returned: the
/// failures of the queries, or the call's own failure as the single
/// `NoVerification`. No failure at all is `Ok`.
pub fn apply(
    result: Result<Response<ApiVersionResponse>, ApiRequestError>,
    queries: &Vec<ApiVersionQuery>,
) -> (r: Result<(), Vec<ApiVerificationFailure>>)
    ensures
        match result {
            Ok(resp) => {
                let ts = query_failures(resp.response_message.api_versions.deep_view(), queries@);
                match r {
                    Ok(()) => ts.len() == 0,
                    Err(fs) => ts.len() > 0 && reports_all(fs@, ts),
                }
            },
            Err(e) => match r {
                Err(fs) => fs@.len() == 1 && (match fs@[0] {
                    ApiVerificationFailure::NoVerification(m) => m@ == e.error@,
                    _ => false,
                }),
                Ok(()) => false,
            },
        },
{
    match result {
        Ok(response) => {
            let failures = verify_api_versions(&response.response_message.api_versions, queries);
            if failures.len() == 0 {
                Ok(())
            } else {
                Err(failures)
            }
        },
        Err(err) => Err(vec![ApiVerificationFailure::NoVerification(err.error)]),
    }
}

/// The API key and version of every request this client sends.
pub fn apis_in_use() -> (r: Vec<ApiVersionQuery>)
    ensures
        r@ == seq![
            ApiVersionQuery(33, 0),
            ApiVersionQuery(20, 1),
            ApiVersionQuery(32, 1),
            ApiVersionQuery(10, 1),
            ApiVersionQuery(2, 2),
            ApiVersionQuery(3, 5),
            ApiVersionQuery(9, 3),
            ApiVersionQuery(19, 1),
        ],
{
    let r = vec![
        ApiVersionQuery(AlterConfigsRequest::api_key(), AlterConfigsRequest::version()),
        ApiVersionQuery(DeleteTopicsRequest::api_key(), DeleteTopicsRequest::version()),
        ApiVersionQuery(DescribeConfigsRequest::api_key(), DescribeConfigsRequest::version()),
        ApiVersionQuery(FindCoordinatorRequest::api_key(), FindCoordinatorRequest::version()),
        ApiVersionQuery(ListOffsetsRequest::api_key(), ListOffsetsRequest::version()),
        ApiVersionQuery(MetadataRequest::api_key(), MetadataRequest::version()),
        ApiVersionQuery(OffsetFetchRequest::api_key(), OffsetFetchRequest::version()),
        ApiVersionQuery(CreateTopicsRequest::api_key(), CreateTopicsRequest::version()),
    ];
    assert(r@ =~= seq![
        ApiVersionQuery(33, 0),
        ApiVersionQuery(20, 1),
        ApiVersionQuery(32, 1),
        ApiVersionQuery(10, 1),
        ApiVersionQuery(2, 2),
        ApiVersionQuery(3, 5),
        ApiVersionQuery(9, 3),
        ApiVersionQuery(19, 1),
    ]);
    r
}

} // verus!
