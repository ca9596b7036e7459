//! Logical query requests: what a caller asks an index to retrieve. Query
//! planning, provider selection and execution are outside this contract.

use crate::identity::index::IndexId;
use crate::index::key::{
    copy_option, key_check, option_check, option_value, validate_option, KeyFault, KeyMaterial,
    KeyMaterialValidationError, KeyValue,
};
use vstd::prelude::*;
use crate::message::push_text;
use vstd::std_specs::cmp::PartialEqSpecImpl;

verus! {

/// Validation failures for [`QueryRequest`].
#[derive(Debug, Eq)]
pub enum QueryRequestValidationError {
    /// The query material is invalid.
    InvalidQueryMaterial(KeyMaterialValidationError),
    /// The caller-supplied metadata is invalid.
    InvalidMetadata(KeyMaterialValidationError),
}

/// Value of a [`QueryRequestValidationError`].
pub enum QueryFault {
    QueryMaterial(KeyFault),
    Metadata(KeyFault),
}

impl View for QueryRequestValidationError {
    type V = QueryFault;

    open spec fn view(&self) -> QueryFault {
        match self {
            QueryRequestValidationError::InvalidQueryMaterial(e) => QueryFault::QueryMaterial(e@),
            QueryRequestValidationError::InvalidMetadata(e) => QueryFault::Metadata(e@),
        }
    }
}

impl Clone for QueryRequestValidationError {
    fn clone(&self) -> (r: Self)
        ensures
            r@ == self@,
    {
        match self {
            QueryRequestValidationError::InvalidQueryMaterial(e) => QueryRequestValidationError::InvalidQueryMaterial(e.clone()),
            QueryRequestValidationError::InvalidMetadata(e) => QueryRequestValidationError::InvalidMetadata(e.clone()),
        }
    }
}

impl PartialEq for QueryRequestValidationError {
    fn eq(&self, other: &Self) -> (r: bool) {
        match (self, other) {
            (QueryRequestValidationError::InvalidQueryMaterial(a), QueryRequestValidationError::InvalidQueryMaterial(b)) => *a == *b,
            (QueryRequestValidationError::InvalidMetadata(a), QueryRequestValidationError::InvalidMetadata(b)) => *a == *b,
            _ => false,
        }
    }
}

impl PartialEqSpecImpl for QueryRequestValidationError {
    open spec fn obeys_eq_spec() -> bool {
        true
    }

    open spec fn eq_spec(&self, other: &Self) -> bool {
        self@ == other@
    }
}

/// Outcome of validating a query request: the query material first, then
/// the metadata.
pub open spec fn query_request_check(query: KeyValue, metadata: Option<KeyValue>) -> Result<(), QueryFault> {
    match key_check(query) {
        Err(e) => Err(QueryFault::QueryMaterial(e)),
        Ok(()) => match option_check(metadata) {
            Err(e) => Err(QueryFault::Metadata(e)),
            Ok(()) => Ok(()),
        },
    }
}

/// Value of a [`QueryRequest`].
pub struct QueryRequestView {
    pub index_id: Seq<u8>,
    pub query: KeyValue,
    pub limit: Option<usize>,
    pub metadata: Option<KeyValue>,
}

/// A provider-neutral request to retrieve from one index: generic query
/// material, an optional non-zero result-count limit and optional caller
/// metadata.
#[derive(Debug, PartialEq, Eq)]
pub struct QueryRequest {
    index_id: IndexId,
    query: KeyMaterial,
    limit: Option<usize>,
    metadata: Option<KeyMaterial>,
}

impl View for QueryRequest {
    type V = QueryRequestView;

    closed spec fn view(&self) -> QueryRequestView {
        QueryRequestView {
            index_id: self.index_id@,
            query: self.query@,
            limit: self.limit,
            metadata: option_value(self.metadata),
        }
    }
}

impl QueryRequest {
    #[verifier::type_invariant]
    spec fn well_formed(self) -> bool {
        &&& query_request_check(self.query@, option_value(self.metadata)) is Ok
        &&& self.limit != Some(0usize)
    }
}

impl Clone for QueryRequest {
    fn clone(&self) -> (r: Self)
        ensures
            r@ == self@,
    {
        proof {
            use_type_invariant(self);
        }
        QueryRequest {
            index_id: self.index_id,
            query: self.query.clone(),
            limit: self.limit,
            metadata: copy_option(&self.metadata),
        }
    }
}

fn validate_request(query: &KeyMaterial, metadata: &Option<KeyMaterial>) -> (r: Result<(), QueryRequestValidationError>)
    ensures
        r is Ok <==> query_request_check(query@, option_value(*metadata)) is Ok,
        r matches Err(e) ==> query_request_check(query@, option_value(*metadata)) == Err::<(), QueryFault>(e@),
{
    match query.validate() {
        Err(e) => {
            return Err(QueryRequestValidationError::InvalidQueryMaterial(e));
        },
        Ok(()) => {},
    }
    match validate_option(metadata) {
        Err(e) => Err(QueryRequestValidationError::InvalidMetadata(e)),
        Ok(()) => Ok(()),
    }
}

impl QueryRequest {
    /// Constructs a request with no limit and no metadata; the query
    /// material must validate.
    pub fn new(index_id: IndexId, query: KeyMaterial) -> (r: Result<Self, QueryRequestValidationError>)
        ensures
            r is Ok <==> key_check(query@) is Ok,
            r matches Ok(q) ==> q@ == (QueryRequestView { index_id: index_id@, query: query@, limit: None, metadata: None }),
            r matches Err(e) ==> query_request_check(query@, None) == Err::<(), QueryFault>(e@),
    {
        Self::with_options(index_id, query, None, None)
    }

    /// Constructs a request with an optional non-zero limit and optional
    /// metadata; the query material, then the metadata, must validate.
    pub fn with_options(
        index_id: IndexId,
        query: KeyMaterial,
        limit: Option<usize>,
        metadata: Option<KeyMaterial>,
    ) -> (r: Result<Self, QueryRequestValidationError>)
        requires
            limit != Some(0usize),
        ensures
            r is Ok <==> query_request_check(query@, option_value(metadata)) is Ok,
            r matches Ok(q) ==> q@ == (QueryRequestView {
                index_id: index_id@,
                query: query@,
                limit,
                metadata: option_value(metadata),
            }),
            r matches Err(e) ==> query_request_check(query@, option_value(metadata)) == Err::<(), QueryFault>(e@),
    {
        match validate_request(&query, &metadata) {
            Err(e) => Err(e),
            Ok(()) => Ok(QueryRequest { index_id, query, limit, metadata }),
        }
    }

    /// Returns the identity of the queried index.
    pub fn index_id(&self) -> (r: &IndexId)
        ensures
            r@ == self@.index_id,
    {
        &self.index_id
    }

    /// Returns the query material.
    pub fn query(&self) -> (r: &KeyMaterial)
        ensures
            r@ == self@.query,
    {
        &self.query
    }

    /// Returns the optional result-count limit; it is never zero.
    pub fn limit(&self) -> (r: Option<usize>)
        ensures
            r == self@.limit,
            r != Some(0usize),
    {
        proof {
            use_type_invariant(self);
        }
        self.limit
    }

    /// Returns the caller-supplied metadata, if any.
    pub fn metadata(&self) -> (r: Option<&KeyMaterial>)
        ensures
            match r {
                Some(m) => self@.metadata == Some(m@),
                None => self@.metadata is None,
            },
    {
        match &self.metadata {
            Some(m) => Some(m),
            None => None,
        }
    }

    /// Validates the request: the query material, then the metadata. A
    /// constructed request always passes.
    pub fn validate(&self) -> (r: Result<(), QueryRequestValidationError>)
        ensures
            r is Ok <==> query_request_check(self@.query, self@.metadata) is Ok,
            r matches Err(e) ==> query_request_check(self@.query, self@.metadata) == Err::<(), QueryFault>(e@),
            r is Ok,
    {
        proof {
            use_type_invariant(self);
        }
        validate_request(&self.query, &self.metadata)
    }

    /// Consumes the request and returns its components.
    pub fn into_parts(self) -> (r: (IndexId, KeyMaterial, Option<usize>, Option<KeyMaterial>))
        ensures
            r.0@ == self@.index_id,
            r.1@ == self@.query,
            r.2 == self@.limit,
            option_value(r.3) == self@.metadata,
            r.2 != Some(0usize),
    {
        proof {
            use_type_invariant(&self);
        }
        (self.index_id, self.query, self.limit, self.metadata)
    }
}

/// Message of a query-request validation failure.
pub open spec fn query_error_message(e: QueryFault) -> Seq<char> {
    match e {
        QueryFault::QueryMaterial(f) => "invalid query material: "@ + crate::index::key::key_error_message(f),
        QueryFault::Metadata(f) => "invalid query metadata: "@ + crate::index::key::key_error_message(f),
    }
}

impl QueryRequestValidationError {
    /// Returns the failure message.
    pub fn to_string(&self) -> (s: String)
        ensures
            s@ == query_error_message(self@),
    {
        let mut s = String::new();
        match self {
            QueryRequestValidationError::InvalidQueryMaterial(f) => {
                push_text(&mut s, "invalid query material: ");
                let nested = f.to_string();
                push_text(&mut s, nested.as_str());
            },
            QueryRequestValidationError::InvalidMetadata(f) => {
                push_text(&mut s, "invalid query metadata: ");
                let nested = f.to_string();
                push_text(&mut s, nested.as_str());
            },
        }
        assert(s@ =~= query_error_message(self@));
        s
    }
}

/// Which metric of a retrieval hit was rejected.
#[derive(Clone, Copy, Debug, PartialEq, Eq, Structural)]
pub enum MetricKind {
    /// The score metric.
    Score,
    /// The distance metric.
    Distance,
}

/// The lower-case name of a metric.
pub open spec fn metric_name(kind: MetricKind) -> Seq<char> {
    match kind {
        MetricKind::Score => "score"@,
        MetricKind::Distance => "distance"@,
    }
}

impl MetricKind {
    /// Returns the lower-case name of the metric.
    pub fn to_string(&self) -> (s: String)
        ensures
            s@ == metric_name(*self),
    {
        match self {
            MetricKind::Score => "score".to_owned(),
            MetricKind::Distance => "distance".to_owned(),
        }
    }
}

} // verus!
