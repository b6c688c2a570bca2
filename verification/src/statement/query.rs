//! A statement given as text.

use crate::statement::Consistency;
use crate::transport::retry_policy::{share_template, RetryPolicyTemplate};
use std::sync::Arc;
use vstd::prelude::*;
use vstd::std_specs::convert::FromSpecImpl;

verus! {

/// A statement given as text, with how it is to be executed.
pub struct Query {
    contents: String,
    page_size: Option<i32>,
    /// The consistency level of the request.
    pub consistency: Consistency,
    /// Whether applying the statement more than once leaves the same state as
    /// applying it once. `false` means that this is not known.
    pub is_idempotent: bool,
    /// The retry policy of this statement, where it is not the session's.
    pub retry_policy: Option<Arc<dyn RetryPolicyTemplate>>,
}

/// What a [`Query`] says.
pub struct QueryView {
    pub contents: Seq<char>,
    pub page_size: Option<i32>,
    pub consistency: Consistency,
    pub is_idempotent: bool,
    /// The retry policy of this statement, where it is not the session's.
    pub retry_policy: Option<Arc<dyn RetryPolicyTemplate>>,
}

impl View for Query {
    type V = QueryView;

    closed spec fn view(&self) -> QueryView {
        QueryView {
            contents: self.contents@,
            page_size: self.page_size,
            consistency: self.consistency,
            is_idempotent: self.is_idempotent,
            retry_policy: self.retry_policy,
        }
    }
}

/// A statement as [`Query::new`] makes it from its text: unpaged, at the
/// default consistency level, not known to be idempotent, under the
/// session's retry policy.
pub open spec fn new_query(contents: Seq<char>) -> QueryView {
    QueryView {
        contents,
        page_size: None,
        consistency: Consistency::Quorum,
        is_idempotent: false,
        retry_policy: None,
    }
}

impl Query {
    /// A statement from its text.
    pub fn new(contents: String) -> (r: Self)
        ensures
            r@ == new_query(contents@),
    {
        Self {
            contents,
            page_size: None,
            consistency: Consistency::default(),
            is_idempotent: false,
            retry_policy: None,
        }
    }

    /// The text of the statement.
    pub fn get_contents(&self) -> (r: &str)
        ensures
            r@ == self@.contents,
    {
        self.contents.as_str()
    }

    /// Asks for the result in pages of `page_size` rows.
    pub fn set_page_size(&mut self, page_size: i32)
        requires
            page_size > 0,
        ensures
            final(self)@ == (QueryView { page_size: Some(page_size), ..old(self)@ }),
    {
        self.page_size = Some(page_size);
    }

    /// Asks for the result in one piece.
    pub fn disable_paging(&mut self)
        ensures
            final(self)@ == (QueryView { page_size: None, ..old(self)@ }),
    {
        self.page_size = None;
    }

    /// The number of rows in a page, if the result is paged.
    pub fn get_page_size(&self) -> (r: Option<i32>)
        ensures
            r == self@.page_size,
    {
        self.page_size
    }

    /// Sets the consistency level of the request.
    pub fn set_consistency(&mut self, c: Consistency)
        ensures
            final(self)@ == (QueryView { consistency: c, ..old(self)@ }),
    {
        self.consistency = c;
    }

    /// The consistency level of the request.
    pub fn get_consistency(&self) -> (r: Consistency)
        ensures
            r == self@.consistency,
    {
        self.consistency
    }

    /// Says whether the statement is known to be idempotent.
    pub fn set_is_idempotent(&mut self, is_idempotent: bool)
        ensures
            final(self)@ == (QueryView { is_idempotent, ..old(self)@ }),
    {
        self.is_idempotent = is_idempotent;
    }

    /// Whether the statement is known to be idempotent.
    pub fn get_is_idempotent(&self) -> (r: bool)
        ensures
            r == self@.is_idempotent,
    {
        self.is_idempotent
    }

    /// Gives the statement a retry policy of its own, or, with `None`, puts
    /// it under the session's again.
    pub fn set_retry_policy(&mut self, retry_policy: Option<Arc<dyn RetryPolicyTemplate>>)
        ensures
            final(self)@ == (QueryView {
                retry_policy,
                ..old(self)@
            }),
    {
        self.retry_policy = retry_policy;
    }

    /// The retry policy of the statement, where it has one of its own.
    pub fn get_retry_policy(&self) -> (r: &Option<Arc<dyn RetryPolicyTemplate>>)
        ensures
            *r == self@.retry_policy,
    {
        &self.retry_policy
    }
}

impl From<String> for Query {
    fn from(s: String) -> (r: Query)
        ensures
            r@ == new_query(s@),
    {
        Query::new(s)
    }
}

impl FromSpecImpl<String> for Query {
    open spec fn obeys_from_spec() -> bool {
        false
    }

    closed spec fn from_spec(s: String) -> Query {
        arbitrary()
    }
}

impl<'a> From<&'a str> for Query {
    fn from(s: &'a str) -> (r: Query)
        ensures
            r@ == new_query(s@),
    {
        Query::new(s.to_owned())
    }
}

impl<'a> FromSpecImpl<&'a str> for Query {
    open spec fn obeys_from_spec() -> bool {
        false
    }

    closed spec fn from_spec(s: &'a str) -> Query {
        arbitrary()
    }
}

impl Clone for Query {
    fn clone(&self) -> (r: Query)
        ensures
            r@ == self@,
    {
        let retry_policy = share_template(&self.retry_policy);
        Query {
            contents: self.contents.clone(),
            page_size: self.page_size,
            consistency: self.consistency,
            is_idempotent: self.is_idempotent,
            retry_policy,
        }
    }
}

} // verus!
