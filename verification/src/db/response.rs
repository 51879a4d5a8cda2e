//! The query response of the database client, as far as this crate reads it.
//!
//! `surrealdb::Response` keeps one result per statement, keyed by the
//! statement's index. Nothing in this module is proved: it states how the
//! two methods that the migration check calls behave.

use vstd::prelude::*;

verus! {

/// `surrealdb::Response`, of which nothing is looked into.
#[verifier::external_type_specification]
#[verifier::external_body]
pub struct ExResponse(surrealdb::Response);

/// What reading one statement's result as optional text gives: the text, nothing,
/// or the message of the error that the read ended with.
pub type TextOutcome = Result<Option<Seq<char>>, Seq<char>>;

/// The statements that `response` still holds, each with what reading it as
/// optional text gives.
pub uninterp spec fn response_texts(response: surrealdb::Response) -> Map<int, TextOutcome>;

/// A response that holds no statement.
pub open spec fn no_texts() -> Map<int, TextOutcome> {
    Map::empty()
}

/// Reading statement `index`: a statement that is not held reads as nothing.
pub open spec fn text_at(texts: Map<int, TextOutcome>, index: int) -> TextOutcome {
    if texts.dom().contains(index) {
        texts[index]
    } else {
        Ok(None)
    }
}

/// The view of an executable outcome.
pub open spec fn outcome_view(taken: Result<Option<String>, String>) -> TextOutcome {
    match taken {
        Ok(Some(text)) => Ok(Some(text@)),
        Ok(None) => Ok(None),
        Err(message) => Err(message@),
    }
}

/// `Response::num_statements`: the number of statements that the response
/// holds, which goes down as statements are taken from it.
#[verifier::external_body]
pub(crate) fn num_statements(response: &surrealdb::Response) -> (count: usize)
    ensures
        count == response_texts(*response).dom().len(),
{
    response.num_statements()
}

/// `Response::take::<Option<String>>` with a statement's index; an error is
/// given by its message. What comes back is what the response held for that
/// index, read as optional text, and nothing where it held no such statement.
/// After a call that succeeded the response holds what it held before, without
/// that statement. After one that failed it holds either that or, where the
/// statement had several rows, nothing at all.
#[verifier::external_body]
pub(crate) fn take_text(response: &mut surrealdb::Response, index: usize) -> (taken: Result<
    Option<String>,
    String,
>)
    ensures
        outcome_view(taken) == text_at(response_texts(*old(response)), index as int),
        taken is Ok ==> response_texts(*final(response)) == response_texts(*old(response)).remove(
            index as int,
        ),
        taken is Err ==> (response_texts(*final(response)) == response_texts(*old(response)).remove(
            index as int,
        ) || response_texts(*final(response)) == no_texts()),
{
    match response.take::<Option<String>>(index) {
        Ok(text) => Ok(text),
        Err(error) => Err(error.to_string()),
    }
}

} // verus!
