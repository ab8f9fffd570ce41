//! Credit checks: the errors a credit service reports, the decision taken on each
//! answer of the service, and the approval rule.

use crate::decimal::{decimal, push_decimal, push_signed_decimal, signed_decimal};
use vstd::prelude::*;

verus! {

/// The least score that an application is approved with.
pub const ELIGIBLE_CREDIT_SCORE: i32 = 600;

/// How many times an unavailable service is asked again.
pub const MAX_RETRIES: u32 = 3;

/// What can go wrong while checking a credit score.
#[derive(Debug, Clone, PartialEq, Eq)]
pub enum CreditScoreError {
    /// No score for this account.
    NotFound(String),
    /// The service cannot answer now; ask again after this many seconds.
    ServiceUnavailable { retry_after_secs: u64 },
    /// The score is below `ELIGIBLE_CREDIT_SCORE`.
    LowScore(i32),
    /// The service's database failed.
    DatabaseError(String),
}

pub open spec fn credit_error_text(e: CreditScoreError) -> Seq<char> {
    match e {
        CreditScoreError::NotFound(id) => "Credit score not found for account ID: "@ + id@,
        CreditScoreError::ServiceUnavailable { retry_after_secs } => "Credit service unavailable. Retry after "@
            + decimal(retry_after_secs as nat) + " seconds"@,
        CreditScoreError::LowScore(score) => "Credit score too low: "@ + signed_decimal(score as int)
            + ". Minimum required: "@ + decimal(ELIGIBLE_CREDIT_SCORE as nat),
        CreditScoreError::DatabaseError(msg) => "Database error: "@ + msg@,
    }
}

impl CreditScoreError {
    /// The text shown to a user for this error.
    pub fn message(&self) -> (r: String)
        ensures
            r@ == credit_error_text(*self),
    {
        match self {
            CreditScoreError::NotFound(account_id) => {
                let mut text = String::from_str("Credit score not found for account ID: ");
                text.append(account_id.as_str());
                text
            },
            CreditScoreError::ServiceUnavailable { retry_after_secs } => {
                let mut text = String::from_str("Credit service unavailable. Retry after ");
                push_decimal(&mut text, *retry_after_secs);
                text.append(" seconds");
                text
            },
            CreditScoreError::LowScore(score) => {
                let mut text = String::from_str("Credit score too low: ");
                push_signed_decimal(&mut text, *score);
                text.append(". Minimum required: ");
                push_decimal(&mut text, ELIGIBLE_CREDIT_SCORE as u64);
                text
            },
            CreditScoreError::DatabaseError(msg) => {
                let mut text = String::from_str("Database error: ");
                text.append(msg.as_str());
                text
            },
        }
    }
}

/// What to do after one answer of the credit service.
#[derive(Debug, PartialEq, Eq)]
pub enum CreditStep {
    /// The check is over, with this outcome.
    Done(Result<i32, CreditScoreError>),
    /// Wait a moment and ask the service again, with the retry count one higher.
    Retry,
}

/// The decision on one answer of the credit service for `account_owner`. The answer is
/// `outcome` (0: a score, which is `score`; 1: no such account; 2: unavailable for now;
/// 3: database failure; anything else: unavailable), after `retry_count` retries.
pub fn credit_score_step(account_owner: &str, outcome: u32, score: i32, retry_count: u32) -> (r:
    CreditStep)
    ensures
        outcome == 0 ==> r == CreditStep::Done(Ok(score)),
        outcome == 1 ==> (r matches CreditStep::Done(Err(CreditScoreError::NotFound(id)))
            && id@ == account_owner@),
        outcome == 2 && retry_count < MAX_RETRIES ==> r == CreditStep::Retry,
        outcome == 2 && retry_count >= MAX_RETRIES ==> r == CreditStep::Done(
            Err(CreditScoreError::ServiceUnavailable { retry_after_secs: 60 }),
        ),
        outcome == 3 ==> (r matches CreditStep::Done(Err(CreditScoreError::DatabaseError(m)))
            && m@ == "Connection timeout"@),
        outcome > 3 ==> r == CreditStep::Done(
            Err(CreditScoreError::ServiceUnavailable { retry_after_secs: 30 }),
        ),
{
    if outcome == 0 {
        CreditStep::Done(Ok(score))
    } else if outcome == 1 {
        CreditStep::Done(Err(CreditScoreError::NotFound(account_owner.to_owned())))
    } else if outcome == 2 {
        if retry_count < MAX_RETRIES {
            CreditStep::Retry
        } else {
            CreditStep::Done(Err(CreditScoreError::ServiceUnavailable { retry_after_secs: 60 }))
        }
    } else if outcome == 3 {
        CreditStep::Done(
            Err(CreditScoreError::DatabaseError(String::from_str("Connection timeout"))),
        )
    } else {
        CreditStep::Done(Err(CreditScoreError::ServiceUnavailable { retry_after_secs: 30 }))
    }
}

/// Approves a score of at least `ELIGIBLE_CREDIT_SCORE`.
pub fn approve_score(score: i32) -> (r: Result<(), CreditScoreError>)
    ensures
        score >= ELIGIBLE_CREDIT_SCORE ==> r is Ok,
        score < ELIGIBLE_CREDIT_SCORE ==> r == Err::<(), CreditScoreError>(
            CreditScoreError::LowScore(score),
        ),
{
    if score < ELIGIBLE_CREDIT_SCORE {
        Err(CreditScoreError::LowScore(score))
    } else {
        Ok(())
    }
}

} // verus!
