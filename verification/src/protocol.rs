//! The shortening protocol, one store reply at a time: every decision the
//! service takes between two store operations, as a step function from
//! state and reply to next state and next store action. A driver performs
//! each action against its store and hands the reply back; the decisions
//! themselves all stand here.

use vstd::prelude::*;
use crate::codes::generate_short_code;
use crate::codes::valid_code;
use crate::errors::AppError;
use crate::urls::parse_ok;
use crate::urls::url_ok;

verus! {

/// Where one `shorten` request stands.
pub enum ShortenState {
    /// Waiting for the lookup of an existing mapping for `url`.
    CheckUrl { url: String },
    /// Waiting for the outcome of inserting (`code`, `url`).
    TryInsert { url: String, code: String },
    /// The request is decided.
    Finished { result: Result<String, AppError> },
}

/// What the store answered.
pub enum StoreReply {
    /// Lookup by URL found a row; `code_col` is its code column, absent
    /// when the stored value is missing.
    UrlRow { code_col: Option<String> },
    /// Lookup by URL found nothing.
    NoRow,
    /// The insertion committed.
    Inserted,
    /// The insertion hit the code-uniqueness constraint.
    CodeConflict,
    /// The insertion hit the URL-uniqueness constraint.
    UrlConflict,
    /// The store failed for any other reason.
    Failed { detail: String },
}

/// What the driver must do next.
pub enum StoreAction {
    /// Look the URL up and answer with `UrlRow` or `NoRow`.
    LookupUrl { url: String },
    /// Insert the pair and answer with `Inserted`, `CodeConflict`,
    /// `UrlConflict` or `Failed`.
    InsertRow { code: String, url: String },
    /// Nothing: the state is `Finished`.
    Stop,
}

impl ShortenState {
    /// The replies a state can be answered with: lookups answer a pending
    /// `CheckUrl`, insertion outcomes a pending `TryInsert`; a failure
    /// answers either; a finished request takes no reply.
    pub open spec fn awaits(self, reply: StoreReply) -> bool {
        match self {
            ShortenState::CheckUrl { .. } => {
                ||| reply matches StoreReply::UrlRow { .. }
                ||| reply matches StoreReply::NoRow
                ||| reply matches StoreReply::Failed { .. }
            },
            ShortenState::TryInsert { .. } => {
                ||| reply matches StoreReply::Inserted
                ||| reply matches StoreReply::CodeConflict
                ||| reply matches StoreReply::UrlConflict
                ||| reply matches StoreReply::Failed { .. }
            },
            ShortenState::Finished { .. } => false,
        }
    }

    /// Every URL a state carries passed validation, and every candidate
    /// code is well-formed.
    pub open spec fn wf(self) -> bool {
        match self {
            ShortenState::CheckUrl { url } => url_ok(url@),
            ShortenState::TryInsert { url, code } => url_ok(url@) && valid_code(code@),
            ShortenState::Finished { .. } => true,
        }
    }
}

/// A step's outcome that reports a store failure and stops.
pub open spec fn step_store_error(r: (ShortenState, StoreAction)) -> bool {
    (r.0 matches ShortenState::Finished { result: res } && res matches Err(e)
        && e matches AppError::StoreError(_)) && r.1 == StoreAction::Stop
}

/// Begin a `shorten` request: an invalid URL is rejected at once, with no
/// store access; a valid one is first looked up.
pub fn shorten_start(url: String) -> (r: (ShortenState, StoreAction))
    ensures
        r.0.wf(),
        !url_ok(url@) ==> r.0 == (ShortenState::Finished {
            result: Err::<String, AppError>(AppError::InvalidUrl),
        }) && r.1 == StoreAction::Stop,
        url_ok(url@) ==> r.0 == (ShortenState::CheckUrl { url }) && r.1 == (
        StoreAction::LookupUrl { url }),
{
    if !parse_ok(url.as_str()) {
        return (ShortenState::Finished { result: Err(AppError::InvalidUrl) }, StoreAction::Stop);
    }
    let state_url = url.clone();
    (ShortenState::CheckUrl { url: state_url }, StoreAction::LookupUrl { url })
}

/// Take one step of the protocol: consume the store's reply and decide the
/// next state and store action. An existing non-empty code is returned as
/// is; a missing row leads to inserting a fresh candidate; a code conflict
/// redraws; a URL conflict re-queries, so a racing winner's code is
/// returned rather than an error; any other store failure is surfaced.
pub fn shorten_step(state: ShortenState, reply: StoreReply) -> (r: (ShortenState, StoreAction))
    requires
        state.awaits(reply),
    ensures
        state.wf() ==> r.0.wf(),
        state matches ShortenState::CheckUrl { url } ==> (reply matches StoreReply::UrlRow {
            code_col: Some(c),
        } ==> (c@.len() > 0 ==> r.0 == (ShortenState::Finished {
            result: Ok::<String, AppError>(c),
        }) && r.1 == StoreAction::Stop)),
        state matches ShortenState::CheckUrl { url } ==> (reply matches StoreReply::UrlRow {
            code_col: Some(c),
        } ==> (c@.len() == 0 ==> step_store_error(r))),
        state matches ShortenState::CheckUrl { url } ==> (reply matches StoreReply::UrlRow {
            code_col: None,
        } ==> step_store_error(r)),
        state matches ShortenState::CheckUrl { url } ==> (reply matches StoreReply::NoRow ==> (
        r.0 matches ShortenState::TryInsert { url: u2, code } && u2 == url && valid_code(code@)
            && r.1 == (StoreAction::InsertRow { code, url }))),
        state matches ShortenState::TryInsert { url, code } ==> (reply
            matches StoreReply::Inserted ==> r.0 == (ShortenState::Finished {
            result: Ok::<String, AppError>(code),
        }) && r.1 == StoreAction::Stop),
        state matches ShortenState::TryInsert { url, code } ==> (reply
            matches StoreReply::CodeConflict ==> (
        r.0 matches ShortenState::TryInsert { url: u2, code: c2 } && u2 == url && valid_code(c2@)
            && r.1 == (StoreAction::InsertRow { code: c2, url }))),
        state matches ShortenState::TryInsert { url, code } ==> (reply
            matches StoreReply::UrlConflict ==> r.0 == (ShortenState::CheckUrl { url }) && r.1
            == (StoreAction::LookupUrl { url })),
        reply matches StoreReply::Failed { detail } ==> r.0 == (ShortenState::Finished {
            result: Err::<String, AppError>(AppError::StoreError(detail)),
        }) && r.1 == StoreAction::Stop,
{
    match (state, reply) {
        (ShortenState::CheckUrl { url }, StoreReply::UrlRow { code_col }) => {
            match code_col {
                Some(c) => {
                    if c.as_str().is_empty() {
                        // a stored mapping with an empty code is a data
                        // integrity violation
                        (
                            ShortenState::Finished {
                                result: Err(
                                    AppError::StoreError(
                                        String::from_str("corrupt mapping: empty short code"),
                                    ),
                                ),
                            },
                            StoreAction::Stop,
                        )
                    } else {
                        (ShortenState::Finished { result: Ok(c) }, StoreAction::Stop)
                    }
                },
                None => (
                    ShortenState::Finished {
                        result: Err(
                            AppError::StoreError(
                                String::from_str("corrupt mapping: missing short code"),
                            ),
                        ),
                    },
                    StoreAction::Stop,
                ),
            }
        },
        (ShortenState::CheckUrl { url }, StoreReply::NoRow) => {
            let code = generate_short_code();
            let action_code = code.clone();
            let action_url = url.clone();
            (
                ShortenState::TryInsert { url, code },
                StoreAction::InsertRow { code: action_code, url: action_url },
            )
        },
        (ShortenState::TryInsert { url, code }, StoreReply::Inserted) => (
            ShortenState::Finished { result: Ok(code) },
            StoreAction::Stop,
        ),
        (ShortenState::TryInsert { url, code }, StoreReply::CodeConflict) => {
            // the candidate lost a code-uniqueness race: redraw and retry
            let c2 = generate_short_code();
            let action_code = c2.clone();
            let action_url = url.clone();
            (
                ShortenState::TryInsert { url, code: c2 },
                StoreAction::InsertRow { code: action_code, url: action_url },
            )
        },
        (ShortenState::TryInsert { url, code }, StoreReply::UrlConflict) => {
            // a concurrent writer won the race for this URL: re-query and
            // return the winner's code
            let action_url = url.clone();
            (ShortenState::CheckUrl { url }, StoreAction::LookupUrl { url: action_url })
        },
        (_, StoreReply::Failed { detail }) => (
            ShortenState::Finished { result: Err(AppError::StoreError(detail)) },
            StoreAction::Stop,
        ),
        _ => {
            // unreachable: `awaits` admits no other pairing
            (
                ShortenState::Finished {
                    result: Err(AppError::StoreError(String::from_str("protocol violation"))),
                },
                StoreAction::Stop,
            )
        },
    }
}

/// Decide a `resolve` request from the store's row for the code: the URL
/// when one is stored, not-found when none is.
pub fn resolve_decide(row: Option<String>) -> (r: Result<String, AppError>)
    ensures
        row matches Some(u) ==> r == Ok::<String, AppError>(u),
        row is None ==> r == Err::<String, AppError>(AppError::NotFound),
{
    match row {
        Some(u) => Ok(u),
        None => Err(AppError::NotFound),
    }
}

} // verus!
