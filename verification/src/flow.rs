//! How the orchestrator and its caller take turns. The orchestrator decides:
//! each step says what to write to the store and then either which gateway
//! call to make or how the operation ended. The caller does the writing and
//! the calling, and comes back with the gateway's reply.

use crate::errors::{ApiError, ApiErrorView};
use crate::gateway::{GatewayRequest, GatewayRequestView};
use crate::reply::{GatewayReply, GatewayReplyView};
use crate::store::{StoreWrite, StoreWriteView};
use vstd::prelude::*;

verus! {

/// What a finished operation hands to the routing layer.
#[derive(Clone, Debug)]
pub struct Success {
    /// The session token, where the operation is about the session.
    pub token: Option<String>,
    /// The gateway's body as it came, where a call was made.
    pub data: Option<String>,
    /// The transaction that the operation resolved, where it resolved one.
    pub referencia: Option<String>,
}

/// A [`Success`] with its texts as sequences of characters.
#[verifier::ext_equal]
pub struct SuccessView {
    pub token: Option<Seq<char>>,
    pub data: Option<Seq<char>>,
    pub referencia: Option<Seq<char>>,
}

impl View for Success {
    type V = SuccessView;

    open spec fn view(&self) -> SuccessView {
        SuccessView {
            token: self.token.deep_view(),
            data: self.data.deep_view(),
            referencia: self.referencia.deep_view(),
        }
    }
}

/// The view of an operation's end.
pub open spec fn outcome_view(outcome: Result<Success, ApiError>) -> Result<
    SuccessView,
    ApiErrorView,
> {
    match outcome {
        Ok(success) => Ok(success@),
        Err(error) => Err(error@),
    }
}

/// What the caller does after a step's writes. `S` names the stages of one
/// operation.
#[derive(Debug)]
pub enum Next<S> {
    /// Make the call, then step again at `resume` with the reply.
    Call { request: GatewayRequest, resume: S },
    /// The operation is over.
    Done(Result<Success, ApiError>),
}

/// A [`Next`] with its texts as sequences of characters.
#[verifier::ext_equal]
pub enum NextView<S> {
    Call { request: GatewayRequestView, resume: S },
    Done(Result<SuccessView, ApiErrorView>),
}

impl<S> View for Next<S> {
    type V = NextView<S>;

    open spec fn view(&self) -> NextView<S> {
        match self {
            Next::Call { request, resume } => NextView::Call { request: request@, resume: *resume },
            Next::Done(outcome) => NextView::Done(outcome_view(*outcome)),
        }
    }
}

/// One step of an operation: the writes to make, in order, and what comes
/// after them.
#[derive(Debug)]
pub struct Step<S> {
    pub writes: Vec<StoreWrite>,
    pub next: Next<S>,
}

/// A [`Step`] with its texts as sequences of characters.
#[verifier::ext_equal]
pub struct StepView<S> {
    pub writes: Seq<StoreWriteView>,
    pub next: NextView<S>,
}

impl<S> View for Step<S> {
    type V = StepView<S>;

    open spec fn view(&self) -> StepView<S> {
        StepView { writes: self.writes.deep_view(), next: self.next@ }
    }
}

/// The step that writes nothing and makes a call.
pub open spec fn call_step<S>(request: GatewayRequestView, resume: S) -> StepView<S> {
    StepView { writes: Seq::empty(), next: NextView::Call { request, resume } }
}

/// The step that writes nothing and ends the operation.
pub open spec fn done_step<S>(outcome: Result<SuccessView, ApiErrorView>) -> StepView<S> {
    StepView { writes: Seq::empty(), next: NextView::Done(outcome) }
}

/// What stands for a reply where the caller has none to show: a transport
/// failure.
pub open spec fn reply_or_failure(reply: Option<GatewayReplyView>) -> GatewayReplyView {
    match reply {
        Some(r) => r,
        None => GatewayReplyView::Transport("Sin respuesta de la pasarela"@),
    }
}

/// The view of a reply that may be missing.
pub open spec fn reply_view(reply: Option<GatewayReply>) -> Option<GatewayReplyView> {
    match reply {
        Some(r) => Some(r@),
        None => None,
    }
}

/// Computes [`reply_or_failure`].
pub fn received(reply: Option<GatewayReply>) -> (r: GatewayReply)
    ensures
        r@ == reply_or_failure(reply_view(reply)),
{
    match reply {
        Some(r) => r,
        None => GatewayReply::Transport("Sin respuesta de la pasarela".to_owned()),
    }
}

} // verus!
