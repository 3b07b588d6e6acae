//! How an operation that needs the store proceeds: it asks, and goes on when
//! the store has answered.

use vstd::prelude::*;

use crate::errors::{pass_through, ServiceError, ServiceErrorView};
use crate::storage::query::{Query, QueryView};
use crate::storage::reply::{Reply, ReplyView};

verus! {

/// Where an operation stands. The host sends the flow's query to the store
/// and resumes the flow with the reply, until the operation is done.
#[derive(Debug)]
pub enum Step<F, T> {
    /// The operation waits for the store to answer the flow's query.
    Ask(F),
    /// The operation has ended with this result.
    Done(Result<T, ServiceError>),
}

/// What a [`Step`] stands for in contracts.
pub enum StepView<F, T> {
    Ask(F),
    Done(Result<T, ServiceErrorView>),
}

impl<F: View, T: DeepView> View for Step<F, T> {
    type V = StepView<F::V, T::V>;

    open spec fn view(&self) -> StepView<F::V, T::V> {
        match self {
            Step::Ask(flow) => StepView::Ask(flow@),
            Step::Done(Ok(value)) => StepView::Done(Ok(value.deep_view())),
            Step::Done(Err(error)) => StepView::Done(Err(error@)),
        }
    }
}

/// The step that ends an operation with what the store's answer gave: the
/// value, or the store's failure as the operation's.
pub open spec fn done_with<F, T>(read: Result<T, Seq<char>>) -> StepView<F, T> {
    match read {
        Ok(value) => StepView::Done(Ok(value)),
        Err(text) => StepView::Done(Err(ServiceErrorView::StorageError(text))),
    }
}

/// An operation between two answers of the store. The host sends the query
/// to the store and resumes the operation with the reply; each operation
/// states in its own contract which query it asks and what follows which
/// reply.
pub trait Flow: Sized {
    /// What the operation returns when it ends well.
    type Output;

    /// An upper bound on the exchanges that the operation still needs.
    spec fn steps_left(&self) -> nat;

    /// The query that the operation waits on.
    spec fn asks(&self) -> QueryView;

    /// Whether `step` may follow when the store answers the query with
    /// `reply`.
    spec fn allows(&self, reply: ReplyView, step: Step<Self, Self::Output>) -> bool;

    /// The query to send to the store.
    fn query(&self) -> (query: Query)
        ensures
            query@ == self.asks(),
    ;

    /// Takes the store's reply to the query and decides what comes next. An
    /// operation that goes on needs fewer exchanges than before.
    fn resume(self, reply: Reply) -> (step: Step<Self, Self::Output>)
        ensures
            self.allows(reply@, step),
            step matches Step::Ask(next) ==> next.steps_left() < self.steps_left(),
    ;
}

/// An operation that is one change to the store: an update or a delete. It
/// asks for the change and is done when the store has answered.
#[derive(Debug)]
pub struct ChangeFlow {
    pub query: Query,
}

/// What a [`ChangeFlow`] stands for in contracts.
pub struct ChangeView {
    pub query: QueryView,
}

impl View for ChangeFlow {
    type V = ChangeView;

    open spec fn view(&self) -> ChangeView {
        ChangeView { query: self.query@ }
    }
}

impl ChangeView {
    /// An upper bound on the exchanges that the operation still needs.
    pub open spec fn steps_left(self) -> nat {
        1
    }

    /// The query that the flow waits on.
    pub open spec fn pending(self) -> QueryView {
        self.query
    }

    /// The step that follows the store's reply: the operation is done, well
    /// where the store has carried the change out.
    pub open spec fn after(self, reply: ReplyView) -> StepView<ChangeView, ()> {
        done_with(reply.as_done())
    }
}

impl Flow for ChangeFlow {
    type Output = ();

    open spec fn steps_left(&self) -> nat {
        self@.steps_left()
    }

    open spec fn asks(&self) -> QueryView {
        self@.pending()
    }

    open spec fn allows(&self, reply: ReplyView, step: Step<ChangeFlow, ()>) -> bool {
        step@ == self@.after(reply)
    }

    fn query(&self) -> (query: Query)
        ensures
            query@ == self@.pending(),
    {
        self.query.clone()
    }

    /// Ends the operation.
    fn resume(self, reply: Reply) -> (step: Step<ChangeFlow, ()>)
        ensures
            step@ == self@.after(reply@),
    {
        Step::Done(pass_through(reply.into_done()))
    }
}

} // verus!
