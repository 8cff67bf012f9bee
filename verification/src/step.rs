//! The protocol between an operation and the caller that drives it.

use vstd::prelude::*;

verus! {

/// What an operation wants next: something for the caller to carry out on the
/// host, or the operation's result.
#[derive(Debug, PartialEq, Eq)]
pub enum Step<A, T> {
    /// Carry this out, then ask again with what it gave.
    Perform(A),
    /// Nothing is left to do.
    Finish(Result<T, String>),
}

/// A `Step` as a mathematical value.
pub enum StepView<A, T> {
    Perform(A),
    Finish(Result<T, Seq<char>>),
}

/// What the host gave for a request, as a mathematical value: the value that
/// the request yields, or the message of its failure.
pub open spec fn reply_view<T: DeepView>(reply: Result<T, String>) -> Result<T::V, Seq<char>> {
    match reply {
        Ok(value) => Ok(value.deep_view()),
        Err(message) => Err(message@),
    }
}

/// The reply in hand, if there is one, as a mathematical value.
pub open spec fn last_reply_view<T: DeepView>(reply: Option<Result<T, String>>) -> Option<
    Result<T::V, Seq<char>>,
> {
    match reply {
        Some(reply) => Some(reply_view(reply)),
        None => None,
    }
}

/// The replies in hand, oldest first, as mathematical values.
pub open spec fn replies_view<T: DeepView>(replies: Seq<Result<T, String>>) -> Seq<
    Result<T::V, Seq<char>>,
> {
    Seq::new(replies.len(), |i: int| reply_view(replies[i]))
}

impl<A: DeepView, T: DeepView> DeepView for Step<A, T> {
    type V = StepView<A::V, T::V>;

    open spec fn deep_view(&self) -> StepView<A::V, T::V> {
        match self {
            Step::Perform(action) => StepView::Perform(action.deep_view()),
            Step::Finish(result) => StepView::Finish(reply_view(*result)),
        }
    }
}

/// A program to start and the arguments to hand it, in order.
#[derive(Debug, PartialEq, Eq)]
pub struct Invocation {
    pub program: String,
    pub args: Vec<String>,
}

/// An `Invocation` as a mathematical value.
pub struct InvocationView {
    pub program: Seq<char>,
    pub args: Seq<Seq<char>>,
}

impl DeepView for Invocation {
    type V = InvocationView;

    open spec fn deep_view(&self) -> InvocationView {
        InvocationView { program: self.program@, args: self.args.deep_view() }
    }
}

} // verus!
