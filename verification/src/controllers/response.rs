use vstd::prelude::*;

use crate::models::user::{ViewableUser, ViewableUserView};

verus! {

/// What a request that succeeded is answered with. The status is always 200.
#[derive(Debug, PartialEq, Eq)]
pub enum Response {
    /// No body.
    Empty,
    /// A session token.
    Token(String),
    /// What may be shown of the users.
    Users(Vec<ViewableUser>),
}

/// The mathematical value of a [`Response`].
pub enum ResponseView {
    Empty,
    Token(Seq<char>),
    Users(Seq<ViewableUserView>),
}

impl View for Response {
    type V = ResponseView;

    open spec fn view(&self) -> ResponseView {
        match self {
            Response::Empty => ResponseView::Empty,
            Response::Token(token) => ResponseView::Token(token@),
            Response::Users(users) => ResponseView::Users(users.deep_view()),
        }
    }
}

impl DeepView for Response {
    type V = ResponseView;

    open spec fn deep_view(&self) -> ResponseView {
        self@
    }
}

} // verus!
