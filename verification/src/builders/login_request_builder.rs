use crate::requests::{
    LoginBody, LoginBodyView, LoginData, LoginDataView, LoginParams, LoginParamsView, LoginRequest,
    LoginRequestView,
};
use crate::text::{flag_string, flag_text, or_empty, or_empty_string, owned};
use vstd::prelude::*;

verus! {

/// Builds a [`LoginRequest`].
pub struct LoginRequestBuilder {
    account_id: Option<String>,
    account_secret: Option<String>,
    is_root: bool,
}

pub struct LoginRequestBuilderView {
    pub account_id: Option<Seq<char>>,
    pub account_secret: Option<Seq<char>>,
    pub is_root: bool,
}

impl View for LoginRequestBuilder {
    type V = LoginRequestBuilderView;

    closed spec fn view(&self) -> LoginRequestBuilderView {
        LoginRequestBuilderView {
            account_id: self.account_id.deep_view(),
            account_secret: self.account_secret.deep_view(),
            is_root: self.is_root,
        }
    }
}

impl LoginRequestBuilderView {
    /// The request: the root flag travels as the text `"true"` or `"false"`.
    pub open spec fn build(self) -> LoginRequestView {
        LoginRequestView {
            body: Some(
                LoginBodyView {
                    data: Some(
                        LoginDataView {
                            account_id: or_empty(self.account_id),
                            account_secret: or_empty(self.account_secret),
                        },
                    ),
                },
            ),
            params: Some(LoginParamsView { is_root: flag_text(self.is_root), t: Seq::empty() }),
        }
    }
}

impl LoginRequestBuilder {
    pub fn new() -> (r: Self)
        ensures
            r@ == (LoginRequestBuilderView { account_id: None, account_secret: None, is_root: false }),
    {
        LoginRequestBuilder { account_id: None, account_secret: None, is_root: false }
    }

    pub fn account_id(self, id: &str) -> (r: Self)
        ensures
            r@ == (LoginRequestBuilderView { account_id: Some(id@), ..self@ }),
    {
        LoginRequestBuilder { account_id: Some(owned(id)), ..self }
    }

    pub fn account_secret(self, secret: &str) -> (r: Self)
        ensures
            r@ == (LoginRequestBuilderView { account_secret: Some(secret@), ..self@ }),
    {
        LoginRequestBuilder { account_secret: Some(owned(secret)), ..self }
    }

    pub fn set_root(self, is_root: bool) -> (r: Self)
        ensures
            r@ == (LoginRequestBuilderView { is_root, ..self@ }),
    {
        LoginRequestBuilder { is_root, ..self }
    }

    pub fn build(self) -> (r: LoginRequest)
        ensures
            r@ == self@.build(),
    {
        LoginRequest {
            body: Some(
                LoginBody {
                    data: Some(
                        LoginData {
                            account_id: or_empty_string(self.account_id),
                            account_secret: or_empty_string(self.account_secret),
                        },
                    ),
                },
            ),
            params: Some(LoginParams { is_root: flag_string(self.is_root), t: String::new() }),
        }
    }
}

} // verus!
