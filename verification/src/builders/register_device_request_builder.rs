use crate::requests::{
    RegisterDeviceParams, RegisterDeviceParamsView, RegisterDeviceRequest,
    RegisterDeviceRequestView,
};
use crate::text::{or_empty, or_empty_string, owned};
use vstd::prelude::*;

verus! {

/// Builds a [`RegisterDeviceRequest`]. The general `categories` are recorded
/// but are not part of the request.
pub struct RegisterDeviceRequestBuilder {
    pub categories: Vec<String>,
    pub organization_id: Option<String>,
    pub account_id: Option<String>,
    pub account_secret: Option<String>,
    pub is_new_user: bool,
    pub is_invited: bool,
    pub role_id: Option<String>,
    pub account_organization_status: Option<String>,
    pub account_organization_categories: Vec<String>,
    pub device_categories: Vec<String>,
    pub device_id: Option<String>,
}

pub struct RegisterDeviceRequestBuilderView {
    pub categories: Seq<Seq<char>>,
    pub organization_id: Option<Seq<char>>,
    pub account_id: Option<Seq<char>>,
    pub account_secret: Option<Seq<char>>,
    pub is_new_user: bool,
    pub is_invited: bool,
    pub role_id: Option<Seq<char>>,
    pub account_organization_status: Option<Seq<char>>,
    pub account_organization_categories: Seq<Seq<char>>,
    pub device_categories: Seq<Seq<char>>,
    pub device_id: Option<Seq<char>>,
}

impl View for RegisterDeviceRequestBuilder {
    type V = RegisterDeviceRequestBuilderView;

    open spec fn view(&self) -> RegisterDeviceRequestBuilderView {
        RegisterDeviceRequestBuilderView {
            categories: self.categories.deep_view(),
            organization_id: self.organization_id.deep_view(),
            account_id: self.account_id.deep_view(),
            account_secret: self.account_secret.deep_view(),
            is_new_user: self.is_new_user,
            is_invited: self.is_invited,
            role_id: self.role_id.deep_view(),
            account_organization_status: self.account_organization_status.deep_view(),
            account_organization_categories: self.account_organization_categories.deep_view(),
            device_categories: self.device_categories.deep_view(),
            device_id: self.device_id.deep_view(),
        }
    }
}

impl RegisterDeviceRequestBuilderView {
    pub open spec fn build(self) -> RegisterDeviceRequestView {
        RegisterDeviceRequestView {
            device: Some(
                RegisterDeviceParamsView {
                    organization_id: or_empty(self.organization_id),
                    account_id: or_empty(self.account_id),
                    account_secret: or_empty(self.account_secret),
                    is_new_user: self.is_new_user,
                    is_invited: self.is_invited,
                    role_id: or_empty(self.role_id),
                    account_organization_status: or_empty(self.account_organization_status),
                    account_organization_categories: self.account_organization_categories,
                    device_categories: self.device_categories,
                    device_id: or_empty(self.device_id),
                },
            ),
        }
    }
}

/// Appends one text to a list, as its last element.
pub(crate) fn push_text(list: &mut Vec<String>, value: &str)
    ensures
        final(list).deep_view() == old(list).deep_view().push(value@),
{
    let ghost before = list.deep_view();
    list.push(owned(value));
    assert(list.deep_view() =~= before.push(value@));
}

impl RegisterDeviceRequestBuilder {
    pub fn new() -> (r: Self)
        ensures
            r@ == (RegisterDeviceRequestBuilderView {
                categories: Seq::empty(),
                organization_id: None,
                account_id: None,
                account_secret: None,
                is_new_user: false,
                is_invited: false,
                role_id: None,
                account_organization_status: None,
                account_organization_categories: Seq::empty(),
                device_categories: Seq::empty(),
                device_id: None,
            }),
    {
        let r = RegisterDeviceRequestBuilder {
            categories: Vec::new(),
            organization_id: None,
            account_id: None,
            account_secret: None,
            is_new_user: false,
            is_invited: false,
            role_id: None,
            account_organization_status: None,
            account_organization_categories: Vec::new(),
            device_categories: Vec::new(),
            device_id: None,
        };
        assert(r.categories.deep_view() =~= Seq::<Seq<char>>::empty());
        assert(r.account_organization_categories.deep_view() =~= Seq::<Seq<char>>::empty());
        assert(r.device_categories.deep_view() =~= Seq::<Seq<char>>::empty());
        r
    }

    pub fn device_id(self, device_id: &str) -> (r: Self)
        ensures
            r@ == (RegisterDeviceRequestBuilderView { device_id: Some(device_id@), ..self@ }),
    {
        RegisterDeviceRequestBuilder { device_id: Some(owned(device_id)), ..self }
    }

    pub fn add_category(self, category: &str) -> (r: Self)
        ensures
            r@ == (RegisterDeviceRequestBuilderView {
                categories: self@.categories.push(category@),
                ..self@
            }),
    {
        let mut s = self;
        push_text(&mut s.categories, category);
        s
    }

    pub fn organization_id(self, id: &str) -> (r: Self)
        ensures
            r@ == (RegisterDeviceRequestBuilderView { organization_id: Some(id@), ..self@ }),
    {
        RegisterDeviceRequestBuilder { organization_id: Some(owned(id)), ..self }
    }

    pub fn account_id(self, id: &str) -> (r: Self)
        ensures
            r@ == (RegisterDeviceRequestBuilderView { account_id: Some(id@), ..self@ }),
    {
        RegisterDeviceRequestBuilder { account_id: Some(owned(id)), ..self }
    }

    pub fn account_secret(self, secret: &str) -> (r: Self)
        ensures
            r@ == (RegisterDeviceRequestBuilderView { account_secret: Some(secret@), ..self@ }),
    {
        RegisterDeviceRequestBuilder { account_secret: Some(owned(secret)), ..self }
    }

    pub fn is_new_user(self, flag: bool) -> (r: Self)
        ensures
            r@ == (RegisterDeviceRequestBuilderView { is_new_user: flag, ..self@ }),
    {
        RegisterDeviceRequestBuilder { is_new_user: flag, ..self }
    }

    pub fn is_invited(self, flag: bool) -> (r: Self)
        ensures
            r@ == (RegisterDeviceRequestBuilderView { is_invited: flag, ..self@ }),
    {
        RegisterDeviceRequestBuilder { is_invited: flag, ..self }
    }

    pub fn role_id(self, id: &str) -> (r: Self)
        ensures
            r@ == (RegisterDeviceRequestBuilderView { role_id: Some(id@), ..self@ }),
    {
        RegisterDeviceRequestBuilder { role_id: Some(owned(id)), ..self }
    }

    pub fn account_organization_status(self, status: &str) -> (r: Self)
        ensures
            r@ == (RegisterDeviceRequestBuilderView {
                account_organization_status: Some(status@),
                ..self@
            }),
    {
        RegisterDeviceRequestBuilder { account_organization_status: Some(owned(status)), ..self }
    }

    pub fn add_account_organization_category(self, category: &str) -> (r: Self)
        ensures
            r@ == (RegisterDeviceRequestBuilderView {
                account_organization_categories: self@.account_organization_categories.push(
                    category@,
                ),
                ..self@
            }),
    {
        let mut s = self;
        push_text(&mut s.account_organization_categories, category);
        s
    }

    pub fn add_device_category(self, category: &str) -> (r: Self)
        ensures
            r@ == (RegisterDeviceRequestBuilderView {
                device_categories: self@.device_categories.push(category@),
                ..self@
            }),
    {
        let mut s = self;
        push_text(&mut s.device_categories, category);
        s
    }

    pub fn build(self) -> (r: RegisterDeviceRequest)
        ensures
            r@ == self@.build(),
    {
        RegisterDeviceRequest {
            device: Some(
                RegisterDeviceParams {
                    organization_id: or_empty_string(self.organization_id),
                    account_id: or_empty_string(self.account_id),
                    account_secret: or_empty_string(self.account_secret),
                    is_new_user: self.is_new_user,
                    is_invited: self.is_invited,
                    role_id: or_empty_string(self.role_id),
                    account_organization_status: or_empty_string(
                        self.account_organization_status,
                    ),
                    account_organization_categories: self.account_organization_categories,
                    device_categories: self.device_categories,
                    device_id: or_empty_string(self.device_id),
                },
            ),
        }
    }
}

} // verus!
