use crate::builders::register_device_request_builder::push_text;
use crate::requests::{AccountType, RegisterParams, RegisterParamsView, RegisterRequest, RegisterRequestView};
use crate::text::{or_empty, or_empty_string, owned};
use vstd::prelude::*;

verus! {

/// Builds a [`RegisterRequest`]; an account type not set is [`AccountType::Device`].
pub struct RegisterRequestBuilder {
    pub id: Option<String>,
    pub name: Option<String>,
    pub contact_id: Option<String>,
    pub email: Option<String>,
    pub password: Option<String>,
    pub parent_organization_id: Option<String>,
    pub code: Option<String>,
    pub categories: Vec<String>,
    pub account_status: Option<String>,
    pub account_type: Option<AccountType>,
    pub organization_name: Option<String>,
    pub organization_id: Option<String>,
    pub account_id: Option<String>,
    pub account_secret: Option<String>,
    pub is_new_user: bool,
    pub first_name: Option<String>,
    pub last_name: Option<String>,
    pub is_invited: bool,
    pub role_id: Option<String>,
    pub account_organization_status: Option<String>,
    pub account_organization_categories: Vec<String>,
    pub account_organization_id: Option<String>,
    pub contact_categories: Vec<String>,
    pub device_categories: Vec<String>,
    pub responsible_account_organization_id: Option<String>,
    pub is_request: bool,
}

pub struct RegisterRequestBuilderView {
    pub id: Option<Seq<char>>,
    pub name: Option<Seq<char>>,
    pub contact_id: Option<Seq<char>>,
    pub email: Option<Seq<char>>,
    pub password: Option<Seq<char>>,
    pub parent_organization_id: Option<Seq<char>>,
    pub code: Option<Seq<char>>,
    pub categories: Seq<Seq<char>>,
    pub account_status: Option<Seq<char>>,
    pub account_type: Option<AccountType>,
    pub organization_name: Option<Seq<char>>,
    pub organization_id: Option<Seq<char>>,
    pub account_id: Option<Seq<char>>,
    pub account_secret: Option<Seq<char>>,
    pub is_new_user: bool,
    pub first_name: Option<Seq<char>>,
    pub last_name: Option<Seq<char>>,
    pub is_invited: bool,
    pub role_id: Option<Seq<char>>,
    pub account_organization_status: Option<Seq<char>>,
    pub account_organization_categories: Seq<Seq<char>>,
    pub account_organization_id: Option<Seq<char>>,
    pub contact_categories: Seq<Seq<char>>,
    pub device_categories: Seq<Seq<char>>,
    pub responsible_account_organization_id: Option<Seq<char>>,
    pub is_request: bool,
}

impl View for RegisterRequestBuilder {
    type V = RegisterRequestBuilderView;

    open spec fn view(&self) -> RegisterRequestBuilderView {
        RegisterRequestBuilderView {
            id: self.id.deep_view(),
            name: self.name.deep_view(),
            contact_id: self.contact_id.deep_view(),
            email: self.email.deep_view(),
            password: self.password.deep_view(),
            parent_organization_id: self.parent_organization_id.deep_view(),
            code: self.code.deep_view(),
            categories: self.categories.deep_view(),
            account_status: self.account_status.deep_view(),
            account_type: self.account_type,
            organization_name: self.organization_name.deep_view(),
            organization_id: self.organization_id.deep_view(),
            account_id: self.account_id.deep_view(),
            account_secret: self.account_secret.deep_view(),
            is_new_user: self.is_new_user,
            first_name: self.first_name.deep_view(),
            last_name: self.last_name.deep_view(),
            is_invited: self.is_invited,
            role_id: self.role_id.deep_view(),
            account_organization_status: self.account_organization_status.deep_view(),
            account_organization_categories: self.account_organization_categories.deep_view(),
            account_organization_id: self.account_organization_id.deep_view(),
            contact_categories: self.contact_categories.deep_view(),
            device_categories: self.device_categories.deep_view(),
            responsible_account_organization_id: self.responsible_account_organization_id.deep_view(),
            is_request: self.is_request,
        }
    }
}

impl RegisterRequestBuilderView {
    pub open spec fn build(self) -> RegisterRequestView {
        RegisterRequestView {
            body: Some(
                RegisterParamsView {
                    id: or_empty(self.id),
                    name: or_empty(self.name),
                    contact_id: or_empty(self.contact_id),
                    email: or_empty(self.email),
                    password: or_empty(self.password),
                    parent_organization_id: or_empty(self.parent_organization_id),
                    code: or_empty(self.code),
                    categories: self.categories,
                    account_status: or_empty(self.account_status),
                    account_type: match self.account_type { Some(t) => t, None => AccountType::Device },
                    organization_name: or_empty(self.organization_name),
                    organization_id: or_empty(self.organization_id),
                    account_id: or_empty(self.account_id),
                    account_secret: or_empty(self.account_secret),
                    is_new_user: self.is_new_user,
                    first_name: or_empty(self.first_name),
                    last_name: or_empty(self.last_name),
                    is_invited: self.is_invited,
                    role_id: or_empty(self.role_id),
                    account_organization_status: or_empty(self.account_organization_status),
                    account_organization_categories: self.account_organization_categories,
                    account_organization_id: or_empty(self.account_organization_id),
                    contact_categories: self.contact_categories,
                    device_categories: self.device_categories,
                    responsible_account_organization_id: or_empty(self.responsible_account_organization_id),
                },
            ),
            is_request: self.is_request,
        }
    }
}

impl RegisterRequestBuilder {
    pub fn new() -> (r: Self)
        ensures
            r@ == (RegisterRequestBuilderView {
                id: None,
                name: None,
                contact_id: None,
                email: None,
                password: None,
                parent_organization_id: None,
                code: None,
                categories: Seq::empty(),
                account_status: None,
                account_type: None,
                organization_name: None,
                organization_id: None,
                account_id: None,
                account_secret: None,
                is_new_user: false,
                first_name: None,
                last_name: None,
                is_invited: false,
                role_id: None,
                account_organization_status: None,
                account_organization_categories: Seq::empty(),
                account_organization_id: None,
                contact_categories: Seq::empty(),
                device_categories: Seq::empty(),
                responsible_account_organization_id: None,
                is_request: false,
            }),
    {
        let r = RegisterRequestBuilder {
            id: None,
            name: None,
            contact_id: None,
            email: None,
            password: None,
            parent_organization_id: None,
            code: None,
            categories: Vec::new(),
            account_status: None,
            account_type: None,
            organization_name: None,
            organization_id: None,
            account_id: None,
            account_secret: None,
            is_new_user: false,
            first_name: None,
            last_name: None,
            is_invited: false,
            role_id: None,
            account_organization_status: None,
            account_organization_categories: Vec::new(),
            account_organization_id: None,
            contact_categories: Vec::new(),
            device_categories: Vec::new(),
            responsible_account_organization_id: None,
            is_request: false,
        };
        assert(r.categories.deep_view() =~= Seq::<Seq<char>>::empty());
        assert(r.account_organization_categories.deep_view() =~= Seq::<Seq<char>>::empty());
        assert(r.contact_categories.deep_view() =~= Seq::<Seq<char>>::empty());
        assert(r.device_categories.deep_view() =~= Seq::<Seq<char>>::empty());
        r
    }

    pub fn id(self, value: &str) -> (r: Self)
        ensures
            r@ == (RegisterRequestBuilderView { id: Some(value@), ..self@ }),
    {
        RegisterRequestBuilder { id: Some(owned(value)), ..self }
    }

    pub fn name(self, value: &str) -> (r: Self)
        ensures
            r@ == (RegisterRequestBuilderView { name: Some(value@), ..self@ }),
    {
        RegisterRequestBuilder { name: Some(owned(value)), ..self }
    }

    pub fn contact_id(self, value: &str) -> (r: Self)
        ensures
            r@ == (RegisterRequestBuilderView { contact_id: Some(value@), ..self@ }),
    {
        RegisterRequestBuilder { contact_id: Some(owned(value)), ..self }
    }

    pub fn email(self, value: &str) -> (r: Self)
        ensures
            r@ == (RegisterRequestBuilderView { email: Some(value@), ..self@ }),
    {
        RegisterRequestBuilder { email: Some(owned(value)), ..self }
    }

    pub fn password(self, value: &str) -> (r: Self)
        ensures
            r@ == (RegisterRequestBuilderView { password: Some(value@), ..self@ }),
    {
        RegisterRequestBuilder { password: Some(owned(value)), ..self }
    }

    pub fn parent_organization_id(self, value: &str) -> (r: Self)
        ensures
            r@ == (RegisterRequestBuilderView { parent_organization_id: Some(value@), ..self@ }),
    {
        RegisterRequestBuilder { parent_organization_id: Some(owned(value)), ..self }
    }

    pub fn code(self, value: &str) -> (r: Self)
        ensures
            r@ == (RegisterRequestBuilderView { code: Some(value@), ..self@ }),
    {
        RegisterRequestBuilder { code: Some(owned(value)), ..self }
    }

    pub fn add_category(self, category: &str) -> (r: Self)
        ensures
            r@ == (RegisterRequestBuilderView { categories: self@.categories.push(category@), ..self@ }),
    {
        let mut s = self;
        push_text(&mut s.categories, category);
        s
    }

    pub fn account_status(self, value: &str) -> (r: Self)
        ensures
            r@ == (RegisterRequestBuilderView { account_status: Some(value@), ..self@ }),
    {
        RegisterRequestBuilder { account_status: Some(owned(value)), ..self }
    }

    pub fn account_type(self, t: AccountType) -> (r: Self)
        ensures
            r@ == (RegisterRequestBuilderView { account_type: Some(t), ..self@ }),
    {
        RegisterRequestBuilder { account_type: Some(t), ..self }
    }

    pub fn organization_name(self, value: &str) -> (r: Self)
        ensures
            r@ == (RegisterRequestBuilderView { organization_name: Some(value@), ..self@ }),
    {
        RegisterRequestBuilder { organization_name: Some(owned(value)), ..self }
    }

    pub fn organization_id(self, value: &str) -> (r: Self)
        ensures
            r@ == (RegisterRequestBuilderView { organization_id: Some(value@), ..self@ }),
    {
        RegisterRequestBuilder { organization_id: Some(owned(value)), ..self }
    }

    pub fn account_id(self, value: &str) -> (r: Self)
        ensures
            r@ == (RegisterRequestBuilderView { account_id: Some(value@), ..self@ }),
    {
        RegisterRequestBuilder { account_id: Some(owned(value)), ..self }
    }

    pub fn account_secret(self, value: &str) -> (r: Self)
        ensures
            r@ == (RegisterRequestBuilderView { account_secret: Some(value@), ..self@ }),
    {
        RegisterRequestBuilder { account_secret: Some(owned(value)), ..self }
    }

    pub fn is_new_user(self, flag: bool) -> (r: Self)
        ensures
            r@ == (RegisterRequestBuilderView { is_new_user: flag, ..self@ }),
    {
        RegisterRequestBuilder { is_new_user: flag, ..self }
    }

    pub fn first_name(self, value: &str) -> (r: Self)
        ensures
            r@ == (RegisterRequestBuilderView { first_name: Some(value@), ..self@ }),
    {
        RegisterRequestBuilder { first_name: Some(owned(value)), ..self }
    }

    pub fn last_name(self, value: &str) -> (r: Self)
        ensures
            r@ == (RegisterRequestBuilderView { last_name: Some(value@), ..self@ }),
    {
        RegisterRequestBuilder { last_name: Some(owned(value)), ..self }
    }

    pub fn is_invited(self, flag: bool) -> (r: Self)
        ensures
            r@ == (RegisterRequestBuilderView { is_invited: flag, ..self@ }),
    {
        RegisterRequestBuilder { is_invited: flag, ..self }
    }

    pub fn role_id(self, value: &str) -> (r: Self)
        ensures
            r@ == (RegisterRequestBuilderView { role_id: Some(value@), ..self@ }),
    {
        RegisterRequestBuilder { role_id: Some(owned(value)), ..self }
    }

    pub fn account_organization_status(self, value: &str) -> (r: Self)
        ensures
            r@ == (RegisterRequestBuilderView { account_organization_status: Some(value@), ..self@ }),
    {
        RegisterRequestBuilder { account_organization_status: Some(owned(value)), ..self }
    }

    pub fn add_account_organization_category(self, category: &str) -> (r: Self)
        ensures
            r@ == (RegisterRequestBuilderView { account_organization_categories: self@.account_organization_categories.push(category@), ..self@ }),
    {
        let mut s = self;
        push_text(&mut s.account_organization_categories, category);
        s
    }

    pub fn account_organization_id(self, value: &str) -> (r: Self)
        ensures
            r@ == (RegisterRequestBuilderView { account_organization_id: Some(value@), ..self@ }),
    {
        RegisterRequestBuilder { account_organization_id: Some(owned(value)), ..self }
    }

    pub fn add_contact_category(self, category: &str) -> (r: Self)
        ensures
            r@ == (RegisterRequestBuilderView { contact_categories: self@.contact_categories.push(category@), ..self@ }),
    {
        let mut s = self;
        push_text(&mut s.contact_categories, category);
        s
    }

    pub fn add_device_category(self, category: &str) -> (r: Self)
        ensures
            r@ == (RegisterRequestBuilderView { device_categories: self@.device_categories.push(category@), ..self@ }),
    {
        let mut s = self;
        push_text(&mut s.device_categories, category);
        s
    }

    pub fn responsible_account_organization_id(self, value: &str) -> (r: Self)
        ensures
            r@ == (RegisterRequestBuilderView { responsible_account_organization_id: Some(value@), ..self@ }),
    {
        RegisterRequestBuilder { responsible_account_organization_id: Some(owned(value)), ..self }
    }

    pub fn set_is_request(self, flag: bool) -> (r: Self)
        ensures
            r@ == (RegisterRequestBuilderView { is_request: flag, ..self@ }),
    {
        RegisterRequestBuilder { is_request: flag, ..self }
    }

    pub fn build(self) -> (r: RegisterRequest)
        ensures
            r@ == self@.build(),
    {
        let account_type = match self.account_type {
            Some(t) => t,
            None => AccountType::Device,
        };
        let params = RegisterParams {
            id: or_empty_string(self.id),
            name: or_empty_string(self.name),
            contact_id: or_empty_string(self.contact_id),
            email: or_empty_string(self.email),
            password: or_empty_string(self.password),
            parent_organization_id: or_empty_string(self.parent_organization_id),
            code: or_empty_string(self.code),
            categories: self.categories,
            account_status: or_empty_string(self.account_status),
            account_type: account_type,
            organization_name: or_empty_string(self.organization_name),
            organization_id: or_empty_string(self.organization_id),
            account_id: or_empty_string(self.account_id),
            account_secret: or_empty_string(self.account_secret),
            is_new_user: self.is_new_user,
            first_name: or_empty_string(self.first_name),
            last_name: or_empty_string(self.last_name),
            is_invited: self.is_invited,
            role_id: or_empty_string(self.role_id),
            account_organization_status: or_empty_string(self.account_organization_status),
            account_organization_categories: self.account_organization_categories,
            account_organization_id: or_empty_string(self.account_organization_id),
            contact_categories: self.contact_categories,
            device_categories: self.device_categories,
            responsible_account_organization_id: or_empty_string(self.responsible_account_organization_id),
        };
        RegisterRequest { body: Some(params), is_request: self.is_request }
    }
}

} // verus!
