//! The messages that the datastore service accepts, as plain values.
//!
//! Each message has a view: the same shape with every string seen as a
//! sequence of characters. Contracts elsewhere in the crate speak of these
//! views.
use vstd::prelude::*;

verus! {

/// A map given as the list of its entries; a later entry for a key replaces
/// an earlier one, as inserting the entries in order into a map would.
pub open spec fn entries_to_map(entries: Seq<(Seq<char>, Seq<char>)>) -> Map<Seq<char>, Seq<char>>
    decreases entries.len(),
{
    if entries.len() == 0 {
        Map::empty()
    } else {
        entries_to_map(entries.drop_last()).insert(entries.last().0, entries.last().1)
    }
}

/// A filter criterion or a logical operator between criteria.
pub struct AdvanceFilter {
    pub type_: String,
    pub field: String,
    pub operator: String,
    pub entity: String,
    pub values: String,
}

pub struct AdvanceFilterView {
    pub type_: Seq<char>,
    pub field: Seq<char>,
    pub operator: Seq<char>,
    pub entity: Seq<char>,
    pub values: Seq<char>,
}

impl View for AdvanceFilter {
    type V = AdvanceFilterView;

    open spec fn view(&self) -> AdvanceFilterView {
        AdvanceFilterView {
            type_: self.type_@,
            field: self.field@,
            operator: self.operator@,
            entity: self.entity@,
            values: self.values@,
        }
    }
}

impl DeepView for AdvanceFilter {
    type V = AdvanceFilterView;

    open spec fn deep_view(&self) -> AdvanceFilterView {
        self@
    }
}

/// Addresses one record, or a whole table when `id` is empty; `type_` is
/// `"root"` for a request made with root rights.
pub struct Params {
    pub id: String,
    pub table: String,
    pub type_: String,
}

pub struct ParamsView {
    pub id: Seq<char>,
    pub table: Seq<char>,
    pub type_: Seq<char>,
}

impl View for Params {
    type V = ParamsView;

    open spec fn view(&self) -> ParamsView {
        ParamsView { id: self.id@, table: self.table@, type_: self.type_@ }
    }
}

impl DeepView for Params {
    type V = ParamsView;

    open spec fn deep_view(&self) -> ParamsView {
        self@
    }
}

/// The fields to send back, comma separated, and the durability of a write.
pub struct Query {
    pub pluck: String,
    pub durability: String,
}

pub struct QueryView {
    pub pluck: Seq<char>,
    pub durability: Seq<char>,
}

impl View for Query {
    type V = QueryView;

    open spec fn view(&self) -> QueryView {
        QueryView { pluck: self.pluck@, durability: self.durability@ }
    }
}

impl DeepView for Query {
    type V = QueryView;

    open spec fn deep_view(&self) -> QueryView {
        self@
    }
}

pub struct CreateParams {
    pub table: String,
}

pub struct CreateParamsView {
    pub table: Seq<char>,
}

impl View for CreateParams {
    type V = CreateParamsView;

    open spec fn view(&self) -> CreateParamsView {
        CreateParamsView { table: self.table@ }
    }
}

impl DeepView for CreateParams {
    type V = CreateParamsView;

    open spec fn deep_view(&self) -> CreateParamsView {
        self@
    }
}

/// One record as JSON text, and the prefix of the code the datastore gives it.
pub struct CreateBody {
    pub record: String,
    pub entity_prefix: String,
}

pub struct CreateBodyView {
    pub record: Seq<char>,
    pub entity_prefix: Seq<char>,
}

impl View for CreateBody {
    type V = CreateBodyView;

    open spec fn view(&self) -> CreateBodyView {
        CreateBodyView { record: self.record@, entity_prefix: self.entity_prefix@ }
    }
}

impl DeepView for CreateBody {
    type V = CreateBodyView;

    open spec fn deep_view(&self) -> CreateBodyView {
        self@
    }
}

pub struct CreateRequest {
    pub params: Option<CreateParams>,
    pub query: Option<Query>,
    pub body: Option<CreateBody>,
}

pub struct CreateRequestView {
    pub params: Option<CreateParamsView>,
    pub query: Option<QueryView>,
    pub body: Option<CreateBodyView>,
}

impl View for CreateRequest {
    type V = CreateRequestView;

    open spec fn view(&self) -> CreateRequestView {
        CreateRequestView {
            params: self.params.deep_view(),
            query: self.query.deep_view(),
            body: self.body.deep_view(),
        }
    }
}

/// Several records as the JSON text of an array.
pub struct BatchCreateBody {
    pub records: String,
    pub entity_prefix: String,
}

pub struct BatchCreateBodyView {
    pub records: Seq<char>,
    pub entity_prefix: Seq<char>,
}

impl View for BatchCreateBody {
    type V = BatchCreateBodyView;

    open spec fn view(&self) -> BatchCreateBodyView {
        BatchCreateBodyView { records: self.records@, entity_prefix: self.entity_prefix@ }
    }
}

impl DeepView for BatchCreateBody {
    type V = BatchCreateBodyView;

    open spec fn deep_view(&self) -> BatchCreateBodyView {
        self@
    }
}

pub struct BatchCreateRequest {
    pub params: Option<CreateParams>,
    pub query: Option<Query>,
    pub body: Option<BatchCreateBody>,
}

pub struct BatchCreateRequestView {
    pub params: Option<CreateParamsView>,
    pub query: Option<QueryView>,
    pub body: Option<BatchCreateBodyView>,
}

impl View for BatchCreateRequest {
    type V = BatchCreateRequestView;

    open spec fn view(&self) -> BatchCreateRequestView {
        BatchCreateRequestView {
            params: self.params.deep_view(),
            query: self.query.deep_view(),
            body: self.body.deep_view(),
        }
    }
}

/// The records that the filters select get the fields of `updates`, a JSON object.
pub struct BatchUpdateBody {
    pub advance_filters: Vec<AdvanceFilter>,
    pub updates: String,
}

pub struct BatchUpdateBodyView {
    pub advance_filters: Seq<AdvanceFilterView>,
    pub updates: Seq<char>,
}

impl View for BatchUpdateBody {
    type V = BatchUpdateBodyView;

    open spec fn view(&self) -> BatchUpdateBodyView {
        BatchUpdateBodyView {
            advance_filters: self.advance_filters.deep_view(),
            updates: self.updates@,
        }
    }
}

impl DeepView for BatchUpdateBody {
    type V = BatchUpdateBodyView;

    open spec fn deep_view(&self) -> BatchUpdateBodyView {
        self@
    }
}

pub struct BatchUpdateRequest {
    pub params: Option<Params>,
    pub body: Option<BatchUpdateBody>,
}

pub struct BatchUpdateRequestView {
    pub params: Option<ParamsView>,
    pub body: Option<BatchUpdateBodyView>,
}

impl View for BatchUpdateRequest {
    type V = BatchUpdateRequestView;

    open spec fn view(&self) -> BatchUpdateRequestView {
        BatchUpdateRequestView { params: self.params.deep_view(), body: self.body.deep_view() }
    }
}

/// `is_permanent` is the text `"true"` or `"false"`.
pub struct DeleteQuery {
    pub is_permanent: String,
}

pub struct DeleteQueryView {
    pub is_permanent: Seq<char>,
}

impl View for DeleteQuery {
    type V = DeleteQueryView;

    open spec fn view(&self) -> DeleteQueryView {
        DeleteQueryView { is_permanent: self.is_permanent@ }
    }
}

impl DeepView for DeleteQuery {
    type V = DeleteQueryView;

    open spec fn deep_view(&self) -> DeleteQueryView {
        self@
    }
}

pub struct DeleteRequest {
    pub params: Option<Params>,
    pub query: Option<DeleteQuery>,
}

pub struct DeleteRequestView {
    pub params: Option<ParamsView>,
    pub query: Option<DeleteQueryView>,
}

impl View for DeleteRequest {
    type V = DeleteRequestView;

    open spec fn view(&self) -> DeleteRequestView {
        DeleteRequestView { params: self.params.deep_view(), query: self.query.deep_view() }
    }
}

pub struct GetByIdRequest {
    pub params: Option<Params>,
    pub query: Option<Query>,
}

pub struct GetByIdRequestView {
    pub params: Option<ParamsView>,
    pub query: Option<QueryView>,
}

impl View for GetByIdRequest {
    type V = GetByIdRequestView;

    open spec fn view(&self) -> GetByIdRequestView {
        GetByIdRequestView { params: self.params.deep_view(), query: self.query.deep_view() }
    }
}

pub struct EntityFieldTo {
    pub entity: String,
    pub field: String,
    pub alias: String,
    pub limit: i32,
    pub order_by: String,
    pub filters: Vec<AdvanceFilter>,
}

pub struct EntityFieldToView {
    pub entity: Seq<char>,
    pub field: Seq<char>,
    pub alias: Seq<char>,
    pub limit: i32,
    pub order_by: Seq<char>,
    pub filters: Seq<AdvanceFilterView>,
}

impl View for EntityFieldTo {
    type V = EntityFieldToView;

    open spec fn view(&self) -> EntityFieldToView {
        EntityFieldToView {
            entity: self.entity@,
            field: self.field@,
            alias: self.alias@,
            limit: self.limit,
            order_by: self.order_by@,
            filters: self.filters.deep_view(),
        }
    }
}

impl DeepView for EntityFieldTo {
    type V = EntityFieldToView;

    open spec fn deep_view(&self) -> EntityFieldToView {
        self@
    }
}

pub struct EntityFieldFrom {
    pub entity: String,
    pub field: String,
}

pub struct EntityFieldFromView {
    pub entity: Seq<char>,
    pub field: Seq<char>,
}

impl View for EntityFieldFrom {
    type V = EntityFieldFromView;

    open spec fn view(&self) -> EntityFieldFromView {
        EntityFieldFromView { entity: self.entity@, field: self.field@ }
    }
}

impl DeepView for EntityFieldFrom {
    type V = EntityFieldFromView;

    open spec fn deep_view(&self) -> EntityFieldFromView {
        self@
    }
}

pub struct FieldRelation {
    pub to: Option<EntityFieldTo>,
    pub from: Option<EntityFieldFrom>,
}

pub struct FieldRelationView {
    pub to: Option<EntityFieldToView>,
    pub from: Option<EntityFieldFromView>,
}

impl View for FieldRelation {
    type V = FieldRelationView;

    open spec fn view(&self) -> FieldRelationView {
        FieldRelationView { to: self.to.deep_view(), from: self.from.deep_view() }
    }
}

impl DeepView for FieldRelation {
    type V = FieldRelationView;

    open spec fn deep_view(&self) -> FieldRelationView {
        self@
    }
}

/// A join of another table into the records that a filter request returns.
pub struct Join {
    pub type_: String,
    pub field_relation: Option<FieldRelation>,
}

pub struct JoinView {
    pub type_: Seq<char>,
    pub field_relation: Option<FieldRelationView>,
}

impl View for Join {
    type V = JoinView;

    open spec fn view(&self) -> JoinView {
        JoinView { type_: self.type_@, field_relation: self.field_relation.deep_view() }
    }
}

impl DeepView for Join {
    type V = JoinView;

    open spec fn deep_view(&self) -> JoinView {
        self@
    }
}

pub struct MultipleSort {
    pub by_field: String,
    pub by_direction: String,
}

pub struct MultipleSortView {
    pub by_field: Seq<char>,
    pub by_direction: Seq<char>,
}

impl View for MultipleSort {
    type V = MultipleSortView;

    open spec fn view(&self) -> MultipleSortView {
        MultipleSortView { by_field: self.by_field@, by_direction: self.by_direction@ }
    }
}

impl DeepView for MultipleSort {
    type V = MultipleSortView;

    open spec fn deep_view(&self) -> MultipleSortView {
        self@
    }
}

/// The body of a filter request. `pluck_object` lists the entries of a map;
/// a later entry for a key replaces an earlier one.
pub struct GetByFilterBody {
    pub pluck: Vec<String>,
    pub advance_filters: Vec<AdvanceFilter>,
    pub order_by: String,
    pub limit: i32,
    pub offset: i32,
    pub order_direction: String,
    pub joins: Vec<Join>,
    pub multiple_sort: Vec<MultipleSort>,
    pub pluck_object: Vec<(String, String)>,
    pub date_format: String,
}

pub struct GetByFilterBodyView {
    pub pluck: Seq<Seq<char>>,
    pub advance_filters: Seq<AdvanceFilterView>,
    pub order_by: Seq<char>,
    pub limit: i32,
    pub offset: i32,
    pub order_direction: Seq<char>,
    pub joins: Seq<JoinView>,
    pub multiple_sort: Seq<MultipleSortView>,
    pub pluck_object: Map<Seq<char>, Seq<char>>,
    pub date_format: Seq<char>,
}

impl View for GetByFilterBody {
    type V = GetByFilterBodyView;

    open spec fn view(&self) -> GetByFilterBodyView {
        GetByFilterBodyView {
            pluck: self.pluck.deep_view(),
            advance_filters: self.advance_filters.deep_view(),
            order_by: self.order_by@,
            limit: self.limit,
            offset: self.offset,
            order_direction: self.order_direction@,
            joins: self.joins.deep_view(),
            multiple_sort: self.multiple_sort.deep_view(),
            pluck_object: entries_to_map(self.pluck_object.deep_view()),
            date_format: self.date_format@,
        }
    }
}

impl DeepView for GetByFilterBody {
    type V = GetByFilterBodyView;

    open spec fn deep_view(&self) -> GetByFilterBodyView {
        self@
    }
}

pub struct GetByFilterRequest {
    pub body: Option<GetByFilterBody>,
    pub params: Option<Params>,
}

pub struct GetByFilterRequestView {
    pub body: Option<GetByFilterBodyView>,
    pub params: Option<ParamsView>,
}

impl View for GetByFilterRequest {
    type V = GetByFilterRequestView;

    open spec fn view(&self) -> GetByFilterRequestView {
        GetByFilterRequestView { body: self.body.deep_view(), params: self.params.deep_view() }
    }
}

pub struct LoginData {
    pub account_id: String,
    pub account_secret: String,
}

pub struct LoginDataView {
    pub account_id: Seq<char>,
    pub account_secret: Seq<char>,
}

impl View for LoginData {
    type V = LoginDataView;

    open spec fn view(&self) -> LoginDataView {
        LoginDataView { account_id: self.account_id@, account_secret: self.account_secret@ }
    }
}

impl DeepView for LoginData {
    type V = LoginDataView;

    open spec fn deep_view(&self) -> LoginDataView {
        self@
    }
}

pub struct LoginBody {
    pub data: Option<LoginData>,
}

pub struct LoginBodyView {
    pub data: Option<LoginDataView>,
}

impl View for LoginBody {
    type V = LoginBodyView;

    open spec fn view(&self) -> LoginBodyView {
        LoginBodyView { data: self.data.deep_view() }
    }
}

impl DeepView for LoginBody {
    type V = LoginBodyView;

    open spec fn deep_view(&self) -> LoginBodyView {
        self@
    }
}

/// `is_root` is the text `"true"` or `"false"`.
pub struct LoginParams {
    pub is_root: String,
    pub t: String,
}

pub struct LoginParamsView {
    pub is_root: Seq<char>,
    pub t: Seq<char>,
}

impl View for LoginParams {
    type V = LoginParamsView;

    open spec fn view(&self) -> LoginParamsView {
        LoginParamsView { is_root: self.is_root@, t: self.t@ }
    }
}

impl DeepView for LoginParams {
    type V = LoginParamsView;

    open spec fn deep_view(&self) -> LoginParamsView {
        self@
    }
}

pub struct LoginRequest {
    pub body: Option<LoginBody>,
    pub params: Option<LoginParams>,
}

pub struct LoginRequestView {
    pub body: Option<LoginBodyView>,
    pub params: Option<LoginParamsView>,
}

impl View for LoginRequest {
    type V = LoginRequestView;

    open spec fn view(&self) -> LoginRequestView {
        LoginRequestView { body: self.body.deep_view(), params: self.params.deep_view() }
    }
}

pub struct RegisterDeviceParams {
    pub organization_id: String,
    pub account_id: String,
    pub account_secret: String,
    pub is_new_user: bool,
    pub is_invited: bool,
    pub role_id: String,
    pub account_organization_status: String,
    pub account_organization_categories: Vec<String>,
    pub device_categories: Vec<String>,
    pub device_id: String,
}

pub struct RegisterDeviceParamsView {
    pub organization_id: Seq<char>,
    pub account_id: Seq<char>,
    pub account_secret: Seq<char>,
    pub is_new_user: bool,
    pub is_invited: bool,
    pub role_id: Seq<char>,
    pub account_organization_status: Seq<char>,
    pub account_organization_categories: Seq<Seq<char>>,
    pub device_categories: Seq<Seq<char>>,
    pub device_id: Seq<char>,
}

impl View for RegisterDeviceParams {
    type V = RegisterDeviceParamsView;

    open spec fn view(&self) -> RegisterDeviceParamsView {
        RegisterDeviceParamsView {
            organization_id: self.organization_id@,
            account_id: self.account_id@,
            account_secret: self.account_secret@,
            is_new_user: self.is_new_user,
            is_invited: self.is_invited,
            role_id: self.role_id@,
            account_organization_status: self.account_organization_status@,
            account_organization_categories: self.account_organization_categories.deep_view(),
            device_categories: self.device_categories.deep_view(),
            device_id: self.device_id@,
        }
    }
}

impl DeepView for RegisterDeviceParams {
    type V = RegisterDeviceParamsView;

    open spec fn deep_view(&self) -> RegisterDeviceParamsView {
        self@
    }
}

pub struct RegisterDeviceRequest {
    pub device: Option<RegisterDeviceParams>,
}

pub struct RegisterDeviceRequestView {
    pub device: Option<RegisterDeviceParamsView>,
}

impl View for RegisterDeviceRequest {
    type V = RegisterDeviceRequestView;

    open spec fn view(&self) -> RegisterDeviceRequestView {
        RegisterDeviceRequestView { device: self.device.deep_view() }
    }
}

/// The kind of account that a registration creates.
#[derive(PartialEq, Eq, Structural, Clone, Copy, Debug)]
pub enum AccountType {
    Device,
}

pub struct RegisterParams {
    pub id: String,
    pub name: String,
    pub contact_id: String,
    pub email: String,
    pub password: String,
    pub parent_organization_id: String,
    pub code: String,
    pub categories: Vec<String>,
    pub account_status: String,
    pub account_type: AccountType,
    pub organization_name: String,
    pub organization_id: String,
    pub account_id: String,
    pub account_secret: String,
    pub is_new_user: bool,
    pub first_name: String,
    pub last_name: String,
    pub is_invited: bool,
    pub role_id: String,
    pub account_organization_status: String,
    pub account_organization_categories: Vec<String>,
    pub account_organization_id: String,
    pub contact_categories: Vec<String>,
    pub device_categories: Vec<String>,
    pub responsible_account_organization_id: String,
}

pub struct RegisterParamsView {
    pub id: Seq<char>,
    pub name: Seq<char>,
    pub contact_id: Seq<char>,
    pub email: Seq<char>,
    pub password: Seq<char>,
    pub parent_organization_id: Seq<char>,
    pub code: Seq<char>,
    pub categories: Seq<Seq<char>>,
    pub account_status: Seq<char>,
    pub account_type: AccountType,
    pub organization_name: Seq<char>,
    pub organization_id: Seq<char>,
    pub account_id: Seq<char>,
    pub account_secret: Seq<char>,
    pub is_new_user: bool,
    pub first_name: Seq<char>,
    pub last_name: Seq<char>,
    pub is_invited: bool,
    pub role_id: Seq<char>,
    pub account_organization_status: Seq<char>,
    pub account_organization_categories: Seq<Seq<char>>,
    pub account_organization_id: Seq<char>,
    pub contact_categories: Seq<Seq<char>>,
    pub device_categories: Seq<Seq<char>>,
    pub responsible_account_organization_id: Seq<char>,
}

impl View for RegisterParams {
    type V = RegisterParamsView;

    open spec fn view(&self) -> RegisterParamsView {
        RegisterParamsView {
            id: self.id@,
            name: self.name@,
            contact_id: self.contact_id@,
            email: self.email@,
            password: self.password@,
            parent_organization_id: self.parent_organization_id@,
            code: self.code@,
            categories: self.categories.deep_view(),
            account_status: self.account_status@,
            account_type: self.account_type,
            organization_name: self.organization_name@,
            organization_id: self.organization_id@,
            account_id: self.account_id@,
            account_secret: self.account_secret@,
            is_new_user: self.is_new_user,
            first_name: self.first_name@,
            last_name: self.last_name@,
            is_invited: self.is_invited,
            role_id: self.role_id@,
            account_organization_status: self.account_organization_status@,
            account_organization_categories: self.account_organization_categories.deep_view(),
            account_organization_id: self.account_organization_id@,
            contact_categories: self.contact_categories.deep_view(),
            device_categories: self.device_categories.deep_view(),
            responsible_account_organization_id: self.responsible_account_organization_id@,
        }
    }
}

impl DeepView for RegisterParams {
    type V = RegisterParamsView;

    open spec fn deep_view(&self) -> RegisterParamsView {
        self@
    }
}

pub struct RegisterRequest {
    pub body: Option<RegisterParams>,
    pub is_request: bool,
}

pub struct RegisterRequestView {
    pub body: Option<RegisterParamsView>,
    pub is_request: bool,
}

impl View for RegisterRequest {
    type V = RegisterRequestView;

    open spec fn view(&self) -> RegisterRequestView {
        RegisterRequestView { body: self.body.deep_view(), is_request: self.is_request }
    }
}

/// `body` is the JSON text of the fields to change.
pub struct UpdateRequest {
    pub params: Option<Params>,
    pub query: Option<Query>,
    pub body: String,
}

pub struct UpdateRequestView {
    pub params: Option<ParamsView>,
    pub query: Option<QueryView>,
    pub body: Seq<char>,
}

impl View for UpdateRequest {
    type V = UpdateRequestView;

    open spec fn view(&self) -> UpdateRequestView {
        UpdateRequestView {
            params: self.params.deep_view(),
            query: self.query.deep_view(),
            body: self.body@,
        }
    }
}

/// What the datastore answers a successful request with: the number of
/// records, their JSON text, and its encoding.
pub struct ResponseData {
    pub count: i32,
    pub data: String,
    pub encoding: String,
}

pub struct ResponseDataView {
    pub count: i32,
    pub data: Seq<char>,
    pub encoding: Seq<char>,
}

impl View for ResponseData {
    type V = ResponseDataView;

    open spec fn view(&self) -> ResponseDataView {
        ResponseDataView { count: self.count, data: self.data@, encoding: self.encoding@ }
    }
}

} // verus!
