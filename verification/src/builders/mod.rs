//! Builders for the datastore's requests: each setter records a value, and
//! `build` fills what was not set with the datastore's defaults.
pub mod advanced_filter_builder;
pub mod batch_create_request_builder;
pub mod batch_update_request_builder;
pub mod create_request_builder;
pub mod delete_request_builder;
pub mod get_by_filter_request_builder;
pub mod get_by_id_request_builder;
pub mod login_request_builder;
pub mod register_device_request_builder;
pub mod register_request_builder;
pub mod update_request_builder;

pub use advanced_filter_builder::AdvanceFilterBuilder;
pub use create_request_builder::CreateRequestBuilder;
pub use batch_create_request_builder::BatchCreateRequestBuilder;
pub use batch_update_request_builder::BatchUpdateRequestBuilder;
pub use delete_request_builder::DeleteRequestBuilder;
pub use get_by_id_request_builder::GetByIdRequestBuilder;
pub use login_request_builder::LoginRequestBuilder;
pub use update_request_builder::UpdateRequestBuilder;
pub use register_device_request_builder::RegisterDeviceRequestBuilder;
pub use register_request_builder::RegisterRequestBuilder;
pub use get_by_filter_request_builder::GetByFilterRequestBuilder;
