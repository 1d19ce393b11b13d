//! Reading the records that the datastore sends back.
//!
//! The datastore answers with the JSON text of an array of records. Each
//! reader here has two forms: one that takes the parsed [`JsonValue`], with
//! an exact contract, and one that takes the text and parses it first.
use crate::json::{
    entries_get, json_bool, json_first_object, json_i64, json_parse, json_str, JsonValue,
    JsonView,
};
use crate::requests::ResponseData;
use crate::status::{lowercase, map_status_value_to_enum, status_of_lowercase, DeviceStatus};
use vstd::prelude::*;

verus! {

/// A field of a record that a reader needs.
#[derive(PartialEq, Eq, Structural, Clone, Copy, Debug)]
pub enum ResponseField {
    Id,
    Digest,
    ConfigVersion,
    Status,
    IsMonitoringEnabled,
    IsRemoteAccessEnabled,
    DeviceGuiProtocol,
}

/// Why the records could not be read.
#[derive(PartialEq, Eq, Structural, Clone, Copy, Debug)]
pub enum ResponseError {
    /// The data is not JSON text.
    NotJson,
    /// The data is not an array whose first element is an object.
    NoRecord,
    /// The first record lacks the field, or holds a value of another type in it.
    MissingField(ResponseField),
}

/// The name of a field in the datastore's records.
pub open spec fn field_name(f: ResponseField) -> Seq<char> {
    match f {
        ResponseField::Id => "id"@,
        ResponseField::Digest => "digest"@,
        ResponseField::ConfigVersion => "config_version"@,
        ResponseField::Status => "status"@,
        ResponseField::IsMonitoringEnabled => "is_monitoring_enabled"@,
        ResponseField::IsRemoteAccessEnabled => "is_remote_access_enabled"@,
        ResponseField::DeviceGuiProtocol => "device_gui_protocol"@,
    }
}

/// The text field `f` of the first record.
pub open spec fn first_record_text(v: JsonView, f: ResponseField) -> Result<Seq<char>, ResponseError> {
    match json_first_object(v) {
        None => Err(ResponseError::NoRecord),
        Some(e) => match entries_get(e, field_name(f)) {
            Some(x) => match json_str(x) {
                Some(s) => Ok(s),
                None => Err(ResponseError::MissingField(f)),
            },
            None => Err(ResponseError::MissingField(f)),
        },
    }
}

/// The flag field `f` of the first record.
pub open spec fn first_record_flag(v: JsonView, f: ResponseField) -> Result<bool, ResponseError> {
    match json_first_object(v) {
        None => Err(ResponseError::NoRecord),
        Some(e) => match entries_get(e, field_name(f)) {
            Some(x) => match json_bool(x) {
                Some(b) => Ok(b),
                None => Err(ResponseError::MissingField(f)),
            },
            None => Err(ResponseError::MissingField(f)),
        },
    }
}

/// The integer field `f` of the first record.
pub open spec fn first_record_i64(v: JsonView, f: ResponseField) -> Result<i64, ResponseError> {
    match json_first_object(v) {
        None => Err(ResponseError::NoRecord),
        Some(e) => match entries_get(e, field_name(f)) {
            Some(x) => match json_i64(x) {
                Some(n) => Ok(n),
                None => Err(ResponseError::MissingField(f)),
            },
            None => Err(ResponseError::MissingField(f)),
        },
    }
}

/// The name of a field, as text.
pub fn field_name_str(f: ResponseField) -> (r: &'static str)
    ensures
        r@ == field_name(f),
{
    match f {
        ResponseField::Id => "id",
        ResponseField::Digest => "digest",
        ResponseField::ConfigVersion => "config_version",
        ResponseField::Status => "status",
        ResponseField::IsMonitoringEnabled => "is_monitoring_enabled",
        ResponseField::IsRemoteAccessEnabled => "is_remote_access_enabled",
        ResponseField::DeviceGuiProtocol => "device_gui_protocol",
    }
}

/// The field `f` of the first record, whatever its type.
fn first_record_field(v: &JsonValue, f: ResponseField) -> (r: Result<&JsonValue, ResponseError>)
    ensures
        json_first_object(v@) is None ==> r == Err::<&JsonValue, ResponseError>(
            ResponseError::NoRecord,
        ),
        json_first_object(v@) matches Some(e) ==> match entries_get(e, field_name(f)) {
            Some(x) => r matches Ok(val) && val@ == x,
            None => r == Err::<&JsonValue, ResponseError>(ResponseError::MissingField(f)),
        },
{
    match v.first_object() {
        None => Err(ResponseError::NoRecord),
        Some(entries) => match crate::json::find_key(entries, field_name_str(f)) {
            Some(i) => {
                proof {
                    crate::json::lemma_entries_view(entries@);
                }
                Ok(&entries[i].1)
            },
            None => Err(ResponseError::MissingField(f)),
        },
    }
}

/// The text field `f` of the first record.
pub fn read_first_record_text(v: &JsonValue, f: ResponseField) -> (r: Result<String, ResponseError>)
    ensures
        match r {
            Ok(s) => first_record_text(v@, f) == Ok::<Seq<char>, ResponseError>(s@),
            Err(e) => first_record_text(v@, f) == Err::<Seq<char>, ResponseError>(e),
        },
{
    let x = first_record_field(v, f)?;
    match x.as_str() {
        Some(s) => Ok(s.clone()),
        None => Err(ResponseError::MissingField(f)),
    }
}

/// The flag field `f` of the first record.
pub fn read_first_record_flag(v: &JsonValue, f: ResponseField) -> (r: Result<bool, ResponseError>)
    ensures
        r == first_record_flag(v@, f),
{
    let x = first_record_field(v, f)?;
    match x.as_bool() {
        Some(b) => Ok(b),
        None => Err(ResponseError::MissingField(f)),
    }
}

/// The integer field `f` of the first record.
pub fn read_first_record_i64(v: &JsonValue, f: ResponseField) -> (r: Result<i64, ResponseError>)
    ensures
        r == first_record_i64(v@, f),
{
    let x = first_record_field(v, f)?;
    match x.as_i64() {
        Some(n) => Ok(n),
        None => Err(ResponseError::MissingField(f)),
    }
}

/// Parses the records' text.
pub fn parse_records(data: &str) -> (r: Result<JsonValue, ResponseError>)
    ensures
        match json_parse(data@) {
            Some(v) => r matches Ok(val) && val@ == v,
            None => r == Err::<JsonValue, ResponseError>(ResponseError::NotJson),
        },
{
    match JsonValue::parse(data) {
        Some(v) => Ok(v),
        None => Err(ResponseError::NotJson),
    }
}

/// What a text field of the first record of the data is.
pub open spec fn data_text(data: Seq<char>, f: ResponseField) -> Result<Seq<char>, ResponseError> {
    match json_parse(data) {
        Some(v) => first_record_text(v, f),
        None => Err(ResponseError::NotJson),
    }
}

/// What a flag field of the first record of the data is.
pub open spec fn data_flag(data: Seq<char>, f: ResponseField) -> Result<bool, ResponseError> {
    match json_parse(data) {
        Some(v) => first_record_flag(v, f),
        None => Err(ResponseError::NotJson),
    }
}

/// The id of the configuration record that the datastore created.
pub fn parse_configuraion_id(response: &ResponseData) -> (r: Result<String, ResponseError>)
    ensures
        match r {
            Ok(s) => data_text(response.data@, ResponseField::Id) == Ok::<Seq<char>, ResponseError>(s@),
            Err(e) => data_text(response.data@, ResponseField::Id) == Err::<Seq<char>, ResponseError>(e),
        },
{
    let v = parse_records(response.data.as_str())?;
    read_first_record_text(&v, ResponseField::Id)
}

/// The protocol of a device's web interface, from the device record.
pub fn parse_webgui_protocol(data: &str) -> (r: Result<String, ResponseError>)
    ensures
        match r {
            Ok(s) => data_text(data@, ResponseField::DeviceGuiProtocol) == Ok::<Seq<char>, ResponseError>(s@),
            Err(e) => data_text(data@, ResponseField::DeviceGuiProtocol) == Err::<Seq<char>, ResponseError>(e),
        },
{
    let v = parse_records(data)?;
    read_first_record_text(&v, ResponseField::DeviceGuiProtocol)
}

/// Whether remote access is enabled, from the device record.
pub fn parse_remote_access_enabled(data: &str) -> (r: Result<bool, ResponseError>)
    ensures
        r == data_flag(data@, ResponseField::IsRemoteAccessEnabled),
{
    let v = parse_records(data)?;
    read_first_record_flag(&v, ResponseField::IsRemoteAccessEnabled)
}

/// The status of a device, from the device record.
pub fn parse_device_status(data: &str) -> (r: Result<DeviceStatus, ResponseError>)
    ensures
        match data_text(data@, ResponseField::Status) {
            Ok(s) => r == Ok::<DeviceStatus, ResponseError>(status_of_lowercase(lowercase(s))),
            Err(e) => r == Err::<DeviceStatus, ResponseError>(e),
        },
{
    let v = parse_records(data)?;
    let status = read_first_record_text(&v, ResponseField::Status)?;
    Ok(map_status_value_to_enum(status))
}

/// The latest configuration of a device that the datastore holds.
pub struct LatestConfigInfo {
    pub id: String,
    pub digest: String,
    pub version: i64,
}

pub struct LatestConfigInfoView {
    pub id: Seq<char>,
    pub digest: Seq<char>,
    pub version: i64,
}

impl View for LatestConfigInfo {
    type V = LatestConfigInfoView;

    open spec fn view(&self) -> LatestConfigInfoView {
        LatestConfigInfoView { id: self.id@, digest: self.digest@, version: self.version }
    }
}

impl DeepView for LatestConfigInfo {
    type V = LatestConfigInfoView;

    open spec fn deep_view(&self) -> LatestConfigInfoView {
        self@
    }
}

/// The configuration that the first record describes: its digest, id and
/// version are read in that order, and the first that fails is the error.
pub open spec fn latest_config_info_of(v: JsonView) -> Result<LatestConfigInfoView, ResponseError> {
    match first_record_text(v, ResponseField::Digest) {
        Err(e) => Err(e),
        Ok(digest) => match first_record_text(v, ResponseField::Id) {
            Err(e) => Err(e),
            Ok(id) => match first_record_i64(v, ResponseField::ConfigVersion) {
                Err(e) => Err(e),
                Ok(version) => Ok(LatestConfigInfoView { id, digest, version }),
            },
        },
    }
}

impl LatestConfigInfo {
    pub fn from_json(value: &JsonValue) -> (r: Result<LatestConfigInfo, ResponseError>)
        ensures
            match r {
                Ok(info) => latest_config_info_of(value@) == Ok::<LatestConfigInfoView, ResponseError>(info@),
                Err(e) => latest_config_info_of(value@) == Err::<LatestConfigInfoView, ResponseError>(e),
            },
    {
        let digest = read_first_record_text(value, ResponseField::Digest)?;
        let id = read_first_record_text(value, ResponseField::Id)?;
        let version = read_first_record_i64(value, ResponseField::ConfigVersion)?;
        Ok(LatestConfigInfo { id, digest, version })
    }

    pub fn from_response_data(data: &ResponseData) -> (r: Result<LatestConfigInfo, ResponseError>)
        ensures
            match json_parse(data.data@) {
                None => r == Err::<LatestConfigInfo, ResponseError>(ResponseError::NotJson),
                Some(v) => match r {
                    Ok(info) => latest_config_info_of(v) == Ok::<LatestConfigInfoView, ResponseError>(info@),
                    Err(e) => latest_config_info_of(v) == Err::<LatestConfigInfoView, ResponseError>(e),
                },
            },
    {
        let v = parse_records(data.data.as_str())?;
        Self::from_json(&v)
    }
}

/// What the datastore knows of a device at a heartbeat.
pub struct LatestDeviceInfo {
    pub status: DeviceStatus,
    pub is_remote_access_enabled: bool,
    pub is_monitoring_enabled: bool,
}

/// The device that the first record describes: the monitoring flag, the
/// remote access flag and the status are read in that order, and the first
/// that fails is the error.
pub open spec fn latest_device_info_of(v: JsonView) -> Result<(DeviceStatus, bool, bool), ResponseError> {
    match first_record_flag(v, ResponseField::IsMonitoringEnabled) {
        Err(e) => Err(e),
        Ok(monitoring) => match first_record_flag(v, ResponseField::IsRemoteAccessEnabled) {
            Err(e) => Err(e),
            Ok(remote) => match first_record_text(v, ResponseField::Status) {
                Err(e) => Err(e),
                Ok(status) => Ok((status_of_lowercase(lowercase(status)), remote, monitoring)),
            },
        },
    }
}

impl LatestDeviceInfo {
    pub open spec fn fields(&self) -> (DeviceStatus, bool, bool) {
        (self.status, self.is_remote_access_enabled, self.is_monitoring_enabled)
    }

    pub fn from_json(value: &JsonValue) -> (r: Result<LatestDeviceInfo, ResponseError>)
        ensures
            match r {
                Ok(info) => latest_device_info_of(value@) == Ok::<(DeviceStatus, bool, bool), ResponseError>(info.fields()),
                Err(e) => latest_device_info_of(value@) == Err::<(DeviceStatus, bool, bool), ResponseError>(e),
            },
    {
        let is_monitoring_enabled = read_first_record_flag(value, ResponseField::IsMonitoringEnabled)?;
        let is_remote_access_enabled = read_first_record_flag(
            value,
            ResponseField::IsRemoteAccessEnabled,
        )?;
        let status = read_first_record_text(value, ResponseField::Status)?;
        Ok(LatestDeviceInfo {
            status: map_status_value_to_enum(status),
            is_remote_access_enabled,
            is_monitoring_enabled,
        })
    }

    pub fn from_response_data(response: &ResponseData) -> (r: Result<LatestDeviceInfo, ResponseError>)
        ensures
            match json_parse(response.data@) {
                None => r == Err::<LatestDeviceInfo, ResponseError>(ResponseError::NotJson),
                Some(v) => match r {
                    Ok(info) => latest_device_info_of(v) == Ok::<(DeviceStatus, bool, bool), ResponseError>(info.fields()),
                    Err(e) => latest_device_info_of(v) == Err::<(DeviceStatus, bool, bool), ResponseError>(e),
                },
            },
    {
        let v = parse_records(response.data.as_str())?;
        Self::from_json(&v)
    }
}

} // verus!
