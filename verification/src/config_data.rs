//! What the control service does with a configuration snapshot that a
//! device sends: the same configuration again gets the next version, a
//! changed one is stored as new, at version 0.
use crate::config_upload::ClientConfiguration;
use crate::digest::{digest, md5_hex};
use crate::json::string_eq_str;
use crate::text::owned;
use vstd::prelude::*;

verus! {

/// A configuration record of a device.
pub struct DeviceConfiguration {
    pub id: String,
    pub device_id: String,
    pub digest: String,
    pub hostname: String,
    pub raw_content: String,
    pub version: i64,
}

pub struct DeviceConfigurationView {
    pub id: Seq<char>,
    pub device_id: Seq<char>,
    pub digest: Seq<char>,
    pub hostname: Seq<char>,
    pub raw_content: Seq<char>,
    pub version: i64,
}

impl View for DeviceConfiguration {
    type V = DeviceConfigurationView;

    open spec fn view(&self) -> DeviceConfigurationView {
        DeviceConfigurationView {
            id: self.id@,
            device_id: self.device_id@,
            digest: self.digest@,
            hostname: self.hostname@,
            raw_content: self.raw_content@,
            version: self.version,
        }
    }
}

impl DeepView for DeviceConfiguration {
    type V = DeviceConfigurationView;

    open spec fn deep_view(&self) -> DeviceConfigurationView {
        self@
    }
}

/// What becomes of a snapshot.
pub enum SnapshotAction {
    /// Store this record in place of the previous one: the same
    /// configuration, one version on.
    Update(DeviceConfiguration),
    /// Store this record, and the rules, aliases and interfaces of the
    /// snapshot with it.
    Insert(DeviceConfiguration),
}

/// The record of a configuration stored for the first time.
pub open spec fn new_configuration_of(
    device_id: Seq<char>,
    digest: Seq<char>,
    hostname: Seq<char>,
    raw_content: Seq<char>,
) -> DeviceConfigurationView {
    DeviceConfigurationView {
        id: Seq::empty(),
        device_id,
        digest,
        hostname,
        raw_content,
        version: 0,
    }
}

/// The previous record, one version on.
pub open spec fn next_version_of(previous: DeviceConfigurationView) -> DeviceConfigurationView {
    DeviceConfigurationView { version: (previous.version + 1) as i64, ..previous }
}

/// Whether a snapshot with this digest keeps the previous configuration.
pub open spec fn keeps_previous(previous: Option<DeviceConfigurationView>, digest: Seq<char>) -> bool {
    previous matches Some(p) && p.digest == digest
}

/// Decides what becomes of a snapshot whose digest is `digest`, given the
/// device's previous configuration.
pub fn snapshot_action(
    previous: Option<DeviceConfiguration>,
    device_id: &str,
    config: &ClientConfiguration,
    digest: &str,
) -> (r: SnapshotAction)
    requires
        previous matches Some(p) ==> p.digest@ == digest@ ==> p.version < i64::MAX,
    ensures
        match previous {
            Some(p) => if p.digest@ == digest@ {
                r matches SnapshotAction::Update(c) && c@ == next_version_of(p@)
            } else {
                r matches SnapshotAction::Insert(c) && c@ == new_configuration_of(
                    device_id@,
                    digest@,
                    config.hostname@,
                    config.raw_content@,
                )
            },
            None => r matches SnapshotAction::Insert(c) && c@ == new_configuration_of(
                device_id@,
                digest@,
                config.hostname@,
                config.raw_content@,
            ),
        },
{
    match previous {
        Some(mut prev) => {
            if string_eq_str(&prev.digest, digest) {
                prev.version = prev.version + 1;
                return SnapshotAction::Update(prev);
            }
        },
        None => {},
    }
    SnapshotAction::Insert(
        DeviceConfiguration {
            id: String::new(),
            device_id: owned(device_id),
            digest: owned(digest),
            hostname: config.hostname.clone(),
            raw_content: config.raw_content.clone(),
            version: 0,
        },
    )
}

/// Plans a snapshot: its digest is computed from its raw content and
/// compared with the previous configuration's. `None` where the previous
/// configuration would be kept but its version cannot grow.
pub fn plan_snapshot(
    previous: Option<DeviceConfiguration>,
    device_id: &str,
    config: &ClientConfiguration,
) -> (r: Option<SnapshotAction>)
    ensures
        keeps_previous(previous.deep_view(), md5_hex(config.raw_content@)) ==> if previous->0.version
            < i64::MAX {
            r matches Some(SnapshotAction::Update(c)) && c@ == next_version_of(previous->0@)
        } else {
            r is None
        },
        !keeps_previous(previous.deep_view(), md5_hex(config.raw_content@)) ==> (r matches Some(
            SnapshotAction::Insert(c),
        ) && c@ == new_configuration_of(
            device_id@,
            md5_hex(config.raw_content@),
            config.hostname@,
            config.raw_content@,
        )),
{
    let d = digest(config.raw_content.as_str());
    let blocked = match &previous {
        Some(p) => string_eq_str(&p.digest, d.as_str()) && p.version == i64::MAX,
        None => false,
    };
    if blocked {
        None
    } else {
        Some(snapshot_action(previous, device_id, config, d.as_str()))
    }
}

} // verus!
