use wallguard_server::status::{convert_status, map_status_value_to_enum, starts_with, ConfigStatus, DeviceStatus};
use wallguard_server::tables::DBTable;

#[test]
fn status_text_is_read_in_any_case() {
    assert_eq!(map_status_value_to_enum(String::from("Active")), DeviceStatus::DsActive);
    assert_eq!(map_status_value_to_enum(String::from("ACTIVE")), DeviceStatus::DsActive);
    assert_eq!(map_status_value_to_enum(String::from("draft")), DeviceStatus::DsDraft);
    assert_eq!(map_status_value_to_enum(String::from("Archived")), DeviceStatus::DsArchived);
    assert_eq!(map_status_value_to_enum(String::from("DELETED")), DeviceStatus::DsDeleted);
}

#[test]
fn status_text_is_read_by_its_prefix() {
    assert_eq!(map_status_value_to_enum(String::from("Active since today")), DeviceStatus::DsActive);
    assert_eq!(map_status_value_to_enum(String::from("Delete")), DeviceStatus::DsDeleted);
}

#[test]
fn unknown_status_text() {
    assert_eq!(map_status_value_to_enum(String::from("")), DeviceStatus::DsUnknown);
    assert_eq!(map_status_value_to_enum(String::from("Online")), DeviceStatus::DsUnknown);
    assert_eq!(map_status_value_to_enum(String::from(" active")), DeviceStatus::DsUnknown);
}

#[test]
fn config_status_texts() {
    assert_eq!(convert_status(ConfigStatus::CsDraft), "Draft");
    assert_eq!(convert_status(ConfigStatus::CsApplied), "Applied");
    assert_eq!(convert_status(ConfigStatus::CsUndefined), "Undefined");
}

#[test]
fn prefix_test() {
    assert!(starts_with("active", "act"));
    assert!(starts_with("active", ""));
    assert!(!starts_with("act", "active"));
    assert!(!starts_with("draft", "active"));
}

#[test]
fn table_names() {
    assert_eq!(DBTable::Devices.to_string(), "devices");
    assert_eq!(DBTable::SSHKeys.to_string(), "device_ssh_keys");
    assert_eq!(DBTable::RemoteAccessSessions.to_string(), "device_remote_access_sessions");
    assert_eq!(DBTable::OgranizationAccounts.to_string(), "organization_accounts");
    assert_eq!(DBTable::IpInfos.to_string(), "ip_infos");
    assert_eq!(DBTable::Connections.to_string(), "connections");
    assert_eq!(DBTable::SystemResources.to_string(), "system_resources");
    assert_eq!(DBTable::DeviceConfigurations.to_string(), "device_configurations");
    assert_eq!(DBTable::DeviceRules.to_string(), "device_rules");
    assert_eq!(DBTable::DeviceAliases.to_string(), "device_aliases");
    assert_eq!(DBTable::DeviceInterfaces.to_string(), "device_interfaces");
    assert_eq!(DBTable::DeviceInterfaceAddresses.into_name(), "device_interface_addresses");
}

#[test]
fn table_names_are_distinct_on_examples() {
    let all = vec![
        DBTable::Devices,
        DBTable::SSHKeys,
        DBTable::RemoteAccessSessions,
        DBTable::OgranizationAccounts,
        DBTable::IpInfos,
        DBTable::Connections,
        DBTable::SystemResources,
        DBTable::DeviceConfigurations,
        DBTable::DeviceRules,
        DBTable::DeviceAliases,
        DBTable::DeviceInterfaces,
        DBTable::DeviceInterfaceAddresses,
    ];
    let names: Vec<String> = all.iter().map(|t| t.to_string()).collect();
    for i in 0..names.len() {
        for j in 0..names.len() {
            if i != j {
                assert_ne!(names[i], names[j]);
            }
        }
    }
}
