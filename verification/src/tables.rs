//! The datastore tables that the server writes and reads.
use crate::text::owned;
use vstd::prelude::*;

verus! {

#[derive(PartialEq, Eq, Structural, Clone, Copy, Debug)]
pub enum DBTable {
    Devices,
    SSHKeys,
    RemoteAccessSessions,
    OgranizationAccounts,
    IpInfos,
    Connections,
    SystemResources,
    DeviceConfigurations,
    DeviceRules,
    DeviceAliases,
    DeviceInterfaces,
    DeviceInterfaceAddresses,
}

/// The name of a table in the datastore.
pub open spec fn table_name(t: DBTable) -> Seq<char> {
    match t {
        DBTable::Devices => "devices"@,
        DBTable::SSHKeys => "device_ssh_keys"@,
        DBTable::RemoteAccessSessions => "device_remote_access_sessions"@,
        DBTable::OgranizationAccounts => "organization_accounts"@,
        DBTable::IpInfos => "ip_infos"@,
        DBTable::Connections => "connections"@,
        DBTable::SystemResources => "system_resources"@,
        DBTable::DeviceConfigurations => "device_configurations"@,
        DBTable::DeviceRules => "device_rules"@,
        DBTable::DeviceAliases => "device_aliases"@,
        DBTable::DeviceInterfaces => "device_interfaces"@,
        DBTable::DeviceInterfaceAddresses => "device_interface_addresses"@,
    }
}

impl DBTable {
    /// The table's name, as its display gives it.
    pub fn to_string(&self) -> (r: String)
        ensures
            r@ == table_name(*self),
    {
        match self {
            DBTable::Devices => owned("devices"),
            DBTable::SSHKeys => owned("device_ssh_keys"),
            DBTable::RemoteAccessSessions => owned("device_remote_access_sessions"),
            DBTable::OgranizationAccounts => owned("organization_accounts"),
            DBTable::IpInfos => owned("ip_infos"),
            DBTable::Connections => owned("connections"),
            DBTable::SystemResources => owned("system_resources"),
            DBTable::DeviceConfigurations => owned("device_configurations"),
            DBTable::DeviceRules => owned("device_rules"),
            DBTable::DeviceAliases => owned("device_aliases"),
            DBTable::DeviceInterfaces => owned("device_interfaces"),
            DBTable::DeviceInterfaceAddresses => owned("device_interface_addresses"),
        }
    }

    /// The table's name, taking the table.
    pub fn into_name(self) -> (r: String)
        ensures
            r@ == table_name(self),
    {
        self.to_string()
    }
}

/// Distinct tables have distinct names.
pub proof fn table_names_are_distinct(a: DBTable, b: DBTable)
    ensures
        table_name(a) == table_name(b) ==> a == b,
{
    reveal_strlit("devices");
    reveal_strlit("device_ssh_keys");
    reveal_strlit("device_remote_access_sessions");
    reveal_strlit("organization_accounts");
    reveal_strlit("ip_infos");
    reveal_strlit("connections");
    reveal_strlit("system_resources");
    reveal_strlit("device_configurations");
    reveal_strlit("device_rules");
    reveal_strlit("device_aliases");
    reveal_strlit("device_interfaces");
    reveal_strlit("device_interface_addresses");
    if table_name(a) == table_name(b) && a != b {
        let x = table_name(a);
        let y = table_name(b);
        assert(x.len() == y.len());
        assert(x[0] == y[0]);
        assert(x[7] == y[7]);
        assert(x[8] == y[8]);
        assert(x[10] == y[10]);
        assert(x[12] == y[12]);
    }
}

} // verus!
