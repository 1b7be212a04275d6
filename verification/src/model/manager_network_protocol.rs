//! The network services a manager offers.

use vstd::prelude::*;

use super::ODataLinks;

verus! {

#[derive(Debug, Clone)]
pub struct Protocol {
    pub port: Option<i64>,
    pub protocol_enabled: Option<bool>,
}

#[derive(Debug)]
pub struct ManagerNetworkProtocol {
    pub odata: ODataLinks,
    pub name: Option<String>,
    pub dhcp: Option<Protocol>,
    pub dhcpv6: Option<Protocol>,
    pub description: Option<String>,
    pub fqdn: Option<String>,
    pub http: Option<Protocol>,
    pub host_name: Option<String>,
    pub ipmi: Option<Protocol>,
    pub id: Option<String>,
    pub kvmip: Option<Protocol>,
    pub rdp: Option<Protocol>,
    pub rfb: Option<Protocol>,
    pub ssh: Option<Protocol>,
    pub snmp: Option<Protocol>,
    pub telnet: Option<Protocol>,
    pub virtual_media: Option<Protocol>,
}

} // verus!
