use vstd::prelude::*;

use crate::error::TransportError;

verus! {

/// A security group's identifier and name, combined from two independent
/// fetches with no atomicity between them.
#[derive(Clone, PartialEq, Debug)]
pub struct SecurityGroupInfo {
    pub id: String,
    pub name: String,
}

/// A subnet's identifier and CIDR blocks, combined from three independent
/// fetches with no atomicity between them.
#[derive(Clone, PartialEq, Debug)]
pub struct SubnetInfo {
    pub id: String,
    pub ipv4_cidr_block: String,
    pub ipv6_cidr_block: String,
}

/// A VPC's identifier and CIDR blocks, combined from four independent
/// fetches with no atomicity between them.
#[derive(Clone, PartialEq, Debug)]
pub struct VpcInfo {
    pub id: String,
    pub ipv4_cidr_block: String,
    pub ipv4_cidr_blocks: String,
    pub ipv6_cidr_blocks: String,
}

/// The relative path of one field of the interface scoped by `mac`:
/// `network/interfaces/macs/{mac}{suffix}`, where the suffix begins with
/// `/` and names the field.
pub open spec fn interface_path(mac: Seq<char>, suffix: Seq<char>) -> Seq<char> {
    "network/interfaces/macs/"@ + mac + suffix
}

/// A handle on the metadata of one network interface, scoped by its MAC
/// address.  The MAC is used verbatim as a path segment; it is not
/// validated.  Each accessor states which relative path its body comes
/// from; the caller performs the GET and hands the outcome back.
#[derive(Debug)]
pub struct NetworkInterfaceInfo {
    pub mac_address: String,
}

impl NetworkInterfaceInfo {
    pub fn new(mac_address: String) -> (r: Self)
        ensures
            r.mac_address == mac_address,
    {
        NetworkInterfaceInfo { mac_address }
    }

    fn field_path(&self, suffix: &str) -> (r: String)
        ensures
            r@ == interface_path(self.mac_address@, suffix@),
    {
        String::from_str("network/interfaces/macs/").concat(self.mac_address.as_str()).concat(
            suffix,
        )
    }

    pub fn device_number_path(&self) -> (r: String)
        ensures
            r@ == interface_path(self.mac_address@, "/device-number"@),
    {
        self.field_path("/device-number")
    }

    pub fn interface_id_path(&self) -> (r: String)
        ensures
            r@ == interface_path(self.mac_address@, "/interface-id"@),
    {
        self.field_path("/interface-id")
    }

    pub fn local_hostname_path(&self) -> (r: String)
        ensures
            r@ == interface_path(self.mac_address@, "/local-hostname"@),
    {
        self.field_path("/local-hostname")
    }

    pub fn local_ipv4s_path(&self) -> (r: String)
        ensures
            r@ == interface_path(self.mac_address@, "/local-ipv4s"@),
    {
        self.field_path("/local-ipv4s")
    }

    pub fn mac_path(&self) -> (r: String)
        ensures
            r@ == interface_path(self.mac_address@, "/mac"@),
    {
        self.field_path("/mac")
    }

    pub fn network_card_index_path(&self) -> (r: String)
        ensures
            r@ == interface_path(self.mac_address@, "/network-card-index"@),
    {
        self.field_path("/network-card-index")
    }

    pub fn owner_id_path(&self) -> (r: String)
        ensures
            r@ == interface_path(self.mac_address@, "/owner-id"@),
    {
        self.field_path("/owner-id")
    }

    pub fn public_hostname_path(&self) -> (r: String)
        ensures
            r@ == interface_path(self.mac_address@, "/public-hostname"@),
    {
        self.field_path("/public-hostname")
    }

    pub fn public_ipv4s_path(&self) -> (r: String)
        ensures
            r@ == interface_path(self.mac_address@, "/public-ipv4s"@),
    {
        self.field_path("/public-ipv4s")
    }

    /// The body fetched from `device_number_path`, verbatim; a transport
    /// failure is surfaced unchanged.
    pub fn get_device_number(&self, response: Result<String, TransportError>) -> (r: Result<
        String,
        TransportError,
    >)
        ensures
            r == response,
    {
        response
    }

    /// The body fetched from `interface_id_path`, verbatim; a transport
    /// failure is surfaced unchanged.
    pub fn get_interface_id(&self, response: Result<String, TransportError>) -> (r: Result<
        String,
        TransportError,
    >)
        ensures
            r == response,
    {
        response
    }

    /// The body fetched from `local_hostname_path`, verbatim; a transport
    /// failure is surfaced unchanged.
    pub fn get_local_hostname(&self, response: Result<String, TransportError>) -> (r: Result<
        String,
        TransportError,
    >)
        ensures
            r == response,
    {
        response
    }

    /// The body fetched from `local_ipv4s_path`, verbatim and not split;
    /// a transport failure is surfaced unchanged.
    pub fn get_local_ipv4s(&self, response: Result<String, TransportError>) -> (r: Result<
        String,
        TransportError,
    >)
        ensures
            r == response,
    {
        response
    }

    /// The body fetched from `mac_path`, verbatim; a transport failure is
    /// surfaced unchanged.
    pub fn get_mac(&self, response: Result<String, TransportError>) -> (r: Result<
        String,
        TransportError,
    >)
        ensures
            r == response,
    {
        response
    }

    /// The body fetched from `network_card_index_path`, verbatim; a
    /// transport failure is surfaced unchanged.
    pub fn get_network_card_index(&self, response: Result<String, TransportError>) -> (r: Result<
        String,
        TransportError,
    >)
        ensures
            r == response,
    {
        response
    }

    /// The body fetched from `owner_id_path`, verbatim; a transport
    /// failure is surfaced unchanged.
    pub fn get_owner_id(&self, response: Result<String, TransportError>) -> (r: Result<
        String,
        TransportError,
    >)
        ensures
            r == response,
    {
        response
    }

    /// The body fetched from `public_hostname_path`, verbatim; a
    /// transport failure is surfaced unchanged.
    pub fn get_public_hostname(&self, response: Result<String, TransportError>) -> (r: Result<
        String,
        TransportError,
    >)
        ensures
            r == response,
    {
        response
    }

    /// The body fetched from `public_ipv4s_path`, verbatim and not split;
    /// a transport failure is surfaced unchanged.
    pub fn get_public_ipv4s(&self, response: Result<String, TransportError>) -> (r: Result<
        String,
        TransportError,
    >)
        ensures
            r == response,
    {
        response
    }

    /// The two paths behind `get_security_group_info`, in fetch order.
    pub fn security_group_info_paths(&self) -> (r: Vec<String>)
        ensures
            r@.len() == 2,
            r@[0]@ == interface_path(self.mac_address@, "/security-group-ids"@),
            r@[1]@ == interface_path(self.mac_address@, "/security-group"@),
    {
        let mut r: Vec<String> = Vec::new();
        r.push(self.field_path("/security-group-ids"));
        r.push(self.field_path("/security-group"));
        r
    }

    /// Combines the two bodies fetched from `security_group_info_paths`,
    /// in that order, into one record.  The two fetches are independent:
    /// any pair of values is combined, consistent with each other or not.
    /// The first failing fetch aborts the combination and is surfaced
    /// unchanged.
    pub fn get_security_group_info(
        &self,
        ids: Result<String, TransportError>,
        name: Result<String, TransportError>,
    ) -> (r: Result<SecurityGroupInfo, TransportError>)
        ensures
            r is Ok <==> ids is Ok && name is Ok,
            r is Ok ==> r->Ok_0.id == ids->Ok_0 && r->Ok_0.name == name->Ok_0,
            ids is Err ==> r is Err && r->Err_0 == ids->Err_0,
            ids is Ok && name is Err ==> r is Err && r->Err_0 == name->Err_0,
    {
        let id = match ids {
            Ok(v) => v,
            Err(e) => return Err(e),
        };
        let name = match name {
            Ok(v) => v,
            Err(e) => return Err(e),
        };
        Ok(SecurityGroupInfo { id, name })
    }

    /// The three paths behind `get_subnet_info`, in fetch order.
    pub fn subnet_info_paths(&self) -> (r: Vec<String>)
        ensures
            r@.len() == 3,
            r@[0]@ == interface_path(self.mac_address@, "/subnet-id"@),
            r@[1]@ == interface_path(self.mac_address@, "/subnet-ipv4-cidr-block"@),
            r@[2]@ == interface_path(self.mac_address@, "/subnet-ipv6-cidr-blocks"@),
    {
        let mut r: Vec<String> = Vec::new();
        r.push(self.field_path("/subnet-id"));
        r.push(self.field_path("/subnet-ipv4-cidr-block"));
        r.push(self.field_path("/subnet-ipv6-cidr-blocks"));
        r
    }

    /// Combines the three bodies fetched from `subnet_info_paths`, in that
    /// order, into one record; the fetches are independent and combined
    /// as-is.  The first failing fetch aborts the combination and is
    /// surfaced unchanged.
    pub fn get_subnet_info(
        &self,
        id: Result<String, TransportError>,
        ipv4_cidr_block: Result<String, TransportError>,
        ipv6_cidr_block: Result<String, TransportError>,
    ) -> (r: Result<SubnetInfo, TransportError>)
        ensures
            r is Ok <==> id is Ok && ipv4_cidr_block is Ok && ipv6_cidr_block is Ok,
            r is Ok ==> r->Ok_0.id == id->Ok_0 && r->Ok_0.ipv4_cidr_block == ipv4_cidr_block->Ok_0
                && r->Ok_0.ipv6_cidr_block == ipv6_cidr_block->Ok_0,
            id is Err ==> r is Err && r->Err_0 == id->Err_0,
            id is Ok && ipv4_cidr_block is Err ==> r is Err && r->Err_0 == ipv4_cidr_block->Err_0,
            id is Ok && ipv4_cidr_block is Ok && ipv6_cidr_block is Err ==> r is Err && r->Err_0
                == ipv6_cidr_block->Err_0,
    {
        let id = match id {
            Ok(v) => v,
            Err(e) => return Err(e),
        };
        let ipv4_cidr_block = match ipv4_cidr_block {
            Ok(v) => v,
            Err(e) => return Err(e),
        };
        let ipv6_cidr_block = match ipv6_cidr_block {
            Ok(v) => v,
            Err(e) => return Err(e),
        };
        Ok(SubnetInfo { id, ipv4_cidr_block, ipv6_cidr_block })
    }

    /// The four paths behind `get_vpc_info`, in fetch order.
    pub fn vpc_info_paths(&self) -> (r: Vec<String>)
        ensures
            r@.len() == 4,
            r@[0]@ == interface_path(self.mac_address@, "/vpc-id"@),
            r@[1]@ == interface_path(self.mac_address@, "/vpc-ipv4-cidr-block"@),
            r@[2]@ == interface_path(self.mac_address@, "/vpc-ipv4-cidr-blocks"@),
            r@[3]@ == interface_path(self.mac_address@, "/vpc-ipv6-cidr-blocks"@),
    {
        let mut r: Vec<String> = Vec::new();
        r.push(self.field_path("/vpc-id"));
        r.push(self.field_path("/vpc-ipv4-cidr-block"));
        r.push(self.field_path("/vpc-ipv4-cidr-blocks"));
        r.push(self.field_path("/vpc-ipv6-cidr-blocks"));
        r
    }

    /// Combines the four bodies fetched from `vpc_info_paths`, in that
    /// order, into one record; the fetches are independent and combined
    /// as-is.  The first failing fetch aborts the combination and is
    /// surfaced unchanged.
    pub fn get_vpc_info(
        &self,
        id: Result<String, TransportError>,
        ipv4_cidr_block: Result<String, TransportError>,
        ipv4_cidr_blocks: Result<String, TransportError>,
        ipv6_cidr_blocks: Result<String, TransportError>,
    ) -> (r: Result<VpcInfo, TransportError>)
        ensures
            r is Ok <==> id is Ok && ipv4_cidr_block is Ok && ipv4_cidr_blocks is Ok
                && ipv6_cidr_blocks is Ok,
            r is Ok ==> r->Ok_0.id == id->Ok_0 && r->Ok_0.ipv4_cidr_block == ipv4_cidr_block->Ok_0
                && r->Ok_0.ipv4_cidr_blocks == ipv4_cidr_blocks->Ok_0
                && r->Ok_0.ipv6_cidr_blocks == ipv6_cidr_blocks->Ok_0,
            id is Err ==> r is Err && r->Err_0 == id->Err_0,
            id is Ok && ipv4_cidr_block is Err ==> r is Err && r->Err_0 == ipv4_cidr_block->Err_0,
            id is Ok && ipv4_cidr_block is Ok && ipv4_cidr_blocks is Err ==> r is Err && r->Err_0
                == ipv4_cidr_blocks->Err_0,
            id is Ok && ipv4_cidr_block is Ok && ipv4_cidr_blocks is Ok && ipv6_cidr_blocks is Err
                ==> r is Err && r->Err_0 == ipv6_cidr_blocks->Err_0,
    {
        let id = match id {
            Ok(v) => v,
            Err(e) => return Err(e),
        };
        let ipv4_cidr_block = match ipv4_cidr_block {
            Ok(v) => v,
            Err(e) => return Err(e),
        };
        let ipv4_cidr_blocks = match ipv4_cidr_blocks {
            Ok(v) => v,
            Err(e) => return Err(e),
        };
        let ipv6_cidr_blocks = match ipv6_cidr_blocks {
            Ok(v) => v,
            Err(e) => return Err(e),
        };
        Ok(VpcInfo { id, ipv4_cidr_block, ipv4_cidr_blocks, ipv6_cidr_blocks })
    }
}

} // verus!
