use vstd::prelude::*;

use crate::error::TransportError;
use crate::lines::concat_lines;
use crate::lines::join_lines;
use crate::lines::split_lines;
use crate::lines::split_lines_spec;
use crate::network_interface::NetworkInterfaceInfo;

verus! {

/// The composite record assembled by `get_instance_info`: every string
/// field is the fetched body verbatim, and the two list fields are the
/// fetched bodies split on newlines.
#[derive(Clone, PartialEq, Debug)]
pub struct InstanceInfo {
    pub ami_id: String,
    pub instance_id: String,
    pub instance_type: String,
    pub hostname: String,
    pub local_hostname: String,
    pub local_ipv4: String,
    pub public_hostname: String,
    pub public_ipv4: String,
    pub mac_address: Vec<String>,
    pub region: String,
    pub availability_zone: AvailabilityZoneInfo,
    pub ramdisk_id: String,
    pub tags: Vec<String>,
}

/// A placement zone's name and identifier, combined from two independent
/// fetches with no atomicity between them.
#[derive(Clone, PartialEq, Debug)]
pub struct AvailabilityZoneInfo {
    pub zone_name: String,
    pub zone_id: String,
}

/// The base URL used when none is given: the link-local metadata address
/// with a fixed dated API version segment, ending in `/` so that the
/// relative paths below resolve under it.
pub open spec fn default_base_url() -> Seq<char> {
    "http://169.254.169.254/2022-09-24/"@
}

/// A client of the instance metadata service.  It holds only immutable
/// configuration: the base URL under which every relative path below is
/// resolved.  The base URL is held verbatim; whether it parses as a URL is
/// the transport's concern.  Each accessor states which relative paths its
/// bodies come from and in what order; the caller performs the GETs, one
/// at a time with no overlap, and hands the outcomes back.
pub struct AWSInstanceMetadata {
    pub base_url: String,
}

impl AWSInstanceMetadata {
    /// Builds a client from an optional base-URL override; without one,
    /// the well-known default is used.
    pub fn new(base_url: Option<&str>) -> (r: Self)
        ensures
            base_url is Some ==> r.base_url@ == base_url->0@,
            base_url is None ==> r.base_url@ == default_base_url(),
    {
        let b_url = match base_url {
            Some(u) => String::from_str(u),
            None => String::from_str("http://169.254.169.254/2022-09-24/"),
        };
        AWSInstanceMetadata { base_url: b_url }
    }

    pub fn instance_id_path() -> (r: String)
        ensures
            r@ == "meta-data/instance-id"@,
    {
        String::from_str("meta-data/instance-id")
    }

    pub fn instance_type_path() -> (r: String)
        ensures
            r@ == "meta-data/instance-type"@,
    {
        String::from_str("meta-data/instance-type")
    }

    pub fn machine_image_id_path() -> (r: String)
        ensures
            r@ == "meta-data/ami-id"@,
    {
        String::from_str("meta-data/ami-id")
    }

    pub fn local_hostname_path() -> (r: String)
        ensures
            r@ == "meta-data/local-hostname"@,
    {
        String::from_str("meta-data/local-hostname")
    }

    pub fn local_ipv4_path() -> (r: String)
        ensures
            r@ == "meta-data/local-ipv4"@,
    {
        String::from_str("meta-data/local-ipv4")
    }

    pub fn public_hostname_path() -> (r: String)
        ensures
            r@ == "meta-data/public-hostname"@,
    {
        String::from_str("meta-data/public-hostname")
    }

    pub fn public_ipv4_path() -> (r: String)
        ensures
            r@ == "meta-data/public-ipv4"@,
    {
        String::from_str("meta-data/public-ipv4")
    }

    pub fn mac_path() -> (r: String)
        ensures
            r@ == "meta-data/mac"@,
    {
        String::from_str("meta-data/mac")
    }

    pub fn hostname_path() -> (r: String)
        ensures
            r@ == "meta-data/hostname"@,
    {
        String::from_str("meta-data/hostname")
    }

    pub fn kernel_id_path() -> (r: String)
        ensures
            r@ == "meta-data/kernel-id"@,
    {
        String::from_str("meta-data/kernel-id")
    }

    pub fn security_groups_path() -> (r: String)
        ensures
            r@ == "meta-data/security-groups"@,
    {
        String::from_str("meta-data/security-groups")
    }

    pub fn ramdisk_id_path() -> (r: String)
        ensures
            r@ == "meta-data/ramdisk-id"@,
    {
        String::from_str("meta-data/ramdisk-id")
    }

    pub fn region_path() -> (r: String)
        ensures
            r@ == "meta-data/placement/region"@,
    {
        String::from_str("meta-data/placement/region")
    }

    pub fn instance_tags_path() -> (r: String)
        ensures
            r@ == "meta-data/tags/instance"@,
    {
        String::from_str("meta-data/tags/instance")
    }

    /// True exactly when the probe of the base path completed with any
    /// response at all; every transport failure is swallowed into `false`,
    /// never surfaced.
    pub fn check_connectivity(&self, probe: Result<String, TransportError>) -> (r: bool)
        ensures
            r == (probe is Ok),
    {
        match probe {
            Ok(_) => true,
            Err(_) => false,
        }
    }

    /// The body fetched from `instance_id_path`, verbatim; a transport
    /// failure is surfaced unchanged.
    pub fn get_instance_id(&self, response: Result<String, TransportError>) -> (r: Result<
        String,
        TransportError,
    >)
        ensures
            r == response,
    {
        response
    }

    /// The body fetched from `instance_type_path`, verbatim; a transport
    /// failure is surfaced unchanged.
    pub fn get_instance_type(&self, response: Result<String, TransportError>) -> (r: Result<
        String,
        TransportError,
    >)
        ensures
            r == response,
    {
        response
    }

    /// The body fetched from `machine_image_id_path`, verbatim; a
    /// transport failure is surfaced unchanged.
    pub fn get_machine_image_id(&self, response: Result<String, TransportError>) -> (r: Result<
        String,
        TransportError,
    >)
        ensures
            r == response,
    {
        response
    }

    /// The body fetched from `local_hostname_path`, verbatim; a transport
    /// failure is surfaced unchanged.
    pub fn get_local_hostname(&self, response: Result<String, TransportError>) -> (r: Result<
        String,
        TransportError,
    >)
        ensures
            r == response,
    {
        response
    }

    /// The body fetched from `local_ipv4_path`, verbatim; a transport
    /// failure is surfaced unchanged.
    pub fn get_local_ipv4(&self, response: Result<String, TransportError>) -> (r: Result<
        String,
        TransportError,
    >)
        ensures
            r == response,
    {
        response
    }

    /// The body fetched from `public_hostname_path`, verbatim; a
    /// transport failure is surfaced unchanged.
    pub fn get_public_hostname(&self, response: Result<String, TransportError>) -> (r: Result<
        String,
        TransportError,
    >)
        ensures
            r == response,
    {
        response
    }

    /// The body fetched from `public_ipv4_path`, verbatim; a transport
    /// failure is surfaced unchanged.
    pub fn get_public_ipv4(&self, response: Result<String, TransportError>) -> (r: Result<
        String,
        TransportError,
    >)
        ensures
            r == response,
    {
        response
    }

    /// The body fetched from `hostname_path`, verbatim; a transport
    /// failure is surfaced unchanged.
    pub fn get_hostname(&self, response: Result<String, TransportError>) -> (r: Result<
        String,
        TransportError,
    >)
        ensures
            r == response,
    {
        response
    }

    /// The body fetched from `kernel_id_path`, verbatim; a transport
    /// failure is surfaced unchanged.
    pub fn get_kernel_id(&self, response: Result<String, TransportError>) -> (r: Result<
        String,
        TransportError,
    >)
        ensures
            r == response,
    {
        response
    }

    /// The body fetched from `ramdisk_id_path`, verbatim; a transport
    /// failure is surfaced unchanged.
    pub fn get_ramdisk_id(&self, response: Result<String, TransportError>) -> (r: Result<
        String,
        TransportError,
    >)
        ensures
            r == response,
    {
        response
    }

    /// The body fetched from `region_path`, verbatim; a transport failure
    /// is surfaced unchanged.
    pub fn get_region(&self, response: Result<String, TransportError>) -> (r: Result<
        String,
        TransportError,
    >)
        ensures
            r == response,
    {
        response
    }

    /// The body fetched from `mac_path`, split on newlines: one MAC
    /// address per line, order preserved, no dedup and no trimming.  A
    /// transport failure is surfaced unchanged.
    pub fn get_mac(&self, response: Result<String, TransportError>) -> (r: Result<
        Vec<String>,
        TransportError,
    >)
        ensures
            r is Ok <==> response is Ok,
            r is Ok ==> r->Ok_0.deep_view() == split_lines_spec(response->Ok_0@),
            response is Err ==> r is Err && r->Err_0 == response->Err_0,
    {
        match response {
            Ok(body) => Ok(split_lines(body.as_str())),
            Err(e) => Err(e),
        }
    }

    /// The body fetched from `instance_tags_path`, split on newlines: one
    /// tag name per line, order preserved; an empty body yields an empty
    /// list.  A transport failure is surfaced unchanged.
    pub fn get_instance_tags(&self, response: Result<String, TransportError>) -> (r: Result<
        Vec<String>,
        TransportError,
    >)
        ensures
            r is Ok <==> response is Ok,
            r is Ok ==> r->Ok_0.deep_view() == split_lines_spec(response->Ok_0@),
            response is Err ==> r is Err && r->Err_0 == response->Err_0,
    {
        match response {
            Ok(body) => Ok(split_lines(body.as_str())),
            Err(e) => Err(e),
        }
    }

    /// The body fetched from `security_groups_path`, split on newlines and
    /// then joined back into one string with nothing between the lines.
    /// Unlike `get_mac` and `get_instance_tags`, this list-valued field is
    /// returned as a single string: the asymmetry is deliberate and kept.
    /// A transport failure is surfaced unchanged.
    pub fn get_security_groups(&self, response: Result<String, TransportError>) -> (r: Result<
        String,
        TransportError,
    >)
        ensures
            r is Ok <==> response is Ok,
            r is Ok ==> r->Ok_0@ == join_lines(split_lines_spec(response->Ok_0@)),
            response is Err ==> r is Err && r->Err_0 == response->Err_0,
    {
        match response {
            Ok(body) => {
                let groups = split_lines(body.as_str());
                Ok(concat_lines(&groups))
            },
            Err(e) => Err(e),
        }
    }

    /// The two paths behind `get_availability_zone`, in fetch order: the
    /// zone name first, then the zone id.  Exactly these two requests are
    /// issued, one after the other.
    pub fn availability_zone_paths() -> (r: Vec<String>)
        ensures
            r@.len() == 2,
            r@[0]@ == "meta-data/placement/availability-zone"@,
            r@[1]@ == "meta-data/placement/availability-zone-id"@,
    {
        let mut r: Vec<String> = Vec::new();
        r.push(String::from_str("meta-data/placement/availability-zone"));
        r.push(String::from_str("meta-data/placement/availability-zone-id"));
        r
    }

    /// Combines the two bodies fetched from `availability_zone_paths`, in
    /// that order, into one record.  The two fetches are independent and
    /// non-atomic: whatever pair of values came back is combined, whether
    /// or not the two are consistent with each other.  The first failing
    /// fetch aborts the combination and is surfaced unchanged.
    pub fn get_availability_zone(
        &self,
        zone_name: Result<String, TransportError>,
        zone_id: Result<String, TransportError>,
    ) -> (r: Result<AvailabilityZoneInfo, TransportError>)
        ensures
            r is Ok <==> zone_name is Ok && zone_id is Ok,
            r is Ok ==> r->Ok_0.zone_name == zone_name->Ok_0 && r->Ok_0.zone_id == zone_id->Ok_0,
            zone_name is Err ==> r is Err && r->Err_0 == zone_name->Err_0,
            zone_name is Ok && zone_id is Err ==> r is Err && r->Err_0 == zone_id->Err_0,
    {
        let zone_name = match zone_name {
            Ok(v) => v,
            Err(e) => return Err(e),
        };
        let zone_id = match zone_id {
            Ok(v) => v,
            Err(e) => return Err(e),
        };
        Ok(AvailabilityZoneInfo { zone_id, zone_name })
    }

    /// One interface handle per MAC address reported by `get_mac` on the
    /// same body, in the same order.  A transport failure is surfaced
    /// unchanged and yields no handles at all.
    pub fn get_network_interfaces(&self, response: Result<String, TransportError>) -> (r: Result<
        Vec<NetworkInterfaceInfo>,
        TransportError,
    >)
        ensures
            r is Ok <==> response is Ok,
            r is Ok ==> r->Ok_0@.len() == split_lines_spec(response->Ok_0@).len(),
            r is Ok ==> forall|i: int|
                0 <= i < r->Ok_0@.len() ==> r->Ok_0@[i].mac_address@ == split_lines_spec(
                    response->Ok_0@,
                )[i],
            response is Err ==> r is Err && r->Err_0 == response->Err_0,
    {
        let macs = match self.get_mac(response) {
            Ok(v) => v,
            Err(e) => return Err(e),
        };
        let mut results: Vec<NetworkInterfaceInfo> = Vec::new();
        let mut i: usize = 0;
        while i < macs.len()
            invariant
                i <= macs.len(),
                results@.len() == i,
                forall|j: int| 0 <= j < i ==> results@[j].mac_address@ == macs@[j]@,
            decreases macs.len() - i,
        {
            results.push(NetworkInterfaceInfo::new(macs[i].clone()));
            i = i + 1;
        }
        proof {
            assert(forall|j: int|
                0 <= j < macs@.len() ==> macs.deep_view()[j] == macs@[j]@);
        }
        Ok(results)
    }

    /// The fourteen paths behind `get_instance_info`, in fetch order; the
    /// outcomes are handed to `get_instance_info` in the same order.
    pub fn instance_info_paths() -> (r: Vec<String>)
        ensures
            r@.len() == 14,
            r@[0]@ == "meta-data/instance-id"@,
            r@[1]@ == "meta-data/instance-type"@,
            r@[2]@ == "meta-data/ami-id"@,
            r@[3]@ == "meta-data/local-hostname"@,
            r@[4]@ == "meta-data/local-ipv4"@,
            r@[5]@ == "meta-data/public-hostname"@,
            r@[6]@ == "meta-data/public-ipv4"@,
            r@[7]@ == "meta-data/mac"@,
            r@[8]@ == "meta-data/hostname"@,
            r@[9]@ == "meta-data/placement/region"@,
            r@[10]@ == "meta-data/placement/availability-zone"@,
            r@[11]@ == "meta-data/placement/availability-zone-id"@,
            r@[12]@ == "meta-data/ramdisk-id"@,
            r@[13]@ == "meta-data/tags/instance"@,
    {
        let mut r: Vec<String> = Vec::new();
        r.push(String::from_str("meta-data/instance-id"));
        r.push(String::from_str("meta-data/instance-type"));
        r.push(String::from_str("meta-data/ami-id"));
        r.push(String::from_str("meta-data/local-hostname"));
        r.push(String::from_str("meta-data/local-ipv4"));
        r.push(String::from_str("meta-data/public-hostname"));
        r.push(String::from_str("meta-data/public-ipv4"));
        r.push(String::from_str("meta-data/mac"));
        r.push(String::from_str("meta-data/hostname"));
        r.push(String::from_str("meta-data/placement/region"));
        r.push(String::from_str("meta-data/placement/availability-zone"));
        r.push(String::from_str("meta-data/placement/availability-zone-id"));
        r.push(String::from_str("meta-data/ramdisk-id"));
        r.push(String::from_str("meta-data/tags/instance"));
        r
    }

    /// Assembles the composite record from the fourteen outcomes fetched
    /// from `instance_info_paths`, in that order, by handing each to its
    /// accessor.  Fail-fast: the first failing fetch in that order aborts
    /// the whole aggregation, its error is surfaced unchanged, and no
    /// partial record is returned.  On success every string field is its
    /// body verbatim, and the MAC and tag lists are their bodies split on
    /// newlines.
    pub fn get_instance_info(
        &self,
        instance_id: Result<String, TransportError>,
        instance_type: Result<String, TransportError>,
        machine_image_id: Result<String, TransportError>,
        local_hostname: Result<String, TransportError>,
        local_ipv4: Result<String, TransportError>,
        public_hostname: Result<String, TransportError>,
        public_ipv4: Result<String, TransportError>,
        mac: Result<String, TransportError>,
        hostname: Result<String, TransportError>,
        region: Result<String, TransportError>,
        zone_name: Result<String, TransportError>,
        zone_id: Result<String, TransportError>,
        ramdisk_id: Result<String, TransportError>,
        tags: Result<String, TransportError>,
    ) -> (r: Result<InstanceInfo, TransportError>)
        ensures
            r is Ok <==> instance_id is Ok && instance_type is Ok && machine_image_id is Ok
                && local_hostname is Ok && local_ipv4 is Ok && public_hostname is Ok
                && public_ipv4 is Ok && mac is Ok && hostname is Ok && region is Ok
                && zone_name is Ok && zone_id is Ok && ramdisk_id is Ok && tags is Ok,
            r is Ok ==> r->Ok_0.instance_id == instance_id->Ok_0,
            r is Ok ==> r->Ok_0.instance_type == instance_type->Ok_0,
            r is Ok ==> r->Ok_0.ami_id == machine_image_id->Ok_0,
            r is Ok ==> r->Ok_0.local_hostname == local_hostname->Ok_0,
            r is Ok ==> r->Ok_0.local_ipv4 == local_ipv4->Ok_0,
            r is Ok ==> r->Ok_0.public_hostname == public_hostname->Ok_0,
            r is Ok ==> r->Ok_0.public_ipv4 == public_ipv4->Ok_0,
            r is Ok ==> r->Ok_0.mac_address.deep_view() == split_lines_spec(mac->Ok_0@),
            r is Ok ==> r->Ok_0.hostname == hostname->Ok_0,
            r is Ok ==> r->Ok_0.region == region->Ok_0,
            r is Ok ==> r->Ok_0.availability_zone.zone_name == zone_name->Ok_0,
            r is Ok ==> r->Ok_0.availability_zone.zone_id == zone_id->Ok_0,
            r is Ok ==> r->Ok_0.ramdisk_id == ramdisk_id->Ok_0,
            r is Ok ==> r->Ok_0.tags.deep_view() == split_lines_spec(tags->Ok_0@),
            instance_id is Err ==> r is Err && r->Err_0 == instance_id->Err_0,
            instance_id is Ok && instance_type is Err ==> r is Err && r->Err_0
                == instance_type->Err_0,
            instance_id is Ok && instance_type is Ok && machine_image_id is Err ==> r is Err
                && r->Err_0 == machine_image_id->Err_0,
            instance_id is Ok && instance_type is Ok && machine_image_id is Ok && local_hostname
                is Err ==> r is Err && r->Err_0 == local_hostname->Err_0,
            instance_id is Ok && instance_type is Ok && machine_image_id is Ok && local_hostname
                is Ok && local_ipv4 is Err ==> r is Err && r->Err_0 == local_ipv4->Err_0,
            instance_id is Ok && instance_type is Ok && machine_image_id is Ok && local_hostname
                is Ok && local_ipv4 is Ok && public_hostname is Err ==> r is Err && r->Err_0
                == public_hostname->Err_0,
            instance_id is Ok && instance_type is Ok && machine_image_id is Ok && local_hostname
                is Ok && local_ipv4 is Ok && public_hostname is Ok && public_ipv4 is Err ==> r
                is Err && r->Err_0 == public_ipv4->Err_0,
            instance_id is Ok && instance_type is Ok && machine_image_id is Ok && local_hostname
                is Ok && local_ipv4 is Ok && public_hostname is Ok && public_ipv4 is Ok && mac
                is Err ==> r is Err && r->Err_0 == mac->Err_0,
            instance_id is Ok && instance_type is Ok && machine_image_id is Ok && local_hostname
                is Ok && local_ipv4 is Ok && public_hostname is Ok && public_ipv4 is Ok && mac
                is Ok && hostname is Err ==> r is Err && r->Err_0 == hostname->Err_0,
            instance_id is Ok && instance_type is Ok && machine_image_id is Ok && local_hostname
                is Ok && local_ipv4 is Ok && public_hostname is Ok && public_ipv4 is Ok && mac
                is Ok && hostname is Ok && region is Err ==> r is Err && r->Err_0
                == region->Err_0,
            instance_id is Ok && instance_type is Ok && machine_image_id is Ok && local_hostname
                is Ok && local_ipv4 is Ok && public_hostname is Ok && public_ipv4 is Ok && mac
                is Ok && hostname is Ok && region is Ok && zone_name is Err ==> r is Err
                && r->Err_0 == zone_name->Err_0,
            instance_id is Ok && instance_type is Ok && machine_image_id is Ok && local_hostname
                is Ok && local_ipv4 is Ok && public_hostname is Ok && public_ipv4 is Ok && mac
                is Ok && hostname is Ok && region is Ok && zone_name is Ok && zone_id is Err ==> r
                is Err && r->Err_0 == zone_id->Err_0,
            instance_id is Ok && instance_type is Ok && machine_image_id is Ok && local_hostname
                is Ok && local_ipv4 is Ok && public_hostname is Ok && public_ipv4 is Ok && mac
                is Ok && hostname is Ok && region is Ok && zone_name is Ok && zone_id is Ok
                && ramdisk_id is Err ==> r is Err && r->Err_0 == ramdisk_id->Err_0,
            instance_id is Ok && instance_type is Ok && machine_image_id is Ok && local_hostname
                is Ok && local_ipv4 is Ok && public_hostname is Ok && public_ipv4 is Ok && mac
                is Ok && hostname is Ok && region is Ok && zone_name is Ok && zone_id is Ok
                && ramdisk_id is Ok && tags is Err ==> r is Err && r->Err_0 == tags->Err_0,
    {
        let instance_id = match self.get_instance_id(instance_id) {
            Ok(v) => v,
            Err(e) => return Err(e),
        };
        let instance_type = match self.get_instance_type(instance_type) {
            Ok(v) => v,
            Err(e) => return Err(e),
        };
        let machine_image_id = match self.get_machine_image_id(machine_image_id) {
            Ok(v) => v,
            Err(e) => return Err(e),
        };
        let local_hostname = match self.get_local_hostname(local_hostname) {
            Ok(v) => v,
            Err(e) => return Err(e),
        };
        let local_ipv4 = match self.get_local_ipv4(local_ipv4) {
            Ok(v) => v,
            Err(e) => return Err(e),
        };
        let public_hostname = match self.get_public_hostname(public_hostname) {
            Ok(v) => v,
            Err(e) => return Err(e),
        };
        let public_ipv4 = match self.get_public_ipv4(public_ipv4) {
            Ok(v) => v,
            Err(e) => return Err(e),
        };
        let mac_address = match self.get_mac(mac) {
            Ok(v) => v,
            Err(e) => return Err(e),
        };
        let hostname = match self.get_hostname(hostname) {
            Ok(v) => v,
            Err(e) => return Err(e),
        };
        let region = match self.get_region(region) {
            Ok(v) => v,
            Err(e) => return Err(e),
        };
        let availability_zone = match self.get_availability_zone(zone_name, zone_id) {
            Ok(v) => v,
            Err(e) => return Err(e),
        };
        let ramdisk_id = match self.get_ramdisk_id(ramdisk_id) {
            Ok(v) => v,
            Err(e) => return Err(e),
        };
        let tags = match self.get_instance_tags(tags) {
            Ok(v) => v,
            Err(e) => return Err(e),
        };
        Ok(
            InstanceInfo {
                instance_id,
                instance_type,
                ami_id: machine_image_id,
                local_hostname,
                local_ipv4,
                public_hostname,
                public_ipv4,
                mac_address,
                hostname,
                region,
                availability_zone,
                ramdisk_id,
                tags,
            },
        )
    }
}

} // verus!
