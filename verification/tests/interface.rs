use aws::NetworkInterfaceInfo;
use aws::TransportError;

fn err(msg: &str) -> Result<String, TransportError> {
    Err(TransportError { message: String::from(msg) })
}

fn ok(body: &str) -> Result<String, TransportError> {
    Ok(String::from(body))
}

fn handle() -> NetworkInterfaceInfo {
    NetworkInterfaceInfo::new(String::from("0e:49:61:0f:c3:11"))
}

#[test]
fn test_interface_field_paths() {
    let i = handle();
    let base = "network/interfaces/macs/0e:49:61:0f:c3:11";
    assert_eq!(i.device_number_path(), format!("{}/device-number", base));
    assert_eq!(i.interface_id_path(), format!("{}/interface-id", base));
    assert_eq!(i.local_hostname_path(), format!("{}/local-hostname", base));
    assert_eq!(i.local_ipv4s_path(), format!("{}/local-ipv4s", base));
    assert_eq!(i.mac_path(), format!("{}/mac", base));
    assert_eq!(i.network_card_index_path(), format!("{}/network-card-index", base));
    assert_eq!(i.owner_id_path(), format!("{}/owner-id", base));
    assert_eq!(i.public_hostname_path(), format!("{}/public-hostname", base));
    assert_eq!(i.public_ipv4s_path(), format!("{}/public-ipv4s", base));
}

#[test]
fn test_interface_scalar_accessors() {
    let i = handle();
    assert_eq!(i.get_device_number(ok("0")).unwrap(), "0");
    assert_eq!(i.get_interface_id(ok("eni-0123456789abcdef0")).unwrap(), "eni-0123456789abcdef0");
    assert_eq!(i.get_local_hostname(ok("ip-172-16-34-43.ec2.internal")).unwrap(), "ip-172-16-34-43.ec2.internal");
    // The ipv4s lists come back verbatim: not split.
    assert_eq!(i.get_local_ipv4s(ok("172.16.34.43\n172.16.34.44")).unwrap(), "172.16.34.43\n172.16.34.44");
    assert_eq!(i.get_mac(ok("0e:49:61:0f:c3:11")).unwrap(), "0e:49:61:0f:c3:11");
    assert_eq!(i.get_network_card_index(ok("0")).unwrap(), "0");
    assert_eq!(i.get_owner_id(ok("123456789012")).unwrap(), "123456789012");
    assert_eq!(i.get_public_hostname(ok("ec2-192-0-2-54.compute-1.amazonaws.com")).unwrap(), "ec2-192-0-2-54.compute-1.amazonaws.com");
    assert_eq!(i.get_public_ipv4s(ok("192.0.2.54")).unwrap(), "192.0.2.54");
}

#[test]
fn test_interface_error_surfaced() {
    let i = handle();
    assert_eq!(i.get_device_number(err("timeout")).unwrap_err().message, "timeout");
    assert_eq!(i.get_owner_id(err("connection reset")).unwrap_err().message, "connection reset");
    assert_eq!(i.get_public_ipv4s(err("timeout")).unwrap_err().message, "timeout");
}

#[test]
fn test_security_group_info() {
    let i = handle();
    let paths = i.security_group_info_paths();
    assert_eq!(paths.len(), 2);
    assert_eq!(paths[0], "network/interfaces/macs/0e:49:61:0f:c3:11/security-group-ids");
    assert_eq!(paths[1], "network/interfaces/macs/0e:49:61:0f:c3:11/security-group");

    let info = i.get_security_group_info(ok("sg-0123456789abcdef0"), ok("default")).unwrap();
    assert_eq!(info.id, "sg-0123456789abcdef0");
    assert_eq!(info.name, "default");

    let e = i.get_security_group_info(err("first"), err("second")).unwrap_err();
    assert_eq!(e.message, "first");
    let e = i.get_security_group_info(ok("sg-1"), err("second")).unwrap_err();
    assert_eq!(e.message, "second");
}

#[test]
fn test_subnet_info() {
    let i = handle();
    let paths = i.subnet_info_paths();
    assert_eq!(paths.len(), 3);
    assert_eq!(paths[0], "network/interfaces/macs/0e:49:61:0f:c3:11/subnet-id");
    assert_eq!(paths[1], "network/interfaces/macs/0e:49:61:0f:c3:11/subnet-ipv4-cidr-block");
    assert_eq!(paths[2], "network/interfaces/macs/0e:49:61:0f:c3:11/subnet-ipv6-cidr-blocks");

    let info = i.get_subnet_info(ok("subnet-be9b61d7"), ok("172.16.34.0/24"), ok("")).unwrap();
    assert_eq!(info.id, "subnet-be9b61d7");
    assert_eq!(info.ipv4_cidr_block, "172.16.34.0/24");
    assert_eq!(info.ipv6_cidr_block, "");

    let e = i.get_subnet_info(ok("subnet-1"), err("middle"), err("last")).unwrap_err();
    assert_eq!(e.message, "middle");
}

#[test]
fn test_vpc_info() {
    let i = handle();
    let paths = i.vpc_info_paths();
    assert_eq!(paths.len(), 4);
    assert_eq!(paths[0], "network/interfaces/macs/0e:49:61:0f:c3:11/vpc-id");
    assert_eq!(paths[1], "network/interfaces/macs/0e:49:61:0f:c3:11/vpc-ipv4-cidr-block");
    assert_eq!(paths[2], "network/interfaces/macs/0e:49:61:0f:c3:11/vpc-ipv4-cidr-blocks");
    assert_eq!(paths[3], "network/interfaces/macs/0e:49:61:0f:c3:11/vpc-ipv6-cidr-blocks");

    let info = i
        .get_vpc_info(ok("vpc-6b2d3c0c"), ok("172.16.0.0/16"), ok("172.16.0.0/16"), ok(""))
        .unwrap();
    assert_eq!(info.id, "vpc-6b2d3c0c");
    assert_eq!(info.ipv4_cidr_block, "172.16.0.0/16");
    assert_eq!(info.ipv4_cidr_blocks, "172.16.0.0/16");
    assert_eq!(info.ipv6_cidr_blocks, "");

    let e = i.get_vpc_info(ok("vpc-1"), ok("a"), err("third"), err("fourth")).unwrap_err();
    assert_eq!(e.message, "third");
}

#[test]
fn test_interface_mac_not_validated() {
    // The MAC is used verbatim as a path segment, with no format check.
    let odd = NetworkInterfaceInfo::new(String::from("not-a-mac"));
    assert_eq!(odd.device_number_path(), "network/interfaces/macs/not-a-mac/device-number");
}
