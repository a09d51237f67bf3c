use bao_vmm::defines::{BAO_IOEVENTFD_FLAG_DATAMATCH, BAO_IOEVENTFD_FLAG_DEASSIGN, BAO_IO_ASK};
use bao_vmm::device::{
    console_device_features, device_parts, net_config_space, vhost_net_device_features, vhost_user_socket_path,
    vhost_vsock_device_features, VHOST_FEATURES,
    block_device_features, initialize, net_device_features, vsock_config_space, VirtioDataPlane,
    VirtioDevType, VirtioDeviceType, COMMON_FEATURES, VIRTIO_NET_FEATURES,
};
use bao_vmm::device_model::BaoDeviceModel;
use bao_vmm::error::Error;
use bao_vmm::event::{EventAction, HandlerSources};
use bao_vmm::net::{if_name_len, build_terminated_if_name, mac_address_to_bytes, IfReqBuilder};
use bao_vmm::types::{DeviceConfig, VMMConfig};
use bao_vmm::vhost::VhostKernelCommon;
use bao_vmm::cli::Cli;

fn config(kind: &str, plane: &str) -> DeviceConfig {
    DeviceConfig {
        id: 0,
        device_type: kind.to_string(),
        shmem_addr: 0,
        shmem_size: 0,
        shmem_path: String::new(),
        mmio_addr: 0,
        irq: 0,
        data_plane: plane.to_string(),
        file_path: None,
        read_only: Some(true),
        root_device: None,
        advertise_flush: Some(true),
        tap_name: None,
        mac_addr: Some("52:54:00:12:34:56".to_string()),
        guest_cid: Some(3),
        socket_path: None,
    }
}

#[test]
fn mac_addresses() {
    assert_eq!(mac_address_to_bytes("52:54:00:12:34:56"), Some(vec![0x52, 0x54, 0, 0x12, 0x34, 0x56]));
    assert_eq!(mac_address_to_bytes("ff:FF:+a:0:000b:c"), Some(vec![0xff, 0xff, 0x0a, 0, 0x0b, 0x0c]));
    assert_eq!(mac_address_to_bytes("52:54:00:12:34"), None);
    assert_eq!(mac_address_to_bytes("52:54:00:12:34:56:78"), None);
    assert_eq!(mac_address_to_bytes("52:54:00:12:34:5g"), None);
    assert_eq!(mac_address_to_bytes("52:54:00:12:34:100"), None);
    assert_eq!(mac_address_to_bytes("52:54::12:34:56"), None);
    assert_eq!(mac_address_to_bytes("52:54:+:12:34:56"), None);
    assert_eq!(mac_address_to_bytes(""), None);
}

#[test]
fn interface_names() {
    let name = build_terminated_if_name("tap0").unwrap();
    assert_eq!(&name[..5], b"tap0\0");
    assert!(name[4..].iter().all(|b| *b == 0));
    assert!(build_terminated_if_name("fifteen_chars_x").is_ok());
    assert_eq!(
        build_terminated_if_name("sixteen_chars_xx"),
        Err(Error::NetInvalidIfname("sixteen_chars_xx".to_string()))
    );
    let req = IfReqBuilder::new().if_name(&name).flags(0x5002);
    assert_eq!(req.name, name);
    assert_eq!(req.flags, 0x5002);
}

#[test]
fn kinds_and_dataplanes() {
    assert_eq!(VirtioDevType::from_name("block"), VirtioDevType::Block);
    assert_eq!(VirtioDevType::from_name("fs9p"), VirtioDevType::Fs9P);
    assert_eq!(VirtioDevType::from_name("blocks"), VirtioDevType::Unknown);
    assert_eq!(VirtioDevType::from_id(19), VirtioDevType::Vsock);
    assert_eq!(VirtioDevType::from_id(6), VirtioDevType::Unknown);
    assert_eq!(VirtioDevType::Gpio.id(), 41);
    assert_eq!(VirtioDevType::Net.to_string(), "Net");
    assert_eq!(VirtioDevType::Net.queue_num_and_size(), (2, 1024));
    assert_eq!(VirtioDevType::Block.queue_num_and_size(), (1, 256));
    assert_eq!(VirtioDevType::Console.queue_num_and_size(), (0, 0));
    assert_eq!(VirtioDataPlane::from_name("vhost_user"), VirtioDataPlane::VhostUser);
    assert_eq!(VirtioDataPlane::from_name("kernel"), VirtioDataPlane::Unknown);
    assert_eq!(VirtioDataPlane::from_id(1), VirtioDataPlane::Vhost);
    assert_eq!(VirtioDataPlane::VhostUser.to_string(), "VhostUser");
}

#[test]
fn device_variants() {
    assert_eq!(VirtioDeviceType::select(&config("block", "virtio")), Ok(VirtioDeviceType::VirtioBlock));
    assert_eq!(VirtioDeviceType::select(&config("vsock", "vhost_user")), Ok(VirtioDeviceType::VhostUserVsock));
    assert_eq!(VirtioDeviceType::select(&config("net", "vhost")), Ok(VirtioDeviceType::VhostNet));
    assert_eq!(
        VirtioDeviceType::select(&config("block", "vhost")),
        Err(Error::WrongDeviceConfiguration("Block".to_string(), "Vhost".to_string()))
    );
    assert_eq!(
        VirtioDeviceType::select(&config("gpu", "virtio")),
        Err(Error::WrongDeviceConfiguration("Gpu".to_string(), "Virtio".to_string()))
    );
}

#[test]
fn feature_words() {
    let c = config("block", "virtio");
    assert_eq!(block_device_features(&c), 0x220);
    let mut plain = config("block", "virtio");
    plain.read_only = None;
    plain.advertise_flush = Some(false);
    assert_eq!(block_device_features(&plain), 0);
    assert_eq!(net_device_features(&c), VIRTIO_NET_FEATURES | 0x20);
    plain.mac_addr = None;
    assert_eq!(net_device_features(&plain), VIRTIO_NET_FEATURES);
    assert_eq!(COMMON_FEATURES, (1 << 32) | (1 << 33) | (1 << 35));
    assert_eq!(vsock_config_space(3), vec![3, 0, 0, 0, 0, 0, 0, 0]);
    let (common, queues) = initialize(&config("net", "virtio"));
    assert_eq!(common, COMMON_FEATURES);
    assert_eq!(queues.len(), 2);
    assert_eq!(queues[1].max_size, 1024);
    assert!(!queues[1].ready);
}

#[test]
fn hypervisor_records() {
    let ask = BaoDeviceModel::ask_request();
    assert_eq!(ask.op, BAO_IO_ASK);
    assert_eq!(ask.value, 0);
    let rec = BaoDeviceModel::ioeventfd_record(7, BAO_IOEVENTFD_FLAG_DATAMATCH, 0x1050, 1);
    assert_eq!((rec.fd, rec.flags, rec.addr, rec.len, rec.reserved, rec.data), (7, 2, 0x1050, 4, 0, 1));
    let off = BaoDeviceModel::ioeventfd_record(
        7,
        BAO_IOEVENTFD_FLAG_DATAMATCH | BAO_IOEVENTFD_FLAG_DEASSIGN,
        0x1050,
        1,
    );
    assert_eq!(off.flags, 6);
    assert_eq!(BaoDeviceModel::irqfd_record(4).flags, 0);
    assert_eq!(VhostKernelCommon::new(0x13D000000).unwrap().features(), 0x13D000000);
    assert_eq!(Cli::new(), Cli);
}

#[test]
fn names_and_paths() {
    assert_eq!(VirtioDevType::Fs9P.name(), "9p");
    assert_eq!(VirtioDevType::Fs.name(), "fs");
    assert_eq!(VirtioDevType::Unknown.name(), "UNKNOWN");
    assert_eq!(VirtioDataPlane::VhostUser.name(), "vhost_user");
    assert_eq!(vhost_user_socket_path("/tmp/", VirtioDevType::Fs), "/tmp/fs.sock");
    assert_eq!(vhost_user_socket_path("/run/vu-", VirtioDevType::Vsock), "/run/vu-vsock.sock");
}

#[test]
fn backend_feature_words() {
    assert_eq!(console_device_features(), 1 << 35);
    assert_eq!(
        vhost_net_device_features(),
        (1 << 29) | (1 << 24) | (1 << 40) | (1 << 28) | (1 << 15) | VHOST_FEATURES
    );
    assert_eq!(vhost_vsock_device_features(), VHOST_FEATURES | 2);
    assert_eq!(
        VIRTIO_NET_FEATURES,
        (1 << 29) | (1 << 35) | 1 | 2 | (1 << 7) | (1 << 8) | (1 << 10) | (1 << 11) | (1 << 12) | (1 << 14)
    );
}

#[test]
fn net_config_spaces() {
    let c = config("net", "virtio");
    assert_eq!(net_config_space(&c), Ok(vec![0x52, 0x54, 0, 0x12, 0x34, 0x56]));
    let mut bad = config("net", "virtio");
    bad.mac_addr = Some("52:54".to_string());
    assert_eq!(net_config_space(&bad), Err(Error::ParseFailure));
    bad.mac_addr = None;
    assert_eq!(net_config_space(&bad), Ok(vec![]));
}

#[test]
fn handler_event_decisions() {
    let net = HandlerSources { first_queue_data: 1, num_queues: 2, backend_data: Some(0) };
    assert_eq!(net.action(true, 0), EventAction::ProcessBackend);
    assert_eq!(net.action(true, 1), EventAction::DrainQueue(0));
    assert_eq!(net.action(true, 2), EventAction::DrainQueue(1));
    assert_eq!(net.action(true, 3), EventAction::RemoveAll);
    assert_eq!(net.action(false, 1), EventAction::RemoveAll);
    let block = HandlerSources { first_queue_data: 0, num_queues: 1, backend_data: None };
    assert_eq!(block.action(true, 0), EventAction::DrainQueue(0));
    assert_eq!(block.action(true, 1), EventAction::RemoveAll);
    assert_eq!(HandlerSources::after_work(false), Some(EventAction::RemoveAll));
    assert_eq!(HandlerSources::after_work(true), None);
}

#[test]
fn interface_name_length() {
    let name = build_terminated_if_name("tap0").unwrap();
    assert_eq!(if_name_len(&name), 4);
    assert_eq!(if_name_len(&[b'a'; 16]), 16);
    assert_eq!(if_name_len(&[0; 16]), 0);
}

#[test]
fn vm_ids_are_checked() {
    let mut a = config("block", "virtio");
    let mut b = config("console", "virtio");
    a.id = 1;
    b.id = 2;
    assert_eq!(VMMConfig { devices: vec![a.clone(), b.clone()] }.validate(), Ok(()));
    assert_eq!(VMMConfig { devices: vec![] }.validate(), Ok(()));
    b.id = 1;
    assert_eq!(
        VMMConfig { devices: vec![a.clone(), b.clone()] }.validate(),
        Err(Error::InvalidFrontendId(1))
    );
    b.id = 0x1_0005;
    assert_eq!(
        VMMConfig { devices: vec![a, b] }.validate(),
        Err(Error::InvalidFrontendId(5))
    );
}

#[test]
fn device_parts_per_variant() {
    let c = config("block", "virtio");
    assert_eq!(
        device_parts(VirtioDeviceType::VirtioBlock, &c, Some(4096)),
        Ok((0x220, vec![8, 0, 0, 0, 0, 0, 0, 0]))
    );
    assert_eq!(
        device_parts(VirtioDeviceType::VirtioBlock, &c, None),
        Err(Error::WrongDeviceConfiguration("Block".to_string(), "Virtio".to_string()))
    );
    let mut no_cid = config("vsock", "vhost");
    no_cid.guest_cid = None;
    assert_eq!(
        device_parts(VirtioDeviceType::VhostVsock, &no_cid, None),
        Err(Error::WrongDeviceConfiguration("Vsock".to_string(), "Vhost".to_string()))
    );
    assert_eq!(
        device_parts(VirtioDeviceType::VirtioConsole, &c, None),
        Ok((1 << 35, vec![80, 0, 25, 0, 1, 0, 0, 0]))
    );
    assert_eq!(
        device_parts(VirtioDeviceType::VhostVsock, &c, None),
        Ok((VHOST_FEATURES | 2, vec![3, 0, 0, 0, 0, 0, 0, 0]))
    );
    assert_eq!(
        device_parts(VirtioDeviceType::VirtioNet, &c, None),
        Ok((VIRTIO_NET_FEATURES | 0x20, vec![0x52, 0x54, 0, 0x12, 0x34, 0x56]))
    );
    assert_eq!(device_parts(VirtioDeviceType::VhostUserFs, &c, None), Ok((0, vec![])));
    assert!(device_parts(VirtioDeviceType::Unknown, &c, None).is_err());
}
