use bao_vmm::config::WriteEffect;
use bao_vmm::defines::{BAO_IO_ASK, BAO_IO_READ, BAO_IO_WRITE};
use bao_vmm::device::{block_config_space, build_device, console_config_space, VirtioDeviceCommon};
use bao_vmm::error::{AccessKind, Error};
use bao_vmm::mmio::{MmioConfig, MmioRange};
use bao_vmm::types::{BaoIoRequest, DeviceConfig};
use bao_vmm::vm::{IoOutcome, Vm, IO_REQUEST_FAILED};

fn config(kind: &str, mmio_addr: u64) -> DeviceConfig {
    DeviceConfig {
        id: 1,
        device_type: kind.to_string(),
        shmem_addr: 0,
        shmem_size: 0x1000,
        shmem_path: "/dev/baoipc0".to_string(),
        mmio_addr,
        irq: 47,
        data_plane: "virtio".to_string(),
        file_path: None,
        read_only: None,
        root_device: None,
        advertise_flush: None,
        tap_name: None,
        mac_addr: None,
        guest_cid: None,
        socket_path: None,
    }
}

fn block_at(base: u64) -> VirtioDeviceCommon {
    build_device(&config("block", base), 0, block_config_space(4096)).unwrap()
}

fn request(op: u64, addr: u64, value: u64) -> BaoIoRequest {
    BaoIoRequest {
        virtio_id: 3,
        reg_off: addr & 0x1ff,
        addr,
        op,
        value,
        access_width: 4,
        cpu_id: 2,
        vcpu_id: 5,
        ret: 7,
    }
}

fn same_identification(a: &BaoIoRequest, b: &BaoIoRequest) -> bool {
    a.virtio_id == b.virtio_id
        && a.reg_off == b.reg_off
        && a.addr == b.addr
        && a.op == b.op
        && a.access_width == b.access_width
        && a.cpu_id == b.cpu_id
        && a.vcpu_id == b.vcpu_id
}

#[test]
fn overlapping_window_is_refused() {
    let mut vm = Vm::new(1);
    assert_eq!(vm.add_device(block_at(0x1000)), Ok(0));
    assert_eq!(vm.add_device(block_at(0x1100)), Err(Error::MmioConfig));
    assert_eq!(vm.num_devices(), 1);
    assert_eq!(vm.add_device(block_at(0x1200)), Ok(1));
    assert_eq!(vm.add_device(block_at(0xF00)), Err(Error::MmioConfig));
    assert_eq!(vm.add_device(block_at(0xC00)), Ok(2));
    assert_eq!(vm.num_devices(), 3);
}

#[test]
fn read_magic_through_dispatch() {
    let mut vm = Vm::new(1);
    vm.add_device(block_at(0x1000)).unwrap();
    let req = request(BAO_IO_READ, 0x1000, 0);
    let (done, outcome) = vm.handle_io_request(req);
    assert_eq!(done.value, 0x7472_6976);
    assert_eq!(done.value.to_le_bytes()[..4], [0x76, 0x69, 0x72, 0x74]);
    assert_eq!(done.ret, 0);
    assert!(same_identification(&done, &req));
    assert_eq!(outcome, IoOutcome::Served { device: 0, effect: WriteEffect::Nothing });
}

#[test]
fn console_config_generation_completes_with_zero() {
    let mut vm = Vm::new(1);
    let dev = build_device(&config("console", 0), 0, console_config_space()).unwrap();
    vm.add_device(dev).unwrap();
    let req = request(BAO_IO_READ, 0x1FC, 0xFFFF);
    let (done, _) = vm.handle_io_request(req);
    assert_eq!(done.value, 0);
    assert_eq!(done.ret, 0);
    assert!(same_identification(&done, &req));
}

#[test]
fn write_then_read_status_through_dispatch() {
    let mut vm = Vm::new(1);
    vm.add_device(block_at(0x1000)).unwrap();
    let (done, outcome) = vm.handle_io_request(request(BAO_IO_WRITE, 0x1070, 0xAAAA_0000_0000_0001));
    assert_eq!(done.ret, 0);
    assert_eq!(done.value, 1);
    assert_eq!(outcome, IoOutcome::Served { device: 0, effect: WriteEffect::Nothing });
    let (done, _) = vm.handle_io_request(request(BAO_IO_READ, 0x1070, 0));
    assert_eq!(done.value, 1);
    assert_eq!(vm.device(0).config.device_status, 1);
}

#[test]
fn activation_through_dispatch() {
    let mut vm = Vm::new(1);
    vm.add_device(block_at(0x1000)).unwrap();
    for (off, v) in [(0x70u64, 1u64), (0x70, 3), (0x24, 1), (0x20, 1), (0x70, 11), (0x44, 1)] {
        let (done, _) = vm.handle_io_request(request(BAO_IO_WRITE, 0x1000 + off, v));
        assert_eq!(done.ret, 0);
    }
    let (_, outcome) = vm.handle_io_request(request(BAO_IO_WRITE, 0x1070, 15));
    assert_eq!(outcome, IoOutcome::Served { device: 0, effect: WriteEffect::Activate });
    assert_eq!(vm.prepare_activate(0), Ok(1));
    let rec = vm.ioeventfd_request(0, 12, 0);
    assert_eq!(rec.addr, 0x1050);
    vm.finalize_activate(0);
    assert!(vm.device(0).config.device_activated);
    assert_eq!(vm.prepare_activate(0), Err(Error::DeviceAlreadyActivated));
    assert_ne!(vm.device(0).config.device_status & 0x80, 0);
    vm.signal_used_queue(0);
    let (done, _) = vm.handle_io_request(request(BAO_IO_READ, 0x1060, 0));
    assert_eq!(done.value, 1);
}

#[test]
fn unowned_address_fails_the_request() {
    let mut vm = Vm::new(1);
    vm.add_device(block_at(0x1000)).unwrap();
    let req = request(BAO_IO_WRITE, 0x3000, 1);
    let (done, outcome) = vm.handle_io_request(req);
    assert_eq!(done.ret, IO_REQUEST_FAILED);
    assert_eq!(done.value, 1);
    assert!(same_identification(&done, &req));
    assert_eq!(outcome, IoOutcome::Failed(Error::InvalidMmioOperation(AccessKind::Write)));
    let (done, outcome) = vm.handle_io_request(request(BAO_IO_READ, 0x11FE, 0));
    assert_eq!(done.ret, IO_REQUEST_FAILED);
    assert_eq!(outcome, IoOutcome::Failed(Error::InvalidMmioOperation(AccessKind::Read)));
}

#[test]
fn other_operations_fail_the_request() {
    let mut vm = Vm::new(1);
    vm.add_device(block_at(0x1000)).unwrap();
    let req = request(BAO_IO_ASK, 0x1000, 9);
    let (done, outcome) = vm.handle_io_request(req);
    assert_eq!(done.ret, IO_REQUEST_FAILED);
    assert_eq!(done.value, 9);
    assert_eq!(outcome, IoOutcome::Failed(Error::InvalidIoReqDirection(BAO_IO_ASK)));
    let (_, outcome) = vm.handle_io_request(request(7, 0x1000, 0));
    assert_eq!(outcome, IoOutcome::Failed(Error::InvalidIoReqDirection(7)));
}

#[test]
fn mmio_windows() {
    assert_eq!(MmioRange::new(0x1000, 0), Err(bao_vmm::mmio::Error::InvalidRange));
    assert_eq!(MmioRange::new(2, u64::MAX), Err(bao_vmm::mmio::Error::InvalidRange));
    assert!(MmioRange::new(1, u64::MAX).is_ok());
    let c = MmioConfig::new(0x1000, 0x200, 5).unwrap();
    assert_eq!(c.range.last(), 0x11FF);
    let n = c.next().unwrap();
    assert_eq!(n.range, MmioRange { base: 0x1200, size: 0x200 });
    assert_eq!(n.gsi, 6);
    let top = MmioConfig::new(u64::MAX - 0x1FF, 0x200, 5).unwrap();
    assert_eq!(top.next(), Err(bao_vmm::mmio::Error::Overflow));
    let near = MmioConfig::new(u64::MAX - 0x2FF, 0x200, 5).unwrap();
    assert_eq!(near.next(), Err(bao_vmm::mmio::Error::InvalidRange));
    assert!(build_device(&config("block", u64::MAX - 0x100), 0, vec![]).is_err());
}

#[test]
fn devices_from_configuration() {
    let mut vm = Vm::new(4);
    assert_eq!(vm.id(), 4);
    let block = config("block", 0x1000);
    assert_eq!(
        vm.add_configured_device(&block, Some(8192)),
        Ok((0, bao_vmm::device::VirtioDeviceType::VirtioBlock))
    );
    assert_eq!(vm.device(0).config.config_space, vec![16, 0, 0, 0, 0, 0, 0, 0]);
    assert_eq!(vm.device(0).mmio.gsi, 47);
    // same window again
    assert_eq!(vm.add_configured_device(&config("console", 0x1100), None), Err(Error::MmioConfig));
    // a block device without its backing file size
    assert!(vm.add_configured_device(&config("block", 0x2000), None).is_err());
    let mut net = config("net", 0x3000);
    net.mac_addr = Some("zz".to_string());
    assert_eq!(vm.add_configured_device(&net, None), Err(Error::ParseFailure));
    let mut gpu = config("gpu", 0x3000);
    gpu.data_plane = "virtio".to_string();
    assert_eq!(
        vm.add_configured_device(&gpu, None),
        Err(Error::WrongDeviceConfiguration("Gpu".to_string(), "Virtio".to_string()))
    );
    assert_eq!(vm.num_devices(), 1);
    assert_eq!(
        vm.add_configured_device(&config("console", 0x1200), None),
        Ok((1, bao_vmm::device::VirtioDeviceType::VirtioConsole))
    );
}
