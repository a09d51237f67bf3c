use bao_vmm::config::{VirtioConfig, WriteEffect, FAILED, STATUS_LIVE};
use bao_vmm::device::{
    SignalUsedQueue,
    block_config_space, build_device, console_config_space, VirtioDevType, VirtioDeviceCommon,
    COMMON_FEATURES,
};
use bao_vmm::error::Error;
use bao_vmm::queue::QueueState;
use bao_vmm::types::DeviceConfig;

fn config(kind: &str, plane: &str, mmio_addr: u64) -> DeviceConfig {
    DeviceConfig {
        id: 0,
        device_type: kind.to_string(),
        shmem_addr: 0x5000_0000,
        shmem_size: 0x100_0000,
        shmem_path: "/dev/baoipc0".to_string(),
        mmio_addr,
        irq: 47,
        data_plane: plane.to_string(),
        file_path: None,
        read_only: Some(false),
        root_device: None,
        advertise_flush: Some(false),
        tap_name: None,
        mac_addr: None,
        guest_cid: None,
        socket_path: None,
    }
}

fn block() -> VirtioDeviceCommon {
    build_device(&config("block", "virtio", 0x1000), 0, block_config_space(4096)).unwrap()
}

fn read32(dev: &mut VirtioDeviceCommon, offset: u64) -> u32 {
    let mut data = [0xEEu8; 4];
    dev.mmio_read(offset, &mut data);
    u32::from_le_bytes(data)
}

fn write32(dev: &mut VirtioDeviceCommon, offset: u64, v: u32) -> WriteEffect {
    dev.mmio_write(offset, &v.to_le_bytes())
}

/// Brings a device through ACKNOWLEDGE and DRIVER and accepts VERSION_1.
fn negotiate(dev: &mut VirtioDeviceCommon) {
    write32(dev, 0x70, 1);
    write32(dev, 0x70, 3);
    write32(dev, 0x24, 1);
    write32(dev, 0x20, 1);
}

#[test]
fn magic_version_and_ids() {
    let mut dev = block();
    let mut data = [0u8; 4];
    dev.mmio_read(0, &mut data);
    assert_eq!(data, [0x76, 0x69, 0x72, 0x74]);
    assert_eq!(read32(&mut dev, 0x04), 2);
    assert_eq!(read32(&mut dev, 0x08), 2);
    assert_eq!(read32(&mut dev, 0x0c), 0);
}

#[test]
fn device_features_by_page() {
    let mut dev = block();
    assert_eq!(read32(&mut dev, 0x10), 0);
    write32(&mut dev, 0x14, 1);
    assert_eq!(read32(&mut dev, 0x10), (COMMON_FEATURES >> 32) as u32);
    write32(&mut dev, 0x14, 2);
    assert_eq!(read32(&mut dev, 0x10), 0);
}

#[test]
fn queue_registers_follow_selection() {
    let mut dev = block();
    assert_eq!(read32(&mut dev, 0x34), 256);
    write32(&mut dev, 0x30, 1);
    assert_eq!(read32(&mut dev, 0x34), 0);
}

#[test]
fn scratch_config_round_trip() {
    let mut dev = block();
    negotiate(&mut dev);
    for v in [0u32, 1, 0xDEAD_BEEF, u32::MAX] {
        write32(&mut dev, 0x100, v);
        assert_eq!(read32(&mut dev, 0x100), v);
    }
}

#[test]
fn interrupt_ack_clears_and_repeats_as_no_op() {
    let mut dev = block();
    dev.signal_used_queue();
    assert_eq!(read32(&mut dev, 0x60), 1);
    write32(&mut dev, 0x64, 1);
    assert_eq!(read32(&mut dev, 0x60), 0);
    let before = dev.config.interrupt_status;
    write32(&mut dev, 0x64, 1);
    assert_eq!(dev.config.interrupt_status, before);
    assert_eq!(read32(&mut dev, 0x60), 0);
}

#[test]
fn undefined_reads_are_zero_and_writes_ignored() {
    let mut dev = block();
    assert_eq!(read32(&mut dev, 0x18), 0);
    assert_eq!(read32(&mut dev, 0xf0), 0);
    let mut two = [0xEEu8; 2];
    dev.mmio_read(0x00, &mut two);
    assert_eq!(two, [0, 0]);
    // the block configuration space holds eight bytes
    assert_eq!(read32(&mut dev, 0x108), 0);
    let mut past = [0xEEu8; 4];
    dev.mmio_read(0x106, &mut past);
    assert_eq!(past, [0, 0, 0, 0]);
    let status = dev.config.device_status;
    assert_eq!(write32(&mut dev, 0x18, 0xFFFF_FFFF), WriteEffect::Nothing);
    assert_eq!(write32(&mut dev, 0x0c, 7), WriteEffect::Nothing);
    assert_eq!(dev.config.device_status, status);
    assert_eq!(read32(&mut dev, 0x0c), 0);
}

#[test]
fn block_capacity_in_config_space() {
    let mut dev = block();
    assert_eq!(read32(&mut dev, 0x100), 8);
    assert_eq!(read32(&mut dev, 0x104), 0);
}

#[test]
fn features_ok_without_version_1_fails() {
    let mut dev = block();
    write32(&mut dev, 0x70, 1);
    write32(&mut dev, 0x70, 3);
    let effect = write32(&mut dev, 0x70, 11);
    assert_eq!(effect, WriteEffect::BadFeatures(0));
    assert_ne!(dev.config.device_status & FAILED, 0);
    // queue operations are rejected from now on
    write32(&mut dev, 0x38, 128);
    write32(&mut dev, 0x44, 1);
    write32(&mut dev, 0x80, 0x1000);
    assert_eq!(dev.config.queues[0], QueueState::new(256));
    assert_eq!(read32(&mut dev, 0x44), 0);
}

#[test]
fn driver_ok_asks_for_activation_once() {
    let mut dev = block();
    negotiate(&mut dev);
    assert_eq!(write32(&mut dev, 0x70, 11), WriteEffect::Nothing);
    write32(&mut dev, 0x38, 128);
    write32(&mut dev, 0x80, 0x1000);
    write32(&mut dev, 0x84, 0x1);
    write32(&mut dev, 0x90, 0x2000);
    write32(&mut dev, 0xa0, 0x3000);
    write32(&mut dev, 0x44, 1);
    assert_eq!(dev.config.queues[0].size, 128);
    assert_eq!(dev.config.queues[0].desc_table, 0x1_0000_1000);
    assert_eq!(dev.config.queues[0].avail_ring, 0x2000);
    assert_eq!(dev.config.queues[0].used_ring, 0x3000);
    assert!(dev.config.queues[0].ready);
    assert_eq!(write32(&mut dev, 0x70, STATUS_LIVE as u32), WriteEffect::Activate);
    assert_eq!(dev.prepare_activate(), Ok(1));
    let rec = dev.ioeventfd_request(9, 0);
    assert_eq!(rec.addr, 0x1050);
    assert_eq!(rec.data, 0);
    assert_eq!(rec.flags, 2);
    assert_eq!(rec.len, 4);
    dev.finalize_activate();
    // ring addresses are frozen once the device is active
    write32(&mut dev, 0x80, 0x8000);
    write32(&mut dev, 0xa0, 0x9000);
    assert_eq!(dev.config.queues[0].desc_table, 0x1_0000_1000);
    assert_eq!(dev.config.queues[0].used_ring, 0x3000);
}

#[test]
fn misaligned_or_invalid_queue_values_are_ignored() {
    let mut dev = block();
    negotiate(&mut dev);
    write32(&mut dev, 0x70, 11);
    write32(&mut dev, 0x38, 100);
    write32(&mut dev, 0x38, 512);
    write32(&mut dev, 0x80, 0x1008);
    write32(&mut dev, 0x90, 0x2001);
    write32(&mut dev, 0xa0, 0x3002);
    assert_eq!(dev.config.queues[0], QueueState::new(256));
}

#[test]
fn second_activation_fails_and_marks_failed() {
    let mut dev = block();
    negotiate(&mut dev);
    write32(&mut dev, 0x70, 11);
    write32(&mut dev, 0x70, 15);
    assert_eq!(dev.prepare_activate(), Ok(1));
    dev.finalize_activate();
    assert_eq!(dev.prepare_activate(), Err(Error::DeviceAlreadyActivated));
    assert_ne!(dev.config.device_status & FAILED, 0);
}

#[test]
fn activation_without_version_1_is_refused() {
    let mut dev = block();
    assert_eq!(dev.prepare_activate(), Err(Error::DeviceBadFeatures(0)));
    assert_ne!(dev.config.device_status & FAILED, 0);
}

#[test]
fn reset_after_driver_ok_allows_reactivation() {
    let mut dev = block();
    negotiate(&mut dev);
    write32(&mut dev, 0x70, 11);
    write32(&mut dev, 0x44, 1);
    write32(&mut dev, 0x70, 15);
    dev.prepare_activate().unwrap();
    dev.finalize_activate();
    write32(&mut dev, 0x14, 1);
    assert_eq!(write32(&mut dev, 0x70, 0), WriteEffect::Reset);
    assert!(!dev.config.queues[0].ready);
    assert_eq!(dev.config.device_features_select, 0);
    assert_eq!(dev.config.driver_features_select, 0);
    assert_eq!(dev.config.device_status, 0);
    assert!(!dev.config.device_activated);
    negotiate(&mut dev);
    write32(&mut dev, 0x70, 11);
    assert_eq!(write32(&mut dev, 0x70, 15), WriteEffect::Activate);
    assert_eq!(dev.prepare_activate(), Ok(1));
}

#[test]
fn driver_ok_on_active_device_fails() {
    let mut cfg = VirtioConfig::new(COMMON_FEATURES, vec![QueueState::new(256)], vec![]);
    cfg.device_status = 11;
    cfg.driver_features = 1 << 32;
    cfg.device_activated = true;
    assert_eq!(cfg.write_status(15), WriteEffect::AlreadyActivated);
    assert_ne!(cfg.device_status & FAILED, 0);
}

#[test]
fn console_config_generation_reads_zero() {
    let mut dev =
        build_device(&config("console", "virtio", 0x1000), 0, console_config_space()).unwrap();
    assert_eq!(dev.device_type, VirtioDevType::Console);
    assert_eq!(read32(&mut dev, 0xfc), 0);
    assert_eq!(read32(&mut dev, 0x100), 0x0019_0050);
    assert_eq!(read32(&mut dev, 0x104), 1);
    assert_eq!(read32(&mut dev, 0x1fc), 0);
}

#[test]
fn backend_dataplanes_raise_interrupt_on_read() {
    let mut dev = build_device(&config("vsock", "vhost", 0x1000), 0, vec![]).unwrap();
    assert_eq!(read32(&mut dev, 0x60), 1);
    let mut local = block();
    assert_eq!(read32(&mut local, 0x60), 0);
}

#[test]
fn driver_features_accumulate_unmasked() {
    let mut cfg = VirtioConfig::new(0, vec![], vec![]);
    cfg.write_status(1);
    cfg.write_status(3);
    cfg.write(0x20, &1u32.to_le_bytes());
    assert_eq!(cfg.driver_features, 1);
    cfg.write(0x20, &0x10u32.to_le_bytes());
    assert_eq!(cfg.driver_features, 0x11);
    cfg.write(0x24, &1u32.to_le_bytes());
    cfg.write(0x20, &3u32.to_le_bytes());
    assert_eq!(cfg.driver_features, 0x3_0000_0011);
    cfg.write(0x24, &2u32.to_le_bytes());
    cfg.write(0x20, &0xFFu32.to_le_bytes());
    assert_eq!(cfg.driver_features, 0x3_0000_0011);
    // once FEATURES_OK is set, writes are ignored
    cfg.write_status(11);
    cfg.write(0x24, &0u32.to_le_bytes());
    cfg.write(0x20, &0x100u32.to_le_bytes());
    assert_eq!(cfg.driver_features, 0x3_0000_0011);
}

#[test]
fn driver_features_ignored_before_driver() {
    let mut cfg = VirtioConfig::new(COMMON_FEATURES, vec![], vec![]);
    cfg.write(0x20, &1u32.to_le_bytes());
    assert_eq!(cfg.driver_features, 0);
}

#[test]
fn signal_trait_raises_used_bit() {
    let mut dev = block();
    SignalUsedQueue::signal_used_queue(&mut dev, 0);
    assert_eq!(dev.config.interrupt_status, 1);
}
