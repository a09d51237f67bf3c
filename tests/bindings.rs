use bao_vmm::config::{
    ACKNOWLEDGE, DEVICE_NEEDS_RESET, DRIVER, DRIVER_OK, FAILED, FEATURES_OK, VERSION_1_MASK,
    VIRTIO_F_IN_ORDER, VIRTIO_F_IOMMU_PLATFORM, VIRTIO_F_VERSION_1,
};
use bao_vmm::device::{VirtioDevType, VIRTIO_BLK_F_FLUSH_MASK, VIRTIO_BLK_F_RO_MASK, VIRTIO_NET_F_MAC_MASK};
use bao_vmm::mmio;
use virtio_bindings::bindings::{virtio_blk, virtio_config, virtio_mmio, virtio_net};
use virtio_bindings::virtio_ids;

#[test]
fn register_offsets_match_virtio_bindings() {
    let pairs = [
        (mmio::VIRTIO_MMIO_MAGIC_VALUE, virtio_mmio::VIRTIO_MMIO_MAGIC_VALUE),
        (mmio::VIRTIO_MMIO_VERSION, virtio_mmio::VIRTIO_MMIO_VERSION),
        (mmio::VIRTIO_MMIO_DEVICE_ID, virtio_mmio::VIRTIO_MMIO_DEVICE_ID),
        (mmio::VIRTIO_MMIO_VENDOR_ID, virtio_mmio::VIRTIO_MMIO_VENDOR_ID),
        (mmio::VIRTIO_MMIO_DEVICE_FEATURES, virtio_mmio::VIRTIO_MMIO_DEVICE_FEATURES),
        (mmio::VIRTIO_MMIO_DEVICE_FEATURES_SEL, virtio_mmio::VIRTIO_MMIO_DEVICE_FEATURES_SEL),
        (mmio::VIRTIO_MMIO_DRIVER_FEATURES, virtio_mmio::VIRTIO_MMIO_DRIVER_FEATURES),
        (mmio::VIRTIO_MMIO_DRIVER_FEATURES_SEL, virtio_mmio::VIRTIO_MMIO_DRIVER_FEATURES_SEL),
        (mmio::VIRTIO_MMIO_QUEUE_SEL, virtio_mmio::VIRTIO_MMIO_QUEUE_SEL),
        (mmio::VIRTIO_MMIO_QUEUE_NUM_MAX, virtio_mmio::VIRTIO_MMIO_QUEUE_NUM_MAX),
        (mmio::VIRTIO_MMIO_QUEUE_NUM, virtio_mmio::VIRTIO_MMIO_QUEUE_NUM),
        (mmio::VIRTIO_MMIO_QUEUE_READY, virtio_mmio::VIRTIO_MMIO_QUEUE_READY),
        (mmio::VIRTIO_MMIO_QUEUE_NOTIFY_OFFSET, virtio_mmio::VIRTIO_MMIO_QUEUE_NOTIFY),
        (mmio::VIRTIO_MMIO_INTERRUPT_STATUS, virtio_mmio::VIRTIO_MMIO_INTERRUPT_STATUS),
        (mmio::VIRTIO_MMIO_INTERRUPT_ACK, virtio_mmio::VIRTIO_MMIO_INTERRUPT_ACK),
        (mmio::VIRTIO_MMIO_STATUS, virtio_mmio::VIRTIO_MMIO_STATUS),
        (mmio::VIRTIO_MMIO_QUEUE_DESC_LOW, virtio_mmio::VIRTIO_MMIO_QUEUE_DESC_LOW),
        (mmio::VIRTIO_MMIO_QUEUE_DESC_HIGH, virtio_mmio::VIRTIO_MMIO_QUEUE_DESC_HIGH),
        (mmio::VIRTIO_MMIO_QUEUE_AVAIL_LOW, virtio_mmio::VIRTIO_MMIO_QUEUE_AVAIL_LOW),
        (mmio::VIRTIO_MMIO_QUEUE_AVAIL_HIGH, virtio_mmio::VIRTIO_MMIO_QUEUE_AVAIL_HIGH),
        (mmio::VIRTIO_MMIO_QUEUE_USED_LOW, virtio_mmio::VIRTIO_MMIO_QUEUE_USED_LOW),
        (mmio::VIRTIO_MMIO_QUEUE_USED_HIGH, virtio_mmio::VIRTIO_MMIO_QUEUE_USED_HIGH),
        (mmio::VIRTIO_MMIO_CONFIG_GENERATION, virtio_mmio::VIRTIO_MMIO_CONFIG_GENERATION),
        (mmio::VIRTIO_MMIO_CONFIG, virtio_mmio::VIRTIO_MMIO_CONFIG),
    ];
    for (ours, theirs) in pairs {
        assert_eq!(ours, theirs as u64);
    }
    assert_eq!(mmio::VIRTIO_MMIO_INT_VRING as u32, virtio_mmio::VIRTIO_MMIO_INT_VRING);
    assert_eq!(mmio::VIRTIO_MMIO_INT_CONFIG as u32, virtio_mmio::VIRTIO_MMIO_INT_CONFIG);
}

#[test]
fn status_and_feature_bits_match_virtio_bindings() {
    assert_eq!(ACKNOWLEDGE as u32, virtio_config::VIRTIO_CONFIG_S_ACKNOWLEDGE);
    assert_eq!(DRIVER as u32, virtio_config::VIRTIO_CONFIG_S_DRIVER);
    assert_eq!(DRIVER_OK as u32, virtio_config::VIRTIO_CONFIG_S_DRIVER_OK);
    assert_eq!(FEATURES_OK as u32, virtio_config::VIRTIO_CONFIG_S_FEATURES_OK);
    assert_eq!(DEVICE_NEEDS_RESET as u32, virtio_config::VIRTIO_CONFIG_S_NEEDS_RESET);
    assert_eq!(FAILED as u32, virtio_config::VIRTIO_CONFIG_S_FAILED);
    assert_eq!(VIRTIO_F_VERSION_1, virtio_config::VIRTIO_F_VERSION_1 as u64);
    assert_eq!(VERSION_1_MASK, 1 << virtio_config::VIRTIO_F_VERSION_1);
    assert_eq!(VIRTIO_F_IOMMU_PLATFORM, virtio_config::VIRTIO_F_IOMMU_PLATFORM as u64);
    assert_eq!(VIRTIO_F_IN_ORDER, virtio_config::VIRTIO_F_IN_ORDER as u64);
    assert_eq!(VIRTIO_BLK_F_RO_MASK, 1 << virtio_blk::VIRTIO_BLK_F_RO);
    assert_eq!(VIRTIO_BLK_F_FLUSH_MASK, 1 << virtio_blk::VIRTIO_BLK_F_FLUSH);
    assert_eq!(VIRTIO_NET_F_MAC_MASK, 1 << virtio_net::VIRTIO_NET_F_MAC);
}

#[test]
fn device_ids_match_virtio_bindings() {
    assert_eq!(VirtioDevType::Net.id(), virtio_ids::VIRTIO_ID_NET);
    assert_eq!(VirtioDevType::Block.id(), virtio_ids::VIRTIO_ID_BLOCK);
    assert_eq!(VirtioDevType::Console.id(), virtio_ids::VIRTIO_ID_CONSOLE);
    assert_eq!(VirtioDevType::Vsock.id(), virtio_ids::VIRTIO_ID_VSOCK);
    assert_eq!(VirtioDevType::Fs.id(), virtio_ids::VIRTIO_ID_FS);
}
