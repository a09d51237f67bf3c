use bao_vmm::ioctl::{
    ioctl_code, BAO_IOCTL_IOEVENTFD, BAO_IOCTL_IO_ATTACH_CLIENT, BAO_IOCTL_IO_DM_GET_INFO,
    BAO_IOCTL_IO_REQUEST_NOTIFY_COMPLETED, BAO_IOCTL_IRQFD, IOC_READ, IOC_WRITE,
};

#[test]
fn test_ioctls() {
    assert_eq!(0xC040_A601, BAO_IOCTL_IO_DM_GET_INFO());
    assert_eq!(0xC040_A602, BAO_IOCTL_IO_ATTACH_CLIENT());
    assert_eq!(0x4040_A603, BAO_IOCTL_IO_REQUEST_NOTIFY_COMPLETED());
    assert_eq!(0x4020_A604, BAO_IOCTL_IOEVENTFD());
    assert_eq!(0x4008_A605, BAO_IOCTL_IRQFD());
}

#[test]
fn ioctl_code_packs_fields() {
    assert_eq!(ioctl_code(0, 0xA6, 8, 0), 0xA608);
    assert_eq!(ioctl_code(IOC_WRITE, 0xA6, 1, 4), 0x4004_A601);
    assert_eq!(ioctl_code(IOC_WRITE | IOC_READ, 0xAE, 0x01, 0x10), 0xC010_AE01);
}
