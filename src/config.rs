//! Per-device Virtio register state and the Virtio 1.x MMIO register map
//! over it, with the device status state machine.

use crate::mmio::{
    MMIO_MAGIC_VALUE, MMIO_VERSION, VENDOR_ID, VIRTIO_MMIO_INT_VRING, VIRTIO_MMIO_CONFIG, VIRTIO_MMIO_CONFIG_GENERATION,
    VIRTIO_MMIO_DEVICE_FEATURES, VIRTIO_MMIO_DEVICE_FEATURES_SEL, VIRTIO_MMIO_DEVICE_ID,
    VIRTIO_MMIO_DRIVER_FEATURES, VIRTIO_MMIO_DRIVER_FEATURES_SEL, VIRTIO_MMIO_INTERRUPT_ACK,
    VIRTIO_MMIO_INTERRUPT_STATUS, VIRTIO_MMIO_MAGIC_VALUE, VIRTIO_MMIO_QUEUE_AVAIL_HIGH,
    VIRTIO_MMIO_QUEUE_AVAIL_LOW, VIRTIO_MMIO_QUEUE_DESC_HIGH, VIRTIO_MMIO_QUEUE_DESC_LOW,
    VIRTIO_MMIO_QUEUE_NUM, VIRTIO_MMIO_QUEUE_NUM_MAX, VIRTIO_MMIO_QUEUE_READY,
    VIRTIO_MMIO_QUEUE_SEL, VIRTIO_MMIO_QUEUE_USED_HIGH, VIRTIO_MMIO_QUEUE_USED_LOW,
    VIRTIO_MMIO_STATUS, VIRTIO_MMIO_VENDOR_ID, VIRTIO_MMIO_VERSION,
};
use crate::queue::{set_high, set_low, with_high, with_low, QueueState};
use vstd::prelude::*;

verus! {

/// Device status bit: the guest noticed the device.
pub const ACKNOWLEDGE: u8 = 1;
/// Device status bit: the guest knows how to drive the device.
pub const DRIVER: u8 = 2;
/// Device status bit: the driver is set up and ready to drive the device.
pub const DRIVER_OK: u8 = 4;
/// Device status bit: feature negotiation is complete.
pub const FEATURES_OK: u8 = 8;
/// Device status bit: the device hit an error it cannot recover from.
pub const DEVICE_NEEDS_RESET: u8 = 64;
/// Device status bit: the guest gave up on the device, or the device
/// refused the driver.
pub const FAILED: u8 = 128;

/// Status after ACKNOWLEDGE and DRIVER.
pub const STATUS_DRIVER_SET: u8 = 3;
/// Status after ACKNOWLEDGE, DRIVER and FEATURES_OK.
pub const STATUS_FEATURES_SET: u8 = 11;
/// Status after ACKNOWLEDGE, DRIVER, FEATURES_OK and DRIVER_OK.
pub const STATUS_LIVE: u8 = 15;

/// Feature bit of Virtio 1.x (non-legacy) devices.
pub const VIRTIO_F_VERSION_1: u64 = 32;
/// Feature bit: the device sits behind an IOMMU.
pub const VIRTIO_F_IOMMU_PLATFORM: u64 = 33;
/// Feature bit: the device uses buffers in the order they were made available.
pub const VIRTIO_F_IN_ORDER: u64 = 35;
/// Feature bit: notification suppression through used and available events.
pub const VIRTIO_F_RING_EVENT_IDX: u64 = 29;

/// The feature word with only `VIRTIO_F_VERSION_1` set.
pub const VERSION_1_MASK: u64 = 0x1_0000_0000;

/// What a register write asks of the device's owner beyond the state change.
#[derive(Clone, Copy, Debug, PartialEq, Eq, Structural)]
pub enum WriteEffect {
    /// Nothing more.
    Nothing,
    /// The driver set DRIVER_OK: the device must now be activated.
    Activate,
    /// The driver wrote 0 to the status: the device was reset.
    Reset,
    /// The driver set FEATURES_OK without VERSION_1: the device refused the
    /// features (carried) and moved to FAILED.
    BadFeatures(u64),
    /// The driver set DRIVER_OK on a device that is already active: the
    /// device moved to FAILED.
    AlreadyActivated,
}

/// Register state of one Virtio device.
pub struct VirtioConfig {
    pub device_features: u64,
    pub driver_features: u64,
    pub device_features_select: u32,
    pub driver_features_select: u32,
    pub device_status: u8,
    pub queue_select: u16,
    pub queues: Vec<QueueState>,
    pub config_generation: u8,
    pub config_space: Vec<u8>,
    pub device_activated: bool,
    pub interrupt_status: u8,
}

/// Mathematical view of `VirtioConfig`.
pub struct ConfigView {
    pub device_features: u64,
    pub driver_features: u64,
    pub device_features_select: u32,
    pub driver_features_select: u32,
    pub device_status: u8,
    pub queue_select: u16,
    pub queues: Seq<QueueState>,
    pub config_generation: u8,
    pub config_space: Seq<u8>,
    pub device_activated: bool,
    pub interrupt_status: u8,
}

impl View for VirtioConfig {
    type V = ConfigView;

    open spec fn view(&self) -> ConfigView {
        ConfigView {
            device_features: self.device_features,
            driver_features: self.driver_features,
            device_features_select: self.device_features_select,
            driver_features_select: self.driver_features_select,
            device_status: self.device_status,
            queue_select: self.queue_select,
            queues: self.queues@,
            config_generation: self.config_generation,
            config_space: self.config_space@,
            device_activated: self.device_activated,
            interrupt_status: self.interrupt_status,
        }
    }
}

/// The little-endian bytes of `v`.
pub open spec fn le_bytes(v: u32) -> Seq<u8> {
    seq![v as u8, (v >> 8u32) as u8, (v >> 16u32) as u8, (v >> 24u32) as u8]
}

/// The value of four little-endian bytes.
pub open spec fn le_value(b: Seq<u8>) -> u32
    recommends
        b.len() == 4,
{
    (b[0] as u32) | ((b[1] as u32) << 8u32) | ((b[2] as u32) << 16u32) | ((b[3] as u32) << 24u32)
}

/// `len` zero bytes.
pub open spec fn zeros(len: nat) -> Seq<u8> {
    Seq::new(len, |i: int| 0u8)
}

/// The half of a 64-bit feature word that page `page` shows; pages past the
/// second show nothing.
pub open spec fn features_page(features: u64, page: u32) -> u32 {
    if page == 0 {
        (features & 0xffff_ffffu64) as u32
    } else if page == 1 {
        (features >> 32u64) as u32
    } else {
        0
    }
}

/// The bits that a write of `v` to the driver features register adds: the
/// written value placed in the half that page `page` selects; pages past the
/// second take nothing.
pub open spec fn accepted_features(page: u32, v: u32) -> u64 {
    if page == 0 {
        v as u64
    } else if page == 1 {
        (v as u64) << 32u64
    } else {
        0
    }
}

impl ConfigView {
    /// The queue the queue selector points at, if it exists.
    pub open spec fn selected_queue(self) -> Option<QueueState> {
        if (self.queue_select as int) < self.queues.len() {
            Some(self.queues[self.queue_select as int])
        } else {
            None
        }
    }

    /// The driver may program queues: features are negotiated, the driver is
    /// not yet live, nothing failed, and the device is not active.
    pub open spec fn queues_writable(self) -> bool {
        self.device_status & FEATURES_OK != 0 && self.device_status & DRIVER_OK == 0
            && self.device_status & FAILED == 0 && !self.device_activated
    }

    /// The driver may write feature bits: it is known and has not closed
    /// negotiation, and nothing failed.
    pub open spec fn features_writable(self) -> bool {
        self.device_status & DRIVER != 0 && self.device_status & FEATURES_OK == 0
            && self.device_status & FAILED == 0
    }

    /// The driver may write the configuration space.
    pub open spec fn config_writable(self) -> bool {
        self.device_status & DRIVER != 0 && self.device_status & FAILED == 0
    }

    /// The value of the 32-bit register at `offset`, for the registers that
    /// can be read; `None` for any other offset below the configuration space.
    pub open spec fn register(self, device_id: u32, offset: u64) -> Option<u32> {
        if offset == VIRTIO_MMIO_MAGIC_VALUE {
            Some(MMIO_MAGIC_VALUE)
        } else if offset == VIRTIO_MMIO_VERSION {
            Some(MMIO_VERSION)
        } else if offset == VIRTIO_MMIO_DEVICE_ID {
            Some(device_id)
        } else if offset == VIRTIO_MMIO_VENDOR_ID {
            Some(VENDOR_ID)
        } else if offset == VIRTIO_MMIO_DEVICE_FEATURES {
            Some(features_page(self.device_features, self.device_features_select))
        } else if offset == VIRTIO_MMIO_QUEUE_NUM_MAX {
            Some(
                match self.selected_queue() {
                    Some(q) => q.max_size as u32,
                    None => 0,
                },
            )
        } else if offset == VIRTIO_MMIO_QUEUE_READY {
            Some(
                match self.selected_queue() {
                    Some(q) => if q.ready {
                        1
                    } else {
                        0
                    },
                    None => 0,
                },
            )
        } else if offset == VIRTIO_MMIO_INTERRUPT_STATUS {
            Some(self.interrupt_status as u32)
        } else if offset == VIRTIO_MMIO_STATUS {
            Some(self.device_status as u32)
        } else if offset == VIRTIO_MMIO_CONFIG_GENERATION {
            Some(self.config_generation as u32)
        } else {
            None
        }
    }

    /// Byte `j` of the configuration space, zero past its end.
    pub open spec fn config_byte(self, j: int) -> u8 {
        if 0 <= j < self.config_space.len() {
            self.config_space[j]
        } else {
            0
        }
    }

    /// The bytes a read of `len` bytes at `offset` returns: a defined
    /// register read with four bytes gives its little-endian value; any other
    /// access below the configuration space gives zeros; an access to the
    /// configuration space gives its bytes, zero-padded past its end.
    pub open spec fn read(self, device_id: u32, offset: u64, len: nat) -> Seq<u8> {
        if offset < VIRTIO_MMIO_CONFIG {
            match self.register(device_id, offset) {
                Some(v) => if len == 4 {
                    le_bytes(v)
                } else {
                    zeros(len)
                },
                None => zeros(len),
            }
        } else {
            Seq::new(len, |i: int| self.config_byte(offset - VIRTIO_MMIO_CONFIG + i))
        }
    }

    /// The state after a reset: status, negotiated features, selectors,
    /// interrupt status and activation cleared, and every queue not ready.
    pub open spec fn reset(self) -> ConfigView {
        ConfigView {
            device_status: 0,
            driver_features: 0,
            device_features_select: 0,
            driver_features_select: 0,
            queue_select: 0,
            queues: Seq::new(
                self.queues.len(),
                |i: int| QueueState { ready: false, ..self.queues[i] },
            ),
            interrupt_status: 0,
            device_activated: false,
            ..self
        }
    }

    /// The status state machine on a write of `s` to the status register.
    pub open spec fn write_status(self, s: u8) -> (ConfigView, WriteEffect) {
        let cur = self.device_status;
        if s == 0 {
            (self.reset(), WriteEffect::Reset)
        } else if s & FAILED != 0 {
            (ConfigView { device_status: cur | FAILED, ..self }, WriteEffect::Nothing)
        } else if cur == 0 && s == ACKNOWLEDGE {
            (ConfigView { device_status: s, ..self }, WriteEffect::Nothing)
        } else if cur == ACKNOWLEDGE && s == STATUS_DRIVER_SET {
            (ConfigView { device_status: s, ..self }, WriteEffect::Nothing)
        } else if cur == STATUS_DRIVER_SET && s == STATUS_FEATURES_SET {
            if self.driver_features & VERSION_1_MASK != 0 {
                (ConfigView { device_status: s, ..self }, WriteEffect::Nothing)
            } else {
                (
                    ConfigView { device_status: cur | FAILED, ..self },
                    WriteEffect::BadFeatures(self.driver_features),
                )
            }
        } else if cur == STATUS_FEATURES_SET && s == STATUS_LIVE {
            if self.device_activated {
                (ConfigView { device_status: cur | FAILED, ..self }, WriteEffect::AlreadyActivated)
            } else {
                (ConfigView { device_status: s, ..self }, WriteEffect::Activate)
            }
        } else {
            (self, WriteEffect::Nothing)
        }
    }

    /// The selected queue replaced by `q`, when the driver may program
    /// queues and a queue is selected; otherwise nothing changes.
    pub open spec fn update_queue(self, q: QueueState) -> ConfigView {
        if self.queues_writable() && (self.queue_select as int) < self.queues.len() {
            ConfigView { queues: self.queues.update(self.queue_select as int, q), ..self }
        } else {
            self
        }
    }

    /// The effect of writing the 32-bit value `v` to the register at `offset`
    /// (below the configuration space).
    pub open spec fn write_register(self, offset: u64, v: u32) -> (ConfigView, WriteEffect) {
        let q = match self.selected_queue() {
            Some(q) => q,
            None => QueueState::initial(0),
        };
        if offset == VIRTIO_MMIO_DEVICE_FEATURES_SEL {
            (ConfigView { device_features_select: v, ..self }, WriteEffect::Nothing)
        } else if offset == VIRTIO_MMIO_DRIVER_FEATURES {
            if self.features_writable() {
                (
                    ConfigView {
                        driver_features: self.driver_features | accepted_features(
                            self.driver_features_select,
                            v,
                        ),
                        ..self
                    },
                    WriteEffect::Nothing,
                )
            } else {
                (self, WriteEffect::Nothing)
            }
        } else if offset == VIRTIO_MMIO_DRIVER_FEATURES_SEL {
            (ConfigView { driver_features_select: v, ..self }, WriteEffect::Nothing)
        } else if offset == VIRTIO_MMIO_QUEUE_SEL {
            (ConfigView { queue_select: v as u16, ..self }, WriteEffect::Nothing)
        } else if offset == VIRTIO_MMIO_QUEUE_NUM {
            (self.update_queue(q.spec_set_size(v as u16)), WriteEffect::Nothing)
        } else if offset == VIRTIO_MMIO_QUEUE_READY {
            (self.update_queue(QueueState { ready: v == 1, ..q }), WriteEffect::Nothing)
        } else if offset == VIRTIO_MMIO_INTERRUPT_ACK {
            (
                ConfigView { interrupt_status: self.interrupt_status & !(v as u8), ..self },
                WriteEffect::Nothing,
            )
        } else if offset == VIRTIO_MMIO_STATUS {
            self.write_status(v as u8)
        } else if offset == VIRTIO_MMIO_QUEUE_DESC_LOW {
            (self.update_queue(q.spec_set_desc_table(with_low(q.desc_table, v))), WriteEffect::Nothing)
        } else if offset == VIRTIO_MMIO_QUEUE_DESC_HIGH {
            (self.update_queue(q.spec_set_desc_table(with_high(q.desc_table, v))), WriteEffect::Nothing)
        } else if offset == VIRTIO_MMIO_QUEUE_AVAIL_LOW {
            (self.update_queue(q.spec_set_avail_ring(with_low(q.avail_ring, v))), WriteEffect::Nothing)
        } else if offset == VIRTIO_MMIO_QUEUE_AVAIL_HIGH {
            (self.update_queue(q.spec_set_avail_ring(with_high(q.avail_ring, v))), WriteEffect::Nothing)
        } else if offset == VIRTIO_MMIO_QUEUE_USED_LOW {
            (self.update_queue(q.spec_set_used_ring(with_low(q.used_ring, v))), WriteEffect::Nothing)
        } else if offset == VIRTIO_MMIO_QUEUE_USED_HIGH {
            (self.update_queue(q.spec_set_used_ring(with_high(q.used_ring, v))), WriteEffect::Nothing)
        } else {
            (self, WriteEffect::Nothing)
        }
    }

    /// The configuration space after the driver writes `data` at byte `off`
    /// of it: bytes past its end are dropped.
    pub open spec fn write_config_space(self, off: int, data: Seq<u8>) -> ConfigView {
        ConfigView {
            config_space: Seq::new(
                self.config_space.len(),
                |j: int|
                    if off <= j < off + data.len() {
                        data[j - off]
                    } else {
                        self.config_space[j]
                    },
            ),
            ..self
        }
    }

    /// The effect of an MMIO write of `data` at `offset`: four-byte writes to
    /// the registers, writes of any length to the configuration space when
    /// the driver may write it; anything else is ignored.
    pub open spec fn write(self, offset: u64, data: Seq<u8>) -> (ConfigView, WriteEffect) {
        if offset < VIRTIO_MMIO_CONFIG {
            if data.len() == 4 {
                self.write_register(offset, le_value(data))
            } else {
                (self, WriteEffect::Nothing)
            }
        } else if self.config_writable() {
            (self.write_config_space(offset - VIRTIO_MMIO_CONFIG, data), WriteEffect::Nothing)
        } else {
            (self, WriteEffect::Nothing)
        }
    }
}

/// Reads four little-endian bytes.
pub fn le_u32(data: &[u8]) -> (r: u32)
    requires
        data@.len() == 4,
    ensures
        r == le_value(data@),
{
    (data[0] as u32) | ((data[1] as u32) << 8) | ((data[2] as u32) << 16) | ((data[3] as u32)
        << 24)
}

impl VirtioConfig {
    /// Register state of a device that offers `device_features`, with the
    /// given queues and configuration space, before any driver touched it.
    pub fn new(device_features: u64, queues: Vec<QueueState>, config_space: Vec<u8>)
        -> (r: VirtioConfig)
        ensures
            r@ == (ConfigView {
                device_features,
                driver_features: 0,
                device_features_select: 0,
                driver_features_select: 0,
                device_status: 0,
                queue_select: 0,
                queues: queues@,
                config_generation: 0,
                config_space: config_space@,
                device_activated: false,
                interrupt_status: 0,
            }),
    {
        VirtioConfig {
            device_features,
            driver_features: 0,
            device_features_select: 0,
            driver_features_select: 0,
            device_status: 0,
            queue_select: 0,
            queues,
            config_generation: 0,
            config_space,
            device_activated: false,
            interrupt_status: 0,
        }
    }

    /// The queue the queue selector points at, if it exists.
    pub fn selected_queue(&self) -> (r: Option<QueueState>)
        ensures
            r == self@.selected_queue(),
    {
        if (self.queue_select as usize) < self.queues.len() {
            Some(self.queues[self.queue_select as usize])
        } else {
            None
        }
    }

    /// The value of the readable 32-bit register at `offset`.
    pub fn register(&self, device_id: u32, offset: u64) -> (r: Option<u32>)
        ensures
            r == self@.register(device_id, offset),
    {
        if offset == VIRTIO_MMIO_MAGIC_VALUE {
            Some(MMIO_MAGIC_VALUE)
        } else if offset == VIRTIO_MMIO_VERSION {
            Some(MMIO_VERSION)
        } else if offset == VIRTIO_MMIO_DEVICE_ID {
            Some(device_id)
        } else if offset == VIRTIO_MMIO_VENDOR_ID {
            Some(VENDOR_ID)
        } else if offset == VIRTIO_MMIO_DEVICE_FEATURES {
            let page = self.device_features_select;
            if page == 0 {
                Some((self.device_features & 0xffff_ffff) as u32)
            } else if page == 1 {
                Some((self.device_features >> 32) as u32)
            } else {
                Some(0)
            }
        } else if offset == VIRTIO_MMIO_QUEUE_NUM_MAX {
            match self.selected_queue() {
                Some(q) => Some(q.max_size as u32),
                None => Some(0),
            }
        } else if offset == VIRTIO_MMIO_QUEUE_READY {
            match self.selected_queue() {
                Some(q) => Some(
                    if q.ready {
                        1
                    } else {
                        0
                    },
                ),
                None => Some(0),
            }
        } else if offset == VIRTIO_MMIO_INTERRUPT_STATUS {
            Some(self.interrupt_status as u32)
        } else if offset == VIRTIO_MMIO_STATUS {
            Some(self.device_status as u32)
        } else if offset == VIRTIO_MMIO_CONFIG_GENERATION {
            Some(self.config_generation as u32)
        } else {
            None
        }
    }

    /// Reads `data.len()` bytes at `offset` of the device's MMIO window.
    pub fn read(&self, device_id: u32, offset: u64, data: &mut [u8])
        ensures
            final(data)@ == self@.read(device_id, offset, old(data)@.len()),
    {
        let len = data.len();
        if offset < VIRTIO_MMIO_CONFIG {
            let reg = self.register(device_id, offset);
            match reg {
                Some(v) if len == 4 => {
                    data[0] = v as u8;
                    data[1] = (v >> 8) as u8;
                    data[2] = (v >> 16) as u8;
                    data[3] = (v >> 24) as u8;
                    assert(data@ =~= le_bytes(v));
                },
                _ => {
                    let mut i: usize = 0;
                    while i < len
                        invariant
                            i <= len,
                            data@.len() == len,
                            forall|k: int| 0 <= k < i ==> data@[k] == 0u8,
                        decreases len - i,
                    {
                        data[i] = 0;
                        i = i + 1;
                    }
                    assert(data@ =~= zeros(len as nat));
                },
            }
        } else {
            let start: u64 = offset - VIRTIO_MMIO_CONFIG;
            let cs_len = self.config_space.len();
            let mut i: usize = 0;
            while i < len
                invariant
                    i <= len,
                    data@.len() == len,
                    offset >= VIRTIO_MMIO_CONFIG,
                    start == offset - VIRTIO_MMIO_CONFIG,
                    cs_len == self.config_space@.len(),
                    forall|k: int|
                        0 <= k < i ==> data@[k] == self@.config_byte(
                            offset - VIRTIO_MMIO_CONFIG + k,
                        ),
                decreases len - i,
            {
                let b: u8 = if (start as u128) + (i as u128) < (cs_len as u128) {
                    self.config_space[(start + i as u64) as usize]
                } else {
                    0
                };
                data[i] = b;
                i = i + 1;
            }
            assert(data@ =~= self@.read(device_id, offset, len as nat));
        }
    }
}

impl VirtioConfig {
    /// Resets the device: status, negotiated features, selectors, interrupt
    /// status and activation are cleared and every queue stops being ready.
    pub fn reset(&mut self)
        ensures
            final(self)@ == old(self)@.reset(),
    {
        self.device_status = 0;
        self.driver_features = 0;
        self.device_features_select = 0;
        self.driver_features_select = 0;
        self.queue_select = 0;
        self.interrupt_status = 0;
        self.device_activated = false;
        let n = self.queues.len();
        let mut i: usize = 0;
        while i < n
            invariant
                i <= n,
                n == old(self).queues@.len(),
                self.queues@.len() == n,
                forall|k: int|
                    0 <= k < i ==> self.queues@[k] == (QueueState {
                        ready: false,
                        ..old(self).queues@[k]
                    }),
                forall|k: int| i <= k < n ==> self.queues@[k] == old(self).queues@[k],
                self.device_status == 0,
                self.driver_features == 0,
                self.device_features_select == 0,
                self.driver_features_select == 0,
                self.queue_select == 0,
                self.interrupt_status == 0,
                !self.device_activated,
                self.device_features == old(self).device_features,
                self.config_generation == old(self).config_generation,
                self.config_space@ == old(self).config_space@,
            decreases n - i,
        {
            let mut q = self.queues[i];
            q.ready = false;
            self.queues.set(i, q);
            i = i + 1;
        }
        assert(self@.queues =~= old(self)@.reset().queues);
    }

    /// Applies a write of `s` to the status register.
    pub fn write_status(&mut self, s: u8) -> (r: WriteEffect)
        ensures
            (final(self)@, r) == old(self)@.write_status(s),
    {
        let cur = self.device_status;
        if s == 0 {
            self.reset();
            WriteEffect::Reset
        } else if s & FAILED != 0 {
            self.device_status = cur | FAILED;
            WriteEffect::Nothing
        } else if cur == 0 && s == ACKNOWLEDGE {
            self.device_status = s;
            WriteEffect::Nothing
        } else if cur == ACKNOWLEDGE && s == STATUS_DRIVER_SET {
            self.device_status = s;
            WriteEffect::Nothing
        } else if cur == STATUS_DRIVER_SET && s == STATUS_FEATURES_SET {
            if self.driver_features & VERSION_1_MASK != 0 {
                self.device_status = s;
                WriteEffect::Nothing
            } else {
                self.device_status = cur | FAILED;
                WriteEffect::BadFeatures(self.driver_features)
            }
        } else if cur == STATUS_FEATURES_SET && s == STATUS_LIVE {
            if self.device_activated {
                self.device_status = cur | FAILED;
                WriteEffect::AlreadyActivated
            } else {
                self.device_status = s;
                WriteEffect::Activate
            }
        } else {
            WriteEffect::Nothing
        }
    }

    /// The driver may program queues now.
    pub fn queues_writable(&self) -> (r: bool)
        ensures
            r == self@.queues_writable(),
    {
        self.device_status & FEATURES_OK != 0 && self.device_status & DRIVER_OK == 0
            && self.device_status & FAILED == 0 && !self.device_activated
    }

    /// Stores `q` as the selected queue when the driver may program queues
    /// and a queue is selected.
    fn update_queue(&mut self, q: QueueState)
        ensures
            final(self)@ == old(self)@.update_queue(q),
    {
        if self.queues_writable() && (self.queue_select as usize) < self.queues.len() {
            let idx = self.queue_select as usize;
            self.queues.set(idx, q);
        }
    }

    /// Applies a write of the 32-bit value `v` to the register at `offset`.
    pub fn write_register(&mut self, offset: u64, v: u32) -> (r: WriteEffect)
        requires
            offset < VIRTIO_MMIO_CONFIG,
        ensures
            (final(self)@, r) == old(self)@.write_register(offset, v),
    {
        let mut q = match self.selected_queue() {
            Some(q) => q,
            None => QueueState {
                max_size: 0,
                size: 0,
                ready: false,
                desc_table: 0,
                avail_ring: 0,
                used_ring: 0,
            },
        };
        if offset == VIRTIO_MMIO_DEVICE_FEATURES_SEL {
            self.device_features_select = v;
        } else if offset == VIRTIO_MMIO_DRIVER_FEATURES {
            if self.device_status & DRIVER != 0 && self.device_status & FEATURES_OK == 0
                && self.device_status & FAILED == 0 {
                let page = self.driver_features_select;
                let accepted: u64 = if page == 0 {
                    v as u64
                } else if page == 1 {
                    (v as u64) << 32
                } else {
                    0
                };
                self.driver_features = self.driver_features | accepted;
            }
        } else if offset == VIRTIO_MMIO_DRIVER_FEATURES_SEL {
            self.driver_features_select = v;
        } else if offset == VIRTIO_MMIO_QUEUE_SEL {
            self.queue_select = v as u16;
        } else if offset == VIRTIO_MMIO_QUEUE_NUM {
            q.set_size(v as u16);
            self.update_queue(q);
        } else if offset == VIRTIO_MMIO_QUEUE_READY {
            q.ready = v == 1;
            self.update_queue(q);
        } else if offset == VIRTIO_MMIO_INTERRUPT_ACK {
            self.interrupt_status = self.interrupt_status & !(v as u8);
        } else if offset == VIRTIO_MMIO_STATUS {
            return self.write_status(v as u8);
        } else if offset == VIRTIO_MMIO_QUEUE_DESC_LOW {
            q.set_desc_table(set_low(q.desc_table, v));
            self.update_queue(q);
        } else if offset == VIRTIO_MMIO_QUEUE_DESC_HIGH {
            q.set_desc_table(set_high(q.desc_table, v));
            self.update_queue(q);
        } else if offset == VIRTIO_MMIO_QUEUE_AVAIL_LOW {
            q.set_avail_ring(set_low(q.avail_ring, v));
            self.update_queue(q);
        } else if offset == VIRTIO_MMIO_QUEUE_AVAIL_HIGH {
            q.set_avail_ring(set_high(q.avail_ring, v));
            self.update_queue(q);
        } else if offset == VIRTIO_MMIO_QUEUE_USED_LOW {
            q.set_used_ring(set_low(q.used_ring, v));
            self.update_queue(q);
        } else if offset == VIRTIO_MMIO_QUEUE_USED_HIGH {
            q.set_used_ring(set_high(q.used_ring, v));
            self.update_queue(q);
        }
        WriteEffect::Nothing
    }

    /// Writes `data` at `offset` of the device's MMIO window.
    pub fn write(&mut self, offset: u64, data: &[u8]) -> (r: WriteEffect)
        ensures
            (final(self)@, r) == old(self)@.write(offset, data@),
    {
        if offset < VIRTIO_MMIO_CONFIG {
            if data.len() == 4 {
                let v = le_u32(data);
                self.write_register(offset, v)
            } else {
                WriteEffect::Nothing
            }
        } else if self.device_status & DRIVER != 0 && self.device_status & FAILED == 0 {
            let start: u64 = offset - VIRTIO_MMIO_CONFIG;
            let n = self.config_space.len();
            let len = data.len();
            let mut j: usize = 0;
            while j < n
                invariant
                    j <= n,
                    n == old(self).config_space@.len(),
                    len == data@.len(),
                    start == offset - VIRTIO_MMIO_CONFIG,
                    self.config_space@.len() == n,
                    forall|k: int|
                        0 <= k < j ==> self.config_space@[k] == (if start <= k < start + len {
                            data@[k - start]
                        } else {
                            old(self).config_space@[k]
                        }),
                    forall|k: int| j <= k < n ==> self.config_space@[k] == old(
                        self,
                    ).config_space@[k],
                    self.device_features == old(self).device_features,
                    self.driver_features == old(self).driver_features,
                    self.device_features_select == old(self).device_features_select,
                    self.driver_features_select == old(self).driver_features_select,
                    self.device_status == old(self).device_status,
                    self.queue_select == old(self).queue_select,
                    self.queues@ == old(self).queues@,
                    self.config_generation == old(self).config_generation,
                    self.device_activated == old(self).device_activated,
                    self.interrupt_status == old(self).interrupt_status,
                decreases n - j,
            {
                if (j as u64) >= start && ((j as u64) - start) < (len as u64) {
                    let b = data[((j as u64) - start) as usize];
                    self.config_space.set(j, b);
                }
                j = j + 1;
            }
            assert(self@.config_space =~= old(self)@.write_config_space(
                offset - VIRTIO_MMIO_CONFIG,
                data@,
            ).config_space);
            WriteEffect::Nothing
        } else {
            WriteEffect::Nothing
        }
    }
}

/// Four bytes written little-endian read back as the same value.
pub proof fn lemma_le_round_trip(v: u32)
    ensures
        le_value(le_bytes(v)) == v,
        le_bytes(v).len() == 4,
{
    let b = le_bytes(v);
    assert(((v as u8) as u32) | ((((v >> 8u32) as u8) as u32) << 8u32) | ((((v >> 16u32) as u8)
        as u32) << 16u32) | ((((v >> 24u32) as u8) as u32) << 24u32) == v) by (bit_vector);
}

/// Once a device is active, no MMIO write changes the ring addresses of any
/// of its queues, nor how many queues it has.
pub proof fn lemma_active_rings_frozen(m: ConfigView, offset: u64, data: Seq<u8>)
    requires
        m.device_activated,
    ensures
        ({
            let n = m.write(offset, data).0;
            &&& n.queues.len() == m.queues.len()
            &&& forall|i: int|
                0 <= i < m.queues.len() ==> {
                    &&& #[trigger] n.queues[i].desc_table == m.queues[i].desc_table
                    &&& n.queues[i].avail_ring == m.queues[i].avail_ring
                    &&& n.queues[i].used_ring == m.queues[i].used_ring
                }
        }),
{
}

/// The configuration space passes data through: four bytes written at an
/// offset inside it read back unchanged, while the driver may write it.
pub proof fn lemma_config_round_trip(m: ConfigView, device_id: u32, offset: u64, v: u32)
    requires
        m.config_writable(),
        offset >= VIRTIO_MMIO_CONFIG,
        offset - VIRTIO_MMIO_CONFIG + 4 <= m.config_space.len(),
    ensures
        m.write(offset, le_bytes(v)).0.read(device_id, offset, 4) == le_bytes(v),
        le_value(m.write(offset, le_bytes(v)).0.read(device_id, offset, 4)) == v,
{
    lemma_le_round_trip(v);
    let n = m.write(offset, le_bytes(v)).0;
    assert(n.read(device_id, offset, 4) =~= le_bytes(v));
}

/// Acknowledging the used-buffer interrupt clears its bit, and
/// acknowledging it again changes nothing.
pub proof fn lemma_interrupt_ack(m: ConfigView)
    requires
        m.interrupt_status & VIRTIO_MMIO_INT_VRING != 0,
    ensures
        ({
            let once = m.write(VIRTIO_MMIO_INTERRUPT_ACK, le_bytes(1)).0;
            let twice = once.write(VIRTIO_MMIO_INTERRUPT_ACK, le_bytes(1)).0;
            &&& once.interrupt_status & VIRTIO_MMIO_INT_VRING == 0
            &&& once.interrupt_status == m.interrupt_status & !VIRTIO_MMIO_INT_VRING
            &&& twice == once
        }),
{
    lemma_le_round_trip(1);
    let x = m.interrupt_status;
    assert((x & !(1u32 as u8)) & 1u8 == 0) by (bit_vector);
    assert((x & !(1u32 as u8)) & !(1u32 as u8) == x & !(1u32 as u8)) by (bit_vector);
    assert(x & !(1u32 as u8) == x & !1u8) by (bit_vector);
}

/// A read of a register offset that the map does not define returns zeros,
/// as does a read of the configuration space past its end.
pub proof fn lemma_undefined_reads_zero(m: ConfigView, device_id: u32, offset: u64, len: nat)
    requires
        (offset < VIRTIO_MMIO_CONFIG && m.register(device_id, offset) is None) || (offset
            >= VIRTIO_MMIO_CONFIG && offset - VIRTIO_MMIO_CONFIG >= m.config_space.len()),
    ensures
        m.read(device_id, offset, len) == zeros(len),
{
    assert(m.read(device_id, offset, len) =~= zeros(len));
}

/// A write to an offset below the configuration space that names no
/// writable register changes nothing.
pub proof fn lemma_undefined_writes_ignored(m: ConfigView, offset: u64, data: Seq<u8>)
    requires
        offset < VIRTIO_MMIO_CONFIG,
        offset != VIRTIO_MMIO_DEVICE_FEATURES_SEL,
        offset != VIRTIO_MMIO_DRIVER_FEATURES,
        offset != VIRTIO_MMIO_DRIVER_FEATURES_SEL,
        offset != VIRTIO_MMIO_QUEUE_SEL,
        offset != VIRTIO_MMIO_QUEUE_NUM,
        offset != VIRTIO_MMIO_QUEUE_READY,
        offset != VIRTIO_MMIO_INTERRUPT_ACK,
        offset != VIRTIO_MMIO_STATUS,
        offset != VIRTIO_MMIO_QUEUE_DESC_LOW,
        offset != VIRTIO_MMIO_QUEUE_DESC_HIGH,
        offset != VIRTIO_MMIO_QUEUE_AVAIL_LOW,
        offset != VIRTIO_MMIO_QUEUE_AVAIL_HIGH,
        offset != VIRTIO_MMIO_QUEUE_USED_LOW,
        offset != VIRTIO_MMIO_QUEUE_USED_HIGH,
    ensures
        m.write(offset, data) == (m, WriteEffect::Nothing),
{
}

/// Setting FEATURES_OK while the driver features lack VERSION_1 moves the
/// device to FAILED; from then on no write other than a reset of the status
/// changes any queue, and the device stays FAILED.
pub proof fn lemma_bad_features_fail(m: ConfigView, offset: u64, data: Seq<u8>)
    requires
        m.device_status == STATUS_DRIVER_SET,
        m.driver_features & VERSION_1_MASK == 0,
    ensures
        ({
            let failed = m.write(VIRTIO_MMIO_STATUS, le_bytes(STATUS_FEATURES_SET as u32));
            &&& failed.1 == WriteEffect::BadFeatures(m.driver_features)
            &&& failed.0.device_status & FAILED != 0
            &&& offset != VIRTIO_MMIO_STATUS ==> failed.0.write(offset, data).0.queues
                == failed.0.queues
            &&& offset != VIRTIO_MMIO_STATUS ==> failed.0.write(offset, data).0.device_status
                == failed.0.device_status
        }),
{
    lemma_le_round_trip(STATUS_FEATURES_SET as u32);
    let v = le_value(le_bytes(STATUS_FEATURES_SET as u32));
    assert(v as u8 == STATUS_FEATURES_SET);
    assert((STATUS_DRIVER_SET | FAILED) & FAILED != 0) by (bit_vector);
    assert(STATUS_FEATURES_SET & FAILED == 0) by (bit_vector);
    let failed = m.write(VIRTIO_MMIO_STATUS, le_bytes(STATUS_FEATURES_SET as u32));
    assert(failed == m.write_status(STATUS_FEATURES_SET));
    if offset != VIRTIO_MMIO_STATUS {
        lemma_failed_rejects_queue_writes(failed.0, offset, data);
    }
}

/// While a device is FAILED no write other than one to the status register
/// changes its queues or its status.
pub proof fn lemma_failed_rejects_queue_writes(m: ConfigView, offset: u64, data: Seq<u8>)
    requires
        m.device_status & FAILED != 0,
        offset != VIRTIO_MMIO_STATUS,
    ensures
        m.write(offset, data).0.queues == m.queues,
        m.write(offset, data).0.device_status == m.device_status,
{
}

} // verus!
