//! One guest's devices behind its MMIO bus, and the dispatch of the guest's
//! I/O requests to them.

use crate::bus::{bus_entries, fits_between, serves, DeviceBus};
use crate::config::{le_bytes, le_value, le_u32, WriteEffect};
use crate::defines::{BAO_IO_READ, BAO_IO_WRITE};
use crate::device::{
    build_device, device_parts, read_state, spec_device_parts, spec_initial_queues, spec_parts_ok,
    spec_prepare_activate, with_config, with_failed, with_vring_interrupt, DeviceView,
    VirtioDataPlane, VirtioDevType, VirtioDeviceCommon, VirtioDeviceType,
};
use crate::config::ConfigView;
use crate::types::BaoIoEventFd;
use crate::error::{AccessKind, Error, Result};
use crate::types::{BaoIoRequest, DeviceConfig};
use vstd::prelude::*;

verus! {

/// Return code of a request the backend could not serve.
pub const IO_REQUEST_FAILED: i32 = -1;

/// What serving an I/O request led to.
#[derive(Clone, Debug, PartialEq, Eq)]
pub enum IoOutcome {
    /// The device at this index served the access; a write may ask more of
    /// the device's owner.
    Served { device: usize, effect: WriteEffect },
    /// The request could not be served; it is completed with
    /// `IO_REQUEST_FAILED`.
    Failed(Error),
}

/// Device `d` holds the access `[addr, addr + len)` in its window.
pub open spec fn owns(d: DeviceView, addr: u64, len: nat) -> bool {
    &&& len > 0
    &&& d.mmio.range.base <= addr
    &&& addr + len <= d.mmio.range.base + d.mmio.range.size
}

/// No two devices' windows share an address.
pub open spec fn ranges_disjoint(devs: Seq<DeviceView>) -> bool {
    forall|i: int, j: int|
        #![trigger devs[i], devs[j]]
        0 <= i < devs.len() && 0 <= j < devs.len() && i != j ==> !devs[i].mmio.range.overlaps(
            devs[j].mmio.range,
        )
}

/// The completion of `req` carrying `value` and return code `ret`; every
/// identification field is the request's own.
pub open spec fn completion(req: BaoIoRequest, value: u64, ret: i32) -> BaoIoRequest {
    BaoIoRequest { value, ret, ..req }
}

/// The bus entries `m` are exactly the windows of `devs`, each under its base
/// and mapped to the device's index; every window is a well-formed device
/// window; no two windows overlap.
pub open spec fn bus_matches(m: Map<u64, (u64, usize)>, devs: Seq<DeviceView>) -> bool {
    &&& forall|i: int|
        0 <= i < devs.len() ==> {
            &&& (#[trigger] devs[i]).mmio.range.wf()
            &&& devs[i].mmio.range.size == crate::mmio::MMIO_WINDOW_SIZE
            &&& m.contains_key(devs[i].mmio.range.base)
            &&& m[devs[i].mmio.range.base] == (devs[i].mmio.range.size, i as usize)
        }
    &&& forall|b: u64|
        #[trigger] m.contains_key(b) ==> {
            &&& (m[b].1 as int) < devs.len()
            &&& devs[m[b].1 as int].mmio.range.base == b
        }
    &&& ranges_disjoint(devs)
}

/// Devices whose windows stay as they were keep matching the bus.
proof fn lemma_windows_kept(m: Map<u64, (u64, usize)>, a: Seq<DeviceView>, b: Seq<DeviceView>)
    requires
        bus_matches(m, a),
        a.len() == b.len(),
        forall|i: int| 0 <= i < a.len() ==> (#[trigger] b[i]).mmio == a[i].mmio,
    ensures
        bus_matches(m, b),
{
    assert forall|k: u64| #[trigger] m.contains_key(k) implies b[m[k].1 as int].mmio.range.base
        == k by {
        assert(a[m[k].1 as int].mmio.range.base == k);
    }
    assert forall|i: int, j: int|
        #![trigger b[i], b[j]]
        0 <= i < b.len() && 0 <= j < b.len() && i != j implies !b[i].mmio.range.overlaps(
            b[j].mmio.range,
        ) by {
        assert(!a[i].mmio.range.overlaps(a[j].mmio.range));
    }
}

/// The devices of one guest and the bus that routes its MMIO accesses.
pub struct Vm {
    id: u16,
    bus: DeviceBus,
    devices: Vec<VirtioDeviceCommon>,
}

impl Vm {
    /// The id of the guest.
    pub closed spec fn spec_id(&self) -> u16 {
        self.id
    }

    /// The id of the guest.
    pub fn id(&self) -> (r: u16)
        ensures
            r == self.spec_id(),
    {
        self.id
    }

    /// The devices of the guest, in the order they were added.
    pub closed spec fn view(&self) -> Seq<DeviceView> {
        self.devices@.map_values(|d: VirtioDeviceCommon| d@)
    }

    /// The bus holds exactly the devices' windows, each under its base and
    /// mapped to the device's index; every window is a well-formed device
    /// window; no two windows overlap.
    pub closed spec fn wf(&self) -> bool {
        bus_matches(bus_entries(self.bus), self.view())
    }

    /// The windows of the devices on a well-formed guest's bus are pairwise
    /// disjoint.
    pub proof fn lemma_ranges_disjoint(&self)
        requires
            self.wf(),
        ensures
            ranges_disjoint(self.view()),
    {
    }

    /// A guest with no device.
    pub fn new(id: u16) -> (r: Vm)
        ensures
            r.wf(),
            r.spec_id() == id,
            r.view() == Seq::<DeviceView>::empty(),
    {
        let r = Vm { id, bus: DeviceBus::new(), devices: Vec::new() };
        assert(r.view() =~= Seq::<DeviceView>::empty());
        r
    }

    /// The number of devices.
    pub fn num_devices(&self) -> (r: usize)
        ensures
            r == self.view().len(),
    {
        self.devices.len()
    }

    /// The device at index `idx`.
    pub fn device(&self, idx: usize) -> (r: &VirtioDeviceCommon)
        requires
            idx < self.view().len(),
        ensures
            r@ == self.view()[idx as int],
            r.wf() <== self.wf(),
    {
        proof {
            assert(self.view()[idx as int] == self.devices@[idx as int]@);
        }
        &self.devices[idx]
    }

    /// Adds a device and registers its window on the bus. A window that
    /// overlaps the window of a device already present is refused with
    /// `MmioConfig` and nothing changes.
    pub fn add_device(&mut self, dev: VirtioDeviceCommon) -> (r: Result<usize>)
        requires
            old(self).wf(),
            dev.wf(),
        ensures
            final(self).wf(),
            final(self).spec_id() == old(self).spec_id(),
            r is Ok <==> forall|i: int|
                0 <= i < old(self).view().len() ==> !(#[trigger] old(self).view()[i]).mmio.range.overlaps(
                    dev@.mmio.range,
                ),
            r matches Ok(idx) ==> idx == old(self).view().len() && final(self).view() == old(
                self,
            ).view().push(dev@),
            r is Err ==> final(self).view() == old(self).view() && (r matches Err(err_v) && err_v == Error::MmioConfig),
    {
        let idx = self.devices.len();
        let ghost m = bus_entries(self.bus);
        let ghost devs = self.view();
        proof {
            if fits_between(m, dev.mmio.range.base, dev.mmio.range.size) {
                assert forall|i: int| 0 <= i < devs.len() implies !(#[trigger] devs[i]).mmio.range.overlaps(
                    dev@.mmio.range,
                ) by {
                    assert(m.contains_key(devs[i].mmio.range.base));
                }
            } else {
                let k = choose|k: u64|
                    #[trigger] m.contains_key(k) && (dev.mmio.range.base < k + m[k].0 && k
                        < dev.mmio.range.base + dev.mmio.range.size);
                let j = m[k].1 as int;
                assert(devs[j].mmio.range.overlaps(dev@.mmio.range));
            }
        }
        match self.bus.register(dev.mmio.range.base, dev.mmio.range.size, idx) {
            Ok(()) => {
                self.devices.push(dev);
                proof {
                    assert(self.view() =~= devs.push(dev@));
                    let nm = bus_entries(self.bus);
                    assert forall|b: u64| #[trigger] nm.contains_key(b) implies {
                        &&& (nm[b].1 as int) < self.view().len()
                        &&& self.view()[nm[b].1 as int].mmio.range.base == b
                    } by {
                        if b != dev.mmio.range.base {
                            assert(m.contains_key(b));
                        }
                    }
                    assert forall|i: int| 0 <= i < self.view().len() implies {
                        &&& (#[trigger] self.view()[i]).mmio.range.wf()
                        &&& self.view()[i].mmio.range.size == crate::mmio::MMIO_WINDOW_SIZE
                        &&& nm.contains_key(self.view()[i].mmio.range.base)
                        &&& nm[self.view()[i].mmio.range.base] == (
                            self.view()[i].mmio.range.size,
                            i as usize,
                        )
                    } by {
                        if i < devs.len() {
                            assert(self.view()[i] == devs[i]);
                            assert(m.contains_key(devs[i].mmio.range.base));
                            assert(!devs[i].mmio.range.overlaps(dev@.mmio.range));
                        }
                    }
                    let nd = self.view();
                    assert forall|i: int, j: int|
                        #![trigger nd[i], nd[j]]
                        0 <= i < nd.len() && 0 <= j < nd.len() && i != j implies !nd[i].mmio.range.overlaps(
                            nd[j].mmio.range,
                        ) by {
                        if i < devs.len() && j < devs.len() {
                            assert(nd[i] == devs[i] && nd[j] == devs[j]);
                        } else if i < devs.len() {
                            assert(nd[i] == devs[i]);
                            assert(!devs[i].mmio.range.overlaps(dev@.mmio.range));
                        } else {
                            assert(nd[j] == devs[j]);
                            assert(!devs[j].mmio.range.overlaps(dev@.mmio.range));
                        }
                    }
                }
                Ok(idx)
            },
            Err(_) => Err(Error::MmioConfig),
        }
    }

    /// On a well-formed bus, the device whose window holds an access is the
    /// one the bus finds for it.
    proof fn lemma_owner_served(&self, i: int, addr: u64, len: usize)
        requires
            self.wf(),
            0 <= i < self.view().len(),
            owns(self.view()[i], addr, len as nat),
        ensures
            serves(bus_entries(self.bus), addr, len, self.view()[i].mmio.range.base),
            bus_entries(self.bus)[self.view()[i].mmio.range.base].1 == i,
    {
        let m = bus_entries(self.bus);
        let devs = self.view();
        let bi = devs[i].mmio.range.base;
        assert(devs[i].mmio.range.wf());
        assert(m.contains_key(bi));
        assert forall|k: u64| #[trigger] m.contains_key(k) && k <= addr implies k <= bi by {
            if k > bi {
                let j = m[k].1 as int;
                assert(devs[j].mmio.range.base == k);
                assert(m[devs[j].mmio.range.base] == (devs[j].mmio.range.size, j as usize));
                assert(devs[j].mmio.range.wf());
                assert(i != j);
                assert(devs[i].mmio.range.overlaps(devs[j].mmio.range));
            }
        }
    }

    /// The device the bus finds for an access holds it in its window.
    proof fn lemma_served_owner(&self, b: u64, addr: u64, len: usize)
        requires
            self.wf(),
            serves(bus_entries(self.bus), addr, len, b),
        ensures
            (bus_entries(self.bus)[b].1 as int) < self.view().len(),
            owns(self.view()[bus_entries(self.bus)[b].1 as int], addr, len as nat),
            self.view()[bus_entries(self.bus)[b].1 as int].mmio.range.base == b,
    {
        let m = bus_entries(self.bus);
        let j = m[b].1 as int;
        assert(m.contains_key(b));
        assert(self.view()[j].mmio.range.base == b);
        assert(m[self.view()[j].mmio.range.base] == (self.view()[j].mmio.range.size, j as usize));
    }

    /// No device holds an access that the bus refuses.
    proof fn lemma_refused_unowned(&self, addr: u64, len: usize)
        requires
            self.wf(),
            forall|b: u64| !serves(bus_entries(self.bus), addr, len, b),
        ensures
            forall|i: int| 0 <= i < self.view().len() ==> !owns(#[trigger] self.view()[i], addr, len as nat),
    {
        assert forall|i: int| 0 <= i < self.view().len() implies !owns(
            #[trigger] self.view()[i],
            addr,
            len as nat,
        ) by {
            if owns(self.view()[i], addr, len as nat) {
                self.lemma_owner_served(i, addr, len);
            }
        }
    }

    /// Writes `data` at address `addr` through the bus: the device whose
    /// window holds the access receives it at its offset there. An access no
    /// device holds is an `InvalidMmioOperation` and changes nothing.
    pub fn mmio_write(&mut self, addr: u64, data: &[u8]) -> (r: Result<(usize, WriteEffect)>)
        requires
            old(self).wf(),
        ensures
            final(self).wf(),
            final(self).spec_id() == old(self).spec_id(),
            r matches Ok((d, eff)) ==> {
                let dv = old(self).view()[d as int];
                let w = dv.config.write((addr - dv.mmio.range.base) as u64, data@);
                &&& d < old(self).view().len()
                &&& owns(dv, addr, data@.len())
                &&& final(self).view() == old(self).view().update(d as int, with_config(dv, w.0))
                &&& eff == w.1
            },
            r is Err ==> final(self).view() == old(self).view() && (r matches Err(err_v) && err_v == Error::InvalidMmioOperation(AccessKind::Write)) && forall|i: int|
                0 <= i < old(self).view().len() ==> !owns(
                    #[trigger] old(self).view()[i],
                    addr,
                    data@.len(),
                ),
    {
        match self.bus.check_access(addr, data.len()) {
            Ok((base, d)) => {
                proof {
                    self.lemma_served_owner(base, addr, data.len());
                }
                let ghost old_view = self.view();
                let eff = self.devices[d].mmio_write(addr - base, data);
                proof {
                    assert(self.view() =~= old_view.update(
                        d as int,
                        with_config(
                            old_view[d as int],
                            old_view[d as int].config.write((addr - base) as u64, data@).0,
                        ),
                    ));
                    assert forall|b: u64| #[trigger]
                        bus_entries(self.bus).contains_key(b) implies self.view()[bus_entries(
                        self.bus,
                    )[b].1 as int].mmio.range.base == b by {
                        assert(old_view[bus_entries(self.bus)[b].1 as int].mmio.range.base == b);
                    }
                    assert forall|i: int| 0 <= i < self.view().len() implies #[trigger] self.view()[i].mmio
                        == old_view[i].mmio by {}
                }
                Ok((d, eff))
            },
            Err(_) => {
                proof {
                    self.lemma_refused_unowned(addr, data.len());
                }
                Err(Error::InvalidMmioOperation(AccessKind::Write))
            },
        }
    }


    /// Reads `data.len()` bytes at address `addr` through the bus from the
    /// device whose window holds the access. An access no device holds is an
    /// `InvalidMmioOperation` and changes nothing.
    pub fn mmio_read(&mut self, addr: u64, data: &mut [u8]) -> (r: Result<usize>)
        requires
            old(self).wf(),
        ensures
            final(self).wf(),
            final(self).spec_id() == old(self).spec_id(),
            r matches Ok(d) ==> {
                let dv = old(self).view()[d as int];
                let off = (addr - dv.mmio.range.base) as u64;
                &&& d < old(self).view().len()
                &&& owns(dv, addr, old(data)@.len())
                &&& final(self).view() == old(self).view().update(
                    d as int,
                    with_config(dv, read_state(dv, off)),
                )
                &&& final(data)@ == read_state(dv, off).read(
                    dv.device_type.spec_id(),
                    off,
                    old(data)@.len(),
                )
            },
            r is Err ==> final(self).view() == old(self).view() && final(data)@ == old(data)@,
            r matches Err(e) ==> e == Error::InvalidMmioOperation(AccessKind::Read) && forall|i: int|
                0 <= i < old(self).view().len() ==> !owns(
                    #[trigger] old(self).view()[i],
                    addr,
                    old(data)@.len(),
                ),
    {
        match self.bus.check_access(addr, data.len()) {
            Ok((base, d)) => {
                proof {
                    self.lemma_served_owner(base, addr, data.len());
                }
                let ghost old_view = self.view();
                self.devices[d].mmio_read(addr - base, data);
                proof {
                    let dv = old_view[d as int];
                    assert(self.view() =~= old_view.update(
                        d as int,
                        with_config(dv, read_state(dv, (addr - base) as u64)),
                    ));
                    lemma_windows_kept(bus_entries(self.bus), old_view, self.view());
                }
                Ok(d)
            },
            Err(_) => {
                proof {
                    self.lemma_refused_unowned(addr, data.len());
                }
                Err(Error::InvalidMmioOperation(AccessKind::Read))
            },
        }
    }

    /// Serves one I/O request of the guest and returns its completion, which
    /// keeps every identification field of the request, and what serving it
    /// led to. A write hands the low four bytes of the value, little-endian,
    /// to the device that holds the address; a read fills four bytes from it
    /// and completes with their value. Either completes with return code 0.
    /// An address no device holds, or an operation that is neither read nor
    /// write, completes with `IO_REQUEST_FAILED` and changes nothing.
    pub fn handle_io_request(&mut self, req: BaoIoRequest) -> (r: (BaoIoRequest, IoOutcome))
        requires
            old(self).wf(),
        ensures
            final(self).wf(),
            final(self).spec_id() == old(self).spec_id(),
            r.0 == completion(req, r.0.value, r.0.ret),
            req.op != BAO_IO_WRITE && req.op != BAO_IO_READ ==> r == (
                completion(req, req.value, IO_REQUEST_FAILED),
                IoOutcome::Failed(Error::InvalidIoReqDirection(req.op)),
            ) && final(self).view() == old(self).view(),
            req.op == BAO_IO_WRITE ==> match r.1 {
                IoOutcome::Served { device: d, effect } => {
                    let dv = old(self).view()[d as int];
                    let w = dv.config.write(
                        (req.addr - dv.mmio.range.base) as u64,
                        le_bytes(req.value as u32),
                    );
                    &&& d < old(self).view().len()
                    &&& owns(dv, req.addr, 4)
                    &&& final(self).view() == old(self).view().update(
                        d as int,
                        with_config(dv, w.0),
                    )
                    &&& effect == w.1
                    &&& r.0 == completion(req, (req.value as u32) as u64, 0)
                },
                IoOutcome::Failed(e) => {
                    &&& e == Error::InvalidMmioOperation(AccessKind::Write)
                    &&& r.0 == completion(req, req.value, IO_REQUEST_FAILED)
                    &&& final(self).view() == old(self).view()
                    &&& forall|i: int|
                        0 <= i < old(self).view().len() ==> !owns(
                            #[trigger] old(self).view()[i],
                            req.addr,
                            4,
                        )
                },
            },
            req.op == BAO_IO_READ ==> match r.1 {
                IoOutcome::Served { device: d, effect } => {
                    let dv = old(self).view()[d as int];
                    let off = (req.addr - dv.mmio.range.base) as u64;
                    let bytes = read_state(dv, off).read(dv.device_type.spec_id(), off, 4);
                    &&& d < old(self).view().len()
                    &&& owns(dv, req.addr, 4)
                    &&& final(self).view() == old(self).view().update(
                        d as int,
                        with_config(dv, read_state(dv, off)),
                    )
                    &&& effect == WriteEffect::Nothing
                    &&& r.0 == completion(req, le_value(bytes) as u64, 0)
                },
                IoOutcome::Failed(e) => {
                    &&& e == Error::InvalidMmioOperation(AccessKind::Read)
                    &&& r.0 == completion(req, req.value, IO_REQUEST_FAILED)
                    &&& final(self).view() == old(self).view()
                    &&& forall|i: int|
                        0 <= i < old(self).view().len() ==> !owns(
                            #[trigger] old(self).view()[i],
                            req.addr,
                            4,
                        )
                },
            },
    {
        let v = req.value as u32;
        let mut data: Vec<u8> = vec![v as u8, (v >> 8) as u8, (v >> 16) as u8, (v >> 24) as u8];
        assert(data@ =~= le_bytes(v));
        if req.op == BAO_IO_WRITE {
            match self.mmio_write(req.addr, data.as_slice()) {
                Ok((device, effect)) => {
                    let done = BaoIoRequest { value: v as u64, ret: 0, ..req };
                    (done, IoOutcome::Served { device, effect })
                },
                Err(e) => {
                    let done = BaoIoRequest { ret: IO_REQUEST_FAILED, ..req };
                    (done, IoOutcome::Failed(e))
                },
            }
        } else if req.op == BAO_IO_READ {
            match self.mmio_read(req.addr, data.as_mut_slice()) {
                Ok(device) => {
                    let value = le_u32(data.as_slice());
                    let done = BaoIoRequest { value: value as u64, ret: 0, ..req };
                    (done, IoOutcome::Served { device, effect: WriteEffect::Nothing })
                },
                Err(e) => {
                    let done = BaoIoRequest { ret: IO_REQUEST_FAILED, ..req };
                    (done, IoOutcome::Failed(e))
                },
            }
        } else {
            let done = BaoIoRequest { ret: IO_REQUEST_FAILED, ..req };
            (done, IoOutcome::Failed(Error::InvalidIoReqDirection(req.op)))
        }
    }


    /// Prepares the activation of device `idx`, as `spec_prepare_activate`
    /// says; the other devices are untouched.
    pub fn prepare_activate(&mut self, idx: usize) -> (r: Result<usize>)
        requires
            old(self).wf(),
            idx < old(self).view().len(),
        ensures
            final(self).wf(),
            final(self).spec_id() == old(self).spec_id(),
            final(self).view() == old(self).view().update(
                idx as int,
                spec_prepare_activate(old(self).view()[idx as int]).0,
            ),
            r == spec_prepare_activate(old(self).view()[idx as int]).1,
    {
        let ghost old_view = self.view();
        let r = self.devices[idx].prepare_activate();
        proof {
            assert(self.view() =~= old_view.update(
                idx as int,
                spec_prepare_activate(old_view[idx as int]).0,
            ));
            lemma_windows_kept(bus_entries(self.bus), old_view, self.view());
        }
        r
    }

    /// The ioeventfd registration of queue `queue` of device `idx`.
    pub fn ioeventfd_request(&self, idx: usize, fd: u32, queue: usize) -> (r: BaoIoEventFd)
        requires
            self.wf(),
            idx < self.view().len(),
        ensures
            r == (BaoIoEventFd {
                fd,
                flags: crate::defines::BAO_IOEVENTFD_FLAG_DATAMATCH,
                addr: (self.view()[idx as int].mmio.range.base
                    + crate::mmio::VIRTIO_MMIO_QUEUE_NOTIFY_OFFSET) as u64,
                len: 4,
                reserved: 0,
                data: queue as u64,
            }),
    {
        proof {
            assert(self.view()[idx as int] == self.devices@[idx as int]@);
        }
        self.devices[idx].ioeventfd_request(fd, queue)
    }

    /// Marks device `idx` active.
    pub fn finalize_activate(&mut self, idx: usize)
        requires
            old(self).wf(),
            idx < old(self).view().len(),
        ensures
            final(self).wf(),
            final(self).spec_id() == old(self).spec_id(),
            final(self).view() == old(self).view().update(
                idx as int,
                with_config(
                    old(self).view()[idx as int],
                    ConfigView { device_activated: true, ..old(self).view()[idx as int].config },
                ),
            ),
    {
        let ghost old_view = self.view();
        self.devices[idx].finalize_activate();
        proof {
            assert(self.view() =~= old_view.update(
                idx as int,
                with_config(
                    old_view[idx as int],
                    ConfigView { device_activated: true, ..old_view[idx as int].config },
                ),
            ));
            lemma_windows_kept(bus_entries(self.bus), old_view, self.view());
        }
    }

    /// Moves device `idx` to FAILED after its activation failed.
    pub fn activation_failed(&mut self, idx: usize)
        requires
            old(self).wf(),
            idx < old(self).view().len(),
        ensures
            final(self).wf(),
            final(self).spec_id() == old(self).spec_id(),
            final(self).view() == old(self).view().update(
                idx as int,
                with_config(old(self).view()[idx as int], with_failed(old(self).view()[idx as int].config)),
            ),
    {
        let ghost old_view = self.view();
        self.devices[idx].activation_failed();
        proof {
            assert(self.view() =~= old_view.update(
                idx as int,
                with_config(old_view[idx as int], with_failed(old_view[idx as int].config)),
            ));
            lemma_windows_kept(bus_entries(self.bus), old_view, self.view());
        }
    }

    /// Raises the used-buffer interrupt bit of device `idx`.
    pub fn signal_used_queue(&mut self, idx: usize)
        requires
            old(self).wf(),
            idx < old(self).view().len(),
        ensures
            final(self).wf(),
            final(self).spec_id() == old(self).spec_id(),
            final(self).view() == old(self).view().update(
                idx as int,
                with_config(
                    old(self).view()[idx as int],
                    with_vring_interrupt(old(self).view()[idx as int].config),
                ),
            ),
    {
        let ghost old_view = self.view();
        self.devices[idx].signal_used_queue();
        proof {
            assert(self.view() =~= old_view.update(
                idx as int,
                with_config(
                    old_view[idx as int],
                    with_vring_interrupt(old_view[idx as int].config),
                ),
            ));
            lemma_windows_kept(bus_entries(self.bus), old_view, self.view());
        }
    }


    /// Adds the device that `config` describes: it selects the variant for
    /// the configured kind and dataplane, gathers its features and
    /// configuration space (`disk_size` is the size of a block device's
    /// backing file), builds it and registers its window. It succeeds exactly
    /// when the pair has a variant, the parts are available, the window fits
    /// in the address space and overlaps no other device's window; otherwise
    /// nothing changes.
    pub fn add_configured_device(&mut self, config: &DeviceConfig, disk_size: Option<u64>)
        -> (r: Result<(usize, VirtioDeviceType)>)
        requires
            old(self).wf(),
        ensures
            final(self).wf(),
            final(self).spec_id() == old(self).spec_id(),
            r is Ok <==> ({
                let kind = VirtioDevType::spec_from_name(config.device_type@);
                let plane = VirtioDataPlane::spec_from_name(config.data_plane@);
                let window = crate::mmio::MmioRange {
                    base: config.mmio_addr,
                    size: crate::mmio::MMIO_WINDOW_SIZE,
                };
                &&& VirtioDeviceType::spec_select(kind, plane) is Some
                &&& spec_parts_ok(
                    VirtioDeviceType::spec_select(kind, plane)->Some_0,
                    *config,
                    disk_size,
                )
                &&& config.mmio_addr + crate::mmio::MMIO_WINDOW_SIZE <= u64::MAX + 1
                &&& forall|i: int|
                    0 <= i < old(self).view().len() ==> !(#[trigger] old(
                        self,
                    ).view()[i]).mmio.range.overlaps(window)
            }),
            r matches Ok((idx, v)) ==> {
                &&& idx == old(self).view().len()
                &&& Some(v) == VirtioDeviceType::spec_select(
                    VirtioDevType::spec_from_name(config.device_type@),
                    VirtioDataPlane::spec_from_name(config.data_plane@),
                )
                &&& final(self).view().len() == old(self).view().len() + 1
                &&& final(self).view().take(idx as int) == old(self).view()
                &&& final(self).view()[idx as int].mmio.range.base == config.mmio_addr
                &&& final(self).view()[idx as int].mmio.gsi == config.irq
                &&& final(self).view()[idx as int].device_type == VirtioDevType::spec_from_name(
                    config.device_type@,
                )
                &&& final(self).view()[idx as int].data_plane == VirtioDataPlane::spec_from_name(
                    config.data_plane@,
                )
                &&& final(self).view()[idx as int].config == (ConfigView {
                    device_features: crate::device::COMMON_FEATURES | spec_device_parts(
                        v,
                        *config,
                        disk_size,
                    )->Some_0.0,
                    driver_features: 0,
                    device_features_select: 0,
                    driver_features_select: 0,
                    device_status: 0,
                    queue_select: 0,
                    queues: spec_initial_queues(VirtioDevType::spec_from_name(config.device_type@)),
                    config_generation: 0,
                    config_space: spec_device_parts(v, *config, disk_size)->Some_0.1,
                    device_activated: false,
                    interrupt_status: 0,
                })
            },
            r is Err ==> final(self).view() == old(self).view(),
            VirtioDeviceType::spec_select(
                VirtioDevType::spec_from_name(config.device_type@),
                VirtioDataPlane::spec_from_name(config.data_plane@),
            ) is None ==> (r matches Err(Error::WrongDeviceConfiguration(k, p)) && k@
                == VirtioDevType::spec_from_name(config.device_type@).spec_display() && p@
                == VirtioDataPlane::spec_from_name(config.data_plane@).spec_display()),
    {
        let variant = match VirtioDeviceType::select(config) {
            Ok(v) => v,
            Err(e) => {
                return Err(e);
            },
        };
        let (features, space) = match device_parts(variant, config, disk_size) {
            Ok(p) => p,
            Err(e) => {
                return Err(e);
            },
        };
        let dev = match build_device(config, features, space) {
            Ok(d) => d,
            Err(e) => {
                return Err(e);
            },
        };
        let ghost old_view = self.view();
        match self.add_device(dev) {
            Ok(idx) => {
                proof {
                    assert(self.view().take(idx as int) =~= old_view);
                }
                Ok((idx, variant))
            },
            Err(e) => Err(e),
        }
    }

}

} // verus!
