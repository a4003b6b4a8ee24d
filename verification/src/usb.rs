//! The USB adapter: binds to a device by vendor/product identifier, claims an
//! interface, and forwards writes to a bulk-OUT endpoint with a bounded
//! per-call timeout. The USB access itself goes through `rusb`; the device
//! selection logic is verified here.

use vstd::prelude::*;

use crate::device::DeviceError;

verus! {

#[verifier::external_type_specification]
#[verifier::external_body]
pub struct ExContext(rusb::Context);

#[verifier::external_type_specification]
#[verifier::external_body]
pub struct ExRusbError(rusb::Error);

/// A snapshot of the USB devices enumerated at one moment. Opaque here: its
/// generic bound keeps `rusb::DeviceList` itself out of reach of the
/// verifier, so the snapshot is carried in a hidden field instead.
#[verifier::external_body]
pub struct UsbDeviceList {
    list: rusb::DeviceList<rusb::Context>,
}

/// One device of a snapshot, opaque for the same reason as the snapshot.
#[verifier::external_body]
pub struct UsbDevice {
    device: rusb::Device<rusb::Context>,
}

/// An open handle to a USB device, opaque for the same reason.
#[verifier::external_body]
pub struct UsbHandle {
    handle: rusb::DeviceHandle<rusb::Context>,
}

/// The (vendor identifier, product identifier) pair of each device in an
/// enumerated snapshot, in the snapshot's own order.
pub uninterp spec fn device_ids(l: UsbDeviceList) -> Seq<(u16, u16)>;

/// The (vendor identifier, product identifier) pair of one enumerated
/// device, as its cached descriptor gives it.
pub uninterp spec fn ids_of(d: UsbDevice) -> (u16, u16);

/// The (vendor identifier, product identifier) pair of the device an open
/// handle is bound to.
pub uninterp spec fn handle_ids(h: UsbHandle) -> (u16, u16);

/// Translates a `rusb::Error` into the library's taxonomy, variant by variant.
#[verifier::external_body]
fn map_rusb_error(e: rusb::Error) -> (r: DeviceError) {
    match e {
        rusb::Error::NotFound => DeviceError::NotFound,
        rusb::Error::Busy => DeviceError::Busy,
        rusb::Error::Access => DeviceError::Access,
        rusb::Error::Timeout | rusb::Error::Pipe | rusb::Error::NoDevice => DeviceError::Transfer,
        _ => DeviceError::Io,
    }
}

/// Relies on `rusb::Context::new`: initialises a `libusb` context.
#[verifier::external_body]
fn new_context() -> (r: Result<rusb::Context, DeviceError>) {
    rusb::Context::new().map_err(map_rusb_error)
}

/// Relies on `rusb::UsbContext::devices`: a snapshot list of the devices
/// currently visible to the process.
#[verifier::external_body]
fn list_devices(ctx: &rusb::Context) -> (r: Result<UsbDeviceList, DeviceError>) {
    match rusb::UsbContext::devices(ctx) {
        Ok(list) => Ok(UsbDeviceList { list }),
        Err(e) => Err(map_rusb_error(e)),
    }
}

/// Relies on `rusb::DeviceList::iter` and `rusb::Device::device_descriptor`:
/// the list is a fixed snapshot and descriptors are cached at enumeration, so
/// the identifier pairs are a function of the list value alone.
#[verifier::external_body]
fn list_ids(l: &UsbDeviceList) -> (r: Result<Vec<(u16, u16)>, DeviceError>)
    ensures
        r matches Ok(v) ==> v@ == device_ids(*l),
{
    l.list
        .iter()
        .map(|d| d.device_descriptor().map(|desc| (desc.vendor_id(), desc.product_id())))
        .collect::<Result<Vec<(u16, u16)>, rusb::Error>>()
        .map_err(map_rusb_error)
}

/// Relies on `rusb::DeviceList::iter`: iteration order over one list value is
/// fixed, so position `i` names one device of the snapshot — the one whose
/// cached descriptor supplied element `i` of the snapshot's identifier pairs.
#[verifier::external_body]
fn device_at(l: &UsbDeviceList, i: usize) -> (d: UsbDevice)
    requires
        i < device_ids(*l).len(),
    ensures
        ids_of(d) == device_ids(*l)[i as int],
{
    UsbDevice { device: l.list.iter().nth(i).unwrap() }
}

/// Relies on `rusb::Device::open` (`libusb_open`): a handle it yields is
/// bound to exactly the device that was opened.
#[verifier::external_body]
fn open_device(d: &UsbDevice) -> (r: Result<UsbHandle, DeviceError>)
    ensures
        r matches Ok(h) ==> handle_ids(h) == ids_of(*d),
{
    match d.device.open() {
        Ok(handle) => Ok(UsbHandle { handle }),
        Err(e) => Err(map_rusb_error(e)),
    }
}

/// Relies on `rusb::DeviceHandle::set_auto_detach_kernel_driver`. A failure is
/// ignored on purpose: not every platform supports or needs detaching the
/// kernel driver, and its absence is non-fatal.
#[verifier::external_body]
fn enable_auto_detach(h: &UsbHandle) {
    let _ = h.handle.set_auto_detach_kernel_driver(true);
}

/// Relies on `rusb::DeviceHandle::claim_interface` (`libusb_claim_interface`).
#[verifier::external_body]
fn claim_interface(h: &UsbHandle, interface: u8) -> (r: Result<(), DeviceError>) {
    h.handle.claim_interface(interface).map_err(map_rusb_error)
}

/// Relies on `rusb::DeviceHandle::write_bulk`: one bulk transfer to
/// `endpoint`, bounded by `timeout`.
#[verifier::external_body]
fn bulk_write(
    h: &UsbHandle,
    endpoint: u8,
    buf: &[u8],
    timeout: std::time::Duration,
) -> (r: Result<usize, DeviceError>) {
    h.handle.write_bulk(endpoint, buf, timeout).map_err(map_rusb_error)
}

/// Whether an enumerated identifier pair is the one asked for.
pub open spec fn id_matches(id: (u16, u16), vendor_id: u16, product_id: u16) -> bool {
    id.0 == vendor_id && id.1 == product_id
}

/// The position of the first identifier pair that matches, if any: ties among
/// several matching devices resolve to enumeration order.
pub fn find_device(ids: &Vec<(u16, u16)>, vendor_id: u16, product_id: u16) -> (r: Option<usize>)
    ensures
        match r {
            Some(i) => i < ids@.len() && id_matches(ids@[i as int], vendor_id, product_id)
                && (forall|j: int|
                    0 <= j < i ==> !id_matches(ids@[j], vendor_id, product_id)),
            None => forall|j: int|
                0 <= j < ids@.len() ==> !id_matches(ids@[j], vendor_id, product_id),
        },
{
    let mut i: usize = 0;
    while i < ids.len()
        invariant
            i <= ids@.len(),
            forall|j: int| 0 <= j < i ==> !id_matches(ids@[j], vendor_id, product_id),
        decreases ids@.len() - i,
    {
        if ids[i].0 == vendor_id && ids[i].1 == product_id {
            return Some(i);
        }
        i = i + 1;
    }
    None
}

/// A sink over one claimed interface of one USB device; writes go to the
/// bulk-OUT endpoint below, each bounded by the timeout below.
pub struct Usb {
    vendor_id: u16,
    product_id: u16,
    interface: u8,
    endpoint_in_address: u8,
    endpoint_out_address: u8,
    timeout: std::time::Duration,
    handle: UsbHandle,
}

impl Usb {
    /// The vendor identifier the device was selected by.
    pub closed spec fn vendor_id(&self) -> u16 {
        self.vendor_id
    }

    /// The product identifier the device was selected by.
    pub closed spec fn product_id(&self) -> u16 {
        self.product_id
    }

    /// The claimed interface.
    pub closed spec fn interface(&self) -> u8 {
        self.interface
    }

    /// The bulk-IN endpoint address; unused by the write path, retained for a
    /// future read path.
    pub closed spec fn endpoint_in_address(&self) -> u8 {
        self.endpoint_in_address
    }

    /// The bulk-OUT endpoint address that `write` transfers to.
    pub closed spec fn endpoint_out_address(&self) -> u8 {
        self.endpoint_out_address
    }

    /// The per-transfer timeout.
    pub closed spec fn timeout(&self) -> std::time::Duration {
        self.timeout
    }

    /// The identifier pair of the device the open handle is bound to.
    pub closed spec fn bound_ids(&self) -> (u16, u16) {
        handle_ids(self.handle)
    }

    /// Enumerate the USB devices visible to the process, select the first one
    /// whose descriptor matches `vendor_id`/`product_id`, open it, detach any
    /// kernel driver best-effort, and claim `interface`. Fails with
    /// `NotFound` when no enumerated device matches.
    pub fn new(
        vendor_id: u16,
        product_id: u16,
        interface: u8,
        endpoint_in_address: u8,
        endpoint_out_address: u8,
        timeout: std::time::Duration,
    ) -> (r: Result<Usb, DeviceError>)
        ensures
            r matches Ok(u) ==> u.vendor_id() == vendor_id && u.product_id() == product_id
                && u.interface() == interface && u.endpoint_in_address() == endpoint_in_address
                && u.endpoint_out_address() == endpoint_out_address && u.timeout() == timeout
                && u.bound_ids() == (vendor_id, product_id),
    {
        let context = match new_context() {
            Ok(c) => c,
            Err(e) => return Err(e),
        };
        let devices = match list_devices(&context) {
            Ok(l) => l,
            Err(e) => return Err(e),
        };
        let ids = match list_ids(&devices) {
            Ok(v) => v,
            Err(e) => return Err(e),
        };
        let i = match find_device(&ids, vendor_id, product_id) {
            Some(i) => i,
            None => return Err(DeviceError::NotFound),
        };
        let device = device_at(&devices, i);
        let handle = match open_device(&device) {
            Ok(h) => h,
            Err(e) => return Err(e),
        };
        enable_auto_detach(&handle);
        match claim_interface(&handle, interface) {
            Ok(()) => {},
            Err(e) => return Err(e),
        }
        Ok(
            Usb {
                vendor_id,
                product_id,
                interface,
                endpoint_in_address,
                endpoint_out_address,
                timeout,
                handle,
            },
        )
    }

    /// Issue one bulk transfer of the whole buffer. Success is all-or-nothing
    /// at this layer: an `Ok` is always the full buffer length, and the
    /// transfer is trusted to have covered the buffer (a short hardware
    /// transfer is not re-driven here). Any transfer failure surfaces as
    /// `Transfer`.
    pub fn write(&mut self, buf: &[u8]) -> (r: Result<usize, DeviceError>)
        ensures
            r matches Ok(n) ==> n == buf@.len(),
            r matches Err(e) ==> e == DeviceError::Transfer,
            *final(self) == *old(self),
    {
        match bulk_write(&self.handle, self.endpoint_out_address, buf, self.timeout) {
            Ok(_) => Ok(buf.len()),
            Err(_) => Err(DeviceError::Transfer),
        }
    }

    /// Nothing is buffered client-side for bulk transfers, so there is
    /// nothing to flush: always succeeds.
    pub fn flush(&mut self) -> (r: Result<(), DeviceError>)
        ensures
            r.is_ok(),
            *final(self) == *old(self),
    {
        Ok(())
    }
}

} // verus!
