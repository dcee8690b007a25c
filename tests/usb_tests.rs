use usb::libusb::{
    libusb_class_code, libusb_context, libusb_control_setup, libusb_descriptor_type,
    libusb_device, libusb_device_descriptor, libusb_device_handle, libusb_endpoint_direction,
    libusb_error, libusb_transfer, libusb_transfer_status, libusb_transfer_type,
};
use usb::stream::{SlotState, Stream};
use usb::usb::{Context, ContextData, Device, DeviceHandle};

fn descriptor(vid: u16, pid: u16) -> libusb_device_descriptor {
    libusb_device_descriptor {
        bLength: 18,
        bDescriptorType: 1,
        bcdUSB: 0x0200,
        bDeviceClass: 0,
        bDeviceSubClass: 0,
        bDeviceProtocol: 0,
        bMaxPacketSize0: 64,
        idVendor: vid,
        idProduct: pid,
        bcdDevice: 0x0100,
        iManufacturer: 1,
        iProduct: 2,
        iSerialNumber: 3,
        bNumConfigurations: 1,
    }
}

fn device(addr: usize, vid: u16, pid: u16) -> Device {
    Device::new(libusb_device { addr }, descriptor(vid, pid), 1, addr as u8)
}

fn handle() -> DeviceHandle {
    DeviceHandle { dev: libusb_device_handle { addr: 0x1000 } }
}

fn completed(mut t: libusb_transfer, status: libusb_transfer_status, actual: i32) -> libusb_transfer {
    assert!(t.record_completion(status.code() as i32, actual));
    t
}

const FAILURES: [libusb_transfer_status; 6] = [
    libusb_transfer_status::LIBUSB_TRANSFER_ERROR,
    libusb_transfer_status::LIBUSB_TRANSFER_TIMED_OUT,
    libusb_transfer_status::LIBUSB_TRANSFER_CANCELLED,
    libusb_transfer_status::LIBUSB_TRANSFER_STALL,
    libusb_transfer_status::LIBUSB_TRANSFER_NO_DEVICE,
    libusb_transfer_status::LIBUSB_TRANSFER_OVERFLOW,
];

#[test]
fn setup_header_is_little_endian() {
    let s = libusb_control_setup {
        bmRequestType: 0xC0,
        bRequest: 0x20,
        wValue: 0x1234,
        wIndex: 0xABCD,
        wLength: 0x0102,
    };
    assert_eq!(s.to_bytes(), vec![0xC0, 0x20, 0x34, 0x12, 0xCD, 0xAB, 0x02, 0x01]);
}

#[test]
fn setup_header_round_trip() {
    for &(rt, req, v, i, l) in &[
        (0u8, 0u8, 0u16, 0u16, 0u16),
        (0xFF, 0xFF, 0xFFFF, 0xFFFF, 0xFFFF),
        (0x40, 0x81, 0x0100, 0x00FF, 3),
    ] {
        let s = libusb_control_setup { bmRequestType: rt, bRequest: req, wValue: v, wIndex: i, wLength: l };
        assert_eq!(libusb_control_setup::from_bytes(&s.to_bytes()), s);
    }
}

#[test]
fn ctrl_write_puts_header_before_data() {
    let t = handle().ctrl_write(0x40, 0x81, 0x0302, 0x0504, &[1, 2, 3], 250);
    assert_eq!(t.endpoint, 0);
    assert_eq!(t.transfer_type, 0);
    assert_eq!(t.timeout, 250);
    assert_eq!(t.length, 11);
    assert_eq!(t.dev_handle, handle().ptr());
    assert_eq!(t.buffer, vec![0x40, 0x81, 0x02, 0x03, 0x04, 0x05, 3, 0, 1, 2, 3]);
    let h = libusb_control_setup::from_bytes(&t.buffer[..8]);
    assert_eq!(h.bmRequestType, 0x40);
    assert_eq!(h.bRequest, 0x81);
    assert_eq!(h.wValue, 0x0302);
    assert_eq!(h.wIndex, 0x0504);
    assert_eq!(h.wLength, 3);
}

#[test]
fn ctrl_read_reserves_room_after_header() {
    let t = handle().ctrl_read(0xC0, 0x20, 0, 0, 64, 0);
    assert_eq!(t.buffer.len(), 72);
    assert_eq!(t.length, 72);
    assert_eq!(&t.buffer[..8], &[0xC0, 0x20, 0, 0, 0, 0, 64, 0]);
    assert!(t.buffer[8..].iter().all(|&b| b == 0));
}

#[test]
fn ctrl_read_result_slices_after_header() {
    let mut t = handle().ctrl_read(0xC0, 0x20, 0, 0, 4, 0);
    t.buffer[8] = 9;
    t.buffer[9] = 8;
    t.buffer[10] = 7;
    let t = completed(t, libusb_transfer_status::LIBUSB_TRANSFER_COMPLETED, 2);
    assert_eq!(t.ctrl_read_result(), Ok(vec![9, 8]));
}

#[test]
fn ctrl_read_result_error() {
    let t = handle().ctrl_read(0xC0, 0x20, 0, 0, 4, 0);
    let t = completed(t, libusb_transfer_status::LIBUSB_TRANSFER_STALL, 0);
    assert_eq!(t.ctrl_read_result(), Err(libusb_transfer_status::LIBUSB_TRANSFER_STALL));
}

#[test]
fn read_builds_zeroed_request() {
    let t = handle().read(0x81, libusb_transfer_type::LIBUSB_TRANSFER_TYPE_BULK, 64, 10);
    assert_eq!(t.endpoint, 0x81);
    assert_eq!(t.transfer_type, 2);
    assert_eq!(t.timeout, 10);
    assert_eq!(t.length, 64);
    assert_eq!(t.buffer, vec![0u8; 64]);
    assert_eq!(t.status, 0);
    assert_eq!(t.actual_length, 0);
}

#[test]
fn read_short_completion_truncates() {
    let mut t = handle().read(0x81, libusb_transfer_type::LIBUSB_TRANSFER_TYPE_BULK, 16, 0);
    for i in 0..16 {
        t.buffer[i] = i as u8 + 1;
    }
    let t = completed(t, libusb_transfer_status::LIBUSB_TRANSFER_COMPLETED, 5);
    let r = t.read_result().unwrap();
    assert_eq!(r.len(), 5);
    assert_eq!(r, vec![1, 2, 3, 4, 5]);
}

#[test]
fn read_full_and_empty_completion() {
    let t = handle().read(0x81, libusb_transfer_type::LIBUSB_TRANSFER_TYPE_INTERRUPT, 4, 0);
    let full = completed(t.clone(), libusb_transfer_status::LIBUSB_TRANSFER_COMPLETED, 4);
    assert_eq!(full.read_result(), Ok(vec![0, 0, 0, 0]));
    let empty = completed(t, libusb_transfer_status::LIBUSB_TRANSFER_COMPLETED, 0);
    assert_eq!(empty.read_result(), Ok(vec![]));
}

#[test]
fn read_failure_returns_status_without_data() {
    for &s in FAILURES.iter() {
        let mut t = handle().read(0x81, libusb_transfer_type::LIBUSB_TRANSFER_TYPE_BULK, 8, 0);
        t.buffer[0] = 0xAA;
        let t = completed(t, s, 3);
        assert_eq!(t.read_result(), Err(s));
    }
}

#[test]
fn write_copies_data_and_reports_length() {
    let t = handle().write(0x02, libusb_transfer_type::LIBUSB_TRANSFER_TYPE_BULK, &[1, 2, 3], 0);
    assert_eq!(t.buffer, vec![1, 2, 3]);
    assert_eq!(t.length, 3);
    assert_eq!(t.endpoint, 0x02);
    let short = completed(t.clone(), libusb_transfer_status::LIBUSB_TRANSFER_COMPLETED, 2);
    assert_eq!(short.write_result(), Ok(2));
    let full = completed(t, libusb_transfer_status::LIBUSB_TRANSFER_COMPLETED, 3);
    assert_eq!(full.write_result(), Ok(3));
}

#[test]
fn write_failure_returns_status() {
    for &s in FAILURES.iter() {
        let t = handle().write(0x02, libusb_transfer_type::LIBUSB_TRANSFER_TYPE_BULK, &[1], 0);
        let t = completed(t, s, 1);
        assert_eq!(t.write_result(), Err(s));
    }
}

#[test]
fn status_codes() {
    assert_eq!(libusb_transfer_status::LIBUSB_TRANSFER_COMPLETED.code(), 0);
    assert_eq!(libusb_transfer_status::LIBUSB_TRANSFER_OVERFLOW.code(), 6);
    for c in 0..7u32 {
        assert_eq!(libusb_transfer_status::from_code(c).unwrap().code(), c);
    }
    assert_eq!(libusb_transfer_status::from_code(7), None);
    let mut t = handle().read(0x81, libusb_transfer_type::LIBUSB_TRANSFER_TYPE_BULK, 1, 0);
    t.status = 2;
    assert_eq!(t.get_status(), libusb_transfer_status::LIBUSB_TRANSFER_TIMED_OUT);
}

#[test]
fn error_codes() {
    assert_eq!(libusb_error::from_code(0), libusb_error::LIBUSB_SUCCESS);
    assert_eq!(libusb_error::from_code(-4), libusb_error::LIBUSB_ERROR_NO_DEVICE);
    assert_eq!(libusb_error::from_code(-12), libusb_error::LIBUSB_ERROR_NOT_SUPPORTED);
    assert_eq!(libusb_error::from_code(-42), libusb_error::LIBUSB_ERROR_OTHER);
    assert_eq!(libusb_error::LIBUSB_ERROR_OTHER.code(), -99);
    assert_eq!(libusb_error::LIBUSB_ERROR_PIPE.code(), -9);
}

#[test]
fn other_codes() {
    assert_eq!(libusb_transfer_type::LIBUSB_TRANSFER_TYPE_CONTROL.code(), 0);
    assert_eq!(libusb_transfer_type::LIBUSB_TRANSFER_TYPE_ISOCHRONOUS.code(), 1);
    assert_eq!(libusb_transfer_type::LIBUSB_TRANSFER_TYPE_INTERRUPT.code(), 3);
    assert_eq!(libusb_class_code::LIBUSB_CLASS_HID.code(), 3);
    assert_eq!(libusb_class_code::LIBUSB_CLASS_VENDOR_SPEC.code(), 0xff);
    assert_eq!(libusb_descriptor_type::LIBUSB_DT_DEVICE.code(), 1);
    assert_eq!(libusb_descriptor_type::LIBUSB_DT_SS_ENDPOINT_COMPANION.code(), 0x30);
    assert_eq!(libusb_endpoint_direction::LIBUSB_ENDPOINT_IN.code(), 0x80);
    assert_eq!(
        libusb_endpoint_direction::of_endpoint(0x81),
        libusb_endpoint_direction::LIBUSB_ENDPOINT_IN
    );
    assert_eq!(
        libusb_endpoint_direction::of_endpoint(0x02),
        libusb_endpoint_direction::LIBUSB_ENDPOINT_OUT
    );
}

#[test]
fn context_new_maps_init_code() {
    let ctx = libusb_context { addr: 0x10 };
    assert_eq!(Context::new(0, ctx).unwrap().ptr(), ctx);
    assert_eq!(Context::new(-3, ctx), Err(libusb_error::LIBUSB_ERROR_ACCESS));
}

#[test]
fn find_by_vid_pid_unique_match() {
    let c = Context::new(0, libusb_context { addr: 1 }).unwrap();
    let devs = vec![device(1, 0x1111, 0x2222), device(2, 0x59e3, 0x0a23), device(3, 0x59e3, 0x0001)];
    assert_eq!(c.find_by_vid_pid(devs.clone(), 0x59e3, 0x0a23), Some(devs[1]));
    assert_eq!(c.find_by_vid_pid(devs.clone(), 0x1111, 0x2222), Some(devs[0]));
}

#[test]
fn find_by_vid_pid_no_match() {
    let c = Context::new(0, libusb_context { addr: 1 }).unwrap();
    let devs = vec![device(1, 0x1111, 0x2222), device(2, 0x59e3, 0x0a23)];
    assert_eq!(c.find_by_vid_pid(devs, 0x2222, 0x1111), None);
    assert_eq!(c.find_by_vid_pid(vec![], 0x1111, 0x2222), None);
}

#[test]
fn find_by_vid_pid_first_of_equal() {
    let c = Context::new(0, libusb_context { addr: 1 }).unwrap();
    let devs = vec![device(5, 1, 2), device(6, 1, 2)];
    let found = c.find_by_vid_pid(devs, 1, 2).unwrap();
    assert_eq!(found.ptr(), libusb_device { addr: 5 });
    assert_eq!(found.descriptor().idVendor, 1);
    assert_eq!(found.bus(), 1);
    assert_eq!(found.address(), 5);
}

#[test]
fn device_open_maps_return_code() {
    let d = device(1, 1, 2);
    let h = libusb_device_handle { addr: 77 };
    let mut data = ContextData::new(libusb_context { addr: 1 });
    assert_eq!(d.open(&mut data, -3, h), Err(-3));
    assert_eq!(data.open_device_count(), 0);
    let (opened, start_pump) = d.open(&mut data, 0, h).unwrap();
    assert_eq!(opened.ptr(), h);
    assert!(start_pump);
    assert_eq!(data.open_device_count(), 1);
    let (_, again) = d.open(&mut data, 0, libusb_device_handle { addr: 78 }).unwrap();
    assert!(!again);
    assert_eq!(data.open_device_count(), 2);
}

#[test]
fn record_completion_checks_report() {
    let t = handle().read(0x81, libusb_transfer_type::LIBUSB_TRANSFER_TYPE_BULK, 4, 0);
    let mut bad = t.clone();
    assert!(!bad.record_completion(7, 0));
    assert!(!bad.record_completion(-1, 0));
    assert!(!bad.record_completion(0, 5));
    assert!(!bad.record_completion(0, -1));
    assert_eq!(bad.status, 0);
    assert_eq!(bad.actual_length, 0);
    let mut good = t;
    assert!(good.record_completion(4, 4));
    assert_eq!(good.status, 4);
    assert_eq!(good.actual_length, 4);
    assert_eq!(good.buffer.len(), 4);
}

#[test]
fn submission_failure_counts_as_error() {
    let mut t = handle().write(0x02, libusb_transfer_type::LIBUSB_TRANSFER_TYPE_BULK, &[1, 2], 0);
    t.submission_failed();
    assert_eq!(t.get_status(), libusb_transfer_status::LIBUSB_TRANSFER_ERROR);
    assert_eq!(t.actual_length, 0);
    assert_eq!(t.buffer, vec![1, 2]);
    assert_eq!(t.write_result(), Err(libusb_transfer_status::LIBUSB_TRANSFER_ERROR));
}

#[test]
fn received_shows_arrived_bytes() {
    let mut t = handle().read(0x81, libusb_transfer_type::LIBUSB_TRANSFER_TYPE_BULK, 8, 0);
    t.buffer[0] = 4;
    t.buffer[1] = 5;
    t.buffer[2] = 6;
    let ok = completed(t.clone(), libusb_transfer_status::LIBUSB_TRANSFER_COMPLETED, 2);
    assert_eq!(ok.received(), Ok(&[4u8, 5][..]));
    let bad = completed(t, libusb_transfer_status::LIBUSB_TRANSFER_NO_DEVICE, 2);
    assert_eq!(bad.received(), Err(libusb_transfer_status::LIBUSB_TRANSFER_NO_DEVICE));
}

#[test]
fn stream_stops_from_any_state() {
    let ok = libusb_transfer_status::LIBUSB_TRANSFER_COMPLETED;
    let mut s = Stream::write_stream(&vec![true, true, false, true]);
    assert!(s.completed(1, ok, true));
    assert!(s.completed(3, ok, true));
    assert_eq!(s.active(), 3);
    assert!(!s.completed(3, ok, false));
    assert_eq!(s.active(), 2);
    assert!(!s.finished());
    assert!(!s.completed(0, libusb_transfer_status::LIBUSB_TRANSFER_TIMED_OUT, true));
    assert_eq!(s.active(), 1);
    assert!(!s.finished());
    assert!(!s.completed(1, ok, false));
    assert!(s.finished());
}

#[test]
fn open_count_follows_sessions() {
    let mut d = ContextData::new(libusb_context { addr: 1 });
    assert_eq!(d.ptr(), libusb_context { addr: 1 });
    assert_eq!(d.open_device_count(), 0);
    let a = libusb_device_handle { addr: 10 };
    let b = libusb_device_handle { addr: 20 };
    assert!(d.device_opened(a));
    assert_eq!(d.open_device_count(), 1);
    assert!(!d.device_opened(b));
    assert_eq!(d.open_device_count(), 2);
    d.device_closed(a);
    assert_eq!(d.open_device_count(), 1);
    assert!(d.pump_continue());
    d.device_closed(b);
    assert_eq!(d.open_device_count(), 0);
    assert!(!d.ready_to_exit());
    assert!(!d.pump_continue());
    assert!(d.ready_to_exit());
}

#[test]
fn open_then_close_stops_pump() {
    let mut d = ContextData::new(libusb_context { addr: 1 });
    let h = libusb_device_handle { addr: 10 };
    assert!(d.device_opened(h));
    d.device_closed(h);
    assert!(!d.pump_continue());
    assert!(d.ready_to_exit());
    // A new session after the pump stopped starts a new one.
    assert!(d.device_opened(h));
    assert!(d.pump_continue());
}

#[test]
fn reopen_before_pump_noticed_keeps_one_pump() {
    let mut d = ContextData::new(libusb_context { addr: 1 });
    let h = libusb_device_handle { addr: 10 };
    assert!(d.device_opened(h));
    d.device_closed(h);
    assert!(!d.device_opened(h));
    assert!(d.pump_continue());
}

#[test]
fn read_stream_stop_first_then_keep_going() {
    let mut s = Stream::read_stream(4);
    assert_eq!(s.num_slots(), 4);
    assert_eq!(s.active(), 4);
    let ok = libusb_transfer_status::LIBUSB_TRANSFER_COMPLETED;
    let mut first = true;
    for round in 0..20usize {
        let slot = round % 4;
        if slot == 0 && !first {
            continue;
        }
        let keep = !first;
        first = false;
        let resubmit = s.completed(slot, ok, keep);
        assert_eq!(resubmit, keep);
    }
    assert_eq!(s.active(), 3);
    assert!(!s.finished());
}

#[test]
fn read_stream_ends_after_each_slot_stops() {
    let n = 5usize;
    let mut s = Stream::read_stream(n);
    let ok = libusb_transfer_status::LIBUSB_TRANSFER_COMPLETED;
    for (k, slot) in [3usize, 0, 4, 1, 2].iter().enumerate() {
        assert!(!s.finished());
        assert!(!s.completed(*slot, ok, false));
        assert_eq!(s.active(), n - k - 1);
    }
    assert!(s.finished());
}

#[test]
fn failed_completion_retires_slot() {
    for &st in FAILURES.iter() {
        let mut s = Stream::read_stream(2);
        assert!(!s.completed(1, st, true));
        assert_eq!(s.active(), 1);
        assert!(s.completed(0, libusb_transfer_status::LIBUSB_TRANSFER_COMPLETED, true));
        assert!(!s.completed(0, st, true));
        assert!(s.finished());
    }
}

#[test]
fn write_stream_priming() {
    let s = Stream::write_stream(&vec![true, false, true]);
    assert_eq!(s.num_slots(), 3);
    assert_eq!(s.active(), 2);
    assert!(s.is_in_flight(0));
    assert!(!s.is_in_flight(1));
    assert!(s.is_in_flight(2));
    assert!(!s.finished());
    let none = Stream::write_stream(&vec![false, false]);
    assert!(none.finished());
    let empty = Stream::read_stream(0);
    assert!(empty.finished());
    assert_eq!(SlotState::InFlight, SlotState::InFlight);
}

#[test]
fn stream_transfers_have_own_buffers() {
    let ts = handle().stream_transfers(0x81, libusb_transfer_type::LIBUSB_TRANSFER_TYPE_BULK, 640, 8);
    assert_eq!(ts.len(), 8);
    for t in ts.iter() {
        assert_eq!(t.buffer.len(), 640);
        assert_eq!(t.length, 640);
        assert_eq!(t.endpoint, 0x81);
        assert_eq!(t.timeout, 0);
        assert_eq!(t.transfer_type, 2);
    }
}
