use vstd::prelude::*;
use vstd::slice::{slice_subrange, slice_to_vec};

use crate::libusb::{
    completed_transfer, error_of_code, libusb_context, libusb_control_setup, libusb_device,
    libusb_device_descriptor, libusb_device_handle, libusb_error, libusb_transfer,
    libusb_transfer_status, libusb_transfer_type, setup_bytes, setup_of_bytes, status_of_code,
    transfer_type_code, lemma_setup_round_trip, LIBUSB_CONTROL_SETUP_SIZE,
};

verus! {

/// The transport context of a library session. It is only handed to the
/// transport's calls; its shared, changing state is a `ContextData`.
#[derive(Clone, Copy, Debug, PartialEq, Eq, Structural)]
pub struct Context {
    pub ctx: libusb_context,
}

/// Whether `d` is the device with vendor `vid` and product `pid`.
pub open spec fn has_vid_pid(d: Device, vid: u16, pid: u16) -> bool {
    d.desc.idVendor == vid && d.desc.idProduct == pid
}

/// The first device of `devs` with vendor `vid` and product `pid`.
pub open spec fn first_vid_pid(devs: Seq<Device>, vid: u16, pid: u16) -> Option<Device>
    decreases devs.len(),
{
    if devs.len() == 0 {
        None
    } else if has_vid_pid(devs[0], vid, pid) {
        Some(devs[0])
    } else {
        first_vid_pid(devs.drop_first(), vid, pid)
    }
}

proof fn lemma_first_vid_pid_skip(devs: Seq<Device>, i: int, vid: u16, pid: u16)
    requires
        0 <= i < devs.len(),
        !has_vid_pid(devs[i], vid, pid),
    ensures
        first_vid_pid(devs.subrange(i, devs.len() as int), vid, pid) == first_vid_pid(
            devs.subrange(i + 1, devs.len() as int),
            vid,
            pid,
        ),
{
    assert(devs.subrange(i, devs.len() as int).drop_first() =~= devs.subrange(
        i + 1,
        devs.len() as int,
    ));
}

/// When exactly one device of `devs`, the one at `i`, has vendor `vid` and
/// product `pid`, the lookup finds that device; when none has, it finds nothing.
pub proof fn lemma_find_unique(devs: Seq<Device>, vid: u16, pid: u16, i: int)
    requires
        0 <= i < devs.len(),
        has_vid_pid(devs[i], vid, pid),
        forall|j: int| 0 <= j < devs.len() && j != i ==> !has_vid_pid(#[trigger] devs[j], vid, pid),
    ensures
        first_vid_pid(devs, vid, pid) == Some(devs[i]),
    decreases i,
{
    if i > 0 {
        assert(!has_vid_pid(devs[0], vid, pid));
        let rest = devs.drop_first();
        assert forall|j: int| 0 <= j < rest.len() && j != i - 1 implies !has_vid_pid(
            #[trigger] rest[j],
            vid,
            pid,
        ) by {
            assert(rest[j] == devs[j + 1]);
        }
        lemma_find_unique(rest, vid, pid, i - 1);
    }
}

/// When no device of `devs` has vendor `vid` and product `pid`, the lookup finds nothing.
pub proof fn lemma_find_none(devs: Seq<Device>, vid: u16, pid: u16)
    requires
        forall|j: int| 0 <= j < devs.len() ==> !has_vid_pid(#[trigger] devs[j], vid, pid),
    ensures
        first_vid_pid(devs, vid, pid) == None::<Device>,
    decreases devs.len(),
{
    if devs.len() > 0 {
        let rest = devs.drop_first();
        assert forall|j: int| 0 <= j < rest.len() implies !has_vid_pid(
            #[trigger] rest[j],
            vid,
            pid,
        ) by {
            assert(rest[j] == devs[j + 1]);
        }
        lemma_find_none(rest, vid, pid);
    }
}

impl Context {
    /// The context that the transport's initialisation gave, when its return
    /// code `r` is 0; else the error that `r` names.
    pub fn new(r: i32, ctx: libusb_context) -> (res: Result<Context, libusb_error>)
        ensures
            r == 0 ==> res == Ok::<Context, libusb_error>(Context { ctx }),
            r != 0 ==> res == Err::<Context, libusb_error>(error_of_code(r)),
    {
        if r == 0 {
            Ok(Context { ctx })
        } else {
            Err(libusb_error::from_code(r))
        }
    }

    /// The transport context.
    pub fn ptr(&self) -> (r: libusb_context)
        ensures
            r == self.ctx,
    {
        self.ctx
    }

    /// The first of `devices`, in enumeration order, whose descriptor has
    /// vendor `vid` and product `pid`; `None` when none has.
    pub fn find_by_vid_pid(&self, devices: Vec<Device>, vid: u16, pid: u16) -> (r: Option<Device>)
        ensures
            r == first_vid_pid(devices@, vid, pid),
    {
        let n = devices.len();
        let mut i: usize = 0;
        assert(devices@.subrange(0, n as int) =~= devices@);
        while i < n
            invariant
                n == devices@.len(),
                i <= n,
                first_vid_pid(devices@, vid, pid) == first_vid_pid(
                    devices@.subrange(i as int, n as int),
                    vid,
                    pid,
                ),
            decreases n - i,
        {
            let d = devices[i];
            if d.desc.idVendor == vid && d.desc.idProduct == pid {
                assert(devices@.subrange(i as int, n as int)[0] == d);
                return Some(d);
            }
            proof {
                lemma_first_vid_pid_skip(devices@, i as int, vid, pid);
            }
            i = i + 1;
        }
        None
    }
}

/// A device as enumeration found it: the transport's record, its descriptor,
/// and where it sits on the bus.
#[derive(Clone, Copy, Debug, PartialEq, Eq, Structural)]
pub struct Device {
    pub dev: libusb_device,
    pub desc: libusb_device_descriptor,
    pub bus: u8,
    pub address: u8,
}

impl Device {
    /// The device that enumeration reported with record `dev`.
    pub fn new(dev: libusb_device, desc: libusb_device_descriptor, bus: u8, address: u8) -> (r:
        Device)
        ensures
            r == (Device { dev, desc, bus, address }),
    {
        Device { dev, desc, bus, address }
    }

    /// The transport's record of the device.
    pub fn ptr(&self) -> (r: libusb_device)
        ensures
            r == self.dev,
    {
        self.dev
    }

    /// The device descriptor.
    pub fn descriptor(&self) -> (r: libusb_device_descriptor)
        ensures
            r == self.desc,
    {
        self.desc
    }

    /// The number of the bus the device is on.
    pub fn bus(&self) -> (r: u8)
        ensures
            r == self.bus,
    {
        self.bus
    }

    /// The device's address on its bus.
    pub fn address(&self) -> (r: u8)
        ensures
            r == self.address,
    {
        self.address
    }

    /// The session that the transport's open call gave, when its return code
    /// `r` is 0, recorded as open in the context's state `data` before any
    /// transfer can use it; the flag tells whether the pump thread must be
    /// started. Else `r` itself, and `data` is unchanged.
    pub fn open(&self, data: &mut ContextData, r: i32, handle: libusb_device_handle) -> (res: Result<
        (DeviceHandle, bool),
        i32,
    >)
        requires
            old(data).wf(),
            r == 0 ==> !old(data).sessions().contains(handle),
            r == 0 ==> old(data).open_count() < u64::MAX,
        ensures
            r == 0 <==> res.is_ok(),
            match res {
                Ok((h, start_pump)) => h == (DeviceHandle { dev: handle }) && opened(
                    *old(data),
                    *final(data),
                    handle,
                    start_pump,
                ),
                Err(e) => e == r && *final(data) == *old(data),
            },
    {
        if r == 0 {
            let start_pump = data.device_opened(handle);
            Ok((DeviceHandle { dev: handle }, start_pump))
        } else {
            Err(r)
        }
    }
}

/// An open session on a device. Copies name the same session.
#[derive(Clone, Copy, Debug, PartialEq, Eq, Structural)]
pub struct DeviceHandle {
    pub dev: libusb_device_handle,
}

impl DeviceHandle {
    /// The transport's session.
    pub fn ptr(&self) -> (r: libusb_device_handle)
        ensures
            r == self.dev,
    {
        self.dev
    }

    /// The transfer that reads up to `size` bytes from `endpoint` into a
    /// zeroed buffer. Once it has completed, `read_result` gives the data.
    pub fn read(&self, endpoint: u8, transfer_type: libusb_transfer_type, size: usize, timeout: u32) -> (t:
        libusb_transfer)
        ensures
            fresh_transfer(t, self.dev, endpoint, transfer_type, timeout),
            t.buffer@ == zeros(size as nat),
    {
        libusb_transfer::new(self.dev, endpoint, transfer_type, zeroed(size), timeout)
    }

    /// The transfer that writes `buf` to `endpoint`. Once it has completed,
    /// `write_result` tells how it ended.
    pub fn write(&self, endpoint: u8, transfer_type: libusb_transfer_type, buf: &[u8], timeout: u32) -> (t:
        libusb_transfer)
        ensures
            fresh_transfer(t, self.dev, endpoint, transfer_type, timeout),
            t.buffer@ == buf@,
    {
        libusb_transfer::new(self.dev, endpoint, transfer_type, slice_to_vec(buf), timeout)
    }

    /// The control transfer on endpoint 0 that reads `length` bytes: the setup
    /// header, then room for the data. Once it has completed,
    /// `ctrl_read_result` gives the data.
    pub fn ctrl_read(
        &self,
        bmRequestType: u8,
        bRequest: u8,
        wValue: u16,
        wIndex: u16,
        length: usize,
        timeout: u32,
    ) -> (t: libusb_transfer)
        requires
            length <= u16::MAX,
        ensures
            fresh_transfer(
                t,
                self.dev,
                0,
                libusb_transfer_type::LIBUSB_TRANSFER_TYPE_CONTROL,
                timeout,
            ),
            t.buffer@ == setup_bytes(
                libusb_control_setup {
                    bmRequestType,
                    bRequest,
                    wValue,
                    wIndex,
                    wLength: length as u16,
                },
            ) + zeros(length as nat),
    {
        let mut buf = fill_setup_buf(bmRequestType, bRequest, wValue, wIndex, length);
        let data = zeroed(length);
        append(&mut buf, &data);
        libusb_transfer::new(
            self.dev,
            0,
            libusb_transfer_type::LIBUSB_TRANSFER_TYPE_CONTROL,
            buf,
            timeout,
        )
    }

    /// The control transfer on endpoint 0 that writes `buf`: the setup header,
    /// then `buf`. Once it has completed, `write_result` tells how it ended.
    pub fn ctrl_write(
        &self,
        bmRequestType: u8,
        bRequest: u8,
        wValue: u16,
        wIndex: u16,
        buf: &[u8],
        timeout: u32,
    ) -> (t: libusb_transfer)
        requires
            buf@.len() <= u16::MAX,
        ensures
            fresh_transfer(
                t,
                self.dev,
                0,
                libusb_transfer_type::LIBUSB_TRANSFER_TYPE_CONTROL,
                timeout,
            ),
            t.buffer@ == setup_bytes(
                libusb_control_setup {
                    bmRequestType,
                    bRequest,
                    wValue,
                    wIndex,
                    wLength: buf@.len() as u16,
                },
            ) + buf@,
    {
        let mut setup_buf = fill_setup_buf(bmRequestType, bRequest, wValue, wIndex, buf.len());
        let data = slice_to_vec(buf);
        append(&mut setup_buf, &data);
        libusb_transfer::new(
            self.dev,
            0,
            libusb_transfer_type::LIBUSB_TRANSFER_TYPE_CONTROL,
            setup_buf,
            timeout,
        )
    }
}

/// What a completed read gives: on `LIBUSB_TRANSFER_COMPLETED` the bytes that
/// arrived, the buffer cut to `actual_length`; on any other status that
/// status, and no data.
pub open spec fn read_outcome(t: libusb_transfer) -> Result<Seq<u8>, libusb_transfer_status> {
    if t.status == 0 {
        Ok(t.buffer@.take(t.actual_length as int))
    } else {
        Err(status_of_code(t.status).unwrap())
    }
}

/// What a completed write gives: on `LIBUSB_TRANSFER_COMPLETED` the number of
/// bytes that moved; on any other status that status.
pub open spec fn write_outcome(t: libusb_transfer) -> Result<usize, libusb_transfer_status> {
    if t.status == 0 {
        Ok(t.actual_length)
    } else {
        Err(status_of_code(t.status).unwrap())
    }
}

/// What a completed control read gives: on `LIBUSB_TRANSFER_COMPLETED` the
/// `actual_length` data bytes after the setup header; on any other status
/// that status, and no data.
pub open spec fn ctrl_read_outcome(t: libusb_transfer) -> Result<Seq<u8>, libusb_transfer_status> {
    if t.status == 0 {
        Ok(
            t.buffer@.subrange(
                LIBUSB_CONTROL_SETUP_SIZE as int,
                LIBUSB_CONTROL_SETUP_SIZE + t.actual_length,
            ),
        )
    } else {
        Err(status_of_code(t.status).unwrap())
    }
}

/// A read that completes with `LIBUSB_TRANSFER_COMPLETED` after `k` bytes
/// gives exactly those `k` bytes, however large its buffer.
pub proof fn lemma_read_gives_received_bytes(t: libusb_transfer, k: nat)
    requires
        completed_transfer(t),
        t.status == 0,
        t.actual_length == k,
    ensures
        read_outcome(t) == Ok::<Seq<u8>, libusb_transfer_status>(t.buffer@.take(k as int)),
        t.buffer@.take(k as int).len() == k,
{
}

/// A read, write or control read that completes with any other status than
/// `LIBUSB_TRANSFER_COMPLETED` gives that status as its error, and no data.
pub proof fn lemma_failed_transfer_gives_status(t: libusb_transfer, s: libusb_transfer_status)
    requires
        completed_transfer(t),
        s != libusb_transfer_status::LIBUSB_TRANSFER_COMPLETED,
        status_of_code(t.status) == Some(s),
    ensures
        read_outcome(t) == Err::<Seq<u8>, libusb_transfer_status>(s),
        write_outcome(t) == Err::<usize, libusb_transfer_status>(s),
        ctrl_read_outcome(t) == Err::<Seq<u8>, libusb_transfer_status>(s),
{
}

impl libusb_transfer {
    /// What a completed read gives, as `read_outcome` states it.
    pub fn read_result(self) -> (r: Result<Vec<u8>, libusb_transfer_status>)
        requires
            completed_transfer(self),
        ensures
            match r {
                Ok(v) => read_outcome(self) == Ok::<Seq<u8>, libusb_transfer_status>(v@),
                Err(e) => read_outcome(self) == Err::<Seq<u8>, libusb_transfer_status>(e),
            },
    {
        let status = self.get_status();
        if self.status == 0 {
            let n = self.actual_length;
            let mut buf = self.buffer;
            buf.truncate(n);
            Ok(buf)
        } else {
            Err(status)
        }
    }

    /// What a completed transfer of a read stream shows the consumer: the
    /// bytes that arrived, or the status, as `read_outcome` states it.
    pub fn received(&self) -> (r: Result<&[u8], libusb_transfer_status>)
        requires
            completed_transfer(*self),
        ensures
            match r {
                Ok(b) => read_outcome(*self) == Ok::<Seq<u8>, libusb_transfer_status>(b@),
                Err(e) => read_outcome(*self) == Err::<Seq<u8>, libusb_transfer_status>(e),
            },
    {
        let status = self.get_status();
        if self.status == 0 {
            let b = slice_subrange(self.buffer.as_slice(), 0, self.actual_length);
            assert(b@ =~= self.buffer@.take(self.actual_length as int));
            Ok(b)
        } else {
            Err(status)
        }
    }

    /// What a completed write gives, as `write_outcome` states it: the number
    /// of bytes that moved, which may be fewer than were asked, or the status.
    pub fn write_result(&self) -> (r: Result<usize, libusb_transfer_status>)
        requires
            completed_transfer(*self),
        ensures
            r == write_outcome(*self),
    {
        let status = self.get_status();
        if self.status == 0 {
            Ok(self.actual_length)
        } else {
            Err(status)
        }
    }

    /// What a completed control read gives, as `ctrl_read_outcome` states it.
    pub fn ctrl_read_result(&self) -> (r: Result<Vec<u8>, libusb_transfer_status>)
        requires
            completed_transfer(*self),
            LIBUSB_CONTROL_SETUP_SIZE + self.actual_length <= self.buffer@.len(),
        ensures
            match r {
                Ok(v) => ctrl_read_outcome(*self) == Ok::<Seq<u8>, libusb_transfer_status>(v@),
                Err(e) => ctrl_read_outcome(*self) == Err::<Seq<u8>, libusb_transfer_status>(e),
            },
    {
        let status = self.get_status();
        if self.status == 0 {
            // The buffer's length is a `usize`, so the end below cannot overflow.
            let _len = self.buffer.len();
            let start = LIBUSB_CONTROL_SETUP_SIZE;
            let end = LIBUSB_CONTROL_SETUP_SIZE + self.actual_length;
            let mut v: Vec<u8> = Vec::with_capacity(end - start);
            let mut i: usize = start;
            while i < end
                invariant
                    start <= i <= end,
                    end <= self.buffer@.len(),
                    v@ == self.buffer@.subrange(start as int, i as int),
                decreases end - i,
            {
                v.push(self.buffer[i]);
                i = i + 1;
                assert(v@ =~= self.buffer@.subrange(start as int, i as int));
            }
            Ok(v)
        } else {
            Err(status)
        }
    }
}

/// The state that a context shares among the threads that use it: which
/// sessions are open on it, and whether its pump thread runs. The pump thread
/// drives the transport's events while any session is open; a program keeps
/// this state behind a lock, and each method is one step under that lock.
pub struct ContextData {
    ctx: libusb_context,
    open_device_count: u64,
    pump_running: bool,
    sessions: Ghost<Set<libusb_device_handle>>,
}

impl ContextData {
    /// The sessions open on the context.
    pub closed spec fn sessions(&self) -> Set<libusb_device_handle> {
        self.sessions@
    }

    /// The open-device counter.
    pub closed spec fn open_count(&self) -> nat {
        self.open_device_count as nat
    }

    /// Whether a pump thread runs, or has been asked to start.
    pub closed spec fn pump_running(&self) -> bool {
        self.pump_running
    }

    /// The transport context.
    pub closed spec fn ctx(&self) -> libusb_context {
        self.ctx
    }

    /// The counter counts the open sessions, and while one is open the pump runs.
    pub open spec fn wf(&self) -> bool {
        &&& self.sessions().finite()
        &&& self.open_count() == self.sessions().len()
        &&& self.open_count() > 0 ==> self.pump_running()
    }

    /// The state of a context that the transport has just initialised: no
    /// session open, no pump thread.
    pub fn new(ctx: libusb_context) -> (r: ContextData)
        ensures
            r.wf(),
            r.sessions() == Set::<libusb_device_handle>::empty(),
            !r.pump_running(),
            r.ctx() == ctx,
    {
        ContextData {
            ctx,
            open_device_count: 0,
            pump_running: false,
            sessions: Ghost(Set::empty()),
        }
    }

    /// The transport context.
    pub fn ptr(&self) -> (r: libusb_context)
        ensures
            r == self.ctx(),
    {
        self.ctx
    }

    /// The number of open sessions.
    pub fn open_device_count(&self) -> (r: u64)
        requires
            self.wf(),
        ensures
            r == self.open_count(),
            r == self.sessions().len(),
    {
        self.open_device_count
    }

    /// Records that session `h` was opened. Returns whether the caller must
    /// start the pump thread: only when none runs, so at most one ever does.
    pub fn device_opened(&mut self, h: libusb_device_handle) -> (start_pump: bool)
        requires
            old(self).wf(),
            !old(self).sessions().contains(h),
            old(self).open_count() < u64::MAX,
        ensures
            opened(*old(self), *final(self), h, start_pump),
    {
        self.open_device_count = self.open_device_count + 1;
        self.sessions = Ghost(self.sessions@.insert(h));
        proof {
            lemma_open_count_zero_iff_no_sessions(*old(self));
        }
        let start_pump = !self.pump_running;
        self.pump_running = true;
        start_pump
    }

    /// Records that the last copy of session `h` was dropped.
    pub fn device_closed(&mut self, h: libusb_device_handle)
        requires
            old(self).wf(),
            old(self).sessions().contains(h),
        ensures
            closed(*old(self), *final(self), h),
    {
        self.open_device_count = self.open_device_count - 1;
        self.sessions = Ghost(self.sessions@.remove(h));
    }

    /// One check of the pump thread, made before each round of events:
    /// whether to go on. When no session is open the thread must exit, and the
    /// state records that it no longer runs.
    pub fn pump_continue(&mut self) -> (go_on: bool)
        requires
            old(self).wf(),
        ensures
            pumped(*old(self), *final(self), go_on),
    {
        if self.open_device_count > 0 {
            true
        } else {
            self.pump_running = false;
            false
        }
    }

    /// Whether the transport context may be released: no session is open and
    /// the pump thread has exited.
    pub fn ready_to_exit(&self) -> (r: bool)
        requires
            self.wf(),
        ensures
            r == (self.sessions().is_empty() && !self.pump_running()),
    {
        proof {
            lemma_open_count_zero_iff_no_sessions(*self);
        }
        self.open_device_count == 0 && !self.pump_running
    }
}

/// `post` is `pre` once session `h` has opened; `start_pump` tells whether a
/// pump thread had to be started for it.
pub open spec fn opened(pre: ContextData, post: ContextData, h: libusb_device_handle, start_pump: bool) -> bool {
    &&& post.wf()
    &&& post.ctx() == pre.ctx()
    &&& post.sessions() == pre.sessions().insert(h)
    &&& post.open_count() == pre.open_count() + 1
    &&& post.pump_running()
    &&& start_pump == !pre.pump_running()
    &&& start_pump ==> pre.open_count() == 0
}

/// `post` is `pre` once session `h` has closed.
pub open spec fn closed(pre: ContextData, post: ContextData, h: libusb_device_handle) -> bool {
    &&& post.wf()
    &&& post.ctx() == pre.ctx()
    &&& post.sessions() == pre.sessions().remove(h)
    &&& post.open_count() == pre.open_count() - 1
    &&& post.pump_running() == pre.pump_running()
}

/// `post` is `pre` once the pump thread has checked whether to go on, and
/// `go_on` is its answer.
pub open spec fn pumped(pre: ContextData, post: ContextData, go_on: bool) -> bool {
    &&& post.wf()
    &&& post.ctx() == pre.ctx()
    &&& post.sessions() == pre.sessions()
    &&& post.open_count() == pre.open_count()
    &&& go_on == !pre.sessions().is_empty()
    &&& post.pump_running() == go_on
}

/// The open-device counter is zero exactly when no session is open.
pub proof fn lemma_open_count_zero_iff_no_sessions(d: ContextData)
    requires
        d.wf(),
    ensures
        d.open_count() == d.sessions().len(),
        d.open_count() == 0 <==> d.sessions().is_empty(),
{
    if d.sessions().len() == 0 {
        d.sessions().lemma_len0_is_empty();
    }
}

/// Opening a session on a context with none open and closing it again leaves
/// no session open, and the pump thread exits at its next check.
pub proof fn lemma_open_close_stops_pump(
    d0: ContextData,
    d1: ContextData,
    d2: ContextData,
    d3: ContextData,
    h: libusb_device_handle,
    start_pump: bool,
    go_on: bool,
)
    requires
        d0.wf(),
        d0.sessions().is_empty(),
        opened(d0, d1, h, start_pump),
        closed(d1, d2, h),
        pumped(d2, d3, go_on),
    ensures
        !go_on,
        !d3.pump_running(),
        d3.open_count() == 0,
        d3.sessions().is_empty(),
{
    assert(d2.sessions() =~= Set::<libusb_device_handle>::empty());
    lemma_open_count_zero_iff_no_sessions(d3);
}

/// The buffer of a control transfer, setup header then data, gives back on
/// decoding its first eight bytes every field of the header, and the data
/// after them.
pub proof fn lemma_ctrl_buffer_round_trip(setup: libusb_control_setup, data: Seq<u8>)
    ensures
        setup_of_bytes((setup_bytes(setup) + data).take(LIBUSB_CONTROL_SETUP_SIZE as int)) == setup,
        (setup_bytes(setup) + data).subrange(
            LIBUSB_CONTROL_SETUP_SIZE as int,
            LIBUSB_CONTROL_SETUP_SIZE + data.len(),
        ) == data,
{
    let b = setup_bytes(setup) + data;
    lemma_setup_round_trip(setup);
    assert(b.take(LIBUSB_CONTROL_SETUP_SIZE as int) =~= setup_bytes(setup));
    assert(b.subrange(LIBUSB_CONTROL_SETUP_SIZE as int, LIBUSB_CONTROL_SETUP_SIZE + data.len()) =~= data);
}

/// `n` zero bytes.
pub open spec fn zeros(n: nat) -> Seq<u8> {
    Seq::new(n, |i: int| 0u8)
}

/// `t` is a transfer on `dev` to `endpoint`, of kind `transfer_type`, over
/// its whole buffer, that has not been submitted yet.
pub open spec fn fresh_transfer(
    t: libusb_transfer,
    dev: libusb_device_handle,
    endpoint: u8,
    transfer_type: libusb_transfer_type,
    timeout: u32,
) -> bool {
    &&& t.dev_handle == dev
    &&& t.flags == 0
    &&& t.endpoint == endpoint
    &&& t.transfer_type == transfer_type_code(transfer_type)
    &&& t.timeout == timeout
    &&& t.status == 0
    &&& t.length == t.buffer@.len()
    &&& t.actual_length == 0
    &&& t.num_iso_packets == 0
}

fn zeroed(n: usize) -> (r: Vec<u8>)
    ensures
        r@ == zeros(n as nat),
{
    let mut r: Vec<u8> = Vec::with_capacity(n);
    let mut i: usize = 0;
    while i < n
        invariant
            i <= n,
            r@ == zeros(i as nat),
        decreases n - i,
    {
        r.push(0u8);
        i = i + 1;
        assert(r@ =~= zeros(i as nat));
    }
    r
}

fn append(dst: &mut Vec<u8>, src: &Vec<u8>)
    ensures
        final(dst)@ == old(dst)@ + src@,
{
    let mut i: usize = 0;
    while i < src.len()
        invariant
            i <= src@.len(),
            dst@ == old(dst)@ + src@.subrange(0, i as int),
        decreases src@.len() - i,
    {
        dst.push(src[i]);
        i = i + 1;
        assert(dst@ =~= old(dst)@ + src@.subrange(0, i as int));
    }
    assert(src@.subrange(0, src@.len() as int) =~= src@);
}

/// The setup header of a control transfer with `length` data bytes, as the
/// start of its buffer.
fn fill_setup_buf(bmRequestType: u8, bRequest: u8, wValue: u16, wIndex: u16, length: usize) -> (r:
    Vec<u8>)
    requires
        length <= u16::MAX,
    ensures
        r@ == setup_bytes(
            libusb_control_setup {
                bmRequestType,
                bRequest,
                wValue,
                wIndex,
                wLength: length as u16,
            },
        ),
{
    let setup = libusb_control_setup {
        bmRequestType,
        bRequest,
        wValue,
        wIndex,
        wLength: length as u16,
    };
    setup.to_bytes()
}

} // verus!
