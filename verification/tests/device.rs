use usb_dfu::consts::DfuRequest;
use usb_dfu::device::POLL_TIMEOUT_MS;
use usb_dfu::{DfuHandler, UsbDfuDevice};

/// A backend that records what it is asked and serves uploads from `image`.
struct Mock {
    writes: Vec<(usize, Vec<u8>)>,
    completions: usize,
    write_complete: bool,
    image: Vec<u8>,
    overlong: bool,
}

impl Mock {
    fn new() -> Self {
        Mock { writes: Vec::new(), completions: 0, write_complete: true, image: Vec::new(), overlong: false }
    }
}

impl DfuHandler for Mock {
    fn write_data(&mut self, offset: usize, data: &[u8]) {
        self.writes.push((offset, data.to_vec()));
    }

    fn is_write_complete(&self) -> bool {
        self.write_complete
    }

    fn complete_download(&mut self) {
        self.completions += 1;
    }

    fn upload(&self, buffer: &mut [u8], offset: usize) -> usize {
        if self.overlong {
            return buffer.len() + 1;
        }
        let rest = if offset < self.image.len() { &self.image[offset..] } else { &[][..] };
        let n = rest.len().min(buffer.len());
        buffer[..n].copy_from_slice(&rest[..n]);
        n
    }
}

/// A backend that keeps the default answer to `is_write_complete`.
struct Plain {
    writes: usize,
}

impl DfuHandler for Plain {
    fn write_data(&mut self, _offset: usize, _data: &[u8]) {
        self.writes += 1;
    }

    fn complete_download(&mut self) {}

    fn upload(&self, _buffer: &mut [u8], _offset: usize) -> usize {
        0
    }
}

fn state_byte<H: DfuHandler + ?Sized>(dev: &mut UsbDfuDevice<'_, H>) -> u8 {
    let mut buf = [0u8; 8];
    let reply = dev.handle_control_in(DfuRequest::GetState, &mut buf).unwrap();
    assert_eq!(reply.len(), 1);
    reply[0]
}

fn status<H: DfuHandler + ?Sized>(dev: &mut UsbDfuDevice<'_, H>) -> Vec<u8> {
    let mut buf = [0u8; 8];
    dev.handle_control_in(DfuRequest::GetStatus, &mut buf).unwrap().to_vec()
}

/// Drives a device in front of `m` into `Download` with `n` bytes accepted.
fn into_download<'a>(m: &'a mut Mock, n: usize) -> UsbDfuDevice<'a, Mock> {
    m.write_complete = true;
    let mut dev = UsbDfuDevice::new(m);
    assert_eq!(dev.handle_control_out(DfuRequest::Dnload, &vec![0xEE; n]), Ok(()));
    assert_eq!(status(&mut dev), vec![0, 250, 0, 0, 5, 0]);
    dev
}

/// Drives a device in front of `m` into `Error`.
fn into_error<'a>(m: &'a mut Mock) -> UsbDfuDevice<'a, Mock> {
    let mut dev = into_download(m, 1);
    assert_eq!(dev.handle_control_out(DfuRequest::Detach, &[]), Err(()));
    assert_eq!(state_byte(&mut dev), 10);
    dev
}

#[test]
fn new_device_is_idle() {
    let mut m = Mock::new();
    let mut dev = UsbDfuDevice::new(&mut m);
    assert_eq!(state_byte(&mut dev), 2);
}

#[test]
fn idle_empty_dnload_stays_idle() {
    let mut m = Mock::new();
    {
        let mut dev = UsbDfuDevice::new(&mut m);
        assert_eq!(dev.handle_control_out(DfuRequest::Dnload, &[]), Ok(()));
        assert_eq!(state_byte(&mut dev), 2);
    }
    assert!(m.writes.is_empty());
    assert_eq!(m.completions, 0);
}

#[test]
fn idle_dnload_writes_once_at_offset_zero() {
    let mut m = Mock::new();
    m.write_complete = false;
    {
        let mut dev = UsbDfuDevice::new(&mut m);
        assert_eq!(dev.handle_control_out(DfuRequest::Dnload, &[1, 2, 3]), Ok(()));
        assert_eq!(state_byte(&mut dev), 4);
    }
    assert_eq!(m.writes, vec![(0usize, vec![1u8, 2, 3])]);
    assert_eq!(m.completions, 0);
}

#[test]
fn first_chunk_leaves_offset_at_its_length() {
    let mut m = Mock::new();
    {
        let mut dev = into_download(&mut m, 3);
        assert_eq!(dev.handle_control_out(DfuRequest::Dnload, &[9]), Ok(()));
    }
    assert_eq!(m.writes[1], (3usize, vec![9u8]));
}

#[test]
fn busy_get_status_while_incomplete_stays_busy() {
    let mut m = Mock::new();
    m.write_complete = false;
    let mut dev = UsbDfuDevice::new(&mut m);
    assert_eq!(dev.handle_control_out(DfuRequest::Dnload, &[1, 2, 3]), Ok(()));
    assert_eq!(status(&mut dev), vec![0, 250, 0, 0, 4, 0]);
    assert_eq!(status(&mut dev), vec![0, 250, 0, 0, 4, 0]);
    assert_eq!(state_byte(&mut dev), 4);
}

#[test]
fn busy_get_status_once_complete_moves_to_download() {
    let mut m = Mock::new();
    m.write_complete = true;
    let mut dev = UsbDfuDevice::new(&mut m);
    assert_eq!(dev.handle_control_out(DfuRequest::Dnload, &[1, 2, 3]), Ok(()));
    assert_eq!(state_byte(&mut dev), 4);
    assert_eq!(status(&mut dev), vec![0, 250, 0, 0, 5, 0]);
    assert_eq!(state_byte(&mut dev), 5);
}

#[test]
fn default_backend_reports_write_complete() {
    let mut p = Plain { writes: 0 };
    {
        let mut dev = UsbDfuDevice::new(&mut p);
        assert_eq!(dev.handle_control_out(DfuRequest::Dnload, &[1]), Ok(()));
        assert_eq!(status(&mut dev), vec![0, 250, 0, 0, 5, 0]);
    }
    assert_eq!(p.writes, 1);
}

#[test]
fn download_abort_returns_to_idle() {
    let mut m = Mock::new();
    {
        let mut dev = into_download(&mut m, 3);
        assert_eq!(dev.handle_control_out(DfuRequest::Abort, &[]), Ok(()));
        assert_eq!(state_byte(&mut dev), 2);
    }
    assert_eq!(m.writes.len(), 1);
    assert_eq!(m.completions, 0);
}

#[test]
fn idle_abort_stays_idle() {
    let mut m = Mock::new();
    let mut dev = UsbDfuDevice::new(&mut m);
    assert_eq!(dev.handle_control_out(DfuRequest::Abort, &[]), Ok(()));
    assert_eq!(state_byte(&mut dev), 2);
}

#[test]
fn error_get_status_reports_unknown_and_stays() {
    let mut m = Mock::new();
    let mut dev = into_error(&mut m);
    assert_eq!(status(&mut dev), vec![0x0E, 250, 0, 0, 10, 0]);
    assert_eq!(status(&mut dev), vec![0x0E, 250, 0, 0, 10, 0]);
    assert_eq!(state_byte(&mut dev), 10);
}

#[test]
fn get_state_reports_projection_in_every_state() {
    let mut m = Mock::new();
    m.write_complete = false;
    {
        let mut dev = UsbDfuDevice::new(&mut m);
        assert_eq!(state_byte(&mut dev), 2);
        assert_eq!(dev.handle_control_out(DfuRequest::Dnload, &[1]), Ok(()));
        assert_eq!(state_byte(&mut dev), 4);
        assert_eq!(state_byte(&mut dev), 4);
    }
    {
        let mut dev = into_download(&mut m, 2);
        assert_eq!(state_byte(&mut dev), 5);
    }
    {
        let mut dev = UsbDfuDevice::new(&mut m);
        let mut buf = [0u8; 4];
        assert!(dev.handle_control_in(DfuRequest::Upload, &mut buf).is_ok());
        assert_eq!(state_byte(&mut dev), 9);
    }
    {
        let mut dev = into_error(&mut m);
        assert_eq!(state_byte(&mut dev), 10);
    }
}

#[test]
fn get_state_leaves_rest_of_buffer() {
    let mut m = Mock::new();
    let mut dev = UsbDfuDevice::new(&mut m);
    let mut buf = [0xAAu8; 4];
    assert_eq!(dev.handle_control_in(DfuRequest::GetState, &mut buf), Ok(&[2u8][..]));
    assert_eq!(buf, [2, 0xAA, 0xAA, 0xAA]);
}

#[test]
fn get_status_leaves_rest_of_buffer() {
    let mut m = Mock::new();
    let mut dev = UsbDfuDevice::new(&mut m);
    let mut buf = [0xAAu8; 8];
    assert_eq!(
        dev.handle_control_in(DfuRequest::GetStatus, &mut buf),
        Ok(&[0u8, 250, 0, 0, 2, 0][..])
    );
    assert_eq!(buf, [0, 250, 0, 0, 2, 0, 0xAA, 0xAA]);
}

#[test]
fn get_status_carries_the_poll_timeout_little_endian() {
    assert_eq!(POLL_TIMEOUT_MS, 250);
    let mut m = Mock::new();
    let mut dev = UsbDfuDevice::new(&mut m);
    let report = status(&mut dev);
    let timeout = report[1] as u32 | (report[2] as u32) << 8 | (report[3] as u32) << 16;
    assert_eq!(timeout, POLL_TIMEOUT_MS);
    assert_eq!(report[5], 0);
}

#[test]
fn get_status_fits_a_six_byte_buffer() {
    let mut m = Mock::new();
    let mut dev = UsbDfuDevice::new(&mut m);
    let mut buf = [0u8; 6];
    assert_eq!(
        dev.handle_control_in(DfuRequest::GetStatus, &mut buf),
        Ok(&[0u8, 250, 0, 0, 2, 0][..])
    );
}

#[test]
fn idle_rejects_other_out_requests() {
    let others = [
        DfuRequest::Detach,
        DfuRequest::Upload,
        DfuRequest::GetStatus,
        DfuRequest::ClrStatus,
        DfuRequest::GetState,
    ];
    let mut m = Mock::new();
    {
        let mut dev = UsbDfuDevice::new(&mut m);
        for req in others {
            assert_eq!(dev.handle_control_out(req, &[1, 2]), Err(()));
            assert_eq!(state_byte(&mut dev), 2);
        }
    }
    assert!(m.writes.is_empty());
    assert_eq!(m.completions, 0);
}

#[test]
fn download_rejects_other_out_requests_into_error() {
    let others = [
        DfuRequest::Detach,
        DfuRequest::Upload,
        DfuRequest::GetStatus,
        DfuRequest::ClrStatus,
        DfuRequest::GetState,
    ];
    for req in others {
        let mut m = Mock::new();
        {
            let mut dev = into_download(&mut m, 2);
            assert_eq!(dev.handle_control_out(req, &[1]), Err(()));
            assert_eq!(state_byte(&mut dev), 10);
        }
        assert_eq!(m.writes.len(), 1);
    }
}

#[test]
fn busy_rejects_every_out_request_unchanged() {
    let all = [
        DfuRequest::Detach,
        DfuRequest::Dnload,
        DfuRequest::Upload,
        DfuRequest::GetStatus,
        DfuRequest::ClrStatus,
        DfuRequest::GetState,
        DfuRequest::Abort,
    ];
    let mut m = Mock::new();
    m.write_complete = false;
    {
        let mut dev = UsbDfuDevice::new(&mut m);
        assert_eq!(dev.handle_control_out(DfuRequest::Dnload, &[1, 2, 3]), Ok(()));
        for req in all {
            assert_eq!(dev.handle_control_out(req, &[4]), Err(()));
            assert_eq!(state_byte(&mut dev), 4);
        }
    }
    assert_eq!(m.writes, vec![(0usize, vec![1u8, 2, 3])]);
}

#[test]
fn error_rejects_every_out_request_unchanged() {
    let all = [
        DfuRequest::Detach,
        DfuRequest::Dnload,
        DfuRequest::Upload,
        DfuRequest::GetStatus,
        DfuRequest::ClrStatus,
        DfuRequest::GetState,
        DfuRequest::Abort,
    ];
    let mut m = Mock::new();
    let mut dev = into_error(&mut m);
    for req in all {
        assert_eq!(dev.handle_control_out(req, &[4]), Err(()));
        assert_eq!(state_byte(&mut dev), 10);
    }
}

#[test]
fn upload_session_rejects_every_out_request_unchanged() {
    let all = [
        DfuRequest::Detach,
        DfuRequest::Dnload,
        DfuRequest::Upload,
        DfuRequest::GetStatus,
        DfuRequest::ClrStatus,
        DfuRequest::GetState,
        DfuRequest::Abort,
    ];
    let mut m = Mock::new();
    {
        let mut dev = UsbDfuDevice::new(&mut m);
        let mut buf = [0u8; 4];
        assert!(dev.handle_control_in(DfuRequest::Upload, &mut buf).is_ok());
        for req in all {
            assert_eq!(dev.handle_control_out(req, &[4]), Err(()));
            assert_eq!(state_byte(&mut dev), 9);
        }
    }
    assert!(m.writes.is_empty());
}

#[test]
fn chunk_offsets_are_the_sums_of_earlier_lengths() {
    let chunks: [&[u8]; 4] = [&[1, 2, 3], &[4, 5, 6, 7, 8], &[9], &[10, 11]];
    let mut m = Mock::new();
    {
        let mut dev = UsbDfuDevice::new(&mut m);
        for chunk in chunks {
            assert_eq!(dev.handle_control_out(DfuRequest::Dnload, chunk), Ok(()));
            assert_eq!(status(&mut dev)[4], 5);
        }
    }
    assert_eq!(
        m.writes,
        vec![
            (0usize, vec![1u8, 2, 3]),
            (3, vec![4, 5, 6, 7, 8]),
            (8, vec![9]),
            (9, vec![10, 11]),
        ]
    );
}

#[test]
fn rejected_chunk_does_not_count() {
    let mut m = Mock::new();
    m.write_complete = false;
    {
        let mut dev = UsbDfuDevice::new(&mut m);
        assert_eq!(dev.handle_control_out(DfuRequest::Dnload, &[1, 2, 3]), Ok(()));
        assert_eq!(dev.handle_control_out(DfuRequest::Dnload, &[4, 5]), Err(()));
    }
    m.write_complete = true;
    assert_eq!(m.writes, vec![(0usize, vec![1u8, 2, 3])]);
}

#[test]
fn offset_starts_again_at_zero_after_abort() {
    let mut m = Mock::new();
    {
        let mut dev = into_download(&mut m, 5);
        assert_eq!(dev.handle_control_out(DfuRequest::Abort, &[]), Ok(()));
        assert_eq!(dev.handle_control_out(DfuRequest::Dnload, &[7, 7]), Ok(()));
    }
    assert_eq!(m.writes[1], (0usize, vec![7u8, 7]));
}

#[test]
fn empty_chunk_ends_session_and_finalizes() {
    let mut m = Mock::new();
    {
        let mut dev = into_download(&mut m, 4);
        assert_eq!(dev.handle_control_out(DfuRequest::Dnload, &[]), Ok(()));
        assert_eq!(state_byte(&mut dev), 2);
    }
    assert_eq!(m.writes.len(), 1);
    assert_eq!(m.completions, 1);
}

#[test]
fn clr_status_clears_error_to_idle() {
    let mut m = Mock::new();
    let mut dev = into_error(&mut m);
    let mut buf = [0x55u8; 4];
    assert_eq!(dev.handle_control_in(DfuRequest::ClrStatus, &mut buf), Ok(&[][..]));
    assert_eq!(buf, [0x55; 4]);
    assert_eq!(state_byte(&mut dev), 2);
    assert_eq!(status(&mut dev), vec![0, 250, 0, 0, 2, 0]);
}

#[test]
fn clr_status_elsewhere_changes_nothing() {
    let mut m = Mock::new();
    {
        let mut dev = UsbDfuDevice::new(&mut m);
        let mut buf = [0u8; 4];
        assert_eq!(dev.handle_control_in(DfuRequest::ClrStatus, &mut buf), Ok(&[][..]));
        assert_eq!(state_byte(&mut dev), 2);
    }
    {
        let mut dev = into_download(&mut m, 3);
        let mut buf = [0u8; 4];
        assert_eq!(dev.handle_control_in(DfuRequest::ClrStatus, &mut buf), Ok(&[][..]));
        assert_eq!(state_byte(&mut dev), 5);
    }
}

#[test]
fn detach_in_is_acknowledged_without_change() {
    let mut m = Mock::new();
    let mut dev = into_download(&mut m, 3);
    let mut buf = [0x55u8; 4];
    assert_eq!(dev.handle_control_in(DfuRequest::Detach, &mut buf), Ok(&[][..]));
    assert_eq!(buf, [0x55; 4]);
    assert_eq!(state_byte(&mut dev), 5);
}

#[test]
fn dnload_and_abort_fail_on_control_in() {
    let mut m = Mock::new();
    {
        let mut dev = UsbDfuDevice::new(&mut m);
        let mut buf = [0x55u8; 4];
        assert_eq!(dev.handle_control_in(DfuRequest::Dnload, &mut buf), Err(()));
        assert_eq!(dev.handle_control_in(DfuRequest::Abort, &mut buf), Err(()));
        assert_eq!(buf, [0x55; 4]);
        assert_eq!(state_byte(&mut dev), 2);
    }
    {
        let mut dev = into_download(&mut m, 3);
        let mut buf = [0u8; 4];
        assert_eq!(dev.handle_control_in(DfuRequest::Abort, &mut buf), Err(()));
        assert_eq!(state_byte(&mut dev), 10);
    }
    assert_eq!(m.writes.len(), 1);
}

#[test]
fn upload_from_idle_opens_session_and_sends_nothing() {
    let mut m = Mock::new();
    m.image = vec![1, 2, 3];
    let mut dev = UsbDfuDevice::new(&mut m);
    let mut buf = [0x55u8; 4];
    assert_eq!(dev.handle_control_in(DfuRequest::Upload, &mut buf), Ok(&[][..]));
    assert_eq!(buf, [0x55; 4]);
    assert_eq!(state_byte(&mut dev), 9);
}

#[test]
fn upload_reads_on_until_a_short_read() {
    let mut m = Mock::new();
    m.image = (1..=10).collect();
    let mut dev = UsbDfuDevice::new(&mut m);
    let mut buf = [0u8; 4];
    assert_eq!(dev.handle_control_in(DfuRequest::Upload, &mut buf), Ok(&[][..]));
    assert_eq!(dev.handle_control_in(DfuRequest::Upload, &mut buf), Ok(&[1u8, 2, 3, 4][..]));
    assert_eq!(state_byte(&mut dev), 9);
    assert_eq!(dev.handle_control_in(DfuRequest::Upload, &mut buf), Ok(&[5u8, 6, 7, 8][..]));
    assert_eq!(state_byte(&mut dev), 9);
    assert_eq!(dev.handle_control_in(DfuRequest::Upload, &mut buf), Ok(&[9u8, 10][..]));
    assert_eq!(state_byte(&mut dev), 2);
}

#[test]
fn upload_empty_read_ends_session() {
    let mut m = Mock::new();
    m.image = vec![1, 2, 3, 4];
    let mut dev = UsbDfuDevice::new(&mut m);
    let mut buf = [0u8; 4];
    assert_eq!(dev.handle_control_in(DfuRequest::Upload, &mut buf), Ok(&[][..]));
    assert_eq!(dev.handle_control_in(DfuRequest::Upload, &mut buf), Ok(&[1u8, 2, 3, 4][..]));
    assert_eq!(state_byte(&mut dev), 9);
    assert_eq!(dev.handle_control_in(DfuRequest::Upload, &mut buf), Ok(&[][..]));
    assert_eq!(state_byte(&mut dev), 2);
}

#[test]
fn upload_count_beyond_buffer_is_error() {
    let mut m = Mock::new();
    m.overlong = true;
    let mut dev = UsbDfuDevice::new(&mut m);
    let mut buf = [0u8; 4];
    assert_eq!(dev.handle_control_in(DfuRequest::Upload, &mut buf), Ok(&[][..]));
    assert_eq!(dev.handle_control_in(DfuRequest::Upload, &mut buf), Err(()));
    assert_eq!(state_byte(&mut dev), 10);
}

#[test]
fn upload_outside_session_is_a_violation() {
    let mut m = Mock::new();
    m.write_complete = false;
    {
        let mut dev = UsbDfuDevice::new(&mut m);
        assert_eq!(dev.handle_control_out(DfuRequest::Dnload, &[1]), Ok(()));
        let mut buf = [0u8; 4];
        assert_eq!(dev.handle_control_in(DfuRequest::Upload, &mut buf), Err(()));
        assert_eq!(state_byte(&mut dev), 4);
    }
    {
        let mut dev = into_download(&mut m, 2);
        let mut buf = [0u8; 4];
        assert_eq!(dev.handle_control_in(DfuRequest::Upload, &mut buf), Err(()));
        assert_eq!(state_byte(&mut dev), 10);
        assert_eq!(dev.handle_control_in(DfuRequest::Upload, &mut buf), Err(()));
        assert_eq!(state_byte(&mut dev), 10);
    }
}

#[test]
fn device_works_through_a_trait_object() {
    let mut m = Mock::new();
    {
        let handler: &mut dyn DfuHandler = &mut m;
        let mut dev = UsbDfuDevice::new(handler);
        assert_eq!(dev.handle_control_out(DfuRequest::Dnload, &[1, 2, 3]), Ok(()));
        assert_eq!(status(&mut dev), vec![0, 250, 0, 0, 5, 0]);
        assert_eq!(dev.handle_control_out(DfuRequest::Dnload, &[4]), Ok(()));
    }
    assert_eq!(m.writes, vec![(0usize, vec![1u8, 2, 3]), (3, vec![4])]);
}
