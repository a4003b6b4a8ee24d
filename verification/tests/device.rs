use std::io::Read;

use escposify::device::{DeviceError, File};
use escposify::usb::find_device;

/// A writer that accepts at most one byte per call: exercises the re-driving
/// of short writes.
struct TrickleWriter {
    data: Vec<u8>,
}

impl std::io::Write for TrickleWriter {
    fn write(&mut self, buf: &[u8]) -> std::io::Result<usize> {
        if buf.is_empty() {
            Ok(0)
        } else {
            self.data.push(buf[0]);
            Ok(1)
        }
    }

    fn flush(&mut self) -> std::io::Result<()> {
        Ok(())
    }
}

/// A writer whose every operation fails.
struct BrokenWriter {}

impl std::io::Write for BrokenWriter {
    fn write(&mut self, _buf: &[u8]) -> std::io::Result<usize> {
        Err(std::io::Error::new(std::io::ErrorKind::Other, "broken"))
    }

    fn flush(&mut self) -> std::io::Result<()> {
        Err(std::io::Error::new(std::io::ErrorKind::Other, "broken"))
    }
}

/// A writer that accepts nothing while claiming success.
struct FullWriter {}

impl std::io::Write for FullWriter {
    fn write(&mut self, _buf: &[u8]) -> std::io::Result<usize> {
        Ok(0)
    }

    fn flush(&mut self) -> std::io::Result<()> {
        Ok(())
    }
}

#[test]
fn generic_writer_sink_appends_in_order() {
    let mut sink = File::from(Vec::new());
    assert_eq!(sink.write(&[1, 2, 3]), Ok(3));
    assert_eq!(sink.write(&[4, 5]), Ok(2));
    assert_eq!(sink.into_inner(), vec![1, 2, 3, 4, 5]);
}

#[test]
fn generic_writer_sink_empty_buffer() {
    let mut sink = File::from(Vec::new());
    assert_eq!(sink.write(&[]), Ok(0));
    assert_eq!(sink.into_inner(), Vec::<u8>::new());
}

#[test]
fn write_is_all_or_nothing_over_short_writes() {
    let mut sink = File::from(TrickleWriter { data: Vec::new() });
    assert_eq!(sink.write(&[9, 8, 7, 6]), Ok(4));
    assert_eq!(sink.into_inner().data, vec![9, 8, 7, 6]);
}

#[test]
fn write_error_surfaces_as_io() {
    let mut sink = File::from(BrokenWriter {});
    assert_eq!(sink.write(&[1]), Err(DeviceError::Io));
}

#[test]
fn flush_error_surfaces_as_io() {
    let mut sink = File::from(BrokenWriter {});
    assert_eq!(sink.flush(), Err(DeviceError::Io));
}

#[test]
fn writer_that_accepts_nothing_is_an_error() {
    let mut sink = File::from(FullWriter {});
    assert_eq!(sink.write(&[1, 2]), Err(DeviceError::Io));
}

#[test]
fn flush_of_healthy_buffer_succeeds() {
    let mut sink = File::from(Vec::new());
    assert_eq!(sink.write(&[1]), Ok(1));
    assert_eq!(sink.flush(), Ok(()));
}

#[test]
fn file_write_reads_back() {
    let tempf = tempfile::NamedTempFile::new().unwrap();
    let fobj = tempf.reopen().unwrap();
    let mut sink = File::from(fobj);
    assert_eq!(sink.write(b"hello"), Ok(5));
    assert_eq!(sink.flush(), Ok(()));
    let mut back = Vec::new();
    tempf.reopen().unwrap().read_to_end(&mut back).unwrap();
    assert_eq!(back, b"hello");
}

#[test]
fn find_device_picks_first_match() {
    let ids = vec![(1u16, 2u16), (3u16, 4u16), (3u16, 4u16)];
    assert_eq!(find_device(&ids, 3, 4), Some(1));
}

#[test]
fn find_device_misses_cleanly() {
    let ids = vec![(1u16, 2u16), (3u16, 4u16)];
    assert_eq!(find_device(&ids, 5, 6), None);
    assert_eq!(find_device(&Vec::new(), 1, 2), None);
}

#[test]
fn usb_sink_without_matching_device_fails() {
    // No enumerated device carries this unassigned vendor/product pair, so
    // construction yields no usable adapter: `NotFound` where the platform
    // lets the process enumerate, the enumeration's own error where it does
    // not (as on hosts with no USB stack at all).
    let r = escposify::device::Usb::new(
        0xfff0,
        0xfffe,
        0,
        0x81,
        0x01,
        std::time::Duration::from_secs(1),
    );
    assert!(matches!(
        r.err(),
        Some(DeviceError::NotFound) | Some(DeviceError::Io) | Some(DeviceError::Access)
    ));
}
