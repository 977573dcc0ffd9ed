use ft60x::device::{
    conclude_failed_transfer, transfer_outcome, Device, PipeRequest, StreamAction,
    TransferOutcome, OPEN_BY_SERIAL_NUMBER,
};
use ft60x::error::D3xxError;
use ft60x::info::{DeviceInfo, DeviceRecord};
use ft60x::pipe::Pipe;

fn record_with_serial(serial: &[u8], handle: u64) -> DeviceRecord {
    let mut serial_buf = [0u8; 16];
    serial_buf[..serial.len()].copy_from_slice(serial);
    DeviceRecord {
        flags: 0,
        device_type: 0,
        id: 0,
        loc_id: 0,
        serial_number: serial_buf,
        description: [0u8; 32],
        handle,
    }
}

const IN_PIPES: [Pipe; 4] = [Pipe::In0, Pipe::In1, Pipe::In2, Pipe::In3];
const OUT_PIPES: [Pipe; 4] = [Pipe::Out0, Pipe::Out1, Pipe::Out2, Pipe::Out3];

#[test]
fn write_rejects_every_input_pipe() {
    let d = Device::from_handle(0x10);
    for p in IN_PIPES {
        assert_eq!(d.write_request(p), Err(D3xxError::InvalidParameter));
    }
}

#[test]
fn read_rejects_every_output_pipe() {
    let d = Device::from_handle(0x10);
    for p in OUT_PIPES {
        assert_eq!(d.read_request(p), Err(D3xxError::InvalidParameter));
    }
}

#[test]
fn matching_directions_produce_requests() {
    let d = Device::from_handle(0x10);
    for p in OUT_PIPES {
        let q = d.write_request(p).unwrap();
        assert_eq!(q, PipeRequest { handle: 0x10, pipe_id: p.id() });
    }
    for p in IN_PIPES {
        let q = d.read_request(p).unwrap();
        assert_eq!(q, PipeRequest { handle: 0x10, pipe_id: p.id() });
    }
}

#[test]
fn flush_rejects_output_pipes() {
    let d = Device::from_handle(0x10);
    for p in OUT_PIPES {
        assert_eq!(d.flush_request(p), Err(D3xxError::InvalidParameter));
    }
    for p in IN_PIPES {
        assert_eq!(
            d.flush_request(p),
            Ok(PipeRequest { handle: 0x10, pipe_id: p.id() })
        );
    }
}

#[test]
fn transfer_failure_cleanup_ordering() {
    // A failed transfer first demands the abort, carrying the original error.
    let out = transfer_outcome(19, 0);
    let original = match out {
        TransferOutcome::AbortThenFail(e) => e,
        TransferOutcome::Completed(_) => panic!("a failed transfer may not complete"),
    };
    assert_eq!(original, D3xxError::Timeout);
    // Whatever the abort reported, the caller observes the original error.
    assert_eq!(
        conclude_failed_transfer(original, Err(D3xxError::InvalidHandle)),
        D3xxError::Timeout
    );
    assert_eq!(conclude_failed_transfer(original, Ok(())), D3xxError::Timeout);
}

#[test]
fn successful_transfer_reports_bytes() {
    assert_eq!(transfer_outcome(0, 4096), TransferOutcome::Completed(4096));
}

#[test]
fn open_request_carries_serial_and_flag() {
    let q = Device::open_with_serial_number("FT123456").unwrap();
    assert_eq!(q.serial, b"FT123456".to_vec());
    assert_eq!(q.flags, OPEN_BY_SERIAL_NUMBER);
}

#[test]
fn open_rejects_interior_nul() {
    assert_eq!(
        Device::open_with_serial_number("FT\0123").unwrap_err(),
        D3xxError::InvalidParameter
    );
}

#[test]
fn open_from_info_decodes_serial() {
    let info = DeviceInfo::new(0, record_with_serial(b"FT777", 0));
    let q = info.open().unwrap();
    assert_eq!(q.serial, b"FT777".to_vec());
    assert_eq!(q.flags, OPEN_BY_SERIAL_NUMBER);
}

#[test]
fn open_from_info_stops_at_first_nul() {
    let info = DeviceInfo::new(0, record_with_serial(&[0x41, 0, 0xFF], 0));
    let q = info.open().unwrap();
    assert_eq!(q.serial, b"A".to_vec());
}

#[test]
fn open_from_info_rejects_invalid_text() {
    let info = DeviceInfo::new(0, record_with_serial(&[0xFF, 0x41], 0));
    assert_eq!(info.open().unwrap_err(), D3xxError::OtherError);
}

#[test]
fn open_outcome_adopts_handle_or_maps_status() {
    let d = Device::open_outcome(0, 0xBEEF).unwrap();
    assert_eq!(d.raw_handle(), 0xBEEF);
    assert_eq!(
        Device::open_outcome(2, 0).unwrap_err(),
        D3xxError::DeviceNotFound
    );
    assert_eq!(
        Device::open_outcome(6, 0).unwrap_err(),
        D3xxError::InvalidParameter
    );
}

#[test]
fn index_finds_first_matching_handle() {
    let devices = vec![
        DeviceInfo::new(0, record_with_serial(b"A", 0)),
        DeviceInfo::new(1, record_with_serial(b"B", 7)),
        DeviceInfo::new(2, record_with_serial(b"C", 9)),
    ];
    let d = Device::from_handle(9);
    assert_eq!(d.index(&devices), Ok(2));
    let d = Device::from_handle(7);
    assert_eq!(d.index(&devices), Ok(1));
}

#[test]
fn index_fails_when_absent() {
    let devices = vec![
        DeviceInfo::new(0, record_with_serial(b"A", 0)),
        DeviceInfo::new(1, record_with_serial(b"B", 7)),
    ];
    let d = Device::from_handle(8);
    assert_eq!(d.index(&devices), Err(D3xxError::DeviceNotFound));
    assert_eq!(d.index(&Vec::new()), Err(D3xxError::DeviceNotFound));
}

#[test]
fn stream_size_selects_exclusive_call() {
    let d = Device::from_handle(0x20);
    assert_eq!(
        d.set_stream_size(Pipe::In2, Some(1024)),
        StreamAction::Configure { handle: 0x20, pipe_id: 0x84, size: 1024 }
    );
    assert_eq!(
        d.set_stream_size(Pipe::In2, None),
        StreamAction::Clear { handle: 0x20, pipe_id: 0x84 }
    );
}

#[test]
fn timeout_requests_carry_fields() {
    let d = Device::from_handle(0x30);
    let set = d.set_timeout_request(Pipe::Out1, 5000);
    assert_eq!((set.handle, set.pipe_id, set.millis), (0x30, 0x03, 5000));
    let get = d.get_timeout_request(Pipe::Out1);
    assert_eq!(get, PipeRequest { handle: 0x30, pipe_id: 0x03 });
}

#[test]
fn abort_accepts_every_pipe() {
    let d = Device::from_handle(0x40);
    for p in IN_PIPES.iter().chain(OUT_PIPES.iter()) {
        let q = d.abort_transfers(*p);
        assert_eq!(q, PipeRequest { handle: 0x40, pipe_id: p.id() });
    }
}

#[test]
fn pipe_info_is_unsupported() {
    let d = Device::from_handle(0x50);
    assert_eq!(d.pipe_info(Pipe::In0).unwrap_err(), D3xxError::NotSupported);
}

#[test]
fn power_cycle_consumes_session() {
    let d = Device::from_handle(0x60);
    assert_eq!(d.power_cycle_port(), 0x60);
}
