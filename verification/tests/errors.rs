use cores3::error::{Error, ErrorKind};
use cores3::firmware::error::{Error as FwError, Error_};
use cores3::imu::{Imu, Vector3};
use cores3::print::{Printer, Uart, UartOp};

#[test]
fn error_kinds_display() {
    assert_eq!(ErrorKind::NotInitialized.to_string(), "Not initialized");
    assert_eq!(ErrorKind::Timeout.to_string(), "Timeout");
    assert_eq!(ErrorKind::InvalidArgument.to_string(), "Invalid argument");
    assert_eq!(ErrorKind::Allocation("out of memory".to_string()).to_string(), "out of memory");
    assert_eq!(ErrorKind::I2cConfig("bad frequency".to_string()).to_string(), "bad frequency");
    assert_eq!(ErrorKind::Hal("Timeout".to_string()).to_string(), "Timeout");
}

#[test]
fn error_context_is_displayed_in_parentheses() {
    let e = Error::from(ErrorKind::Timeout);
    assert_eq!(e.to_string(), "Timeout");
    let e = e.with_context("camera");
    assert_eq!(e.to_string(), "Timeout (camera)");
    assert_eq!(*e.kind(), ErrorKind::Timeout);
    let e = e.with_context("again");
    assert_eq!(e.to_string(), "Timeout (again)");
    let e = Error::hal("AckCheckFailed".to_string()).with_context("touch");
    assert_eq!(e.to_string(), "AckCheckFailed (touch)");
    assert_eq!(*Error::allocation("full".to_string()).kind(), ErrorKind::Allocation("full".to_string()));
    assert_eq!(*Error::i2c_config("cfg".to_string()).kind(), ErrorKind::I2cConfig("cfg".to_string()));
    let converted: Error = ErrorKind::InvalidArgument.into();
    assert_eq!(*converted.kind(), ErrorKind::InvalidArgument);
}

#[test]
fn firmware_errors_retry_only_when_locked() {
    let e: Error_ = FwError::Locked.into();
    assert!(e.should_retry());
    assert_eq!(e.to_string(), "Locked");
    let e = FwError::NotInitialized.with_context("imu");
    assert!(!e.should_retry());
    assert_eq!(e.to_string(), "Not initialized (imu)");
    let e = FwError::Locked.with_context("bus").with_context("rtc");
    assert!(e.should_retry());
    assert_eq!(e.to_string(), "Locked (rtc)");
    let e = Error_::from(FwError::hal("Nack".to_string()));
    assert!(!e.should_retry());
    assert_eq!(e.to_string(), "Nack");
    assert_eq!(FwError::AllocationError("oom".to_string()).to_string(), "oom");
    assert_eq!(FwError::I2cConfig("cfg".to_string()).to_string(), "cfg");
}

#[test]
fn printer_flushes_after_every_chunk() {
    let bytes: Vec<u8> = (0..70u8).collect();
    let ops = Printer.write_bytes(&bytes);
    assert_eq!(ops.len(), 73);
    assert_eq!(ops[Uart::CHUNK_SIZE], UartOp::Flush);
    assert_eq!(ops[2 * Uart::CHUNK_SIZE + 1], UartOp::Flush);
    assert_eq!(ops[72], UartOp::Flush);
    let sent: Vec<u8> = ops
        .iter()
        .filter_map(|op| match op {
            UartOp::Tx(b) => Some(*b),
            UartOp::Flush => None,
        })
        .collect();
    assert_eq!(sent, bytes);
    assert!(Printer.write_bytes(&[]).is_empty());
    assert_eq!(Printer.write_bytes(b"hi"), vec![UartOp::Tx(b'h'), UartOp::Tx(b'i'), UartOp::Flush]);
}

#[test]
fn imu_reading_holds_three_vectors() {
    let v = Vector3 { x: 1, y: -2, z: 3 };
    let imu = Imu { accel: v, gyro: v, mag: Vector3 { x: 0, y: 0, z: 0 } };
    assert_eq!(imu.accel.y, -2);
    assert_eq!(imu.mag, Vector3 { x: 0, y: 0, z: 0 });
}
