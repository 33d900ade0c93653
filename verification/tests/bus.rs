use bme280_driver::bus::{BusOp, Outcome, Transfer};
use bme280_driver::{Error, SpiError};

#[test]
fn transfer_runs_every_step_in_order() {
    let ops = vec![
        BusOp::Write { addr: 0x60, val: 0xB6 },
        BusOp::Delay { ms: 10 },
        BusOp::Read { addr: 0xD0, len: 2 },
    ];
    let mut t = Transfer::new(ops);
    assert_eq!(t.next_op(), Some(BusOp::Write { addr: 0x60, val: 0xB6 }));
    t.complete(Outcome::Done);
    assert_eq!(t.next_op(), Some(BusOp::Delay { ms: 10 }));
    t.complete(Outcome::Done);
    assert_eq!(t.next_op(), Some(BusOp::Read { addr: 0xD0, len: 2 }));
    t.complete(Outcome::Data(vec![0x60, 0x01]));
    assert_eq!(t.next_op(), None);
    assert_eq!(t.completed(), 3);
    assert_eq!(t.result(), Ok(()));
    assert_eq!(t.data_at(2), &vec![0x60, 0x01]);
    assert!(t.data_at(0).is_empty());
}

#[test]
fn transfer_stops_at_failed_write() {
    let ops = vec![BusOp::Write { addr: 0x72, val: 1 }, BusOp::Write { addr: 0x75, val: 0 }];
    let mut t = Transfer::new(ops);
    t.complete(Outcome::Failed);
    assert_eq!(t.next_op(), None);
    assert_eq!(t.completed(), 0);
    assert_eq!(t.result(), Err(Error::Spi(SpiError::Write)));
}

#[test]
fn transfer_stops_at_failed_read() {
    let ops = vec![
        BusOp::Write { addr: 0x72, val: 1 },
        BusOp::Read { addr: 0xF7, len: 8 },
        BusOp::Write { addr: 0x74, val: 0x24 },
    ];
    let mut t = Transfer::new(ops);
    t.complete(Outcome::Done);
    t.complete(Outcome::Failed);
    assert_eq!(t.next_op(), None);
    assert_eq!(t.completed(), 1);
    assert_eq!(t.result(), Err(Error::Spi(SpiError::Read)));
}

#[test]
fn empty_transfer_succeeds_at_once() {
    let t = Transfer::new(Vec::new());
    assert_eq!(t.next_op(), None);
    assert_eq!(t.result(), Ok(()));
}

#[test]
fn failure_errors_name_the_direction() {
    assert_eq!(BusOp::Read { addr: 0x80, len: 1 }.failure_error(), Error::Spi(SpiError::Read));
    assert_eq!(BusOp::Write { addr: 0x00, val: 1 }.failure_error(), Error::Spi(SpiError::Write));
}
