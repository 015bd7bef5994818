use std::cell::RefCell;
use std::rc::Rc;

use mxaz3166_board::bus::{BusError, NoAcknowledgeSource, Operation, PhysicalBus};
use mxaz3166_board::shared_bus::{I2CProxy, SharedBusCell};

/// What the fake bus saw on the wire.
#[derive(Clone, Debug, PartialEq, Eq)]
enum Wire {
    Start(u8),
    Read(usize),
    Write(Vec<u8>),
    Stop(u8),
}

/// A physical bus that answers from a table, records what it is asked to do and
/// checks that it is never asked for two transactions at once.
struct FakeBus {
    wire: Rc<RefCell<Vec<Wire>>>,
    in_flight: Rc<RefCell<bool>>,
    failing: Vec<(u8, BusError)>,
    fill: u8,
    interrupt: Option<Box<dyn FnMut()>>,
}

impl FakeBus {
    fn new(wire: &Rc<RefCell<Vec<Wire>>>) -> FakeBus {
        FakeBus {
            wire: wire.clone(),
            in_flight: Rc::new(RefCell::new(false)),
            failing: Vec::new(),
            fill: 0xA5,
            interrupt: None,
        }
    }
}

impl PhysicalBus for FakeBus {
    fn transaction(&mut self, address: u8, operations: &mut Vec<Operation>) -> Result<(), BusError> {
        assert!(!*self.in_flight.borrow(), "two transactions in flight");
        *self.in_flight.borrow_mut() = true;
        self.wire.borrow_mut().push(Wire::Start(address));
        let mut outcome = Ok(());
        for &(failing, error) in &self.failing {
            if failing == address {
                outcome = Err(error);
            }
        }
        if outcome.is_ok() {
            for operation in operations.iter_mut() {
                if let Some(interrupt) = self.interrupt.as_mut() {
                    interrupt();
                }
                match operation {
                    Operation::Read(buffer) => {
                        for byte in buffer.iter_mut() {
                            *byte = self.fill;
                        }
                        self.wire.borrow_mut().push(Wire::Read(buffer.len()));
                    }
                    Operation::Write(bytes) => {
                        self.wire.borrow_mut().push(Wire::Write(bytes.clone()));
                    }
                }
            }
        }
        self.wire.borrow_mut().push(Wire::Stop(address));
        *self.in_flight.borrow_mut() = false;
        outcome
    }
}

fn new_wire() -> Rc<RefCell<Vec<Wire>>> {
    Rc::new(RefCell::new(Vec::new()))
}

#[test]
fn fresh_cell_is_released_and_has_no_proxies() {
    let wire = new_wire();
    let cell = SharedBusCell::new(FakeBus::new(&wire));
    assert!(cell.is_released());
    assert_eq!(cell.minted(), 0);
    assert!(wire.borrow().is_empty());
}

#[test]
fn minted_proxies_have_distinct_identities() {
    let wire = new_wire();
    let mut cell = SharedBusCell::new(FakeBus::new(&wire));
    let first = cell.mint();
    let second = cell.mint();
    let third = cell.mint();
    assert_eq!(first.id(), 0);
    assert_eq!(second.id(), 1);
    assert_eq!(third.id(), 2);
    assert_eq!(cell.minted(), 3);
    assert!(cell.is_released());
}

#[test]
fn transaction_reaches_the_bus_and_releases_the_cell() {
    let wire = new_wire();
    let mut cell = SharedBusCell::new(FakeBus::new(&wire));
    let mut proxy = cell.mint();
    let mut operations = vec![Operation::Write(vec![0x20, 0x81]), Operation::Read(vec![0; 2])];
    let result = proxy.transaction(&mut cell, 0x5F, &mut operations);
    assert_eq!(result, Ok(()));
    assert!(cell.is_released());
    assert_eq!(
        *wire.borrow(),
        vec![Wire::Start(0x5F), Wire::Write(vec![0x20, 0x81]), Wire::Read(2), Wire::Stop(0x5F)]
    );
    match &operations[1] {
        Operation::Read(buffer) => assert_eq!(buffer, &vec![0xA5, 0xA5]),
        Operation::Write(_) => panic!("the second operation is a read"),
    }
}

#[test]
fn bus_error_passes_through_the_proxy_unchanged() {
    let wire = new_wire();
    let mut bus = FakeBus::new(&wire);
    bus.failing.push((0x5C, BusError::NoAcknowledge(NoAcknowledgeSource::Address)));
    let mut cell = SharedBusCell::new(bus);
    let mut sensor = cell.mint();
    let mut display = cell.mint();

    let mut read = vec![Operation::Read(vec![0; 1])];
    let failed = sensor.transaction(&mut cell, 0x5C, &mut read);
    assert_eq!(failed, Err(BusError::NoAcknowledge(NoAcknowledgeSource::Address)));
    assert!(cell.is_released());

    let mut write = vec![Operation::Write(vec![0x00, 0xAF])];
    let passed = display.transaction(&mut cell, 0x3C, &mut write);
    assert_eq!(passed, Ok(()));
    assert!(cell.is_released());
}

#[test]
fn every_bus_error_is_surfaced_as_it_is() {
    let errors = [
        BusError::Overrun,
        BusError::NoAcknowledge(NoAcknowledgeSource::Address),
        BusError::NoAcknowledge(NoAcknowledgeSource::Data),
        BusError::NoAcknowledge(NoAcknowledgeSource::Unknown),
        BusError::Timeout,
        BusError::Bus,
        BusError::Crc,
        BusError::ArbitrationLoss,
    ];
    for error in errors {
        let wire = new_wire();
        let mut bus = FakeBus::new(&wire);
        bus.failing.push((0x5C, error));
        let mut cell = SharedBusCell::new(bus);
        let mut proxy = cell.mint();
        let mut operations = vec![Operation::Write(vec![1])];
        assert_eq!(proxy.transaction(&mut cell, 0x5C, &mut operations), Err(error));
        assert!(cell.is_released());
        assert_eq!(proxy.transaction(&mut cell, 0x3C, &mut operations), Ok(()));
    }
}

#[test]
fn failed_transaction_is_not_retried() {
    let wire = new_wire();
    let mut bus = FakeBus::new(&wire);
    bus.failing.push((0x5C, BusError::Timeout));
    let mut cell = SharedBusCell::new(bus);
    let mut proxy = cell.mint();
    let mut operations = vec![Operation::Write(vec![1, 2, 3])];
    assert_eq!(proxy.transaction(&mut cell, 0x5C, &mut operations), Err(BusError::Timeout));
    assert_eq!(*wire.borrow(), vec![Wire::Start(0x5C), Wire::Stop(0x5C)]);
}

#[test]
fn critical_section_admits_one_proxy_at_a_time() {
    let wire = new_wire();
    let mut cell = SharedBusCell::new(FakeBus::new(&wire));
    let first = cell.mint();
    let second = cell.mint();

    assert!(cell.enter(&first));
    assert!(cell.is_held_by(&first));
    assert!(!cell.is_released());

    // The second client is kept out for as long as the first is inside.
    assert!(!cell.enter(&second));
    assert!(!cell.is_held_by(&second));
    let mut intruding = vec![Operation::Write(vec![0xEE])];
    assert_eq!(cell.perform(&second, 0x3C, &mut intruding), None);
    assert_eq!(cell.exit(&second, Ok(())), Ok(()));
    assert!(cell.is_held_by(&first));
    assert!(wire.borrow().is_empty());

    let mut operations = vec![Operation::Write(vec![0x10]), Operation::Write(vec![0x11])];
    assert_eq!(cell.perform(&first, 0x5F, &mut operations), Some(Ok(())));
    assert_eq!(cell.exit(&first, Ok(())), Ok(()));
    assert!(cell.is_released());

    assert!(cell.enter(&second));
    assert_eq!(cell.perform(&second, 0x3C, &mut intruding), Some(Ok(())));
    assert_eq!(cell.exit(&second, Err(BusError::Overrun)), Err(BusError::Overrun));
    assert!(cell.is_released());

    assert_eq!(
        *wire.borrow(),
        vec![
            Wire::Start(0x5F),
            Wire::Write(vec![0x10]),
            Wire::Write(vec![0x11]),
            Wire::Stop(0x5F),
            Wire::Start(0x3C),
            Wire::Write(vec![0xEE]),
            Wire::Stop(0x3C),
        ]
    );
}

#[test]
fn refused_attempts_leave_the_operations_untouched() {
    let wire = new_wire();
    let mut cell = SharedBusCell::new(FakeBus::new(&wire));
    let proxy = cell.mint();
    let mut operations = vec![Operation::Read(vec![7, 7, 7])];
    assert_eq!(cell.perform(&proxy, 0x5F, &mut operations), None);
    match &operations[0] {
        Operation::Read(buffer) => assert_eq!(buffer, &vec![7, 7, 7]),
        Operation::Write(_) => panic!("the operation is a read"),
    }
    assert!(wire.borrow().is_empty());
    assert!(cell.is_released());
}

#[test]
fn exit_settles_with_the_outcome_it_is_given() {
    let wire = new_wire();
    let mut cell = SharedBusCell::new(FakeBus::new(&wire));
    let proxy = cell.mint();
    assert!(cell.enter(&proxy));
    assert_eq!(cell.exit(&proxy, Err(BusError::ArbitrationLoss)), Err(BusError::ArbitrationLoss));
    assert!(cell.is_released());
    assert!(cell.enter(&proxy));
    assert_eq!(cell.exit(&proxy, Ok(())), Ok(()));
    assert!(cell.is_released());
}

/// Runs `calls` through the proxies in the given order and returns what the
/// wire saw.
fn wire_of(order: &[usize]) -> Vec<Wire> {
    let wire = new_wire();
    let mut cell = SharedBusCell::new(FakeBus::new(&wire));
    let mut proxies: Vec<I2CProxy> = vec![cell.mint(), cell.mint(), cell.mint()];
    for &who in order {
        let address = 0x30 + who as u8;
        let mut operations =
            vec![Operation::Write(vec![who as u8, 1]), Operation::Read(vec![0; who + 1])];
        assert_eq!(proxies[who].transaction(&mut cell, address, &mut operations), Ok(()));
        assert!(cell.is_released());
    }
    let seen = wire.borrow().clone();
    seen
}

fn expected_wire(order: &[usize]) -> Vec<Wire> {
    let mut expected = Vec::new();
    for &who in order {
        let address = 0x30 + who as u8;
        expected.push(Wire::Start(address));
        expected.push(Wire::Write(vec![who as u8, 1]));
        expected.push(Wire::Read(who + 1));
        expected.push(Wire::Stop(address));
    }
    expected
}

#[test]
fn interleaved_calls_through_two_proxies_serialize() {
    let orders: [&[usize]; 6] = [
        &[0, 1],
        &[1, 0],
        &[0, 1, 0, 1],
        &[0, 0, 1, 1],
        &[1, 0, 0, 1, 1, 0],
        &[1, 1, 1, 0],
    ];
    for order in orders {
        assert_eq!(wire_of(order), expected_wire(order));
    }
}

#[test]
fn third_proxy_serializes_with_the_other_two() {
    let orders: [&[usize]; 4] = [&[2], &[0, 2, 1], &[2, 1, 0, 2, 2, 0], &[1, 2, 1, 2, 0]];
    for order in orders {
        assert_eq!(wire_of(order), expected_wire(order));
    }
}

#[test]
fn minting_during_a_transaction_does_not_disturb_it() {
    let wire = new_wire();
    let mut cell = SharedBusCell::new(FakeBus::new(&wire));
    let first = cell.mint();
    assert!(cell.enter(&first));
    let late = cell.mint();
    assert_eq!(late.id(), 1);
    assert!(cell.is_held_by(&first));
    assert!(!cell.enter(&late));
    let mut operations = vec![Operation::Write(vec![9])];
    assert_eq!(cell.perform(&first, 0x5F, &mut operations), Some(Ok(())));
    assert_eq!(cell.exit(&first, Ok(())), Ok(()));
    assert!(cell.enter(&late));
}

#[test]
fn interrupt_during_a_transaction_waits_for_its_end() {
    // The cell lives behind the lock of the host. An interrupt that fires in
    // the middle of a transaction finds the lock taken, so its own transaction
    // is put off until the first one is over.
    let wire = new_wire();
    let home: Rc<RefCell<Option<SharedBusCell<FakeBus>>>> = Rc::new(RefCell::new(None));
    let pending: Rc<RefCell<Vec<u8>>> = Rc::new(RefCell::new(Vec::new()));

    let mut bus = FakeBus::new(&wire);
    let seen_by_handler = home.clone();
    let put_off = pending.clone();
    bus.interrupt = Some(Box::new(move || {
        assert!(seen_by_handler.try_borrow_mut().is_err());
        put_off.borrow_mut().push(0x3C);
    }));
    let mut cell = SharedBusCell::new(bus);
    let mut main_client = cell.mint();
    let mut handler_client = cell.mint();
    *home.borrow_mut() = Some(cell);

    let mut operations = vec![Operation::Write(vec![1]), Operation::Read(vec![0; 4])];
    {
        let mut locked = home.borrow_mut();
        let cell = locked.as_mut().unwrap();
        assert_eq!(main_client.transaction(cell, 0x5F, &mut operations), Ok(()));
    }
    assert_eq!(*pending.borrow(), vec![0x3C, 0x3C]);

    let first_only = wire.borrow().clone();
    assert_eq!(
        first_only,
        vec![Wire::Start(0x5F), Wire::Write(vec![1]), Wire::Read(4), Wire::Stop(0x5F)]
    );

    let deferred: Vec<u8> = pending.borrow_mut().drain(..1).collect();
    for address in deferred {
        let mut locked = home.borrow_mut();
        let cell = locked.as_mut().unwrap();
        let mut redraw = vec![Operation::Write(vec![0x40, 0xFF])];
        assert_eq!(handler_client.transaction(cell, address, &mut redraw), Ok(()));
    }
    let all = wire.borrow().clone();
    assert_eq!(all[..4], first_only[..]);
    assert_eq!(all[4], Wire::Start(0x3C));
    assert_eq!(all[5], Wire::Write(vec![0x40, 0xFF]));
    assert_eq!(all[6], Wire::Stop(0x3C));
}

#[test]
fn proxy_is_unchanged_by_its_transactions() {
    let wire = new_wire();
    let mut bus = FakeBus::new(&wire);
    bus.failing.push((0x5C, BusError::Bus));
    let mut cell = SharedBusCell::new(bus);
    let _first = cell.mint();
    let mut proxy = cell.mint();
    let mut operations = vec![Operation::Write(vec![1])];
    assert_eq!(proxy.transaction(&mut cell, 0x5C, &mut operations), Err(BusError::Bus));
    assert_eq!(proxy.id(), 1);
    assert_eq!(proxy.transaction(&mut cell, 0x3C, &mut operations), Ok(()));
    assert_eq!(proxy.id(), 1);
    assert_eq!(cell.minted(), 2);
}

#[test]
fn transaction_is_put_off_while_another_proxy_is_inside() {
    let wire = new_wire();
    let mut cell = SharedBusCell::new(FakeBus::new(&wire));
    let first = cell.mint();
    let mut second = cell.mint();
    let mut operations = vec![Operation::Read(vec![3; 2])];

    assert!(cell.enter(&first));
    assert_eq!(second.try_transaction(&mut cell, 0x3C, &mut operations), None);
    assert_eq!(operations, vec![Operation::Read(vec![3; 2])]);
    assert!(cell.is_held_by(&first));
    assert!(wire.borrow().is_empty());

    assert_eq!(cell.exit(&first, Ok(())), Ok(()));
    assert_eq!(second.try_transaction(&mut cell, 0x3C, &mut operations), Some(Ok(())));
    assert_eq!(operations, vec![Operation::Read(vec![0xA5; 2])]);
    assert!(cell.is_released());
    assert_eq!(*wire.borrow(), vec![Wire::Start(0x3C), Wire::Read(2), Wire::Stop(0x3C)]);
}

#[test]
fn put_off_transaction_reports_the_bus_error_once_it_runs() {
    let wire = new_wire();
    let mut bus = FakeBus::new(&wire);
    bus.failing.push((0x5C, BusError::ArbitrationLoss));
    let mut cell = SharedBusCell::new(bus);
    let mut proxy = cell.mint();
    let mut operations = vec![Operation::Write(vec![1])];
    assert_eq!(
        proxy.try_transaction(&mut cell, 0x5C, &mut operations),
        Some(Err(BusError::ArbitrationLoss))
    );
    assert!(cell.is_released());
}

#[test]
fn long_schedule_of_attempts_keeps_the_wire_serial() {
    let mut seed: u32 = 0x2F6E_2B1D;
    let mut next = move || {
        seed = seed.wrapping_mul(1_664_525).wrapping_add(1_013_904_223);
        (seed >> 16) as usize
    };
    let wire = new_wire();
    let mut cell = SharedBusCell::new(FakeBus::new(&wire));
    let proxies = vec![cell.mint(), cell.mint(), cell.mint()];
    let mut inside: Option<usize> = None;
    let mut expected: Vec<Wire> = Vec::new();
    let mut entries = 0;
    let mut refusals = 0;

    for _ in 0..3000 {
        let who = next() % 3;
        let address = 0x40 + who as u8;
        match next() % 3 {
            0 => {
                let entered = cell.enter(&proxies[who]);
                assert_eq!(entered, inside.is_none());
                if entered {
                    inside = Some(who);
                    entries += 1;
                } else {
                    refusals += 1;
                }
            }
            1 => {
                let mut operations = vec![Operation::Write(vec![who as u8])];
                let outcome = cell.perform(&proxies[who], address, &mut operations);
                if inside == Some(who) {
                    assert_eq!(outcome, Some(Ok(())));
                    expected.push(Wire::Start(address));
                    expected.push(Wire::Write(vec![who as u8]));
                    expected.push(Wire::Stop(address));
                } else {
                    assert_eq!(outcome, None);
                    refusals += 1;
                }
            }
            _ => {
                assert_eq!(cell.exit(&proxies[who], Err(BusError::Bus)), Err(BusError::Bus));
                if inside == Some(who) {
                    inside = None;
                }
            }
        }
        assert_eq!(cell.is_released(), inside.is_none());
        for (index, proxy) in proxies.iter().enumerate() {
            assert_eq!(cell.is_held_by(proxy), inside == Some(index));
        }
    }
    assert!(entries > 100);
    assert!(refusals > 100);
    assert_eq!(*wire.borrow(), expected);
    assert_eq!(cell.minted(), 3);
}
