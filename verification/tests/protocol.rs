use esp_c3_nostd_examples::bme280::{Bme280, Error, Reading};
use esp_c3_nostd_examples::calibration::CalibData;
use esp_c3_nostd_examples::protocol::{Command, InitStep, ReadStep, Reply, MAX_READ_LEN};

const TP: [u8; 24] = [
    0x70, 0x6b, 0x43, 0x67, 0x18, 0xfc, 0x7d, 0x8e, 0x43, 0xd6, 0xd0, 0x0b, 0x27, 0x0b, 0x8c, 0x00,
    0xf9, 0xff, 0x8c, 0x3c, 0xf8, 0xc6, 0x70, 0x17,
];
const H: [u8; 7] = [0x6a, 0x01, 0x00, 0x13, 0x29, 0x03, 0x1e];
const DATA: [u8; 8] = [0x65, 0x5a, 0xc0, 0x7e, 0xed, 0x00, 0x75, 0x30];

/// A register file standing in for the sensor on the bus.
struct FakeSensor {
    regs: [u8; 256],
    busy_polls: usize,
    fail_at: Option<usize>,
    transfers: usize,
    log: Vec<Command>,
}

impl FakeSensor {
    fn new() -> FakeSensor {
        let mut regs = [0u8; 256];
        regs[0xd0] = 0x60;
        regs[0x88..0x88 + 24].copy_from_slice(&TP);
        regs[0xa1] = 75;
        regs[0xe1..0xe1 + 7].copy_from_slice(&H);
        regs[0xf7..0xf7 + 8].copy_from_slice(&DATA);
        regs[0xf4] = 0xaa;
        FakeSensor { regs, busy_polls: 0, fail_at: None, transfers: 0, log: Vec::new() }
    }

    fn perform(&mut self, cmd: Command) -> Reply<u8> {
        self.log.push(cmd);
        if let Command::Sleep { .. } = cmd {
            return Reply::Done;
        }
        let n = self.transfers;
        self.transfers += 1;
        if self.fail_at == Some(n) {
            return Reply::Bus(0xee);
        }
        match cmd {
            Command::Read { reg, len } => {
                let mut buf = [0u8; MAX_READ_LEN];
                if reg == 0xf3 && self.busy_polls > 0 {
                    self.busy_polls -= 1;
                    buf[0] = 0x08 | 0x01;
                    return Reply::Data(buf);
                }
                let start = reg as usize;
                buf[..len].copy_from_slice(&self.regs[start..start + len]);
                Reply::Data(buf)
            },
            Command::Write { reg, val } => {
                self.regs[reg as usize] = val;
                Reply::Done
            },
            Command::Sleep { .. } => Reply::Done,
        }
    }
}

fn run_init(dev: &mut Bme280<()>, sensor: &mut FakeSensor) -> Result<(), Error<u8>> {
    let mut step = dev.start_init();
    loop {
        match step {
            InitStep::Pending { phase, cmd } => {
                let reply = sensor.perform(cmd);
                step = dev.step_init(phase, reply);
            },
            InitStep::Finished(r) => return r,
        }
    }
}

fn run_read(dev: &Bme280<()>, sensor: &mut FakeSensor) -> Option<Result<Reading, Error<u8>>> {
    let mut step = dev.start_read();
    loop {
        match step {
            ReadStep::Pending { phase, cmd } => {
                let reply = sensor.perform(cmd);
                step = Bme280::<()>::step_read(phase, reply);
            },
            ReadStep::Finished(r) => return Some(r),
            ReadStep::Overflow => return None,
        }
    }
}

fn init_transfers() -> Vec<Command> {
    vec![
        Command::Read { reg: 0xd0, len: 1 },
        Command::Read { reg: 0x88, len: 24 },
        Command::Read { reg: 0xa1, len: 1 },
        Command::Read { reg: 0xe1, len: 7 },
        Command::Write { reg: 0xf5, val: 0x00 },
        Command::Write { reg: 0xf2, val: 0x01 },
        Command::Write { reg: 0xf4, val: 0x00 },
    ]
}

#[test]
fn new_driver_holds_no_calibration() {
    let dev = Bme280::new(());
    assert_eq!(dev.calibration(), None);
}

#[test]
fn init_reads_calibration_and_configures() {
    let mut dev = Bme280::new(());
    let mut sensor = FakeSensor::new();
    assert!(matches!(run_init(&mut dev, &mut sensor), Ok(())));
    assert_eq!(sensor.log, init_transfers());
    assert_eq!(dev.calibration(), Some(CalibData::from_registers(&TP, 75, &H)));
    assert_eq!(sensor.regs[0xf5], 0x00);
    assert_eq!(sensor.regs[0xf2], 0x01);
    assert_eq!(sensor.regs[0xf4], 0x00);
}

#[test]
fn init_rejects_another_chip() {
    let mut dev = Bme280::new(());
    let mut sensor = FakeSensor::new();
    sensor.regs[0xd0] = 0x58;
    assert!(matches!(run_init(&mut dev, &mut sensor), Err(Error::BadChipId(0x58))));
    assert_eq!(sensor.log, vec![Command::Read { reg: 0xd0, len: 1 }]);
    assert_eq!(dev.calibration(), None);
}

#[test]
fn init_stops_at_a_failed_calibration_read() {
    let mut dev = Bme280::new(());
    let mut sensor = FakeSensor::new();
    sensor.fail_at = Some(2);
    assert!(matches!(run_init(&mut dev, &mut sensor), Err(Error::I2c(0xee))));
    assert_eq!(sensor.log.len(), 3);
    assert_eq!(dev.calibration(), None);
}

#[test]
fn init_keeps_calibration_when_a_configuration_write_fails() {
    let mut dev = Bme280::new(());
    let mut sensor = FakeSensor::new();
    sensor.fail_at = Some(5);
    assert!(matches!(run_init(&mut dev, &mut sensor), Err(Error::I2c(0xee))));
    assert_eq!(sensor.log.len(), 6);
    assert!(dev.calibration().is_some());
}

#[test]
fn read_before_init_is_refused_without_bus_traffic() {
    let dev = Bme280::new(());
    let mut sensor = FakeSensor::new();
    assert!(matches!(run_read(&dev, &mut sensor), Some(Err(Error::NotInitialized))));
    assert!(sensor.log.is_empty());
}

#[test]
fn read_triggers_polls_and_compensates() {
    let mut dev = Bme280::new(());
    let mut sensor = FakeSensor::new();
    assert!(run_init(&mut dev, &mut sensor).is_ok());
    sensor.log.clear();
    sensor.busy_polls = 2;
    let r = run_read(&dev, &mut sensor);
    assert!(matches!(
        r,
        Some(Ok(Reading { temperature_cdeg: 2508, pressure_pa: 100653, humidity_pct: 5499 }))
    ));
    assert_eq!(
        sensor.log,
        vec![
            Command::Write { reg: 0xf4, val: 0x25 },
            Command::Read { reg: 0xf3, len: 1 },
            Command::Sleep { ms: 10 },
            Command::Read { reg: 0xf3, len: 1 },
            Command::Sleep { ms: 10 },
            Command::Read { reg: 0xf3, len: 1 },
            Command::Read { reg: 0xf7, len: 8 },
        ]
    );
    assert_eq!(sensor.regs[0xf4], 0x25);
}

#[test]
fn read_reports_a_failed_transfer() {
    let mut dev = Bme280::new(());
    let mut sensor = FakeSensor::new();
    assert!(run_init(&mut dev, &mut sensor).is_ok());
    sensor.fail_at = Some(sensor.transfers + 1);
    assert!(matches!(run_read(&dev, &mut sensor), Some(Err(Error::I2c(0xee)))));
}

#[test]
fn read_reports_overflowing_compensation() {
    let mut dev = Bme280::new(());
    let mut sensor = FakeSensor::new();
    sensor.regs[0x88] = 0;
    sensor.regs[0x89] = 0;
    sensor.regs[0x8a] = 0xff;
    sensor.regs[0x8b] = 0x7f;
    assert!(run_init(&mut dev, &mut sensor).is_ok());
    sensor.regs[0xfa] = 0xff;
    sensor.regs[0xfb] = 0xff;
    sensor.regs[0xfc] = 0xf0;
    assert!(run_read(&dev, &mut sensor).is_none());
}

#[test]
fn bus_errors_convert_into_driver_errors() {
    let e: Error<u8> = Error::from(7u8);
    assert!(matches!(e, Error::I2c(7)));
}

#[test]
fn bus_access_keeps_calibration() {
    let mut dev = Bme280::new(5u32);
    *dev.bus() = 9;
    assert_eq!(*dev.bus(), 9);
    assert_eq!(dev.calibration(), None);
}
