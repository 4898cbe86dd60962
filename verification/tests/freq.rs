use imu_fifo::freqfine::FreqFine;
use imu_fifo::internal_freq_fine::freq_fine;
use imu_fifo::{Transport, DEFAULT_I2C_ADDRESS};

/// A scripted bus for single-byte register traffic: serves one byte to
/// every read, records reads and writes, and can be told to fail.
struct RegisterBus {
    byte: u8,
    fail: bool,
    reads: Vec<(u8, u8)>,
    writes: Vec<(u8, u8, u8)>,
}

#[derive(Debug, Clone, Copy, PartialEq, Eq)]
struct RegFault;

impl Transport for RegisterBus {
    type Error = RegFault;

    fn write_read(
        &mut self,
        _address: u8,
        _subaddress: u8,
        _buffer: &mut [u8; 7],
    ) -> Result<(), RegFault> {
        Err(RegFault)
    }

    fn read(&mut self, address: u8, subaddress: u8) -> Result<u8, RegFault> {
        self.reads.push((address, subaddress));
        if self.fail {
            return Err(RegFault);
        }
        Ok(self.byte)
    }

    fn write(&mut self, address: u8, subaddress: u8, value: u8) -> Result<(), RegFault> {
        self.writes.push((address, subaddress, value));
        if self.fail {
            return Err(RegFault);
        }
        Ok(())
    }
}

fn register_bus(byte: u8) -> RegisterBus {
    RegisterBus { byte, fail: false, reads: Vec::new(), writes: Vec::new() }
}

#[test]
fn freqfine_new_holds_fields() {
    let f = FreqFine::new(0x12, DEFAULT_I2C_ADDRESS);
    assert_eq!(f.address, 0x6b);
    assert_eq!(f.value(), 0x12);
}

#[test]
fn freqfine_reads_trim_register() {
    let mut bus = register_bus(0x40);
    let mut f = FreqFine::new(0, DEFAULT_I2C_ADDRESS);
    let raw = f.read_freq(&mut bus);
    assert_eq!(raw, Ok(0x40));
    // One read of register 0x63 at the device address.
    assert_eq!(bus.reads, vec![(0x6b, 0x63)]);
    assert_eq!(bus.writes, vec![]);
}

#[test]
fn freqfine_read_propagates_error() {
    let mut bus = register_bus(0x40);
    bus.fail = true;
    let mut f = FreqFine::new(0, DEFAULT_I2C_ADDRESS);
    assert_eq!(f.read_freq(&mut bus), Err(RegFault));
}

#[test]
fn freq_fine_new_holds_fields() {
    let f = freq_fine::new(0x21, DEFAULT_I2C_ADDRESS);
    assert_eq!(f.address, 0x6b);
    assert_eq!(f.value(), 0x21);
}

#[test]
fn freq_fine_writes_trim_register() {
    let mut bus = register_bus(0);
    let mut f = freq_fine::new(0x21, DEFAULT_I2C_ADDRESS);
    assert_eq!(f.read_freq(&mut bus), Ok(()));
    // One write of the held value to register 0x63 at the device address.
    assert_eq!(bus.writes, vec![(0x6b, 0x63, 0x21)]);
    assert_eq!(bus.reads, vec![]);
}

#[test]
fn freq_fine_write_propagates_error() {
    let mut bus = register_bus(0);
    bus.fail = true;
    let mut f = freq_fine::new(0x21, DEFAULT_I2C_ADDRESS);
    assert_eq!(f.read_freq(&mut bus), Err(RegFault));
}
