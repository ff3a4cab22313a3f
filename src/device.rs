//! Capabilities that drivers implement and file objects use for backing
//! store or character I/O.

use vstd::prelude::*;
use crate::error::FsError;

verus! {

/// Every device: it can be told that its interrupt fired.
pub trait DeviceBase: Sync + Send {
    fn handle_irq(&self);
}

/// A byte-addressed block device.
pub trait BlockDevice: DeviceBase {
    fn read(&self, buf: &mut [u8], offset: usize) -> Result<usize, FsError>;

    fn write(&self, buf: &[u8], offset: usize) -> Result<usize, FsError>;

    fn size(&self) -> usize;

    fn flush(&self) -> Result<(), FsError>;
}

/// A device addressed by fixed-size blocks.
pub trait LowBlockDevice {
    fn read_block(&self, block_id: usize, buf: &mut [u8]) -> Result<(), FsError>;

    fn write_block(&self, block_id: usize, buf: &[u8]) -> Result<(), FsError>;

    fn capacity(&self) -> usize;

    fn read_block_async(&self, block_id: usize, buf: &mut [u8]) -> Result<(), FsError>;

    fn write_block_async(&self, block_id: usize, buf: &[u8]) -> Result<(), FsError>;

    fn handle_irq(&self);

    fn flush(&self) {
    }
}

/// A framebuffer device.
pub trait GpuDevice: DeviceBase {
    fn update_cursor(&self);

    fn get_framebuffer(&self) -> &mut [u8];

    fn flush(&self);

    fn resolution(&self) -> (u32, u32);
}

/// A device that produces input events.
pub trait InputDevice: DeviceBase {
    fn is_empty(&self) -> bool;

    fn read_event_async(&self) -> u64;

    fn read_event_without_block(&self) -> Option<u64>;
}

/// A serial line.
pub trait UartDevice: DeviceBase {
    fn put(&self, c: u8);

    fn get(&self) -> Option<u8>;

    fn put_bytes(&self, bytes: &[u8]);

    fn have_data_to_get(&self) -> bool;

    fn have_space_to_put(&self) -> bool;
}

/// A network interface.
pub trait NetDevice: DeviceBase {}

} // verus!
