use vstd::prelude::*;

use crate::device::DataReport;

verus! {

/// USB vendor id of the supported mouse.
pub const ID_VENDOR: u16 = 0x258a;

/// USB product id of the supported mouse.
pub const ID_PRODUCT: u16 = 0x0036;

/// The interface that carries the control channel.
pub const CONTROL_IF: i32 = 1;

/// Report id of a short control message.
pub const HW_REPORT_MSG: u8 = 5;

/// Report id of a full data report.
pub const HW_REPORT_DATA: u8 = 4;

/// Command: read the firmware version.
pub const HW_CMD_VER: u8 = 1;

/// Command: read the configuration.
pub const HW_CMD_CONF: u8 = 0x11;

/// Command: read the button map.
pub const HW_CMD_MAP: u8 = 0x12;

/// Marker written into byte 3 of a configuration report being written.
pub const HW_CONF_WRITE_MAGIC: u8 = 0x7b;

/// Marker written into byte 3 of a button-map report being written.
pub const HW_MAP_WRITE_MAGIC: u8 = 0x50;

/// A short control message carrying a command and one argument.
pub fn message_frame(a: u8, s: u8) -> (r: [u8; 6])
    ensures
        r@ == seq![HW_REPORT_MSG, a, s, 0u8, 0u8, 0u8],
{
    let r = [HW_REPORT_MSG, a, s, 0, 0, 0];
    assert(r@ =~= seq![HW_REPORT_MSG, a, s, 0u8, 0u8, 0u8]);
    r
}

/// The message asking the device for the report of a command.
pub fn request_frame(cmd: u8) -> (r: [u8; 6])
    ensures
        r@ == seq![HW_REPORT_MSG, cmd, 0u8, 0u8, 0u8, 0u8],
{
    message_frame(cmd, 0)
}

/// An empty data report, ready to receive a reply.
pub fn reply_buffer() -> (r: DataReport)
    ensures
        r@[0] == HW_REPORT_DATA,
        forall|i: int| 1 <= i < 520 ==> r@[i] == 0u8,
{
    let mut buf: DataReport = [0u8; 520];
    buf[0] = HW_REPORT_DATA;
    buf
}

/// A report as it is written: the same bytes with the write marker in byte 3.
pub fn with_write_magic(data: &DataReport, magic: u8) -> (r: DataReport)
    ensures
        r@ == data@.update(3, magic),
{
    let mut out = *data;
    out[3] = magic;
    out
}

/// The four version bytes of a firmware-version reply, which starts with the tag `5, 1`.
pub fn version_bytes(buf: &[u8]) -> (r: Option<[u8; 4]>)
    ensures
        match r {
            Some(v) => buf@.len() >= 6 && buf@[0] == 5 && buf@[1] == 1 && v@ == buf@.subrange(2, 6),
            None => !(buf@.len() >= 6 && buf@[0] == 5 && buf@[1] == 1),
        },
{
    if buf.len() >= 6 && buf[0] == 5 && buf[1] == 1 {
        let v = [buf[2], buf[3], buf[4], buf[5]];
        assert(v@ =~= buf@.subrange(2, 6));
        Some(v)
    } else {
        None
    }
}

} // verus!
