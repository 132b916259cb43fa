//! The display controller's protocol: its command set, how a command, a
//! data word or a read is framed on the bus, and the session that brings the
//! controller up and then displays areas of the frame buffer.
//!
//! Nothing here performs a bus operation. Every function that the protocol
//! asks bus traffic of returns the operations to perform, in order; where a
//! transaction reads, a second function takes the bytes that its transfers
//! received and makes the value of them.

use crate::bcm_interface::lemma_reply_count_concat;
use crate::bcm_interface::lemma_reply_count_none;
use crate::bcm_interface::lemma_reply_count_single;
use crate::bcm_interface::reply_count;
use crate::bcm_interface::BusOp;
use vstd::prelude::*;

verus! {

/// The chip-select pin.
pub const CS: u8 = 8;

/// The pin on which the controller signals that it is ready.
pub const HRDY: u8 = 24;

/// The pin that resets the controller.
pub const RESET: u8 = 17;

/// The reference voltage the panel is run with, in millivolts below zero.
pub const VCOM: u16 = 1610;

pub const BCM2835_SPI_BIT_ORDER_MSBFIRST: u8 = 1;

pub const BCM2835_SPI_MODE0: u8 = 0;

pub const BCM2835_SPI_CLOCK_DIVIDER_32: u16 = 32;

pub const BCM2835_GPIO_FSEL_OUTP: u8 = 0x01;

pub const BCM2835_GPIO_FSEL_INPT: u8 = 0x00;

pub const HIGH: u8 = 0x1;

pub const LOW: u8 = 0x0;

/// How long the reset line is held low, in milliseconds.
pub const RESET_SETTLE_MILLIS: u16 = 100;

/// Announces a command code.
pub const PREAMBLE_COMMAND: u16 = 0x6000;

/// Announces a data word written to the controller.
pub const PREAMBLE_WRITE: u16 = 0x0000;

/// Announces a read from the controller.
pub const PREAMBLE_READ: u16 = 0x1000;

// Built-in command codes.
pub const IT8951_TCON_SYS_RUN: u16 = 0x0001;

pub const IT8951_TCON_STANDBY: u16 = 0x0002;

pub const IT8951_TCON_SLEEP: u16 = 0x0003;

pub const IT8951_TCON_REG_RD: u16 = 0x0010;

pub const IT8951_TCON_REG_WR: u16 = 0x0011;

pub const IT8951_TCON_MEM_BST_RD_T: u16 = 0x0012;

pub const IT8951_TCON_MEM_BST_RD_S: u16 = 0x0013;

pub const IT8951_TCON_MEM_BST_WR: u16 = 0x0014;

pub const IT8951_TCON_MEM_BST_END: u16 = 0x0015;

pub const IT8951_TCON_LD_IMG: u16 = 0x0020;

pub const IT8951_TCON_LD_IMG_AREA: u16 = 0x0021;

pub const IT8951_TCON_LD_IMG_END: u16 = 0x0022;

// User-defined command codes.
pub const USDEF_I80_CMD_DPY_AREA: u16 = 0x0034;

pub const USDEF_I80_CMD_GET_DEV_INFO: u16 = 0x0302;

pub const USDEF_I80_CMD_DPY_BUF_AREA: u16 = 0x0037;

pub const USDEF_I80_CMD_VCOM: u16 = 0x0039;

// Panel size before the controller has told its own.
pub const IT8951_PANEL_WIDTH: u16 = 1024;

pub const IT8951_PANEL_HEIGHT: u16 = 758;

// Rotation of a loaded image.
pub const IT8951_ROTATE_0: u16 = 0;

pub const IT8951_ROTATE_90: u16 = 1;

pub const IT8951_ROTATE_180: u16 = 2;

pub const IT8951_ROTATE_270: u16 = 3;

// Bits per pixel of a loaded image.
pub const IT8951_2BPP: u16 = 0;

pub const IT8951_3BPP: u16 = 1;

pub const IT8951_4BPP: u16 = 2;

pub const IT8951_8BPP: u16 = 3;

// Waveform modes.
pub const IT8951_MODE_0: u16 = 0;

pub const IT8951_MODE_1: u16 = 1;

pub const IT8951_MODE_2: u16 = 2;

pub const IT8951_MODE_3: u16 = 3;

pub const IT8951_MODE_4: u16 = 4;

// Byte order of a loaded image.
pub const IT8951_LDIMG_L_ENDIAN: u16 = 0;

pub const IT8951_LDIMG_B_ENDIAN: u16 = 1;

// Automatic waveform selection.
pub const IT8951_DIS_AUTO_LUT: u16 = 0;

pub const IT8951_EN_AUTO_LUT: u16 = 1;

/// What the status register reads while every waveform engine is busy.
pub const IT8951_ALL_LUTE_BUSY: u16 = 0xFFFF;

// Display registers.
pub const DISPLAY_REG_BASE: u16 = 0x1000;

pub const LUT0EWHR: u16 = DISPLAY_REG_BASE + 0x00;

pub const LUT0XYR: u16 = DISPLAY_REG_BASE + 0x40;

pub const LUT0BADDR: u16 = DISPLAY_REG_BASE + 0x80;

pub const LUT0MFN: u16 = DISPLAY_REG_BASE + 0xC0;

pub const LUT01AF: u16 = DISPLAY_REG_BASE + 0x114;

pub const UP0SR: u16 = DISPLAY_REG_BASE + 0x134;

pub const UP1SR: u16 = DISPLAY_REG_BASE + 0x138;

pub const LUT0ABFRV: u16 = DISPLAY_REG_BASE + 0x13C;

pub const UPBBADDR: u16 = DISPLAY_REG_BASE + 0x17C;

pub const LUT0IMXY: u16 = DISPLAY_REG_BASE + 0x180;

pub const LUTAFSR: u16 = DISPLAY_REG_BASE + 0x224;

pub const BGVR: u16 = DISPLAY_REG_BASE + 0x250;

// System registers.
pub const SYS_REG_BASE: u16 = 0x0000;

pub const I80CPCR: u16 = SYS_REG_BASE + 0x04;

// Memory converter registers.
pub const MCSR_BASE_ADDR: u16 = 0x0200;

pub const MCSR: u16 = MCSR_BASE_ADDR + 0x0000;

pub const LISAR: u16 = MCSR_BASE_ADDR + 0x0008;

/// The 16-bit words of the controller's answer to "get device info".
pub const DEV_INFO_WORDS: u32 = 20;

/// The bytes received while a session is reset: those of the command that
/// asks for the device info, of the head of the burst read, and of the
/// record's words.
pub const RESET_REPLY_BYTES: usize = 48;

/// The bytes received after discovery: those of the register write that
/// switches to packed transfers, followed by those of the transaction that
/// asks for the reference voltage.
pub const DISCOVERED_REPLY_BYTES: usize = 26;

/// What can go wrong in a session.
#[derive(Clone, Copy, Debug, PartialEq, Eq, Structural)]
pub enum ITError {
    /// The hardware-access layer or the controller did not come up.
    InitFailed,
    /// What was read off the bus is not the record that was asked for.
    DowncastFailed,
    /// The controller did not signal that it is ready within the polls it
    /// was given.
    ProtocolTimeout,
}

/// What follows a look at the ready line.
#[derive(Clone, Copy, Debug, PartialEq, Eq, Structural)]
pub enum Poll {
    /// The controller is ready: the next operation may be performed.
    Ready,
    /// The controller is busy: the line is to be read again, with this many
    /// polls left, or with no bound on them.
    Again { polls_left: Option<u32> },
}

impl ITError {
    /// The error in words.
    pub fn message(&self) -> (text: String)
        ensures
            *self == ITError::InitFailed ==> text@ == "IT init failed."@,
            *self == ITError::DowncastFailed ==> text@ == "Downcast failed"@,
            *self == ITError::ProtocolTimeout ==> text@ == "Controller not ready"@,
    {
        match self {
            ITError::InitFailed => "IT init failed.".to_owned(),
            ITError::DowncastFailed => "Downcast failed".to_owned(),
            ITError::ProtocolTimeout => "Controller not ready".to_owned(),
        }
    }
}

/// How the pixels of a loaded image are encoded.
#[derive(Debug, Eq, PartialEq, Clone, Copy, Structural)]
pub struct LdImgInfo {
    pub endian_type: u16,
    pub pixel_format: u16,
    pub rotate: u16,
}

/// A rectangle of the panel.
#[derive(Debug, Eq, PartialEq, Clone, Copy, Structural)]
pub struct AreaImgInfo {
    pub x: u16,
    pub y: u16,
    pub width: u16,
    pub height: u16,
}

/// What the controller tells of itself and of its panel.
#[derive(Debug, Eq, PartialEq, Clone, Copy)]
pub struct DevInfo {
    pub panel_width: u16,
    pub panel_height: u16,
    pub image_buffer_base_address_l: u16,
    pub image_buffer_base_address_h: u16,
    pub firmware_version: [u16; 8],
    pub lut_version: [u16; 8],
}

/// Where a session stands.
#[derive(Debug, Eq, PartialEq, Clone, Copy, Structural)]
pub enum Phase {
    /// Nothing has been done yet.
    Uninitialized,
    /// The bus is configured, the controller reset and asked for its device
    /// info.
    Reset,
    /// The panel's geometry is known and the frame buffer sized; the
    /// controller has been asked for its reference voltage.
    Discovered,
    /// The controller accepts areas to display.
    Ready,
}

/// A session with the display controller.
pub struct IT {
    phase: Phase,
    dev_info: DevInfo,
    frame_buffer: Vec<u8>,
}

/// The mathematical value of a session.
pub struct ITView {
    pub phase: Phase,
    pub dev_info: DevInfo,
    pub frame_buffer: Seq<u8>,
}

impl View for IT {
    type V = ITView;

    closed spec fn view(&self) -> ITView {
        ITView { phase: self.phase, dev_info: self.dev_info, frame_buffer: self.frame_buffer@ }
    }
}

/// The first byte of a word on the wire.
pub open spec fn high_byte(word: u16) -> u8 {
    (word / 256) as u8
}

/// The second byte of a word on the wire.
pub open spec fn low_byte(word: u16) -> u8 {
    (word % 256) as u8
}

/// The word that two bytes off the wire make.
pub open spec fn word_of(high: u8, low: u8) -> u16 {
    (high * 256 + low) as u16
}

/// The transfer of one byte.
pub open spec fn transfer(value: u8) -> BusOp {
    BusOp::SpiTransfer { value }
}

/// Driving the select line.
pub open spec fn select(on: u8) -> BusOp {
    BusOp::GpioWrite { pin: CS, on }
}

/// Polling the ready line until the controller is ready.
pub open spec fn wait_ready() -> BusOp {
    BusOp::WaitHigh { pin: HRDY }
}

/// A word on the wire: high byte first.
pub open spec fn word_ops(word: u16) -> Seq<BusOp> {
    seq![transfer(high_byte(word)), transfer(low_byte(word))]
}

/// One framed phase: the controller ready, the select line low, the
/// preamble, the word, the select line high.
pub open spec fn framed(preamble: u16, word: u16) -> Seq<BusOp> {
    seq![wait_ready(), select(LOW)] + word_ops(preamble) + word_ops(word) + seq![select(HIGH)]
}

/// The phase that sends a command code.
pub open spec fn write_cmd_code_ops(cmd_code: u16) -> Seq<BusOp> {
    framed(PREAMBLE_COMMAND, cmd_code)
}

/// The phase that sends a data word.
pub open spec fn write_data_ops(data: u16) -> Seq<BusOp> {
    framed(PREAMBLE_WRITE, data)
}

/// A command followed by its arguments, each a data phase of its own.
pub open spec fn send_cmd_arg_ops(cmd_code: u16, args: Seq<u16>) -> Seq<BusOp>
    decreases args.len(),
{
    if args.len() == 0 {
        write_cmd_code_ops(cmd_code)
    } else {
        send_cmd_arg_ops(cmd_code, args.drop_last()) + write_data_ops(args.last())
    }
}

/// How every read begins: the controller ready, the select line low, the
/// read preamble, the controller ready again, and one word that is received
/// and thrown away.
pub open spec fn read_head() -> Seq<BusOp> {
    seq![wait_ready(), select(LOW)] + word_ops(PREAMBLE_READ) + seq![wait_ready()] + word_ops(0)
}

/// The phase that reads one word.
pub open spec fn read_data_ops() -> Seq<BusOp> {
    read_head() + seq![wait_ready()] + word_ops(0) + seq![select(HIGH)]
}

/// The phase that reads `word_count` words in one burst.
pub open spec fn read_n_data_ops(word_count: nat) -> Seq<BusOp> {
    read_head() + Seq::new(2 * word_count, |i: int| transfer(0)) + seq![select(HIGH)]
}

/// The bytes that a burst of `count` buffer bytes puts on the wire: the
/// buffer pair by pair, the second byte of each pair first. An odd count
/// takes the pair it begins in full.
pub open spec fn streamed(buffer: Seq<u8>, count: nat) -> Seq<BusOp> {
    Seq::new(
        count + count % 2,
        |i: int|
            transfer(
                buffer[if i % 2 == 0 {
                    i + 1
                } else {
                    i - 1
                }],
            ),
    )
}

/// The phase that writes the first `count` bytes of the buffer in one
/// burst: the controller ready, the select line low and held low, the write
/// preamble, the bytes, the select line high.
pub open spec fn write_n_data_ops(buffer: Seq<u8>, count: nat) -> Seq<BusOp> {
    seq![wait_ready(), select(LOW)] + word_ops(PREAMBLE_WRITE) + streamed(buffer, count)
        + seq![select(HIGH)]
}

/// The word that tells the controller how a loaded image is encoded.
pub open spec fn load_flags(info: LdImgInfo) -> u16 {
    (info.endian_type << 8) | (info.pixel_format << 4) | info.rotate
}

/// The transaction that opens the load of an area.
pub open spec fn load_image_area_start_ops(info: LdImgInfo, area: AreaImgInfo) -> Seq<BusOp> {
    send_cmd_arg_ops(
        IT8951_TCON_LD_IMG_AREA,
        seq![load_flags(info), area.x, area.y, area.width, area.height],
    )
}

/// The transaction that closes the load of an area.
pub open spec fn load_image_end_ops() -> Seq<BusOp> {
    write_cmd_code_ops(IT8951_TCON_LD_IMG_END)
}

/// The bytes of the buffer that the load of an area streams, `factor`
/// pixels to a byte pair.
pub open spec fn packed_bytes(area: AreaImgInfo, factor: u8) -> nat {
    ((area.height * area.width) / (2 * factor)) as nat
}

/// The transaction that loads an area from the buffer.
pub open spec fn write_host_area_packed_pixel_ops(
    buffer: Seq<u8>,
    info: LdImgInfo,
    area: AreaImgInfo,
    factor: u8,
) -> Seq<BusOp> {
    load_image_area_start_ops(info, area) + write_n_data_ops(buffer, packed_bytes(area, factor))
        + load_image_end_ops()
}

/// The transaction that makes the panel show an area of what was loaded.
pub open spec fn display_area_ops(x: u16, y: u16, width: u16, height: u16, dpy_mode: u16) -> Seq<
    BusOp,
> {
    write_cmd_code_ops(USDEF_I80_CMD_DPY_AREA) + write_data_ops(x) + write_data_ops(y)
        + write_data_ops(width) + write_data_ops(height) + write_data_ops(dpy_mode)
}

/// The transaction that asks for a register's value.
pub open spec fn read_reg_ops(reg_address: u16) -> Seq<BusOp> {
    write_cmd_code_ops(IT8951_TCON_REG_RD) + write_data_ops(reg_address) + read_data_ops()
}

/// The transaction that sets a register.
pub open spec fn write_reg_ops(reg_address: u16, value: u16) -> Seq<BusOp> {
    write_cmd_code_ops(IT8951_TCON_REG_WR) + write_data_ops(reg_address) + write_data_ops(value)
}

/// The transaction that asks for the reference voltage.
pub open spec fn get_vcom_ops() -> Seq<BusOp> {
    write_cmd_code_ops(USDEF_I80_CMD_VCOM) + write_data_ops(0) + read_data_ops()
}

/// The transaction that sets the reference voltage.
pub open spec fn set_vcom_ops(vcom: u16) -> Seq<BusOp> {
    write_cmd_code_ops(USDEF_I80_CMD_VCOM) + write_data_ops(1) + write_data_ops(vcom)
}

/// The transaction that asks the controller for its device info.
pub open spec fn get_system_info_ops() -> Seq<BusOp> {
    write_cmd_code_ops(USDEF_I80_CMD_GET_DEV_INFO) + read_n_data_ops(DEV_INFO_WORDS as nat)
}

/// What brings the bus and the controller into a known state: the serial
/// bus configured, the three pins given their directions, the select line
/// released, and the reset line pulsed low.
pub open spec fn init_ops() -> Seq<BusOp> {
    seq![
        BusOp::SpiBegin,
        BusOp::SpiSetBitOrder { order: BCM2835_SPI_BIT_ORDER_MSBFIRST },
        BusOp::SpiSetDataMode { mode: BCM2835_SPI_MODE0 },
        BusOp::SpiSetClockDivider { divider: BCM2835_SPI_CLOCK_DIVIDER_32 },
        BusOp::GpioFsel { pin: CS, mode: BCM2835_GPIO_FSEL_OUTP },
        BusOp::GpioFsel { pin: HRDY, mode: BCM2835_GPIO_FSEL_INPT },
        BusOp::GpioFsel { pin: RESET, mode: BCM2835_GPIO_FSEL_OUTP },
        BusOp::GpioWrite { pin: CS, on: HIGH },
        BusOp::GpioWrite { pin: RESET, on: LOW },
        BusOp::Delay { millis: RESET_SETTLE_MILLIS },
        BusOp::GpioWrite { pin: RESET, on: HIGH },
    ]
}

/// What a session hands out when it begins: the bus and the controller are
/// brought into a known state, and the controller is asked for its device
/// info.
pub open spec fn reset_ops() -> Seq<BusOp> {
    init_ops() + get_system_info_ops()
}

/// What a session hands out once the panel is discovered: the controller is
/// switched to packed transfers and asked for its reference voltage.
pub open spec fn discovered_ops() -> Seq<BusOp> {
    write_reg_ops(I80CPCR, 0x0001) + get_vcom_ops()
}

/// What a session hands out when it becomes ready, the controller having
/// reported the reference voltage `vcom`: the voltage is set where it is not
/// `VCOM`, and nothing is left to do where it is.
pub open spec fn ready_ops(vcom: u16) -> Seq<BusOp> {
    if vcom != VCOM {
        set_vcom_ops(VCOM)
    } else {
        Seq::<BusOp>::empty()
    }
}

/// The device info before the controller has told it: every field zero.
pub open spec fn is_unknown(info: DevInfo) -> bool {
    &&& info.panel_width == 0
    &&& info.panel_height == 0
    &&& info.image_buffer_base_address_l == 0
    &&& info.image_buffer_base_address_h == 0
    &&& info.firmware_version@ == Seq::new(8, |i: int| 0u16)
    &&& info.lut_version@ == Seq::new(8, |i: int| 0u16)
}

/// The words that a transaction's reply holds from byte `skip` on.
pub open spec fn reply_words(replies: Seq<u8>, skip: int, count: nat) -> Seq<u16> {
    Seq::new(count, |k: int| word_of(replies[skip + 2 * k], replies[skip + 2 * k + 1]))
}

/// The device info is what the words say, field by field in wire order:
/// panel width, panel height, the low and the high half of the image
/// buffer's address, eight words of firmware version, eight of waveform
/// version.
pub open spec fn holds_words(info: DevInfo, words: Seq<u16>) -> bool {
    &&& words.len() == DEV_INFO_WORDS
    &&& info.panel_width == words[0]
    &&& info.panel_height == words[1]
    &&& info.image_buffer_base_address_l == words[2]
    &&& info.image_buffer_base_address_h == words[3]
    &&& info.firmware_version@ == words.subrange(4, 12)
    &&& info.lut_version@ == words.subrange(12, 20)
}

/// `count` bytes of zero.
pub open spec fn zeros(count: nat) -> Seq<u8> {
    Seq::new(count, |i: int| 0u8)
}

/// A rectangle's extent held to the panel's.
pub open spec fn clipped(extent: u16, panel: u16) -> u16 {
    if extent > panel {
        panel
    } else {
        extent
    }
}

/// A word on the wire is two transfers.
pub proof fn lemma_word_replies(word: u16)
    ensures
        reply_count(word_ops(word)) == 2,
{
    let high = transfer(high_byte(word));
    let low = transfer(low_byte(word));
    assert(word_ops(word) =~= seq![high] + seq![low]);
    lemma_reply_count_concat(seq![high], seq![low]);
    lemma_reply_count_single(high);
    lemma_reply_count_single(low);
}

/// A framed phase transfers its preamble and its word: four bytes.
pub proof fn lemma_framed_replies(preamble: u16, word: u16)
    ensures
        reply_count(framed(preamble, word)) == 4,
{
    let open = seq![wait_ready(), select(LOW)];
    assert(open =~= seq![wait_ready()] + seq![select(LOW)]);
    lemma_reply_count_concat(seq![wait_ready()], seq![select(LOW)]);
    lemma_reply_count_single(wait_ready());
    lemma_reply_count_single(select(LOW));
    lemma_reply_count_single(select(HIGH));
    lemma_word_replies(preamble);
    lemma_word_replies(word);
    lemma_reply_count_concat(open, word_ops(preamble));
    lemma_reply_count_concat(open + word_ops(preamble), word_ops(word));
    lemma_reply_count_concat(open + word_ops(preamble) + word_ops(word), seq![select(HIGH)]);
}

/// The head of a read transfers the preamble and the word that is thrown
/// away: four bytes.
pub proof fn lemma_read_head_replies()
    ensures
        reply_count(read_head()) == 4,
{
    let open = seq![wait_ready(), select(LOW)];
    assert(open =~= seq![wait_ready()] + seq![select(LOW)]);
    lemma_reply_count_concat(seq![wait_ready()], seq![select(LOW)]);
    lemma_reply_count_single(wait_ready());
    lemma_reply_count_single(select(LOW));
    lemma_word_replies(PREAMBLE_READ);
    lemma_word_replies(0);
    lemma_reply_count_concat(open, word_ops(PREAMBLE_READ));
    lemma_reply_count_concat(open + word_ops(PREAMBLE_READ), seq![wait_ready()]);
    lemma_reply_count_concat(open + word_ops(PREAMBLE_READ) + seq![wait_ready()], word_ops(0));
}

/// A run of `count` transfers hands back `count` bytes.
pub proof fn lemma_transfers_replies(count: nat)
    ensures
        reply_count(Seq::new(count, |i: int| transfer(0))) == count,
    decreases count,
{
    let run = Seq::new(count, |i: int| transfer(0));
    if count > 0 {
        lemma_transfers_replies((count - 1) as nat);
        assert(run.drop_last() =~= Seq::new((count - 1) as nat, |i: int| transfer(0)));
    }
}

/// Each reading transaction hands back exactly as many bytes as the function
/// that decodes its reply accepts: a single read 6, a burst read of
/// `word_count` words 4 and 2 a word, a register read and the reference
/// voltage 14 each, the device info 48.
pub proof fn lemma_reply_counts(reg_address: u16, word_count: nat)
    ensures
        reply_count(read_data_ops()) == 6,
        reply_count(read_n_data_ops(word_count)) == 4 + 2 * word_count,
        reply_count(read_reg_ops(reg_address)) == 14,
        reply_count(get_vcom_ops()) == 14,
        reply_count(get_system_info_ops()) == 48,
{
    lemma_read_head_replies();
    lemma_word_replies(0);
    lemma_reply_count_single(wait_ready());
    lemma_reply_count_single(select(HIGH));
    lemma_reply_count_concat(read_head(), seq![wait_ready()]);
    lemma_reply_count_concat(read_head() + seq![wait_ready()], word_ops(0));
    lemma_reply_count_concat(read_head() + seq![wait_ready()] + word_ops(0), seq![select(HIGH)]);

    let burst = Seq::new(2 * word_count, |i: int| transfer(0));
    lemma_transfers_replies(2 * word_count);
    lemma_reply_count_concat(read_head(), burst);
    lemma_reply_count_concat(read_head() + burst, seq![select(HIGH)]);

    lemma_framed_replies(PREAMBLE_COMMAND, IT8951_TCON_REG_RD);
    lemma_framed_replies(PREAMBLE_WRITE, reg_address);
    lemma_reply_count_concat(write_cmd_code_ops(IT8951_TCON_REG_RD), write_data_ops(reg_address));
    lemma_reply_count_concat(
        write_cmd_code_ops(IT8951_TCON_REG_RD) + write_data_ops(reg_address),
        read_data_ops(),
    );

    lemma_framed_replies(PREAMBLE_COMMAND, USDEF_I80_CMD_VCOM);
    lemma_framed_replies(PREAMBLE_WRITE, 0);
    lemma_reply_count_concat(write_cmd_code_ops(USDEF_I80_CMD_VCOM), write_data_ops(0));
    lemma_reply_count_concat(
        write_cmd_code_ops(USDEF_I80_CMD_VCOM) + write_data_ops(0),
        read_data_ops(),
    );

    let info_burst = Seq::new(2 * (DEV_INFO_WORDS as nat), |i: int| transfer(0));
    lemma_transfers_replies(2 * (DEV_INFO_WORDS as nat));
    lemma_reply_count_concat(read_head(), info_burst);
    lemma_reply_count_concat(read_head() + info_burst, seq![select(HIGH)]);
    lemma_framed_replies(PREAMBLE_COMMAND, USDEF_I80_CMD_GET_DEV_INFO);
    lemma_reply_count_concat(
        write_cmd_code_ops(USDEF_I80_CMD_GET_DEV_INFO),
        read_n_data_ops(DEV_INFO_WORDS as nat),
    );
}

/// What a step hands out receives exactly the bytes that the next step
/// accepts: the operations of a reset session `RESET_REPLY_BYTES`, of which
/// the last forty are the device info's words; those of a discovered one
/// `DISCOVERED_REPLY_BYTES`, of which the last two are the reference
/// voltage, the twelve before them being the rest of the voltage read and
/// the first twelve those of the register write.
pub proof fn lemma_step_replies()
    ensures
        reply_count(init_ops()) == 0,
        reply_count(reset_ops()) == RESET_REPLY_BYTES,
        reply_count(write_reg_ops(I80CPCR, 0x0001)) == 12,
        reply_count(get_vcom_ops()) == 14,
        reply_count(discovered_ops()) == DISCOVERED_REPLY_BYTES,
{
    lemma_reply_counts(0, 0);
    lemma_reply_count_none(init_ops());
    lemma_reply_count_concat(init_ops(), get_system_info_ops());

    lemma_framed_replies(PREAMBLE_COMMAND, IT8951_TCON_REG_WR);
    lemma_framed_replies(PREAMBLE_WRITE, I80CPCR);
    lemma_framed_replies(PREAMBLE_WRITE, 0x0001);
    lemma_reply_count_concat(write_cmd_code_ops(IT8951_TCON_REG_WR), write_data_ops(I80CPCR));
    lemma_reply_count_concat(
        write_cmd_code_ops(IT8951_TCON_REG_WR) + write_data_ops(I80CPCR),
        write_data_ops(0x0001),
    );
    lemma_reply_count_concat(write_reg_ops(I80CPCR, 0x0001), get_vcom_ops());
}

fn push_word(ops: &mut Vec<BusOp>, word: u16)
    ensures
        final(ops)@ == old(ops)@ + word_ops(word),
{
    ops.push(BusOp::SpiTransfer { value: (word / 256) as u8 });
    ops.push(BusOp::SpiTransfer { value: (word % 256) as u8 });
    assert(ops@ =~= old(ops)@ + word_ops(word));
}

fn push_framed(ops: &mut Vec<BusOp>, preamble: u16, word: u16)
    ensures
        final(ops)@ == old(ops)@ + framed(preamble, word),
{
    ops.push(BusOp::WaitHigh { pin: HRDY });
    ops.push(BusOp::GpioWrite { pin: CS, on: LOW });
    push_word(ops, preamble);
    push_word(ops, word);
    ops.push(BusOp::GpioWrite { pin: CS, on: HIGH });
    assert(ops@ =~= old(ops)@ + framed(preamble, word));
}

fn push_read_head(ops: &mut Vec<BusOp>)
    ensures
        final(ops)@ == old(ops)@ + read_head(),
{
    ops.push(BusOp::WaitHigh { pin: HRDY });
    ops.push(BusOp::GpioWrite { pin: CS, on: LOW });
    push_word(ops, PREAMBLE_READ);
    ops.push(BusOp::WaitHigh { pin: HRDY });
    push_word(ops, 0);
    assert(ops@ =~= old(ops)@ + read_head());
}

fn push_read_data(ops: &mut Vec<BusOp>)
    ensures
        final(ops)@ == old(ops)@ + read_data_ops(),
{
    push_read_head(ops);
    ops.push(BusOp::WaitHigh { pin: HRDY });
    push_word(ops, 0);
    ops.push(BusOp::GpioWrite { pin: CS, on: HIGH });
    assert(ops@ =~= old(ops)@ + read_data_ops());
}

fn push_read_n_data(ops: &mut Vec<BusOp>, word_count: u32)
    ensures
        final(ops)@ == old(ops)@ + read_n_data_ops(word_count as nat),
{
    push_read_head(ops);
    let ghost head = ops@;
    let mut n: u32 = 0;
    while n < word_count
        invariant
            n <= word_count,
            ops@ == head + Seq::new(2 * (n as nat), |i: int| transfer(0)),
        decreases word_count - n,
    {
        ops.push(BusOp::SpiTransfer { value: 0 });
        ops.push(BusOp::SpiTransfer { value: 0 });
        n += 1;
        assert(ops@ =~= head + Seq::new(2 * (n as nat), |i: int| transfer(0)));
    }
    ops.push(BusOp::GpioWrite { pin: CS, on: HIGH });
    assert(ops@ =~= old(ops)@ + read_n_data_ops(word_count as nat));
}

fn reply_word(replies: &[u8], at: usize) -> (word: u16)
    requires
        at + 1 < replies@.len(),
    ensures
        word == word_of(replies@[at as int], replies@[at + 1]),
{
    (replies[at] as u16) * 256 + replies[at + 1] as u16
}

impl DevInfo {
    /// The device info before the controller has told it: all zero.
    pub fn unknown() -> (info: DevInfo)
        ensures
            is_unknown(info),
    {
        let info = DevInfo {
            panel_width: 0,
            panel_height: 0,
            image_buffer_base_address_l: 0,
            image_buffer_base_address_h: 0,
            firmware_version: [0, 0, 0, 0, 0, 0, 0, 0],
            lut_version: [0, 0, 0, 0, 0, 0, 0, 0],
        };
        assert(info.firmware_version@ =~= Seq::new(8, |i: int| 0u16));
        assert(info.lut_version@ =~= Seq::new(8, |i: int| 0u16));
        info
    }

    /// Decodes the device info from the words of the controller's answer,
    /// field by field in wire order. Any number of words but the record's
    /// twenty is refused.
    pub fn from_words(words: &[u16]) -> (decoded: Result<DevInfo, ITError>)
        ensures
            decoded is Ok <==> words@.len() == DEV_INFO_WORDS,
            decoded matches Ok(info) ==> holds_words(info, words@),
            decoded matches Err(e) ==> e == ITError::DowncastFailed,
    {
        if words.len() != 20 {
            return Err(ITError::DowncastFailed);
        }
        let info = DevInfo {
            panel_width: words[0],
            panel_height: words[1],
            image_buffer_base_address_l: words[2],
            image_buffer_base_address_h: words[3],
            firmware_version: [
                words[4],
                words[5],
                words[6],
                words[7],
                words[8],
                words[9],
                words[10],
                words[11],
            ],
            lut_version: [
                words[12],
                words[13],
                words[14],
                words[15],
                words[16],
                words[17],
                words[18],
                words[19],
            ],
        };
        assert(info.firmware_version@ =~= words@.subrange(4, 12));
        assert(info.lut_version@ =~= words@.subrange(12, 20));
        Ok(info)
    }

    /// The address of the controller's image buffer.
    pub fn image_buffer_address(&self) -> (address: u32)
        ensures
            address == self.image_buffer_base_address_h * 0x1_0000
                + self.image_buffer_base_address_l,
    {
        (self.image_buffer_base_address_h as u32) * 0x1_0000
            + self.image_buffer_base_address_l as u32
    }
}

impl IT {
    /// A session on which nothing has been done yet: every field of the
    /// device info zero, an empty frame buffer.
    pub fn new() -> (it: IT)
        ensures
            it@.phase == Phase::Uninitialized,
            is_unknown(it@.dev_info),
            it@.frame_buffer == Seq::<u8>::empty(),
    {
        IT { phase: Phase::Uninitialized, dev_info: DevInfo::unknown(), frame_buffer: Vec::new() }
    }

    /// Where the session stands.
    pub fn phase(&self) -> (phase: Phase)
        ensures
            phase == self@.phase,
    {
        self.phase
    }

    /// What the controller told of itself.
    pub fn dev_info(&self) -> (info: DevInfo)
        ensures
            info == self@.dev_info,
    {
        self.dev_info
    }

    /// The frame buffer.
    pub fn frame_buffer(&self) -> (buffer: &Vec<u8>)
        ensures
            buffer@ == self@.frame_buffer,
    {
        &self.frame_buffer
    }

    /// Width and height of the panel.
    pub fn size(&self) -> (size: (u16, u16))
        ensures
            size.0 == self@.dev_info.panel_width,
            size.1 == self@.dev_info.panel_height,
    {
        (self.dev_info.panel_width, self.dev_info.panel_height)
    }

    /// Begins the session once the hardware-access library has answered its
    /// initialisation with `status`. A status of zero, or a session that has
    /// begun before, is a failure and changes nothing. Otherwise the session
    /// is reset: the operations to perform configure the bus, pulse the reset
    /// line and ask the controller for its device info. They receive as many
    /// bytes as the first step accepts.
    pub fn init(&mut self, status: u8) -> (action: Result<Vec<BusOp>, ITError>)
        ensures
            action is Ok <==> status != 0 && old(self)@.phase == Phase::Uninitialized,
            action matches Ok(ops) ==> {
                &&& ops@ == reset_ops()
                &&& reply_count(ops@) == RESET_REPLY_BYTES
                &&& final(self)@ == (ITView { phase: Phase::Reset, ..old(self)@ })
            },
            action matches Err(e) ==> e == ITError::InitFailed && final(self)@ == old(self)@,
    {
        if status == 0 {
            return Err(ITError::InitFailed);
        }
        match self.phase {
            Phase::Uninitialized => {},
            _ => {
                return Err(ITError::InitFailed);
            },
        }
        let mut ops: Vec<BusOp> = Vec::new();
        ops.push(BusOp::SpiBegin);
        ops.push(BusOp::SpiSetBitOrder { order: BCM2835_SPI_BIT_ORDER_MSBFIRST });
        ops.push(BusOp::SpiSetDataMode { mode: BCM2835_SPI_MODE0 });
        ops.push(BusOp::SpiSetClockDivider { divider: BCM2835_SPI_CLOCK_DIVIDER_32 });
        ops.push(BusOp::GpioFsel { pin: CS, mode: BCM2835_GPIO_FSEL_OUTP });
        ops.push(BusOp::GpioFsel { pin: HRDY, mode: BCM2835_GPIO_FSEL_INPT });
        ops.push(BusOp::GpioFsel { pin: RESET, mode: BCM2835_GPIO_FSEL_OUTP });
        ops.push(BusOp::GpioWrite { pin: CS, on: HIGH });
        ops.push(BusOp::GpioWrite { pin: RESET, on: LOW });
        ops.push(BusOp::Delay { millis: RESET_SETTLE_MILLIS });
        ops.push(BusOp::GpioWrite { pin: RESET, on: HIGH });
        assert(ops@ =~= init_ops());
        let mut query = Self::get_system_info();
        ops.append(&mut query);
        self.phase = Phase::Reset;
        proof {
            lemma_step_replies();
        }
        Ok(ops)
    }

    /// Takes the session one step on, given all the bytes that the operations
    /// handed out by the step before received, in order.
    ///
    /// Reset: the bytes are those received by `reset_ops`, which end in the
    /// controller's device info. The session takes the device info over,
    /// sizes the frame buffer to half a byte per panel pixel, all zero, and is
    /// discovered; the operations to perform are `discovered_ops`.
    ///
    /// Discovered: the bytes are those received by `discovered_ops`, which
    /// end in the reference voltage. The session is ready; the operations to
    /// perform set the voltage to `VCOM` where the controller reported
    /// another, and are none where it reported that.
    ///
    /// Ready: nothing is left to do.
    ///
    /// Bytes that are not as many as the operations of the step before
    /// receive are refused and change nothing, as is any step before the
    /// session has begun.
    pub fn step(&mut self, replies: &[u8]) -> (action: Result<Vec<BusOp>, ITError>)
        ensures
            match old(self)@.phase {
                Phase::Uninitialized => {
                    &&& action matches Err(e) && e == ITError::InitFailed
                    &&& final(self)@ == old(self)@
                },
                Phase::Reset => if replies@.len() == RESET_REPLY_BYTES {
                    let info = final(self)@.dev_info;
                    &&& action matches Ok(ops) && ops@ == discovered_ops() && reply_count(ops@)
                        == DISCOVERED_REPLY_BYTES
                    &&& final(self)@.phase == Phase::Discovered
                    &&& holds_words(info, reply_words(replies@, 8, DEV_INFO_WORDS as nat))
                    &&& final(self)@.frame_buffer == zeros(
                        ((info.panel_height * info.panel_width) / 2) as nat,
                    )
                } else {
                    &&& action matches Err(e) && e == ITError::DowncastFailed
                    &&& final(self)@ == old(self)@
                },
                Phase::Discovered => if replies@.len() == DISCOVERED_REPLY_BYTES {
                    &&& action matches Ok(ops) && ops@ == ready_ops(
                        word_of(replies@[24], replies@[25]),
                    )
                    &&& final(self)@ == (ITView { phase: Phase::Ready, ..old(self)@ })
                } else {
                    &&& action matches Err(e) && e == ITError::DowncastFailed
                    &&& final(self)@ == old(self)@
                },
                Phase::Ready => {
                    &&& action matches Ok(ops) && ops@ == Seq::<BusOp>::empty()
                    &&& final(self)@ == old(self)@
                },
            },
    {
        match self.phase {
            Phase::Uninitialized => Err(ITError::InitFailed),
            Phase::Reset => {
                match Self::get_system_info_reply(replies) {
                    Err(e) => Err(e),
                    Ok(info) => {
                        assert(info.panel_height * info.panel_width <= 0xffff * 0xffff)
                            by (nonlinear_arith)
                            requires
                                info.panel_height <= 0xffff,
                                info.panel_width <= 0xffff,
                        ;
                        let size: usize = (info.panel_height as usize) * (
                        info.panel_width as usize) / 2;
                        let frame_buffer: Vec<u8> = vec![0u8; size];
                        assert(frame_buffer@ =~= zeros(size as nat));
                        self.dev_info = info;
                        self.frame_buffer = frame_buffer;
                        self.phase = Phase::Discovered;
                        let mut ops = Self::write_reg(I80CPCR, 0x0001);
                        let mut query = Self::get_VCOM();
                        ops.append(&mut query);
                        proof {
                            lemma_step_replies();
                        }
                        Ok(ops)
                    },
                }
            },
            Phase::Discovered => {
                if replies.len() != DISCOVERED_REPLY_BYTES {
                    return Err(ITError::DowncastFailed);
                }
                let vcom = reply_word(replies, DISCOVERED_REPLY_BYTES - 2);
                self.phase = Phase::Ready;
                if VCOM != vcom {
                    Ok(Self::set_VCOM(VCOM))
                } else {
                    Ok(Vec::new())
                }
            },
            Phase::Ready => Ok(Vec::new()),
        }
    }

    /// The transaction that asks the controller for its device info: the
    /// command, then one burst read of the record's words.
    pub fn get_system_info() -> (ops: Vec<BusOp>)
        ensures
            ops@ == get_system_info_ops(),
    {
        let mut ops = Self::lcd_write_cmd_code(USDEF_I80_CMD_GET_DEV_INFO);
        push_read_n_data(&mut ops, DEV_INFO_WORDS);
        ops
    }

    /// The device info in the bytes that `get_system_info`'s operations
    /// received; refused unless they are as many as those operations
    /// transfer.
    pub fn get_system_info_reply(replies: &[u8]) -> (decoded: Result<DevInfo, ITError>)
        ensures
            decoded is Ok <==> replies@.len() == RESET_REPLY_BYTES,
            decoded matches Ok(info) ==> holds_words(
                info,
                reply_words(replies@, 8, DEV_INFO_WORDS as nat),
            ),
            decoded matches Err(e) ==> e == ITError::DowncastFailed,
    {
        if replies.len() != RESET_REPLY_BYTES {
            return Err(ITError::DowncastFailed);
        }
        let mut words: Vec<u16> = Vec::new();
        let mut k: usize = 0;
        while k < 20
            invariant
                k <= 20,
                replies@.len() == 48,
                words@ == reply_words(replies@, 8, k as nat),
            decreases 20 - k,
        {
            words.push(reply_word(replies, 8 + 2 * k));
            k += 1;
            assert(words@ =~= reply_words(replies@, 8, k as nat));
        }
        DevInfo::from_words(words.as_slice())
    }

    /// The transaction that asks for a register's value.
    pub fn read_reg(reg_address: u16) -> (ops: Vec<BusOp>)
        ensures
            ops@ == read_reg_ops(reg_address),
    {
        let mut ops = Self::lcd_write_cmd_code(IT8951_TCON_REG_RD);
        push_framed(&mut ops, PREAMBLE_WRITE, reg_address);
        push_read_data(&mut ops);
        ops
    }

    /// The register's value in the bytes that `read_reg`'s operations
    /// received: the word that the last two of the fourteen make.
    pub fn read_reg_reply(replies: &[u8]) -> (value: Option<u16>)
        ensures
            value is Some <==> replies@.len() == 14,
            value matches Some(word) ==> word == word_of(replies@[12], replies@[13]),
    {
        if replies.len() != 14 {
            return None;
        }
        Some(reply_word(replies, 12))
    }

    /// The transaction that sets a register.
    pub fn write_reg(reg_address: u16, value: u16) -> (ops: Vec<BusOp>)
        ensures
            ops@ == write_reg_ops(reg_address, value),
    {
        let mut ops = Self::lcd_write_cmd_code(IT8951_TCON_REG_WR);
        push_framed(&mut ops, PREAMBLE_WRITE, reg_address);
        push_framed(&mut ops, PREAMBLE_WRITE, value);
        ops
    }

    /// The transaction that asks for the reference voltage.
    #[allow(non_snake_case)]
    pub fn get_VCOM() -> (ops: Vec<BusOp>)
        ensures
            ops@ == get_vcom_ops(),
    {
        let mut ops = Self::lcd_write_cmd_code(USDEF_I80_CMD_VCOM);
        push_framed(&mut ops, PREAMBLE_WRITE, 0);
        push_read_data(&mut ops);
        ops
    }

    /// The reference voltage in the bytes that `get_VCOM`'s operations
    /// received: the word that the last two of the fourteen make.
    #[allow(non_snake_case)]
    pub fn get_VCOM_reply(replies: &[u8]) -> (vcom: Option<u16>)
        ensures
            vcom is Some <==> replies@.len() == 14,
            vcom matches Some(word) ==> word == word_of(replies@[12], replies@[13]),
    {
        if replies.len() != 14 {
            return None;
        }
        Some(reply_word(replies, 12))
    }

    /// The transaction that sets the reference voltage.
    #[allow(non_snake_case)]
    pub fn set_VCOM(vcom: u16) -> (ops: Vec<BusOp>)
        ensures
            ops@ == set_vcom_ops(vcom),
    {
        let mut ops = Self::lcd_write_cmd_code(USDEF_I80_CMD_VCOM);
        push_framed(&mut ops, PREAMBLE_WRITE, 1);
        push_framed(&mut ops, PREAMBLE_WRITE, vcom);
        ops
    }

    /// The phase that sends a command code.
    pub fn lcd_write_cmd_code(cmd_code: u16) -> (ops: Vec<BusOp>)
        ensures
            ops@ == write_cmd_code_ops(cmd_code),
    {
        let mut ops: Vec<BusOp> = Vec::new();
        push_framed(&mut ops, PREAMBLE_COMMAND, cmd_code);
        assert(ops@ =~= write_cmd_code_ops(cmd_code));
        ops
    }

    /// A command and the first `arg_number` of its arguments.
    pub fn lcd_send_cmd_arg(cmd_code: u16, arg: [u16; 5], arg_number: u16) -> (ops: Vec<BusOp>)
        requires
            arg_number <= 5,
        ensures
            ops@ == send_cmd_arg_ops(cmd_code, arg@.take(arg_number as int)),
    {
        let mut ops = Self::lcd_write_cmd_code(cmd_code);
        assert(arg@.take(0) =~= Seq::<u16>::empty());
        let mut n: u16 = 0;
        while n < arg_number
            invariant
                n <= arg_number <= 5,
                ops@ == send_cmd_arg_ops(cmd_code, arg@.take(n as int)),
            decreases arg_number - n,
        {
            push_framed(&mut ops, PREAMBLE_WRITE, arg[n as usize]);
            assert(arg@.take(n + 1).drop_last() =~= arg@.take(n as int));
            n += 1;
        }
        ops
    }

    /// The phase that sends a data word.
    pub fn lcd_write_data(data: u16) -> (ops: Vec<BusOp>)
        ensures
            ops@ == write_data_ops(data),
    {
        let mut ops: Vec<BusOp> = Vec::new();
        push_framed(&mut ops, PREAMBLE_WRITE, data);
        assert(ops@ =~= write_data_ops(data));
        ops
    }

    /// The phase that streams the first `word_count` bytes of the frame
    /// buffer: the controller ready, the select line low, the write preamble,
    /// then the buffer pair by pair with the second byte of each pair first,
    /// the select line high.
    pub fn lcd_write_n_data(&self, word_count: u32) -> (ops: Vec<BusOp>)
        requires
            word_count + word_count % 2 <= self@.frame_buffer.len(),
        ensures
            ops@ == write_n_data_ops(self@.frame_buffer, word_count as nat),
    {
        let mut ops: Vec<BusOp> = Vec::new();
        ops.push(BusOp::WaitHigh { pin: HRDY });
        ops.push(BusOp::GpioWrite { pin: CS, on: LOW });
        push_word(&mut ops, PREAMBLE_WRITE);
        let ghost head = ops@;
        let ghost buffer = self.frame_buffer@;
        let len = self.frame_buffer.len();
        let mut n: usize = 0;
        while n < word_count as usize
            invariant
                n % 2 == 0,
                n <= word_count + word_count % 2 <= buffer.len() == len,
                buffer == self.frame_buffer@,
                ops@ == head + streamed(buffer, n as nat),
            decreases word_count + 1 - n,
        {
            ops.push(BusOp::SpiTransfer { value: self.frame_buffer[n + 1] });
            ops.push(BusOp::SpiTransfer { value: self.frame_buffer[n] });
            n += 2;
            assert(ops@ =~= head + streamed(buffer, n as nat));
        }
        ops.push(BusOp::GpioWrite { pin: CS, on: HIGH });
        assert(streamed(buffer, n as nat) =~= streamed(buffer, word_count as nat));
        assert(ops@ =~= write_n_data_ops(buffer, word_count as nat));
        ops
    }

    /// Judges one look at the ready line while the controller is waited
    /// for. Any level but zero says that the controller is ready. At level
    /// zero the line is to be read again: without a bound on the polls for
    /// ever, with a bound until the polls are used up, which is a timeout.
    pub fn lcd_wait_for_ready(level: u8, polls_left: Option<u32>) -> (next: Result<Poll, ITError>)
        ensures
            level != 0 ==> next == Ok::<Poll, ITError>(Poll::Ready),
            level == 0 ==> match polls_left {
                None => next == Ok::<Poll, ITError>(Poll::Again { polls_left: None }),
                Some(left) => if left == 0 {
                    next == Err::<Poll, ITError>(ITError::ProtocolTimeout)
                } else {
                    next == Ok::<Poll, ITError>(
                        Poll::Again { polls_left: Some((left - 1) as u32) },
                    )
                },
            },
    {
        if level != 0 {
            return Ok(Poll::Ready);
        }
        match polls_left {
            None => Ok(Poll::Again { polls_left: None }),
            Some(left) => {
                if left == 0 {
                    Err(ITError::ProtocolTimeout)
                } else {
                    Ok(Poll::Again { polls_left: Some(left - 1) })
                }
            },
        }
    }

    /// The phase that reads one word.
    pub fn lcd_read_data() -> (ops: Vec<BusOp>)
        ensures
            ops@ == read_data_ops(),
    {
        let mut ops: Vec<BusOp> = Vec::new();
        push_read_data(&mut ops);
        assert(ops@ =~= read_data_ops());
        ops
    }

    /// The word in the bytes that `lcd_read_data`'s operations received:
    /// of the six, the last two, high byte first.
    pub fn lcd_read_data_reply(replies: &[u8]) -> (value: Option<u16>)
        ensures
            value is Some <==> replies@.len() == 6,
            value matches Some(word) ==> word == word_of(replies@[4], replies@[5]),
    {
        if replies.len() != 6 {
            return None;
        }
        Some(reply_word(replies, 4))
    }

    /// The phase that reads `word_count` words in one burst.
    pub fn lcd_read_n_data(word_count: u32) -> (ops: Vec<BusOp>)
        requires
            word_count > 0,
        ensures
            ops@ == read_n_data_ops(word_count as nat),
    {
        let mut ops: Vec<BusOp> = Vec::new();
        push_read_n_data(&mut ops, word_count);
        assert(ops@ =~= read_n_data_ops(word_count as nat));
        ops
    }

    /// The words in the bytes that `lcd_read_n_data`'s operations received:
    /// after the four bytes of the head, each pair of bytes is a word, high
    /// byte first.
    pub fn lcd_read_n_data_reply(replies: &[u8], word_count: u32) -> (words: Option<Vec<u16>>)
        ensures
            words is Some <==> replies@.len() == 4 + 2 * word_count,
            words matches Some(w) ==> w@ == reply_words(replies@, 4, word_count as nat),
    {
        let len = replies.len();
        if len as u64 != 4 + 2 * (word_count as u64) {
            return None;
        }
        let mut words: Vec<u16> = Vec::new();
        let mut k: usize = 0;
        while k < word_count as usize
            invariant
                k <= word_count,
                len == replies@.len() == 4 + 2 * word_count,
                words@ == reply_words(replies@, 4, k as nat),
            decreases word_count - k,
        {
            words.push(reply_word(replies, 4 + 2 * k));
            k += 1;
            assert(words@ =~= reply_words(replies@, 4, k as nat));
        }
        Some(words)
    }

    /// The transaction that opens the load of an area: the command with the
    /// encoding and the rectangle as its five arguments.
    pub fn load_image_area_start(load_image_info: &LdImgInfo, area_image_info: &AreaImgInfo) -> (ops:
        Vec<BusOp>)
        ensures
            ops@ == load_image_area_start_ops(*load_image_info, *area_image_info),
    {
        let flags: u16 = (load_image_info.endian_type << 8) | (load_image_info.pixel_format << 4)
            | load_image_info.rotate;
        let arg: [u16; 5] = [
            flags,
            area_image_info.x,
            area_image_info.y,
            area_image_info.width,
            area_image_info.height,
        ];
        let ops = Self::lcd_send_cmd_arg(IT8951_TCON_LD_IMG_AREA, arg, 5);
        assert(arg@.take(5) =~= seq![
            load_flags(*load_image_info),
            area_image_info.x,
            area_image_info.y,
            area_image_info.width,
            area_image_info.height,
        ]);
        ops
    }

    /// The transaction that closes the load of an area.
    pub fn load_image_end() -> (ops: Vec<BusOp>)
        ensures
            ops@ == load_image_end_ops(),
    {
        Self::lcd_write_cmd_code(IT8951_TCON_LD_IMG_END)
    }

    /// The transaction that loads an area from the frame buffer: the load is
    /// opened, the area's bytes are streamed, the load is closed.
    pub fn write_host_area_packed_pixel(
        &self,
        load_image_info: &LdImgInfo,
        area_image_info: &AreaImgInfo,
        factor: u8,
    ) -> (ops: Vec<BusOp>)
        requires
            factor > 0,
            packed_bytes(*area_image_info, factor) + packed_bytes(*area_image_info, factor) % 2
                <= self@.frame_buffer.len(),
        ensures
            ops@ == write_host_area_packed_pixel_ops(
                self@.frame_buffer,
                *load_image_info,
                *area_image_info,
                factor,
            ),
    {
        let mut ops = Self::load_image_area_start(load_image_info, area_image_info);
        assert(area_image_info.height * area_image_info.width <= 0xffff * 0xffff)
            by (nonlinear_arith)
            requires
                area_image_info.height <= 0xffff,
                area_image_info.width <= 0xffff,
        ;
        let word_count: u32 = ((area_image_info.height as u32) * (area_image_info.width as u32))
            / (2 * factor as u32);
        let mut stream = self.lcd_write_n_data(word_count);
        ops.append(&mut stream);
        let mut end = Self::load_image_end();
        ops.append(&mut end);
        ops
    }

    /// The transaction that makes the panel show an area of what was loaded.
    pub fn display_area(x: u16, y: u16, width: u16, height: u16, dpy_mode: u16) -> (ops: Vec<BusOp>)
        ensures
            ops@ == display_area_ops(x, y, width, height, dpy_mode),
    {
        let mut ops = Self::lcd_write_cmd_code(USDEF_I80_CMD_DPY_AREA);
        push_framed(&mut ops, PREAMBLE_WRITE, x);
        push_framed(&mut ops, PREAMBLE_WRITE, y);
        push_framed(&mut ops, PREAMBLE_WRITE, width);
        push_framed(&mut ops, PREAMBLE_WRITE, height);
        push_framed(&mut ops, PREAMBLE_WRITE, dpy_mode);
        ops
    }

    /// What a display of `rect_width` by `rect_height` streams from the frame
    /// buffer, in bytes: the rectangle held to the panel, at two pixels a
    /// byte, an odd count rounded up to the pair.
    pub open spec fn display_bytes(&self, rect_width: u16, rect_height: u16) -> nat {
        let area = AreaImgInfo {
            x: 0,
            y: 0,
            width: clipped(rect_width, self@.dev_info.panel_width),
            height: clipped(rect_height, self@.dev_info.panel_height),
        };
        packed_bytes(area, 1) + packed_bytes(area, 1) % 2
    }

    /// What displaying a rectangle asks of the bus.
    pub open spec fn display_ops(&self, x: u16, y: u16, rect_width: u16, rect_height: u16) -> Seq<
        BusOp,
    > {
        let width = clipped(rect_width, self@.dev_info.panel_width);
        let height = clipped(rect_height, self@.dev_info.panel_height);
        write_host_area_packed_pixel_ops(
            self@.frame_buffer,
            LdImgInfo {
                endian_type: IT8951_LDIMG_L_ENDIAN,
                pixel_format: IT8951_4BPP,
                rotate: IT8951_ROTATE_0,
            },
            AreaImgInfo { x, y, width, height },
            1,
        ) + display_area_ops(x, y, width, height, IT8951_MODE_2)
    }

    /// Whether the session is ready and the frame buffer holds what a
    /// display of this rectangle streams.
    pub fn can_display(&self, rect_width: u16, rect_height: u16) -> (can: bool)
        ensures
            can == (self@.phase == Phase::Ready && self.display_bytes(rect_width, rect_height)
                <= self@.frame_buffer.len()),
    {
        let width = if rect_width > self.dev_info.panel_width {
            self.dev_info.panel_width
        } else {
            rect_width
        };
        let height = if rect_height > self.dev_info.panel_height {
            self.dev_info.panel_height
        } else {
            rect_height
        };
        assert(height * width <= 0xffff * 0xffff) by (nonlinear_arith)
            requires
                height <= 0xffff,
                width <= 0xffff,
        ;
        let bytes: u64 = (height as u64 * width as u64) / 2;
        let ready = match self.phase {
            Phase::Ready => true,
            _ => false,
        };
        ready && bytes + bytes % 2 <= self.frame_buffer.len() as u64
    }

    /// Displays the rectangle at `x`, `y` from the frame buffer. Width and
    /// height are held to the panel's. The area is loaded as 4 bits per
    /// pixel, little-endian and unrotated, from the start of the frame
    /// buffer, and then shown with the partial-refresh waveform.
    pub fn display(&self, x: u16, y: u16, rect_width: u16, rect_height: u16) -> (ops: Vec<BusOp>)
        requires
            self@.phase == Phase::Ready,
            self.display_bytes(rect_width, rect_height) <= self@.frame_buffer.len(),
        ensures
            ops@ == self.display_ops(x, y, rect_width, rect_height),
    {
        let width: u16 = self.dev_info.panel_width;
        let height: u16 = self.dev_info.panel_height;
        let mut rect_width = rect_width;
        let mut rect_height = rect_height;
        if rect_width > width {
            rect_width = width;
        }
        if rect_height > height {
            rect_height = height;
        }
        let load_image_info = LdImgInfo {
            endian_type: IT8951_LDIMG_L_ENDIAN,
            pixel_format: IT8951_4BPP,
            rotate: IT8951_ROTATE_0,
        };
        let area_image_info = AreaImgInfo { x, y, width: rect_width, height: rect_height };
        let mut ops = self.write_host_area_packed_pixel(&load_image_info, &area_image_info, 1);
        let mut show = Self::display_area(x, y, rect_width, rect_height, IT8951_MODE_2);
        ops.append(&mut show);
        ops
    }

    /// Sets one byte of the frame buffer: that of column `x` in row `y` of
    /// rows `width` bytes long.
    pub fn draw_buffer_pixel(&mut self, x: u16, y: u16, width: u16, color: u8)
        requires
            y * width + x < old(self)@.frame_buffer.len(),
        ensures
            final(self)@ == (ITView {
                frame_buffer: old(self)@.frame_buffer.update(y * width + x, color),
                ..old(self)@
            }),
    {
        assert(y * width <= 0xffff * 0xffff) by (nonlinear_arith)
            requires
                y <= 0xffff,
                width <= 0xffff,
        ;
        let index: usize = y as usize * width as usize + x as usize;
        self.frame_buffer[index] = color;
    }

    /// Replaces the frame buffer by `grey_vec`.
    pub fn load_buffer_from_vec(&mut self, grey_vec: Vec<u8>)
        ensures
            final(self)@ == (ITView { frame_buffer: grey_vec@, ..old(self)@ }),
    {
        self.frame_buffer = grey_vec;
    }
}

} // verus!
