use vstd::prelude::*;

pub use crate::options::{
    DivisionTransmissionFormat, Flip, MuteOutput, SaveAdjustment, SaveOpticalAlignmentBiphase,
    SavePictureQuality, SaveVideoPosition, ShutdownOption, StoppedOutput, TestPattern,
};
pub use crate::results::{
    AdjustmentControlResult, AdjustmentStepResult, BootResult, CommandEmergencyResult,
    CommandResult, EmergencyResult, TemperatureEmergencyRecoveryResult, UpdateResult,
};

verus! {

/// Why a frame could not be decoded or a request could not be built.
#[derive(Debug, Clone, Copy, PartialEq, Eq)]
pub enum CommandError {
    WrongCommand { expected: u8, actual: u8 },
    WrongPayloadSize { expected: usize, actual: usize },
    InvalidPayloadSize(u8),
    InvalidValue { field: &'static str, value: u8 },
    PayloadTooLarge(usize),
    DivisionBlockTooLarge { max: usize, actual: usize },
}

// ---------------------------------------------------------------------------
// Wire-format building blocks
// ---------------------------------------------------------------------------

/// A frame with a size byte: command id, operand count, operands.
pub open spec fn sized_frame(cmd: u8, ops: Seq<u8>) -> Seq<u8> {
    seq![cmd, ops.len() as u8] + ops
}

/// Little-endian bytes of a 16-bit value.
pub open spec fn le_u16_bytes(v: u16) -> Seq<u8> {
    seq![(v % 256) as u8, (v / 256) as u8]
}

/// Little-endian bytes of a 32-bit value.
pub open spec fn le_u32_bytes(v: u32) -> Seq<u8> {
    seq![(v % 256) as u8, (v / 256 % 256) as u8, (v / 65536 % 256) as u8, (v / 16777216) as u8]
}

/// The 32-bit value whose little-endian bytes start at `at` in `s`.
pub open spec fn u32_from_le(s: Seq<u8>, at: int) -> u32 {
    (s[at] + 256 * s[at + 1] + 65536 * s[at + 2] + 16777216 * s[at + 3]) as u32
}

/// `n` zero bytes.
pub open spec fn zeros(n: nat) -> Seq<u8> {
    Seq::new(n, |i: int| 0u8)
}

/// `raw` cut to `n` bytes, or filled up to `n` bytes with zeros.
pub open spec fn fit_to_len(raw: Seq<u8>, n: nat) -> Seq<u8> {
    if raw.len() >= n {
        raw.take(n as int)
    } else {
        raw + zeros((n - raw.len()) as nat)
    }
}

/// Reading back the little-endian bytes of a value gives the value.
pub proof fn lemma_le_u32_roundtrip(v: u32)
    ensures
        u32_from_le(le_u32_bytes(v), 0) == v,
{
    let b = le_u32_bytes(v);
    assert(b[0] + 256 * b[1] + 65536 * b[2] + 16777216 * b[3] == v) by (nonlinear_arith)
        requires
            b[0] == v % 256,
            b[1] == v / 256 % 256,
            b[2] == v / 65536 % 256,
            b[3] == v / 16777216,
            v <= 0xFFFF_FFFF,
    {
    }
}

/// The size byte of a sized frame is the number of operands that follow it.
pub proof fn lemma_sized_frame_layout(cmd: u8, ops: Seq<u8>)
    requires
        ops.len() <= 255,
    ensures
        sized_frame(cmd, ops).len() == ops.len() + 2,
        sized_frame(cmd, ops)[0] == cmd,
        sized_frame(cmd, ops)[1] as int == ops.len(),
        sized_frame(cmd, ops).subrange(2, ops.len() as int + 2) == ops,
{
    assert(sized_frame(cmd, ops).subrange(2, ops.len() as int + 2) =~= ops);
}

fn push_le_u16(bytes: &mut Vec<u8>, v: u16)
    ensures
        final(bytes)@ == old(bytes)@ + le_u16_bytes(v),
{
    bytes.push((v % 256) as u8);
    bytes.push((v / 256) as u8);
    assert(final(bytes)@ =~= old(bytes)@ + le_u16_bytes(v));
}

fn push_le_u32(bytes: &mut Vec<u8>, v: u32)
    ensures
        final(bytes)@ == old(bytes)@ + le_u32_bytes(v),
{
    bytes.push((v % 256) as u8);
    bytes.push((v / 256 % 256) as u8);
    bytes.push((v / 65536 % 256) as u8);
    bytes.push((v / 16777216) as u8);
    assert(final(bytes)@ =~= old(bytes)@ + le_u32_bytes(v));
}

fn push_all(bytes: &mut Vec<u8>, data: &[u8])
    ensures
        final(bytes)@ == old(bytes)@ + data@,
{
    let mut i: usize = 0;
    while i < data.len()
        invariant
            i <= data@.len(),
            bytes@ == old(bytes)@ + data@.take(i as int),
        decreases data@.len() - i,
    {
        bytes.push(data[i]);
        i = i + 1;
        assert(bytes@ =~= old(bytes)@ + data@.take(i as int));
    }
    assert(data@.take(i as int) =~= data@);
}

fn read_le_u32(s: &[u8], at: usize) -> (v: u32)
    requires
        at + 4 <= s@.len(),
    ensures
        v == u32_from_le(s@, at as int),
{
    let b0 = s[at] as u32;
    let b1 = s[at + 1] as u32;
    let b2 = s[at + 2] as u32;
    let b3 = s[at + 3] as u32;
    b0 + 256 * b1 + 65536 * b2 + 16777216 * b3
}

// ---------------------------------------------------------------------------
// Requests
// ---------------------------------------------------------------------------

/// Something that can be sent to the module as one frame.
pub trait Request {
    /// The command id that the frame carries.
    spec fn spec_command_id(&self) -> u8;

    /// The bytes of the frame.
    spec fn spec_to_bytes(&self) -> Seq<u8>;

    fn command_id(&self) -> (id: u8)
        ensures
            id == self.spec_command_id(),
    ;

    fn to_bytes(&self) -> (bytes: Vec<u8>)
        ensures
            bytes@ == self.spec_to_bytes(),
    ;

    /// Every frame starts with its command id.
    proof fn lemma_frame_starts_with_command_id(&self)
        ensures
            self.spec_to_bytes().len() >= 1,
            self.spec_to_bytes()[0] == self.spec_command_id(),
    ;
}

/// A request sent as `CMD`, operand count, operands.
pub trait FixedSizeRequest {
    const CMD: u8;

    /// The operand bytes.
    spec fn spec_ops(&self) -> Seq<u8>;

    fn ops(&self) -> (ops: Vec<u8>)
        ensures
            ops@ == self.spec_ops(),
    ;

    /// The operand count fits the size byte.
    proof fn lemma_ops_fit_size_byte(&self)
        ensures
            self.spec_ops().len() <= 255,
    ;
}

impl<T: FixedSizeRequest> Request for T {
    open spec fn spec_command_id(&self) -> u8 {
        T::CMD
    }

    open spec fn spec_to_bytes(&self) -> Seq<u8> {
        sized_frame(T::CMD, self.spec_ops())
    }

    fn command_id(&self) -> (id: u8) {
        T::CMD
    }

    fn to_bytes(&self) -> (bytes: Vec<u8>) {
        proof {
            self.lemma_ops_fit_size_byte();
        }
        command_with_sized_ops(T::CMD, self.ops())
    }

    proof fn lemma_frame_starts_with_command_id(&self) {
    }
}

/// The frame of a fixed-size request: its size byte counts exactly the operands that follow.
pub proof fn lemma_fixed_size_frame<T: FixedSizeRequest>(request: &T)
    ensures
        request.spec_to_bytes().len() == request.spec_ops().len() + 2,
        request.spec_to_bytes()[0] == T::CMD,
        request.spec_to_bytes()[1] as int == request.spec_to_bytes().len() - 2,
        request.spec_to_bytes().subrange(2, request.spec_to_bytes().len() as int)
            == request.spec_ops(),
{
    request.lemma_ops_fit_size_byte();
    lemma_sized_frame_layout(T::CMD, request.spec_ops());
}

fn command_with_sized_ops(cmd: u8, ops: Vec<u8>) -> (bytes: Vec<u8>)
    requires
        ops@.len() <= 255,
    ensures
        bytes@ == sized_frame(cmd, ops@),
{
    let mut bytes = Vec::new();
    bytes.push(cmd);
    bytes.push(ops.len() as u8);
    push_all(&mut bytes, ops.as_slice());
    assert(bytes@ =~= sized_frame(cmd, ops@));
    bytes
}

/// Frame of an update request: command id, data size, checksum, data (no size byte).
pub open spec fn update_frame(cmd: u8, data_size: u32, checksum: u32, data: Seq<u8>) -> Seq<u8> {
    seq![cmd] + le_u32_bytes(data_size) + le_u32_bytes(checksum) + data
}

fn update_bytes(cmd: u8, data_size: u32, checksum: u32, data: &[u8]) -> (bytes: Vec<u8>)
    ensures
        bytes@ == update_frame(cmd, data_size, checksum, data@),
{
    let mut bytes = Vec::new();
    bytes.push(cmd);
    push_le_u32(&mut bytes, data_size);
    push_le_u32(&mut bytes, checksum);
    push_all(&mut bytes, data);
    assert(bytes@ =~= update_frame(cmd, data_size, checksum, data@));
    bytes
}

/// Frame that starts a division transmission (no size byte).
pub open spec fn division_start_frame(
    cmd: u8,
    data_size: u32,
    checksum: u32,
    format: DivisionTransmissionFormat,
    max_block_number: u16,
) -> Seq<u8> {
    seq![cmd] + le_u32_bytes(data_size) + le_u32_bytes(checksum) + seq![format.spec_byte()]
        + le_u16_bytes(max_block_number)
}

fn division_start_bytes(
    cmd: u8,
    data_size: u32,
    checksum: u32,
    format: DivisionTransmissionFormat,
    max_block_number: u16,
) -> (bytes: Vec<u8>)
    ensures
        bytes@ == division_start_frame(cmd, data_size, checksum, format, max_block_number),
{
    let mut bytes = Vec::new();
    bytes.push(cmd);
    push_le_u32(&mut bytes, data_size);
    push_le_u32(&mut bytes, checksum);
    bytes.push(format.to_byte());
    push_le_u16(&mut bytes, max_block_number);
    assert(bytes@ =~= division_start_frame(cmd, data_size, checksum, format, max_block_number));
    bytes
}

/// Colour of a test picture.
#[derive(Debug, Clone, Copy, PartialEq, Eq)]
pub struct Rgb {
    pub r: u8,
    pub g: u8,
    pub b: u8,
}

/// A signed horizontal alignment step, sent as its two's-complement byte.
#[derive(Debug, Clone, Copy, PartialEq, Eq)]
pub struct I8Byte(pub i8);

impl From<I8Byte> for u8 {
    fn from(value: I8Byte) -> (byte: u8) {
        value.0 as u8
    }
}

impl vstd::std_specs::convert::FromSpecImpl<I8Byte> for u8 {
    open spec fn obeys_from_spec() -> bool {
        true
    }

    open spec fn from_spec(v: I8Byte) -> u8 {
        v.0 as u8
    }
}

/// Horizontal position of the video output, sent as its two's-complement byte.
#[derive(Debug, Clone, Copy, PartialEq, Eq)]
pub struct Pan(pub i8);

impl From<Pan> for u8 {
    fn from(value: Pan) -> (byte: u8) {
        value.0 as u8
    }
}

impl vstd::std_specs::convert::FromSpecImpl<Pan> for u8 {
    open spec fn obeys_from_spec() -> bool {
        true
    }

    open spec fn from_spec(v: Pan) -> u8 {
        v.0 as u8
    }
}

/// Vertical position of the video output, sent as its two's-complement byte.
#[derive(Debug, Clone, Copy, PartialEq, Eq)]
pub struct Tilt(pub i8);

impl From<Tilt> for u8 {
    fn from(value: Tilt) -> (byte: u8) {
        value.0 as u8
    }
}

impl vstd::std_specs::convert::FromSpecImpl<Tilt> for u8 {
    open spec fn obeys_from_spec() -> bool {
        true
    }

    open spec fn from_spec(v: Tilt) -> u8 {
        v.0 as u8
    }
}

/// Which parts of the user parameters to save.
#[derive(Debug, Clone, Copy, PartialEq, Eq)]
pub struct SaveUserParam {
    pub video_position: SaveVideoPosition,
    pub optical_alignment_biphase: SaveOpticalAlignmentBiphase,
    pub picture_quality: SavePictureQuality,
}

impl FixedSizeRequest for SaveUserParam {
    const CMD: u8 = 0x07;

    open spec fn spec_ops(&self) -> Seq<u8> {
        seq![
            0x00,
            0x00,
            self.video_position.spec_byte(),
            self.optical_alignment_biphase.spec_byte(),
            self.picture_quality.spec_byte(),
        ]
    }

    fn ops(&self) -> (ops: Vec<u8>) {
        let mut ops = Vec::new();
        ops.push(0x00);
        ops.push(0x00);
        ops.push(self.video_position.to_byte());
        ops.push(self.optical_alignment_biphase.to_byte());
        ops.push(self.picture_quality.to_byte());
        assert(ops@ =~= self.spec_ops());
        ops
    }

    proof fn lemma_ops_fit_size_byte(&self) {
    }
}

/// New position and flip of the video output.
#[derive(Debug, Clone, Copy, PartialEq, Eq)]
pub struct SetVideoOutputPosition {
    pub pan: Pan,
    pub tilt: Tilt,
    pub flip: Flip,
}

impl FixedSizeRequest for SetVideoOutputPosition {
    const CMD: u8 = 0x26;

    open spec fn spec_ops(&self) -> Seq<u8> {
        seq![
            self.pan.0 as u8,
            self.tilt.0 as u8,
            self.flip.spec_byte(),
            0x64,
            0x00,
            0x00,
            0x00,
            0x00,
            0x00,
        ]
    }

    fn ops(&self) -> (ops: Vec<u8>) {
        let mut ops = Vec::new();
        ops.push(self.pan.0 as u8);
        ops.push(self.tilt.0 as u8);
        ops.push(self.flip.to_byte());
        ops.push(0x64);
        ops.push(0x00);
        ops.push(0x00);
        ops.push(0x00);
        ops.push(0x00);
        ops.push(0x00);
        assert(ops@ =~= self.spec_ops());
        ops
    }

    proof fn lemma_ops_fit_size_byte(&self) {
    }
}

/// Horizontal and vertical alignment of the five laser beams.
#[derive(Debug, Clone, Copy, PartialEq, Eq)]
pub struct OpticalAlignment {
    pub r0_horizontal: I8Byte,
    pub r1_horizontal: I8Byte,
    pub g0_horizontal: I8Byte,
    pub g1_horizontal: I8Byte,
    pub b_horizontal: I8Byte,
    pub r0_vertical: u8,
    pub r1_vertical: u8,
    pub g0_vertical: u8,
    pub g1_vertical: u8,
    pub b_vertical: u8,
}

impl OpticalAlignment {
    /// The thirteen operand bytes of an alignment.
    pub open spec fn spec_ops(self) -> Seq<u8> {
        seq![
            self.r0_horizontal.0 as u8,
            self.r1_horizontal.0 as u8,
            self.g0_horizontal.0 as u8,
            self.g1_horizontal.0 as u8,
            self.b_horizontal.0 as u8,
            self.r0_vertical,
            self.r1_vertical,
            self.g0_vertical,
            self.g1_vertical,
            self.b_vertical,
            0x00,
            0x00,
            0x00,
        ]
    }

    pub fn ops(self) -> (ops: [u8; 13])
        ensures
            ops@ == self.spec_ops(),
    {
        let ops = [
            self.r0_horizontal.0 as u8,
            self.r1_horizontal.0 as u8,
            self.g0_horizontal.0 as u8,
            self.g1_horizontal.0 as u8,
            self.b_horizontal.0 as u8,
            self.r0_vertical,
            self.r1_vertical,
            self.g0_vertical,
            self.g1_vertical,
            self.b_vertical,
            0x00,
            0x00,
            0x00,
        ];
        assert(ops@ =~= self.spec_ops());
        ops
    }
}

/// New optical alignment.
#[derive(Debug, Clone, Copy, PartialEq, Eq)]
pub struct SetOpticalAlignment {
    pub alignment: OpticalAlignment,
}

impl FixedSizeRequest for SetOpticalAlignment {
    const CMD: u8 = 0x28;

    open spec fn spec_ops(&self) -> Seq<u8> {
        self.alignment.spec_ops()
    }

    fn ops(&self) -> (ops: Vec<u8>) {
        let array = self.alignment.ops();
        let mut ops = Vec::new();
        let mut i: usize = 0;
        while i < 13
            invariant
                i <= 13,
                array@ == self.spec_ops(),
                ops@ == array@.take(i as int),
            decreases 13 - i,
        {
            ops.push(array[i]);
            i = i + 1;
            assert(ops@ =~= array@.take(i as int));
        }
        assert(array@.take(13) =~= array@);
        ops
    }

    proof fn lemma_ops_fit_size_byte(&self) {
    }
}

/// New biphase amount.
#[derive(Debug, Clone, Copy, PartialEq, Eq)]
pub struct SetBiphase {
    pub amount: u32,
}

impl FixedSizeRequest for SetBiphase {
    const CMD: u8 = 0x2A;

    open spec fn spec_ops(&self) -> Seq<u8> {
        le_u32_bytes(self.amount)
    }

    fn ops(&self) -> (ops: Vec<u8>) {
        let mut ops = Vec::new();
        push_le_u32(&mut ops, self.amount);
        assert(ops@ =~= self.spec_ops());
        ops
    }

    proof fn lemma_ops_fit_size_byte(&self) {
    }
}

/// All picture-quality settings at once.
#[derive(Debug, Clone, Copy, PartialEq, Eq)]
pub struct PictureQuality {
    pub contrast: i8,
    pub brightness: i8,
    pub hue_u: i8,
    pub hue_v: i8,
    pub saturation_u: i8,
    pub saturation_v: i8,
    pub sharpness: u8,
}

/// New picture-quality settings.
#[derive(Debug, Clone, Copy, PartialEq, Eq)]
pub struct SetAllPictureQuality {
    pub picture_quality: PictureQuality,
}

impl FixedSizeRequest for SetAllPictureQuality {
    const CMD: u8 = 0x41;

    open spec fn spec_ops(&self) -> Seq<u8> {
        seq![
            self.picture_quality.contrast as u8,
            self.picture_quality.brightness as u8,
            self.picture_quality.hue_u as u8,
            self.picture_quality.hue_v as u8,
            self.picture_quality.saturation_u as u8,
            self.picture_quality.saturation_v as u8,
            0x00,
            self.picture_quality.sharpness,
            0x00,
        ]
    }

    fn ops(&self) -> (ops: Vec<u8>) {
        let mut ops = Vec::new();
        ops.push(self.picture_quality.contrast as u8);
        ops.push(self.picture_quality.brightness as u8);
        ops.push(self.picture_quality.hue_u as u8);
        ops.push(self.picture_quality.hue_v as u8);
        ops.push(self.picture_quality.saturation_u as u8);
        ops.push(self.picture_quality.saturation_v as u8);
        ops.push(0x00);
        ops.push(self.picture_quality.sharpness);
        ops.push(0x00);
        assert(ops@ =~= self.spec_ops());
        ops
    }

    proof fn lemma_ops_fit_size_byte(&self) {
    }
}

/// New hue (U and V).
#[derive(Debug, Clone, Copy, PartialEq, Eq)]
pub struct SetHue {
    pub hue_u: i8,
    pub hue_v: i8,
}

impl FixedSizeRequest for SetHue {
    const CMD: u8 = 0x47;

    open spec fn spec_ops(&self) -> Seq<u8> {
        seq![self.hue_u as u8, self.hue_v as u8]
    }

    fn ops(&self) -> (ops: Vec<u8>) {
        let mut ops = Vec::new();
        ops.push(self.hue_u as u8);
        ops.push(self.hue_v as u8);
        assert(ops@ =~= self.spec_ops());
        ops
    }

    proof fn lemma_ops_fit_size_byte(&self) {
    }
}

/// New saturation (U and V).
#[derive(Debug, Clone, Copy, PartialEq, Eq)]
pub struct SetSaturation {
    pub saturation_u: i8,
    pub saturation_v: i8,
}

impl FixedSizeRequest for SetSaturation {
    const CMD: u8 = 0x49;

    open spec fn spec_ops(&self) -> Seq<u8> {
        seq![self.saturation_u as u8, self.saturation_v as u8]
    }

    fn ops(&self) -> (ops: Vec<u8>) {
        let mut ops = Vec::new();
        ops.push(self.saturation_u as u8);
        ops.push(self.saturation_v as u8);
        assert(ops@ =~= self.spec_ops());
        ops
    }

    proof fn lemma_ops_fit_size_byte(&self) {
    }
}

/// New sharpness.
#[derive(Debug, Clone, Copy, PartialEq, Eq)]
pub struct SetSharpness {
    pub sharpness: u8,
}

impl FixedSizeRequest for SetSharpness {
    const CMD: u8 = 0x4F;

    open spec fn spec_ops(&self) -> Seq<u8> {
        seq![self.sharpness]
    }

    fn ops(&self) -> (ops: Vec<u8>) {
        let mut ops = Vec::new();
        ops.push(self.sharpness);
        ops
    }

    proof fn lemma_ops_fit_size_byte(&self) {
    }
}

/// Shows a test picture.
#[derive(Debug, Clone, Copy, PartialEq, Eq)]
pub struct OutputTestPicture {
    pub pattern: TestPattern,
    pub setting: u8,
    pub background_color: Rgb,
    pub foreground_color: Rgb,
}

impl FixedSizeRequest for OutputTestPicture {
    const CMD: u8 = 0xA3;

    open spec fn spec_ops(&self) -> Seq<u8> {
        seq![
            self.pattern.spec_byte(),
            self.setting,
            self.background_color.r,
            self.background_color.g,
            self.background_color.b,
            self.foreground_color.r,
            self.foreground_color.g,
            self.foreground_color.b,
        ] + zeros(9)
    }

    fn ops(&self) -> (ops: Vec<u8>) {
        let mut ops = Vec::new();
        ops.push(self.pattern.to_byte());
        ops.push(self.setting);
        ops.push(self.background_color.r);
        ops.push(self.background_color.g);
        ops.push(self.background_color.b);
        ops.push(self.foreground_color.r);
        ops.push(self.foreground_color.g);
        ops.push(self.foreground_color.b);
        let ghost head = ops@;
        while ops.len() < 17
            invariant
                8 <= ops@.len() <= 17,
                ops@ == head + zeros((ops@.len() - 8) as nat),
            decreases 17 - ops@.len(),
        {
            ops.push(0x00);
            assert(ops@ =~= head + zeros((ops@.len() - 8) as nat));
        }
        assert(ops@ =~= self.spec_ops());
        ops
    }

    proof fn lemma_ops_fit_size_byte(&self) {
    }
}

/// Sends a whole firmware image in one frame.
#[derive(Debug, Clone, PartialEq, Eq)]
pub struct UpdateFwImage {
    pub data_size: u32,
    pub checksum: u32,
    pub data: Vec<u8>,
}

impl Request for UpdateFwImage {
    open spec fn spec_command_id(&self) -> u8 {
        0x82
    }

    open spec fn spec_to_bytes(&self) -> Seq<u8> {
        update_frame(0x82, self.data_size, self.checksum, self.data@)
    }

    fn command_id(&self) -> (id: u8) {
        0x82
    }

    fn to_bytes(&self) -> (bytes: Vec<u8>) {
        update_bytes(0x82, self.data_size, self.checksum, self.data.as_slice())
    }

    proof fn lemma_frame_starts_with_command_id(&self) {
    }
}

/// Sends a whole picture-data image in one frame.
#[derive(Debug, Clone, PartialEq, Eq)]
pub struct UpdatePictureData {
    pub data_size: u32,
    pub checksum: u32,
    pub data: Vec<u8>,
}

impl Request for UpdatePictureData {
    open spec fn spec_command_id(&self) -> u8 {
        0x84
    }

    open spec fn spec_to_bytes(&self) -> Seq<u8> {
        update_frame(0x84, self.data_size, self.checksum, self.data@)
    }

    fn command_id(&self) -> (id: u8) {
        0x84
    }

    fn to_bytes(&self) -> (bytes: Vec<u8>) {
        update_bytes(0x84, self.data_size, self.checksum, self.data.as_slice())
    }

    proof fn lemma_frame_starts_with_command_id(&self) {
    }
}

/// Starts a firmware update sent in blocks.
#[derive(Debug, Clone, Copy, PartialEq, Eq)]
pub struct DivisionTransmissionUpdateFwImage {
    pub data_size: u32,
    pub checksum: u32,
    pub format: DivisionTransmissionFormat,
    pub max_block_number: u16,
}

impl Request for DivisionTransmissionUpdateFwImage {
    open spec fn spec_command_id(&self) -> u8 {
        0x92
    }

    open spec fn spec_to_bytes(&self) -> Seq<u8> {
        division_start_frame(0x92, self.data_size, self.checksum, self.format, self.max_block_number)
    }

    fn command_id(&self) -> (id: u8) {
        0x92
    }

    fn to_bytes(&self) -> (bytes: Vec<u8>) {
        division_start_bytes(0x92, self.data_size, self.checksum, self.format, self.max_block_number)
    }

    proof fn lemma_frame_starts_with_command_id(&self) {
    }
}

/// Starts a picture-data update sent in blocks.
#[derive(Debug, Clone, Copy, PartialEq, Eq)]
pub struct DivisionTransmissionUpdatePictureData {
    pub data_size: u32,
    pub checksum: u32,
    pub format: DivisionTransmissionFormat,
    pub max_block_number: u16,
}

impl Request for DivisionTransmissionUpdatePictureData {
    open spec fn spec_command_id(&self) -> u8 {
        0x94
    }

    open spec fn spec_to_bytes(&self) -> Seq<u8> {
        division_start_frame(0x94, self.data_size, self.checksum, self.format, self.max_block_number)
    }

    fn command_id(&self) -> (id: u8) {
        0x94
    }

    fn to_bytes(&self) -> (bytes: Vec<u8>) {
        division_start_bytes(0x94, self.data_size, self.checksum, self.format, self.max_block_number)
    }

    proof fn lemma_frame_starts_with_command_id(&self) {
    }
}

impl DivisionTransmissionFormat {
    /// Number of data bytes in one block of this format.
    pub open spec fn spec_block_size(self) -> usize {
        match self {
            DivisionTransmissionFormat::Size64 => 64,
            DivisionTransmissionFormat::Size256 => 256,
            DivisionTransmissionFormat::Size1K => 1024,
            DivisionTransmissionFormat::Size4K => 4096,
            DivisionTransmissionFormat::Size16K => 16384,
        }
    }

    pub fn block_size(self) -> (size: usize)
        ensures
            size == self.spec_block_size(),
    {
        match self {
            DivisionTransmissionFormat::Size64 => 64,
            DivisionTransmissionFormat::Size256 => 256,
            DivisionTransmissionFormat::Size1K => 1024,
            DivisionTransmissionFormat::Size4K => 4096,
            DivisionTransmissionFormat::Size16K => 16 * 1024,
        }
    }
}

/// One block of a division transmission.
#[derive(Debug, Clone, PartialEq, Eq)]
pub struct DivisionTransmissionUpdateData {
    pub format: DivisionTransmissionFormat,
    pub block_number: u16,
    pub data: Vec<u8>,
}

impl DivisionTransmissionUpdateData {
    pub const CMD: u8 = 0x9F;

    /// The block, unless `data` is longer than one block of `format`.
    pub fn new(format: DivisionTransmissionFormat, block_number: u16, data: Vec<u8>) -> (block:
        Result<Self, CommandError>)
        ensures
            block is Ok <==> data@.len() <= format.spec_block_size(),
            block matches Ok(b) ==> b.format == format && b.block_number == block_number && b.data@
                == data@,
            block matches Err(e) ==> e == (CommandError::DivisionBlockTooLarge {
                max: format.spec_block_size(),
                actual: data@.len() as usize,
            }),
    {
        let max = format.block_size();
        if data.len() > max {
            return Err(CommandError::DivisionBlockTooLarge { max, actual: data.len() });
        }
        Ok(DivisionTransmissionUpdateData { format, block_number, data })
    }

    /// Header and data, before the frame is cut or padded to its fixed length.
    pub open spec fn spec_raw_bytes(&self) -> Seq<u8> {
        seq![0x9Fu8, self.format.spec_byte()] + le_u16_bytes(self.block_number) + self.data@
    }

    /// The frame of a block with these fields: header and data, cut or padded with zeros
    /// to one block plus four bytes.
    pub open spec fn spec_frame(
        format: DivisionTransmissionFormat,
        block_number: u16,
        data: Seq<u8>,
    ) -> Seq<u8> {
        fit_to_len(
            seq![0x9Fu8, format.spec_byte()] + le_u16_bytes(block_number) + data,
            (format.spec_block_size() + 4) as nat,
        )
    }

    /// Every block frame is exactly one block plus its four header bytes long.
    pub proof fn lemma_frame_length(&self)
        ensures
            self.spec_to_bytes().len() == self.format.spec_block_size() + 4,
    {
    }
}

impl Request for DivisionTransmissionUpdateData {
    open spec fn spec_command_id(&self) -> u8 {
        0x9F
    }

    open spec fn spec_to_bytes(&self) -> Seq<u8> {
        DivisionTransmissionUpdateData::spec_frame(self.format, self.block_number, self.data@)
    }

    fn command_id(&self) -> (id: u8) {
        Self::CMD
    }

    fn to_bytes(&self) -> (bytes: Vec<u8>) {
        let len = self.format.block_size() + 4;
        let mut bytes = Vec::new();
        bytes.push(Self::CMD);
        bytes.push(self.format.to_byte());
        push_le_u16(&mut bytes, self.block_number);
        push_all(&mut bytes, self.data.as_slice());
        let ghost raw = bytes@;
        assert(raw =~= self.spec_raw_bytes());
        if bytes.len() >= len {
            bytes.truncate(len);
        } else {
            while bytes.len() < len
                invariant
                    raw.len() <= bytes@.len() <= len,
                    bytes@ == raw + zeros((bytes@.len() - raw.len()) as nat),
                decreases len - bytes@.len(),
            {
                bytes.push(0x00);
                assert(bytes@ =~= raw + zeros((bytes@.len() - raw.len()) as nat));
            }
        }
        bytes
    }

    proof fn lemma_frame_starts_with_command_id(&self) {
    }
}

/// A request that carries no operand bytes.
#[derive(Debug, Default, Clone, Copy, PartialEq, Eq)]
pub struct StartInput;

impl FixedSizeRequest for StartInput {
    const CMD: u8 = 0x01;

    open spec fn spec_ops(&self) -> Seq<u8> {
        Seq::empty()
    }

    fn ops(&self) -> (ops: Vec<u8>) {
        Vec::new()
    }

    proof fn lemma_ops_fit_size_byte(&self) {
    }
}

/// A request that carries no operand bytes.
#[derive(Debug, Default, Clone, Copy, PartialEq, Eq)]
pub struct StopInput;

impl FixedSizeRequest for StopInput {
    const CMD: u8 = 0x02;

    open spec fn spec_ops(&self) -> Seq<u8> {
        Seq::empty()
    }

    fn ops(&self) -> (ops: Vec<u8>) {
        Vec::new()
    }

    proof fn lemma_ops_fit_size_byte(&self) {
    }
}

/// A request that carries no operand bytes.
#[derive(Debug, Default, Clone, Copy, PartialEq, Eq)]
pub struct InitializeUserParam;

impl FixedSizeRequest for InitializeUserParam {
    const CMD: u8 = 0x08;

    open spec fn spec_ops(&self) -> Seq<u8> {
        Seq::empty()
    }

    fn ops(&self) -> (ops: Vec<u8>) {
        Vec::new()
    }

    proof fn lemma_ops_fit_size_byte(&self) {
    }
}

/// A request that carries no operand bytes.
#[derive(Debug, Clone, Copy, PartialEq, Eq)]
pub struct GetVideoOutputPosition;

impl FixedSizeRequest for GetVideoOutputPosition {
    const CMD: u8 = 0x25;

    open spec fn spec_ops(&self) -> Seq<u8> {
        Seq::empty()
    }

    fn ops(&self) -> (ops: Vec<u8>) {
        Vec::new()
    }

    proof fn lemma_ops_fit_size_byte(&self) {
    }
}

/// A request that carries no operand bytes.
#[derive(Debug, Clone, Copy, PartialEq, Eq)]
pub struct GetOpticalAlignment;

impl FixedSizeRequest for GetOpticalAlignment {
    const CMD: u8 = 0x27;

    open spec fn spec_ops(&self) -> Seq<u8> {
        Seq::empty()
    }

    fn ops(&self) -> (ops: Vec<u8>) {
        Vec::new()
    }

    proof fn lemma_ops_fit_size_byte(&self) {
    }
}

/// A request that carries no operand bytes.
#[derive(Debug, Clone, Copy, PartialEq, Eq)]
pub struct GetBiphase;

impl FixedSizeRequest for GetBiphase {
    const CMD: u8 = 0x29;

    open spec fn spec_ops(&self) -> Seq<u8> {
        Seq::empty()
    }

    fn ops(&self) -> (ops: Vec<u8>) {
        Vec::new()
    }

    proof fn lemma_ops_fit_size_byte(&self) {
    }
}

/// A request that carries no operand bytes.
#[derive(Debug, Clone, Copy, PartialEq, Eq)]
pub struct SetEasyOpticalAdjustmentControl;

impl FixedSizeRequest for SetEasyOpticalAdjustmentControl {
    const CMD: u8 = 0x32;

    open spec fn spec_ops(&self) -> Seq<u8> {
        Seq::empty()
    }

    fn ops(&self) -> (ops: Vec<u8>) {
        Vec::new()
    }

    proof fn lemma_ops_fit_size_byte(&self) {
    }
}

/// A request that carries no operand bytes.
#[derive(Debug, Clone, Copy, PartialEq, Eq)]
pub struct SetEasyOpticalAdjustmentPlus;

impl FixedSizeRequest for SetEasyOpticalAdjustmentPlus {
    const CMD: u8 = 0x33;

    open spec fn spec_ops(&self) -> Seq<u8> {
        Seq::empty()
    }

    fn ops(&self) -> (ops: Vec<u8>) {
        Vec::new()
    }

    proof fn lemma_ops_fit_size_byte(&self) {
    }
}

/// A request that carries no operand bytes.
#[derive(Debug, Clone, Copy, PartialEq, Eq)]
pub struct SetEasyOpticalAdjustmentMinus;

impl FixedSizeRequest for SetEasyOpticalAdjustmentMinus {
    const CMD: u8 = 0x34;

    open spec fn spec_ops(&self) -> Seq<u8> {
        Seq::empty()
    }

    fn ops(&self) -> (ops: Vec<u8>) {
        Vec::new()
    }

    proof fn lemma_ops_fit_size_byte(&self) {
    }
}

/// A request that carries no operand bytes.
#[derive(Debug, Clone, Copy, PartialEq, Eq)]
pub struct SetEasyBiphaseAdjustmentControl;

impl FixedSizeRequest for SetEasyBiphaseAdjustmentControl {
    const CMD: u8 = 0x36;

    open spec fn spec_ops(&self) -> Seq<u8> {
        Seq::empty()
    }

    fn ops(&self) -> (ops: Vec<u8>) {
        Vec::new()
    }

    proof fn lemma_ops_fit_size_byte(&self) {
    }
}

/// A request that carries no operand bytes.
#[derive(Debug, Clone, Copy, PartialEq, Eq)]
pub struct SetEasyBiphaseAdjustmentPlus;

impl FixedSizeRequest for SetEasyBiphaseAdjustmentPlus {
    const CMD: u8 = 0x37;

    open spec fn spec_ops(&self) -> Seq<u8> {
        Seq::empty()
    }

    fn ops(&self) -> (ops: Vec<u8>) {
        Vec::new()
    }

    proof fn lemma_ops_fit_size_byte(&self) {
    }
}

/// A request that carries no operand bytes.
#[derive(Debug, Clone, Copy, PartialEq, Eq)]
pub struct SetEasyBiphaseAdjustmentMinus;

impl FixedSizeRequest for SetEasyBiphaseAdjustmentMinus {
    const CMD: u8 = 0x38;

    open spec fn spec_ops(&self) -> Seq<u8> {
        Seq::empty()
    }

    fn ops(&self) -> (ops: Vec<u8>) {
        Vec::new()
    }

    proof fn lemma_ops_fit_size_byte(&self) {
    }
}

/// A request that carries no operand bytes.
#[derive(Debug, Clone, Copy, PartialEq, Eq)]
pub struct GetAllPictureQuality;

impl FixedSizeRequest for GetAllPictureQuality {
    const CMD: u8 = 0x40;

    open spec fn spec_ops(&self) -> Seq<u8> {
        Seq::empty()
    }

    fn ops(&self) -> (ops: Vec<u8>) {
        Vec::new()
    }

    proof fn lemma_ops_fit_size_byte(&self) {
    }
}

/// A request that carries no operand bytes.
#[derive(Debug, Clone, Copy, PartialEq, Eq)]
pub struct GetBrightness;

impl FixedSizeRequest for GetBrightness {
    const CMD: u8 = 0x42;

    open spec fn spec_ops(&self) -> Seq<u8> {
        Seq::empty()
    }

    fn ops(&self) -> (ops: Vec<u8>) {
        Vec::new()
    }

    proof fn lemma_ops_fit_size_byte(&self) {
    }
}

/// A request that carries no operand bytes.
#[derive(Debug, Clone, Copy, PartialEq, Eq)]
pub struct GetContrast;

impl FixedSizeRequest for GetContrast {
    const CMD: u8 = 0x44;

    open spec fn spec_ops(&self) -> Seq<u8> {
        Seq::empty()
    }

    fn ops(&self) -> (ops: Vec<u8>) {
        Vec::new()
    }

    proof fn lemma_ops_fit_size_byte(&self) {
    }
}

/// A request that carries no operand bytes.
#[derive(Debug, Clone, Copy, PartialEq, Eq)]
pub struct GetHue;

impl FixedSizeRequest for GetHue {
    const CMD: u8 = 0x46;

    open spec fn spec_ops(&self) -> Seq<u8> {
        Seq::empty()
    }

    fn ops(&self) -> (ops: Vec<u8>) {
        Vec::new()
    }

    proof fn lemma_ops_fit_size_byte(&self) {
    }
}

/// A request that carries no operand bytes.
#[derive(Debug, Clone, Copy, PartialEq, Eq)]
pub struct GetSaturation;

impl FixedSizeRequest for GetSaturation {
    const CMD: u8 = 0x48;

    open spec fn spec_ops(&self) -> Seq<u8> {
        Seq::empty()
    }

    fn ops(&self) -> (ops: Vec<u8>) {
        Vec::new()
    }

    proof fn lemma_ops_fit_size_byte(&self) {
    }
}

/// A request that carries no operand bytes.
#[derive(Debug, Clone, Copy, PartialEq, Eq)]
pub struct GetSharpness;

impl FixedSizeRequest for GetSharpness {
    const CMD: u8 = 0x4E;

    open spec fn spec_ops(&self) -> Seq<u8> {
        Seq::empty()
    }

    fn ops(&self) -> (ops: Vec<u8>) {
        Vec::new()
    }

    proof fn lemma_ops_fit_size_byte(&self) {
    }
}

/// A request that carries no operand bytes.
#[derive(Debug, Clone, Copy, PartialEq, Eq)]
pub struct GetTemperature;

impl FixedSizeRequest for GetTemperature {
    const CMD: u8 = 0xA0;

    open spec fn spec_ops(&self) -> Seq<u8> {
        Seq::empty()
    }

    fn ops(&self) -> (ops: Vec<u8>) {
        Vec::new()
    }

    proof fn lemma_ops_fit_size_byte(&self) {
    }
}

/// A request that carries no operand bytes.
#[derive(Debug, Clone, Copy, PartialEq, Eq)]
pub struct GetTime;

impl FixedSizeRequest for GetTime {
    const CMD: u8 = 0xA1;

    open spec fn spec_ops(&self) -> Seq<u8> {
        Seq::empty()
    }

    fn ops(&self) -> (ops: Vec<u8>) {
        Vec::new()
    }

    proof fn lemma_ops_fit_size_byte(&self) {
    }
}

/// A request that carries no operand bytes.
#[derive(Debug, Clone, Copy, PartialEq, Eq)]
pub struct GetVersion;

impl FixedSizeRequest for GetVersion {
    const CMD: u8 = 0xA2;

    open spec fn spec_ops(&self) -> Seq<u8> {
        Seq::empty()
    }

    fn ops(&self) -> (ops: Vec<u8>) {
        Vec::new()
    }

    proof fn lemma_ops_fit_size_byte(&self) {
    }
}

/// A request that carries no operand bytes.
#[derive(Debug, Clone, Copy, PartialEq, Eq)]
pub struct GetLotNumber;

impl FixedSizeRequest for GetLotNumber {
    const CMD: u8 = 0xB2;

    open spec fn spec_ops(&self) -> Seq<u8> {
        Seq::empty()
    }

    fn ops(&self) -> (ops: Vec<u8>) {
        Vec::new()
    }

    proof fn lemma_ops_fit_size_byte(&self) {
    }
}

/// A request that carries no operand bytes.
#[derive(Debug, Clone, Copy, PartialEq, Eq)]
pub struct GetSerialNumber;

impl FixedSizeRequest for GetSerialNumber {
    const CMD: u8 = 0xB4;

    open spec fn spec_ops(&self) -> Seq<u8> {
        Seq::empty()
    }

    fn ops(&self) -> (ops: Vec<u8>) {
        Vec::new()
    }

    proof fn lemma_ops_fit_size_byte(&self) {
    }
}

/// A request that carries one option byte.
#[derive(Debug, Clone, Copy, PartialEq, Eq)]
pub struct StopInputSpecially {
    pub output: StoppedOutput,
}

impl FixedSizeRequest for StopInputSpecially {
    const CMD: u8 = 0x0C;

    open spec fn spec_ops(&self) -> Seq<u8> {
        seq![self.output.spec_byte()]
    }

    fn ops(&self) -> (ops: Vec<u8>) {
        let mut ops = Vec::new();
        ops.push(self.output.to_byte());
        ops
    }

    proof fn lemma_ops_fit_size_byte(&self) {
    }
}

/// A request that carries one option byte.
#[derive(Debug, Clone, Copy, PartialEq, Eq)]
pub struct MuteUnmuteChangeOutput {
    pub output: MuteOutput,
}

impl FixedSizeRequest for MuteUnmuteChangeOutput {
    const CMD: u8 = 0x03;

    open spec fn spec_ops(&self) -> Seq<u8> {
        seq![self.output.spec_byte()]
    }

    fn ops(&self) -> (ops: Vec<u8>) {
        let mut ops = Vec::new();
        ops.push(self.output.to_byte());
        ops
    }

    proof fn lemma_ops_fit_size_byte(&self) {
    }
}

/// A request that carries one option byte.
#[derive(Debug, Clone, Copy, PartialEq, Eq)]
pub struct ShutdownReboot {
    pub option: ShutdownOption,
}

impl FixedSizeRequest for ShutdownReboot {
    const CMD: u8 = 0x0B;

    open spec fn spec_ops(&self) -> Seq<u8> {
        seq![self.option.spec_byte()]
    }

    fn ops(&self) -> (ops: Vec<u8>) {
        let mut ops = Vec::new();
        ops.push(self.option.to_byte());
        ops
    }

    proof fn lemma_ops_fit_size_byte(&self) {
    }
}

/// A request that carries one option byte.
#[derive(Debug, Clone, Copy, PartialEq, Eq)]
pub struct SetEasyOpticalAdjustmentExit {
    pub save: SaveAdjustment,
}

impl FixedSizeRequest for SetEasyOpticalAdjustmentExit {
    const CMD: u8 = 0x35;

    open spec fn spec_ops(&self) -> Seq<u8> {
        seq![self.save.spec_byte()]
    }

    fn ops(&self) -> (ops: Vec<u8>) {
        let mut ops = Vec::new();
        ops.push(self.save.to_byte());
        ops
    }

    proof fn lemma_ops_fit_size_byte(&self) {
    }
}

/// A request that carries one option byte.
#[derive(Debug, Clone, Copy, PartialEq, Eq)]
pub struct SetEasyBiphaseAdjustmentExit {
    pub save: SaveAdjustment,
}

impl FixedSizeRequest for SetEasyBiphaseAdjustmentExit {
    const CMD: u8 = 0x39;

    open spec fn spec_ops(&self) -> Seq<u8> {
        seq![self.save.spec_byte()]
    }

    fn ops(&self) -> (ops: Vec<u8>) {
        let mut ops = Vec::new();
        ops.push(self.save.to_byte());
        ops
    }

    proof fn lemma_ops_fit_size_byte(&self) {
    }
}

/// A request that carries one signed setting.
#[derive(Debug, Clone, Copy, PartialEq, Eq)]
pub struct SetBrightness {
    pub brightness: i8,
}

impl FixedSizeRequest for SetBrightness {
    const CMD: u8 = 0x43;

    open spec fn spec_ops(&self) -> Seq<u8> {
        seq![self.brightness as u8]
    }

    fn ops(&self) -> (ops: Vec<u8>) {
        let mut ops = Vec::new();
        ops.push(self.brightness as u8);
        ops
    }

    proof fn lemma_ops_fit_size_byte(&self) {
    }
}

/// A request that carries one signed setting.
#[derive(Debug, Clone, Copy, PartialEq, Eq)]
pub struct SetContrast {
    pub contrast: i8,
}

impl FixedSizeRequest for SetContrast {
    const CMD: u8 = 0x45;

    open spec fn spec_ops(&self) -> Seq<u8> {
        seq![self.contrast as u8]
    }

    fn ops(&self) -> (ops: Vec<u8>) {
        let mut ops = Vec::new();
        ops.push(self.contrast as u8);
        ops
    }

    proof fn lemma_ops_fit_size_byte(&self) {
    }
}
// ---------------------------------------------------------------------------
// Notifies
// ---------------------------------------------------------------------------

/// What decoding a notify frame of type `N` gives: the header is checked, then the operands
/// are decoded.
pub open spec fn spec_notify_from_bytes<N: Notify>(bytes: Seq<u8>) -> Result<N, CommandError> {
    if bytes.len() == 0 {
        Err(CommandError::WrongPayloadSize { expected: (N::SIZE + 2) as usize, actual: 0 })
    } else if bytes[0] != N::CMD {
        Err(CommandError::WrongCommand { expected: N::CMD, actual: bytes[0] })
    } else if bytes.len() == 1 {
        Err(CommandError::WrongPayloadSize { expected: (N::SIZE + 2) as usize, actual: 1 })
    } else if bytes[1] as usize != N::SIZE {
        Err(CommandError::WrongPayloadSize { expected: N::SIZE, actual: bytes[1] as usize })
    } else if bytes.len() - 2 != N::SIZE {
        Err(CommandError::WrongPayloadSize { expected: N::SIZE, actual: (bytes.len() - 2) as usize })
    } else {
        N::spec_from_ops(bytes.subrange(2, bytes.len() as int))
    }
}

/// A frame that the module sends: command id, operand count, operands.
pub trait Notify: Sized {
    const CMD: u8;

    const SIZE: usize;

    /// The operand count fits the size byte.
    proof fn lemma_size_fits()
        ensures
            Self::SIZE <= 255,
    ;

    /// What the operand bytes decode to.
    spec fn spec_from_ops(ops: Seq<u8>) -> Result<Self, CommandError>;

    fn from_ops(ops: &[u8]) -> (notify: Result<Self, CommandError>)
        requires
            ops@.len() == Self::SIZE,
        ensures
            notify == Self::spec_from_ops(ops@),
    ;

    fn from_bytes(bytes: &[u8]) -> (notify: Result<Self, CommandError>)
        ensures
            notify == (if bytes@.len() == 0 {
                Err(CommandError::WrongPayloadSize { expected: (Self::SIZE + 2) as usize, actual: 0 })
            } else if bytes@[0] != Self::CMD {
                Err(CommandError::WrongCommand { expected: Self::CMD, actual: bytes@[0] })
            } else if bytes@.len() == 1 {
                Err(CommandError::WrongPayloadSize { expected: (Self::SIZE + 2) as usize, actual: 1 })
            } else if bytes@[1] as usize != Self::SIZE {
                Err(
                    CommandError::WrongPayloadSize {
                        expected: Self::SIZE,
                        actual: bytes@[1] as usize,
                    },
                )
            } else if bytes@.len() - 2 != Self::SIZE {
                Err(
                    CommandError::WrongPayloadSize {
                        expected: Self::SIZE,
                        actual: (bytes@.len() - 2) as usize,
                    },
                )
            } else {
                Self::spec_from_ops(bytes@.subrange(2, bytes@.len() as int))
            }),
    {
        proof {
            Self::lemma_size_fits();
        }
        if bytes.len() == 0 {
            return Err(CommandError::WrongPayloadSize { expected: Self::SIZE + 2, actual: 0 });
        }
        let actual_cmd = bytes[0];
        if actual_cmd != Self::CMD {
            return Err(CommandError::WrongCommand { expected: Self::CMD, actual: actual_cmd });
        }
        if bytes.len() < 2 {
            return Err(CommandError::WrongPayloadSize { expected: Self::SIZE + 2, actual: 1 });
        }
        let actual_size = bytes[1] as usize;
        if actual_size != Self::SIZE {
            return Err(CommandError::WrongPayloadSize { expected: Self::SIZE, actual: actual_size });
        }
        let ops = vstd::slice::slice_subrange(bytes, 2, bytes.len());
        if ops.len() != Self::SIZE {
            return Err(CommandError::WrongPayloadSize { expected: Self::SIZE, actual: ops.len() });
        }
        Self::from_ops(ops)
    }
}

/// A notify frame is accepted only with its own command id, its own operand count in the
/// size byte, and exactly that many operands.
pub proof fn lemma_notify_frame_accepted<N: Notify>(bytes: Seq<u8>)
    requires
        spec_notify_from_bytes::<N>(bytes) is Ok,
    ensures
        bytes.len() == N::SIZE + 2,
        bytes[0] == N::CMD,
        bytes[1] as int == N::SIZE,
        N::spec_from_ops(bytes.subrange(2, bytes.len() as int)) == spec_notify_from_bytes::<N>(bytes),
{
    N::lemma_size_fits();
}

/// Current position and flip of the video output.
#[derive(Debug, Clone, Copy, PartialEq, Eq)]
pub struct GetVideoOutputPositionNotify {
    pub result: CommandResult,
    pub pan: Pan,
    pub tilt: Tilt,
    pub flip: Flip,
    pub reserved: [u8; 6],
}

impl Notify for GetVideoOutputPositionNotify {
    const CMD: u8 = 0x25;
    const SIZE: usize = 10;

    proof fn lemma_size_fits() {
    }

    open spec fn spec_from_ops(ops: Seq<u8>) -> Result<Self, CommandError> {
        match Flip::spec_from_byte(ops[3]) {
            Ok(flip) => Ok(
                GetVideoOutputPositionNotify {
                    result: CommandResult::spec_from_byte(ops[0]),
                    pan: Pan(ops[1] as i8),
                    tilt: Tilt(ops[2] as i8),
                    flip,
                    reserved: [ops[4], ops[5], ops[6], ops[7], ops[8], ops[9]],
                },
            ),
            Err(e) => Err(e),
        }
    }

    fn from_ops(ops: &[u8]) -> (notify: Result<Self, CommandError>) {
        let flip = match Flip::from_byte(ops[3]) {
            Ok(flip) => flip,
            Err(e) => return Err(e),
        };
        Ok(
            GetVideoOutputPositionNotify {
                result: CommandResult::from_byte(ops[0]),
                pan: Pan(ops[1] as i8),
                tilt: Tilt(ops[2] as i8),
                flip,
                reserved: [ops[4], ops[5], ops[6], ops[7], ops[8], ops[9]],
            },
        )
    }
}

/// Current optical alignment.
#[derive(Debug, Clone, Copy, PartialEq, Eq)]
pub struct GetOpticalAlignmentNotify {
    pub result: CommandResult,
    pub alignment: OpticalAlignment,
    pub reserved: [u8; 3],
}

impl Notify for GetOpticalAlignmentNotify {
    const CMD: u8 = 0x27;
    const SIZE: usize = 14;

    proof fn lemma_size_fits() {
    }

    open spec fn spec_from_ops(ops: Seq<u8>) -> Result<Self, CommandError> {
        Ok(
            GetOpticalAlignmentNotify {
                result: CommandResult::spec_from_byte(ops[0]),
                alignment: OpticalAlignment {
                    r0_horizontal: I8Byte(ops[1] as i8),
                    r1_horizontal: I8Byte(ops[2] as i8),
                    g0_horizontal: I8Byte(ops[3] as i8),
                    g1_horizontal: I8Byte(ops[4] as i8),
                    b_horizontal: I8Byte(ops[5] as i8),
                    r0_vertical: ops[6],
                    r1_vertical: ops[7],
                    g0_vertical: ops[8],
                    g1_vertical: ops[9],
                    b_vertical: ops[10],
                },
                reserved: [ops[11], ops[12], ops[13]],
            },
        )
    }

    fn from_ops(ops: &[u8]) -> (notify: Result<Self, CommandError>) {
        Ok(
            GetOpticalAlignmentNotify {
                result: CommandResult::from_byte(ops[0]),
                alignment: OpticalAlignment {
                    r0_horizontal: I8Byte(ops[1] as i8),
                    r1_horizontal: I8Byte(ops[2] as i8),
                    g0_horizontal: I8Byte(ops[3] as i8),
                    g1_horizontal: I8Byte(ops[4] as i8),
                    b_horizontal: I8Byte(ops[5] as i8),
                    r0_vertical: ops[6],
                    r1_vertical: ops[7],
                    g0_vertical: ops[8],
                    g1_vertical: ops[9],
                    b_vertical: ops[10],
                },
                reserved: [ops[11], ops[12], ops[13]],
            },
        )
    }
}

/// Current picture-quality settings.
#[derive(Debug, Clone, Copy, PartialEq, Eq)]
pub struct GetAllPictureQualityNotify {
    pub result: CommandResult,
    pub picture_quality: PictureQuality,
    pub reserved1: u8,
    pub reserved2: u8,
}

impl Notify for GetAllPictureQualityNotify {
    const CMD: u8 = 0x40;
    const SIZE: usize = 10;

    proof fn lemma_size_fits() {
    }

    open spec fn spec_from_ops(ops: Seq<u8>) -> Result<Self, CommandError> {
        Ok(
            GetAllPictureQualityNotify {
                result: CommandResult::spec_from_byte(ops[0]),
                picture_quality: PictureQuality {
                    contrast: ops[1] as i8,
                    brightness: ops[2] as i8,
                    hue_u: ops[3] as i8,
                    hue_v: ops[4] as i8,
                    saturation_u: ops[5] as i8,
                    saturation_v: ops[6] as i8,
                    sharpness: ops[8],
                },
                reserved1: ops[7],
                reserved2: ops[9],
            },
        )
    }

    fn from_ops(ops: &[u8]) -> (notify: Result<Self, CommandError>) {
        Ok(
            GetAllPictureQualityNotify {
                result: CommandResult::from_byte(ops[0]),
                picture_quality: PictureQuality {
                    contrast: ops[1] as i8,
                    brightness: ops[2] as i8,
                    hue_u: ops[3] as i8,
                    hue_v: ops[4] as i8,
                    saturation_u: ops[5] as i8,
                    saturation_v: ops[6] as i8,
                    sharpness: ops[8],
                },
                reserved1: ops[7],
                reserved2: ops[9],
            },
        )
    }
}

/// Boot-completed notify.
#[derive(Debug, Clone, Copy, PartialEq, Eq)]
pub struct BootCompletedNotify {
    pub result: BootResult,
}

impl Notify for BootCompletedNotify {
    const CMD: u8 = 0x00;
    const SIZE: usize = 1;

    proof fn lemma_size_fits() {
    }

    open spec fn spec_from_ops(ops: Seq<u8>) -> Result<Self, CommandError> {
        Ok(BootCompletedNotify {
            result: BootResult::spec_from_byte(ops[0]),
        })
    }

    fn from_ops(ops: &[u8]) -> (notify: Result<Self, CommandError>) {
        Ok(BootCompletedNotify {
            result: BootResult::from_byte(ops[0]),
        })
    }
}

/// Notify that reports only a command result.
#[derive(Debug, Clone, Copy, PartialEq, Eq)]
pub struct CommandResultNotify<const CMD: u8> {
    pub result: CommandResult,
}

impl<const CMD: u8> Notify for CommandResultNotify<CMD> {
    const CMD: u8 = CMD;
    const SIZE: usize = 1;

    proof fn lemma_size_fits() {
    }

    open spec fn spec_from_ops(ops: Seq<u8>) -> Result<Self, CommandError> {
        Ok(CommandResultNotify {
            result: CommandResult::spec_from_byte(ops[0]),
        })
    }

    fn from_ops(ops: &[u8]) -> (notify: Result<Self, CommandError>) {
        Ok(CommandResultNotify {
            result: CommandResult::from_byte(ops[0]),
        })
    }
}

/// Notify that reports a raw error byte.
#[derive(Debug, Clone, Copy, PartialEq, Eq)]
pub struct ErrorResultNotify<const CMD: u8> {
    pub result: u8,
}

impl<const CMD: u8> Notify for ErrorResultNotify<CMD> {
    const CMD: u8 = CMD;
    const SIZE: usize = 1;

    proof fn lemma_size_fits() {
    }

    open spec fn spec_from_ops(ops: Seq<u8>) -> Result<Self, CommandError> {
        Ok(ErrorResultNotify {
            result: ops[0],
        })
    }

    fn from_ops(ops: &[u8]) -> (notify: Result<Self, CommandError>) {
        Ok(ErrorResultNotify {
            result: ops[0],
        })
    }
}

/// Notify that reports an update result.
#[derive(Debug, Clone, Copy, PartialEq, Eq)]
pub struct UpdateResultNotify<const CMD: u8> {
    pub result: UpdateResult,
}

impl<const CMD: u8> Notify for UpdateResultNotify<CMD> {
    const CMD: u8 = CMD;
    const SIZE: usize = 1;

    proof fn lemma_size_fits() {
    }

    open spec fn spec_from_ops(ops: Seq<u8>) -> Result<Self, CommandError> {
        Ok(UpdateResultNotify {
            result: UpdateResult::spec_from_byte(ops[0]),
        })
    }

    fn from_ops(ops: &[u8]) -> (notify: Result<Self, CommandError>) {
        Ok(UpdateResultNotify {
            result: UpdateResult::from_byte(ops[0]),
        })
    }
}

/// Notify of an easy-adjustment control request.
#[derive(Debug, Clone, Copy, PartialEq, Eq)]
pub struct AdjustmentControlNotify<const CMD: u8> {
    pub result: AdjustmentControlResult,
}

impl<const CMD: u8> Notify for AdjustmentControlNotify<CMD> {
    const CMD: u8 = CMD;
    const SIZE: usize = 1;

    proof fn lemma_size_fits() {
    }

    open spec fn spec_from_ops(ops: Seq<u8>) -> Result<Self, CommandError> {
        Ok(AdjustmentControlNotify {
            result: AdjustmentControlResult::spec_from_byte(ops[0]),
        })
    }

    fn from_ops(ops: &[u8]) -> (notify: Result<Self, CommandError>) {
        Ok(AdjustmentControlNotify {
            result: AdjustmentControlResult::from_byte(ops[0]),
        })
    }
}

/// Notify of an easy-adjustment step request.
#[derive(Debug, Clone, Copy, PartialEq, Eq)]
pub struct AdjustmentStepNotify<const CMD: u8> {
    pub result: AdjustmentStepResult,
}

impl<const CMD: u8> Notify for AdjustmentStepNotify<CMD> {
    const CMD: u8 = CMD;
    const SIZE: usize = 1;

    proof fn lemma_size_fits() {
    }

    open spec fn spec_from_ops(ops: Seq<u8>) -> Result<Self, CommandError> {
        Ok(AdjustmentStepNotify {
            result: AdjustmentStepResult::spec_from_byte(ops[0]),
        })
    }

    fn from_ops(ops: &[u8]) -> (notify: Result<Self, CommandError>) {
        Ok(AdjustmentStepNotify {
            result: AdjustmentStepResult::from_byte(ops[0]),
        })
    }
}

/// Current biphase amount.
#[derive(Debug, Clone, Copy, PartialEq, Eq)]
pub struct GetBiphaseNotify {
    pub result: CommandResult,
    pub amount: u32,
}

impl Notify for GetBiphaseNotify {
    const CMD: u8 = 0x29;
    const SIZE: usize = 5;

    proof fn lemma_size_fits() {
    }

    open spec fn spec_from_ops(ops: Seq<u8>) -> Result<Self, CommandError> {
        Ok(GetBiphaseNotify {
            result: CommandResult::spec_from_byte(ops[0]),
            amount: u32_from_le(ops, 1),
        })
    }

    fn from_ops(ops: &[u8]) -> (notify: Result<Self, CommandError>) {
        Ok(GetBiphaseNotify {
            result: CommandResult::from_byte(ops[0]),
            amount: read_le_u32(ops, 1),
        })
    }
}

/// Current brightness.
#[derive(Debug, Clone, Copy, PartialEq, Eq)]
pub struct GetBrightnessNotify {
    pub result: CommandResult,
    pub brightness: i8,
}

impl Notify for GetBrightnessNotify {
    const CMD: u8 = 0x42;
    const SIZE: usize = 2;

    proof fn lemma_size_fits() {
    }

    open spec fn spec_from_ops(ops: Seq<u8>) -> Result<Self, CommandError> {
        Ok(GetBrightnessNotify {
            result: CommandResult::spec_from_byte(ops[0]),
            brightness: ops[1] as i8,
        })
    }

    fn from_ops(ops: &[u8]) -> (notify: Result<Self, CommandError>) {
        Ok(GetBrightnessNotify {
            result: CommandResult::from_byte(ops[0]),
            brightness: ops[1] as i8,
        })
    }
}

/// Current contrast.
#[derive(Debug, Clone, Copy, PartialEq, Eq)]
pub struct GetContrastNotify {
    pub result: CommandResult,
    pub contrast: i8,
}

impl Notify for GetContrastNotify {
    const CMD: u8 = 0x44;
    const SIZE: usize = 2;

    proof fn lemma_size_fits() {
    }

    open spec fn spec_from_ops(ops: Seq<u8>) -> Result<Self, CommandError> {
        Ok(GetContrastNotify {
            result: CommandResult::spec_from_byte(ops[0]),
            contrast: ops[1] as i8,
        })
    }

    fn from_ops(ops: &[u8]) -> (notify: Result<Self, CommandError>) {
        Ok(GetContrastNotify {
            result: CommandResult::from_byte(ops[0]),
            contrast: ops[1] as i8,
        })
    }
}

/// Current hue.
#[derive(Debug, Clone, Copy, PartialEq, Eq)]
pub struct GetHueNotify {
    pub result: CommandResult,
    pub hue_u: i8,
    pub hue_v: i8,
}

impl Notify for GetHueNotify {
    const CMD: u8 = 0x46;
    const SIZE: usize = 3;

    proof fn lemma_size_fits() {
    }

    open spec fn spec_from_ops(ops: Seq<u8>) -> Result<Self, CommandError> {
        Ok(GetHueNotify {
            result: CommandResult::spec_from_byte(ops[0]),
            hue_u: ops[1] as i8,
            hue_v: ops[2] as i8,
        })
    }

    fn from_ops(ops: &[u8]) -> (notify: Result<Self, CommandError>) {
        Ok(GetHueNotify {
            result: CommandResult::from_byte(ops[0]),
            hue_u: ops[1] as i8,
            hue_v: ops[2] as i8,
        })
    }
}

/// Current saturation.
#[derive(Debug, Clone, Copy, PartialEq, Eq)]
pub struct GetSaturationNotify {
    pub result: CommandResult,
    pub saturation_u: i8,
    pub saturation_v: i8,
}

impl Notify for GetSaturationNotify {
    const CMD: u8 = 0x48;
    const SIZE: usize = 3;

    proof fn lemma_size_fits() {
    }

    open spec fn spec_from_ops(ops: Seq<u8>) -> Result<Self, CommandError> {
        Ok(GetSaturationNotify {
            result: CommandResult::spec_from_byte(ops[0]),
            saturation_u: ops[1] as i8,
            saturation_v: ops[2] as i8,
        })
    }

    fn from_ops(ops: &[u8]) -> (notify: Result<Self, CommandError>) {
        Ok(GetSaturationNotify {
            result: CommandResult::from_byte(ops[0]),
            saturation_u: ops[1] as i8,
            saturation_v: ops[2] as i8,
        })
    }
}

/// Current sharpness.
#[derive(Debug, Clone, Copy, PartialEq, Eq)]
pub struct GetSharpnessNotify {
    pub result: CommandResult,
    pub sharpness: u8,
}

impl Notify for GetSharpnessNotify {
    const CMD: u8 = 0x4E;
    const SIZE: usize = 2;

    proof fn lemma_size_fits() {
    }

    open spec fn spec_from_ops(ops: Seq<u8>) -> Result<Self, CommandError> {
        Ok(GetSharpnessNotify {
            result: CommandResult::spec_from_byte(ops[0]),
            sharpness: ops[1],
        })
    }

    fn from_ops(ops: &[u8]) -> (notify: Result<Self, CommandError>) {
        Ok(GetSharpnessNotify {
            result: CommandResult::from_byte(ops[0]),
            sharpness: ops[1],
        })
    }
}

/// Module temperature and its thresholds.
#[derive(Debug, Clone, Copy, PartialEq, Eq)]
pub struct GetTemperatureNotify {
    pub result: CommandResult,
    pub module_temperature: u8,
    pub mute_threshold_temperature: u8,
    pub system_stop_threshold_temperature: u8,
}

impl Notify for GetTemperatureNotify {
    const CMD: u8 = 0xA0;
    const SIZE: usize = 4;

    proof fn lemma_size_fits() {
    }

    open spec fn spec_from_ops(ops: Seq<u8>) -> Result<Self, CommandError> {
        Ok(GetTemperatureNotify {
            result: CommandResult::spec_from_byte(ops[0]),
            module_temperature: ops[1],
            mute_threshold_temperature: ops[2],
            system_stop_threshold_temperature: ops[3],
        })
    }

    fn from_ops(ops: &[u8]) -> (notify: Result<Self, CommandError>) {
        Ok(GetTemperatureNotify {
            result: CommandResult::from_byte(ops[0]),
            module_temperature: ops[1],
            mute_threshold_temperature: ops[2],
            system_stop_threshold_temperature: ops[3],
        })
    }
}

/// Operating time in seconds.
#[derive(Debug, Clone, Copy, PartialEq, Eq)]
pub struct GetTimeNotify {
    pub result: CommandResult,
    pub seconds: u32,
}

impl Notify for GetTimeNotify {
    const CMD: u8 = 0xA1;
    const SIZE: usize = 5;

    proof fn lemma_size_fits() {
    }

    open spec fn spec_from_ops(ops: Seq<u8>) -> Result<Self, CommandError> {
        Ok(GetTimeNotify {
            result: CommandResult::spec_from_byte(ops[0]),
            seconds: u32_from_le(ops, 1),
        })
    }

    fn from_ops(ops: &[u8]) -> (notify: Result<Self, CommandError>) {
        Ok(GetTimeNotify {
            result: CommandResult::from_byte(ops[0]),
            seconds: read_le_u32(ops, 1),
        })
    }
}

/// Firmware, parameter and data versions.
#[derive(Debug, Clone, Copy, PartialEq, Eq)]
pub struct GetVersionNotify {
    pub result: CommandResult,
    pub firmware: [u8; 4],
    pub parameter: [u8; 4],
    pub data: [u8; 4],
}

impl Notify for GetVersionNotify {
    const CMD: u8 = 0xA2;
    const SIZE: usize = 13;

    proof fn lemma_size_fits() {
    }

    open spec fn spec_from_ops(ops: Seq<u8>) -> Result<Self, CommandError> {
        Ok(GetVersionNotify {
            result: CommandResult::spec_from_byte(ops[0]),
            firmware: [ops[1], ops[2], ops[3], ops[4]],
            parameter: [ops[5], ops[6], ops[7], ops[8]],
            data: [ops[9], ops[10], ops[11], ops[12]],
        })
    }

    fn from_ops(ops: &[u8]) -> (notify: Result<Self, CommandError>) {
        Ok(GetVersionNotify {
            result: CommandResult::from_byte(ops[0]),
            firmware: [ops[1], ops[2], ops[3], ops[4]],
            parameter: [ops[5], ops[6], ops[7], ops[8]],
            data: [ops[9], ops[10], ops[11], ops[12]],
        })
    }
}

/// Lot numbers.
#[derive(Debug, Clone, Copy, PartialEq, Eq)]
pub struct GetLotNumberNotify {
    pub result: CommandResult,
    pub lot_numbers: [u32; 3],
}

impl Notify for GetLotNumberNotify {
    const CMD: u8 = 0xB2;
    const SIZE: usize = 13;

    proof fn lemma_size_fits() {
    }

    open spec fn spec_from_ops(ops: Seq<u8>) -> Result<Self, CommandError> {
        Ok(GetLotNumberNotify {
            result: CommandResult::spec_from_byte(ops[0]),
            lot_numbers: [u32_from_le(ops, 1), u32_from_le(ops, 5), u32_from_le(ops, 9)],
        })
    }

    fn from_ops(ops: &[u8]) -> (notify: Result<Self, CommandError>) {
        Ok(GetLotNumberNotify {
            result: CommandResult::from_byte(ops[0]),
            lot_numbers: [read_le_u32(ops, 1), read_le_u32(ops, 5), read_le_u32(ops, 9)],
        })
    }
}

/// Serial numbers.
#[derive(Debug, Clone, Copy, PartialEq, Eq)]
pub struct GetSerialNumberNotify {
    pub result: CommandResult,
    pub serial_numbers: [u32; 2],
}

impl Notify for GetSerialNumberNotify {
    const CMD: u8 = 0xB4;
    const SIZE: usize = 9;

    proof fn lemma_size_fits() {
    }

    open spec fn spec_from_ops(ops: Seq<u8>) -> Result<Self, CommandError> {
        Ok(GetSerialNumberNotify {
            result: CommandResult::spec_from_byte(ops[0]),
            serial_numbers: [u32_from_le(ops, 1), u32_from_le(ops, 5)],
        })
    }

    fn from_ops(ops: &[u8]) -> (notify: Result<Self, CommandError>) {
        Ok(GetSerialNumberNotify {
            result: CommandResult::from_byte(ops[0]),
            serial_numbers: [read_le_u32(ops, 1), read_le_u32(ops, 5)],
        })
    }
}

/// Emergency notify.
#[derive(Debug, Clone, Copy, PartialEq, Eq)]
pub struct EmergencyNotify {
    pub result: EmergencyResult,
    pub reserved: [u8; 2],
}

impl Notify for EmergencyNotify {
    const CMD: u8 = 0x10;
    const SIZE: usize = 3;

    proof fn lemma_size_fits() {
    }

    open spec fn spec_from_ops(ops: Seq<u8>) -> Result<Self, CommandError> {
        Ok(EmergencyNotify {
            result: EmergencyResult::spec_from_byte(ops[0]),
            reserved: [ops[1], ops[2]],
        })
    }

    fn from_ops(ops: &[u8]) -> (notify: Result<Self, CommandError>) {
        Ok(EmergencyNotify {
            result: EmergencyResult::from_byte(ops[0]),
            reserved: [ops[1], ops[2]],
        })
    }
}

/// Temperature emergency or recovery notify.
#[derive(Debug, Clone, Copy, PartialEq, Eq)]
pub struct TemperatureEmergencyAndRecoveryNotify {
    pub result: TemperatureEmergencyRecoveryResult,
}

impl Notify for TemperatureEmergencyAndRecoveryNotify {
    const CMD: u8 = 0x11;
    const SIZE: usize = 1;

    proof fn lemma_size_fits() {
    }

    open spec fn spec_from_ops(ops: Seq<u8>) -> Result<Self, CommandError> {
        Ok(TemperatureEmergencyAndRecoveryNotify {
            result: TemperatureEmergencyRecoveryResult::spec_from_byte(ops[0]),
        })
    }

    fn from_ops(ops: &[u8]) -> (notify: Result<Self, CommandError>) {
        Ok(TemperatureEmergencyAndRecoveryNotify {
            result: TemperatureEmergencyRecoveryResult::from_byte(ops[0]),
        })
    }
}

/// Command emergency notify.
#[derive(Debug, Clone, Copy, PartialEq, Eq)]
pub struct CommandEmergencyNotify {
    pub result: CommandEmergencyResult,
    pub reference: u8,
}

impl Notify for CommandEmergencyNotify {
    const CMD: u8 = 0x12;
    const SIZE: usize = 2;

    proof fn lemma_size_fits() {
    }

    open spec fn spec_from_ops(ops: Seq<u8>) -> Result<Self, CommandError> {
        Ok(CommandEmergencyNotify {
            result: CommandEmergencyResult::spec_from_byte(ops[0]),
            reference: ops[1],
        })
    }

    fn from_ops(ops: &[u8]) -> (notify: Result<Self, CommandError>) {
        Ok(CommandEmergencyNotify {
            result: CommandEmergencyResult::from_byte(ops[0]),
            reference: ops[1],
        })
    }
}

/// Any notify frame that the module can send.
#[derive(Debug, Clone, PartialEq, Eq)]
pub enum CXN0102Notify {
    BootCompleted(BootCompletedNotify),
    StartInput(CommandResultNotify<0x01>),
    StopInput(CommandResultNotify<0x02>),
    StopInputSpecially(CommandResultNotify<0x0C>),
    MuteUnmuteChangeOutput(CommandResultNotify<0x03>),
    SaveUserParam(CommandResultNotify<0x07>),
    InitializeUserParam(CommandResultNotify<0x08>),
    ShutdownReboot(CommandResultNotify<0x0B>),
    GetVideoOutputPosition(GetVideoOutputPositionNotify),
    SetVideoOutputPosition(ErrorResultNotify<0x26>),
    GetOpticalAlignment(GetOpticalAlignmentNotify),
    SetOpticalAlignment(ErrorResultNotify<0x28>),
    GetBiphase(GetBiphaseNotify),
    SetBiphase(ErrorResultNotify<0x2A>),
    EasyOpticalAdjustmentControl(AdjustmentControlNotify<0x32>),
    EasyOpticalAdjustmentPlus(AdjustmentStepNotify<0x33>),
    EasyOpticalAdjustmentMinus(AdjustmentStepNotify<0x34>),
    EasyOpticalAdjustmentExit(CommandResultNotify<0x35>),
    EasyBiphaseAdjustmentControl(AdjustmentControlNotify<0x36>),
    EasyBiphaseAdjustmentPlus(AdjustmentStepNotify<0x37>),
    EasyBiphaseAdjustmentMinus(AdjustmentStepNotify<0x38>),
    EasyBiphaseAdjustmentExit(CommandResultNotify<0x39>),
    GetAllPictureQuality(GetAllPictureQualityNotify),
    SetAllPictureQuality(ErrorResultNotify<0x41>),
    GetBrightness(GetBrightnessNotify),
    SetBrightness(ErrorResultNotify<0x43>),
    GetContrast(GetContrastNotify),
    SetContrast(ErrorResultNotify<0x45>),
    GetHue(GetHueNotify),
    SetHue(ErrorResultNotify<0x47>),
    GetSaturation(GetSaturationNotify),
    SetSaturation(ErrorResultNotify<0x49>),
    GetSharpness(GetSharpnessNotify),
    SetSharpness(ErrorResultNotify<0x4F>),
    UpdateFwImage(UpdateResultNotify<0x82>),
    UpdatePictureData(UpdateResultNotify<0x84>),
    DivisionTransmissionUpdateFwImage(UpdateResultNotify<0x92>),
    DivisionTransmissionUpdatePictureData(UpdateResultNotify<0x94>),
    GetTemperature(GetTemperatureNotify),
    GetTime(GetTimeNotify),
    GetVersion(GetVersionNotify),
    OutputTestPicture(ErrorResultNotify<0xA3>),
    GetLotNumber(GetLotNumberNotify),
    GetSerialNumber(GetSerialNumberNotify),
    Emergency(EmergencyNotify),
    TemperatureEmergencyAndRecovery(TemperatureEmergencyAndRecoveryNotify),
    CommandEmergency(CommandEmergencyNotify),
}

/// A decoded notify wrapped into the variant that `wrap` builds.
pub open spec fn lift_notify<N>(
    decoded: Result<N, CommandError>,
    wrap: spec_fn(N) -> CXN0102Notify,
) -> Result<CXN0102Notify, CommandError> {
    match decoded {
        Ok(n) => Ok(wrap(n)),
        Err(e) => Err(e),
    }
}

impl CXN0102Notify {
    /// What decoding a frame gives: the first byte selects the notify type, whose own
    /// header check and operand decoding then apply.
    pub open spec fn spec_from_bytes(bytes: Seq<u8>) -> Result<CXN0102Notify, CommandError> {
        if bytes.len() == 0 {
            Err(CommandError::WrongPayloadSize { expected: 2, actual: 0 })
        } else {
            match bytes[0] {
                0x00 => lift_notify(spec_notify_from_bytes::<BootCompletedNotify>(bytes), |n| CXN0102Notify::BootCompleted(n)),
                0x01 => lift_notify(spec_notify_from_bytes::<CommandResultNotify<0x01>>(bytes), |n| CXN0102Notify::StartInput(n)),
                0x02 => lift_notify(spec_notify_from_bytes::<CommandResultNotify<0x02>>(bytes), |n| CXN0102Notify::StopInput(n)),
                0x0C => lift_notify(spec_notify_from_bytes::<CommandResultNotify<0x0C>>(bytes), |n| CXN0102Notify::StopInputSpecially(n)),
                0x03 => lift_notify(spec_notify_from_bytes::<CommandResultNotify<0x03>>(bytes), |n| CXN0102Notify::MuteUnmuteChangeOutput(n)),
                0x07 => lift_notify(spec_notify_from_bytes::<CommandResultNotify<0x07>>(bytes), |n| CXN0102Notify::SaveUserParam(n)),
                0x08 => lift_notify(spec_notify_from_bytes::<CommandResultNotify<0x08>>(bytes), |n| CXN0102Notify::InitializeUserParam(n)),
                0x0B => lift_notify(spec_notify_from_bytes::<CommandResultNotify<0x0B>>(bytes), |n| CXN0102Notify::ShutdownReboot(n)),
                0x25 => lift_notify(spec_notify_from_bytes::<GetVideoOutputPositionNotify>(bytes), |n| CXN0102Notify::GetVideoOutputPosition(n)),
                0x26 => lift_notify(spec_notify_from_bytes::<ErrorResultNotify<0x26>>(bytes), |n| CXN0102Notify::SetVideoOutputPosition(n)),
                0x27 => lift_notify(spec_notify_from_bytes::<GetOpticalAlignmentNotify>(bytes), |n| CXN0102Notify::GetOpticalAlignment(n)),
                0x28 => lift_notify(spec_notify_from_bytes::<ErrorResultNotify<0x28>>(bytes), |n| CXN0102Notify::SetOpticalAlignment(n)),
                0x29 => lift_notify(spec_notify_from_bytes::<GetBiphaseNotify>(bytes), |n| CXN0102Notify::GetBiphase(n)),
                0x2A => lift_notify(spec_notify_from_bytes::<ErrorResultNotify<0x2A>>(bytes), |n| CXN0102Notify::SetBiphase(n)),
                0x32 => lift_notify(spec_notify_from_bytes::<AdjustmentControlNotify<0x32>>(bytes), |n| CXN0102Notify::EasyOpticalAdjustmentControl(n)),
                0x33 => lift_notify(spec_notify_from_bytes::<AdjustmentStepNotify<0x33>>(bytes), |n| CXN0102Notify::EasyOpticalAdjustmentPlus(n)),
                0x34 => lift_notify(spec_notify_from_bytes::<AdjustmentStepNotify<0x34>>(bytes), |n| CXN0102Notify::EasyOpticalAdjustmentMinus(n)),
                0x35 => lift_notify(spec_notify_from_bytes::<CommandResultNotify<0x35>>(bytes), |n| CXN0102Notify::EasyOpticalAdjustmentExit(n)),
                0x36 => lift_notify(spec_notify_from_bytes::<AdjustmentControlNotify<0x36>>(bytes), |n| CXN0102Notify::EasyBiphaseAdjustmentControl(n)),
                0x37 => lift_notify(spec_notify_from_bytes::<AdjustmentStepNotify<0x37>>(bytes), |n| CXN0102Notify::EasyBiphaseAdjustmentPlus(n)),
                0x38 => lift_notify(spec_notify_from_bytes::<AdjustmentStepNotify<0x38>>(bytes), |n| CXN0102Notify::EasyBiphaseAdjustmentMinus(n)),
                0x39 => lift_notify(spec_notify_from_bytes::<CommandResultNotify<0x39>>(bytes), |n| CXN0102Notify::EasyBiphaseAdjustmentExit(n)),
                0x40 => lift_notify(spec_notify_from_bytes::<GetAllPictureQualityNotify>(bytes), |n| CXN0102Notify::GetAllPictureQuality(n)),
                0x41 => lift_notify(spec_notify_from_bytes::<ErrorResultNotify<0x41>>(bytes), |n| CXN0102Notify::SetAllPictureQuality(n)),
                0x42 => lift_notify(spec_notify_from_bytes::<GetBrightnessNotify>(bytes), |n| CXN0102Notify::GetBrightness(n)),
                0x43 => lift_notify(spec_notify_from_bytes::<ErrorResultNotify<0x43>>(bytes), |n| CXN0102Notify::SetBrightness(n)),
                0x44 => lift_notify(spec_notify_from_bytes::<GetContrastNotify>(bytes), |n| CXN0102Notify::GetContrast(n)),
                0x45 => lift_notify(spec_notify_from_bytes::<ErrorResultNotify<0x45>>(bytes), |n| CXN0102Notify::SetContrast(n)),
                0x46 => lift_notify(spec_notify_from_bytes::<GetHueNotify>(bytes), |n| CXN0102Notify::GetHue(n)),
                0x47 => lift_notify(spec_notify_from_bytes::<ErrorResultNotify<0x47>>(bytes), |n| CXN0102Notify::SetHue(n)),
                0x48 => lift_notify(spec_notify_from_bytes::<GetSaturationNotify>(bytes), |n| CXN0102Notify::GetSaturation(n)),
                0x49 => lift_notify(spec_notify_from_bytes::<ErrorResultNotify<0x49>>(bytes), |n| CXN0102Notify::SetSaturation(n)),
                0x4E => lift_notify(spec_notify_from_bytes::<GetSharpnessNotify>(bytes), |n| CXN0102Notify::GetSharpness(n)),
                0x4F => lift_notify(spec_notify_from_bytes::<ErrorResultNotify<0x4F>>(bytes), |n| CXN0102Notify::SetSharpness(n)),
                0x82 => lift_notify(spec_notify_from_bytes::<UpdateResultNotify<0x82>>(bytes), |n| CXN0102Notify::UpdateFwImage(n)),
                0x84 => lift_notify(spec_notify_from_bytes::<UpdateResultNotify<0x84>>(bytes), |n| CXN0102Notify::UpdatePictureData(n)),
                0x92 => lift_notify(spec_notify_from_bytes::<UpdateResultNotify<0x92>>(bytes), |n| CXN0102Notify::DivisionTransmissionUpdateFwImage(n)),
                0x94 => lift_notify(spec_notify_from_bytes::<UpdateResultNotify<0x94>>(bytes), |n| CXN0102Notify::DivisionTransmissionUpdatePictureData(n)),
                0xA0 => lift_notify(spec_notify_from_bytes::<GetTemperatureNotify>(bytes), |n| CXN0102Notify::GetTemperature(n)),
                0xA1 => lift_notify(spec_notify_from_bytes::<GetTimeNotify>(bytes), |n| CXN0102Notify::GetTime(n)),
                0xA2 => lift_notify(spec_notify_from_bytes::<GetVersionNotify>(bytes), |n| CXN0102Notify::GetVersion(n)),
                0xA3 => lift_notify(spec_notify_from_bytes::<ErrorResultNotify<0xA3>>(bytes), |n| CXN0102Notify::OutputTestPicture(n)),
                0xB2 => lift_notify(spec_notify_from_bytes::<GetLotNumberNotify>(bytes), |n| CXN0102Notify::GetLotNumber(n)),
                0xB4 => lift_notify(spec_notify_from_bytes::<GetSerialNumberNotify>(bytes), |n| CXN0102Notify::GetSerialNumber(n)),
                0x10 => lift_notify(spec_notify_from_bytes::<EmergencyNotify>(bytes), |n| CXN0102Notify::Emergency(n)),
                0x11 => lift_notify(spec_notify_from_bytes::<TemperatureEmergencyAndRecoveryNotify>(bytes), |n| CXN0102Notify::TemperatureEmergencyAndRecovery(n)),
                0x12 => lift_notify(spec_notify_from_bytes::<CommandEmergencyNotify>(bytes), |n| CXN0102Notify::CommandEmergency(n)),
                _ => Err(CommandError::WrongCommand { expected: 0, actual: bytes[0] }),
            }
        }
    }

    pub fn from_bytes(bytes: &[u8]) -> (notify: Result<CXN0102Notify, CommandError>)
        ensures
            notify == CXN0102Notify::spec_from_bytes(bytes@),
    {
        if bytes.len() == 0 {
            return Err(CommandError::WrongPayloadSize { expected: 2, actual: 0 });
        }
        let cmd = bytes[0];
        match cmd {
            0x00 => match BootCompletedNotify::from_bytes(bytes) {
                Ok(n) => Ok(CXN0102Notify::BootCompleted(n)),
                Err(e) => Err(e),
            },
            0x01 => match CommandResultNotify::<0x01>::from_bytes(bytes) {
                Ok(n) => Ok(CXN0102Notify::StartInput(n)),
                Err(e) => Err(e),
            },
            0x02 => match CommandResultNotify::<0x02>::from_bytes(bytes) {
                Ok(n) => Ok(CXN0102Notify::StopInput(n)),
                Err(e) => Err(e),
            },
            0x0C => match CommandResultNotify::<0x0C>::from_bytes(bytes) {
                Ok(n) => Ok(CXN0102Notify::StopInputSpecially(n)),
                Err(e) => Err(e),
            },
            0x03 => match CommandResultNotify::<0x03>::from_bytes(bytes) {
                Ok(n) => Ok(CXN0102Notify::MuteUnmuteChangeOutput(n)),
                Err(e) => Err(e),
            },
            0x07 => match CommandResultNotify::<0x07>::from_bytes(bytes) {
                Ok(n) => Ok(CXN0102Notify::SaveUserParam(n)),
                Err(e) => Err(e),
            },
            0x08 => match CommandResultNotify::<0x08>::from_bytes(bytes) {
                Ok(n) => Ok(CXN0102Notify::InitializeUserParam(n)),
                Err(e) => Err(e),
            },
            0x0B => match CommandResultNotify::<0x0B>::from_bytes(bytes) {
                Ok(n) => Ok(CXN0102Notify::ShutdownReboot(n)),
                Err(e) => Err(e),
            },
            0x25 => match GetVideoOutputPositionNotify::from_bytes(bytes) {
                Ok(n) => Ok(CXN0102Notify::GetVideoOutputPosition(n)),
                Err(e) => Err(e),
            },
            0x26 => match ErrorResultNotify::<0x26>::from_bytes(bytes) {
                Ok(n) => Ok(CXN0102Notify::SetVideoOutputPosition(n)),
                Err(e) => Err(e),
            },
            0x27 => match GetOpticalAlignmentNotify::from_bytes(bytes) {
                Ok(n) => Ok(CXN0102Notify::GetOpticalAlignment(n)),
                Err(e) => Err(e),
            },
            0x28 => match ErrorResultNotify::<0x28>::from_bytes(bytes) {
                Ok(n) => Ok(CXN0102Notify::SetOpticalAlignment(n)),
                Err(e) => Err(e),
            },
            0x29 => match GetBiphaseNotify::from_bytes(bytes) {
                Ok(n) => Ok(CXN0102Notify::GetBiphase(n)),
                Err(e) => Err(e),
            },
            0x2A => match ErrorResultNotify::<0x2A>::from_bytes(bytes) {
                Ok(n) => Ok(CXN0102Notify::SetBiphase(n)),
                Err(e) => Err(e),
            },
            0x32 => match AdjustmentControlNotify::<0x32>::from_bytes(bytes) {
                Ok(n) => Ok(CXN0102Notify::EasyOpticalAdjustmentControl(n)),
                Err(e) => Err(e),
            },
            0x33 => match AdjustmentStepNotify::<0x33>::from_bytes(bytes) {
                Ok(n) => Ok(CXN0102Notify::EasyOpticalAdjustmentPlus(n)),
                Err(e) => Err(e),
            },
            0x34 => match AdjustmentStepNotify::<0x34>::from_bytes(bytes) {
                Ok(n) => Ok(CXN0102Notify::EasyOpticalAdjustmentMinus(n)),
                Err(e) => Err(e),
            },
            0x35 => match CommandResultNotify::<0x35>::from_bytes(bytes) {
                Ok(n) => Ok(CXN0102Notify::EasyOpticalAdjustmentExit(n)),
                Err(e) => Err(e),
            },
            0x36 => match AdjustmentControlNotify::<0x36>::from_bytes(bytes) {
                Ok(n) => Ok(CXN0102Notify::EasyBiphaseAdjustmentControl(n)),
                Err(e) => Err(e),
            },
            0x37 => match AdjustmentStepNotify::<0x37>::from_bytes(bytes) {
                Ok(n) => Ok(CXN0102Notify::EasyBiphaseAdjustmentPlus(n)),
                Err(e) => Err(e),
            },
            0x38 => match AdjustmentStepNotify::<0x38>::from_bytes(bytes) {
                Ok(n) => Ok(CXN0102Notify::EasyBiphaseAdjustmentMinus(n)),
                Err(e) => Err(e),
            },
            0x39 => match CommandResultNotify::<0x39>::from_bytes(bytes) {
                Ok(n) => Ok(CXN0102Notify::EasyBiphaseAdjustmentExit(n)),
                Err(e) => Err(e),
            },
            0x40 => match GetAllPictureQualityNotify::from_bytes(bytes) {
                Ok(n) => Ok(CXN0102Notify::GetAllPictureQuality(n)),
                Err(e) => Err(e),
            },
            0x41 => match ErrorResultNotify::<0x41>::from_bytes(bytes) {
                Ok(n) => Ok(CXN0102Notify::SetAllPictureQuality(n)),
                Err(e) => Err(e),
            },
            0x42 => match GetBrightnessNotify::from_bytes(bytes) {
                Ok(n) => Ok(CXN0102Notify::GetBrightness(n)),
                Err(e) => Err(e),
            },
            0x43 => match ErrorResultNotify::<0x43>::from_bytes(bytes) {
                Ok(n) => Ok(CXN0102Notify::SetBrightness(n)),
                Err(e) => Err(e),
            },
            0x44 => match GetContrastNotify::from_bytes(bytes) {
                Ok(n) => Ok(CXN0102Notify::GetContrast(n)),
                Err(e) => Err(e),
            },
            0x45 => match ErrorResultNotify::<0x45>::from_bytes(bytes) {
                Ok(n) => Ok(CXN0102Notify::SetContrast(n)),
                Err(e) => Err(e),
            },
            0x46 => match GetHueNotify::from_bytes(bytes) {
                Ok(n) => Ok(CXN0102Notify::GetHue(n)),
                Err(e) => Err(e),
            },
            0x47 => match ErrorResultNotify::<0x47>::from_bytes(bytes) {
                Ok(n) => Ok(CXN0102Notify::SetHue(n)),
                Err(e) => Err(e),
            },
            0x48 => match GetSaturationNotify::from_bytes(bytes) {
                Ok(n) => Ok(CXN0102Notify::GetSaturation(n)),
                Err(e) => Err(e),
            },
            0x49 => match ErrorResultNotify::<0x49>::from_bytes(bytes) {
                Ok(n) => Ok(CXN0102Notify::SetSaturation(n)),
                Err(e) => Err(e),
            },
            0x4E => match GetSharpnessNotify::from_bytes(bytes) {
                Ok(n) => Ok(CXN0102Notify::GetSharpness(n)),
                Err(e) => Err(e),
            },
            0x4F => match ErrorResultNotify::<0x4F>::from_bytes(bytes) {
                Ok(n) => Ok(CXN0102Notify::SetSharpness(n)),
                Err(e) => Err(e),
            },
            0x82 => match UpdateResultNotify::<0x82>::from_bytes(bytes) {
                Ok(n) => Ok(CXN0102Notify::UpdateFwImage(n)),
                Err(e) => Err(e),
            },
            0x84 => match UpdateResultNotify::<0x84>::from_bytes(bytes) {
                Ok(n) => Ok(CXN0102Notify::UpdatePictureData(n)),
                Err(e) => Err(e),
            },
            0x92 => match UpdateResultNotify::<0x92>::from_bytes(bytes) {
                Ok(n) => Ok(CXN0102Notify::DivisionTransmissionUpdateFwImage(n)),
                Err(e) => Err(e),
            },
            0x94 => match UpdateResultNotify::<0x94>::from_bytes(bytes) {
                Ok(n) => Ok(CXN0102Notify::DivisionTransmissionUpdatePictureData(n)),
                Err(e) => Err(e),
            },
            0xA0 => match GetTemperatureNotify::from_bytes(bytes) {
                Ok(n) => Ok(CXN0102Notify::GetTemperature(n)),
                Err(e) => Err(e),
            },
            0xA1 => match GetTimeNotify::from_bytes(bytes) {
                Ok(n) => Ok(CXN0102Notify::GetTime(n)),
                Err(e) => Err(e),
            },
            0xA2 => match GetVersionNotify::from_bytes(bytes) {
                Ok(n) => Ok(CXN0102Notify::GetVersion(n)),
                Err(e) => Err(e),
            },
            0xA3 => match ErrorResultNotify::<0xA3>::from_bytes(bytes) {
                Ok(n) => Ok(CXN0102Notify::OutputTestPicture(n)),
                Err(e) => Err(e),
            },
            0xB2 => match GetLotNumberNotify::from_bytes(bytes) {
                Ok(n) => Ok(CXN0102Notify::GetLotNumber(n)),
                Err(e) => Err(e),
            },
            0xB4 => match GetSerialNumberNotify::from_bytes(bytes) {
                Ok(n) => Ok(CXN0102Notify::GetSerialNumber(n)),
                Err(e) => Err(e),
            },
            0x10 => match EmergencyNotify::from_bytes(bytes) {
                Ok(n) => Ok(CXN0102Notify::Emergency(n)),
                Err(e) => Err(e),
            },
            0x11 => match TemperatureEmergencyAndRecoveryNotify::from_bytes(bytes) {
                Ok(n) => Ok(CXN0102Notify::TemperatureEmergencyAndRecovery(n)),
                Err(e) => Err(e),
            },
            0x12 => match CommandEmergencyNotify::from_bytes(bytes) {
                Ok(n) => Ok(CXN0102Notify::CommandEmergency(n)),
                Err(e) => Err(e),
            },
            _ => Err(CommandError::WrongCommand { expected: 0, actual: cmd }),
        }
    }
}


/// The command id and operand count of each notify.
pub proof fn lemma_notify_constants()
    ensures
        GetVideoOutputPositionNotify::CMD == 0x25,
        GetVideoOutputPositionNotify::SIZE == 10,
        GetOpticalAlignmentNotify::CMD == 0x27,
        GetOpticalAlignmentNotify::SIZE == 14,
        GetAllPictureQualityNotify::CMD == 0x40,
        GetAllPictureQualityNotify::SIZE == 10,
        BootCompletedNotify::CMD == 0x00,
        BootCompletedNotify::SIZE == 1,
        GetBiphaseNotify::CMD == 0x29,
        GetBiphaseNotify::SIZE == 5,
        GetBrightnessNotify::CMD == 0x42,
        GetBrightnessNotify::SIZE == 2,
        GetContrastNotify::CMD == 0x44,
        GetContrastNotify::SIZE == 2,
        GetHueNotify::CMD == 0x46,
        GetHueNotify::SIZE == 3,
        GetSaturationNotify::CMD == 0x48,
        GetSaturationNotify::SIZE == 3,
        GetSharpnessNotify::CMD == 0x4E,
        GetSharpnessNotify::SIZE == 2,
        GetTemperatureNotify::CMD == 0xA0,
        GetTemperatureNotify::SIZE == 4,
        GetTimeNotify::CMD == 0xA1,
        GetTimeNotify::SIZE == 5,
        GetVersionNotify::CMD == 0xA2,
        GetVersionNotify::SIZE == 13,
        GetLotNumberNotify::CMD == 0xB2,
        GetLotNumberNotify::SIZE == 13,
        GetSerialNumberNotify::CMD == 0xB4,
        GetSerialNumberNotify::SIZE == 9,
        EmergencyNotify::CMD == 0x10,
        EmergencyNotify::SIZE == 3,
        TemperatureEmergencyAndRecoveryNotify::CMD == 0x11,
        TemperatureEmergencyAndRecoveryNotify::SIZE == 1,
        CommandEmergencyNotify::CMD == 0x12,
        CommandEmergencyNotify::SIZE == 2,
{
}

/// The command id and operand count of the notifies that answer several commands.
pub proof fn lemma_shared_notify_constants<const C: u8>()
    ensures
        CommandResultNotify::<C>::CMD == C,
        CommandResultNotify::<C>::SIZE == 1,
        ErrorResultNotify::<C>::CMD == C,
        ErrorResultNotify::<C>::SIZE == 1,
        UpdateResultNotify::<C>::CMD == C,
        UpdateResultNotify::<C>::SIZE == 1,
        AdjustmentControlNotify::<C>::CMD == C,
        AdjustmentControlNotify::<C>::SIZE == 1,
        AdjustmentStepNotify::<C>::CMD == C,
        AdjustmentStepNotify::<C>::SIZE == 1,
{
}

/// The command id of each request with a size byte.
pub proof fn lemma_request_command_ids()
    ensures
        SaveUserParam::CMD == 0x07,
        SetVideoOutputPosition::CMD == 0x26,
        SetOpticalAlignment::CMD == 0x28,
        SetBiphase::CMD == 0x2A,
        SetAllPictureQuality::CMD == 0x41,
        SetHue::CMD == 0x47,
        SetSaturation::CMD == 0x49,
        SetSharpness::CMD == 0x4F,
        OutputTestPicture::CMD == 0xA3,
        StartInput::CMD == 0x01,
        StopInput::CMD == 0x02,
        InitializeUserParam::CMD == 0x08,
        GetVideoOutputPosition::CMD == 0x25,
        GetOpticalAlignment::CMD == 0x27,
        GetBiphase::CMD == 0x29,
        SetEasyOpticalAdjustmentControl::CMD == 0x32,
        SetEasyOpticalAdjustmentPlus::CMD == 0x33,
        SetEasyOpticalAdjustmentMinus::CMD == 0x34,
        SetEasyBiphaseAdjustmentControl::CMD == 0x36,
        SetEasyBiphaseAdjustmentPlus::CMD == 0x37,
        SetEasyBiphaseAdjustmentMinus::CMD == 0x38,
        GetAllPictureQuality::CMD == 0x40,
        GetBrightness::CMD == 0x42,
        GetContrast::CMD == 0x44,
        GetHue::CMD == 0x46,
        GetSaturation::CMD == 0x48,
        GetSharpness::CMD == 0x4E,
        GetTemperature::CMD == 0xA0,
        GetTime::CMD == 0xA1,
        GetVersion::CMD == 0xA2,
        GetLotNumber::CMD == 0xB2,
        GetSerialNumber::CMD == 0xB4,
        StopInputSpecially::CMD == 0x0C,
        MuteUnmuteChangeOutput::CMD == 0x03,
        ShutdownReboot::CMD == 0x0B,
        SetEasyOpticalAdjustmentExit::CMD == 0x35,
        SetEasyBiphaseAdjustmentExit::CMD == 0x39,
        SetBrightness::CMD == 0x43,
        SetContrast::CMD == 0x45,
{
}


// ---------------------------------------------------------------------------
// Where each value sits in a notify frame
// ---------------------------------------------------------------------------

/// A byte read as a signed byte is its two's-complement value.
pub proof fn lemma_signed_byte(v: u8)
    ensures
        (v as i8) as int == (if v < 128 {
            v as int
        } else {
            v - 256
        }),
{
    assert((v as i8) as int == (if v < 128 { v as int } else { v - 256 })) by (bit_vector);
}

/// In a get-temperature notify the operands after the result are the module temperature, the mute threshold and the system stop threshold, in that order.
pub proof fn lemma_get_temperature_frame(r: u8, a: u8, b: u8, c: u8)
    ensures
        CXN0102Notify::spec_from_bytes(seq![0xA0u8, 4u8, r, a, b, c]) matches Ok(CXN0102Notify::GetTemperature(n))
            && n.result == CommandResult::spec_from_byte(r)
            && n.module_temperature == a
            && n.mute_threshold_temperature == b
            && n.system_stop_threshold_temperature == c,
{
    let f = seq![0xA0u8, 4u8, r, a, b, c];
    assert(f.subrange(2, f.len() as int) =~= seq![r, a, b, c]);
}

/// In a get-time notify the seconds are the four operands after the result, least significant first.
pub proof fn lemma_get_time_frame(r: u8, b0: u8, b1: u8, b2: u8, b3: u8)
    ensures
        CXN0102Notify::spec_from_bytes(seq![0xA1u8, 5u8, r, b0, b1, b2, b3]) matches Ok(CXN0102Notify::GetTime(n))
            && n.result == CommandResult::spec_from_byte(r)
            && n.seconds == b0 + 256 * b1 + 65536 * b2 + 16777216 * b3,
{
    let f = seq![0xA1u8, 5u8, r, b0, b1, b2, b3];
    assert(f.subrange(2, f.len() as int) =~= seq![r, b0, b1, b2, b3]);
}

/// In a get-biphase notify the amount is the four operands after the result, least significant first.
pub proof fn lemma_get_biphase_frame(r: u8, b0: u8, b1: u8, b2: u8, b3: u8)
    ensures
        CXN0102Notify::spec_from_bytes(seq![0x29u8, 5u8, r, b0, b1, b2, b3]) matches Ok(CXN0102Notify::GetBiphase(n))
            && n.result == CommandResult::spec_from_byte(r)
            && n.amount == b0 + 256 * b1 + 65536 * b2 + 16777216 * b3,
{
    let f = seq![0x29u8, 5u8, r, b0, b1, b2, b3];
    assert(f.subrange(2, f.len() as int) =~= seq![r, b0, b1, b2, b3]);
}

/// In a get-brightness notify the brightness is the operand after the result, read as a signed byte.
pub proof fn lemma_get_brightness_frame(r: u8, v: u8)
    ensures
        CXN0102Notify::spec_from_bytes(seq![0x42u8, 2u8, r, v]) matches Ok(CXN0102Notify::GetBrightness(n))
            && n.result == CommandResult::spec_from_byte(r)
            && n.brightness as int == (if v < 128 { v as int } else { v - 256 }),
{
    lemma_signed_byte(v);
    let f = seq![0x42u8, 2u8, r, v];
    assert(f.subrange(2, f.len() as int) =~= seq![r, v]);
}

/// In a get-contrast notify the contrast is the operand after the result, read as a signed byte.
pub proof fn lemma_get_contrast_frame(r: u8, v: u8)
    ensures
        CXN0102Notify::spec_from_bytes(seq![0x44u8, 2u8, r, v]) matches Ok(CXN0102Notify::GetContrast(n))
            && n.result == CommandResult::spec_from_byte(r)
            && n.contrast as int == (if v < 128 { v as int } else { v - 256 }),
{
    lemma_signed_byte(v);
    let f = seq![0x44u8, 2u8, r, v];
    assert(f.subrange(2, f.len() as int) =~= seq![r, v]);
}

/// In a get-sharpness notify the sharpness is the operand after the result.
pub proof fn lemma_get_sharpness_frame(r: u8, v: u8)
    ensures
        CXN0102Notify::spec_from_bytes(seq![0x4Eu8, 2u8, r, v]) matches Ok(CXN0102Notify::GetSharpness(n))
            && n.result == CommandResult::spec_from_byte(r)
            && n.sharpness == v,
{
    let f = seq![0x4Eu8, 2u8, r, v];
    assert(f.subrange(2, f.len() as int) =~= seq![r, v]);
}

/// In a get-hue notify hue U comes before hue V, each a signed byte.
pub proof fn lemma_get_hue_frame(r: u8, u: u8, v: u8)
    ensures
        CXN0102Notify::spec_from_bytes(seq![0x46u8, 3u8, r, u, v]) matches Ok(CXN0102Notify::GetHue(n))
            && n.result == CommandResult::spec_from_byte(r)
            && n.hue_u as int == (if u < 128 { u as int } else { u - 256 })
            && n.hue_v as int == (if v < 128 { v as int } else { v - 256 }),
{
    lemma_signed_byte(u);
    lemma_signed_byte(v);
    let f = seq![0x46u8, 3u8, r, u, v];
    assert(f.subrange(2, f.len() as int) =~= seq![r, u, v]);
}

/// In a get-video-output-position notify the pan comes before the tilt, each a signed byte,
/// then the flip; a flip byte out of its table rejects the frame.
pub proof fn lemma_get_video_output_position_frame(
    r: u8,
    p: u8,
    t: u8,
    f: u8,
    z0: u8,
    z1: u8,
    z2: u8,
    z3: u8,
    z4: u8,
    z5: u8,
)
    ensures
        ({
            let frame = seq![0x25u8, 10u8, r, p, t, f, z0, z1, z2, z3, z4, z5];
            match Flip::spec_from_byte(f) {
                Ok(flip) => CXN0102Notify::spec_from_bytes(frame) matches Ok(
                    CXN0102Notify::GetVideoOutputPosition(n),
                ) && n.result == CommandResult::spec_from_byte(r) && n.pan.0 as int == (if p
                    < 128 {
                    p as int
                } else {
                    p - 256
                }) && n.tilt.0 as int == (if t < 128 {
                    t as int
                } else {
                    t - 256
                }) && n.flip == flip,
                Err(e) => CXN0102Notify::spec_from_bytes(frame) == Err::<CXN0102Notify, CommandError>(e),
            }
        }),
{
    lemma_signed_byte(p);
    lemma_signed_byte(t);
    let frame = seq![0x25u8, 10u8, r, p, t, f, z0, z1, z2, z3, z4, z5];
    assert(frame.subrange(2, frame.len() as int) =~= seq![r, p, t, f, z0, z1, z2, z3, z4, z5]);
}

/// In a get-saturation notify saturation U comes before saturation V, each a signed byte.
pub proof fn lemma_get_saturation_frame(r: u8, u: u8, v: u8)
    ensures
        CXN0102Notify::spec_from_bytes(seq![0x48u8, 3u8, r, u, v]) matches Ok(CXN0102Notify::GetSaturation(n))
            && n.result == CommandResult::spec_from_byte(r)
            && n.saturation_u as int == (if u < 128 { u as int } else { u - 256 })
            && n.saturation_v as int == (if v < 128 { v as int } else { v - 256 }),
{
    lemma_signed_byte(u);
    lemma_signed_byte(v);
    let f = seq![0x48u8, 3u8, r, u, v];
    assert(f.subrange(2, f.len() as int) =~= seq![r, u, v]);
}

/// In a get-version notify the firmware, parameter and data versions follow the result, four bytes each, in that order.
pub proof fn lemma_get_version_frame(r: u8, f0: u8, f1: u8, f2: u8, f3: u8, p0: u8, p1: u8, p2: u8, p3: u8, d0: u8, d1: u8, d2: u8, d3: u8)
    ensures
        CXN0102Notify::spec_from_bytes(seq![0xA2u8, 13u8, r, f0, f1, f2, f3, p0, p1, p2, p3, d0, d1, d2, d3]) matches Ok(CXN0102Notify::GetVersion(n))
            && n.result == CommandResult::spec_from_byte(r)
            && n.firmware@ == seq![f0, f1, f2, f3]
            && n.parameter@ == seq![p0, p1, p2, p3]
            && n.data@ == seq![d0, d1, d2, d3],
{
    let f = seq![0xA2u8, 13u8, r, f0, f1, f2, f3, p0, p1, p2, p3, d0, d1, d2, d3];
    assert(f.subrange(2, f.len() as int) =~= seq![r, f0, f1, f2, f3, p0, p1, p2, p3, d0, d1, d2, d3]);
}

/// In a command emergency notify the reference follows the result.
pub proof fn lemma_command_emergency_frame(r: u8, x: u8)
    ensures
        CXN0102Notify::spec_from_bytes(seq![0x12u8, 2u8, r, x]) matches Ok(CXN0102Notify::CommandEmergency(n))
            && n.result == CommandEmergencyResult::spec_from_byte(r)
            && n.reference == x,
{
    let f = seq![0x12u8, 2u8, r, x];
    assert(f.subrange(2, f.len() as int) =~= seq![r, x]);
}

/// A temperature emergency notify carries only its result.
pub proof fn lemma_temperature_emergency_frame(r: u8)
    ensures
        CXN0102Notify::spec_from_bytes(seq![0x11u8, 1u8, r]) matches Ok(CXN0102Notify::TemperatureEmergencyAndRecovery(n))
            && n.result == TemperatureEmergencyRecoveryResult::spec_from_byte(r),
{
    let f = seq![0x11u8, 1u8, r];
    assert(f.subrange(2, f.len() as int) =~= seq![r]);
}

/// In a get-all-picture-quality notify the operands after the result are contrast, brightness, hue U, hue V, saturation U and saturation V (signed), a reserved byte, the sharpness and a reserved byte.
pub proof fn lemma_get_all_picture_quality_frame(r: u8, c: u8, b: u8, hu: u8, hv: u8, su: u8, sv: u8, x: u8, sh: u8, y: u8)
    ensures
        CXN0102Notify::spec_from_bytes(seq![0x40u8, 10u8, r, c, b, hu, hv, su, sv, x, sh, y]) matches Ok(CXN0102Notify::GetAllPictureQuality(n))
            && n.result == CommandResult::spec_from_byte(r)
            && n.picture_quality.contrast as int == (if c < 128 { c as int } else { c - 256 })
            && n.picture_quality.brightness as int == (if b < 128 { b as int } else { b - 256 })
            && n.picture_quality.hue_u as int == (if hu < 128 { hu as int } else { hu - 256 })
            && n.picture_quality.hue_v as int == (if hv < 128 { hv as int } else { hv - 256 })
            && n.picture_quality.saturation_u as int == (if su < 128 { su as int } else { su - 256 })
            && n.picture_quality.saturation_v as int == (if sv < 128 { sv as int } else { sv - 256 })
            && n.picture_quality.sharpness == sh
            && n.reserved1 == x
            && n.reserved2 == y,
{
    lemma_signed_byte(c);
    lemma_signed_byte(b);
    lemma_signed_byte(hu);
    lemma_signed_byte(hv);
    lemma_signed_byte(su);
    lemma_signed_byte(sv);
    lemma_signed_byte(x);
    lemma_signed_byte(sh);
    lemma_signed_byte(y);
    let f = seq![0x40u8, 10u8, r, c, b, hu, hv, su, sv, x, sh, y];
    assert(f.subrange(2, f.len() as int) =~= seq![r, c, b, hu, hv, su, sv, x, sh, y]);
}

/// In a get-optical-alignment notify the operands after the result are the five horizontal steps (signed: R0, R1, G0, G1, B), then the five vertical values in the same colour order.
pub proof fn lemma_get_optical_alignment_frame(r: u8, h0: u8, h1: u8, h2: u8, h3: u8, h4: u8, v0: u8, v1: u8, v2: u8, v3: u8, v4: u8, x0: u8, x1: u8, x2: u8)
    ensures
        CXN0102Notify::spec_from_bytes(seq![0x27u8, 14u8, r, h0, h1, h2, h3, h4, v0, v1, v2, v3, v4, x0, x1, x2]) matches Ok(CXN0102Notify::GetOpticalAlignment(n))
            && n.result == CommandResult::spec_from_byte(r)
            && n.alignment.r0_horizontal.0 as int == (if h0 < 128 { h0 as int } else { h0 - 256 })
            && n.alignment.r1_horizontal.0 as int == (if h1 < 128 { h1 as int } else { h1 - 256 })
            && n.alignment.g0_horizontal.0 as int == (if h2 < 128 { h2 as int } else { h2 - 256 })
            && n.alignment.g1_horizontal.0 as int == (if h3 < 128 { h3 as int } else { h3 - 256 })
            && n.alignment.b_horizontal.0 as int == (if h4 < 128 { h4 as int } else { h4 - 256 })
            && n.alignment.r0_vertical == v0
            && n.alignment.r1_vertical == v1
            && n.alignment.g0_vertical == v2
            && n.alignment.g1_vertical == v3
            && n.alignment.b_vertical == v4,
{
    lemma_signed_byte(h0);
    lemma_signed_byte(h1);
    lemma_signed_byte(h2);
    lemma_signed_byte(h3);
    lemma_signed_byte(h4);
    lemma_signed_byte(v0);
    lemma_signed_byte(v1);
    lemma_signed_byte(v2);
    lemma_signed_byte(v3);
    lemma_signed_byte(v4);
    lemma_signed_byte(x0);
    lemma_signed_byte(x1);
    lemma_signed_byte(x2);
    let f = seq![0x27u8, 14u8, r, h0, h1, h2, h3, h4, v0, v1, v2, v3, v4, x0, x1, x2];
    assert(f.subrange(2, f.len() as int) =~= seq![r, h0, h1, h2, h3, h4, v0, v1, v2, v3, v4, x0, x1, x2]);
}

/// In a get-lot-number notify the three lot numbers follow the result, four bytes each, least significant first.
pub proof fn lemma_get_lot_number_frame(r: u8, a0: u8, a1: u8, a2: u8, a3: u8, a4: u8, a5: u8, a6: u8, a7: u8, a8: u8, a9: u8, a10: u8, a11: u8)
    ensures
        CXN0102Notify::spec_from_bytes(seq![0xB2u8, 13u8, r, a0, a1, a2, a3, a4, a5, a6, a7, a8, a9, a10, a11]) matches Ok(CXN0102Notify::GetLotNumber(n))
            && n.result == CommandResult::spec_from_byte(r)
            && n.lot_numbers[0] == a0 + 256 * a1 + 65536 * a2 + 16777216 * a3
            && n.lot_numbers[1] == a4 + 256 * a5 + 65536 * a6 + 16777216 * a7
            && n.lot_numbers[2] == a8 + 256 * a9 + 65536 * a10 + 16777216 * a11,
{
    let f = seq![0xB2u8, 13u8, r, a0, a1, a2, a3, a4, a5, a6, a7, a8, a9, a10, a11];
    assert(f.subrange(2, f.len() as int) =~= seq![r, a0, a1, a2, a3, a4, a5, a6, a7, a8, a9, a10, a11]);
}

/// In a get-serial-number notify the two serial numbers follow the result, four bytes each, least significant first.
pub proof fn lemma_get_serial_number_frame(r: u8, a0: u8, a1: u8, a2: u8, a3: u8, a4: u8, a5: u8, a6: u8, a7: u8)
    ensures
        CXN0102Notify::spec_from_bytes(seq![0xB4u8, 9u8, r, a0, a1, a2, a3, a4, a5, a6, a7]) matches Ok(CXN0102Notify::GetSerialNumber(n))
            && n.result == CommandResult::spec_from_byte(r)
            && n.serial_numbers[0] == a0 + 256 * a1 + 65536 * a2 + 16777216 * a3
            && n.serial_numbers[1] == a4 + 256 * a5 + 65536 * a6 + 16777216 * a7,
{
    let f = seq![0xB4u8, 9u8, r, a0, a1, a2, a3, a4, a5, a6, a7];
    assert(f.subrange(2, f.len() as int) =~= seq![r, a0, a1, a2, a3, a4, a5, a6, a7]);
}


// ---------------------------------------------------------------------------
// Where each value sits in a request frame
// ---------------------------------------------------------------------------

/// The value of the byte that carries a signed value in two's complement.
pub open spec fn signed_byte_value(x: i8) -> int {
    if x >= 0 {
        x as int
    } else {
        x + 256
    }
}

/// A signed value sent as a byte is its two's-complement byte.
pub proof fn lemma_byte_of_signed(x: i8)
    ensures
        (x as u8) as int == signed_byte_value(x),
{
    assert((x as u8) as int == (if x >= 0 { x as int } else { x + 256 })) by (bit_vector);
}

/// A set-hue frame carries hue U as its first operand and hue V as its second.
pub proof fn lemma_set_hue_frame(u: i8, v: i8)
    ensures
        ({
            let b = SetHue { hue_u: u, hue_v: v }.spec_to_bytes();
            &&& b.len() == 4
            &&& b[0] == 0x47
            &&& b[1] == 2
            &&& b[2] as int == signed_byte_value(u)
            &&& b[3] as int == signed_byte_value(v)
        }),
{
    lemma_byte_of_signed(u);
    lemma_byte_of_signed(v);
}

/// A set-saturation frame carries saturation U as its first operand and saturation V as its second.
pub proof fn lemma_set_saturation_frame(u: i8, v: i8)
    ensures
        ({
            let b = SetSaturation { saturation_u: u, saturation_v: v }.spec_to_bytes();
            &&& b.len() == 4
            &&& b[0] == 0x49
            &&& b[1] == 2
            &&& b[2] as int == signed_byte_value(u)
            &&& b[3] as int == signed_byte_value(v)
        }),
{
    lemma_byte_of_signed(u);
    lemma_byte_of_signed(v);
}

/// A set-brightness frame carries the brightness as its one operand.
pub proof fn lemma_set_brightness_frame(v: i8)
    ensures
        ({
            let b = SetBrightness { brightness: v }.spec_to_bytes();
            &&& b.len() == 3
            &&& b[0] == 0x43
            &&& b[1] == 1
            &&& b[2] as int == signed_byte_value(v)
        }),
{
    lemma_byte_of_signed(v);
}

/// A set-contrast frame carries the contrast as its one operand.
pub proof fn lemma_set_contrast_frame(v: i8)
    ensures
        ({
            let b = SetContrast { contrast: v }.spec_to_bytes();
            &&& b.len() == 3
            &&& b[0] == 0x45
            &&& b[1] == 1
            &&& b[2] as int == signed_byte_value(v)
        }),
{
    lemma_byte_of_signed(v);
}

/// A set-sharpness frame carries the sharpness as its one operand.
pub proof fn lemma_set_sharpness_frame(v: u8)
    ensures
        ({
            let b = SetSharpness { sharpness: v }.spec_to_bytes();
            &&& b.len() == 3
            &&& b[0] == 0x4F
            &&& b[1] == 1
            &&& b[2] as int == v
        }),
{
}

/// A set-all-picture-quality frame carries contrast, brightness, hue U, hue V, saturation U, saturation V, a zero byte, the sharpness and a zero byte.
pub proof fn lemma_set_all_picture_quality_frame(c: i8, br: i8, hu: i8, hv: i8, su: i8, sv: i8, sh: u8)
    ensures
        ({
            let b = SetAllPictureQuality { picture_quality: PictureQuality { contrast: c, brightness: br, hue_u: hu, hue_v: hv, saturation_u: su, saturation_v: sv, sharpness: sh } }.spec_to_bytes();
            &&& b.len() == 11
            &&& b[0] == 0x41
            &&& b[1] == 9
            &&& b[2] as int == signed_byte_value(c)
            &&& b[3] as int == signed_byte_value(br)
            &&& b[4] as int == signed_byte_value(hu)
            &&& b[5] as int == signed_byte_value(hv)
            &&& b[6] as int == signed_byte_value(su)
            &&& b[7] as int == signed_byte_value(sv)
            &&& b[8] as int == 0
            &&& b[9] as int == sh
            &&& b[10] as int == 0
        }),
{
    lemma_byte_of_signed(c);
    lemma_byte_of_signed(br);
    lemma_byte_of_signed(hu);
    lemma_byte_of_signed(hv);
    lemma_byte_of_signed(su);
    lemma_byte_of_signed(sv);
}

/// A set-video-output-position frame carries pan, tilt and the flip byte, then 0x64 and five zero bytes.
pub proof fn lemma_set_video_output_position_frame(p: i8, t: i8, f: Flip)
    ensures
        ({
            let b = SetVideoOutputPosition { pan: Pan(p), tilt: Tilt(t), flip: f }.spec_to_bytes();
            &&& b.len() == 11
            &&& b[0] == 0x26
            &&& b[1] == 9
            &&& b[2] as int == signed_byte_value(p)
            &&& b[3] as int == signed_byte_value(t)
            &&& b[4] as int == f.spec_byte()
            &&& b[5] as int == 0x64
            &&& b[6] as int == 0
            &&& b[7] as int == 0
            &&& b[8] as int == 0
            &&& b[9] as int == 0
            &&& b[10] as int == 0
        }),
{
    lemma_byte_of_signed(p);
    lemma_byte_of_signed(t);
}

/// A set-biphase frame carries the amount in four bytes, least significant first.
pub proof fn lemma_set_biphase_frame(a: u32)
    ensures
        ({
            let b = SetBiphase { amount: a }.spec_to_bytes();
            &&& b.len() == 6
            &&& b[0] == 0x2A
            &&& b[1] == 4
            &&& b[2] as int == a % 256
            &&& b[3] as int == a / 256 % 256
            &&& b[4] as int == a / 65536 % 256
            &&& b[5] as int == a / 16777216
        }),
{
}

/// A set-optical-alignment frame carries the five horizontal steps (R0, R1, G0, G1, B), the five vertical values in the same order, and three zero bytes.
pub proof fn lemma_set_optical_alignment_frame(h0: i8, h1: i8, h2: i8, h3: i8, h4: i8, v0: u8, v1: u8, v2: u8, v3: u8, v4: u8)
    ensures
        ({
            let b = SetOpticalAlignment { alignment: OpticalAlignment { r0_horizontal: I8Byte(h0), r1_horizontal: I8Byte(h1), g0_horizontal: I8Byte(h2), g1_horizontal: I8Byte(h3), b_horizontal: I8Byte(h4), r0_vertical: v0, r1_vertical: v1, g0_vertical: v2, g1_vertical: v3, b_vertical: v4 } }.spec_to_bytes();
            &&& b.len() == 15
            &&& b[0] == 0x28
            &&& b[1] == 13
            &&& b[2] as int == signed_byte_value(h0)
            &&& b[3] as int == signed_byte_value(h1)
            &&& b[4] as int == signed_byte_value(h2)
            &&& b[5] as int == signed_byte_value(h3)
            &&& b[6] as int == signed_byte_value(h4)
            &&& b[7] as int == v0
            &&& b[8] as int == v1
            &&& b[9] as int == v2
            &&& b[10] as int == v3
            &&& b[11] as int == v4
            &&& b[12] as int == 0
            &&& b[13] as int == 0
            &&& b[14] as int == 0
        }),
{
    lemma_byte_of_signed(h0);
    lemma_byte_of_signed(h1);
    lemma_byte_of_signed(h2);
    lemma_byte_of_signed(h3);
    lemma_byte_of_signed(h4);
}

/// An output-test-picture frame carries the pattern byte, the setting, the background red, green and blue, the foreground red, green and blue, and nine zero bytes.
pub proof fn lemma_output_test_picture_frame(p: TestPattern, st: u8, br: u8, bg: u8, bb: u8, fr: u8, fg: u8, fb: u8)
    ensures
        ({
            let b = OutputTestPicture { pattern: p, setting: st, background_color: Rgb { r: br, g: bg, b: bb }, foreground_color: Rgb { r: fr, g: fg, b: fb } }.spec_to_bytes();
            &&& b.len() == 19
            &&& b[0] == 0xA3
            &&& b[1] == 17
            &&& b[2] as int == p.spec_byte()
            &&& b[3] as int == st
            &&& b[4] as int == br
            &&& b[5] as int == bg
            &&& b[6] as int == bb
            &&& b[7] as int == fr
            &&& b[8] as int == fg
            &&& b[9] as int == fb
            &&& b[10] as int == 0
            &&& b[11] as int == 0
            &&& b[12] as int == 0
            &&& b[13] as int == 0
            &&& b[14] as int == 0
            &&& b[15] as int == 0
            &&& b[16] as int == 0
            &&& b[17] as int == 0
            &&& b[18] as int == 0
        }),
{
}

/// A save-user-param frame carries two zero bytes, then the video position, optical alignment and picture quality choices.
pub proof fn lemma_save_user_param_frame(v: SaveVideoPosition, o: SaveOpticalAlignmentBiphase, q: SavePictureQuality)
    ensures
        ({
            let b = SaveUserParam { video_position: v, optical_alignment_biphase: o, picture_quality: q }.spec_to_bytes();
            &&& b.len() == 7
            &&& b[0] == 0x07
            &&& b[1] == 5
            &&& b[2] as int == 0
            &&& b[3] as int == 0
            &&& b[4] as int == v.spec_byte()
            &&& b[5] as int == o.spec_byte()
            &&& b[6] as int == q.spec_byte()
        }),
{
}

} // verus!
