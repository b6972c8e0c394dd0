use vstd::prelude::*;

verus! {

/// Number of parameters held by the parameter manager.
pub const PARAMETER_COUNT: usize = 41;

/// A floating point parameter value, held as its IEEE-754 single precision bit
/// pattern; the arithmetic on it is done by the caller.
#[derive(Clone, Copy, PartialEq, Eq, Debug)]
pub struct FloatBits {
    pub bits: u32,
}

/// A value that a parameter slot can hold: it is stored as one 32 bit word.
pub trait ParamValue: Sized {
    /// The value that `word` stands for.
    spec fn from_word(word: u32) -> Self;

    /// The word that stores `self`.
    spec fn to_word(self) -> u32;

    fn decode(word: u32) -> (r: Self)
        ensures
            r == Self::from_word(word),
    ;

    fn encode(&self) -> (word: u32)
        ensures
            word == self.to_word(),
    ;

    /// Storing a value and reading it back gives the value.
    proof fn lemma_word_roundtrip(value: Self)
        ensures
            Self::from_word(value.to_word()) == value,
    ;
}

impl ParamValue for u32 {
    open spec fn from_word(word: u32) -> u32 {
        word
    }

    open spec fn to_word(self) -> u32 {
        self
    }

    fn decode(word: u32) -> (r: u32) {
        word
    }

    fn encode(&self) -> (word: u32) {
        *self
    }

    proof fn lemma_word_roundtrip(value: u32) {
    }
}

impl ParamValue for i32 {
    open spec fn from_word(word: u32) -> i32 {
        word as i32
    }

    open spec fn to_word(self) -> u32 {
        self as u32
    }

    fn decode(word: u32) -> (r: i32) {
        word as i32
    }

    fn encode(&self) -> (word: u32) {
        *self as u32
    }

    proof fn lemma_word_roundtrip(value: i32) {
        assert((value as u32) as i32 == value) by (bit_vector);
    }
}

impl ParamValue for FloatBits {
    open spec fn from_word(word: u32) -> FloatBits {
        FloatBits { bits: word }
    }

    open spec fn to_word(self) -> u32 {
        self.bits
    }

    fn decode(word: u32) -> (r: FloatBits) {
        FloatBits { bits: word }
    }

    fn encode(&self) -> (word: u32) {
        self.bits
    }

    proof fn lemma_word_roundtrip(value: FloatBits) {
    }
}

/// A named parameter: its value type and the slot that stores it.
pub trait ParameterType {
    type ReturnType: ParamValue;

    spec fn slot() -> int;

    /// The slot is one of the storage slots.
    proof fn lemma_slot_in_range()
        ensures
            0 <= Self::slot() < PARAMETER_COUNT,
    ;

    fn index() -> (i: usize)
        ensures
            i == Self::slot(),
            i < PARAMETER_COUNT,
    ;
}

#[derive(Clone, Copy, PartialEq, Eq, Debug)]
pub enum ParameterParseError {
    InvalidToken,
    WriteInterfaceError,
}

/// Every parameter, in storage order.
#[derive(Clone, Copy, PartialEq, Eq, Debug, Structural)]
pub enum ParameterList {
    MotorM2Ustep,
    LongPressThresholdMs,
    DoublePressThresholdMs,
    MotorUpperPosLimit,
    MotorLowerPosLimit,
    MotorUpperVelLimit,
    MotorLowerVelLimit,
    HomingHighVelocity,
    HomingLowVelocity,
    HomingSafePosition,
    HomingMaxTravel,
    HomingAccel,
    LogicRunnerPeriodUs,
    TouchCenterOffsetX,
    TouchCenterOffsetY,
    TouchScaleXX,
    TouchScaleXY,
    TouchScaleYX,
    TouchScaleYY,
    NoBallTargetHeight,
    KinBaseCircRad,
    KinHingeOffset,
    KinJointCircRad,
    KinMinHeight,
    KinSurface2JointCircDist,
    PistonBodyLen,
    FFDefaultLinSpeed,
    FFDefaultLinAccel,
    FFDefaultAngSpeed,
    FFDefaultAngAccel,
    MCKp,
    MCAccel,
    MCVelMax,
    MCVelMin,
    MCPosDeadBand,
    PlatePDCtrlKp,
    PlatePDCtrlKd,
    SPCirclingRadius,
    SPCirclingTime,
    TrimPlateAngleA,
    TrimPlateAngleB,
}

impl ParameterList {
    pub open spec fn slot(self) -> int {
        match self {
            ParameterList::MotorM2Ustep => 0,
            ParameterList::LongPressThresholdMs => 1,
            ParameterList::DoublePressThresholdMs => 2,
            ParameterList::MotorUpperPosLimit => 3,
            ParameterList::MotorLowerPosLimit => 4,
            ParameterList::MotorUpperVelLimit => 5,
            ParameterList::MotorLowerVelLimit => 6,
            ParameterList::HomingHighVelocity => 7,
            ParameterList::HomingLowVelocity => 8,
            ParameterList::HomingSafePosition => 9,
            ParameterList::HomingMaxTravel => 10,
            ParameterList::HomingAccel => 11,
            ParameterList::LogicRunnerPeriodUs => 12,
            ParameterList::TouchCenterOffsetX => 13,
            ParameterList::TouchCenterOffsetY => 14,
            ParameterList::TouchScaleXX => 15,
            ParameterList::TouchScaleXY => 16,
            ParameterList::TouchScaleYX => 17,
            ParameterList::TouchScaleYY => 18,
            ParameterList::NoBallTargetHeight => 19,
            ParameterList::KinBaseCircRad => 20,
            ParameterList::KinHingeOffset => 21,
            ParameterList::KinJointCircRad => 22,
            ParameterList::KinMinHeight => 23,
            ParameterList::KinSurface2JointCircDist => 24,
            ParameterList::PistonBodyLen => 25,
            ParameterList::FFDefaultLinSpeed => 26,
            ParameterList::FFDefaultLinAccel => 27,
            ParameterList::FFDefaultAngSpeed => 28,
            ParameterList::FFDefaultAngAccel => 29,
            ParameterList::MCKp => 30,
            ParameterList::MCAccel => 31,
            ParameterList::MCVelMax => 32,
            ParameterList::MCVelMin => 33,
            ParameterList::MCPosDeadBand => 34,
            ParameterList::PlatePDCtrlKp => 35,
            ParameterList::PlatePDCtrlKd => 36,
            ParameterList::SPCirclingRadius => 37,
            ParameterList::SPCirclingTime => 38,
            ParameterList::TrimPlateAngleA => 39,
            ParameterList::TrimPlateAngleB => 40,
        }
    }

    /// The storage slot of the parameter.
    pub fn index(&self) -> (i: usize)
        ensures
            i == self.slot(),
            i < PARAMETER_COUNT,
    {
        match self {
            ParameterList::MotorM2Ustep => 0,
            ParameterList::LongPressThresholdMs => 1,
            ParameterList::DoublePressThresholdMs => 2,
            ParameterList::MotorUpperPosLimit => 3,
            ParameterList::MotorLowerPosLimit => 4,
            ParameterList::MotorUpperVelLimit => 5,
            ParameterList::MotorLowerVelLimit => 6,
            ParameterList::HomingHighVelocity => 7,
            ParameterList::HomingLowVelocity => 8,
            ParameterList::HomingSafePosition => 9,
            ParameterList::HomingMaxTravel => 10,
            ParameterList::HomingAccel => 11,
            ParameterList::LogicRunnerPeriodUs => 12,
            ParameterList::TouchCenterOffsetX => 13,
            ParameterList::TouchCenterOffsetY => 14,
            ParameterList::TouchScaleXX => 15,
            ParameterList::TouchScaleXY => 16,
            ParameterList::TouchScaleYX => 17,
            ParameterList::TouchScaleYY => 18,
            ParameterList::NoBallTargetHeight => 19,
            ParameterList::KinBaseCircRad => 20,
            ParameterList::KinHingeOffset => 21,
            ParameterList::KinJointCircRad => 22,
            ParameterList::KinMinHeight => 23,
            ParameterList::KinSurface2JointCircDist => 24,
            ParameterList::PistonBodyLen => 25,
            ParameterList::FFDefaultLinSpeed => 26,
            ParameterList::FFDefaultLinAccel => 27,
            ParameterList::FFDefaultAngSpeed => 28,
            ParameterList::FFDefaultAngAccel => 29,
            ParameterList::MCKp => 30,
            ParameterList::MCAccel => 31,
            ParameterList::MCVelMax => 32,
            ParameterList::MCVelMin => 33,
            ParameterList::MCPosDeadBand => 34,
            ParameterList::PlatePDCtrlKp => 35,
            ParameterList::PlatePDCtrlKd => 36,
            ParameterList::SPCirclingRadius => 37,
            ParameterList::SPCirclingTime => 38,
            ParameterList::TrimPlateAngleA => 39,
            ParameterList::TrimPlateAngleB => 40,
        }
    }
}

/// How the word of a parameter is read.
#[derive(Clone, Copy, PartialEq, Eq, Debug, Structural)]
pub enum ParamKind {
    /// An IEEE-754 single precision bit pattern (`FloatBits`).
    Float,
    /// A `u32`.
    Unsigned,
    /// An `i32` in two's complement.
    Signed,
}

impl ParameterList {
    pub open spec fn kind_spec(self) -> ParamKind {
        match self {
            ParameterList::MotorM2Ustep => ParamKind::Float,
            ParameterList::LongPressThresholdMs => ParamKind::Unsigned,
            ParameterList::DoublePressThresholdMs => ParamKind::Unsigned,
            ParameterList::MotorUpperPosLimit => ParamKind::Float,
            ParameterList::MotorLowerPosLimit => ParamKind::Float,
            ParameterList::MotorUpperVelLimit => ParamKind::Float,
            ParameterList::MotorLowerVelLimit => ParamKind::Float,
            ParameterList::HomingHighVelocity => ParamKind::Float,
            ParameterList::HomingLowVelocity => ParamKind::Float,
            ParameterList::HomingSafePosition => ParamKind::Float,
            ParameterList::HomingMaxTravel => ParamKind::Float,
            ParameterList::HomingAccel => ParamKind::Float,
            ParameterList::LogicRunnerPeriodUs => ParamKind::Unsigned,
            ParameterList::TouchCenterOffsetX => ParamKind::Signed,
            ParameterList::TouchCenterOffsetY => ParamKind::Signed,
            ParameterList::TouchScaleXX => ParamKind::Float,
            ParameterList::TouchScaleXY => ParamKind::Float,
            ParameterList::TouchScaleYX => ParamKind::Float,
            ParameterList::TouchScaleYY => ParamKind::Float,
            ParameterList::NoBallTargetHeight => ParamKind::Float,
            ParameterList::KinBaseCircRad => ParamKind::Float,
            ParameterList::KinHingeOffset => ParamKind::Float,
            ParameterList::KinJointCircRad => ParamKind::Float,
            ParameterList::KinMinHeight => ParamKind::Float,
            ParameterList::KinSurface2JointCircDist => ParamKind::Float,
            ParameterList::PistonBodyLen => ParamKind::Float,
            ParameterList::FFDefaultLinSpeed => ParamKind::Float,
            ParameterList::FFDefaultLinAccel => ParamKind::Float,
            ParameterList::FFDefaultAngSpeed => ParamKind::Float,
            ParameterList::FFDefaultAngAccel => ParamKind::Float,
            ParameterList::MCKp => ParamKind::Float,
            ParameterList::MCAccel => ParamKind::Float,
            ParameterList::MCVelMax => ParamKind::Float,
            ParameterList::MCVelMin => ParamKind::Float,
            ParameterList::MCPosDeadBand => ParamKind::Float,
            ParameterList::PlatePDCtrlKp => ParamKind::Float,
            ParameterList::PlatePDCtrlKd => ParamKind::Float,
            ParameterList::SPCirclingRadius => ParamKind::Float,
            ParameterList::SPCirclingTime => ParamKind::Float,
            ParameterList::TrimPlateAngleA => ParamKind::Float,
            ParameterList::TrimPlateAngleB => ParamKind::Float,
        }
    }

    /// How the parameter's word is read.
    pub fn kind(&self) -> (r: ParamKind)
        ensures
            r == self.kind_spec(),
    {
        match self {
            ParameterList::MotorM2Ustep => ParamKind::Float,
            ParameterList::LongPressThresholdMs => ParamKind::Unsigned,
            ParameterList::DoublePressThresholdMs => ParamKind::Unsigned,
            ParameterList::MotorUpperPosLimit => ParamKind::Float,
            ParameterList::MotorLowerPosLimit => ParamKind::Float,
            ParameterList::MotorUpperVelLimit => ParamKind::Float,
            ParameterList::MotorLowerVelLimit => ParamKind::Float,
            ParameterList::HomingHighVelocity => ParamKind::Float,
            ParameterList::HomingLowVelocity => ParamKind::Float,
            ParameterList::HomingSafePosition => ParamKind::Float,
            ParameterList::HomingMaxTravel => ParamKind::Float,
            ParameterList::HomingAccel => ParamKind::Float,
            ParameterList::LogicRunnerPeriodUs => ParamKind::Unsigned,
            ParameterList::TouchCenterOffsetX => ParamKind::Signed,
            ParameterList::TouchCenterOffsetY => ParamKind::Signed,
            ParameterList::TouchScaleXX => ParamKind::Float,
            ParameterList::TouchScaleXY => ParamKind::Float,
            ParameterList::TouchScaleYX => ParamKind::Float,
            ParameterList::TouchScaleYY => ParamKind::Float,
            ParameterList::NoBallTargetHeight => ParamKind::Float,
            ParameterList::KinBaseCircRad => ParamKind::Float,
            ParameterList::KinHingeOffset => ParamKind::Float,
            ParameterList::KinJointCircRad => ParamKind::Float,
            ParameterList::KinMinHeight => ParamKind::Float,
            ParameterList::KinSurface2JointCircDist => ParamKind::Float,
            ParameterList::PistonBodyLen => ParamKind::Float,
            ParameterList::FFDefaultLinSpeed => ParamKind::Float,
            ParameterList::FFDefaultLinAccel => ParamKind::Float,
            ParameterList::FFDefaultAngSpeed => ParamKind::Float,
            ParameterList::FFDefaultAngAccel => ParamKind::Float,
            ParameterList::MCKp => ParamKind::Float,
            ParameterList::MCAccel => ParamKind::Float,
            ParameterList::MCVelMax => ParamKind::Float,
            ParameterList::MCVelMin => ParamKind::Float,
            ParameterList::MCPosDeadBand => ParamKind::Float,
            ParameterList::PlatePDCtrlKp => ParamKind::Float,
            ParameterList::PlatePDCtrlKd => ParamKind::Float,
            ParameterList::SPCirclingRadius => ParamKind::Float,
            ParameterList::SPCirclingTime => ParamKind::Float,
            ParameterList::TrimPlateAngleA => ParamKind::Float,
            ParameterList::TrimPlateAngleB => ParamKind::Float,
        }
    }
}

/// The word stored for each parameter when the manager is created.
pub open spec fn default_words() -> Seq<u32> {
    seq![
        0x49435000, // MotorM2Ustep = 8e5
        1000, // LongPressThresholdMs = 1000
        20, // DoublePressThresholdMs = 20
        0x49742400, // MotorUpperPosLimit = 1e6
        0xc9742400, // MotorLowerPosLimit = -1e6
        0x49742400, // MotorUpperVelLimit = 1e6
        0xc9742400, // MotorLowerVelLimit = -1e6
        0x3ca3d70a, // HomingHighVelocity = 20e-3
        0x3c23d70a, // HomingLowVelocity = 10e-3
        0x3b03126f, // HomingSafePosition = 2e-3
        0x3ca3d70a, // HomingMaxTravel = 20e-3
        0x3ba3d70a, // HomingAccel = 5e-3
        3000, // LogicRunnerPeriodUs = 3000
        4294964584, // TouchCenterOffsetX = -2712
        4294965363, // TouchCenterOffsetY = -1933
        0x3806fa4e, // TouchScaleXX = 3.2181204e-5
        0xb756e92f, // TouchScaleXY = -1.2809686e-5
        0x35ddf00e, // TouchScaleYX = 1.6535648e-6
        0xb838dde8, // TouchScaleYY = -4.4075685e-5
        0x3c23d70a, // NoBallTargetHeight = 10e-3
        0x3d23d70a, // KinBaseCircRad = 40.0e-3
        0x3bd4fdf4, // KinHingeOffset = 6.5e-3
        0x3cbf4a99, // KinJointCircRad = 23.351e-3
        0x3db81e8a, // KinMinHeight = 89.902e-3
        0x3ce511d8, // KinSurface2JointCircDist = 27.96261e-3
        0x3dbac711, // PistonBodyLen = 91.2e-3
        0x3c23d70a, // FFDefaultLinSpeed = 10e-3
        0x3ca3d70a, // FFDefaultLinAccel = 20e-3
        0x3fc90fdb, // FFDefaultAngSpeed = 1.5707963267948966
        0x40490fdb, // FFDefaultAngAccel = 3.141592653589793
        0x41dc0000, // MCKp = 2.75e1
        0x3ba3d70a, // MCAccel = 5e-3
        0x3d23d70a, // MCVelMax = 40e-3
        0xbd23d70a, // MCVelMin = -40e-3
        0x3727c5ac, // MCPosDeadBand = 1e-5
        0x41200000, // PlatePDCtrlKp = 10.0
        0x3f800000, // PlatePDCtrlKd = 1.0
        0x3ca3d70a, // SPCirclingRadius = 20e-3
        0x40a00000, // SPCirclingTime = 5.0
        0x00000000, // TrimPlateAngleA = 0.0
        0x00000000, // TrimPlateAngleB = 0.0
    ]
}

#[derive(Clone, Copy, Default)]
pub struct MotorM2Ustep;

impl ParameterType for MotorM2Ustep {
    type ReturnType = FloatBits;

    open spec fn slot() -> int {
        0
    }

    proof fn lemma_slot_in_range() {
    }

    fn index() -> (i: usize) {
        0
    }
}

#[derive(Clone, Copy, Default)]
pub struct LongPressThresholdMs;

impl ParameterType for LongPressThresholdMs {
    type ReturnType = u32;

    open spec fn slot() -> int {
        1
    }

    proof fn lemma_slot_in_range() {
    }

    fn index() -> (i: usize) {
        1
    }
}

#[derive(Clone, Copy, Default)]
pub struct DoublePressThresholdMs;

impl ParameterType for DoublePressThresholdMs {
    type ReturnType = u32;

    open spec fn slot() -> int {
        2
    }

    proof fn lemma_slot_in_range() {
    }

    fn index() -> (i: usize) {
        2
    }
}

#[derive(Clone, Copy, Default)]
pub struct MotorUpperPosLimit;

impl ParameterType for MotorUpperPosLimit {
    type ReturnType = FloatBits;

    open spec fn slot() -> int {
        3
    }

    proof fn lemma_slot_in_range() {
    }

    fn index() -> (i: usize) {
        3
    }
}

#[derive(Clone, Copy, Default)]
pub struct MotorLowerPosLimit;

impl ParameterType for MotorLowerPosLimit {
    type ReturnType = FloatBits;

    open spec fn slot() -> int {
        4
    }

    proof fn lemma_slot_in_range() {
    }

    fn index() -> (i: usize) {
        4
    }
}

#[derive(Clone, Copy, Default)]
pub struct MotorUpperVelLimit;

impl ParameterType for MotorUpperVelLimit {
    type ReturnType = FloatBits;

    open spec fn slot() -> int {
        5
    }

    proof fn lemma_slot_in_range() {
    }

    fn index() -> (i: usize) {
        5
    }
}

#[derive(Clone, Copy, Default)]
pub struct MotorLowerVelLimit;

impl ParameterType for MotorLowerVelLimit {
    type ReturnType = FloatBits;

    open spec fn slot() -> int {
        6
    }

    proof fn lemma_slot_in_range() {
    }

    fn index() -> (i: usize) {
        6
    }
}

#[derive(Clone, Copy, Default)]
pub struct HomingHighVelocity;

impl ParameterType for HomingHighVelocity {
    type ReturnType = FloatBits;

    open spec fn slot() -> int {
        7
    }

    proof fn lemma_slot_in_range() {
    }

    fn index() -> (i: usize) {
        7
    }
}

#[derive(Clone, Copy, Default)]
pub struct HomingLowVelocity;

impl ParameterType for HomingLowVelocity {
    type ReturnType = FloatBits;

    open spec fn slot() -> int {
        8
    }

    proof fn lemma_slot_in_range() {
    }

    fn index() -> (i: usize) {
        8
    }
}

#[derive(Clone, Copy, Default)]
pub struct HomingSafePosition;

impl ParameterType for HomingSafePosition {
    type ReturnType = FloatBits;

    open spec fn slot() -> int {
        9
    }

    proof fn lemma_slot_in_range() {
    }

    fn index() -> (i: usize) {
        9
    }
}

#[derive(Clone, Copy, Default)]
pub struct HomingMaxTravel;

impl ParameterType for HomingMaxTravel {
    type ReturnType = FloatBits;

    open spec fn slot() -> int {
        10
    }

    proof fn lemma_slot_in_range() {
    }

    fn index() -> (i: usize) {
        10
    }
}

#[derive(Clone, Copy, Default)]
pub struct HomingAccel;

impl ParameterType for HomingAccel {
    type ReturnType = FloatBits;

    open spec fn slot() -> int {
        11
    }

    proof fn lemma_slot_in_range() {
    }

    fn index() -> (i: usize) {
        11
    }
}

#[derive(Clone, Copy, Default)]
pub struct LogicRunnerPeriodUs;

impl ParameterType for LogicRunnerPeriodUs {
    type ReturnType = u32;

    open spec fn slot() -> int {
        12
    }

    proof fn lemma_slot_in_range() {
    }

    fn index() -> (i: usize) {
        12
    }
}

#[derive(Clone, Copy, Default)]
pub struct TouchCenterOffsetX;

impl ParameterType for TouchCenterOffsetX {
    type ReturnType = i32;

    open spec fn slot() -> int {
        13
    }

    proof fn lemma_slot_in_range() {
    }

    fn index() -> (i: usize) {
        13
    }
}

#[derive(Clone, Copy, Default)]
pub struct TouchCenterOffsetY;

impl ParameterType for TouchCenterOffsetY {
    type ReturnType = i32;

    open spec fn slot() -> int {
        14
    }

    proof fn lemma_slot_in_range() {
    }

    fn index() -> (i: usize) {
        14
    }
}

#[derive(Clone, Copy, Default)]
pub struct TouchScaleXX;

impl ParameterType for TouchScaleXX {
    type ReturnType = FloatBits;

    open spec fn slot() -> int {
        15
    }

    proof fn lemma_slot_in_range() {
    }

    fn index() -> (i: usize) {
        15
    }
}

#[derive(Clone, Copy, Default)]
pub struct TouchScaleXY;

impl ParameterType for TouchScaleXY {
    type ReturnType = FloatBits;

    open spec fn slot() -> int {
        16
    }

    proof fn lemma_slot_in_range() {
    }

    fn index() -> (i: usize) {
        16
    }
}

#[derive(Clone, Copy, Default)]
pub struct TouchScaleYX;

impl ParameterType for TouchScaleYX {
    type ReturnType = FloatBits;

    open spec fn slot() -> int {
        17
    }

    proof fn lemma_slot_in_range() {
    }

    fn index() -> (i: usize) {
        17
    }
}

#[derive(Clone, Copy, Default)]
pub struct TouchScaleYY;

impl ParameterType for TouchScaleYY {
    type ReturnType = FloatBits;

    open spec fn slot() -> int {
        18
    }

    proof fn lemma_slot_in_range() {
    }

    fn index() -> (i: usize) {
        18
    }
}

#[derive(Clone, Copy, Default)]
pub struct NoBallTargetHeight;

impl ParameterType for NoBallTargetHeight {
    type ReturnType = FloatBits;

    open spec fn slot() -> int {
        19
    }

    proof fn lemma_slot_in_range() {
    }

    fn index() -> (i: usize) {
        19
    }
}

#[derive(Clone, Copy, Default)]
pub struct KinBaseCircRad;

impl ParameterType for KinBaseCircRad {
    type ReturnType = FloatBits;

    open spec fn slot() -> int {
        20
    }

    proof fn lemma_slot_in_range() {
    }

    fn index() -> (i: usize) {
        20
    }
}

#[derive(Clone, Copy, Default)]
pub struct KinHingeOffset;

impl ParameterType for KinHingeOffset {
    type ReturnType = FloatBits;

    open spec fn slot() -> int {
        21
    }

    proof fn lemma_slot_in_range() {
    }

    fn index() -> (i: usize) {
        21
    }
}

#[derive(Clone, Copy, Default)]
pub struct KinJointCircRad;

impl ParameterType for KinJointCircRad {
    type ReturnType = FloatBits;

    open spec fn slot() -> int {
        22
    }

    proof fn lemma_slot_in_range() {
    }

    fn index() -> (i: usize) {
        22
    }
}

#[derive(Clone, Copy, Default)]
pub struct KinMinHeight;

impl ParameterType for KinMinHeight {
    type ReturnType = FloatBits;

    open spec fn slot() -> int {
        23
    }

    proof fn lemma_slot_in_range() {
    }

    fn index() -> (i: usize) {
        23
    }
}

#[derive(Clone, Copy, Default)]
pub struct KinSurface2JointCircDist;

impl ParameterType for KinSurface2JointCircDist {
    type ReturnType = FloatBits;

    open spec fn slot() -> int {
        24
    }

    proof fn lemma_slot_in_range() {
    }

    fn index() -> (i: usize) {
        24
    }
}

#[derive(Clone, Copy, Default)]
pub struct PistonBodyLen;

impl ParameterType for PistonBodyLen {
    type ReturnType = FloatBits;

    open spec fn slot() -> int {
        25
    }

    proof fn lemma_slot_in_range() {
    }

    fn index() -> (i: usize) {
        25
    }
}

#[derive(Clone, Copy, Default)]
pub struct FFDefaultLinSpeed;

impl ParameterType for FFDefaultLinSpeed {
    type ReturnType = FloatBits;

    open spec fn slot() -> int {
        26
    }

    proof fn lemma_slot_in_range() {
    }

    fn index() -> (i: usize) {
        26
    }
}

#[derive(Clone, Copy, Default)]
pub struct FFDefaultLinAccel;

impl ParameterType for FFDefaultLinAccel {
    type ReturnType = FloatBits;

    open spec fn slot() -> int {
        27
    }

    proof fn lemma_slot_in_range() {
    }

    fn index() -> (i: usize) {
        27
    }
}

#[derive(Clone, Copy, Default)]
pub struct FFDefaultAngSpeed;

impl ParameterType for FFDefaultAngSpeed {
    type ReturnType = FloatBits;

    open spec fn slot() -> int {
        28
    }

    proof fn lemma_slot_in_range() {
    }

    fn index() -> (i: usize) {
        28
    }
}

#[derive(Clone, Copy, Default)]
pub struct FFDefaultAngAccel;

impl ParameterType for FFDefaultAngAccel {
    type ReturnType = FloatBits;

    open spec fn slot() -> int {
        29
    }

    proof fn lemma_slot_in_range() {
    }

    fn index() -> (i: usize) {
        29
    }
}

#[derive(Clone, Copy, Default)]
pub struct MCKp;

impl ParameterType for MCKp {
    type ReturnType = FloatBits;

    open spec fn slot() -> int {
        30
    }

    proof fn lemma_slot_in_range() {
    }

    fn index() -> (i: usize) {
        30
    }
}

#[derive(Clone, Copy, Default)]
pub struct MCAccel;

impl ParameterType for MCAccel {
    type ReturnType = FloatBits;

    open spec fn slot() -> int {
        31
    }

    proof fn lemma_slot_in_range() {
    }

    fn index() -> (i: usize) {
        31
    }
}

#[derive(Clone, Copy, Default)]
pub struct MCVelMax;

impl ParameterType for MCVelMax {
    type ReturnType = FloatBits;

    open spec fn slot() -> int {
        32
    }

    proof fn lemma_slot_in_range() {
    }

    fn index() -> (i: usize) {
        32
    }
}

#[derive(Clone, Copy, Default)]
pub struct MCVelMin;

impl ParameterType for MCVelMin {
    type ReturnType = FloatBits;

    open spec fn slot() -> int {
        33
    }

    proof fn lemma_slot_in_range() {
    }

    fn index() -> (i: usize) {
        33
    }
}

#[derive(Clone, Copy, Default)]
pub struct MCPosDeadBand;

impl ParameterType for MCPosDeadBand {
    type ReturnType = FloatBits;

    open spec fn slot() -> int {
        34
    }

    proof fn lemma_slot_in_range() {
    }

    fn index() -> (i: usize) {
        34
    }
}

#[derive(Clone, Copy, Default)]
pub struct PlatePDCtrlKp;

impl ParameterType for PlatePDCtrlKp {
    type ReturnType = FloatBits;

    open spec fn slot() -> int {
        35
    }

    proof fn lemma_slot_in_range() {
    }

    fn index() -> (i: usize) {
        35
    }
}

#[derive(Clone, Copy, Default)]
pub struct PlatePDCtrlKd;

impl ParameterType for PlatePDCtrlKd {
    type ReturnType = FloatBits;

    open spec fn slot() -> int {
        36
    }

    proof fn lemma_slot_in_range() {
    }

    fn index() -> (i: usize) {
        36
    }
}

#[derive(Clone, Copy, Default)]
pub struct SPCirclingRadius;

impl ParameterType for SPCirclingRadius {
    type ReturnType = FloatBits;

    open spec fn slot() -> int {
        37
    }

    proof fn lemma_slot_in_range() {
    }

    fn index() -> (i: usize) {
        37
    }
}

#[derive(Clone, Copy, Default)]
pub struct SPCirclingTime;

impl ParameterType for SPCirclingTime {
    type ReturnType = FloatBits;

    open spec fn slot() -> int {
        38
    }

    proof fn lemma_slot_in_range() {
    }

    fn index() -> (i: usize) {
        38
    }
}

#[derive(Clone, Copy, Default)]
pub struct TrimPlateAngleA;

impl ParameterType for TrimPlateAngleA {
    type ReturnType = FloatBits;

    open spec fn slot() -> int {
        39
    }

    proof fn lemma_slot_in_range() {
    }

    fn index() -> (i: usize) {
        39
    }
}

#[derive(Clone, Copy, Default)]
pub struct TrimPlateAngleB;

impl ParameterType for TrimPlateAngleB {
    type ReturnType = FloatBits;

    open spec fn slot() -> int {
        40
    }

    proof fn lemma_slot_in_range() {
    }

    fn index() -> (i: usize) {
        40
    }
}

/// Typed storage of the tunable parameters.
pub struct ParameterManager {
    words: [u32; PARAMETER_COUNT],
}

impl Default for ParameterManager {
    fn default() -> (r: Self)
        ensures
            r.words_spec() == default_words(),
    {
        ParameterManager::new()
    }
}

impl ParameterManager {
    /// The stored words, one per parameter slot.
    pub closed spec fn words_spec(&self) -> Seq<u32> {
        self.words@
    }

    /// There is one word per parameter.
    pub proof fn lemma_words_len(&self)
        ensures
            self.words_spec().len() == PARAMETER_COUNT,
    {
    }

    /// The value of parameter `T`.
    pub open spec fn value_spec<T: ParameterType>(&self) -> T::ReturnType {
        T::ReturnType::from_word(self.words_spec()[T::slot()])
    }

    /// A manager holding the default value of every parameter.
    pub fn new() -> (r: Self)
        ensures
            r.words_spec() == default_words(),
    {
        let words: [u32; PARAMETER_COUNT] = [
            0x49435000,
            1000,
            20,
            0x49742400,
            0xc9742400,
            0x49742400,
            0xc9742400,
            0x3ca3d70a,
            0x3c23d70a,
            0x3b03126f,
            0x3ca3d70a,
            0x3ba3d70a,
            3000,
            4294964584,
            4294965363,
            0x3806fa4e,
            0xb756e92f,
            0x35ddf00e,
            0xb838dde8,
            0x3c23d70a,
            0x3d23d70a,
            0x3bd4fdf4,
            0x3cbf4a99,
            0x3db81e8a,
            0x3ce511d8,
            0x3dbac711,
            0x3c23d70a,
            0x3ca3d70a,
            0x3fc90fdb,
            0x40490fdb,
            0x41dc0000,
            0x3ba3d70a,
            0x3d23d70a,
            0xbd23d70a,
            0x3727c5ac,
            0x41200000,
            0x3f800000,
            0x3ca3d70a,
            0x40a00000,
            0x00000000,
            0x00000000,
        ];
        assert(words@ =~= default_words());
        ParameterManager { words }
    }

    /// Reads parameter `T`.
    pub fn get<T: ParameterType>(&self) -> (r: T::ReturnType)
        ensures
            r == self.value_spec::<T>(),
    {
        let i = T::index();
        T::ReturnType::decode(self.words[i])
    }

    /// Writes parameter `T`; every other parameter keeps its value.
    pub fn set<T: ParameterType>(&mut self, value: T::ReturnType)
        ensures
            final(self).words_spec() == old(self).words_spec().update(T::slot(), value.to_word()),
            final(self).value_spec::<T>() == value,
    {
        let i = T::index();
        let w = value.encode();
        self.words[i] = w;
        proof {
            T::ReturnType::lemma_word_roundtrip(value);
        }
    }

    /// Reads the stored word of a parameter chosen at run time.
    pub fn get_word(&self, param: ParameterList) -> (r: u32)
        ensures
            r == self.words_spec()[param.slot()],
    {
        self.words[param.index()]
    }

    /// Writes the stored word of a parameter chosen at run time.
    pub fn set_word(&mut self, param: ParameterList, word: u32)
        ensures
            final(self).words_spec() == old(self).words_spec().update(param.slot(), word),
    {
        let i = param.index();
        self.words[i] = word;
    }
}

/// A read gives back the last write: after `set::<T>(value)`, `get::<T>()`
/// returns `value`.
pub proof fn lemma_read_returns_write<T: ParameterType>(
    before: ParameterManager,
    after: ParameterManager,
    value: T::ReturnType,
)
    requires
        after.words_spec() == before.words_spec().update(T::slot(), value.to_word()),
    ensures
        after.value_spec::<T>() == value,
{
    before.lemma_words_len();
    T::lemma_slot_in_range();
    T::ReturnType::lemma_word_roundtrip(value);
}

/// Writing one parameter leaves every parameter stored in another slot as it
/// was.
pub proof fn lemma_write_keeps_other_parameters<T: ParameterType, U: ParameterType>(
    before: ParameterManager,
    after: ParameterManager,
    value: T::ReturnType,
)
    requires
        after.words_spec() == before.words_spec().update(T::slot(), value.to_word()),
        T::slot() != U::slot(),
    ensures
        after.value_spec::<U>() == before.value_spec::<U>(),
{
    before.lemma_words_len();
    T::lemma_slot_in_range();
    U::lemma_slot_in_range();
}

/// Distinct parameters are stored in distinct slots.
pub proof fn lemma_parameter_slots_distinct(p: ParameterList, q: ParameterList)
    requires
        p != q,
    ensures
        p.slot() != q.slot(),
        0 <= p.slot() < PARAMETER_COUNT,
{
}

} // verus!
