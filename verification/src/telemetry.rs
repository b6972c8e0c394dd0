use vstd::prelude::*;

verus! {

/// Number of telemetry fields.
pub const TELEMETRY_COUNT: usize = 30;

/// The telemetry fields, in packet order.
#[derive(Clone, Copy, PartialEq, Eq, Debug, Structural)]
pub enum TelemetryKind {
    BallXPos,
    BallYPos,
    BallXVel,
    BallYVel,
    MotorTargetAPos,
    MotorTargetBPos,
    MotorTargetCPos,
    MotorTargetAVel,
    MotorTargetBVel,
    MotorTargetCVel,
    MotorTargetAAccel,
    MotorTargetBAccel,
    MotorTargetCAccel,
    MotorStateAPos,
    MotorStateBPos,
    MotorStateCPos,
    MotorStateAVel,
    MotorStateBVel,
    MotorStateCVel,
    UnfilteredBallXVel,
    UnfilteredBallYVel,
    CpuUse,
    MotorACtrlTrackingError,
    MotorBCtrlTrackingError,
    MotorCCtrlTrackingError,
    BallPressure,
    BallXTargetPos,
    BallYTargetPos,
    BallXTargetVel,
    BallYTargetVel,
}

impl TelemetryKind {
    pub open spec fn slot(self) -> int {
        match self {
            TelemetryKind::BallXPos => 0,
            TelemetryKind::BallYPos => 1,
            TelemetryKind::BallXVel => 2,
            TelemetryKind::BallYVel => 3,
            TelemetryKind::MotorTargetAPos => 4,
            TelemetryKind::MotorTargetBPos => 5,
            TelemetryKind::MotorTargetCPos => 6,
            TelemetryKind::MotorTargetAVel => 7,
            TelemetryKind::MotorTargetBVel => 8,
            TelemetryKind::MotorTargetCVel => 9,
            TelemetryKind::MotorTargetAAccel => 10,
            TelemetryKind::MotorTargetBAccel => 11,
            TelemetryKind::MotorTargetCAccel => 12,
            TelemetryKind::MotorStateAPos => 13,
            TelemetryKind::MotorStateBPos => 14,
            TelemetryKind::MotorStateCPos => 15,
            TelemetryKind::MotorStateAVel => 16,
            TelemetryKind::MotorStateBVel => 17,
            TelemetryKind::MotorStateCVel => 18,
            TelemetryKind::UnfilteredBallXVel => 19,
            TelemetryKind::UnfilteredBallYVel => 20,
            TelemetryKind::CpuUse => 21,
            TelemetryKind::MotorACtrlTrackingError => 22,
            TelemetryKind::MotorBCtrlTrackingError => 23,
            TelemetryKind::MotorCCtrlTrackingError => 24,
            TelemetryKind::BallPressure => 25,
            TelemetryKind::BallXTargetPos => 26,
            TelemetryKind::BallYTargetPos => 27,
            TelemetryKind::BallXTargetVel => 28,
            TelemetryKind::BallYTargetVel => 29,
        }
    }

    /// The position of the field in a packet.
    pub fn get_idx(&self) -> (r: usize)
        ensures
            r == self.slot(),
            r < TELEMETRY_COUNT,
    {
        match self {
            TelemetryKind::BallXPos => 0,
            TelemetryKind::BallYPos => 1,
            TelemetryKind::BallXVel => 2,
            TelemetryKind::BallYVel => 3,
            TelemetryKind::MotorTargetAPos => 4,
            TelemetryKind::MotorTargetBPos => 5,
            TelemetryKind::MotorTargetCPos => 6,
            TelemetryKind::MotorTargetAVel => 7,
            TelemetryKind::MotorTargetBVel => 8,
            TelemetryKind::MotorTargetCVel => 9,
            TelemetryKind::MotorTargetAAccel => 10,
            TelemetryKind::MotorTargetBAccel => 11,
            TelemetryKind::MotorTargetCAccel => 12,
            TelemetryKind::MotorStateAPos => 13,
            TelemetryKind::MotorStateBPos => 14,
            TelemetryKind::MotorStateCPos => 15,
            TelemetryKind::MotorStateAVel => 16,
            TelemetryKind::MotorStateBVel => 17,
            TelemetryKind::MotorStateCVel => 18,
            TelemetryKind::UnfilteredBallXVel => 19,
            TelemetryKind::UnfilteredBallYVel => 20,
            TelemetryKind::CpuUse => 21,
            TelemetryKind::MotorACtrlTrackingError => 22,
            TelemetryKind::MotorBCtrlTrackingError => 23,
            TelemetryKind::MotorCCtrlTrackingError => 24,
            TelemetryKind::BallPressure => 25,
            TelemetryKind::BallXTargetPos => 26,
            TelemetryKind::BallYTargetPos => 27,
            TelemetryKind::BallXTargetVel => 28,
            TelemetryKind::BallYTargetVel => 29,
        }
    }
}

/// Distinct fields have distinct positions in a packet.
pub proof fn lemma_telemetry_slots_distinct(a: TelemetryKind, b: TelemetryKind)
    requires
        a != b,
    ensures
        a.slot() != b.slot(),
        0 <= a.slot() < TELEMETRY_COUNT,
{
}

/// The position, velocity and acceleration target fields of motor `motor_idx`
/// (none for an index past the last motor).
pub fn motor_target_kinds(motor_idx: usize) -> (r: Option<(TelemetryKind, TelemetryKind, TelemetryKind)>)
    ensures
        r == match motor_idx {
            0 => Some((TelemetryKind::MotorTargetAPos, TelemetryKind::MotorTargetAVel, TelemetryKind::MotorTargetAAccel)),
            1 => Some((TelemetryKind::MotorTargetBPos, TelemetryKind::MotorTargetBVel, TelemetryKind::MotorTargetBAccel)),
            2 => Some((TelemetryKind::MotorTargetCPos, TelemetryKind::MotorTargetCVel, TelemetryKind::MotorTargetCAccel)),
            _ => None,
        },
{
    match motor_idx {
        0 => Some((TelemetryKind::MotorTargetAPos, TelemetryKind::MotorTargetAVel, TelemetryKind::MotorTargetAAccel)),
        1 => Some((TelemetryKind::MotorTargetBPos, TelemetryKind::MotorTargetBVel, TelemetryKind::MotorTargetBAccel)),
        2 => Some((TelemetryKind::MotorTargetCPos, TelemetryKind::MotorTargetCVel, TelemetryKind::MotorTargetCAccel)),
        _ => None,
    }
}

/// The measured position and velocity fields of motor `motor_idx`.
pub fn motor_state_kinds(motor_idx: usize) -> (r: Option<(TelemetryKind, TelemetryKind)>)
    ensures
        r == match motor_idx {
            0 => Some((TelemetryKind::MotorStateAPos, TelemetryKind::MotorStateAVel)),
            1 => Some((TelemetryKind::MotorStateBPos, TelemetryKind::MotorStateBVel)),
            2 => Some((TelemetryKind::MotorStateCPos, TelemetryKind::MotorStateCVel)),
            _ => None,
        },
{
    match motor_idx {
        0 => Some((TelemetryKind::MotorStateAPos, TelemetryKind::MotorStateAVel)),
        1 => Some((TelemetryKind::MotorStateBPos, TelemetryKind::MotorStateBVel)),
        2 => Some((TelemetryKind::MotorStateCPos, TelemetryKind::MotorStateCVel)),
        _ => None,
    }
}

/// The tracking error field of motor `motor_idx`.
pub fn motor_tracking_kind(motor_idx: usize) -> (r: Option<TelemetryKind>)
    ensures
        r == match motor_idx {
            0 => Some(TelemetryKind::MotorACtrlTrackingError),
            1 => Some(TelemetryKind::MotorBCtrlTrackingError),
            2 => Some(TelemetryKind::MotorCCtrlTrackingError),
            _ => None,
        },
{
    match motor_idx {
        0 => Some(TelemetryKind::MotorACtrlTrackingError),
        1 => Some(TelemetryKind::MotorBCtrlTrackingError),
        2 => Some(TelemetryKind::MotorCCtrlTrackingError),
        _ => None,
    }
}

/// Numbers the telemetry packets and owns the link they are sent over.
pub struct TelemetryHandler<TEL> {
    telemetry_sender: TEL,
    sent_packets: u64,
}

impl<TEL> TelemetryHandler<TEL> {
    /// How many packets have been prepared.
    pub closed spec fn sent_packets_spec(&self) -> u64 {
        self.sent_packets
    }

    pub fn new(telemetry_sender: TEL) -> (r: Self)
        ensures
            r.sent_packets_spec() == 0,
            r.sender_spec() == telemetry_sender,
    {
        TelemetryHandler { telemetry_sender, sent_packets: 0 }
    }

    /// How many packets have been prepared.
    pub fn sent_packets(&self) -> (r: u64)
        ensures
            r == self.sent_packets_spec(),
    {
        self.sent_packets
    }

    /// The identifier of the next packet; each call gives the next number.
    pub fn next_packet_id(&mut self) -> (r: u64)
        requires
            old(self).sent_packets_spec() < u64::MAX,
        ensures
            r == old(self).sent_packets_spec(),
            final(self).sent_packets_spec() == old(self).sent_packets_spec() + 1,
    {
        let id = self.sent_packets;
        self.sent_packets = self.sent_packets + 1;
        id
    }

    /// The link the packets are sent over.
    pub closed spec fn sender_spec(&self) -> TEL {
        self.telemetry_sender
    }

    /// The link the packets are sent over, to send on; the packet count
    /// stays as it is.
    pub fn sender(&mut self) -> (r: &mut TEL)
        ensures
            *r == old(self).sender_spec(),
            final(self).sender_spec() == *final(r),
            final(self).sent_packets_spec() == old(self).sent_packets_spec(),
    {
        &mut self.telemetry_sender
    }
}

} // verus!
