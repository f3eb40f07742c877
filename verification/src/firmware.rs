//! The firmware upload handshake.
//!
//! Bringing an unprovisioned module up is a strict five-stage sequence:
//! probe it at 9600 baud with `0xFE` and expect `0xFF` back; send `0xB5`,
//! wait for the hardware to settle and re-baud the link to 115200; arm the
//! upload with `0xFF 0xDB`, expect `0xBF` back and acknowledge with `0xFD`;
//! stream the whole firmware image; then confirm the module answers the
//! normal idle command. The stages never branch back, and any mismatch is
//! fatal — the sequencer stops asking for actions and the operator must
//! power-cycle the module and start over.
//!
//! The sequencer itself is pure: it maps the current stage and the byte the
//! transport handed back to the next stage and the transport actions to
//! perform. The caller owns the port, performs each action in order, and
//! feeds the reply back in.

use vstd::prelude::*;

verus! {

/// The stage the upload handshake is in.
#[derive(Debug, Clone, Copy, PartialEq, Eq, Structural)]
pub enum UploadState {
    /// Waiting for the alive-check reply to the `0xFE` probe.
    Probe,
    /// Waiting for the ready-for-upload reply to the `0xFF 0xDB` arm bytes.
    Arm,
    /// Firmware streamed; waiting for the idle command to be acknowledged.
    Stream,
    /// The module is flashed and responsive.
    Done,
    /// A stage failed; the upload is aborted for good.
    Failed,
}

/// What the transport reported back to the sequencer.
#[derive(Debug, Clone, Copy, PartialEq, Eq, Structural)]
pub enum UploadEvent {
    /// One reply byte was read.
    Byte(u8),
    /// The idle command went out and its response frame was received.
    IdleAcked,
}

/// One transport action the caller must perform, in order.
#[derive(Debug, Clone, Copy, PartialEq, Eq, Structural)]
pub enum UploadAction {
    /// Re-baud the link.
    SetBaud(u32),
    /// Write one byte and flush.
    Send1(u8),
    /// Write two bytes and flush.
    Send2(u8, u8),
    /// Let the hardware settle for this many milliseconds.
    SleepMillis(u64),
    /// Block-read one reply byte and feed it back as an event.
    AwaitByte,
    /// Write the whole firmware image and flush.
    SendFirmware,
    /// Send the idle command frame, receive its response, and feed back
    /// `IdleAcked`.
    SendIdleCommand,
}

/// The actions that open the handshake: drop to 9600 baud, send the `0xFE`
/// alive-check probe, and wait for the reply byte.
pub open spec fn upload_start_actions() -> Seq<UploadAction> {
    seq![
        UploadAction::SetBaud(9600u32),
        UploadAction::Send1(0xFEu8),
        UploadAction::AwaitByte,
    ]
}

/// The stage the sequencer moves to on an event. Only the expected reply
/// advances a stage; anything else is fatal, and a finished or failed
/// sequencer never leaves its state.
pub open spec fn upload_next_state(s: UploadState, e: UploadEvent) -> UploadState {
    match (s, e) {
        (UploadState::Probe, UploadEvent::Byte(b)) => if b == 0xFF {
            UploadState::Arm
        } else {
            UploadState::Failed
        },
        (UploadState::Arm, UploadEvent::Byte(b)) => if b == 0xBF {
            UploadState::Stream
        } else {
            UploadState::Failed
        },
        (UploadState::Stream, UploadEvent::IdleAcked) => UploadState::Done,
        (UploadState::Done, _) => UploadState::Done,
        _ => UploadState::Failed,
    }
}

/// The actions a step asks for. A successful probe speeds the link up and
/// arms the upload; a successful arm acknowledges, streams the image and
/// confirms with the idle command; everything else — above all any
/// mismatched reply — asks for nothing at all.
pub open spec fn upload_step_actions(s: UploadState, e: UploadEvent) -> Seq<UploadAction> {
    match (s, e) {
        (UploadState::Probe, UploadEvent::Byte(b)) => if b == 0xFF {
            seq![
                UploadAction::Send1(0xB5u8),
                UploadAction::SleepMillis(50u64),
                UploadAction::SetBaud(115200u32),
                UploadAction::Send2(0xFFu8, 0xDBu8),
                UploadAction::AwaitByte,
            ]
        } else {
            Seq::<UploadAction>::empty()
        },
        (UploadState::Arm, UploadEvent::Byte(b)) => if b == 0xBF {
            seq![
                UploadAction::Send1(0xFDu8),
                UploadAction::SendFirmware,
                UploadAction::SendIdleCommand,
            ]
        } else {
            Seq::<UploadAction>::empty()
        },
        _ => Seq::<UploadAction>::empty(),
    }
}

/// Opens the handshake: the sequencer starts at the Probe stage and asks for
/// the probe actions.
pub fn upload_start() -> (r: (UploadState, Vec<UploadAction>))
    ensures
        r.0 == UploadState::Probe,
        r.1@ == upload_start_actions(),
{
    let mut actions: Vec<UploadAction> = Vec::new();
    actions.push(UploadAction::SetBaud(9600));
    actions.push(UploadAction::Send1(0xFE));
    actions.push(UploadAction::AwaitByte);
    assert(actions@ =~= upload_start_actions());
    (UploadState::Probe, actions)
}

/// Advances the sequencer by one event and returns the next stage together
/// with the transport actions to perform before the next event can arrive.
pub fn upload_step(state: UploadState, event: UploadEvent) -> (r: (UploadState, Vec<UploadAction>))
    ensures
        r.0 == upload_next_state(state, event),
        r.1@ == upload_step_actions(state, event),
{
    match (state, event) {
        (UploadState::Probe, UploadEvent::Byte(b)) => {
            if b == 0xFF {
                let mut actions: Vec<UploadAction> = Vec::new();
                actions.push(UploadAction::Send1(0xB5));
                actions.push(UploadAction::SleepMillis(50));
                actions.push(UploadAction::SetBaud(115200));
                actions.push(UploadAction::Send2(0xFF, 0xDB));
                actions.push(UploadAction::AwaitByte);
                assert(actions@ =~= upload_step_actions(state, event));
                (UploadState::Arm, actions)
            } else {
                (UploadState::Failed, Vec::new())
            }
        },
        (UploadState::Arm, UploadEvent::Byte(b)) => {
            if b == 0xBF {
                let mut actions: Vec<UploadAction> = Vec::new();
                actions.push(UploadAction::Send1(0xFD));
                actions.push(UploadAction::SendFirmware);
                actions.push(UploadAction::SendIdleCommand);
                assert(actions@ =~= upload_step_actions(state, event));
                (UploadState::Stream, actions)
            } else {
                (UploadState::Failed, Vec::new())
            }
        },
        (UploadState::Stream, UploadEvent::IdleAcked) => (UploadState::Done, Vec::new()),
        (UploadState::Done, _) => (UploadState::Done, Vec::new()),
        _ => (UploadState::Failed, Vec::new()),
    }
}

/// Law: a probe-stage mismatch aborts before any side effect. When the
/// alive-check reply is anything but `0xFF`, the sequencer fails and asks
/// for no action — no baud-rate change and no further write ever follows —
/// and a failed sequencer never asks for an action again.
pub proof fn lemma_probe_mismatch_aborts(b: u8)
    requires
        b != 0xFF,
    ensures
        upload_next_state(UploadState::Probe, UploadEvent::Byte(b)) == UploadState::Failed,
        upload_step_actions(UploadState::Probe, UploadEvent::Byte(b)) == Seq::<
            UploadAction,
        >::empty(),
        forall|e: UploadEvent|
            upload_next_state(UploadState::Failed, e) == UploadState::Failed
                && upload_step_actions(UploadState::Failed, e) == Seq::<UploadAction>::empty(),
{
}

} // verus!
