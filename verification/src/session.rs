use vstd::prelude::*;
use crate::errors::InstanceError;
use crate::gesture::ButtonEvent;
use crate::gesture::RepeatCounter;
use crate::gesture::spec_run;

verus! {

/// Connection lifecycle of a session. A session only ever moves forward:
/// once closed, it stays closed, and loss of the device is terminal.
#[derive(Clone, Copy, Debug, PartialEq, Eq, Structural)]
pub enum SessionPhase {
    /// The exclusive connection is established and usable.
    Connected,
    /// The session was shut down; no further device work is allowed.
    Closed,
}

/// Immutable identity of the connected device, captured at connect time for
/// diagnostics and fully populated whenever a session exists.
#[derive(Debug)]
pub struct DeviceDescriptor {
    /// The device model, by its diagnostic name.
    pub kind_name: String,
    /// The serial number the device reported.
    pub serial_number: String,
    /// The firmware version the device reported.
    pub firmware_version: String,
}

/// One entry of the discovery listing: a candidate device's model name and
/// serial number.
#[derive(Debug)]
pub struct DeviceEntry {
    /// The candidate's model, by its diagnostic name.
    pub kind_name: String,
    /// The candidate's serial number.
    pub serial: String,
}

/// What one bounded wait on the event reader came back with. The transport
/// performs the wait; the session only interprets the outcome.
pub enum ReadOutcome {
    /// A batch of events, in hardware emission order.
    Events(Vec<ButtonEvent>),
    /// The bounded wait elapsed with nothing to report.
    TimedOut,
    /// The transport reported the device gone.
    Disconnected,
}

/// What the gesture loop does next after one read outcome.
#[derive(Clone, Copy, Debug, PartialEq, Eq, Structural)]
pub enum LoopDirective {
    /// Pull the next batch of events.
    KeepPolling,
    /// Leave the loop and shut the session down.
    Stop,
}

/// What the transport reported after the flush decision ran on its side: a
/// clean session needs no write, a dirty one was flushed or failed to flush.
pub enum FlushOutcome {
    /// Nothing was pending; no write was attempted.
    Clean,
    /// Pending state was written out successfully.
    Flushed,
    /// The write was attempted and the transport rejected it.
    Failed(String),
}

/// The session that owns the connection's verified state: the device
/// identity and the lifecycle phase.
#[derive(Debug)]
pub struct Instance {
    /// Identity of the connected device, complete from construction on.
    pub descriptor: DeviceDescriptor,
    phase: SessionPhase,
}

/// The counter and directive after one read outcome: a batch is fed to the
/// counter and the loop goes on unless the gesture fired; an empty batch, an
/// elapsed wait and a vanished device all end the loop the same quiet way.
pub open spec fn spec_loop_step(c: RepeatCounter, outcome: ReadOutcome, threshold: u8) -> (
    RepeatCounter,
    LoopDirective,
) {
    match outcome {
        ReadOutcome::Events(events) => {
            if events@.len() == 0 {
                (c, LoopDirective::Stop)
            } else {
                let r = spec_run(c, events@, threshold);
                (r.0, if r.1 {
                    LoopDirective::Stop
                } else {
                    LoopDirective::KeepPolling
                })
            }
        },
        ReadOutcome::TimedOut => (c, LoopDirective::Stop),
        ReadOutcome::Disconnected => (c, LoopDirective::Stop),
    }
}

/// The counter after a whole gesture-loop run over recorded read outcomes,
/// and how many outcomes the loop consumed before stopping (all of them, if
/// none made it stop).
pub open spec fn spec_session_run(c: RepeatCounter, outcomes: Seq<ReadOutcome>, threshold: u8) -> (
    RepeatCounter,
    int,
)
    decreases outcomes.len(),
{
    if outcomes.len() == 0 {
        (c, 0)
    } else {
        let step = spec_loop_step(c, outcomes[0], threshold);
        if step.1 is Stop {
            (step.0, 1)
        } else {
            let rest = spec_session_run(
                step.0,
                outcomes.subrange(1, outcomes.len() as int),
                threshold,
            );
            (rest.0, rest.1 + 1)
        }
    }
}

/// Selects the device the session will connect to: the first entry of the
/// discovery listing, in discovery order, with no further policy; an empty
/// listing is a discovery failure.
pub fn select_device(devices: &Vec<DeviceEntry>) -> (r: Result<DeviceEntry, InstanceError>)
    ensures
        devices@.len() == 0 ==> (r matches Err(e) && e matches InstanceError::CreationError(m)
            && m@ == "no instance found"@),
        devices@.len() > 0 ==> (r matches Ok(d) && d.kind_name@ == devices@[0].kind_name@
            && d.serial@ == devices@[0].serial@),
{
    if devices.len() == 0 {
        Err(InstanceError::CreationError("no instance found".to_owned()))
    } else {
        let first = &devices[0];
        Ok(
            DeviceEntry {
                kind_name: first.kind_name.clone(),
                serial: first.serial.clone(),
            },
        )
    }
}

/// Interprets one read outcome for the loop: feeds a batch to the counter in
/// emission order and says whether to keep polling. An elapsed wait, a
/// vanished device and an empty batch all stop the loop without error.
pub fn loop_step(counter: &mut RepeatCounter, outcome: &ReadOutcome, threshold: u8) -> (d:
    LoopDirective)
    ensures
        *final(counter) == spec_loop_step(*old(counter), *outcome, threshold).0,
        d == spec_loop_step(*old(counter), *outcome, threshold).1,
{
    match outcome {
        ReadOutcome::Events(events) => {
            if events.len() == 0 {
                LoopDirective::Stop
            } else {
                let fired = counter.process_batch(events, threshold);
                if fired {
                    LoopDirective::Stop
                } else {
                    LoopDirective::KeepPolling
                }
            }
        },
        ReadOutcome::TimedOut => LoopDirective::Stop,
        ReadOutcome::Disconnected => LoopDirective::Stop,
    }
}

impl Instance {
    /// Whether the session still holds a usable connection.
    pub closed spec fn is_open(&self) -> bool {
        self.phase is Connected
    }

    /// The device identity the session captured at connect time.
    pub closed spec fn spec_descriptor(&self) -> DeviceDescriptor {
        self.descriptor
    }

    /// Builds the session from the plain outcomes of the transport's connect
    /// handshake: whether the exclusive connection was established, and the
    /// identity fields read from the device. A session exists only with its
    /// descriptor fully populated; a missing identity field is fatal to
    /// construction.
    pub fn new(
        kind_name: String,
        connected: bool,
        serial_number: Option<String>,
        firmware_version: Option<String>,
    ) -> (r: Result<Instance, InstanceError>)
        ensures
            !connected ==> (r matches Err(e) && e is UnableToConnect),
            connected && (serial_number is None || firmware_version is None) ==> (r matches Err(e)
                && e matches InstanceError::CreationError(m)
                && m@ == "device identity unavailable"@),
            connected ==> (serial_number matches Some(s) ==> (firmware_version matches Some(f)
                ==> (r matches Ok(inst) && inst.spec_descriptor().kind_name@ == kind_name@
                && inst.spec_descriptor().serial_number@ == s@
                && inst.spec_descriptor().firmware_version@ == f@ && inst.is_open()))),
    {
        if !connected {
            return Err(InstanceError::UnableToConnect);
        }
        match (serial_number, firmware_version) {
            (Some(serial), Some(firmware)) => Ok(
                Instance {
                    descriptor: DeviceDescriptor {
                        kind_name,
                        serial_number: serial,
                        firmware_version: firmware,
                    },
                    phase: SessionPhase::Connected,
                },
            ),
            _ => Err(InstanceError::CreationError("device identity unavailable".to_owned())),
        }
    }

    /// Exposes the lifecycle phase to executable callers.
    pub fn is_connected(&self) -> (b: bool)
        ensures
            b == self.is_open(),
    {
        match self.phase {
            SessionPhase::Connected => true,
            SessionPhase::Closed => false,
        }
    }

    /// Interprets the transport's flush report: a clean or freshly flushed
    /// session is fine, a rejected write is handed back with the transport's
    /// message. The decision to skip the write on a clean session lies with
    /// the transport's dirty flag; this classifies what it did.
    pub fn flush(&mut self, outcome: FlushOutcome) -> (r: Result<(), InstanceError>)
        requires
            old(self).is_open(),
        ensures
            *final(self) == *old(self),
            outcome matches FlushOutcome::Failed(m) ==> (r matches Err(e)
                && e matches InstanceError::Generic(g) && g@ == m@),
            !(outcome is Failed) ==> r is Ok,
    {
        match outcome {
            FlushOutcome::Clean => Ok(()),
            FlushOutcome::Flushed => Ok(()),
            FlushOutcome::Failed(message) => Err(InstanceError::Generic(message)),
        }
    }

    /// Interprets the transport's reply to a brightness change: the
    /// transport validates the percentage, and a rejection is handed back
    /// with its message.
    pub fn update_brightness(&mut self, _percentage: u8, reply: Option<String>) -> (r: Result<
        (),
        InstanceError,
    >)
        requires
            old(self).is_open(),
        ensures
            *final(self) == *old(self),
            reply matches Some(m) ==> (r matches Err(e) && e matches InstanceError::Generic(g)
                && g@ == m@),
            reply is None ==> r is Ok,
    {
        match reply {
            Some(message) => Err(InstanceError::Generic(message)),
            None => Ok(()),
        }
    }

    /// Validates a background update before any decode or device write may
    /// run: an empty path is the caller's bug and is rejected up front, so
    /// no partial side effect can happen.
    pub fn update_background(&self, path: &str) -> (r: Result<(), InstanceError>)
        requires
            self.is_open(),
        ensures
            path@.len() == 0 ==> (r matches Err(e) && e matches InstanceError::Generic(m)
                && m@ == "Invalid path"@),
            path@.len() > 0 ==> r is Ok,
    {
        if path.is_empty() {
            Err(InstanceError::Generic("Invalid path".to_owned()))
        } else {
            Ok(())
        }
    }

    /// Classifies what the decode and the device write reported for a
    /// background update that passed validation: a failed decode means the
    /// path led nowhere, a device rejection is handed back with its message.
    pub fn apply_background_outcome(&mut self, decoded: bool, device_reply: Option<String>) -> (r:
        Result<(), InstanceError>)
        requires
            old(self).is_open(),
        ensures
            *final(self) == *old(self),
            !decoded ==> (r matches Err(e) && e is PathNotFound),
            decoded ==> (device_reply matches Some(m) ==> (r matches Err(e)
                && e matches InstanceError::Generic(g) && g@ == m@)),
            decoded && device_reply is None ==> r is Ok,
    {
        if !decoded {
            return Err(InstanceError::PathNotFound);
        }
        match device_reply {
            Some(message) => Err(InstanceError::Generic(message)),
            None => Ok(()),
        }
    }

    /// Closes the session. It demands an open session and leaves a closed
    /// one, so no session is ever shut down twice; the transport's own
    /// close is best-effort on the driver's side and its errors are
    /// swallowed there.
    pub fn shutdown(&mut self)
        requires
            old(self).is_open(),
        ensures
            !final(self).is_open(),
            final(self).spec_descriptor() == old(self).spec_descriptor(),
    {
        self.phase = SessionPhase::Closed;
    }

    /// Replays one whole gesture-loop run over recorded read outcomes and
    /// closes the session. Every exit path — gesture fired, wait elapsed,
    /// device vanished, or the recording simply over — performs the one
    /// shutdown, so the session always comes out closed.
    pub fn run_gesture_loop(
        &mut self,
        counter: &mut RepeatCounter,
        outcomes: &Vec<ReadOutcome>,
        threshold: u8,
    ) -> (consumed: usize)
        requires
            old(self).is_open(),
        ensures
            !final(self).is_open(),
            final(self).spec_descriptor() == old(self).spec_descriptor(),
            *final(counter) == spec_session_run(*old(counter), outcomes@, threshold).0,
            consumed == spec_session_run(*old(counter), outcomes@, threshold).1,
    {
        let ghost c0 = *counter;
        let mut i: usize = 0;
        proof {
            assert(outcomes@.subrange(0, outcomes@.len() as int) =~= outcomes@);
        }
        while i < outcomes.len()
            invariant
                i <= outcomes@.len(),
                c0 == *old(counter),
                old(self).is_open(),
                *self == *old(self),
                spec_session_run(c0, outcomes@, threshold).0 == spec_session_run(
                    *counter,
                    outcomes@.subrange(i as int, outcomes@.len() as int),
                    threshold,
                ).0,
                spec_session_run(c0, outcomes@, threshold).1 == spec_session_run(
                    *counter,
                    outcomes@.subrange(i as int, outcomes@.len() as int),
                    threshold,
                ).1 + i,
            decreases outcomes@.len() - i,
        {
            let ghost cur = *counter;
            let ghost rest = outcomes@.subrange(i as int, outcomes@.len() as int);
            proof {
                assert(rest.len() > 0);
                assert(rest[0] == outcomes@[i as int]);
                assert(rest.subrange(1, rest.len() as int) =~= outcomes@.subrange(
                    i + 1,
                    outcomes@.len() as int,
                ));
            }
            let directive = loop_step(counter, &outcomes[i], threshold);
            proof {
                let step = spec_loop_step(cur, rest[0], threshold);
                if step.1 is Stop {
                    assert(spec_session_run(cur, rest, threshold) == (step.0, 1int));
                } else {
                    let tail = spec_session_run(
                        step.0,
                        rest.subrange(1, rest.len() as int),
                        threshold,
                    );
                    assert(spec_session_run(cur, rest, threshold) == (tail.0, tail.1 + 1));
                }
            }
            i = i + 1;
            if directive == LoopDirective::Stop {
                self.shutdown();
                return i;
            }
        }
        self.shutdown();
        i
    }
}

} // verus!
