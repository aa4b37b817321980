//! Playback-control state: the shared controls of one triggered sound,
//! and the per-device output state with its periodic pipeline decisions.
//!
//! The host audio engine owns the platform stream and the real-time
//! callback; this module owns every decision those make. Volumes are
//! integers in hundredths of a level unit; the playback layer maps a
//! total level `x` to the amplitude `10 ^ (x / 100 / 20)`, the
//! decibel-style combination policy, and applies it outside this crate.

use vstd::prelude::*;

verus! {

/// Shared playback state of one triggered sound instance: every device
/// pipeline playing that trigger samples it on its periodic tick. A
/// fresh trigger constructs a fresh instance; `stopped` is terminal for
/// an instance (see `lemma_stop_is_terminal`).
#[derive(Clone, Copy, Debug, PartialEq, Eq, Structural)]
pub struct AudioControls {
    pub playing: bool,
    pub stopped: bool,
    pub volume: i32,
}

/// One mutating call on an `AudioControls`.
#[derive(Clone, Copy, Debug, PartialEq, Eq, Structural)]
pub enum ControlsOp {
    Play,
    Pause,
    Stop,
    SetPlaying(bool),
    SetVolume(i32),
}

/// The state after one mutating call.
pub open spec fn controls_step(c: AudioControls, op: ControlsOp) -> AudioControls {
    match op {
        ControlsOp::Play => AudioControls { playing: true, ..c },
        ControlsOp::Pause => AudioControls { playing: false, ..c },
        ControlsOp::Stop => AudioControls { playing: false, stopped: true, ..c },
        ControlsOp::SetPlaying(b) => AudioControls { playing: b, ..c },
        ControlsOp::SetVolume(v) => AudioControls { volume: v, ..c },
    }
}

/// The state after a sequence of mutating calls, first call first.
pub open spec fn controls_run(c: AudioControls, ops: Seq<ControlsOp>) -> AudioControls
    decreases ops.len(),
{
    if ops.len() == 0 {
        c
    } else {
        controls_run(controls_step(c, ops[0]), ops.skip(1))
    }
}

/// Stopping is terminal: a stopped controls instance reports stopped
/// after every further sequence of calls on it, whatever `play` and
/// `pause` calls intervene. Reviving a sound takes a new instance.
pub proof fn lemma_stop_is_terminal(c: AudioControls, ops: Seq<ControlsOp>)
    requires
        c.stopped,
    ensures
        controls_run(c, ops).stopped,
    decreases ops.len(),
{
    if ops.len() > 0 {
        lemma_stop_is_terminal(controls_step(c, ops[0]), ops.skip(1));
    }
}

impl Default for AudioControls {
    /// Playing, not stopped, volume at the baseline level.
    fn default() -> (r: Self)
        ensures
            r == (AudioControls { playing: true, stopped: false, volume: 0 }),
    {
        AudioControls { playing: true, stopped: false, volume: 0 }
    }
}

impl AudioControls {
    pub fn new(playing: bool, stopped: bool, volume: i32) -> (r: Self)
        ensures
            r == (AudioControls { playing, stopped, volume }),
    {
        AudioControls { playing, stopped, volume }
    }

    /// Resume: sets `playing`; never touches `stopped`.
    pub fn play(&mut self)
        ensures
            *final(self) == controls_step(*old(self), ControlsOp::Play),
    {
        self.playing = true;
    }

    /// Soft-pause: clears `playing`; never touches `stopped`.
    pub fn pause(&mut self)
        ensures
            *final(self) == controls_step(*old(self), ControlsOp::Pause),
    {
        self.playing = false;
    }

    /// Stop for good: clears `playing` and sets `stopped`, which no
    /// call on this instance clears again.
    pub fn stop(&mut self)
        ensures
            *final(self) == controls_step(*old(self), ControlsOp::Stop),
            final(self).stopped,
    {
        self.playing = false;
        self.stopped = true;
    }

    pub fn stopped(&self) -> (r: bool)
        ensures
            r == self.stopped,
    {
        self.stopped
    }

    pub fn set_playing(&mut self, playing: bool)
        ensures
            *final(self) == controls_step(*old(self), ControlsOp::SetPlaying(playing)),
    {
        self.playing = playing;
    }

    pub fn playing(&self) -> (r: bool)
        ensures
            r == self.playing,
    {
        self.playing
    }

    /// Set the sound's level, in hundredths of a unit. No range is
    /// clamped here; bounding is the caller's policy.
    pub fn set_volume(&mut self, volume: i32)
        ensures
            *final(self) == controls_step(*old(self), ControlsOp::SetVolume(volume)),
    {
        self.volume = volume;
    }

    pub fn get_volume(&self) -> (r: i32)
        ensures
            r == self.volume,
    {
        self.volume
    }
}

/// The gain a pipeline must apply after a tick.
#[derive(Clone, Copy, Debug, PartialEq, Eq, Structural)]
pub enum GainAction {
    /// The device is muted: silence the output (amplitude factor zero).
    Silence,
    /// Total level, sound plus device, in hundredths of a unit; the
    /// playback layer maps it to the amplitude `10 ^ (level / 2000)`.
    Level(i64),
}

/// What one periodic control-sampling step tells the pipeline to apply.
#[derive(Clone, Copy, Debug, PartialEq, Eq, Structural)]
pub struct TickCommand {
    /// Permanently halt the source; irreversible for this pipeline.
    pub halt: bool,
    /// Soft-pause: silence the output but keep the position, resumable
    /// while not halted.
    pub paused: bool,
    /// The gain to apply.
    pub gain: GainAction,
}

/// The decision of one periodic tick, from the sound's controls and the
/// device's mute state and level.
pub open spec fn tick_spec(c: AudioControls, muted: bool, device_volume: i32) -> TickCommand {
    TickCommand {
        halt: c.stopped,
        paused: !c.playing,
        gain: if muted {
            GainAction::Silence
        } else {
            GainAction::Level((c.volume + device_volume) as i64)
        },
    }
}

/// One hardware audio sink, known by its display name. The platform
/// stream handle and the decoded sources live with the host; this state
/// records whether the stream is held (`enabled`), how many pipelines
/// currently play on it (`live_pipelines`), and the device-level mute
/// and volume every pipeline samples on its tick.
#[derive(Clone, Debug)]
pub struct OutputDevice {
    pub name: String,
    pub enabled: bool,
    pub muted: bool,
    pub volume: i32,
    pub live_pipelines: usize,
}

/// The state after an `enable` whose platform acquisition ended in
/// `acquired`: a no-op when already enabled, still disabled when the
/// acquisition failed.
pub open spec fn device_enable(d: OutputDevice, acquired: bool) -> OutputDevice {
    if d.enabled {
        d
    } else if acquired {
        OutputDevice { enabled: true, ..d }
    } else {
        d
    }
}

/// The state after a `disable`: the stream is released and every
/// pipeline on it is gone.
pub open spec fn device_disable(d: OutputDevice) -> OutputDevice {
    OutputDevice { enabled: false, live_pipelines: 0, ..d }
}

/// The state after a `set_volume`.
pub open spec fn device_set_volume(d: OutputDevice, volume: i32) -> OutputDevice {
    OutputDevice { volume, ..d }
}

/// The state after a `set_muted`.
pub open spec fn device_set_muted(d: OutputDevice, muted: bool) -> OutputDevice {
    OutputDevice { muted, ..d }
}

impl OutputDevice {
    /// No pipeline outlives the stream: a disabled device has none.
    pub open spec fn wf(self) -> bool {
        !self.enabled ==> self.live_pipelines == 0
    }

    /// Wrap one discovered output sink: disabled, unmuted, level at the
    /// baseline, no stream held.
    pub fn new(name: String) -> (r: Self)
        ensures
            r.name@ == name@,
            !r.enabled,
            !r.muted,
            r.volume == 0,
            r.live_pipelines == 0,
            r.wf(),
    {
        OutputDevice { name, enabled: false, muted: false, volume: 0, live_pipelines: 0 }
    }

    /// Idempotent acquisition of the platform stream resource.
    /// `acquired` is the outcome of the host's attempt to build a
    /// stream on this sink; a failed attempt leaves the device
    /// disabled, and an `enable` of an enabled device changes nothing.
    pub fn enable(&mut self, acquired: bool)
        requires
            old(self).wf(),
        ensures
            *final(self) == device_enable(*old(self), acquired),
            final(self).wf(),
    {
        if self.enabled {
            return ;
        }
        if acquired {
            self.enabled = true;
        }
    }

    /// Idempotent release of the platform stream resource. Dropping the
    /// stream halts every pipeline playing on it at once; that is a
    /// hard cut, not a fade.
    pub fn disable(&mut self)
        ensures
            *final(self) == device_disable(*old(self)),
            final(self).wf(),
    {
        self.enabled = false;
        self.live_pipelines = 0;
    }

    /// Return self.enabled.
    pub fn enabled(&self) -> (r: bool)
        ensures
            r == self.enabled,
    {
        self.enabled
    }

    /// Return &self.name.
    pub fn name(&self) -> (r: &String)
        ensures
            r@ == self.name@,
    {
        &self.name
    }

    /// Register one triggered sound on this device. The host opens and
    /// decodes the file only for an enabled device (`source_ready` is
    /// that outcome) and then hands the wrapped source to the live sink
    /// (`sink_accepted`). True exactly when the device was enabled and
    /// both steps succeeded; only then does a new pipeline live here.
    /// A failure touches nothing else: other sounds and devices keep
    /// playing.
    pub fn play_sound(&mut self, source_ready: bool, sink_accepted: bool) -> (r: bool)
        requires
            old(self).wf(),
            old(self).live_pipelines < usize::MAX,
        ensures
            r == (old(self).enabled && source_ready && sink_accepted),
            r ==> *final(self) == (OutputDevice {
                live_pipelines: (old(self).live_pipelines + 1) as usize,
                ..*old(self)
            }),
            !r ==> *final(self) == *old(self),
            final(self).wf(),
    {
        if !self.enabled {
            return false;
        }
        if !source_ready {
            return false;
        }
        if !sink_accepted {
            return false;
        }
        self.live_pipelines = self.live_pipelines + 1;
        true
    }

    /// Set the device's level, in hundredths of a unit. Every active
    /// pipeline picks it up on its next periodic tick.
    pub fn set_volume(&mut self, volume: i32)
        ensures
            *final(self) == device_set_volume(*old(self), volume),
    {
        self.volume = volume;
    }

    /// Get volume.
    pub fn volume(&self) -> (r: i32)
        ensures
            r == self.volume,
    {
        self.volume
    }

    /// Toggle muted. Every active pipeline picks it up on its next
    /// periodic tick.
    pub fn toggle_muted(&mut self)
        ensures
            *final(self) == device_set_muted(*old(self), !old(self).muted),
    {
        self.muted = !self.muted;
    }

    pub fn set_muted(&mut self, muted: bool)
        ensures
            *final(self) == device_set_muted(*old(self), muted),
    {
        self.muted = muted;
    }

    /// Get muted.
    pub fn muted(&self) -> (r: bool)
        ensures
            r == self.muted,
    {
        self.muted
    }

    /// One periodic control-sampling step for a pipeline playing
    /// `controls` on this device. The host audio engine calls it at its
    /// own fixed cadence and applies the command to the live stream:
    /// halt when the sound was stopped, pause to the negation of
    /// `playing`, and the gain from the sound's and the device's
    /// current level and mute state.
    pub fn pipeline_tick(&self, controls: &AudioControls) -> (r: TickCommand)
        ensures
            r == tick_spec(*controls, self.muted, self.volume),
    {
        let gain = if self.muted {
            GainAction::Silence
        } else {
            GainAction::Level(controls.volume as i64 + self.volume as i64)
        };
        TickCommand { halt: controls.stopped, paused: !controls.playing, gain }
    }
}

/// Device controls converge within one tick: the first tick after a
/// `set_volume` computes its gain from the new level, and the first
/// tick after a `set_muted` or `toggle_muted` silences or restores the
/// output accordingly. No tick before the change is affected, and none
/// after it sees the old value.
pub proof fn lemma_device_controls_converge(d: OutputDevice, c: AudioControls, v: i32, m: bool)
    ensures
        !d.muted ==> tick_spec(c, device_set_volume(d, v).muted, device_set_volume(d, v).volume)
            == (TickCommand {
            halt: c.stopped,
            paused: !c.playing,
            gain: GainAction::Level((c.volume + v) as i64),
        }),
        tick_spec(c, device_set_muted(d, m).muted, device_set_muted(d, m).volume).gain == (if m {
            GainAction::Silence
        } else {
            GainAction::Level((c.volume + d.volume) as i64)
        }),
{
}

/// Disabling a device with active pipelines halts them all and releases
/// the stream; a later `enable` on the same device starts from a clean,
/// no-pipeline state whatever the acquisition outcome.
pub proof fn lemma_disable_then_enable_is_clean(d: OutputDevice, acquired: bool)
    ensures
        !device_disable(d).enabled,
        device_disable(d).live_pipelines == 0,
        device_enable(device_disable(d), acquired).live_pipelines == 0,
        device_enable(device_disable(d), acquired).enabled == acquired,
{
}

} // verus!
