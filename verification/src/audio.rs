//! Audio notification: the in-library notifier used for tests and for runs
//! without an audio backend. Volume is in hundredths (50 stands for 0.5).

use vstd::prelude::*;
use crate::ports::AudioNotifier;

verus! {

/// An audio notifier that records alert requests without a sound device.
/// Playing while disabled is reported as an error.
pub struct MockAudioNotifier {
    enabled: bool,
    volume: u32,
    intervention_calls: u64,
    completion_calls: u64,
    interventions: Ghost<nat>,
    completions: Ghost<nat>,
}

impl MockAudioNotifier {
    pub fn new() -> (r: Self)
        ensures
            r.enabled_state(),
            r.volume_state() == 50,
            r.alarm_count() == 0,
            r.completion_count() == 0,
    {
        MockAudioNotifier {
            enabled: true,
            volume: 50,
            intervention_calls: 0,
            completion_calls: 0,
            interventions: Ghost(0),
            completions: Ghost(0),
        }
    }

    /// The configured volume, in hundredths.
    pub closed spec fn volume_state(&self) -> u32 {
        self.volume
    }

    /// How often the intervention alert was requested (saturating).
    pub fn intervention_call_count(&self) -> u64 {
        self.intervention_calls
    }

    /// How often the completion alert was requested (saturating).
    pub fn completion_call_count(&self) -> u64 {
        self.completion_calls
    }
}

impl AudioNotifier for MockAudioNotifier {
    closed spec fn alarm_count(&self) -> nat {
        self.interventions@
    }

    closed spec fn completion_count(&self) -> nat {
        self.completions@
    }

    closed spec fn enabled_state(&self) -> bool {
        self.enabled
    }

    fn play_intervention_needed(&mut self) -> (r: Result<(), String>)
        ensures
            r is Ok <==> old(self).enabled_state(),
            final(self).volume_state() == old(self).volume_state(),
    {
        proof {
            self.interventions@ = self.interventions@ + 1;
        }
        if self.intervention_calls < u64::MAX {
            self.intervention_calls = self.intervention_calls + 1;
        }
        if self.enabled {
            Ok(())
        } else {
            Err("Audio disabled".to_owned())
        }
    }

    fn play_profile_ended(&mut self) -> (r: Result<(), String>)
        ensures
            r is Ok <==> old(self).enabled_state(),
            final(self).volume_state() == old(self).volume_state(),
    {
        proof {
            self.completions@ = self.completions@ + 1;
        }
        if self.completion_calls < u64::MAX {
            self.completion_calls = self.completion_calls + 1;
        }
        if self.enabled {
            Ok(())
        } else {
            Err("Audio disabled".to_owned())
        }
    }

    fn set_volume(&mut self, volume: u32) -> (r: Result<(), String>)
        ensures
            r is Ok ==> final(self).volume_state() == volume,
            r is Err ==> final(self).volume_state() == old(self).volume_state(),
    {
        if volume > 100 {
            return Err("Volume must be between 0 and 100 hundredths".to_owned());
        }
        self.volume = volume;
        Ok(())
    }

    fn set_enabled(&mut self, enabled: bool)
        ensures
            final(self).volume_state() == old(self).volume_state(),
    {
        self.enabled = enabled;
    }

    fn is_enabled(&self) -> (r: bool) {
        self.enabled
    }
}

/// The default audio notifier where no platform backend is configured.
pub fn create_audio_notifier() -> (r: Result<MockAudioNotifier, String>)
    ensures
        r is Ok,
        r.unwrap().enabled_state(),
        r.unwrap().alarm_count() == 0,
{
    Ok(MockAudioNotifier::new())
}

} // verus!
