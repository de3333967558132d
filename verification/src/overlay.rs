//! Renderer-independent overlay presentation policies: how long a shown
//! overlay animates, which easing curve it uses, and when it is removed.

use std::time::Duration;
use vstd::prelude::*;
use crate::click::duration_new_spec;

verus! {

/// The duration of a whole number of milliseconds: its whole seconds and the
/// remaining nanoseconds.
pub open spec fn duration_from_millis_spec(millis: u64) -> Duration {
    duration_new_spec(millis / 1000, ((millis % 1000) * 1_000_000) as u32)
}

/// `Duration::from_millis`: the duration of `millis` milliseconds, which is
/// the duration `Duration::new` makes of its whole seconds and the remaining
/// nanoseconds.
#[verifier::external_body]
pub(crate) fn duration_from_millis(millis: u64) -> (d: Duration)
    ensures
        d == duration_from_millis_spec(millis),
{
    Duration::from_millis(millis)
}

/// Milliseconds a freshly shown overlay stays before it is removed.
pub const DEFAULT_AUTO_REMOVAL_MS: u64 = 180;

/// Milliseconds a default overlay motion lasts.
pub const DEFAULT_MOTION_MS: u64 = 320;

/// Removal policy for overlay layers after they have been shown.
#[derive(Clone, Copy, Debug, PartialEq, Eq)]
pub enum Removal {
    Manual,
    AutoAfter(Duration),
}

/// Lifecycle policy applied after a platform renderer has rendered an overlay.
#[derive(Clone, Copy, Debug, PartialEq, Eq)]
pub struct LifecycleOptions {
    removal: Removal,
}

impl LifecycleOptions {
    /// The removal policy this lifecycle carries.
    pub closed spec fn removal_spec(self) -> Removal {
        self.removal
    }

    /// The lifecycle that carries exactly `removal`.
    pub closed spec fn with_removal_spec(removal: Removal) -> Self {
        LifecycleOptions { removal }
    }

    /// The default lifecycle: remove automatically after a short hold.
    pub open spec fn default_spec() -> Self {
        Self::with_removal_spec(Removal::AutoAfter(duration_from_millis_spec(DEFAULT_AUTO_REMOVAL_MS)))
    }

    pub fn new() -> (options: Self)
        ensures
            options == Self::default_spec(),
    {
        Self::default()
    }

    pub fn manual() -> (options: Self)
        ensures
            options == Self::with_removal_spec(Removal::Manual),
    {
        Self { removal: Removal::Manual }
    }

    pub fn with_auto_removal_after(self, duration: Duration) -> (options: Self)
        ensures
            options == Self::with_removal_spec(Removal::AutoAfter(duration)),
    {
        let mut this = self;
        this.removal = Removal::AutoAfter(duration);
        this
    }

    pub fn removal(self) -> (removal: Removal)
        ensures
            removal == self.removal_spec(),
    {
        self.removal
    }
}

impl Default for LifecycleOptions {
    fn default() -> (options: Self)
        ensures
            options == Self::default_spec(),
    {
        Self { removal: Removal::AutoAfter(duration_from_millis(DEFAULT_AUTO_REMOVAL_MS)) }
    }
}

/// Easing curve used when an overlay layer moves.
#[derive(Clone, Copy, Debug, PartialEq, Eq)]
pub enum Easing {
    EaseInOutExpo,
}

impl Default for Easing {
    fn default() -> (easing: Self)
        ensures
            easing == Easing::EaseInOutExpo,
    {
        Easing::EaseInOutExpo
    }
}

/// Animation policy used by a platform renderer when moving overlay layers.
#[derive(Clone, Copy, Debug, PartialEq, Eq)]
pub struct MotionOptions {
    duration: Duration,
    easing: Easing,
}

impl MotionOptions {
    pub closed spec fn duration_spec(self) -> Duration {
        self.duration
    }

    pub closed spec fn easing_spec(self) -> Easing {
        self.easing
    }

    /// The motion policy with exactly this duration and easing.
    pub closed spec fn from_parts(duration: Duration, easing: Easing) -> Self {
        MotionOptions { duration, easing }
    }

    /// The default motion: a short exponential ease.
    pub open spec fn default_spec() -> Self {
        Self::from_parts(duration_from_millis_spec(DEFAULT_MOTION_MS), Easing::EaseInOutExpo)
    }

    pub fn new() -> (options: Self)
        ensures
            options == Self::default_spec(),
    {
        Self::default()
    }

    pub fn with_duration(self, duration: Duration) -> (options: Self)
        ensures
            options == Self::from_parts(duration, self.easing_spec()),
    {
        let mut this = self;
        this.duration = duration;
        this
    }

    pub fn with_easing(self, easing: Easing) -> (options: Self)
        ensures
            options == Self::from_parts(self.duration_spec(), easing),
    {
        let mut this = self;
        this.easing = easing;
        this
    }

    pub fn duration(self) -> (duration: Duration)
        ensures
            duration == self.duration_spec(),
    {
        self.duration
    }

    pub fn easing(self) -> (easing: Easing)
        ensures
            easing == self.easing_spec(),
    {
        self.easing
    }
}

impl Default for MotionOptions {
    fn default() -> (options: Self)
        ensures
            options == Self::default_spec(),
    {
        Self { duration: duration_from_millis(DEFAULT_MOTION_MS), easing: Easing::EaseInOutExpo }
    }
}

/// Motion and lifecycle policy for showing one overlay.
#[derive(Clone, Copy, Debug, PartialEq, Eq)]
pub struct ShowOptions {
    motion: MotionOptions,
    lifecycle: LifecycleOptions,
}

impl ShowOptions {
    pub closed spec fn motion_spec(self) -> MotionOptions {
        self.motion
    }

    pub closed spec fn lifecycle_spec(self) -> LifecycleOptions {
        self.lifecycle
    }

    /// The show policy with exactly this motion and lifecycle.
    pub closed spec fn from_parts(motion: MotionOptions, lifecycle: LifecycleOptions) -> Self {
        ShowOptions { motion, lifecycle }
    }

    /// Default motion, default lifecycle.
    pub open spec fn default_spec() -> Self {
        Self::from_parts(MotionOptions::default_spec(), LifecycleOptions::default_spec())
    }

    pub fn new() -> (options: Self)
        ensures
            options == Self::default_spec(),
    {
        Self::default()
    }

    pub fn with_motion_ease(self, duration: Duration, easing: Easing) -> (options: Self)
        ensures
            options == Self::from_parts(MotionOptions::from_parts(duration, easing), self.lifecycle_spec()),
    {
        let mut this = self;
        this.motion = MotionOptions::new().with_duration(duration).with_easing(easing);
        this
    }

    pub fn with_auto_removal_after(self, duration: Duration) -> (options: Self)
        ensures
            options == Self::from_parts(
                self.motion_spec(),
                LifecycleOptions::with_removal_spec(Removal::AutoAfter(duration)),
            ),
    {
        let mut this = self;
        this.lifecycle = LifecycleOptions::new().with_auto_removal_after(duration);
        this
    }

    pub fn with_motion_options(self, options: MotionOptions) -> (result: Self)
        ensures
            result == Self::from_parts(options, self.lifecycle_spec()),
    {
        let mut this = self;
        this.motion = options;
        this
    }

    pub fn with_lifecycle_options(self, options: LifecycleOptions) -> (result: Self)
        ensures
            result == Self::from_parts(self.motion_spec(), options),
    {
        let mut this = self;
        this.lifecycle = options;
        this
    }

    pub fn motion(self) -> (motion: MotionOptions)
        ensures
            motion == self.motion_spec(),
    {
        self.motion
    }

    pub fn lifecycle(self) -> (lifecycle: LifecycleOptions)
        ensures
            lifecycle == self.lifecycle_spec(),
    {
        self.lifecycle
    }
}

impl Default for ShowOptions {
    fn default() -> (options: Self)
        ensures
            options == Self::default_spec(),
    {
        Self { motion: MotionOptions::default(), lifecycle: LifecycleOptions::default() }
    }
}

/// Reading back a show policy gives exactly the motion it was built from.
pub broadcast proof fn lemma_show_motion_read_back(motion: MotionOptions, lifecycle: LifecycleOptions)
    ensures
        #[trigger] ShowOptions::from_parts(motion, lifecycle).motion_spec() == motion,
{
}

/// Reading back a show policy gives exactly the lifecycle it was built from.
pub broadcast proof fn lemma_show_lifecycle_read_back(motion: MotionOptions, lifecycle: LifecycleOptions)
    ensures
        #[trigger] ShowOptions::from_parts(motion, lifecycle).lifecycle_spec() == lifecycle,
{
}

/// Reading back a motion policy gives exactly its duration and easing.
pub broadcast proof fn lemma_motion_read_back(duration: Duration, easing: Easing)
    ensures
        #[trigger] MotionOptions::from_parts(duration, easing).duration_spec() == duration,
        MotionOptions::from_parts(duration, easing).easing_spec() == easing,
{
}

/// Reading back a lifecycle gives exactly its removal policy.
pub broadcast proof fn lemma_lifecycle_read_back(removal: Removal)
    ensures
        #[trigger] LifecycleOptions::with_removal_spec(removal).removal_spec() == removal,
{
}

pub broadcast group group_read_back {
    lemma_show_motion_read_back,
    lemma_show_lifecycle_read_back,
    lemma_motion_read_back,
    lemma_lifecycle_read_back,
}

/// The shortcuts build the nested policies: after `with_motion_ease(d, e)`
/// the motion reads back duration `d` and easing `e`, and after
/// `with_auto_removal_after(d)` the lifecycle reads back automatic removal
/// after `d`; neither touches the other policy.
pub proof fn lemma_shortcuts_build_nested_policies(options: ShowOptions, duration: Duration, easing: Easing)
    ensures
        ({
            let eased = ShowOptions::from_parts(MotionOptions::from_parts(duration, easing), options.lifecycle_spec());
            &&& eased.motion_spec().duration_spec() == duration
            &&& eased.motion_spec().easing_spec() == easing
            &&& eased.lifecycle_spec() == options.lifecycle_spec()
        }),
        ({
            let held = ShowOptions::from_parts(
                options.motion_spec(),
                LifecycleOptions::with_removal_spec(Removal::AutoAfter(duration)),
            );
            &&& held.lifecycle_spec().removal_spec() == Removal::AutoAfter(duration)
            &&& held.motion_spec() == options.motion_spec()
        }),
{
}

/// Replacing the motion policy and replacing the lifecycle policy of a show
/// policy do not interfere: either order gives the same result.
pub proof fn lemma_motion_and_lifecycle_commute(options: ShowOptions, motion: MotionOptions, lifecycle: LifecycleOptions)
    ensures
        ShowOptions::from_parts(motion, ShowOptions::from_parts(options.motion_spec(), lifecycle).lifecycle_spec())
            == ShowOptions::from_parts(ShowOptions::from_parts(motion, options.lifecycle_spec()).motion_spec(), lifecycle),
{
}

/// A later setting of the same policy replaces an earlier one, whatever the
/// earlier one was.
pub proof fn lemma_last_setting_wins(
    motion: MotionOptions,
    lifecycle: LifecycleOptions,
    later_motion: MotionOptions,
    later_lifecycle: LifecycleOptions,
    duration: Duration,
    easing: Easing,
)
    ensures
        ShowOptions::from_parts(later_motion, ShowOptions::from_parts(motion, lifecycle).lifecycle_spec())
            == ShowOptions::from_parts(later_motion, lifecycle),
        ShowOptions::from_parts(ShowOptions::from_parts(motion, lifecycle).motion_spec(), later_lifecycle)
            == ShowOptions::from_parts(motion, later_lifecycle),
        MotionOptions::from_parts(duration, MotionOptions::from_parts(motion.duration_spec(), easing).easing_spec())
            == MotionOptions::from_parts(duration, easing),
{
}

} // verus!
