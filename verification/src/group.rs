use vstd::prelude::*;

verus! {

/// The six collections that a model sorts its motions into.
#[derive(Clone, Copy, Debug, PartialEq, Eq, Structural)]
pub enum MotionGroup {
    Idle,
    TapBody,
    PinchIn,
    PinchOut,
    Shake,
    FlickHead,
}

impl MotionGroup {
    /// The key under which a manifest lists the motions of the group.
    pub open spec fn key(self) -> Seq<char> {
        match self {
            MotionGroup::Idle => "Idle"@,
            MotionGroup::TapBody => "TapBody"@,
            MotionGroup::PinchIn => "PinchIn"@,
            MotionGroup::PinchOut => "PinchOut"@,
            MotionGroup::Shake => "Shake"@,
            MotionGroup::FlickHead => "FlickHead"@,
        }
    }

    /// The name under which a record lists the motions of the group.
    pub open spec fn name(self) -> Seq<char> {
        match self {
            MotionGroup::Idle => "idle"@,
            MotionGroup::TapBody => "tap_body"@,
            MotionGroup::PinchIn => "pinch_in"@,
            MotionGroup::PinchOut => "pinch_out"@,
            MotionGroup::Shake => "shake"@,
            MotionGroup::FlickHead => "flick_head"@,
        }
    }

    pub fn manifest_key(self) -> (r: &'static str)
        ensures
            r@ == self.key(),
    {
        match self {
            MotionGroup::Idle => "Idle",
            MotionGroup::TapBody => "TapBody",
            MotionGroup::PinchIn => "PinchIn",
            MotionGroup::PinchOut => "PinchOut",
            MotionGroup::Shake => "Shake",
            MotionGroup::FlickHead => "FlickHead",
        }
    }

    pub fn record_name(self) -> (r: &'static str)
        ensures
            r@ == self.name(),
    {
        match self {
            MotionGroup::Idle => "idle",
            MotionGroup::TapBody => "tap_body",
            MotionGroup::PinchIn => "pinch_in",
            MotionGroup::PinchOut => "pinch_out",
            MotionGroup::Shake => "shake",
            MotionGroup::FlickHead => "flick_head",
        }
    }
}

/// One thing for each of the six groups.
#[derive(Clone, Debug, PartialEq, Eq)]
pub struct ByGroup<T> {
    pub idle: T,
    pub tap_body: T,
    pub pinch_in: T,
    pub pinch_out: T,
    pub shake: T,
    pub flick_head: T,
}

pub ghost struct ByGroupView<V> {
    pub idle: V,
    pub tap_body: V,
    pub pinch_in: V,
    pub pinch_out: V,
    pub shake: V,
    pub flick_head: V,
}

impl<T: DeepView> DeepView for ByGroup<T> {
    type V = ByGroupView<T::V>;

    open spec fn deep_view(&self) -> ByGroupView<T::V> {
        ByGroupView {
            idle: self.idle.deep_view(),
            tap_body: self.tap_body.deep_view(),
            pinch_in: self.pinch_in.deep_view(),
            pinch_out: self.pinch_out.deep_view(),
            shake: self.shake.deep_view(),
            flick_head: self.flick_head.deep_view(),
        }
    }
}

impl<V> ByGroupView<V> {
    /// What belongs to one group.
    pub open spec fn group(self, group: MotionGroup) -> V {
        match group {
            MotionGroup::Idle => self.idle,
            MotionGroup::TapBody => self.tap_body,
            MotionGroup::PinchIn => self.pinch_in,
            MotionGroup::PinchOut => self.pinch_out,
            MotionGroup::Shake => self.shake,
            MotionGroup::FlickHead => self.flick_head,
        }
    }

    /// The same thing for every group.
    pub open spec fn all(v: V) -> ByGroupView<V> {
        ByGroupView { idle: v, tap_body: v, pinch_in: v, pinch_out: v, shake: v, flick_head: v }
    }
}

impl<T: DeepView> ByGroup<T> {
    /// What belongs to one group.
    pub fn group(&self, group: MotionGroup) -> (r: &T)
        ensures
            r.deep_view() == self.deep_view().group(group),
    {
        match group {
            MotionGroup::Idle => &self.idle,
            MotionGroup::TapBody => &self.tap_body,
            MotionGroup::PinchIn => &self.pinch_in,
            MotionGroup::PinchOut => &self.pinch_out,
            MotionGroup::Shake => &self.shake,
            MotionGroup::FlickHead => &self.flick_head,
        }
    }
}

} // verus!
