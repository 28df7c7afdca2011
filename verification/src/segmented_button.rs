//! The state of a pill-shaped button that holds several icon segments in a
//! row and can expand to reveal all but the first.
//!
//! The first segment is always visible and acts as the trigger; the others
//! are revealed only while the control is expanded. What expands it depends
//! on the [`ExpandBehavior`]:
//! - `OnClick` (default): pressing the first segment toggles the control.
//! - `OnHover`: the pointer entering expands it, leaving collapses it after a
//!   delay; pressing the first segment does not change the expanded state.
//! - `AlwaysExpanded`: the control is opened; pressing the first segment does
//!   not collapse it.
//!
//! Every transition reports the new expanded state when it changed, so that
//! the widget can reveal or hide the extra segments to match.
use vstd::prelude::*;

verus! {

/// What expands the control.
#[derive(Clone, Copy, Debug, PartialEq, Eq, Structural)]
pub enum ExpandBehavior {
    OnClick,
    OnHover,
    AlwaysExpanded,
}

impl Default for ExpandBehavior {
    fn default() -> (behavior: Self)
        ensures
            behavior == ExpandBehavior::OnClick,
    {
        ExpandBehavior::OnClick
    }
}

/// The abstract state of the control.
pub struct SegmentedView {
    pub expanded: bool,
    pub behavior: ExpandBehavior,
    /// Whether each segment is shown, in insertion order; the first is the trigger.
    pub visible: Seq<bool>,
}

/// The state of a segmented button.
pub struct SegmentedState {
    expanded: bool,
    behavior: ExpandBehavior,
    visible: Vec<bool>,
}

impl View for SegmentedState {
    type V = SegmentedView;

    closed spec fn view(&self) -> SegmentedView {
        SegmentedView { expanded: self.expanded, behavior: self.behavior, visible: self.visible@ }
    }
}

/// What a transition reports: the new expanded state if it changed.
pub open spec fn reported(before: SegmentedView, after: SegmentedView) -> Option<bool> {
    if before.expanded == after.expanded {
        None
    } else {
        Some(after.expanded)
    }
}

/// Opening or closing the control.
pub open spec fn spec_set_expanded(s: SegmentedView, value: bool) -> SegmentedView {
    SegmentedView { expanded: value, ..s }
}

/// Pressing the first segment: only `OnClick` toggles the control.
pub open spec fn spec_click_first(s: SegmentedView) -> SegmentedView {
    if s.behavior == ExpandBehavior::OnClick {
        spec_set_expanded(s, !s.expanded)
    } else {
        s
    }
}

/// Whether some segment after the first is shown.
pub open spec fn extra_visible(visible: Seq<bool>) -> bool {
    exists|j: int| 1 <= j < visible.len() && visible[j]
}

/// Showing or hiding the segment `index`. Hiding the last shown extra segment
/// of an expanded control collapses it. An index past the end changes nothing.
pub open spec fn spec_set_icon_visible(s: SegmentedView, index: int, visible: bool) -> SegmentedView {
    if index < 0 || index >= s.visible.len() {
        s
    } else {
        let shown = s.visible.update(index, visible);
        let s2 = SegmentedView { visible: shown, ..s };
        if !visible && index > 0 && s.expanded && !extra_visible(shown) {
            spec_set_expanded(s2, false)
        } else {
            s2
        }
    }
}

/// Switching the expand trigger; `AlwaysExpanded` opens the control.
pub open spec fn spec_set_behavior(s: SegmentedView, behavior: ExpandBehavior) -> SegmentedView {
    let s2 = SegmentedView { behavior, ..s };
    if behavior == ExpandBehavior::AlwaysExpanded {
        spec_set_expanded(s2, true)
    } else {
        s2
    }
}

/// What the widget does after the expand trigger was switched.
pub struct BehaviorUpdate {
    /// Whether to install a pointer controller that expands on enter and
    /// collapses after a delay on leave (any earlier one is removed in any case).
    pub hover_controller: bool,
    /// The new expanded state, if it changed.
    pub expanded_change: Option<bool>,
}

impl SegmentedState {
    /// A collapsed control without segments.
    pub fn new() -> (state: Self)
        ensures
            state@.expanded == false,
            state@.behavior == ExpandBehavior::OnClick,
            state@.visible == Seq::<bool>::empty(),
    {
        SegmentedState { expanded: false, behavior: ExpandBehavior::OnClick, visible: Vec::new() }
    }

    /// Whether the extra segments are currently revealed.
    pub fn is_expanded(&self) -> (expanded: bool)
        ensures
            expanded == self@.expanded,
    {
        self.expanded
    }

    /// The current expand trigger.
    pub fn behavior(&self) -> (behavior: ExpandBehavior)
        ensures
            behavior == self@.behavior,
    {
        self.behavior
    }

    /// The number of segments added so far.
    pub fn count(&self) -> (count: usize)
        ensures
            count == self@.visible.len(),
    {
        self.visible.len()
    }

    /// Opens or closes the control, as pointer and idle events do.
    pub fn set_expanded_internal(&mut self, value: bool) -> (change: Option<bool>)
        ensures
            final(self)@ == spec_set_expanded(old(self)@, value),
            change == reported(old(self)@, final(self)@),
    {
        if self.expanded == value {
            return None;
        }
        self.expanded = value;
        Some(value)
    }

    /// Adds a shown segment at the end; returns whether it is the first one,
    /// the trigger.
    pub fn add_segment(&mut self) -> (is_trigger: bool)
        requires
            old(self)@.visible.len() < usize::MAX,
        ensures
            final(self)@ == (SegmentedView { visible: old(self)@.visible.push(true), ..old(self)@ }),
            is_trigger == (old(self)@.visible.len() == 0),
    {
        let is_trigger = self.visible.len() == 0;
        self.visible.push(true);
        is_trigger
    }

    /// Pressing the first segment.
    pub fn click_first(&mut self) -> (change: Option<bool>)
        ensures
            final(self)@ == spec_click_first(old(self)@),
            change == reported(old(self)@, final(self)@),
    {
        if self.behavior == ExpandBehavior::AlwaysExpanded || self.behavior
            == ExpandBehavior::OnHover {
            return None;
        }
        let next = !self.expanded;
        self.set_expanded_internal(next)
    }

    /// Shows or hides the segment `index` (0 is the trigger). Returns whether
    /// there is such a segment, and the new expanded state if it changed.
    pub fn set_icon_visible(&mut self, index: usize, visible: bool) -> (result: (bool, Option<bool>))
        ensures
            final(self)@ == spec_set_icon_visible(old(self)@, index as int, visible),
            result.0 == (index < old(self)@.visible.len()),
            result.1 == reported(old(self)@, final(self)@),
    {
        if index >= self.visible.len() {
            return (false, None);
        }
        self.visible.set(index, visible);
        if !visible && index > 0 && self.expanded {
            let any_visible = self.any_extra_visible();
            if !any_visible {
                let change = self.set_expanded_internal(false);
                return (true, change);
            }
        }
        (true, None)
    }

    /// Whether some segment after the first is shown.
    fn any_extra_visible(&self) -> (any: bool)
        ensures
            any == extra_visible(self@.visible),
    {
        let n = self.visible.len();
        let mut j: usize = 1;
        while j < n
            invariant
                n == self@.visible.len(),
                1 <= j,
                forall|k: int| 1 <= k < j && k < n ==> !self@.visible[k],
            decreases n - j,
        {
            if self.visible[j] {
                return true;
            }
            j = j + 1;
        }
        false
    }

    /// Switches the expand trigger; can be called after segments were added.
    pub fn set_expand_behavior(&mut self, behavior: ExpandBehavior) -> (update: BehaviorUpdate)
        ensures
            final(self)@ == spec_set_behavior(old(self)@, behavior),
            update.hover_controller == (behavior == ExpandBehavior::OnHover),
            update.expanded_change == reported(old(self)@, final(self)@),
    {
        self.behavior = behavior;
        match behavior {
            ExpandBehavior::OnHover => BehaviorUpdate { hover_controller: true, expanded_change: None },
            ExpandBehavior::AlwaysExpanded => {
                let change = self.set_expanded_internal(true);
                BehaviorUpdate { hover_controller: false, expanded_change: change }
            },
            ExpandBehavior::OnClick => BehaviorUpdate {
                hover_controller: false,
                expanded_change: None,
            },
        }
    }
}

/// Pressing the first segment of a control that expands on hover or is
/// always expanded changes nothing.
pub proof fn lemma_click_only_toggles_on_click(s: SegmentedView)
    requires
        s.behavior != ExpandBehavior::OnClick,
    ensures
        spec_click_first(s) == s,
{
}

/// With `OnClick`, pressing the first segment toggles the control, and
/// pressing it twice gives back the state it started in.
pub proof fn lemma_click_toggles(s: SegmentedView)
    requires
        s.behavior == ExpandBehavior::OnClick,
    ensures
        spec_click_first(s).expanded == !s.expanded,
        spec_click_first(spec_click_first(s)) == s,
{
}

/// Switching to `AlwaysExpanded` leaves the control expanded, and pressing
/// the first segment afterwards keeps it so.
pub proof fn lemma_always_expanded_opens(s: SegmentedView)
    ensures
        spec_set_behavior(s, ExpandBehavior::AlwaysExpanded).expanded,
        spec_click_first(spec_set_behavior(s, ExpandBehavior::AlwaysExpanded)).expanded,
{
}

/// Showing or hiding segments never changes the trigger nor the number of
/// segments, and never expands the control.
pub proof fn lemma_visibility_keeps_shape(s: SegmentedView, index: int, visible: bool)
    ensures
        spec_set_icon_visible(s, index, visible).behavior == s.behavior,
        spec_set_icon_visible(s, index, visible).visible.len() == s.visible.len(),
        spec_set_icon_visible(s, index, visible).expanded ==> s.expanded,
{
}

/// An expanded control whose last shown extra segment is hidden collapses,
/// so the control never stays open onto an empty slot.
pub proof fn lemma_hiding_last_extra_collapses(s: SegmentedView, index: int)
    requires
        s.expanded,
        1 <= index < s.visible.len(),
    ensures
        spec_set_icon_visible(s, index, false).expanded == extra_visible(
            spec_set_icon_visible(s, index, false).visible,
        ),
{
}

/// Hiding an extra segment (any segment at index 1 or later) never collapses
/// an expanded control while another extra segment is still shown.
pub proof fn lemma_hiding_keeps_open_while_another_shown(s: SegmentedView, i: int, j: int)
    requires
        1 <= i < s.visible.len(),
        1 <= j < s.visible.len(),
        i != j,
        s.expanded,
        s.visible[j],
    ensures
        spec_set_icon_visible(s, i, false).expanded,
        spec_set_icon_visible(s, i, false).visible[i] == false,
        spec_set_icon_visible(s, i, false).visible[j],
{
    assert(s.visible.update(i, false)[j]);
}

/// Showing a segment never changes whether the control is expanded, and the
/// segment is shown afterwards.
pub proof fn lemma_showing_keeps_expanded(s: SegmentedView, i: int)
    requires
        0 <= i < s.visible.len(),
    ensures
        spec_set_icon_visible(s, i, true).expanded == s.expanded,
        spec_set_icon_visible(s, i, true).visible[i],
{
}

/// Switching to `OnClick` or `OnHover` sets the behaviour, leaves the expanded
/// state as it was and keeps the segments; only `AlwaysExpanded` opens the control.
pub proof fn lemma_switch_keeps_expanded(s: SegmentedView, behavior: ExpandBehavior)
    ensures
        spec_set_behavior(s, behavior).behavior == behavior,
        spec_set_behavior(s, behavior).visible == s.visible,
        behavior != ExpandBehavior::AlwaysExpanded ==> spec_set_behavior(s, behavior).expanded
            == s.expanded,
        behavior != ExpandBehavior::AlwaysExpanded ==> reported(s, spec_set_behavior(s, behavior))
            is None,
{
}

} // verus!
