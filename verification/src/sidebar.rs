//! The decisions of a window's sidebar split view: which sidebar owns the
//! window, when the sidebar item collapses or expands to follow a controlled
//! `open` prop, when a native change is reported, and which widths are
//! applied. The widths themselves are floating point and stay with the
//! caller; the decisions take the comparisons it made as arguments.
use vstd::prelude::*;

verus! {

/// Which sidebar, if any, is mounted in a window.
#[derive(Debug, Clone)]
pub struct SidebarSlot {
    pub owner: Option<String>,
}

impl SidebarSlot {
    pub fn new() -> (s: Self)
        ensures
            s.owner is None,
    {
        SidebarSlot { owner: None }
    }

    /// Whether the sidebar registered as `owner` is the mounted one.
    pub fn owns(&self, owner: &String) -> (r: bool)
        ensures
            r == (self.owner is Some && self.owner.unwrap()@ == owner@),
    {
        match &self.owner {
            Some(current) => *current == *owner,
            None => false,
        }
    }

    /// Mounts the sidebar `owner`. A window holds at most one sidebar.
    pub fn mount(&mut self, owner: String)
        requires
            old(self).owner is None,
        ensures
            final(self).owner == Some(owner),
    {
        self.owner = Some(owner);
    }

    /// Unmounts the sidebar `owner` if it is the mounted one, returning
    /// whether it was (the window then shows its main content again).
    pub fn unmount(&mut self, owner: &String) -> (r: bool)
        ensures
            r == (old(self).owner is Some && old(self).owner.unwrap()@ == owner@),
            final(self).owner == (if r {
                None
            } else {
                old(self).owner
            }),
    {
        if self.owns(owner) {
            self.owner = None;
            true
        } else {
            false
        }
    }
}

/// A change of the sidebar item's collapsed state.
#[derive(Debug, Clone, Copy, PartialEq, Eq, Structural)]
pub enum OpenAction {
    /// Leave the item as it is.
    Keep,
    /// Set the item's collapsed state; when it opens, apply the sizing props
    /// afterwards.
    SetCollapsed { collapsed: bool, apply_sizing: bool },
}

/// What a native open/close change reports.
#[derive(Debug, Clone, Copy, PartialEq, Eq, Structural)]
pub struct OpenReport {
    /// Whether the open state differs from the last one seen.
    pub changed: bool,
    /// The open state to pass to `on_open_change`, when it differs from the
    /// controlled `open` prop.
    pub notify: Option<bool>,
    /// What re-applying a controlled `open` prop does to the item.
    pub reapply: OpenAction,
}

/// The collapsed state of the item once `action` has been carried out on an
/// item whose collapsed state was `collapsed`.
pub open spec fn collapsed_after(action: OpenAction, collapsed: bool) -> bool {
    match action {
        OpenAction::Keep => collapsed,
        OpenAction::SetCollapsed { collapsed: c, .. } => c,
    }
}

/// What making the item follow the controlled `open` prop does, for an item
/// that is installed (`has_item`) with collapsed state `collapsed`.
pub open spec fn open_action(has_item: bool, open: Option<bool>, collapsed: bool) -> OpenAction {
    match open {
        Some(o) if has_item && collapsed == o => OpenAction::SetCollapsed {
            collapsed: !o,
            apply_sizing: o,
        },
        _ => OpenAction::Keep,
    }
}

/// Where the sidebar's minimum thickness comes from.
#[derive(Debug, Clone, Copy, PartialEq, Eq, Structural)]
pub enum MinimumSource {
    /// Leave the minimum thickness as it is.
    Unchanged,
    /// The validated `min_width` prop.
    MinWidthProp,
    /// The minimum thickness the item had when it was installed.
    NativeMinimum,
}

/// Where the divider is moved to.
#[derive(Debug, Clone, Copy, PartialEq, Eq, Structural)]
pub enum PositionSource {
    /// Leave the divider where it is.
    Unchanged,
    /// The `width` prop, raised to `min_width`.
    EffectiveWidth,
    /// The `min_width` prop (the sidebar is narrower than it).
    MinWidth,
}

/// What applying the sizing props does.
#[derive(Debug, Clone, Copy, PartialEq, Eq, Structural)]
pub struct SizingPlan {
    pub minimum: MinimumSource,
    pub position: PositionSource,
}

/// Which position the divider is constrained to while the user drags it.
#[derive(Debug, Clone, Copy, PartialEq, Eq, Structural)]
pub enum ConstrainedPosition {
    /// The position the user proposes.
    Proposed,
    /// The `width` prop, raised to `min_width`.
    EffectiveWidth,
    /// The current width, raised to `min_width`.
    CurrentWidth,
}

/// The non-floating-point state of a sidebar split view controller.
#[derive(Debug, Clone, Copy, PartialEq, Eq, Structural)]
pub struct SidebarSplitViewController {
    /// Whether the sidebar item is installed.
    pub has_item: bool,
    /// Whether the item's native minimum thickness was recorded.
    pub has_native_minimum: bool,
    /// The open state last seen or requested.
    pub last_open: Option<bool>,
}

impl SidebarSplitViewController {
    pub fn new() -> (c: Self)
        ensures
            !c.has_item,
            !c.has_native_minimum,
            c.last_open is None,
    {
        SidebarSplitViewController { has_item: false, has_native_minimum: false, last_open: None }
    }

    /// Installs the sidebar item whose collapsed state is `collapsed`. A
    /// controlled `open` prop decides the item's collapsed state; the returned
    /// value is the collapsed state to set, if any.
    pub fn set_sidebar_item(&mut self, open: Option<bool>, collapsed: bool) -> (r: Option<bool>)
        ensures
            final(self).has_item,
            final(self).has_native_minimum,
            r == (match open {
                Some(o) => Some(!o),
                None => None::<bool>,
            }),
            final(self).last_open == Some(
                match open {
                    Some(o) => o,
                    None => !collapsed,
                },
            ),
    {
        self.has_native_minimum = true;
        let now_collapsed = match open {
            Some(o) => !o,
            None => collapsed,
        };
        self.last_open = Some(!now_collapsed);
        self.has_item = true;
        match open {
            Some(o) => Some(!o),
            None => None,
        }
    }

    /// Makes the item follow the controlled `open` prop: when the item's
    /// collapsed state disagrees with it, the item is collapsed or expanded
    /// (and resized when it opens), and the new state is remembered.
    pub fn apply_open_prop(&mut self, open: Option<bool>, collapsed: bool) -> (r: OpenAction)
        ensures
            final(self).has_item == old(self).has_item,
            final(self).has_native_minimum == old(self).has_native_minimum,
            r == open_action(old(self).has_item, open, collapsed),
            final(self).last_open == (match r {
                OpenAction::Keep => old(self).last_open,
                OpenAction::SetCollapsed { .. } => open,
            }),
    {
        let o = match open {
            Some(o) => o,
            None => return OpenAction::Keep,
        };
        if !self.has_item {
            return OpenAction::Keep;
        }
        if collapsed == o {
            self.last_open = Some(o);
            OpenAction::SetCollapsed { collapsed: !o, apply_sizing: o }
        } else {
            OpenAction::Keep
        }
    }

    /// Reports a native change of the item's collapsed state, which is now
    /// `collapsed`. A change that was already seen reports nothing; otherwise
    /// it is remembered, it is passed to `on_open_change` when it differs from
    /// the controlled `open` prop, and a controlled prop that disagrees with it
    /// is applied again.
    pub fn report_native_open_change(&mut self, collapsed: bool, open: Option<bool>) -> (r:
        OpenReport)
        ensures
            final(self).has_item == old(self).has_item,
            final(self).has_native_minimum == old(self).has_native_minimum,
            !old(self).has_item || old(self).last_open == Some(!collapsed) ==> (r == OpenReport {
                changed: false,
                notify: None,
                reapply: OpenAction::Keep,
            }) && final(self).last_open == old(self).last_open,
            old(self).has_item && old(self).last_open != Some(!collapsed) ==> (r == OpenReport {
                changed: true,
                notify: (if open != Some(!collapsed) {
                    Some(!collapsed)
                } else {
                    None
                }),
                reapply: open_action(true, open, collapsed),
            }) && final(self).last_open == (match open {
                Some(o) => Some(o),
                None => Some(!collapsed),
            }),
    {
        if !self.has_item {
            return OpenReport { changed: false, notify: None, reapply: OpenAction::Keep };
        }
        let now_open = !collapsed;
        let unchanged = match self.last_open {
            Some(p) => p == now_open,
            None => false,
        };
        if unchanged {
            return OpenReport { changed: false, notify: None, reapply: OpenAction::Keep };
        }
        self.last_open = Some(now_open);
        let matches_prop = match open {
            Some(o) => o == now_open,
            None => false,
        };
        let notify = if matches_prop {
            None
        } else {
            Some(now_open)
        };
        let reapply = self.apply_open_prop(open, collapsed);
        OpenReport { changed: true, notify, reapply }
    }

    /// What applying the sizing props does. The minimum thickness is the
    /// `min_width` prop, or else the recorded native minimum. A collapsed item
    /// is not resized; an open one moves its divider to the effective width
    /// when a `width` prop is given, or else to `min_width` when the sidebar is
    /// narrower than it.
    pub fn apply_sizing_props(
        &self,
        has_width: bool,
        has_min_width: bool,
        collapsed: bool,
        current_below_min: bool,
    ) -> (r: SizingPlan)
        ensures
            !self.has_item ==> (r == SizingPlan {
                minimum: MinimumSource::Unchanged,
                position: PositionSource::Unchanged,
            }),
            self.has_item ==> r.minimum == (if has_min_width {
                MinimumSource::MinWidthProp
            } else if self.has_native_minimum {
                MinimumSource::NativeMinimum
            } else {
                MinimumSource::Unchanged
            }),
            self.has_item ==> r.position == (if collapsed {
                PositionSource::Unchanged
            } else if has_width {
                PositionSource::EffectiveWidth
            } else if has_min_width && current_below_min {
                PositionSource::MinWidth
            } else {
                PositionSource::Unchanged
            }),
    {
        if !self.has_item {
            return SizingPlan {
                minimum: MinimumSource::Unchanged,
                position: PositionSource::Unchanged,
            };
        }
        let minimum = if has_min_width {
            MinimumSource::MinWidthProp
        } else if self.has_native_minimum {
            MinimumSource::NativeMinimum
        } else {
            MinimumSource::Unchanged
        };
        let position = if collapsed {
            PositionSource::Unchanged
        } else if has_width {
            PositionSource::EffectiveWidth
        } else if has_min_width && current_below_min {
            PositionSource::MinWidth
        } else {
            PositionSource::Unchanged
        };
        SizingPlan { minimum, position }
    }

    /// The position the divider takes while the user drags it: a resizable
    /// sidebar, another divider, a missing or collapsed item, or a sidebar of
    /// no width keep the proposal; otherwise the effective width when a
    /// `width` prop is given, or else the current width.
    pub fn constrain_split_position(
        &self,
        divider_index: isize,
        resizable: bool,
        collapsed: bool,
        has_width: bool,
        current_width_positive: bool,
    ) -> (r: ConstrainedPosition)
        ensures
            r == (if divider_index != 0 || resizable || !self.has_item || collapsed {
                ConstrainedPosition::Proposed
            } else if has_width {
                ConstrainedPosition::EffectiveWidth
            } else if current_width_positive {
                ConstrainedPosition::CurrentWidth
            } else {
                ConstrainedPosition::Proposed
            }),
    {
        if divider_index != 0 || resizable || !self.has_item || collapsed {
            ConstrainedPosition::Proposed
        } else if has_width {
            ConstrainedPosition::EffectiveWidth
        } else if current_width_positive {
            ConstrainedPosition::CurrentWidth
        } else {
            ConstrainedPosition::Proposed
        }
    }
}

/// A controlled `open` prop wins: once the item of a mounted sidebar has
/// followed the prop, its open state is the requested one, whatever its
/// collapsed state was before.
///
/// The item is only touched when it disagrees with the prop: an item already
/// in the requested state, a missing item and an uncontrolled sidebar are
/// kept as they are; and the sizing props are applied exactly when the item
/// is opened.
pub proof fn law_controlled_open_wins(requested: bool, collapsed: bool, has_item: bool)
    ensures
        !collapsed_after(open_action(true, Some(requested), collapsed), collapsed) == requested,
        collapsed != requested ==> open_action(has_item, Some(requested), collapsed)
            == OpenAction::Keep,
        open_action(false, Some(requested), collapsed) == OpenAction::Keep,
        open_action(has_item, None, collapsed) == OpenAction::Keep,
        open_action(has_item, Some(requested), collapsed) matches OpenAction::SetCollapsed {
            collapsed: c,
            apply_sizing,
        } ==> apply_sizing == !c && c == !requested,
{
}

/// A native change that disagrees with a controlled `open` prop is undone: the
/// report re-applies the prop, and the item ends up in the requested state.
pub proof fn law_native_change_is_reverted(requested: bool, collapsed: bool)
    requires
        requested == collapsed,
    ensures
        open_action(true, Some(requested), collapsed) == (OpenAction::SetCollapsed {
            collapsed: !requested,
            apply_sizing: requested,
        }),
        !collapsed_after(open_action(true, Some(requested), collapsed), collapsed) == requested,
{
}

} // verus!
