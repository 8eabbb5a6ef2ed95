//! Dashboard layout configuration.
//!
//! The widget grid the presentation layer renders: which widgets exist, where
//! they sit, and named layout profiles. Missing widgets are merged in from
//! the default set without disturbing the user's arrangement.

use vstd::prelude::*;
use vstd::string::StringExecFns;

verus! {

/// Individual dashboard widget configuration.
#[derive(Debug, Clone)]
pub struct DashboardWidget {
    /// Widget identifier.
    pub id: String,
    pub visible: bool,
    /// "small", "medium" or "large".
    pub size: String,
    /// Position in the grid (lower = earlier).
    pub position: u32,
    /// Grid column (1-based).
    pub col: u32,
    /// Grid row (1-based).
    pub row: u32,
    pub col_span: u32,
    pub row_span: u32,
    /// "text", "bar", "radial" or "chart".
    pub display_mode: String,
    /// Whether estimation widgets show the energy line.
    pub show_wh: bool,
}

/// A named layout profile.
#[derive(Debug, Clone)]
pub struct LayoutProfile {
    pub name: String,
    pub widgets: Vec<DashboardWidget>,
    /// "normal", "minimize" or "hard".
    pub global_display: String,
}

/// Dashboard layout configuration.
#[derive(Debug, Clone)]
pub struct DashboardConfig {
    /// "default" or "custom".
    pub layout: String,
    pub global_display: String,
    pub widgets: Vec<DashboardWidget>,
    /// Active profile name; empty means no profile.
    pub active_profile: String,
    pub profiles: Vec<LayoutProfile>,
}

/// One default widget.
fn default_widget(
    id: &str,
    size: &str,
    position: u32,
    col: u32,
    row: u32,
    col_span: u32,
    row_span: u32,
    display_mode: &str,
) -> (r: DashboardWidget)
    ensures
        r.id@ == id@,
        r.visible,
        r.position == position,
        r.col == col,
        r.row == row,
        r.col_span == col_span,
        r.row_span == row_span,
        r.show_wh,
{
    DashboardWidget {
        id: String::from_str(id),
        visible: true,
        size: String::from_str(size),
        position,
        col,
        row,
        col_span,
        row_span,
        display_mode: String::from_str(display_mode),
        show_wh: true,
    }
}

/// The id of the m-th default widget.
pub open spec fn spec_default_widget_id(m: int) -> Seq<char> {
    if m == 0 {
        "cpu"@
    } else if m == 1 {
        "gpu"@
    } else if m == 2 {
        "ram"@
    } else if m == 3 {
        "processes"@
    } else if m == 4 {
        "power"@
    } else if m == 5 {
        "surplus"@
    } else if m == 6 {
        "session_controls"@
    } else if m == 7 {
        "session_cost"@
    } else if m == 8 {
        "session_energy"@
    } else if m == 9 {
        "monthly_estimate"@
    } else if m == 10 {
        "session_duration"@
    } else if m == 11 {
        "daily_estimate"@
    } else {
        "hourly_estimate"@
    }
}

/// Some widget of the list carries this id.
pub open spec fn spec_widgets_have_id(ws: Seq<DashboardWidget>, id: Seq<char>) -> bool {
    exists|i: int| 0 <= i < ws.len() && ws[i].id@ == id
}

/// The default widget set: three radials, the process list, and the power,
/// surplus, session and estimate panels, filling a twelve-column grid.
pub fn default_dashboard_widgets() -> (r: Vec<DashboardWidget>)
    ensures
        r@.len() == 13,
        forall|m: int| 0 <= m < 13 ==> (#[trigger] r@[m]).id@ == spec_default_widget_id(m),
{
    let mut v: Vec<DashboardWidget> = Vec::new();
    v.push(default_widget("cpu", "small", 7, 1, 1, 3, 3, "radial"));
    v.push(default_widget("gpu", "small", 8, 4, 1, 3, 3, "radial"));
    v.push(default_widget("ram", "small", 9, 7, 1, 3, 3, "radial"));
    v.push(default_widget("processes", "large", 11, 10, 1, 3, 3, "text"));
    v.push(default_widget("power", "large", 0, 1, 4, 4, 3, "text"));
    v.push(default_widget("surplus", "small", 10, 5, 4, 2, 2, "text"));
    v.push(default_widget("session_controls", "small", 12, 5, 6, 2, 2, "text"));
    v.push(default_widget("session_cost", "small", 2, 7, 4, 3, 1, "text"));
    v.push(default_widget("session_energy", "small", 1, 7, 5, 3, 1, "text"));
    v.push(default_widget("monthly_estimate", "small", 5, 7, 6, 3, 1, "text"));
    v.push(default_widget("session_duration", "small", 6, 10, 4, 3, 1, "text"));
    v.push(default_widget("daily_estimate", "small", 4, 10, 5, 3, 1, "text"));
    v.push(default_widget("hourly_estimate", "small", 3, 10, 6, 3, 1, "text"));
    v
}

impl DashboardConfig {
    /// The default dashboard: the default layout with the default widgets.
    pub fn new_default() -> (r: Self)
        ensures
            r.layout@ == "default"@,
            r.global_display@ == "normal"@,
            r.widgets@.len() == 13,
            r.active_profile@ == Seq::<char>::empty(),
            r.profiles@.len() == 0,
    {
        DashboardConfig {
            layout: String::from_str("default"),
            global_display: String::from_str("normal"),
            widgets: default_dashboard_widgets(),
            active_profile: String::new(),
            profiles: Vec::new(),
        }
    }

    /// A widget id is present in the configuration.
    pub open spec fn spec_has_widget(&self, id: Seq<char>) -> bool {
        spec_widgets_have_id(self.widgets@, id)
    }

    /// Whether a widget with the given id exists.
    pub fn has_widget(&self, id: &String) -> (r: bool)
        ensures
            r == self.spec_has_widget(id@),
    {
        let mut i: usize = 0;
        while i < self.widgets.len()
            invariant
                0 <= i <= self.widgets@.len(),
                forall|k: int| 0 <= k < i ==> self.widgets@[k].id@ != id@,
            decreases self.widgets@.len() - i,
        {
            if self.widgets[i].id == *id {
                return true;
            }
            i = i + 1;
        }
        false
    }

    /// Merge any widget of the default set that is missing here, appending
    /// it below the existing arrangement. Existing widgets are untouched,
    /// and afterwards every default widget id is present.
    #[verifier::loop_isolation(false)]
    pub fn merge_missing_widgets(&mut self)
        ensures
            // Nothing existing moves.
            final(self).widgets@.len() >= old(self).widgets@.len(),
            forall|i: int|
                0 <= i < old(self).widgets@.len() ==> final(self).widgets@[i] == old(
                    self,
                ).widgets@[i],
            final(self).layout == old(self).layout,
            final(self).global_display == old(self).global_display,
            final(self).active_profile == old(self).active_profile,
            final(self).profiles == old(self).profiles,
            // Every default widget is present afterwards.
            forall|m: int|
                0 <= m < 13 ==> spec_widgets_have_id(
                    final(self).widgets@,
                    spec_default_widget_id(m),
                ),
    {
        let defaults = default_dashboard_widgets();
        let mut d: usize = 0;
        let ghost orig = self.widgets@;
        while d < defaults.len()
            invariant
                0 <= d <= 13,
                self.widgets@.len() >= orig.len(),
                forall|i: int| 0 <= i < orig.len() ==> self.widgets@[i] == orig[i],
                self.layout == old(self).layout,
                self.global_display == old(self).global_display,
                self.active_profile == old(self).active_profile,
                self.profiles == old(self).profiles,
                orig == old(self).widgets@,
                forall|m: int|
                    0 <= m < d ==> spec_widgets_have_id(
                        self.widgets@,
                        spec_default_widget_id(m),
                    ),
            decreases defaults@.len() - d,
        {
            let dw = &defaults[d];
            let ghost pre = self.widgets@;
            if self.has_widget(&dw.id) {
                proof {
                    assert(spec_widgets_have_id(self.widgets@, spec_default_widget_id(d as int)));
                }
            } else {
                // Place the merged widget at the end of the grid.
                let mut max_pos: u32 = 0;
                let mut max_row: u32 = 1;
                let mut t: usize = 0;
                while t < self.widgets.len()
                    invariant
                        0 <= t <= self.widgets@.len(),
                        max_row >= 1,
                    decreases self.widgets@.len() - t,
                {
                    let w = &self.widgets[t];
                    if w.position > max_pos {
                        max_pos = w.position;
                    }
                    let end_row: u32 = if w.row <= 0xFFFF_FFFF - w.row_span {
                        w.row + w.row_span
                    } else {
                        0xFFFF_FFFF
                    };
                    if end_row > max_row {
                        max_row = end_row;
                    }
                    t = t + 1;
                }
                let new_widget = DashboardWidget {
                    id: dw.id.clone(),
                    visible: dw.visible,
                    size: dw.size.clone(),
                    position: if max_pos < 0xFFFF_FFFF {
                        max_pos + 1
                    } else {
                        max_pos
                    },
                    col: 1,
                    row: max_row,
                    col_span: dw.col_span,
                    row_span: dw.row_span,
                    display_mode: dw.display_mode.clone(),
                    show_wh: dw.show_wh,
                };
                self.widgets.push(new_widget);
                proof {
                    assert(self.widgets@[self.widgets@.len() - 1].id@ == spec_default_widget_id(
                        d as int,
                    ));
                    assert forall|m: int| 0 <= m < d + 1 implies spec_widgets_have_id(
                        self.widgets@,
                        spec_default_widget_id(m),
                    ) by {
                        if m < d {
                            let i = choose|i: int|
                                0 <= i < pre.len() && pre[i].id@ == spec_default_widget_id(m);
                            assert(self.widgets@[i].id@ == pre[i].id@);
                        }
                    }
                }
            }
            d = d + 1;
        }
    }
}

} // verus!
