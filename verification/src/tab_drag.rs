//! Dragging a tab along the tab bar: which tab is dragged, from where, and
//! where it would land.  Positions are whole pixels.
use vstd::prelude::*;
use crate::seqs::{first_match, lemma_first_match_at, lemma_first_match_none};
use crate::types::TabId;

verus! {

/// A point on the screen, in pixels.
#[derive(Debug, Clone, Copy, PartialEq, Eq, Structural)]
pub struct DragPoint {
    pub x: i32,
    pub y: i32,
}

/// The horizontal extent of a tab on the tab bar, in pixels.
#[derive(Debug, Clone, Copy, PartialEq, Eq, Structural)]
pub struct TabSpan {
    pub tab_id: TabId,
    pub left: i32,
    pub right: i32,
}

/// The point lies left of the tab's centre.
pub open spec fn left_of_centre(x: i32) -> spec_fn(TabSpan) -> bool {
    |s: TabSpan| 2 * x < s.left + s.right
}

/// Where a tab dragged to `x` would land: before the first tab whose centre
/// lies right of `x`, or after all of them.
pub open spec fn drop_index(spans: Seq<TabSpan>, x: i32) -> int {
    match first_match(spans, left_of_centre(x)) {
        Some(i) => i,
        None => spans.len() as int,
    }
}

/// Where a tab dragged to `x` would land among `spans`.
fn drop_index_of(spans: &[TabSpan], x: i32) -> (r: usize)
    ensures
        r == drop_index(spans@, x),
{
    let n = spans.len();
    let mut i: usize = 0;
    while i < n
        invariant
            n == spans@.len(),
            i <= n,
            forall|j: int| 0 <= j < i ==> !left_of_centre(x)(#[trigger] spans@[j]),
        decreases n - i,
    {
        let s = spans[i];
        let twice: i64 = 2 * (x as i64);
        let sum: i64 = (s.left as i64) + (s.right as i64);
        if twice < sum {
            proof {
                lemma_first_match_at(spans@, left_of_centre(x), i as int);
            }
            return i;
        }
        i += 1;
    }
    proof {
        lemma_first_match_none(spans@, left_of_centre(x));
    }
    n
}

/// The progress of a tab drag.
#[derive(Debug, Clone, Copy, PartialEq, Eq, Structural)]
pub struct TabDragState {
    /// The tab being dragged, if any.
    pub dragging_tab: Option<TabId>,
    pub drag_start_pos: Option<DragPoint>,
    pub current_drag_pos: Option<DragPoint>,
    /// Where the tab would land if released now.
    pub drop_target_index: Option<usize>,
    /// Where the tab was when the drag started.
    pub original_index: Option<usize>,
}

/// No drag in progress.
pub open spec fn no_drag() -> TabDragState {
    TabDragState {
        dragging_tab: None,
        drag_start_pos: None,
        current_drag_pos: None,
        drop_target_index: None,
        original_index: None,
    }
}

impl Default for TabDragState {
    fn default() -> (s: Self)
        ensures
            s == no_drag(),
    {
        TabDragState {
            dragging_tab: None,
            drag_start_pos: None,
            current_drag_pos: None,
            drop_target_index: None,
            original_index: None,
        }
    }
}

impl TabDragState {
    /// No drag in progress.
    pub fn new() -> (s: Self)
        ensures
            s == no_drag(),
    {
        Self::default()
    }

    /// Whether a tab is being dragged.
    pub fn is_dragging(&self) -> (b: bool)
        ensures
            b == self.dragging_tab is Some,
    {
        self.dragging_tab.is_some()
    }

    /// Start dragging the tab at `index` from `pos`; it would land where it
    /// is.
    pub fn start_drag(&mut self, tab_id: TabId, pos: DragPoint, index: usize)
        ensures
            *final(self) == (TabDragState {
                dragging_tab: Some(tab_id),
                drag_start_pos: Some(pos),
                current_drag_pos: Some(pos),
                drop_target_index: Some(index),
                original_index: Some(index),
            }),
    {
        self.dragging_tab = Some(tab_id);
        self.drag_start_pos = Some(pos);
        self.current_drag_pos = Some(pos);
        self.original_index = Some(index);
        self.drop_target_index = Some(index);
    }

    /// Follow the pointer, while dragging.
    pub fn update_drag(&mut self, pos: DragPoint)
        ensures
            old(self).dragging_tab is Some ==> *final(self) == (TabDragState {
                current_drag_pos: Some(pos),
                ..*old(self)
            }),
            old(self).dragging_tab is None ==> *final(self) == *old(self),
    {
        if self.is_dragging() {
            self.current_drag_pos = Some(pos);
        }
    }

    /// Finish the drag.  When the tab would land elsewhere than it started,
    /// the tab with its old and new place is returned.  No drag is left in
    /// progress.
    pub fn end_drag(&mut self) -> (r: Option<(TabId, usize, usize)>)
        ensures
            *final(self) == no_drag(),
            r == (match (old(self).dragging_tab, old(self).original_index, old(self).drop_target_index) {
                (Some(t), Some(o), Some(d)) => if o != d {
                    Some((t, o, d))
                } else {
                    None
                },
                _ => None,
            }),
    {
        let result = match (self.dragging_tab, self.original_index, self.drop_target_index) {
            (Some(tab_id), Some(original), Some(target)) => {
                if original != target {
                    Some((tab_id, original, target))
                } else {
                    None
                }
            },
            _ => None,
        };
        self.cancel_drag();
        result
    }

    /// Abandon the drag.
    pub fn cancel_drag(&mut self)
        ensures
            *final(self) == no_drag(),
    {
        self.dragging_tab = None;
        self.drag_start_pos = None;
        self.current_drag_pos = None;
        self.drop_target_index = None;
        self.original_index = None;
    }

    /// Work out where the tab would land, from the pointer and the extents
    /// of the tabs in order; nothing changes without a pointer position.
    pub fn calculate_drop_target(&mut self, tab_rects: &[TabSpan])
        ensures
            match old(self).current_drag_pos {
                Some(p) => *final(self) == (TabDragState {
                    drop_target_index: Some(drop_index(tab_rects@, p.x) as usize),
                    ..*old(self)
                }),
                None => *final(self) == *old(self),
            },
    {
        match self.current_drag_pos {
            Some(p) => {
                let target = drop_index_of(tab_rects, p.x);
                self.drop_target_index = Some(target);
            },
            None => {},
        }
    }
}

/// Where the drop indicator stands for a drop at `index`: at the left edge
/// of the first tab for the front, at the right edge of the last tab for
/// the end, otherwise at the right edge of the tab before the gap.  With no
/// tab there is no indicator.
pub open spec fn indicator_x_spec(spans: Seq<TabSpan>, index: int) -> Option<i32> {
    if spans.len() == 0 {
        None
    } else if index == 0 {
        Some(spans[0].left)
    } else if index >= spans.len() {
        Some(spans.last().right)
    } else {
        Some(spans[index - 1].right)
    }
}

/// Where the drop indicator stands for a drop at `index` among `spans`.
pub fn indicator_x(spans: &[TabSpan], index: usize) -> (r: Option<i32>)
    ensures
        r == indicator_x_spec(spans@, index as int),
{
    let n = spans.len();
    if n == 0 {
        None
    } else if index == 0 {
        Some(spans[0].left)
    } else if index >= n {
        Some(spans[n - 1].right)
    } else {
        Some(spans[index - 1].right)
    }
}

} // verus!
