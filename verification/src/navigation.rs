//! Back/forward navigation history of a tab.
use vstd::prelude::*;

verus! {

/// The abstract state of a navigation history.
pub struct HistoryView {
    /// Pages behind the current one, oldest first.
    pub back: Seq<String>,
    /// Pages ahead of the current one, nearest first.
    pub forward: Seq<String>,
    /// The current page.
    pub current: Option<String>,
}

impl HistoryView {
    /// There is nothing behind or ahead of a history without a current page.
    pub open spec fn wf(self) -> bool {
        (self.back.len() > 0 || self.forward.len() > 0) ==> self.current is Some
    }

    /// The history after navigating to `url`.
    pub open spec fn navigated(self, url: String) -> HistoryView {
        HistoryView {
            back: match self.current {
                Some(c) => self.back.push(c),
                None => self.back,
            },
            forward: Seq::<String>::empty(),
            current: Some(url),
        }
    }

    /// The history after going back one page (unchanged when there is none).
    pub open spec fn went_back(self) -> HistoryView {
        if self.back.len() == 0 {
            self
        } else {
            HistoryView {
                back: self.back.drop_last(),
                forward: match self.current {
                    Some(c) => seq![c] + self.forward,
                    None => self.forward,
                },
                current: Some(self.back.last()),
            }
        }
    }

    /// The history after going forward one page (unchanged when there is
    /// none).
    pub open spec fn went_forward(self) -> HistoryView {
        if self.forward.len() == 0 {
            self
        } else {
            HistoryView {
                back: match self.current {
                    Some(c) => self.back.push(c),
                    None => self.back,
                },
                forward: self.forward.drop_first(),
                current: Some(self.forward[0]),
            }
        }
    }
}

/// Going back and then forward again returns to the same history, when
/// there was a page to go back to.
pub proof fn law_back_then_forward(h: HistoryView)
    requires
        h.wf(),
        h.back.len() > 0,
    ensures
        h.went_back().wf(),
        h.went_back().went_forward() == h,
{
    let b = h.went_back();
    assert(b.forward[0] == h.current.unwrap());
    assert(b.forward.drop_first() =~= h.forward);
    assert(b.back.push(b.current.unwrap()) =~= h.back);
}

/// Going forward and then back again returns to the same history, when
/// there was a page to go forward to.
pub proof fn law_forward_then_back(h: HistoryView)
    requires
        h.wf(),
        h.forward.len() > 0,
    ensures
        h.went_forward().wf(),
        h.went_forward().went_back() == h,
{
    let f = h.went_forward();
    assert(f.back.drop_last() =~= h.back);
    assert(seq![f.current.unwrap()] + f.forward =~= h.forward);
}

/// After a navigation there is nothing to go forward to, and going back
/// leads to the page that was current, if any.
pub proof fn law_navigate_clears_forward(h: HistoryView, url: String)
    requires
        h.wf(),
    ensures
        h.navigated(url).wf(),
        h.navigated(url).forward.len() == 0,
        h.navigated(url).current == Some(url),
        h.current is Some ==> h.navigated(url).went_back().current == h.current,
{
}

/// Navigation history for a single tab.
#[derive(Debug)]
pub struct NavigationHistory {
    back_stack: Vec<String>,
    forward_stack: Vec<String>,
    current: Option<String>,
}

impl View for NavigationHistory {
    type V = HistoryView;

    closed spec fn view(&self) -> HistoryView {
        HistoryView {
            back: self.back_stack@,
            forward: self.forward_stack@.reverse(),
            current: self.current,
        }
    }
}

impl NavigationHistory {
    /// An empty history.
    pub fn new() -> (h: NavigationHistory)
        ensures
            h@.wf(),
            h@.back == Seq::<String>::empty(),
            h@.forward == Seq::<String>::empty(),
            h@.current is None,
    {
        let h = NavigationHistory { back_stack: Vec::new(), forward_stack: Vec::new(), current: None };
        assert(h.forward_stack@.reverse() =~= Seq::<String>::empty());
        h
    }

    /// Navigate to a new URL: the current page goes behind, and nothing is
    /// ahead any more.
    pub fn navigate(&mut self, url: String)
        requires
            old(self)@.wf(),
        ensures
            final(self)@ == old(self)@.navigated(url),
            final(self)@.wf(),
    {
        let previous = self.current.take();
        match previous {
            Some(c) => self.back_stack.push(c),
            None => {},
        }
        self.forward_stack.clear();
        self.current = Some(url);
        assert(self.forward_stack@.reverse() =~= Seq::<String>::empty());
    }

    /// Go back one page; returns the page gone back to.
    pub fn go_back(&mut self) -> (r: Option<String>)
        requires
            old(self)@.wf(),
        ensures
            final(self)@ == old(self)@.went_back(),
            final(self)@.wf(),
            r == (if old(self)@.back.len() > 0 {
                Some(old(self)@.back.last())
            } else {
                None::<String>
            }),
    {
        match self.back_stack.pop() {
            Some(prev) => {
                let previous = self.current.take();
                match previous {
                    Some(c) => {
                        self.forward_stack.push(c);
                        assert(self.forward_stack@.reverse() =~= seq![c] + old(
                            self,
                        ).forward_stack@.reverse());
                    },
                    None => {},
                }
                self.current = Some(prev.clone());
                Some(prev)
            },
            None => None,
        }
    }

    /// Go forward one page; returns the page gone forward to.
    pub fn go_forward(&mut self) -> (r: Option<String>)
        requires
            old(self)@.wf(),
        ensures
            final(self)@ == old(self)@.went_forward(),
            final(self)@.wf(),
            r == (if old(self)@.forward.len() > 0 {
                Some(old(self)@.forward[0])
            } else {
                None::<String>
            }),
    {
        match self.forward_stack.pop() {
            Some(next) => {
                proof {
                    let fs = old(self).forward_stack@;
                    assert(fs.reverse()[0] == fs.last());
                    assert(self.forward_stack@.reverse() =~= fs.reverse().drop_first());
                }
                let previous = self.current.take();
                match previous {
                    Some(c) => self.back_stack.push(c),
                    None => {},
                }
                self.current = Some(next.clone());
                Some(next)
            },
            None => None,
        }
    }

    /// Whether there is a page to go back to.
    pub fn can_go_back(&self) -> (b: bool)
        ensures
            b == (self@.back.len() > 0),
    {
        self.back_stack.len() > 0
    }

    /// Whether there is a page to go forward to.
    pub fn can_go_forward(&self) -> (b: bool)
        ensures
            b == (self@.forward.len() > 0),
    {
        self.forward_stack.len() > 0
    }

    /// The current page.
    pub fn current_url(&self) -> (r: Option<&String>)
        ensures
            match r {
                Some(u) => self@.current == Some(*u),
                None => self@.current is None,
            },
    {
        self.current.as_ref()
    }
}

} // verus!

verus! {

impl Default for NavigationHistory {
    /// An empty history.
    fn default() -> (h: Self)
        ensures
            h@.wf(),
            h@.back == Seq::<String>::empty(),
            h@.forward == Seq::<String>::empty(),
            h@.current is None,
    {
        NavigationHistory::new()
    }
}

} // verus!

verus! {

impl Clone for NavigationHistory {
    /// A copy of this history.
    fn clone(&self) -> (h: NavigationHistory)
        ensures
            h@ == self@,
    {
        NavigationHistory {
            back_stack: self.back_stack.clone(),
            forward_stack: self.forward_stack.clone(),
            current: self.current.clone(),
        }
    }
}

} // verus!
