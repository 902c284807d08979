//! The navigation controller.
//!
//! A single state machine turns discrete input events into state
//! transitions. Two panes exist: the story list and the story body; the
//! focused one receives scroll input. Fetching is asynchronous and pull
//! based: the controller never fetches itself, it answers an event with an
//! action, the caller performs any fetch, and hands the outcome back
//! through `fetch_completed` or `fetch_failed`. At most one fetch is
//! outstanding at a time; an input that would start another while one is
//! pending is dropped with no state change, while plain navigation stays
//! responsive. A failed fetch leaves the loaded stories and the selection
//! untouched.

use vstd::prelude::*;
use crate::sections::{SectionTabs, next_section_index};
use crate::stories::{NewsStory, StoryList, more_needed, next_sel, prev_sel};

verus! {

/// Which pane receives navigation input.
#[derive(PartialEq, Eq, Structural, Clone, Copy, Debug)]
pub enum Focus {
    SectionList,
    StoryBody,
}

/// A discrete input event, decoded from one key press.
#[derive(PartialEq, Eq, Structural, Clone, Copy, Debug)]
pub enum InputEvent {
    MoveDown,
    MoveUp,
    NextTab,
    FocusRight,
    FocusLeft,
    Refresh,
    CycleTheme,
    Quit,
}

/// The kind of fetch in flight: a section's first page, or the next page
/// of the current section.
#[derive(PartialEq, Eq, Structural, Clone, Copy, Debug)]
pub enum FetchKind {
    FirstPage,
    NextPage,
}

/// What the caller must do after an event is handled: nothing, terminate,
/// or fetch the given page of the selected section and hand the outcome
/// back.
#[derive(PartialEq, Eq, Structural, Clone, Copy, Debug)]
pub enum Action {
    Nothing,
    Quit,
    Fetch { page: u32 },
}

/// The body scroll one line down, saturating at the counter's maximum.
pub open spec fn scroll_down(s: u16) -> u16 {
    if s < u16::MAX {
        (s + 1) as u16
    } else {
        s
    }
}

/// The body scroll one line up, stopping at zero.
pub open spec fn scroll_up(s: u16) -> u16 {
    if s > 0 {
        (s - 1) as u16
    } else {
        0
    }
}

/// The theme index one forward, wrapping to the first of `count` themes.
pub open spec fn cycled(i: int, count: int) -> int {
    if i + 1 < count {
        i + 1
    } else {
        0
    }
}

/// The whole navigation state: the story collection, the section cursor,
/// the theme index among a fixed number of themes, the focused pane, the
/// body scroll, and the fetch in flight, if any.
pub struct App {
    pub story_list: StoryList,
    pub section_tabs: SectionTabs,
    pub theme_idx: usize,
    pub theme_count: usize,
    pub focus: Focus,
    pub story_scroll: u16,
    pub pending: Option<FetchKind>,
}

/// `pre` with the body scroll set to `s`.
pub open spec fn with_scroll(pre: App, s: u16) -> App {
    App {
        story_list: pre.story_list,
        section_tabs: pre.section_tabs,
        theme_idx: pre.theme_idx,
        theme_count: pre.theme_count,
        focus: pre.focus,
        story_scroll: s,
        pending: pre.pending,
    }
}

/// `pre` with the focus on `f`.
pub open spec fn with_focus(pre: App, f: Focus) -> App {
    App {
        story_list: pre.story_list,
        section_tabs: pre.section_tabs,
        theme_idx: pre.theme_idx,
        theme_count: pre.theme_count,
        focus: f,
        story_scroll: pre.story_scroll,
        pending: pre.pending,
    }
}

/// `pre` with the theme index moved one forward, wrapping.
pub open spec fn with_next_theme(pre: App) -> App {
    App {
        story_list: pre.story_list,
        section_tabs: pre.section_tabs,
        theme_idx: cycled(pre.theme_idx as int, pre.theme_count as int) as usize,
        theme_count: pre.theme_count,
        focus: pre.focus,
        story_scroll: pre.story_scroll,
        pending: pre.pending,
    }
}

/// `pre` with the selection one story forward and the body scroll reset.
pub open spec fn advance_selection(pre: App) -> App {
    App {
        story_list: StoryList {
            stories: pre.story_list.stories,
            selected: next_sel(pre.story_list.selected, pre.story_list.stories@.len() as int),
            current_page: pre.story_list.current_page,
        },
        section_tabs: pre.section_tabs,
        theme_idx: pre.theme_idx,
        theme_count: pre.theme_count,
        focus: pre.focus,
        story_scroll: 0u16,
        pending: pre.pending,
    }
}

/// `pre` with the selection one story back and the body scroll reset.
pub open spec fn retreat_selection(pre: App) -> App {
    App {
        story_list: StoryList {
            stories: pre.story_list.stories,
            selected: prev_sel(pre.story_list.selected, pre.story_list.stories@.len() as int),
            current_page: pre.story_list.current_page,
        },
        section_tabs: pre.section_tabs,
        theme_idx: pre.theme_idx,
        theme_count: pre.theme_count,
        focus: pre.focus,
        story_scroll: 0u16,
        pending: pre.pending,
    }
}

/// `pre` with a fetch of kind `k` pending. Nothing else moves until the
/// outcome arrives: the loaded stories stand, and the page counter
/// advances only on completion, so a failed fetch can be retried.
pub open spec fn with_pending(pre: App, k: FetchKind) -> App {
    App {
        story_list: pre.story_list,
        section_tabs: pre.section_tabs,
        theme_idx: pre.theme_idx,
        theme_count: pre.theme_count,
        focus: pre.focus,
        story_scroll: pre.story_scroll,
        pending: Some(k),
    }
}

/// `pre` with the section cursor one section forward.
pub open spec fn with_next_section(pre: App) -> App {
    App {
        story_list: pre.story_list,
        section_tabs: SectionTabs {
            index: next_section_index(pre.section_tabs.index as int) as usize,
            sections: pre.section_tabs.sections,
        },
        theme_idx: pre.theme_idx,
        theme_count: pre.theme_count,
        focus: pre.focus,
        story_scroll: pre.story_scroll,
        pending: pre.pending,
    }
}

/// The transition table: the state and action that handling `ev` in state
/// `pre` yields.
///
/// Scroll input goes to the focused pane. A move down the story list that
/// comes near the end of the loaded window starts a next-page fetch
/// instead of moving, unless a fetch is already pending (the input is
/// dropped) or the page counter is exhausted (the selection just
/// advances). Changing section and refreshing start a first-page fetch,
/// and are likewise dropped while a fetch is pending.
pub open spec fn step(pre: App, ev: InputEvent) -> (App, Action) {
    match ev {
        InputEvent::MoveDown => {
            if pre.focus == Focus::StoryBody {
                (with_scroll(pre, scroll_down(pre.story_scroll)), Action::Nothing)
            } else if more_needed(pre.story_list.selected, pre.story_list.stories@.len() as int) {
                if pre.pending is Some {
                    (pre, Action::Nothing)
                } else if pre.story_list.current_page < u32::MAX {
                    (
                        with_pending(pre, FetchKind::NextPage),
                        Action::Fetch { page: (pre.story_list.current_page + 1) as u32 },
                    )
                } else {
                    (advance_selection(pre), Action::Nothing)
                }
            } else {
                (advance_selection(pre), Action::Nothing)
            }
        },
        InputEvent::MoveUp => {
            if pre.focus == Focus::StoryBody {
                (with_scroll(pre, scroll_up(pre.story_scroll)), Action::Nothing)
            } else {
                (retreat_selection(pre), Action::Nothing)
            }
        },
        InputEvent::NextTab => {
            if pre.pending is Some {
                (pre, Action::Nothing)
            } else {
                (
                    with_pending(with_scroll(with_next_section(pre), 0u16), FetchKind::FirstPage),
                    Action::Fetch { page: 1u32 },
                )
            }
        },
        InputEvent::FocusRight => (with_focus(pre, Focus::StoryBody), Action::Nothing),
        InputEvent::FocusLeft => (with_focus(pre, Focus::SectionList), Action::Nothing),
        InputEvent::Refresh => {
            if pre.pending is Some {
                (pre, Action::Nothing)
            } else {
                (with_pending(pre, FetchKind::FirstPage), Action::Fetch { page: 1u32 })
            }
        },
        InputEvent::CycleTheme => (with_next_theme(pre), Action::Nothing),
        InputEvent::Quit => (pre, Action::Quit),
    }
}

impl App {
    /// The controller's invariant: both components well formed and the
    /// theme index among the themes.
    pub open spec fn wf(self) -> bool {
        &&& self.story_list.wf()
        &&& self.section_tabs.wf()
        &&& 1 <= self.theme_count
        &&& (self.theme_idx as int) < self.theme_count
        &&& (self.pending == Some(FetchKind::NextPage) ==> self.story_list.current_page
            < u32::MAX)
    }

    /// The initial state: first section selected, empty collection, story
    /// list focused, no scroll, first of `theme_count` themes, no fetch
    /// pending. The first fetch is started by handling a refresh event.
    pub fn new(theme_count: usize) -> (app: App)
        requires
            1 <= theme_count,
        ensures
            app.story_list.stories@.len() == 0,
            app.story_list.selected is None,
            app.story_list.current_page == 1,
            app.section_tabs.index == 0,
            app.theme_idx == 0,
            app.theme_count == theme_count,
            app.focus == Focus::SectionList,
            app.story_scroll == 0,
            app.pending is None,
            app.wf(),
    {
        App {
            story_list: StoryList::new(),
            section_tabs: SectionTabs::new(),
            theme_idx: 0,
            theme_count,
            focus: Focus::SectionList,
            story_scroll: 0,
            pending: None,
        }
    }

    /// The index of the theme in use.
    pub fn theme(&self) -> (idx: usize)
        ensures
            idx == self.theme_idx,
    {
        self.theme_idx
    }

    /// Whether a fetch is in flight, waiting for `fetch_completed` or
    /// `fetch_failed`.
    pub fn fetch_pending(&self) -> (p: bool)
        ensures
            p == (self.pending is Some),
    {
        self.pending.is_some()
    }

    /// Moves the focus to the story body pane.
    pub fn next_section(&mut self)
        requires
            old(self).wf(),
        ensures
            *final(self) == with_focus(*old(self), Focus::StoryBody),
            final(self).wf(),
    {
        self.focus = Focus::StoryBody;
    }

    /// Moves the focus back to the story list pane.
    pub fn prev_section(&mut self)
        requires
            old(self).wf(),
        ensures
            *final(self) == with_focus(*old(self), Focus::SectionList),
            final(self).wf(),
    {
        self.focus = Focus::SectionList;
    }

    /// Selects the next story and rewinds the body scroll.
    pub fn next_story(&mut self)
        requires
            old(self).wf(),
        ensures
            *final(self) == advance_selection(*old(self)),
            final(self).wf(),
    {
        self.story_list.next();
        self.story_scroll = 0;
    }

    /// Selects the previous story and rewinds the body scroll.
    pub fn prev_story(&mut self)
        requires
            old(self).wf(),
        ensures
            *final(self) == retreat_selection(*old(self)),
            final(self).wf(),
    {
        self.story_list.previous();
        self.story_scroll = 0;
    }

    /// Moves to the next theme, wrapping after the last.
    pub fn cycle_theme(&mut self)
        requires
            old(self).wf(),
        ensures
            *final(self) == with_next_theme(*old(self)),
            final(self).wf(),
    {
        if self.theme_idx + 1 < self.theme_count {
            self.theme_idx = self.theme_idx + 1;
        } else {
            self.theme_idx = 0;
        }
    }

    /// Handles one input event: the new state and the returned action are
    /// exactly what the transition table `step` gives.
    pub fn on_event(&mut self, ev: InputEvent) -> (act: Action)
        requires
            old(self).wf(),
        ensures
            *final(self) == step(*old(self), ev).0,
            act == step(*old(self), ev).1,
            final(self).wf(),
    {
        match ev {
            InputEvent::MoveDown => {
                if self.focus == Focus::StoryBody {
                    if self.story_scroll < u16::MAX {
                        self.story_scroll = self.story_scroll + 1;
                    }
                    Action::Nothing
                } else if self.story_list.needs_more() {
                    if self.pending.is_some() {
                        Action::Nothing
                    } else if self.story_list.current_page < u32::MAX {
                        let page: u32 = self.story_list.current_page + 1;
                        self.pending = Some(FetchKind::NextPage);
                        Action::Fetch { page }
                    } else {
                        self.next_story();
                        Action::Nothing
                    }
                } else {
                    self.next_story();
                    Action::Nothing
                }
            },
            InputEvent::MoveUp => {
                if self.focus == Focus::StoryBody {
                    if self.story_scroll > 0 {
                        self.story_scroll = self.story_scroll - 1;
                    }
                    Action::Nothing
                } else {
                    self.prev_story();
                    Action::Nothing
                }
            },
            InputEvent::NextTab => {
                if self.pending.is_some() {
                    Action::Nothing
                } else {
                    self.section_tabs.next();
                    self.story_scroll = 0;
                    self.pending = Some(FetchKind::FirstPage);
                    Action::Fetch { page: 1 }
                }
            },
            InputEvent::FocusRight => {
                self.next_section();
                Action::Nothing
            },
            InputEvent::FocusLeft => {
                self.prev_section();
                Action::Nothing
            },
            InputEvent::Refresh => {
                if self.pending.is_some() {
                    Action::Nothing
                } else {
                    self.pending = Some(FetchKind::FirstPage);
                    Action::Fetch { page: 1 }
                }
            },
            InputEvent::CycleTheme => {
                self.cycle_theme();
                Action::Nothing
            },
            InputEvent::Quit => Action::Quit,
        }
    }

    /// Installs a freshly fetched first page of the selected section: it
    /// replaces the loaded stories, the first story is selected when there
    /// is one, the page counter and the body scroll rewind, and no fetch
    /// is pending any more.
    pub fn refresh(&mut self, fetched: Vec<NewsStory>)
        requires
            old(self).wf(),
        ensures
            final(self).wf(),
            final(self).story_list.stories@ == fetched@,
            final(self).story_list.selected == (if fetched@.len() > 0 {
                Some(0usize)
            } else {
                None::<usize>
            }),
            final(self).story_list.current_page == 1,
            final(self).story_scroll == 0,
            final(self).pending is None,
            final(self).section_tabs == old(self).section_tabs,
            final(self).theme_idx == old(self).theme_idx,
            final(self).theme_count == old(self).theme_count,
            final(self).focus == old(self).focus,
    {
        self.story_list.replace(fetched);
        self.story_scroll = 0;
        self.pending = None;
    }

    /// Installs the outcome of the pending fetch: a first page replaces
    /// the collection and selects its first story, a next page is appended
    /// and the deferred forward move of the selection happens; either way
    /// the body scroll rewinds and the fetch is no longer pending.
    pub fn fetch_completed(&mut self, stories: Vec<NewsStory>)
        requires
            old(self).wf(),
            old(self).pending is Some,
        ensures
            final(self).wf(),
            final(self).pending is None,
            final(self).story_scroll == 0,
            final(self).section_tabs == old(self).section_tabs,
            final(self).theme_idx == old(self).theme_idx,
            final(self).theme_count == old(self).theme_count,
            final(self).focus == old(self).focus,
            old(self).pending == Some(FetchKind::FirstPage) ==> ({
                &&& final(self).story_list.stories@ == stories@
                &&& final(self).story_list.selected == (if stories@.len() > 0 {
                    Some(0usize)
                } else {
                    None::<usize>
                })
                &&& final(self).story_list.current_page == 1
            }),
            old(self).pending == Some(FetchKind::NextPage) ==> ({
                &&& final(self).story_list.stories@ == old(self).story_list.stories@ + stories@
                &&& final(self).story_list.current_page == old(self).story_list.current_page + 1
                &&& final(self).story_list.selected == next_sel(
                    old(self).story_list.selected,
                    old(self).story_list.stories@.len() + stories@.len() as int,
                )
            }),
    {
        let kind = match self.pending {
            Some(kind) => kind,
            None => {
                proof {
                    assert(false);
                }
                FetchKind::FirstPage
            },
        };
        match kind {
            FetchKind::FirstPage => {
                self.refresh(stories);
            },
            FetchKind::NextPage => {
                self.story_list.append(stories);
                self.story_list.next();
                let _page: u32 = self.story_list.advance_page();
                self.story_scroll = 0;
                self.pending = None;
            },
        }
    }

    /// Records that the pending fetch failed: the loaded stories, the
    /// selection and everything else stand as they were; only the pending
    /// fetch is cleared, so a later input may try again.
    pub fn fetch_failed(&mut self)
        requires
            old(self).wf(),
        ensures
            *final(self) == (App {
                story_list: old(self).story_list,
                section_tabs: old(self).section_tabs,
                theme_idx: old(self).theme_idx,
                theme_count: old(self).theme_count,
                focus: old(self).focus,
                story_scroll: old(self).story_scroll,
                pending: None::<FetchKind>,
            }),
            final(self).wf(),
    {
        self.pending = None;
    }
}

} // verus!
