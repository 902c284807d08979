//! Stories and the paginated story collection.
//!
//! A fetched record arrives with every field optional; a record missing any
//! required field is silently dropped rather than aborting the whole batch.
//! The collection keeps an ordered list of stories, a selection cursor that
//! clamps at both ends, a page counter for incremental loading, and a
//! look-ahead signal that asks for the next page shortly before the reader
//! reaches the end of what is loaded.

use vstd::prelude::*;
use crate::reflow::{chars_vec, push_range, string_from_chars};

verus! {

/// A character stripped from the ends of a fetched title.
pub open spec fn is_blank(c: char) -> bool {
    c == ' ' || c == '\t' || c == '\n' || c == '\r'
}

/// `s` without its leading blanks.
pub open spec fn trim_front(s: Seq<char>) -> Seq<char>
    decreases s.len(),
{
    if s.len() > 0 && is_blank(s[0]) {
        trim_front(s.subrange(1, s.len() as int))
    } else {
        s
    }
}

/// `s` without its trailing blanks.
pub open spec fn trim_back(s: Seq<char>) -> Seq<char>
    decreases s.len(),
{
    if s.len() > 0 && is_blank(s[s.len() - 1]) {
        trim_back(s.subrange(0, s.len() - 1))
    } else {
        s
    }
}

/// `s` without leading and trailing blanks.
pub open spec fn trim_blanks(s: Seq<char>) -> Seq<char> {
    trim_back(trim_front(s))
}

/// When everything before `lo` is blank and `lo` is the first non-blank
/// position (or the end), trimming the front cuts exactly at `lo`.
proof fn lemma_trim_front_at(s: Seq<char>, lo: int)
    requires
        0 <= lo <= s.len(),
        forall|k: int| 0 <= k < lo ==> is_blank(#[trigger] s[k]),
        lo == s.len() || !is_blank(s[lo]),
    ensures
        trim_front(s) == s.subrange(lo, s.len() as int),
    decreases lo,
{
    if lo == 0 {
        assert(s.subrange(0, s.len() as int) =~= s);
    } else {
        let s1 = s.subrange(1, s.len() as int);
        lemma_trim_front_at(s1, lo - 1);
        assert(s1.subrange(lo - 1, s1.len() as int) =~= s.subrange(lo, s.len() as int));
    }
}

/// When everything from `hi` on is blank and the position before `hi` is
/// non-blank (or `hi` is zero), trimming the back cuts exactly at `hi`.
proof fn lemma_trim_back_at(s: Seq<char>, hi: int)
    requires
        0 <= hi <= s.len(),
        forall|k: int| hi <= k < s.len() ==> is_blank(#[trigger] s[k]),
        hi == 0 || !is_blank(s[hi - 1]),
    ensures
        trim_back(s) == s.subrange(0, hi),
    decreases s.len(),
{
    if hi == s.len() {
        assert(s.subrange(0, s.len() as int) =~= s);
    } else {
        let s1 = s.subrange(0, s.len() - 1);
        lemma_trim_back_at(s1, hi);
        assert(s1.subrange(0, hi) =~= s.subrange(0, hi));
    }
}

/// Whether `c` is one of the blanks that trimming strips.
fn blank(c: char) -> (b: bool)
    ensures
        b == is_blank(c),
{
    c == ' ' || c == '\t' || c == '\n' || c == '\r'
}

/// Removes leading and trailing blanks from a fetched title.
#[verifier::loop_isolation(false)]
fn trim_string(s: String) -> (out: String)
    ensures
        out@ == trim_blanks(s@),
{
    let chars = chars_vec(s.as_str());
    let n: usize = chars.len();
    let mut lo: usize = 0;
    while lo < n && blank(chars[lo])
        invariant
            lo <= n,
            forall|k: int| 0 <= k < lo ==> is_blank(#[trigger] chars@[k]),
        decreases n - lo,
    {
        lo = lo + 1;
    }
    proof {
        lemma_trim_front_at(chars@, lo as int);
    }
    if lo == n {
        proof {
            assert(trim_front(chars@) =~= Seq::<char>::empty());
            assert(trim_blanks(chars@) =~= Seq::<char>::empty());
        }
        String::new()
    } else {
        let mut hi: usize = n;
        while blank(chars[hi - 1])
            invariant
                lo < hi <= n,
                forall|k: int| hi <= k < n ==> is_blank(#[trigger] chars@[k]),
            decreases hi,
        {
            hi = hi - 1;
        }
        proof {
            let t = chars@.subrange(lo as int, n as int);
            assert forall|k: int| hi - lo <= k < t.len() implies is_blank(#[trigger] t[k]) by {
                assert(t[k] == chars@[k + lo]);
            }
            assert(!is_blank(t[hi - lo - 1]));
            lemma_trim_back_at(t, hi - lo);
            assert(t.subrange(0, hi - lo) =~= chars@.subrange(lo as int, hi as int));
        }
        let mut picked: Vec<char> = Vec::new();
        push_range(&mut picked, &chars, lo, hi);
        proof {
            assert(picked@ =~= chars@.subrange(lo as int, hi as int));
        }
        string_from_chars(picked)
    }
}

/// One story as displayed: title, body text, last-modified time and byline.
pub struct NewsStory {
    pub title: String,
    pub content: String,
    pub time: String,
    pub by: String,
}

/// The mathematical content of a story: its four fields as character
/// sequences.
pub struct StoryView {
    pub title: Seq<char>,
    pub content: Seq<char>,
    pub time: Seq<char>,
    pub by: Seq<char>,
}

impl View for NewsStory {
    type V = StoryView;

    open spec fn view(&self) -> StoryView {
        StoryView { title: self.title@, content: self.content@, time: self.time@, by: self.by@ }
    }
}

/// One record of a fetch response: every displayed field may be missing.
pub struct RawStory {
    pub title: Option<String>,
    pub content: Option<String>,
    pub time: Option<String>,
    pub by: Option<String>,
}

/// A record holds every field a story needs.
pub open spec fn raw_complete(r: RawStory) -> bool {
    &&& r.title is Some
    &&& r.content is Some
    &&& r.time is Some
    &&& r.by is Some
}

/// The story a complete record yields: its fields, with the title trimmed.
pub open spec fn story_of_raw(r: RawStory) -> StoryView {
    StoryView {
        title: trim_blanks(r.title->0@),
        content: r.content->0@,
        time: r.time->0@,
        by: r.by->0@,
    }
}

/// The stories of a batch of records, in order, keeping exactly the
/// complete records.
pub open spec fn collected(raw: Seq<RawStory>) -> Seq<StoryView>
    decreases raw.len(),
{
    if raw.len() == 0 {
        Seq::empty()
    } else if raw_complete(raw[0]) {
        seq![story_of_raw(raw[0])] + collected(raw.drop_first())
    } else {
        collected(raw.drop_first())
    }
}

/// The views of a sequence of stories.
pub open spec fn story_views(v: Seq<NewsStory>) -> Seq<StoryView> {
    v.map_values(|s: NewsStory| s@)
}

/// Turns a batch of fetched records into stories: a record missing any
/// field is dropped, the order of the rest is kept, and each title is
/// trimmed of surrounding blanks.
#[verifier::loop_isolation(false)]
pub fn collect_stories(raw: Vec<RawStory>) -> (out: Vec<NewsStory>)
    ensures
        story_views(out@) == collected(raw@),
{
    let ghost all = raw@;
    let mut raw = raw;
    let mut out: Vec<NewsStory> = Vec::new();
    proof {
        assert(story_views(out@) + collected(raw@) =~= collected(all));
    }
    while raw.len() > 0
        invariant
            story_views(out@) + collected(raw@) == collected(all),
        decreases raw.len(),
    {
        let ghost raw_pre = raw@;
        let ghost out_pre = out@;
        let r = raw.remove(0);
        proof {
            assert(raw@ =~= raw_pre.drop_first());
        }
        match (r.title, r.content, r.time, r.by) {
            (Some(title), Some(content), Some(time), Some(by)) => {
                let story = NewsStory { title: trim_string(title), content, time, by };
                proof {
                    assert(story@ == story_of_raw(raw_pre[0]));
                }
                out.push(story);
                proof {
                    assert(story_views(out@) =~= story_views(out_pre).push(story@));
                    assert(story_views(out_pre).push(story@) + collected(raw@) =~= story_views(
                        out_pre,
                    ) + (seq![story_of_raw(raw_pre[0])] + collected(raw@)));
                }
            },
            _ => {
                proof {
                    assert(!raw_complete(raw_pre[0]));
                }
            },
        }
    }
    proof {
        assert(collected(raw@) =~= Seq::<StoryView>::empty());
        assert(story_views(out@) =~= story_views(out@) + collected(raw@));
    }
    out
}

/// The selection after one forward move among `len` stories: forward by
/// one, staying put at the last story; a missing selection becomes the
/// first story when there is one.
pub open spec fn next_sel(sel: Option<usize>, len: int) -> Option<usize> {
    match sel {
        Some(i) => if i + 1 < len {
            Some((i + 1) as usize)
        } else {
            Some(i)
        },
        None => if len > 0 {
            Some(0usize)
        } else {
            None::<usize>
        },
    }
}

/// The selection after one backward move: back by one, staying put at the
/// first story; a missing selection becomes the first story when there is
/// one.
pub open spec fn prev_sel(sel: Option<usize>, len: int) -> Option<usize> {
    match sel {
        Some(i) => if i > 0 {
            Some((i - 1) as usize)
        } else {
            Some(i)
        },
        None => if len > 0 {
            Some(0usize)
        } else {
            None::<usize>
        },
    }
}

/// The look-ahead signal: a selection exists and sits within three of the
/// end of the `len` loaded stories.
pub open spec fn more_needed(sel: Option<usize>, len: int) -> bool {
    match sel {
        Some(i) => i as int >= len - 3,
        None => false,
    }
}

/// The ordered, paginated story collection with its selection cursor.
///
/// The selection, when present, always points inside the list; an empty
/// list has no selection; pages count from one.
pub struct StoryList {
    pub stories: Vec<NewsStory>,
    pub selected: Option<usize>,
    pub current_page: u32,
}

impl StoryList {
    /// The collection's invariant: a selection is a valid index, an empty
    /// collection has none, and the page counter starts at one.
    pub open spec fn wf(self) -> bool {
        &&& (self.selected matches Some(i) ==> (i as int) < self.stories@.len())
        &&& (self.stories@.len() == 0 ==> self.selected is None)
        &&& 1 <= self.current_page
    }

    /// An empty collection: no stories, no selection, page one.
    pub fn new() -> (list: StoryList)
        ensures
            list.stories@.len() == 0,
            list.selected is None,
            list.current_page == 1,
            list.wf(),
    {
        StoryList { stories: Vec::new(), selected: None, current_page: 1 }
    }

    /// Discards the loaded stories in favour of `new_stories`, selects the
    /// first one when there is one, and resets the page counter to one.
    pub fn replace(&mut self, new_stories: Vec<NewsStory>)
        ensures
            final(self).stories@ == new_stories@,
            final(self).selected == (if new_stories@.len() > 0 {
                Some(0usize)
            } else {
                None::<usize>
            }),
            final(self).current_page == 1,
            final(self).wf(),
    {
        self.stories = new_stories;
        self.selected = if self.stories.len() > 0 {
            Some(0)
        } else {
            None
        };
        self.current_page = 1;
    }

    /// Appends `more` to the loaded stories, keeping the selection and the
    /// page counter as they are.
    pub fn append(&mut self, more: Vec<NewsStory>)
        requires
            old(self).wf(),
        ensures
            final(self).stories@ == old(self).stories@ + more@,
            final(self).selected == old(self).selected,
            final(self).current_page == old(self).current_page,
            final(self).wf(),
    {
        let mut more = more;
        self.stories.append(&mut more);
    }

    /// Moves the selection one story forward, staying put at the last
    /// story. On an empty collection this is a no-op; without a selection
    /// it selects the first story.
    pub fn next(&mut self)
        requires
            old(self).wf(),
        ensures
            final(self).stories == old(self).stories,
            final(self).current_page == old(self).current_page,
            final(self).wf(),
            final(self).selected == next_sel(old(self).selected, old(self).stories@.len() as int),
            // at the last story, advancing changes nothing
            (old(self).selected matches Some(i) && i as int == old(self).stories@.len() - 1)
                ==> *final(self) == *old(self),
    {
        match self.selected {
            Some(i) => {
                let len: usize = self.stories.len();
                if i < len - 1 {
                    self.selected = Some(i + 1);
                }
            },
            None => {
                if self.stories.len() > 0 {
                    self.selected = Some(0);
                }
            },
        }
    }

    /// Moves the selection one story back, staying put at the first story.
    /// On an empty collection this is a no-op; without a selection it
    /// selects the first story.
    pub fn previous(&mut self)
        requires
            old(self).wf(),
        ensures
            final(self).stories == old(self).stories,
            final(self).current_page == old(self).current_page,
            final(self).wf(),
            final(self).selected == prev_sel(old(self).selected, old(self).stories@.len() as int),
            // at the first story, moving back changes nothing
            old(self).selected == Some(0usize) ==> *final(self) == *old(self),
    {
        match self.selected {
            Some(i) => {
                if i > 0 {
                    self.selected = Some(i - 1);
                }
            },
            None => {
                if self.stories.len() > 0 {
                    self.selected = Some(0);
                }
            },
        }
    }

    /// The selected story. Callers guard: a selection must exist.
    pub fn selected_story(&self) -> (story: &NewsStory)
        requires
            self.wf(),
            self.selected is Some,
        ensures
            self.selected matches Some(i) && *story == self.stories@[i as int],
    {
        match self.selected {
            Some(i) => &self.stories[i],
            None => {
                proof {
                    assert(false);
                }
                &self.stories[0]
            },
        }
    }

    /// Whether the reader is near the end of the loaded window: true
    /// exactly when a selection exists and its index is at most three
    /// short of the number of loaded stories. An empty collection never
    /// asks for more.
    pub fn needs_more(&self) -> (more: bool)
        requires
            self.wf(),
        ensures
            more == more_needed(self.selected, self.stories@.len() as int),
            more == (match self.selected {
                Some(i) => i as int >= self.stories@.len() - 3,
                None => false,
            }),
            self.stories@.len() == 0 ==> more == false,
    {
        match self.selected {
            Some(i) => self.stories.len() - i <= 3,
            None => false,
        }
    }

    /// Moves the page counter forward and returns the new page.
    pub fn advance_page(&mut self) -> (page: u32)
        requires
            old(self).wf(),
            old(self).current_page < u32::MAX,
        ensures
            final(self).current_page == old(self).current_page + 1,
            page == final(self).current_page,
            final(self).stories == old(self).stories,
            final(self).selected == old(self).selected,
            final(self).wf(),
    {
        self.current_page = self.current_page + 1;
        self.current_page
    }
}

} // verus!
