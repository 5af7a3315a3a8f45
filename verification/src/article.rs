//! The article detail components: reflowed body text with a scroll cursor,
//! and the stateless title, date, authors and link fields.
//!
//! Each component consumes one keyboard event at a time and answers with a
//! navigation intent for the parent controller; none of them performs any
//! input or output.

use crate::text::{make_summary_rows, reflow_rows, rows_view};
use vstd::prelude::*;

verus! {

/// A navigation intent emitted to the parent controller.  Components emit
/// intents instead of mutating shared state; the controller interprets
/// them.
#[derive(PartialEq, Eq, Structural, Clone, Copy, Debug)]
pub enum Msg {
    /// The event was consumed with nothing for the controller to do.
    NoOp,
    /// Move the focus away from the article pane.
    ArticleBlur,
    /// Open the article's link.
    OpenArticle,
}

/// A keyboard event, reduced to the keys the article pane reacts to.
#[derive(PartialEq, Eq, Structural, Clone, Copy, Debug)]
pub enum KeyInput {
    Up,
    Down,
    PageUp,
    PageDown,
    Home,
    End,
    Left,
    Enter,
    /// Any other key; always ignored.
    Other,
}

/// One scroll step downward; the position saturates only at the top of the
/// machine range, no row-count bound is enforced here (the rendering
/// surface clamps the visible window).
pub open spec fn step_down(pos: int) -> int {
    if pos < usize::MAX as int {
        pos + 1
    } else {
        pos
    }
}

/// One scroll step upward; the position floors at zero.
pub open spec fn step_up(pos: int) -> int {
    if pos > 0 {
        pos - 1
    } else {
        0
    }
}

/// The index of the last row, or zero when there are no rows.
pub open spec fn last_row_index(nrows: int) -> int {
    if nrows == 0 {
        0
    } else {
        nrows - 1
    }
}

/// The scroll position after one keyboard event over `nrows` rows.  Paging
/// is two single steps, a deliberate simplification that keeps the
/// component ignorant of the viewport height.
pub open spec fn scroll_step(pos: int, nrows: int, key: KeyInput) -> int {
    match key {
        KeyInput::Down => step_down(pos),
        KeyInput::Up => step_up(pos),
        KeyInput::PageDown => step_down(step_down(pos)),
        KeyInput::PageUp => step_up(step_up(pos)),
        KeyInput::Home => 0,
        KeyInput::End => last_row_index(nrows),
        KeyInput::Left => pos,
        KeyInput::Enter => pos,
        KeyInput::Other => pos,
    }
}

/// The intent each keyboard event produces: scrolling keys are consumed
/// silently, Left blurs the pane, Enter opens the link, anything else is
/// ignored.
pub open spec fn intent_of(key: KeyInput) -> Option<Msg> {
    match key {
        KeyInput::Down => Option::Some(Msg::NoOp),
        KeyInput::Up => Option::Some(Msg::NoOp),
        KeyInput::PageDown => Option::Some(Msg::NoOp),
        KeyInput::PageUp => Option::Some(Msg::NoOp),
        KeyInput::Home => Option::Some(Msg::NoOp),
        KeyInput::End => Option::Some(Msg::NoOp),
        KeyInput::Left => Option::Some(Msg::ArticleBlur),
        KeyInput::Enter => Option::Some(Msg::OpenArticle),
        KeyInput::Other => Option::None,
    }
}

/// The interactive article body: the reflowed rows and a scroll cursor
/// over them.
pub struct ArticleSummary {
    /// The display rows of the article body.
    pub rows: Vec<String>,
    /// The current top-visible-row index.
    pub scroll: usize,
}

impl ArticleSummary {
    /// Build the component from the raw body text, scrolled to the top.
    pub fn new(summary: &str) -> (c: Self)
        ensures
            rows_view(c.rows@) == reflow_rows(summary@),
            c.scroll == 0,
    {
        Self { rows: make_summary_rows(summary), scroll: 0 }
    }

    /// Consume one keyboard event: move the scroll cursor as the key asks
    /// and emit the key's intent.  Every key maps to a total transition;
    /// unrecognized keys change nothing and emit nothing.
    pub fn on(&mut self, key: KeyInput) -> (intent: Option<Msg>)
        ensures
            final(self).rows == old(self).rows,
            final(self).scroll as int == scroll_step(
                old(self).scroll as int,
                old(self).rows@.len() as int,
                key,
            ),
            intent == intent_of(key),
    {
        match key {
            KeyInput::Down => {
                self.scroll_down();
                Option::Some(Msg::NoOp)
            },
            KeyInput::Up => {
                self.scroll_up();
                Option::Some(Msg::NoOp)
            },
            KeyInput::PageDown => {
                self.scroll_down();
                self.scroll_down();
                Option::Some(Msg::NoOp)
            },
            KeyInput::PageUp => {
                self.scroll_up();
                self.scroll_up();
                Option::Some(Msg::NoOp)
            },
            KeyInput::Home => {
                self.scroll = 0;
                Option::Some(Msg::NoOp)
            },
            KeyInput::End => {
                self.scroll = if self.rows.len() == 0 {
                    0
                } else {
                    self.rows.len() - 1
                };
                Option::Some(Msg::NoOp)
            },
            KeyInput::Left => Option::Some(Msg::ArticleBlur),
            KeyInput::Enter => Option::Some(Msg::OpenArticle),
            KeyInput::Other => Option::None,
        }
    }

    fn scroll_down(&mut self)
        ensures
            final(self).rows == old(self).rows,
            final(self).scroll as int == step_down(old(self).scroll as int),
    {
        if self.scroll < usize::MAX {
            self.scroll = self.scroll + 1;
        }
    }

    fn scroll_up(&mut self)
        ensures
            final(self).rows == old(self).rows,
            final(self).scroll as int == step_up(old(self).scroll as int),
    {
        if self.scroll > 0 {
            self.scroll = self.scroll - 1;
        }
    }
}

/// The scroll position after a sequence of keyboard events, applied in
/// order over `nrows` rows.
pub open spec fn scroll_after(pos: int, nrows: int, keys: Seq<KeyInput>) -> int
    decreases keys.len(),
{
    if keys.len() == 0 {
        pos
    } else {
        scroll_after(scroll_step(pos, nrows, keys[0]), nrows, keys.drop_first())
    }
}

/// Up-arrow events lower the position one step at a time and floor it at
/// zero: it never goes negative, and once the events outnumber the
/// starting position it stays pinned at zero.
pub proof fn lemma_up_floors_at_zero(pos: int, nrows: int, keys: Seq<KeyInput>)
    requires
        0 <= pos,
        forall|i: int| 0 <= i < keys.len() ==> keys[i] == KeyInput::Up,
    ensures
        scroll_after(pos, nrows, keys) == if pos - keys.len() >= 0 {
            pos - keys.len()
        } else {
            0
        },
        scroll_after(pos, nrows, keys) >= 0,
        keys.len() >= pos ==> scroll_after(pos, nrows, keys) == 0,
    decreases keys.len(),
{
    if keys.len() > 0 {
        lemma_up_floors_at_zero(step_up(pos), nrows, keys.drop_first());
    }
}

/// Home followed by any number of Up-arrow events leaves the position at
/// zero, wherever it started.
pub proof fn lemma_home_then_ups(pos: int, nrows: int, keys: Seq<KeyInput>)
    requires
        keys.len() > 0,
        keys[0] == KeyInput::Home,
        forall|i: int| 1 <= i < keys.len() ==> keys[i] == KeyInput::Up,
    ensures
        scroll_after(pos, nrows, keys) == 0,
{
    assert(forall|i: int|
        0 <= i < keys.drop_first().len() ==> keys.drop_first()[i] == KeyInput::Up);
    lemma_up_floors_at_zero(0, nrows, keys.drop_first());
}

/// The joined author line: the names in order, separated by a comma and a
/// space.
pub open spec fn joined_authors(names: Seq<Seq<char>>) -> Seq<char>
    decreases names.len(),
{
    if names.len() == 0 {
        Seq::<char>::empty()
    } else if names.len() == 1 {
        names[0]
    } else {
        joined_authors(names.drop_last()) + seq![',', ' '] + names.last()
    }
}

/// The stateless author line of the detail view.
pub struct ArticleAuthors {
    /// The joined author names, ready for display.
    pub text: String,
}

impl ArticleAuthors {
    /// Join the author names into a single comma-and-space-separated line.
    pub fn new(authors: &Vec<String>) -> (c: Self)
        ensures
            c.text@ == joined_authors(rows_view(authors@)),
    {
        let ghost names = rows_view(authors@);
        let mut text = String::new();
        let mut i: usize = 0;
        while i < authors.len()
            invariant
                0 <= i <= authors.len(),
                names == rows_view(authors@),
                text@ == joined_authors(names.take(i as int)),
            decreases authors.len() - i,
        {
            if i > 0 {
                text.append(", ");
            }
            text.append(authors[i].as_str());
            proof {
                reveal_strlit(", ");
                assert(", "@ =~= seq![',', ' ']);
                assert(names.take(i + 1).drop_last() =~= names.take(i as int));
                assert(names.take(i + 1).last() == authors@[i as int]@);
                if i == 0 {
                    assert(text@ =~= names.take(1)[0]);
                }
            }
            i = i + 1;
        }
        proof {
            assert(names.take(authors@.len() as int) =~= names);
        }
        Self { text }
    }

    /// The author line accepts no events and never emits an intent.
    pub fn on(&mut self, _key: KeyInput) -> (intent: Option<Msg>)
        ensures
            *final(self) == *old(self),
            intent is None,
    {
        Option::None
    }
}

/// The stateless title line of the detail view.
pub struct ArticleTitle {
    /// The title text, ready for display.
    pub text: String,
}

impl ArticleTitle {
    /// Keep a copy of the title for rendering.
    pub fn new(title: &str) -> (c: Self)
        ensures
            c.text@ == title@,
    {
        Self { text: title.to_owned() }
    }

    /// The title accepts no events and never emits an intent.
    pub fn on(&mut self, _key: KeyInput) -> (intent: Option<Msg>)
        ensures
            *final(self) == *old(self),
            intent is None,
    {
        Option::None
    }
}

/// The stateless link line of the detail view.
pub struct ArticleLink {
    /// The link text, ready for display.
    pub text: String,
}

impl ArticleLink {
    /// Keep a copy of the article's URL for rendering.
    pub fn new(url: &str) -> (c: Self)
        ensures
            c.text@ == url@,
    {
        Self { text: url.to_owned() }
    }

    /// The link line accepts no events and never emits an intent.
    pub fn on(&mut self, _key: KeyInput) -> (intent: Option<Msg>)
        ensures
            *final(self) == *old(self),
            intent is None,
    {
        Option::None
    }
}

/// The stateless date line of the detail view.
pub struct ArticleDate {
    /// The formatted publication time, or an empty line without one.
    pub text: String,
}

impl ArticleDate {
    /// Render the publication time, given as seconds since the Unix epoch;
    /// a missing timestamp renders as an empty line rather than failing,
    /// and so does one the local calendar cannot place.
    pub fn new(timestamp: Option<i64>) -> (c: Self)
        ensures
            timestamp is None ==> c.text@ == Seq::<char>::empty(),
    {
        match timestamp {
            Option::Some(secs) => match format_local_timestamp(secs) {
                Option::Some(s) => Self { text: s },
                Option::None => Self { text: String::new() },
            },
            Option::None => Self { text: String::new() },
        }
    }

    /// The date line accepts no events and never emits an intent.
    pub fn on(&mut self, _key: KeyInput) -> (intent: Option<Msg>)
        ensures
            *final(self) == *old(self),
            intent is None,
    {
        Option::None
    }
}

/// Relies on chrono's `TimeZone::timestamp_opt` on `Local` and
/// `DateTime::format`: renders the timestamp in the machine's local time
/// zone as "%A %d %B %Y, %H:%M"; a timestamp the local calendar cannot
/// place singly gives no result.  The text depends on the machine's time
/// zone, so nothing is assumed of it.
#[verifier::external_body]
fn format_local_timestamp(secs: i64) -> (r: Option<String>)
{
    match chrono::TimeZone::timestamp_opt(&chrono::Local, secs, 0) {
        chrono::LocalResult::Single(dt) => Option::Some(
            dt.format("%A %d %B %Y, %H:%M").to_string(),
        ),
        _ => Option::None,
    }
}

} // verus!
