//! The help panel, drawn above everything, and the keys it answers.

use crate::key::{KeyCode, KeyEvent};
use crate::screen::Topic;
use vstd::prelude::*;

verus! {

/// The open panel: what it is about, and how far it is scrolled.
#[derive(Copy, Clone, Debug, PartialEq, Eq, Structural)]
pub struct Help {
    topic: Topic,
    offset: usize,
    lines: usize,
    page: usize,
}

/// What a [`Help`] stands for.
pub struct HelpView {
    pub topic: Topic,
    pub offset: int,
    /// How many lines the last draw wrapped the panel into.
    pub lines: int,
    /// How many of them it fitted.
    pub page: int,
}

impl HelpView {
    /// The furthest the panel scrolls: the last line at the bottom of it.
    pub open spec fn furthest(self) -> int {
        if self.lines > self.page {
            self.lines - self.page
        } else {
            0
        }
    }

    /// The panel scrolled by `by`, stopping at either end.
    pub open spec fn scrolled(self, by: int) -> HelpView {
        let to = self.offset + by;
        HelpView {
            offset: if to < 0 {
                0
            } else if to > self.furthest() {
                self.furthest()
            } else {
                to
            },
            ..self
        }
    }

    /// What a key leaves of the panel: nothing, where it closes it. A key it
    /// has no use for is swallowed.
    pub open spec fn pressed(self, key: KeyEvent) -> Option<HelpView> {
        match key.code {
            KeyCode::Esc => None,
            KeyCode::Char(c) => if c == '?' {
                None
            } else {
                Some(self)
            },
            KeyCode::F(n) => if n == 1 {
                None
            } else {
                Some(self)
            },
            KeyCode::Up => Some(self.scrolled(-1)),
            KeyCode::Down => Some(self.scrolled(1)),
            KeyCode::PageUp => Some(self.scrolled(-self.page)),
            KeyCode::PageDown => Some(self.scrolled(self.page)),
            KeyCode::Home => Some(HelpView { offset: 0, ..self }),
            KeyCode::End => Some(HelpView { offset: self.furthest(), ..self }),
            _ => Some(self),
        }
    }
}

impl View for Help {
    type V = HelpView;

    closed spec fn view(&self) -> HelpView {
        HelpView {
            topic: self.topic,
            offset: self.offset as int,
            lines: self.lines as int,
            page: self.page as int,
        }
    }
}

impl Help {
    /// The panel as it opens, before a draw has measured it.
    pub fn new(topic: Topic) -> (help: Help)
        ensures
            help@ == (HelpView { topic, offset: 0, lines: 0, page: 0 }),
    {
        Help { topic, offset: 0, lines: 0, page: 0 }
    }

    pub fn topic(&self) -> (topic: Topic)
        ensures
            topic == self@.topic,
    {
        self.topic
    }

    pub fn offset(&self) -> (offset: usize)
        ensures
            offset == self@.offset,
    {
        self.offset
    }

    /// Take what a draw measured. Only the draw knows how many lines a wrap
    /// produced.
    pub fn set_extent(&mut self, lines: usize, page: usize)
        ensures
            final(self)@ == (HelpView {
                lines: lines as int,
                page: page as int,
                ..old(self)@
            }).scrolled(0),
    {
        self.lines = lines;
        self.page = page;
        self.scroll(0);
    }

    fn furthest(&self) -> (furthest: usize)
        ensures
            furthest == self@.furthest(),
    {
        if self.lines > self.page {
            self.lines - self.page
        } else {
            0
        }
    }

    fn scroll(&mut self, by: i128)
        requires
            -0x1_0000_0000_0000_0000 <= by <= 0x1_0000_0000_0000_0000,
        ensures
            final(self)@ == old(self)@.scrolled(by as int),
    {
        let to: i128 = self.offset as i128 + by;
        let furthest: usize = self.furthest();
        self.offset = if to < 0 {
            0
        } else if to > furthest as i128 {
            furthest
        } else {
            to as usize
        };
    }

    /// Every key while the panel is up, including the ones it ignores. Says
    /// whether the panel stays.
    pub fn help_key(&mut self, key: KeyEvent) -> (stays: bool)
        ensures
            match old(self)@.pressed(key) {
                Some(after) => stays && final(self)@ == after,
                None => !stays && final(self)@ == old(self)@,
            },
    {
        let page: i128 = self.page as i128;
        match key.code {
            KeyCode::Esc | KeyCode::Char('?') | KeyCode::F(1) => return false,
            KeyCode::Up => self.scroll(-1),
            KeyCode::Down => self.scroll(1),
            KeyCode::PageUp => self.scroll(-page),
            KeyCode::PageDown => self.scroll(page),
            KeyCode::Home => {
                self.offset = 0;
            },
            KeyCode::End => {
                self.offset = self.furthest();
            },
            _ => {},
        }
        true
    }
}

/// The panel never scrolls past either end, whatever key is pressed.
pub proof fn the_panel_stays_within_its_lines(help: HelpView, key: KeyEvent)
    requires
        0 <= help.offset <= help.furthest(),
    ensures
        help.pressed(key) matches Some(after) ==> 0 <= after.offset <= after.furthest()
            && after.topic == help.topic,
{
}

/// The panel is closed by `Esc`, by a question mark and by `F1`. The arrows
/// scroll it a line and the paging keys a page, as far as it goes, and `Home`
/// and `End` go to its ends.
pub proof fn each_key_scrolls_its_own_way(help: HelpView, key: KeyEvent)
    requires
        0 <= help.offset,
        0 <= help.page,
        0 <= help.lines,
        help.offset + help.page <= help.lines || help.offset == 0,
    ensures
        key.code is Esc || key.code == KeyCode::Char('?') || key.code == KeyCode::F(1)
            <==> help.pressed(key) is None,
        help.pressed(key) matches Some(after) ==> {
            let end = if help.lines > help.page {
                help.lines - help.page
            } else {
                0
            };
            &&& after.topic == help.topic && after.lines == help.lines && after.page == help.page
            &&& (key.code is Down ==> after.offset == (if help.offset < end {
                help.offset + 1
            } else {
                end
            }))
            &&& (key.code is Up ==> after.offset == (if help.offset > 0 {
                help.offset - 1
            } else {
                0
            }))
            &&& (key.code is PageDown ==> after.offset == (if help.offset + help.page <= end {
                help.offset + help.page
            } else {
                end
            }))
            &&& (key.code is PageUp ==> after.offset == (if help.offset >= help.page {
                help.offset - help.page
            } else {
                0
            }))
            &&& (key.code is Home ==> after.offset == 0)
            &&& (key.code is End ==> after.offset == end)
            &&& (key.code is Char || key.code is Enter || key.code is Tab ==> after.offset
                == help.offset)
        },
{
}

} // verus!
