//! The four pages of the dashboard and the cyclic order between them.

use vstd::prelude::*;

verus! {

/// Number of pages; `next` and `previous` wrap around modulo this.
pub const PAGE_COUNT: usize = 4;

/// One page of the dashboard. The pages are ordered Proxy, Log, Settings,
/// Config, and the order is cyclic: Config is followed by Proxy.
#[derive(Debug, Clone, Copy, PartialEq, Eq, Structural)]
pub enum AppPage {
    Proxy,
    Log,
    Settings,
    Config,
}

/// The page that stands at position `i` of the cycle, positions counted
/// modulo the number of pages.
pub open spec fn page_at(i: int) -> AppPage {
    let r = i % 4;
    if r == 0 {
        AppPage::Proxy
    } else if r == 1 {
        AppPage::Log
    } else if r == 2 {
        AppPage::Settings
    } else {
        AppPage::Config
    }
}

/// One step along the cycle of pages.
#[derive(Debug, Clone, Copy, PartialEq, Eq, Structural)]
pub enum PageMove {
    Forward,
    Backward,
}

/// The page reached from `start` by making `moves` in order.
pub open spec fn page_after(start: AppPage, moves: Seq<PageMove>) -> AppPage
    decreases moves.len(),
{
    if moves.len() == 0 {
        start
    } else {
        let before = page_after(start, moves.drop_last());
        match moves.last() {
            PageMove::Forward => before.spec_next(),
            PageMove::Backward => before.spec_previous(),
        }
    }
}

/// How many of `moves` are `Forward`.
pub open spec fn forward_count(moves: Seq<PageMove>) -> nat
    decreases moves.len(),
{
    if moves.len() == 0 {
        0
    } else if moves.last() == PageMove::Forward {
        forward_count(moves.drop_last()) + 1
    } else {
        forward_count(moves.drop_last())
    }
}

impl AppPage {
    /// Position of the page in the cycle: 0 for Proxy up to 3 for Config.
    pub open spec fn spec_index(self) -> int {
        match self {
            AppPage::Proxy => 0,
            AppPage::Log => 1,
            AppPage::Settings => 2,
            AppPage::Config => 3,
        }
    }

    /// The title as a sequence of characters.
    pub open spec fn spec_title(self) -> Seq<char> {
        match self {
            AppPage::Proxy => "Proxy"@,
            AppPage::Log => "Log"@,
            AppPage::Settings => "Settings"@,
            AppPage::Config => "Config"@,
        }
    }

    /// The successor in the cycle.
    pub open spec fn spec_next(self) -> AppPage {
        page_at(self.spec_index() + 1)
    }

    /// The predecessor in the cycle.
    pub open spec fn spec_previous(self) -> AppPage {
        page_at(self.spec_index() + 3)
    }

    /// The title shown for the page.
    pub fn title(&self) -> (t: &'static str)
        ensures
            t@ == self.spec_title(),
    {
        match self {
            AppPage::Proxy => "Proxy",
            AppPage::Log => "Log",
            AppPage::Settings => "Settings",
            AppPage::Config => "Config",
        }
    }

    /// Position of the page in the cycle.
    pub fn index(&self) -> (i: usize)
        ensures
            i == self.spec_index(),
            i < PAGE_COUNT,
            page_at(i as int) == *self,
    {
        match self {
            AppPage::Proxy => 0,
            AppPage::Log => 1,
            AppPage::Settings => 2,
            AppPage::Config => 3,
        }
    }

    /// The page at position `index`, taken modulo the number of pages, so
    /// every `usize` names a page.
    pub fn from_index(index: usize) -> (page: AppPage)
        ensures
            page == page_at(index as int),
            page.spec_index() == index % PAGE_COUNT,
    {
        match index % 4 {
            0 => AppPage::Proxy,
            1 => AppPage::Log,
            2 => AppPage::Settings,
            _ => AppPage::Config,
        }
    }

    /// The page after this one; Config is followed by Proxy.
    pub fn next(&self) -> (page: AppPage)
        ensures
            page == self.spec_next(),
            page.spec_index() == (self.spec_index() + 1) % 4,
    {
        Self::from_index(self.index() + 1)
    }

    /// The page before this one; Proxy is preceded by Config.
    pub fn previous(&self) -> (page: AppPage)
        ensures
            page == self.spec_previous(),
            page.spec_index() == (self.spec_index() + 3) % 4,
    {
        Self::from_index(self.index() + 3)
    }
}

/// Every page has a position below the number of pages, and it is the page
/// that stands at its own position.
pub proof fn lemma_index_names_the_page(page: AppPage)
    ensures
        0 <= page.spec_index() < PAGE_COUNT,
        page_at(page.spec_index()) == page,
{
}

/// `next` and `previous` undo each other, from any page.
pub proof fn lemma_next_previous_inverse(page: AppPage)
    ensures
        page.spec_next().spec_previous() == page,
        page.spec_previous().spec_next() == page,
{
}

/// Four steps in one direction lead back to the start.
pub proof fn lemma_four_steps_return(page: AppPage)
    ensures
        page.spec_next().spec_next().spec_next().spec_next() == page,
        page.spec_previous().spec_previous().spec_previous().spec_previous() == page,
{
}

/// Whatever moves are made, the page reached is one of the four, and its
/// position is the start's position plus one for each forward move and minus
/// one for each backward move, modulo four.
pub proof fn lemma_page_after_moves(start: AppPage, moves: Seq<PageMove>)
    ensures
        0 <= page_after(start, moves).spec_index() < PAGE_COUNT,
        page_after(start, moves).spec_index() == (start.spec_index() + forward_count(moves) + 3
            * (moves.len() - forward_count(moves))) % 4,
        forward_count(moves) <= moves.len(),
    decreases moves.len(),
{
    if moves.len() > 0 {
        lemma_page_after_moves(start, moves.drop_last());
    }
}

} // verus!
