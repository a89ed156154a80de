//! What the screen shows for a session: the panel of the current page, the
//! output region and the tab bar, as plain values for the caller to draw.

use crate::json::{config_text, render_config};
use crate::page::AppPage;
use crate::session::{AppState, SessionView};
use vstd::prelude::*;
use vstd::string::StringExecFns;

verus! {

/// How the text of a panel is aligned.
#[derive(Debug, Clone, Copy, PartialEq, Eq, Structural)]
pub enum Align {
    Left,
    Center,
}

/// The colour of the text of a panel.
#[derive(Debug, Clone, Copy, PartialEq, Eq, Structural)]
pub enum Tone {
    /// The terminal's own colour.
    Plain,
    Yellow,
    Red,
    White,
    Gray,
    Green,
}

/// A bordered region of the screen with a title and a text.
#[derive(Debug)]
pub struct Panel {
    pub title: String,
    pub text: String,
    pub align: Align,
    pub tone: Tone,
    /// The line of the text from which it is shown.
    pub scroll: u16,
}

/// A panel as mathematical values.
pub struct PanelView {
    pub title: Seq<char>,
    pub text: Seq<char>,
    pub align: Align,
    pub tone: Tone,
    pub scroll: u16,
}

impl View for Panel {
    type V = PanelView;

    open spec fn view(&self) -> PanelView {
        PanelView {
            title: self.title@,
            text: self.text@,
            align: self.align,
            tone: self.tone,
            scroll: self.scroll,
        }
    }
}

/// A panel that says one thing in the middle.
pub open spec fn notice(title: Seq<char>, text: Seq<char>, tone: Tone) -> PanelView {
    PanelView { title, text, align: Align::Center, tone, scroll: 0 }
}

/// The panel of the Proxy page.
pub open spec fn proxy_panel() -> PanelView {
    notice("Proxy"@, "Proxy Page"@, Tone::Plain)
}

/// The panel of the Settings page.
pub open spec fn settings_panel() -> PanelView {
    notice("Settings"@, "Settings Page"@, Tone::Plain)
}

/// The panel of the Log page: a note while a load is in flight, else the
/// scrollback buffer, else a hint at the key that loads it.
pub open spec fn log_panel(s: SessionView) -> PanelView {
    if s.logs_loading {
        notice("Log"@, "Loading logs..."@, Tone::Yellow)
    } else {
        match s.logs {
            Some(logs) => PanelView {
                title: "Log"@,
                text: logs,
                align: Align::Left,
                tone: Tone::White,
                scroll: 0,
            },
            None => notice("Log"@, "Press 'L' to load logs"@, Tone::Gray),
        }
    }
}

/// The panel of the Config page: a note while a load is in flight, else the
/// error of the last load, else the configuration as pretty-printed text
/// from the scroll offset on, else a hint at the keys that load it.
pub open spec fn config_panel(s: SessionView) -> PanelView {
    if s.loading {
        notice("Config"@, "Loading configs..."@, Tone::Yellow)
    } else {
        match s.error {
            Some(error) => notice("Config"@, error, Tone::Red),
            None => match s.configs {
                Some(doc) => PanelView {
                    title: "Config"@,
                    text: config_text(doc),
                    align: Align::Left,
                    tone: Tone::Plain,
                    scroll: s.scroll_offset,
                },
                None => notice("Config"@, "Press Enter or R to load configs"@, Tone::Gray),
            },
        }
    }
}

/// The panel of the current page.
pub open spec fn main_panel(s: SessionView) -> PanelView {
    match s.current_page {
        AppPage::Proxy => proxy_panel(),
        AppPage::Log => log_panel(s),
        AppPage::Settings => settings_panel(),
        AppPage::Config => config_panel(s),
    }
}

/// The panel of the output region: the output, or a note where there is
/// none.
pub open spec fn stdout_panel(s: SessionView) -> PanelView {
    if s.stdout_output.len() == 0 {
        PanelView {
            title: "Standard Output"@,
            text: "No output"@,
            align: Align::Left,
            tone: Tone::Gray,
            scroll: 0,
        }
    } else {
        PanelView {
            title: "Standard Output"@,
            text: s.stdout_output,
            align: Align::Left,
            tone: Tone::Green,
            scroll: 0,
        }
    }
}

/// The label of a page in the tab bar. The Config page goes by `Profile`
/// there.
pub open spec fn tab_label(page: AppPage) -> Seq<char> {
    match page {
        AppPage::Proxy => "Proxy"@,
        AppPage::Log => "Log"@,
        AppPage::Settings => "Settings"@,
        AppPage::Config => "Profile"@,
    }
}

/// A panel that says `text` in the middle.
fn notice_panel(title: &str, text: &str, tone: Tone) -> (panel: Panel)
    ensures
        panel@ == notice(title@, text@, tone),
{
    Panel {
        title: String::from_str(title),
        text: String::from_str(text),
        align: Align::Center,
        tone,
        scroll: 0,
    }
}

/// The panel of the Proxy page.
pub fn render_proxy_page() -> (panel: Panel)
    ensures
        panel@ == proxy_panel(),
{
    notice_panel("Proxy", "Proxy Page", Tone::Plain)
}

/// The panel of the Settings page.
pub fn render_settings_page() -> (panel: Panel)
    ensures
        panel@ == settings_panel(),
{
    notice_panel("Settings", "Settings Page", Tone::Plain)
}

/// The panel of the Log page.
pub fn render_log_page(app: &AppState) -> (panel: Panel)
    ensures
        panel@ == log_panel(app@),
{
    if app.logs_loading {
        return notice_panel("Log", "Loading logs...", Tone::Yellow);
    }
    match &app.logs {
        Some(logs) => Panel {
            title: String::from_str("Log"),
            text: logs.clone(),
            align: Align::Left,
            tone: Tone::White,
            scroll: 0,
        },
        None => notice_panel("Log", "Press 'L' to load logs", Tone::Gray),
    }
}

/// The panel of the Config page.
pub fn render_config_page(app: &AppState) -> (panel: Panel)
    ensures
        panel@ == config_panel(app@),
{
    if app.loading {
        return notice_panel("Config", "Loading configs...", Tone::Yellow);
    }
    if let Some(error) = &app.error {
        return notice_panel("Config", error.as_str(), Tone::Red);
    }
    match &app.configs {
        Some(doc) => Panel {
            title: String::from_str("Config"),
            text: render_config(doc),
            align: Align::Left,
            tone: Tone::Plain,
            scroll: app.scroll_offset,
        },
        None => notice_panel("Config", "Press Enter or R to load configs", Tone::Gray),
    }
}

/// The panel of the current page.
pub fn render_main_content(app: &AppState) -> (panel: Panel)
    ensures
        panel@ == main_panel(app@),
{
    match app.current_page {
        AppPage::Proxy => render_proxy_page(),
        AppPage::Log => render_log_page(app),
        AppPage::Settings => render_settings_page(),
        AppPage::Config => render_config_page(app),
    }
}

/// The panel of the output region.
pub fn render_stdout_block(app: &AppState) -> (panel: Panel)
    ensures
        panel@ == stdout_panel(app@),
{
    let empty = app.stdout_output.as_str().is_empty();
    Panel {
        title: String::from_str("Standard Output"),
        text: if empty {
            String::from_str("No output")
        } else {
            app.stdout_output.clone()
        },
        align: Align::Left,
        tone: if empty {
            Tone::Gray
        } else {
            Tone::Green
        },
        scroll: 0,
    }
}

/// The labels of the tab bar, in the order of the pages, and the position of
/// the label of `current_page` among them.
pub fn render_bottom_nav_bar(current_page: &AppPage) -> (tabs: (Vec<&'static str>, usize))
    ensures
        tabs.0@.len() == 4,
        forall|i: int| 0 <= i < 4 ==> (#[trigger] tabs.0@[i])@ == tab_label(crate::page::page_at(i)),
        tabs.1 == current_page.spec_index(),
{
    let mut titles: Vec<&'static str> = Vec::new();
    titles.push("Proxy");
    titles.push("Log");
    titles.push("Settings");
    titles.push("Profile");
    (titles, current_page.index())
}

} // verus!
