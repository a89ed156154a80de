use yact::page::{AppPage, PAGE_COUNT};

const PAGES: [AppPage; 4] = [AppPage::Proxy, AppPage::Log, AppPage::Settings, AppPage::Config];

#[test]
fn pages_follow_each_other_in_a_cycle() {
    assert_eq!(AppPage::Proxy.next(), AppPage::Log);
    assert_eq!(AppPage::Log.next(), AppPage::Settings);
    assert_eq!(AppPage::Settings.next(), AppPage::Config);
    assert_eq!(AppPage::Config.next(), AppPage::Proxy);
}

#[test]
fn pages_precede_each_other_in_a_cycle() {
    assert_eq!(AppPage::Proxy.previous(), AppPage::Config);
    assert_eq!(AppPage::Log.previous(), AppPage::Proxy);
    assert_eq!(AppPage::Settings.previous(), AppPage::Log);
    assert_eq!(AppPage::Config.previous(), AppPage::Settings);
}

#[test]
fn next_and_previous_undo_each_other() {
    for page in PAGES {
        assert_eq!(page.next().previous(), page);
        assert_eq!(page.previous().next(), page);
    }
}

#[test]
fn four_steps_lead_back() {
    for page in PAGES {
        assert_eq!(page.next().next().next().next(), page);
        assert_eq!(page.previous().previous().previous().previous(), page);
    }
}

#[test]
fn titles_name_the_pages() {
    assert_eq!(AppPage::Proxy.title(), "Proxy");
    assert_eq!(AppPage::Log.title(), "Log");
    assert_eq!(AppPage::Settings.title(), "Settings");
    assert_eq!(AppPage::Config.title(), "Config");
}

#[test]
fn index_counts_from_proxy() {
    assert_eq!(AppPage::Proxy.index(), 0);
    assert_eq!(AppPage::Log.index(), 1);
    assert_eq!(AppPage::Settings.index(), 2);
    assert_eq!(AppPage::Config.index(), 3);
    assert_eq!(PAGE_COUNT, 4);
}

#[test]
fn from_index_wraps_around() {
    assert_eq!(AppPage::from_index(0), AppPage::Proxy);
    assert_eq!(AppPage::from_index(1), AppPage::Log);
    assert_eq!(AppPage::from_index(2), AppPage::Settings);
    assert_eq!(AppPage::from_index(3), AppPage::Config);
    assert_eq!(AppPage::from_index(4), AppPage::Proxy);
    assert_eq!(AppPage::from_index(7), AppPage::Config);
    assert_eq!(AppPage::from_index(usize::MAX), AppPage::from_index(usize::MAX % 4));
}

#[test]
fn from_index_undoes_index() {
    for page in PAGES {
        assert_eq!(AppPage::from_index(page.index()), page);
    }
}

#[test]
fn a_walk_ends_where_the_steps_add_up() {
    let mut page = AppPage::Settings;
    let forward = [true, true, false, true, true, true, false, false, true];
    let mut position = page.index();
    for step in forward {
        if step {
            page = page.next();
            position = (position + 1) % 4;
        } else {
            page = page.previous();
            position = (position + 3) % 4;
        }
        assert!(PAGES.contains(&page));
        assert_eq!(page.index(), position);
    }
    assert_eq!(page, AppPage::Log);
}
