use pathfinder::item::{filter_items, score_item, score_items, Item, Pane, Tab};

fn tab(name: &str) -> Tab {
    Tab { name: name.to_string(), active: false, position: 0 }
}

fn pane(id: u32, title: &str, is_plugin: bool) -> Pane {
    Pane { id, title: title.to_string(), is_plugin }
}

#[test]
fn tab_is_labelled_by_its_name_and_never_excluded() {
    let t = tab("build");
    assert_eq!(t.label(), "build");
    assert!(!t.excluded());
}

#[test]
fn pane_is_labelled_by_its_title_and_excluded_if_plugin() {
    assert_eq!(pane(1, "shell", false).label(), "shell");
    assert!(!pane(1, "shell", false).excluded());
    assert!(pane(3, "helper", true).excluded());
}

#[test]
fn excluded_item_has_no_score() {
    assert_eq!(score_item(&pane(3, "helper", true), ""), None);
    assert_eq!(score_item(&pane(3, "helper", true), "help"), None);
    assert_eq!(score_item(&pane(1, "helper", false), ""), Some(0));
    assert!(score_item(&pane(1, "helper", false), "help").is_some());
    assert_eq!(score_item(&tab("build"), "zz"), None);
}

#[test]
fn filter_of_the_empty_query_lets_all_but_plugin_panes_through() {
    let panes = vec![pane(1, "shell", false), pane(2, "logs", false), pane(3, "helper", true)];
    assert_eq!(filter_items(&panes, ""), vec![true, true, false]);
    assert_eq!(score_items(&panes, ""), vec![Some(0), Some(0), None]);
    let tabs = vec![tab("build"), tab("test"), tab("deploy")];
    assert_eq!(filter_items(&tabs, ""), vec![true, true, true]);
    assert_eq!(score_items(&tabs, ""), vec![Some(0), Some(0), Some(0)]);
}

#[test]
fn filter_keeps_what_matches() {
    let tabs = vec![tab("build"), tab("test"), tab("deploy")];
    assert_eq!(filter_items(&tabs, "te"), vec![false, true, false]);
    assert_eq!(filter_items(&tabs, "e"), vec![false, true, true]);
    assert_eq!(filter_items(&tabs, "zzz"), vec![false, false, false]);
    let scores = score_items(&tabs, "te");
    assert_eq!(scores[0], None);
    assert!(scores[1].unwrap() > 0);
    assert_eq!(scores[2], None);
}

#[test]
fn filter_of_an_empty_list_is_empty() {
    let tabs: Vec<Tab> = vec![];
    assert_eq!(filter_items(&tabs, "a"), Vec::<bool>::new());
    assert_eq!(score_items(&tabs, ""), Vec::<Option<u64>>::new());
}
