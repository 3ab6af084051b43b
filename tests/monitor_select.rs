use regreet::{select, select_monitor, MonitorHandle};

fn mon(name: &str) -> MonitorHandle {
    MonitorHandle::new(name.to_string(), 0, 0, 800, 600)
}

#[test]
fn preferred_monitor_is_chosen() {
    let available = vec![mon("A"), mon("B")];
    assert_eq!(select(&available, &Some("B".to_string())), Some(1));
    assert_eq!(select_monitor(&available, &Some("B".to_string())).unwrap().name, "B");
}

#[test]
fn single_monitor_is_chosen_whatever_the_preference() {
    let available = vec![mon("A")];
    assert_eq!(select(&available, &Some("B".to_string())), Some(0));
    assert_eq!(select(&available, &Some("A".to_string())), Some(0));
    assert_eq!(select(&available, &None), Some(0));
}

#[test]
fn no_monitor_gives_nothing() {
    let available: Vec<MonitorHandle> = Vec::new();
    assert_eq!(select(&available, &Some("A".to_string())), None);
    assert!(select_monitor(&available, &None).is_none());
}

#[test]
fn unknown_preference_falls_back_to_first() {
    let available = vec![mon("A"), mon("B"), mon("C")];
    assert_eq!(select(&available, &Some("Z".to_string())), Some(0));
    assert_eq!(select(&available, &None), Some(0));
}

#[test]
fn first_of_equal_names_is_chosen() {
    let available = vec![mon("A"), mon("B"), mon("B")];
    assert_eq!(select(&available, &Some("B".to_string())), Some(1));
}

#[test]
fn duplicate_keeps_name_and_geometry() {
    let m = MonitorHandle::new("HDMI-1".to_string(), 10, 20, 1280, 720);
    let d = m.duplicate();
    assert_eq!(d, m);
    assert!(d.same_as(&m));
    assert!(!d.same_as(&mon("HDMI-1")));
}
