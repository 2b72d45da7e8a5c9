use std::collections::HashMap;
use aigw_console::analytics::{
    group_traffic, hour_save_plan, latest_traffic, mean, merge_counts, minute_save_plan, new_task_row,
    next_window, rename_countries, traffic_period_row, traffic_report_row, task_from_row, task_key, task_progress_row, SavePlan, Task,
    TrafficItem, TrafficRow,
};

fn counts(v: &[(&str, u64)]) -> Vec<(String, u64)> {
    v.iter().map(|&(k, n)| (k.to_string(), n)).collect()
}

#[test]
fn merging_adds_to_known_names_and_doubles_new_ones() {
    let mut c = counts(&[("CN", 5), ("US", 1)]);
    merge_counts(&mut c, &counts(&[("US", 2), ("DE", 3)]));
    let mut c2 = c.clone();
    c2.sort();
    assert_eq!(c2, counts(&[("CN", 5), ("DE", 6), ("US", 3)]));
}

#[test]
fn merging_matches_entry_or_insert_then_add() {
    let mut map: HashMap<String, u64> = HashMap::new();
    let mut c: Vec<(String, u64)> = vec![];
    for report in [counts(&[("a", 1), ("b", 2)]), counts(&[("a", 4)]), counts(&[("c", 0), ("b", 1)])] {
        for (k, v) in &report {
            *map.entry(k.clone()).or_insert(*v) += *v;
        }
        merge_counts(&mut c, &report);
    }
    let mut expected: Vec<(String, u64)> = map.into_iter().collect();
    expected.sort();
    c.sort();
    assert_eq!(c, expected);
}

#[test]
fn countries_renamed_by_table() {
    let table = vec![("CN".to_string(), "China".to_string()), ("DE".to_string(), "Germany".to_string())];
    let r = rename_countries(&counts(&[("DE", 4), ("XX", 1), ("CN", 2)]), &table);
    assert_eq!(r, counts(&[("Germany", 4), ("China", 2)]));
}

fn row(label: Option<&str>, tls: Option<u64>, pv: Option<u64>) -> TrafficRow {
    TrafficRow { label: label.map(|s| s.to_string()), tls, pv }
}

#[test]
fn latest_traffic_oldest_first_with_defaults() {
    let rows = vec![row(Some("10:02"), Some(1), Some(2)), row(None, None, Some(5)), row(Some("10:00"), Some(3), None)];
    let r = latest_traffic(&rows);
    let v: Vec<(String, u64, u64)> = r.into_iter().map(|i| (i.time, i.tls, i.pv)).collect();
    assert_eq!(
        v,
        vec![("10:00".to_string(), 3, 0), ("-".to_string(), 0, 5), ("10:02".to_string(), 1, 2)]
    );
}

#[test]
fn grouped_traffic_sums_per_label_newest_first() {
    let rows = vec![
        row(Some("01"), Some(1), Some(10)),
        row(Some("02"), Some(2), Some(20)),
        row(None, Some(100), Some(100)),
        row(Some("01"), None, Some(5)),
        row(Some("03"), Some(3), None),
    ];
    let r = group_traffic(&rows);
    let v: Vec<(String, u64, u64)> = r.into_iter().map(|i| (i.time, i.tls, i.pv)).collect();
    assert_eq!(
        v,
        vec![("03".to_string(), 3, 0), ("02".to_string(), 2, 20), ("01".to_string(), 1, 15)]
    );
    let total: u64 = v.iter().map(|x| x.2).sum();
    assert_eq!(total, 35);
}

#[test]
fn traffic_counters_add_up() {
    let mut t = TrafficItem::new();
    t.add_counters(Some(2), Some(5));
    t.add_counters(None, Some(1));
    assert_eq!(t.tls, 2);
    assert_eq!(t.pv, 6);
}

#[test]
fn new_tasks_start_one_period_back() {
    let r = new_task_row("analytics_minute_c", 1, 10_000);
    assert_eq!(r.last_time, Some(9_940));
    assert_eq!(r.task_type, Some(1));
    assert_eq!(r.name.as_deref(), Some("analytics_minute_c"));
    let r = new_task_row("analytics_hour_c", 2, 10_000);
    assert_eq!(r.last_time, Some(6_400));
}

#[test]
fn task_read_from_row() {
    let r = new_task_row("t", 2, 10_000);
    let t = task_from_row(&r, 20_000);
    assert_eq!(t.name, "t");
    assert_eq!(t.task_type, 2);
    assert_eq!(t.end_time, 6_400);
    let mut r = new_task_row("t", 2, 10_000);
    r.last_time = None;
    r.name = None;
    let t = task_from_row(&r, 20_000);
    assert_eq!(t.end_time, 19_940);
    assert_eq!(t.name, "");
    let p = task_progress_row(&Task { name: "t".to_string(), task_type: 1, end_time: 123 }, 5);
    assert_eq!(p.last_time, Some(123));
    assert_eq!(p.gmt_modified, Some(5));
    assert_eq!(p.name, None);
    assert_eq!(task_key("analytics_minute_", "c1"), "analytics_minute_c1");
}

#[test]
fn windows_stay_behind_now() {
    assert_eq!(next_window(100, 60, 200), Some((100, 160)));
    assert_eq!(next_window(100, 60, 160), None);
    let mut end = 0i64;
    let mut n = 0;
    while let Some((a, b)) = next_window(end, 60, 1000) {
        assert_eq!(a, end);
        assert!(b < 1000);
        end = b;
        n += 1;
    }
    assert_eq!(n, 16);
}

#[test]
fn save_plans() {
    assert_eq!(minute_save_plan(true, 0, true), SavePlan { save_monitor: false, save_traffic: true, update_task: true });
    assert_eq!(minute_save_plan(true, 2, false), SavePlan { save_monitor: true, save_traffic: false, update_task: true });
    assert_eq!(hour_save_plan(true, 0, true), SavePlan { save_monitor: false, save_traffic: false, update_task: false });
    assert_eq!(hour_save_plan(false, 3, true), SavePlan { save_monitor: false, save_traffic: true, update_task: true });
    assert_eq!(mean(10, 3), 3);
}

#[test]
fn traffic_rows() {
    let r = traffic_report_row("c".to_string(), "ip".to_string(), 1, 2, Some("{}".to_string()), None, None, 7);
    assert_eq!(r.tls, Some(1));
    assert_eq!(r.pv, Some(2));
    assert_eq!(r.ip.as_deref(), Some("ip"));
    assert_eq!(r.http_country.as_deref(), Some("{}"));
    assert_eq!(r.gmt_create, Some(7));
    let r = traffic_period_row("c".to_string(), 3, 4, None, None, Some("{}".to_string()), 60);
    assert_eq!(r.pv, Some(4));
    assert_eq!(r.http_source.as_deref(), Some("{}"));
    assert_eq!(r.gmt_modified, Some(60));
}
