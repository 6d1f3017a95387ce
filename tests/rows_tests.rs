use speedtest_daemon::rows::{order_rows, render_row, render_rows, StoredRow};

fn row(epoch: i64, when: &str, values: &[&str]) -> StoredRow {
    StoredRow { epoch, when: when.to_string(), values: values.iter().map(|v| v.to_string()).collect() }
}

#[test]
fn renders_comma_joined() {
    let r = row(0, "1970-01-01 00:00:00", &["1.5", "2", "3.25", "4", "5"]);
    assert_eq!(render_row(&r), "1970-01-01 00:00:00,1.5,2,3.25,4,5");
    assert_eq!(render_row(&row(0, "t", &[])), "t");
}

#[test]
fn rendered_row_splits_back() {
    let values = ["93871234.5", "11234567.25", "18.75", "14417920", "117468024"];
    let r = row(1577836800, "2020-01-01 00:00:00", &values);
    let text = render_row(&r);
    let parts: Vec<&str> = text.split(',').collect();
    assert_eq!(parts.len(), 6);
    assert_eq!(parts[0], "2020-01-01 00:00:00");
    for i in 0..5 {
        assert_eq!(parts[i + 1], values[i]);
    }
}

#[test]
fn rows_come_back_by_timestamp() {
    let rows = vec![
        row(100, "1970-01-01 00:01:40", &["1"]),
        row(50, "1970-01-01 00:00:50", &["2"]),
        row(75, "1970-01-01 00:01:15", &["3"]),
    ];
    let ordered = order_rows(rows);
    let epochs: Vec<i64> = ordered.iter().map(|r| r.epoch).collect();
    assert_eq!(epochs, vec![50, 75, 100]);
}

#[test]
fn rendered_rows_in_order() {
    let rows = vec![
        row(100, "1970-01-01 00:01:40", &["1"]),
        row(50, "1970-01-01 00:00:50", &["2"]),
        row(75, "1970-01-01 00:01:15", &["3"]),
    ];
    assert_eq!(
        render_rows(rows),
        vec!["1970-01-01 00:00:50,2", "1970-01-01 00:01:15,3", "1970-01-01 00:01:40,1"]
    );
}

#[test]
fn empty_store_renders_nothing() {
    assert!(render_rows(Vec::new()).is_empty());
}

#[test]
fn equal_timestamps_are_all_kept() {
    let rows = vec![row(5, "a", &["1"]), row(5, "b", &["2"]), row(1, "c", &["3"])];
    let out = render_rows(rows);
    assert_eq!(out.len(), 3);
    assert_eq!(out[0], "c,3");
    assert!(out.contains(&"a,1".to_string()));
    assert!(out.contains(&"b,2".to_string()));
}

#[test]
fn float_figures_split_back() {
    let figures: [f64; 5] = [93871234.5, 11234567.25, 18.75, 14417920.0, 1e21];
    let values: Vec<String> = figures.iter().map(|f| f.to_string()).collect();
    let r = StoredRow { epoch: 1577836800, when: "2020-01-01 00:00:00".to_string(), values: values.clone() };
    let line = render_rows(vec![r]);
    let parts: Vec<&str> = line[0].split(',').collect();
    assert_eq!(parts.len(), 6);
    assert_eq!(parts[0], "2020-01-01 00:00:00");
    for i in 0..5 {
        assert_eq!(parts[i + 1], values[i]);
        assert_eq!(parts[i + 1].parse::<f64>().unwrap(), figures[i]);
    }
}
