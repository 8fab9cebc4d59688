use fps_overlay::history::{PlotPoint, SampleHistory};

fn contents<const CAP: usize>(history: &SampleHistory<f64, CAP>) -> Vec<f64> {
    let mut out = Vec::new();
    let mut i = 0;
    while let Some(v) = history.get(i) {
        out.push(v);
        i += 1;
    }
    out
}

#[test]
fn new_history_is_empty() {
    let history: SampleHistory<f64, 4> = SampleHistory::new();
    assert_eq!(history.len(), 0);
    assert_eq!(history.get(0), None);
    assert!(history.plot_points().is_empty());
}

#[test]
fn push_puts_the_newest_in_front() {
    let mut history: SampleHistory<f64, 4> = SampleHistory::new();
    history.push(1.0);
    history.push(2.0);
    history.push(3.0);
    assert_eq!(history.len(), 3);
    assert_eq!(contents(&history), vec![3.0, 2.0, 1.0]);
}

#[test]
fn push_beyond_the_cap_evicts_the_oldest() {
    let mut history: SampleHistory<f64, 3> = SampleHistory::new();
    for v in [1.0, 2.0, 3.0, 4.0, 5.0] {
        history.push(v);
    }
    assert_eq!(history.len(), 3);
    assert_eq!(contents(&history), vec![5.0, 4.0, 3.0]);
}

#[test]
fn length_is_the_smaller_of_pushes_and_cap() {
    let mut history: SampleHistory<f64, 5> = SampleHistory::new();
    for n in 1..=12usize {
        history.push(n as f64);
        assert_eq!(history.len(), n.min(5));
        assert_eq!(history.get(0), Some(n as f64));
    }
    assert_eq!(contents(&history), vec![12.0, 11.0, 10.0, 9.0, 8.0]);
}

#[test]
fn history_of_cap_one_keeps_the_last_sample() {
    let mut history: SampleHistory<f64, 1> = SampleHistory::new();
    history.push(7.0);
    history.push(8.0);
    assert_eq!(contents(&history), vec![8.0]);
}

#[test]
fn history_of_cap_zero_stays_empty() {
    let mut history: SampleHistory<f64, 0> = SampleHistory::new();
    history.push(7.0);
    assert_eq!(history.len(), 0);
    assert_eq!(history.get(0), None);
    assert!(history.plot_points().is_empty());
}

#[test]
fn get_counts_from_the_newest() {
    let mut history: SampleHistory<f64, 4> = SampleHistory::new();
    history.push(10.0);
    history.push(20.0);
    assert_eq!(history.get(0), Some(20.0));
    assert_eq!(history.get(1), Some(10.0));
    assert_eq!(history.get(2), None);
    assert_eq!(history.get(usize::MAX), None);
}

#[test]
fn plot_points_run_from_the_oldest() {
    let mut history: SampleHistory<f64, 8> = SampleHistory::new();
    for v in [1.5, 2.5, 3.5] {
        history.push(v);
    }
    assert_eq!(
        history.plot_points(),
        vec![
            PlotPoint { index: 0, value: 1.5 },
            PlotPoint { index: 1, value: 2.5 },
            PlotPoint { index: 2, value: 3.5 },
        ]
    );
}

#[test]
fn plot_point_indices_increase_from_zero() {
    let mut history: SampleHistory<f64, 16> = SampleHistory::new();
    for n in 0..40 {
        history.push(n as f64);
    }
    let points = history.plot_points();
    assert_eq!(points.len(), history.len());
    for (i, point) in points.iter().enumerate() {
        assert_eq!(point.index, i);
        assert_eq!(Some(point.value), history.get(points.len() - 1 - i));
    }
    assert_eq!(points[0].value, 24.0);
    assert_eq!(points[15].value, 39.0);
}

#[test]
fn plot_points_after_eviction_start_again_at_zero() {
    let mut history: SampleHistory<f64, 2> = SampleHistory::new();
    for v in [1.0, 2.0, 3.0] {
        history.push(v);
    }
    assert_eq!(
        history.plot_points(),
        vec![PlotPoint { index: 0, value: 2.0 }, PlotPoint { index: 1, value: 3.0 }]
    );
}

#[test]
fn scenario_2001_pushes_into_a_cap_of_2000() {
    let mut history: SampleHistory<f64, 2000> = SampleHistory::new();
    for n in 0..2001 {
        history.push(n as f64);
    }
    assert_eq!(history.len(), 2000);
    assert_eq!(history.get(0), Some(2000.0));
    assert_eq!(history.get(1999), Some(1.0));
    assert_eq!(history.get(2000), None);
    assert!(contents(&history).iter().all(|v| *v != 0.0));
    let points = history.plot_points();
    assert_eq!(points[0], PlotPoint { index: 0, value: 1.0 });
    assert_eq!(points[1999], PlotPoint { index: 1999, value: 2000.0 });
}
