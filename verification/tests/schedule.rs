use gpu_quantum_annealing::progress::{ProgressData, ProgressWatch};
use gpu_quantum_annealing::schedule::{DevelopAction, DevelopSchedule};

fn run(mut s: DevelopSchedule) -> (Vec<DevelopAction>, DevelopSchedule) {
    let mut actions = Vec::new();
    loop {
        let a = s.next_action();
        actions.push(a);
        if a == DevelopAction::Finish {
            return (actions, s);
        }
    }
}

#[test]
fn linear_run_develops_every_step() {
    let (actions, s) = run(DevelopSchedule::new(true, 200, 10));
    assert_eq!(actions.len(), 201);
    let mut normalized = 0;
    let mut reports = Vec::new();
    for (k, a) in actions[..200].iter().enumerate() {
        match *a {
            DevelopAction::Develop { index, normalize, report } => {
                assert_eq!(index, k as u64);
                assert_eq!(normalize, index % 10 == 0);
                if normalize {
                    normalized += 1;
                }
                if report {
                    reports.push(index);
                }
            }
            _ => panic!("expected Develop"),
        }
    }
    assert_eq!(normalized, 20);
    assert_eq!(reports.len(), 99);
    assert_eq!(reports[0], 2);
    assert_eq!(*reports.last().unwrap(), 198);
    assert_eq!(actions[200], DevelopAction::Finish);
    assert_eq!(s.progress, ProgressData::new(200, 198, true));
}

#[test]
fn first_step_renormalises_and_does_not_report() {
    let mut s = DevelopSchedule::new(true, 200, 7);
    assert_eq!(
        s.next_action(),
        DevelopAction::Develop { index: 0, normalize: true, report: false }
    );
    assert_eq!(s.progress.current_step, 0);
}

#[test]
fn short_linear_run_reports_each_step() {
    let (actions, s) = run(DevelopSchedule::new(true, 3, 2));
    assert_eq!(
        actions,
        vec![
            DevelopAction::Develop { index: 0, normalize: true, report: false },
            DevelopAction::Develop { index: 1, normalize: false, report: true },
            DevelopAction::Develop { index: 2, normalize: true, report: true },
            DevelopAction::Finish,
        ]
    );
    assert_eq!(s.progress, ProgressData::new(3, 2, true));
}

#[test]
fn quadratic_run_warms_up_first() {
    let (actions, s) = run(DevelopSchedule::new(false, 3, 1));
    assert_eq!(
        actions,
        vec![
            DevelopAction::PreDevelop,
            DevelopAction::Develop { index: 1, normalize: true, report: true },
            DevelopAction::Develop { index: 2, normalize: true, report: true },
            DevelopAction::Finish,
        ]
    );
    assert_eq!(s.progress, ProgressData::new(3, 2, true));
}

#[test]
fn empty_runs() {
    let (actions, s) = run(DevelopSchedule::new(true, 0, 0));
    assert_eq!(actions, vec![DevelopAction::Finish]);
    assert_eq!(s.progress, ProgressData::new(0, 0, true));
    let (actions, _) = run(DevelopSchedule::new(false, 1, 0));
    assert_eq!(actions, vec![DevelopAction::PreDevelop, DevelopAction::Finish]);
}

#[test]
fn watch_notifies_on_change_and_stops_when_finished() {
    let mut w = ProgressWatch::new();
    let p0 = ProgressData::new(100, 0, false);
    let d = w.observe(p0);
    assert!(d.notify && !d.stop);
    let d = w.observe(p0);
    assert!(!d.notify && !d.stop);
    let p1 = ProgressData::new(100, 40, false);
    let d = w.observe(p1);
    assert!(d.notify && !d.stop);
    let p2 = ProgressData::new(100, 40, true);
    let d = w.observe(p2);
    assert!(d.notify && d.stop);
    assert_eq!(w.last_saved, Some(p2));
}
