use alertmanager_forwarder::alertmanager::{Alert, Annotation, Label, Payload};
use alertmanager_forwarder::relay::{BatchRun, DispatchOutcome};
use alertmanager_forwarder::routes::ReplyBody;

fn alert(title: &str) -> Alert {
    Alert {
        status: "firing".to_string(),
        labels: Label {
            alertname: "A".to_string(),
            job: "j".to_string(),
            instance: "i".to_string(),
        },
        annotations: Annotation { title: Some(title.to_string()), description: None, priority: None },
    }
}

#[test]
fn failed_dispatch_does_not_stop_the_batch() {
    let titles = ["a", "b", "c", "d"];
    let payload = Payload { alerts: titles.iter().map(|t| alert(t)).collect() };
    let mut run = BatchRun::start(payload);
    let mut attempted = Vec::new();
    while let Some(n) = run.current() {
        attempted.push(n.title.clone());
        let outcome = if attempted.len() == 2 {
            DispatchOutcome::Failed
        } else {
            DispatchOutcome::Delivered
        };
        run.record(outcome);
    }
    assert_eq!(attempted, vec!["a", "b", "c", "d"]);
    assert!(run.is_complete());
    assert_eq!(run.failed, vec![1]);
    let reply = run.reply();
    assert_eq!(reply.status, 200);
    assert!(matches!(reply.body, ReplyBody::Empty));
}

#[test]
fn every_dispatch_failing_still_acknowledges() {
    let payload = Payload { alerts: vec![alert("x"), alert("y")] };
    let mut run = BatchRun::start(payload);
    let mut count = 0;
    while run.current().is_some() {
        run.record(DispatchOutcome::Failed);
        count += 1;
    }
    assert_eq!(count, 2);
    assert_eq!(run.failed, vec![0, 1]);
    assert_eq!(run.reply().status, 200);
}

#[test]
fn empty_batch_makes_no_dispatch() {
    let run = BatchRun::start(Payload { alerts: Vec::new() });
    assert!(run.current().is_none());
    assert!(run.is_complete());
    assert_eq!(run.reply().status, 200);
}

#[test]
fn record_after_completion_changes_nothing() {
    let mut run = BatchRun::start(Payload { alerts: vec![alert("x")] });
    run.record(DispatchOutcome::Delivered);
    run.record(DispatchOutcome::Failed);
    assert_eq!(run.next, 1);
    assert!(run.failed.is_empty());
}
