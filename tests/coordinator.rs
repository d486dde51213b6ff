use arch_audit_gtk::coordinator::{Command, Coordinator, Input, Phase, TriggerEvent};
use arch_audit_gtk::icon::Icon;
use arch_audit_gtk::status::{Status, Update};

fn update(text: &str, link: &str) -> Update {
    Update {
        text: text.to_string(),
        link: link.to_string(),
    }
}

/// Feeds the inputs and collects the commands given and statuses published.
fn feed(c: &mut Coordinator, inputs: Vec<Input>) -> (Vec<Command>, Vec<Status>) {
    let mut commands = Vec::new();
    let mut published = Vec::new();
    for i in inputs {
        let step = c.step(i);
        commands.push(step.command);
        if let Some(s) = step.publish {
            published.push(s);
        }
    }
    (commands, published)
}

fn checks(commands: &[Command]) -> usize {
    commands.iter().filter(|c| **c == Command::RunCheck).count()
}

#[test]
fn starts_idle_waiting_for_a_trigger() {
    let c = Coordinator::new();
    assert_eq!(c.phase(), Phase::Idle);
    assert_eq!(c.first_command(), Command::WaitForTrigger);
}

#[test]
fn three_file_changes_while_idle_run_one_check() {
    let mut c = Coordinator::new();
    let records = vec![
        update("openssl 3.0.1 is affected by CVE-2022-0001", "https://security.archlinux.org/AVG-1"),
        update("curl 7.80.0 is affected by CVE-2022-0002", "https://security.archlinux.org/AVG-2"),
    ];
    let (commands, published) = feed(
        &mut c,
        vec![
            Input::Trigger(TriggerEvent::FileChanged),
            Input::Trigger(TriggerEvent::FileChanged),
            Input::Trigger(TriggerEvent::FileChanged),
            Input::QueueEmpty,
        ],
    );
    assert_eq!(
        commands,
        vec![Command::DrainQueue, Command::DrainQueue, Command::DrainQueue, Command::RunCheck]
    );
    assert!(published.is_empty());
    assert_eq!(c.phase(), Phase::Running);

    let (commands, published) = feed(
        &mut c,
        vec![Input::Finished(Ok(records.clone())), Input::QueueEmpty],
    );
    assert_eq!(commands, vec![Command::DrainQueue, Command::WaitForTrigger]);
    assert_eq!(published, vec![Status::MissingUpdates(records.clone())]);
    assert_eq!(published[0].updates(), records.as_slice());
    assert_eq!(published[0].icon(), Icon::Alert);
    assert_eq!(c.phase(), Phase::Idle);
}

#[test]
fn failed_check_publishes_its_error() {
    let mut c = Coordinator::new();
    let (_, published) = feed(
        &mut c,
        vec![
            Input::Trigger(TriggerEvent::UserClick),
            Input::QueueEmpty,
            Input::Finished(Err("tool not found".to_string())),
        ],
    );
    assert_eq!(published, vec![Status::Error("tool not found".to_string())]);
    assert_eq!(published[0].icon(), Icon::Cross);
    assert_eq!(published[0].text(), "Error: tool not found");
}

#[test]
fn click_while_running_gives_exactly_one_follow_up() {
    let mut c = Coordinator::new();
    feed(&mut c, vec![Input::Trigger(TriggerEvent::FileChanged), Input::QueueEmpty]);
    assert_eq!(c.phase(), Phase::Running);

    let step = c.step(Input::Trigger(TriggerEvent::UserClick));
    assert_eq!(step.command, Command::AwaitCheck);
    assert_eq!(step.publish, None);
    let step = c.step(Input::Trigger(TriggerEvent::UserClick));
    assert_eq!(step.command, Command::AwaitCheck);
    assert_eq!(c.phase(), Phase::RunningPending);

    let (commands, published) = feed(
        &mut c,
        vec![Input::Finished(Ok(vec![])), Input::QueueEmpty],
    );
    assert_eq!(commands, vec![Command::DrainQueue, Command::RunCheck]);
    assert_eq!(published, vec![Status::UpToDate]);
    assert_eq!(c.phase(), Phase::Running);
}

#[test]
fn trigger_queued_during_check_gives_one_follow_up() {
    let mut c = Coordinator::new();
    feed(&mut c, vec![Input::Trigger(TriggerEvent::FileChanged), Input::QueueEmpty]);
    let (commands, published) = feed(
        &mut c,
        vec![
            Input::Finished(Ok(vec![])),
            Input::Trigger(TriggerEvent::UserClick),
            Input::Trigger(TriggerEvent::FileChanged),
            Input::QueueEmpty,
        ],
    );
    assert_eq!(checks(&commands), 1);
    assert_eq!(commands.last(), Some(&Command::RunCheck));
    assert_eq!(published, vec![Status::UpToDate]);
    assert_eq!(c.phase(), Phase::Running);
}

#[test]
fn no_follow_up_without_new_triggers() {
    let mut c = Coordinator::new();
    let (commands, _) = feed(
        &mut c,
        vec![
            Input::Trigger(TriggerEvent::FileChanged),
            Input::QueueEmpty,
            Input::Finished(Ok(vec![])),
            Input::QueueEmpty,
        ],
    );
    assert_eq!(checks(&commands), 1);
    assert_eq!(commands.last(), Some(&Command::WaitForTrigger));
    assert_eq!(c.phase(), Phase::Idle);
}

#[test]
fn statuses_published_in_completion_order() {
    let mut c = Coordinator::new();
    let r1: Result<Vec<Update>, String> = Ok(vec![]);
    let r2: Result<Vec<Update>, String> = Err("exit status 1".to_string());
    let r3: Result<Vec<Update>, String> = Ok(vec![update("zlib", "https://example.org/a")]);
    let mut inputs = Vec::new();
    for r in [r1, r2, r3] {
        inputs.push(Input::Trigger(TriggerEvent::FileChanged));
        inputs.push(Input::QueueEmpty);
        inputs.push(Input::Finished(r));
    }
    let (commands, published) = feed(&mut c, inputs);
    assert_eq!(checks(&commands), 3);
    assert_eq!(
        published,
        vec![
            Status::UpToDate,
            Status::Error("exit status 1".to_string()),
            Status::MissingUpdates(vec![update("zlib", "https://example.org/a")]),
        ]
    );
}

#[test]
fn stray_inputs_change_nothing() {
    let mut c = Coordinator::new();
    let step = c.step(Input::Finished(Ok(vec![])));
    assert_eq!(step.publish, None);
    assert_eq!(step.command, Command::WaitForTrigger);
    let step = c.step(Input::QueueEmpty);
    assert_eq!(step.command, Command::WaitForTrigger);
    assert_eq!(c.phase(), Phase::Idle);

    c.step(Input::Trigger(TriggerEvent::FileChanged));
    let step = c.step(Input::Finished(Ok(vec![])));
    assert_eq!(step.publish, None);
    assert_eq!(step.command, Command::DrainQueue);
    assert_eq!(c.phase(), Phase::Collecting);
}
