use ts3tts::playback::{espeak_arguments, next_action, Action};
use ts3tts::threads::{TtsThreads, MAX_TTS_PROCESSES};

#[test]
fn no_more_than_the_maximum_is_read_at_once() {
    let mut threads: TtsThreads<String> = TtsThreads::new();
    for i in 0..MAX_TTS_PROCESSES {
        assert!(threads.tts(|number| format!("text {}", number)));
        assert_eq!(threads.threads.len(), i + 1);
        assert_eq!(threads.last, i + 1);
    }
    assert!(!threads.tts(|_| panic!("there is no room")));
    assert_eq!(threads.threads.len(), 5);
    assert_eq!(threads.last, 5);
    assert_eq!(threads.finish(2), Some("text 2".to_string()));
    assert!(threads.tts(|number| format!("text {}", number)));
    let numbers: Vec<usize> = threads.threads.iter().map(|t| t.1).collect();
    assert_eq!(numbers, [1, 3, 4, 5, 6]);
}

#[test]
fn finishing_undoes_starting() {
    let mut threads: TtsThreads<u8> = TtsThreads::new();
    threads.tts(|_| 7);
    threads.tts(|_| 8);
    let before = threads.threads.clone();
    assert!(threads.tts(|_| 9));
    let number = threads.last;
    assert_eq!(threads.finish(number), Some(9));
    assert_eq!(threads.threads, before);
    assert_eq!(threads.finish(number), None);
    assert_eq!(threads.threads, before);
}

#[test]
fn numbers_wrap_around() {
    let mut threads: TtsThreads<u8> = TtsThreads { threads: vec![(1, usize::MAX)], last: usize::MAX };
    assert!(threads.tts(|number| {
        assert_eq!(number, 0);
        2
    }));
    assert!(threads.tts(|_| 3));
    assert_eq!(threads.threads, [(1, usize::MAX), (2, 0), (3, 1)]);
    assert_eq!(threads.finish(0), Some(2));
    assert_eq!(threads.threads, [(1, usize::MAX), (3, 1)]);
}

#[test]
fn the_oldest_of_equal_numbers_goes_first() {
    let mut threads: TtsThreads<u8> = TtsThreads { threads: vec![(1, 4), (2, 4)], last: 4 };
    assert_eq!(threads.finish(4), Some(1));
    assert_eq!(threads.threads, [(2, 4)]);
}

#[test]
fn shutdown_hands_out_all_handles() {
    let mut threads: TtsThreads<u8> = TtsThreads::new();
    assert!(threads.shutdown().is_empty());
    threads.tts(|_| 7);
    threads.tts(|_| 8);
    threads.tts(|_| 9);
    assert_eq!(threads.shutdown(), [7, 8, 9]);
    assert!(threads.threads.is_empty());
    assert_eq!(threads.last, 3);
    assert_eq!(threads.finish(2), None);
}

#[test]
fn arguments_of_espeak() {
    assert_eq!(
        espeak_arguments("-f /etc/passwd"),
        ["-ven+f2", "-s150", "--stdout", "--", "-f /etc/passwd"]
    );
}

/// The actions of a run in which the given ones fail, and what is logged.
fn run(failing: &[Action]) -> (Vec<Action>, Vec<String>) {
    let mut actions = Vec::new();
    let mut log = Vec::new();
    let mut next = Some(Action::StartEspeak);
    while let Some(action) = next {
        actions.push(action);
        let error = if failing.contains(&action) { Some("oops") } else { None };
        let (following, line) = next_action(action, error, "hi there");
        log.extend(line);
        next = following;
    }
    (actions, log)
}

#[test]
fn a_run_without_errors() {
    let (actions, log) = run(&[]);
    assert_eq!(
        actions,
        [Action::StartEspeak, Action::StartAplay, Action::WaitForAplay, Action::WaitForEspeak]
    );
    assert!(log.is_empty());
}

#[test]
fn espeak_cannot_be_started() {
    let (actions, log) = run(&[Action::StartEspeak]);
    assert_eq!(actions, [Action::StartEspeak]);
    assert_eq!(log, ["Couldn't read 'hi there'"]);
}

#[test]
fn aplay_cannot_be_started() {
    let (actions, log) = run(&[Action::StartAplay]);
    assert_eq!(actions, [Action::StartEspeak, Action::StartAplay, Action::WaitForEspeak]);
    assert_eq!(log, ["Can't start aplay process because oops"]);
}

#[test]
fn waiting_fails() {
    let (actions, log) = run(&[Action::WaitForAplay, Action::WaitForEspeak]);
    assert_eq!(
        actions,
        [Action::StartEspeak, Action::StartAplay, Action::WaitForAplay, Action::WaitForEspeak]
    );
    assert_eq!(
        log,
        [
            "Can't wait for aplay process because oops",
            "Can't wait for espeak process because oops",
        ]
    );
}
