use credentials::record::{Credentials, CredentialsError};
use credentials::session::{begin, step, Action, Event, State, PASSWORD_PROMPT, USERNAME_PROMPT};

/// An action written so that two can be compared.
fn shown(action: &Action) -> String {
    match action {
        Action::ReadFile { path } => format!("read {:?}", path),
        Action::Prompt { text } => format!("prompt {:?}", text),
        Action::WriteFile { path, contents } => format!("write {:?} {:?}", path, contents),
        Action::Return { outcome: Ok(credentials) } => {
            format!("return {:?} {:?}", credentials.username, credentials.password)
        }
        Action::Return { outcome: Err(error) } => format!("fail {:?}", error),
    }
}

fn read(contents: &str) -> Event {
    Event::FileRead { contents: contents.to_string() }
}

fn line(text: &str) -> Event {
    Event::InputLine { text: text.to_string() }
}

/// What is to be done at the start and after each of `events`.
fn actions(file_name: Option<&str>, events: Vec<Event>) -> Vec<String> {
    let (mut state, action) = begin(file_name);
    let mut seen = vec![shown(&action)];
    for event in events {
        let (next, action) = step(state, event);
        assert_eq!(shown(&next.action()), shown(&action));
        seen.push(shown(&action));
        state = next;
    }
    seen
}

/// A stand-in for the files: `obtain` runs a session against it, taking its
/// input from `input`, and says whether it prompted.
struct Disk {
    file: Option<String>,
    writable: bool,
    touched: Vec<String>,
}

fn obtain(
    file_name: Option<&str>,
    disk: &mut Disk,
    input: &[&str],
) -> (Result<Credentials, CredentialsError>, usize) {
    let mut input = input.iter();
    let mut prompts = 0;
    let (mut state, mut action) = begin(file_name);
    loop {
        let event = match action {
            Action::ReadFile { path } => {
                disk.touched.push(path);
                match &disk.file {
                    Some(contents) => Event::FileRead { contents: contents.clone() },
                    None => Event::FileUnreadable,
                }
            }
            Action::Prompt { .. } => {
                prompts += 1;
                match input.next() {
                    Some(text) => Event::InputLine { text: text.to_string() },
                    None => Event::InputClosed,
                }
            }
            Action::WriteFile { path, contents } => {
                disk.touched.push(path);
                if disk.writable {
                    disk.file = Some(contents);
                }
                Event::WriteDone { saved: disk.writable }
            }
            Action::Return { outcome } => return (outcome, prompts),
        };
        (state, action) = step(state, event);
    }
}

fn texts(outcome: Result<Credentials, CredentialsError>) -> Result<(String, String), CredentialsError> {
    match outcome {
        Ok(credentials) => Ok((credentials.username, credentials.password)),
        Err(error) => Err(error),
    }
}

fn both(username: &str, password: &str) -> Result<(String, String), CredentialsError> {
    Ok((username.to_string(), password.to_string()))
}

#[test]
fn prompts_are_the_two_fixed_texts() {
    assert_eq!(USERNAME_PROMPT, "username: ");
    assert_eq!(PASSWORD_PROMPT, "password: ");
}

#[test]
fn session_starts_by_reading_the_named_file() {
    assert_eq!(actions(Some("/home/alice/creds"), vec![]), vec!["read \"/home/alice/creds\""]);
}

#[test]
fn session_for_no_name_reads_the_default_file() {
    assert_eq!(actions(None, vec![]), vec!["read \"credentials\""]);
    assert_eq!(actions(None, vec![]), actions(Some("credentials"), vec![]));
}

#[test]
fn file_present_returns_its_credentials_without_a_prompt() {
    assert_eq!(
        actions(Some("creds"), vec![read("alice\nsecret\n")]),
        vec!["read \"creds\"", "return \"alice\" \"secret\""]
    );
    let mut disk = Disk { file: Some("alice\nsecret\n".to_string()), writable: true, touched: vec![] };
    let (outcome, prompts) = obtain(Some("creds"), &mut disk, &[]);
    assert_eq!(texts(outcome), both("alice", "secret"));
    assert_eq!(prompts, 0);
    assert_eq!(disk.file, Some("alice\nsecret\n".to_string()));
}

#[test]
fn missing_file_falls_back_to_the_prompts_and_persists() {
    assert_eq!(
        actions(
            Some("creds"),
            vec![Event::FileUnreadable, line("bob"), line("hunter2"), Event::WriteDone { saved: true }]
        ),
        vec![
            "read \"creds\"",
            "prompt \"username: \"",
            "prompt \"password: \"",
            "write \"creds\" \"bob\\nhunter2\"",
            "return \"bob\" \"hunter2\"",
        ]
    );
    let mut disk = Disk { file: None, writable: true, touched: vec![] };
    let (outcome, prompts) = obtain(Some("creds"), &mut disk, &["bob", "hunter2"]);
    assert_eq!(texts(outcome), both("bob", "hunter2"));
    assert_eq!(prompts, 2);
    assert_eq!(disk.file, Some("bob\nhunter2".to_string()));
}

#[test]
fn second_call_reads_what_the_first_persisted() {
    let mut disk = Disk { file: None, writable: true, touched: vec![] };
    let (first, _) = obtain(Some("creds"), &mut disk, &["bob", "hunter2"]);
    let (second, prompts) = obtain(Some("creds"), &mut disk, &[]);
    assert_eq!(texts(second), texts(first));
    assert_eq!(prompts, 0);
    assert_eq!(disk.file, Some("bob\nhunter2".to_string()));
}

#[test]
fn malformed_file_fails() {
    assert_eq!(
        actions(Some("creds"), vec![read("onlyusername")]),
        vec!["read \"creds\"", "fail MalformedCredentialsFile"]
    );
    let mut disk = Disk { file: Some("onlyusername".to_string()), writable: true, touched: vec![] };
    let (outcome, prompts) = obtain(Some("creds"), &mut disk, &["bob", "hunter2"]);
    assert_eq!(texts(outcome), Err(CredentialsError::MalformedCredentialsFile));
    assert_eq!(prompts, 0);
    assert_eq!(disk.file, Some("onlyusername".to_string()));
}

#[test]
fn failed_write_is_not_an_error() {
    assert_eq!(
        actions(
            Some("/readonly/creds"),
            vec![Event::FileUnreadable, line("carol"), line("pw"), Event::WriteDone { saved: false }]
        ),
        vec![
            "read \"/readonly/creds\"",
            "prompt \"username: \"",
            "prompt \"password: \"",
            "write \"/readonly/creds\" \"carol\\npw\"",
            "return \"carol\" \"pw\"",
        ]
    );
    let mut disk = Disk { file: None, writable: false, touched: vec![] };
    let (outcome, _) = obtain(Some("/readonly/creds"), &mut disk, &["carol", "pw"]);
    assert_eq!(texts(outcome), both("carol", "pw"));
    assert_eq!(disk.file, None);
    let (again, prompts) = obtain(Some("/readonly/creds"), &mut disk, &["carol", "pw"]);
    assert_eq!(texts(again), both("carol", "pw"));
    assert_eq!(prompts, 2);
}

#[test]
fn no_name_touches_the_same_file_as_the_default_name() {
    let mut unnamed = Disk { file: None, writable: true, touched: vec![] };
    let mut named = Disk { file: None, writable: true, touched: vec![] };
    let _ = obtain(None, &mut unnamed, &["bob", "hunter2"]);
    let _ = obtain(Some("credentials"), &mut named, &["bob", "hunter2"]);
    assert_eq!(unnamed.touched, vec!["credentials".to_string(), "credentials".to_string()]);
    assert_eq!(unnamed.touched, named.touched);
    assert_eq!(unnamed.file, named.file);
}

#[test]
fn input_closed_at_the_username_fails() {
    assert_eq!(
        actions(Some("creds"), vec![Event::FileUnreadable, Event::InputClosed]),
        vec!["read \"creds\"", "prompt \"username: \"", "fail InputStreamClosed"]
    );
    let mut disk = Disk { file: None, writable: true, touched: vec![] };
    let (outcome, prompts) = obtain(Some("creds"), &mut disk, &[]);
    assert_eq!(texts(outcome), Err(CredentialsError::InputStreamClosed));
    assert_eq!(prompts, 1);
    assert_eq!(disk.file, None);
}

#[test]
fn input_closed_at_the_password_fails_and_writes_nothing() {
    assert_eq!(
        actions(Some("creds"), vec![Event::FileUnreadable, line("bob"), Event::InputClosed]),
        vec![
            "read \"creds\"",
            "prompt \"username: \"",
            "prompt \"password: \"",
            "fail InputStreamClosed",
        ]
    );
    let mut disk = Disk { file: None, writable: true, touched: vec![] };
    let (outcome, prompts) = obtain(Some("creds"), &mut disk, &["bob"]);
    assert_eq!(texts(outcome), Err(CredentialsError::InputStreamClosed));
    assert_eq!(prompts, 2);
    assert_eq!(disk.file, None);
    assert_eq!(disk.touched, vec!["creds".to_string()]);
}

#[test]
fn empty_lines_of_input_are_credentials_too() {
    let mut disk = Disk { file: None, writable: true, touched: vec![] };
    let (outcome, _) = obtain(Some("creds"), &mut disk, &["", ""]);
    assert_eq!(texts(outcome), both("", ""));
    assert_eq!(disk.file, Some("\n".to_string()));
    let (again, prompts) = obtain(Some("creds"), &mut disk, &[]);
    assert_eq!(texts(again), Err(CredentialsError::MalformedCredentialsFile));
    assert_eq!(prompts, 0);
}

#[test]
fn input_is_kept_as_it_was_given() {
    let mut disk = Disk { file: None, writable: true, touched: vec![] };
    let (outcome, _) = obtain(Some("creds"), &mut disk, &[" bob\t", "hunter 2 "]);
    assert_eq!(texts(outcome), both(" bob\t", "hunter 2 "));
    assert_eq!(disk.file, Some(" bob\t\nhunter 2 ".to_string()));
}

#[test]
fn event_that_is_not_waited_for_changes_nothing() {
    assert_eq!(
        actions(Some("creds"), vec![line("bob"), Event::InputClosed, Event::WriteDone { saved: true }]),
        vec!["read \"creds\"", "read \"creds\"", "read \"creds\"", "read \"creds\""]
    );
    assert_eq!(
        actions(
            Some("creds"),
            vec![
                Event::FileUnreadable,
                read("alice\nsecret\n"),
                Event::FileUnreadable,
                Event::WriteDone { saved: true },
                line("bob"),
                read("alice\nsecret\n"),
                Event::WriteDone { saved: false },
                line("hunter2"),
                line("again"),
                Event::InputClosed,
                read("alice\nsecret\n"),
                Event::FileUnreadable,
                Event::WriteDone { saved: true },
            ]
        ),
        vec![
            "read \"creds\"",
            "prompt \"username: \"",
            "prompt \"username: \"",
            "prompt \"username: \"",
            "prompt \"username: \"",
            "prompt \"password: \"",
            "prompt \"password: \"",
            "prompt \"password: \"",
            "write \"creds\" \"bob\\nhunter2\"",
            "write \"creds\" \"bob\\nhunter2\"",
            "write \"creds\" \"bob\\nhunter2\"",
            "write \"creds\" \"bob\\nhunter2\"",
            "write \"creds\" \"bob\\nhunter2\"",
            "return \"bob\" \"hunter2\"",
        ]
    );
}

#[test]
fn finished_session_stays_finished() {
    let (state, _) = begin(Some("creds"));
    let (state, _) = step(state, read("alice\nsecret\n"));
    let (state, action) = step(state, Event::FileUnreadable);
    assert_eq!(shown(&action), "return \"alice\" \"secret\"");
    let (state, action) = step(state, line("bob"));
    assert_eq!(shown(&action), "return \"alice\" \"secret\"");
    let (state, action) = step(state, read("x\ny"));
    assert_eq!(shown(&action), "return \"alice\" \"secret\"");
    assert!(matches!(state, State::Finished { outcome: Ok(_) }));

    let (state, _) = begin(Some("creds"));
    let (state, _) = step(state, read(""));
    let (state, action) = step(state, Event::WriteDone { saved: true });
    assert_eq!(shown(&action), "fail MalformedCredentialsFile");
    assert!(matches!(
        state,
        State::Finished { outcome: Err(CredentialsError::MalformedCredentialsFile) }
    ));
}

#[test]
fn session_is_over_after_at_most_four_events() {
    let runs: Vec<Vec<Event>> = vec![
        vec![read("a\nb")],
        vec![read("")],
        vec![Event::FileUnreadable, Event::InputClosed],
        vec![Event::FileUnreadable, line("a"), Event::InputClosed],
        vec![Event::FileUnreadable, line("a"), line("b"), Event::WriteDone { saved: true }],
        vec![Event::FileUnreadable, line("a"), line("b"), Event::WriteDone { saved: false }],
    ];
    for events in runs {
        assert!(events.len() <= 4);
        let (mut state, _) = begin(None);
        for event in events {
            assert!(!matches!(state, State::Finished { .. }));
            state = step(state, event).0;
        }
        assert!(matches!(state, State::Finished { .. }));
    }
}
