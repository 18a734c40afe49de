use desktop_notify::{
    notify_send_command, replace_quotes, select_backend, strip_brackets, terminal_notifier_command,
    Backend, BuildError, NotificationBuilder, Platform, RequiredField, Step,
    HELPER_MISSING_EXIT_CODE,
};

fn full(title: &str, subtitle: &str, message: &str, sound: &str, open: &str) -> NotificationBuilder {
    NotificationBuilder::default()
        .title(title)
        .subtitle(subtitle)
        .message(message)
        .sound(sound)
        .open(open)
}

#[test]
fn it_works() {
    match NotificationBuilder::default()
        .title("TEST NOTIFICATION")
        .subtitle("Subtitle")
        .message("This is \"the\" message.")
        .sound("Pop")
        .open("https://google.com")
        .build()
    {
        Ok(notification) => {
            let dispatch = notification.notify(Platform::Other);
            assert_eq!(dispatch.backend, Backend::NotifySend);
            assert_eq!(
                dispatch.command,
                "notify-send \"TEST NOTIFICATION (Subtitle)\" \"This is 'the' message.\" https://google.com"
            );
        }
        Err(err) => println!("{:?}", err),
    }
}

#[test]
fn macos_all_fields() {
    let n = full("Hi", "Sub", "hello", "Pop", "https://example.com").build().unwrap();
    let d = n.notify(Platform::MacOs);
    assert_eq!(d.backend, Backend::TerminalNotifier);
    assert_eq!(
        d.command,
        "terminal-notifier -title \"Hi\" -subtitle \"Sub\" -message \"hello\" -sound \"Pop\" -open \"https://example.com\""
    );
}

#[test]
fn macos_default_sound_no_open() {
    let n = NotificationBuilder::new().title("T").subtitle("S").message("m").build().unwrap();
    assert_eq!(n.sound, None);
    assert_eq!(n.open, None);
    let d = n.notify(Platform::MacOs);
    assert_eq!(
        d.command,
        "terminal-notifier -title \"T\" -subtitle \"S\" -message \"m\" -sound \"default\""
    );
}

#[test]
fn macos_message_brackets_removed() {
    let n = NotificationBuilder::new().title("T").subtitle("S").message("a[b]c").build().unwrap();
    let d = n.notify(Platform::MacOs);
    assert_eq!(
        d.command,
        "terminal-notifier -title \"T\" -subtitle \"S\" -message \"abc\" -sound \"default\""
    );
}

#[test]
fn linux_all_fields() {
    let n = full("Hi", "Sub", "he said \"hi\"", "Pop", "https://example.com").build().unwrap();
    let d = n.notify(Platform::Other);
    assert_eq!(d.backend, Backend::NotifySend);
    assert_eq!(d.command, "notify-send \"Hi (Sub)\" \"he said 'hi'\" https://example.com");
}

#[test]
fn linux_no_open() {
    let n = NotificationBuilder::new().title("T").subtitle("S").message("m").build().unwrap();
    let d = n.notify(Platform::Other);
    assert_eq!(d.command, "notify-send \"T (S)\" \"m\"");
}

#[test]
fn missing_message_is_named() {
    let r = NotificationBuilder::new().title("T").subtitle("S").build();
    let err = r.unwrap_err();
    assert_eq!(err, BuildError::MissingField(RequiredField::Message));
    assert_eq!(err.field().name(), "message");
}

#[test]
fn missing_title_and_subtitle_are_named_in_order() {
    let none = NotificationBuilder::default().build().unwrap_err();
    assert_eq!(none, BuildError::MissingField(RequiredField::Title));
    assert_eq!(none.field().name(), "title");
    let no_subtitle = NotificationBuilder::default().title("T").message("m").build().unwrap_err();
    assert_eq!(no_subtitle, BuildError::MissingField(RequiredField::Subtitle));
    assert_eq!(no_subtitle.field().name(), "subtitle");
}

#[test]
fn last_write_wins() {
    let n = full("a", "b", "c", "d", "e")
        .title("T2")
        .subtitle("S2")
        .message("M2")
        .sound("Glass")
        .open("https://two.example")
        .build()
        .unwrap();
    assert_eq!(n.title, "T2");
    assert_eq!(n.subtitle, "S2");
    assert_eq!(n.message, "M2");
    assert_eq!(n.sound.as_deref(), Some("Glass"));
    assert_eq!(n.open.as_deref(), Some("https://two.example"));
}

#[test]
fn sanitisers_touch_only_their_characters() {
    assert_eq!(strip_brackets("[x]y[[]]z"), "xyz");
    assert_eq!(strip_brackets(""), "");
    assert_eq!(strip_brackets("é\"ü"), "é\"ü");
    assert_eq!(replace_quotes("\"a\"b'"), "'a'b'");
    assert_eq!(replace_quotes("[]"), "[]");
}

#[test]
fn empty_open_adds_no_url() {
    let n = full("T", "S", "m", "Pop", "").build().unwrap();
    assert_eq!(
        n.notify(Platform::MacOs).command,
        "terminal-notifier -title \"T\" -subtitle \"S\" -message \"m\" -sound \"Pop\""
    );
    assert_eq!(n.notify(Platform::Other).command, "notify-send \"T (S)\" \"m\"");
    assert_eq!(terminal_notifier_command("T", "S", "m", "Pop", ""), n.notify(Platform::MacOs).command);
    assert_eq!(notify_send_command("T", "S", "m", ""), n.notify(Platform::Other).command);
}

#[test]
fn linux_ignores_sound() {
    let with_sound = full("T", "S", "m", "Pop", "u").build().unwrap();
    let without = NotificationBuilder::new().title("T").subtitle("S").message("m").open("u").build().unwrap();
    assert_eq!(with_sound.notify(Platform::Other).command, without.notify(Platform::Other).command);
    assert_eq!(with_sound.notify(Platform::Other).command, "notify-send \"T (S)\" \"m\" u");
}

#[test]
fn selection_by_platform() {
    assert_eq!(select_backend(Platform::MacOs), Backend::TerminalNotifier);
    assert_eq!(select_backend(Platform::Other), Backend::NotifySend);
    let n = NotificationBuilder::new().title("T").subtitle("S").message("m").build().unwrap();
    let mac = n.notify(Platform::MacOs);
    assert_eq!(mac.probe, "terminal-notifier -h");
    assert_eq!(mac.missing_helper, "terminal-notifier is not available. Is it installed?");
    let other = n.notify(Platform::Other);
    assert_eq!(other.probe, "notify-send -h");
    assert_eq!(other.missing_helper, "notify-send is not available. Is it installed?");
}

#[test]
fn step_after_probe() {
    let n = NotificationBuilder::new().title("T").subtitle("S").message("m").build().unwrap();
    let d = n.notify(Platform::Other);
    match d.step(true) {
        Step::Execute(c) => assert_eq!(c, "notify-send \"T (S)\" \"m\""),
        Step::Abort { .. } => panic!("helper was present"),
    }
    match d.step(false) {
        Step::Abort { message, exit_code } => {
            assert_eq!(message, "notify-send is not available. Is it installed?");
            assert_eq!(exit_code, HELPER_MISSING_EXIT_CODE);
            assert_eq!(exit_code, 1);
        }
        Step::Execute(_) => panic!("helper was missing"),
    }
}
