use vstd::prelude::*;
use crate::command::{
    is_bracket,
    notify_send_command,
    notify_send_head,
    notify_send_line,
    quotes_to_apostrophes,
    quoted,
    terminal_notifier_command,
    terminal_notifier_head,
    terminal_notifier_line,
    without_brackets,
};
use crate::notification::{Notification, NotificationView};

verus! {

/// The host operating system, as far as backend selection cares.
#[derive(Debug, Clone, Copy, PartialEq, Eq, Structural)]
pub enum Platform {
    MacOs,
    Other,
}

/// The helper program a notification is delivered through.
#[derive(Debug, Clone, Copy, PartialEq, Eq, Structural)]
pub enum Backend {
    /// `terminal-notifier`, on macOS.
    TerminalNotifier,
    /// `notify-send`, everywhere else.
    NotifySend,
}

/// Exit status of the process when the helper program is missing.
pub const HELPER_MISSING_EXIT_CODE: i32 = 1;

/// macOS goes to `terminal-notifier`, every other host to `notify-send`.
pub open spec fn backend_for(platform: Platform) -> Backend {
    match platform {
        Platform::MacOs => Backend::TerminalNotifier,
        Platform::Other => Backend::NotifySend,
    }
}

/// The command that tells whether the helper is installed.
pub open spec fn probe_line(backend: Backend) -> Seq<char> {
    match backend {
        Backend::TerminalNotifier => "terminal-notifier -h"@,
        Backend::NotifySend => "notify-send -h"@,
    }
}

/// The line printed when the helper is missing.
pub open spec fn missing_helper_text(backend: Backend) -> Seq<char> {
    match backend {
        Backend::TerminalNotifier => "terminal-notifier is not available. Is it installed?"@,
        Backend::NotifySend => "notify-send is not available. Is it installed?"@,
    }
}

/// The sound to ask for: the one set, else `default`.
pub open spec fn sound_or_default(sound: Option<Seq<char>>) -> Seq<char> {
    match sound {
        Some(s) => s,
        None => "default"@,
    }
}

/// The URL to open: the one set, else empty (no click action).
pub open spec fn url_or_empty(open: Option<Seq<char>>) -> Seq<char> {
    match open {
        Some(s) => s,
        None => Seq::empty(),
    }
}

/// The command line that delivers `n` through `backend`.
pub open spec fn command_for(n: NotificationView, backend: Backend) -> Seq<char> {
    match backend {
        Backend::TerminalNotifier => terminal_notifier_line(
            n.title,
            n.subtitle,
            n.message,
            sound_or_default(n.sound),
            url_or_empty(n.open),
        ),
        Backend::NotifySend => notify_send_line(
            n.title,
            n.subtitle,
            n.message,
            url_or_empty(n.open),
        ),
    }
}

/// Chooses the backend for the host; nothing is cached between calls.
pub fn select_backend(platform: Platform) -> (r: Backend)
    ensures
        r == backend_for(platform),
{
    match platform {
        Platform::MacOs => Backend::TerminalNotifier,
        Platform::Other => Backend::NotifySend,
    }
}

impl Backend {
    /// The command that tells whether the helper is installed: it exits
    /// with status 0 when it is.
    pub fn probe(&self) -> (r: &'static str)
        ensures
            r@ == probe_line(*self),
    {
        match self {
            Backend::TerminalNotifier => "terminal-notifier -h",
            Backend::NotifySend => "notify-send -h",
        }
    }

    /// The diagnostic printed when the helper is missing.
    pub fn missing_helper_message(&self) -> (r: &'static str)
        ensures
            r@ == missing_helper_text(*self),
    {
        match self {
            Backend::TerminalNotifier => "terminal-notifier is not available. Is it installed?",
            Backend::NotifySend => "notify-send is not available. Is it installed?",
        }
    }
}

/// Everything needed to deliver one notification: run `probe`; if it
/// exits with status 0, run `command` with inherited stdio, else print
/// `missing_helper` and leave with `HELPER_MISSING_EXIT_CODE`.
#[derive(Debug)]
pub struct Dispatch {
    pub backend: Backend,
    pub probe: String,
    pub command: String,
    pub missing_helper: String,
}

/// What to do once the probe has answered.
#[derive(Debug)]
pub enum Step {
    /// Run this command line through the shell, stdio inherited; its exit
    /// status is not looked at.
    Execute(String),
    /// Print the message on standard output and exit with the status.
    Abort { message: String, exit_code: i32 },
}

impl Dispatch {
    /// The decision after the probe: run the notification when the helper
    /// answered, give up otherwise.
    pub fn step(&self, helper_present: bool) -> (r: Step)
        ensures
            helper_present ==> (r matches Step::Execute(c) && c@ == self.command@),
            !helper_present ==> (r matches Step::Abort { message, exit_code } && message@
                == self.missing_helper@ && exit_code == HELPER_MISSING_EXIT_CODE),
    {
        if helper_present {
            Step::Execute(self.command.clone())
        } else {
            Step::Abort { message: self.missing_helper.clone(), exit_code: HELPER_MISSING_EXIT_CODE }
        }
    }
}

impl Notification {
    /// The command line that delivers this notification through `backend`.
    pub fn command(&self, backend: Backend) -> (r: String)
        ensures
            r@ == command_for(self@, backend),
    {
        proof {
            reveal_strlit("");
        }
        let open: &str = match &self.open {
            Some(s) => s.as_str(),
            None => "",
        };
        match backend {
            Backend::TerminalNotifier => {
                let sound: &str = match &self.sound {
                    Some(s) => s.as_str(),
                    None => "default",
                };
                terminal_notifier_command(
                    self.title.as_str(),
                    self.subtitle.as_str(),
                    self.message.as_str(),
                    sound,
                    open,
                )
            },
            Backend::NotifySend => notify_send_command(
                self.title.as_str(),
                self.subtitle.as_str(),
                self.message.as_str(),
                open,
            ),
        }
    }

    /// Routes the notification to the backend of `platform` and returns
    /// what the caller runs to deliver it.
    pub fn notify(&self, platform: Platform) -> (r: Dispatch)
        ensures
            r.backend == backend_for(platform),
            r.probe@ == probe_line(r.backend),
            r.command@ == command_for(self@, r.backend),
            r.missing_helper@ == missing_helper_text(r.backend),
    {
        let backend = select_backend(platform);
        Dispatch {
            backend,
            probe: String::from_str(backend.probe()),
            command: self.command(backend),
            missing_helper: String::from_str(backend.missing_helper_message()),
        }
    }
}

/// Whether a click action is asked for: a URL is set and it is not empty.
pub open spec fn opens_url(n: NotificationView) -> bool {
    n.open is Some && n.open->0.len() > 0
}

/// In the message position of either command line stands the sanitised
/// message: for `terminal-notifier` it holds no `[` or `]`, for
/// `notify-send` no double quote, and either way it is the message with
/// only those characters touched.
pub proof fn message_position_is_sanitised(n: NotificationView)
    ensures
        exists|tail: Seq<char>|
            command_for(n, Backend::TerminalNotifier) == terminal_notifier_head(
                n.title,
                n.subtitle,
            ) + quoted(without_brackets(n.message)) + tail,
        forall|i: int|
            0 <= i < without_brackets(n.message).len() ==> !is_bracket(
                #[trigger] without_brackets(n.message)[i],
            ),
        exists|tail: Seq<char>|
            command_for(n, Backend::NotifySend) == notify_send_head(n.title, n.subtitle) + quoted(
                quotes_to_apostrophes(n.message),
            ) + tail,
        forall|i: int|
            0 <= i < quotes_to_apostrophes(n.message).len() ==> #[trigger] quotes_to_apostrophes(
                n.message,
            )[i] != '"',
{
    broadcast use Seq::lemma_filter_pred;

    let tn = command_for(n, Backend::TerminalNotifier);
    let ns = command_for(n, Backend::NotifySend);
    let tn_tail = " -sound "@ + quoted(sound_or_default(n.sound)) + if url_or_empty(n.open).len()
        > 0 {
        " -open "@ + quoted(url_or_empty(n.open))
    } else {
        Seq::empty()
    };
    assert(tn == terminal_notifier_head(n.title, n.subtitle) + quoted(without_brackets(n.message))
        + tn_tail);
    let ns_tail = if url_or_empty(n.open).len() > 0 {
        " "@ + url_or_empty(n.open)
    } else {
        Seq::empty()
    };
    assert(ns == notify_send_head(n.title, n.subtitle) + quoted(quotes_to_apostrophes(n.message))
        + ns_tail);
    assert forall|i: int| 0 <= i < without_brackets(n.message).len() implies !is_bracket(
        #[trigger] without_brackets(n.message)[i],
    ) by {
        n.message.lemma_filter_pred(|c: char| !is_bracket(c), i);
    }
}

/// Both command lines end with the URL exactly when one is set and not
/// empty: `-open "<url>"` for `terminal-notifier`, a bare `<url>` token for
/// `notify-send`; otherwise they end before it.
pub proof fn url_appended_iff_present(n: NotificationView)
    ensures
        ({
            let base = terminal_notifier_head(n.title, n.subtitle) + quoted(
                without_brackets(n.message),
            ) + " -sound "@ + quoted(sound_or_default(n.sound));
            &&& opens_url(n) ==> command_for(n, Backend::TerminalNotifier) == base + " -open "@
                + quoted(n.open->0)
            &&& !opens_url(n) ==> command_for(n, Backend::TerminalNotifier) == base
        }),
        ({
            let base = notify_send_head(n.title, n.subtitle) + quoted(
                quotes_to_apostrophes(n.message),
            );
            &&& opens_url(n) ==> command_for(n, Backend::NotifySend) == base + " "@ + n.open->0
            &&& !opens_url(n) ==> command_for(n, Backend::NotifySend) == base
        }),
{
    let head = terminal_notifier_head(n.title, n.subtitle) + quoted(without_brackets(n.message));
    let s = " -sound "@ + quoted(sound_or_default(n.sound));
    let ns_base = notify_send_head(n.title, n.subtitle) + quoted(quotes_to_apostrophes(n.message));
    if opens_url(n) {
        let o = " -open "@ + quoted(n.open->0);
        assert(head + (s + o) =~= head + s + o);
        assert(ns_base + (" "@ + n.open->0) =~= ns_base + " "@ + n.open->0);
    } else {
        assert(head + (s + Seq::empty()) =~= head + s);
        assert(ns_base + Seq::<char>::empty() =~= ns_base);
    }
}

/// The `notify-send` command line does not depend on the sound: any other
/// sound, or none, gives the same line.
pub proof fn notify_send_ignores_sound(n: NotificationView, sound: Option<Seq<char>>)
    ensures
        command_for(NotificationView { sound, ..n }, Backend::NotifySend) == command_for(
            n,
            Backend::NotifySend,
        ),
{
}

} // verus!
