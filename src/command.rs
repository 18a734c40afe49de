use vstd::prelude::*;

verus! {

/// Characters that `terminal-notifier` interprets inside a message.
pub open spec fn is_bracket(c: char) -> bool {
    c == '[' || c == ']'
}

/// The message with every `[` and `]` removed, the rest kept in order.
pub open spec fn without_brackets(s: Seq<char>) -> Seq<char> {
    s.filter(|c: char| !is_bracket(c))
}

/// The message with every double quote replaced by an apostrophe.
pub open spec fn quotes_to_apostrophes(s: Seq<char>) -> Seq<char> {
    s.map_values(|c: char| if c == '"' { '\'' } else { c })
}

/// Text wrapped in double quotes.
pub open spec fn quoted(s: Seq<char>) -> Seq<char> {
    "\""@ + s + "\""@
}

/// The part of a `terminal-notifier` command line before the message.
pub open spec fn terminal_notifier_head(title: Seq<char>, subtitle: Seq<char>) -> Seq<char> {
    "terminal-notifier -title "@ + quoted(title) + " -subtitle "@ + quoted(subtitle)
        + " -message "@
}

/// The part of a `terminal-notifier` command line after the message: the
/// sound, then the URL to open when it is not empty.
pub open spec fn terminal_notifier_tail(sound: Seq<char>, open: Seq<char>) -> Seq<char> {
    " -sound "@ + quoted(sound) + if open.len() > 0 {
        " -open "@ + quoted(open)
    } else {
        Seq::empty()
    }
}

/// The full `terminal-notifier` command line.
pub open spec fn terminal_notifier_line(
    title: Seq<char>,
    subtitle: Seq<char>,
    message: Seq<char>,
    sound: Seq<char>,
    open: Seq<char>,
) -> Seq<char> {
    terminal_notifier_head(title, subtitle) + quoted(without_brackets(message))
        + terminal_notifier_tail(sound, open)
}

/// The part of a `notify-send` command line before the message: the
/// summary `"<title> (<subtitle>)"`.
pub open spec fn notify_send_head(title: Seq<char>, subtitle: Seq<char>) -> Seq<char> {
    "notify-send "@ + quoted(title + " ("@ + subtitle + ")"@) + " "@
}

/// The part of a `notify-send` command line after the message: the URL as a
/// bare token when it is not empty.
pub open spec fn notify_send_tail(url: Seq<char>) -> Seq<char> {
    if url.len() > 0 {
        " "@ + url
    } else {
        Seq::empty()
    }
}

/// The full `notify-send` command line.
pub open spec fn notify_send_line(
    title: Seq<char>,
    subtitle: Seq<char>,
    message: Seq<char>,
    url: Seq<char>,
) -> Seq<char> {
    notify_send_head(title, subtitle) + quoted(quotes_to_apostrophes(message))
        + notify_send_tail(url)
}

/// Removes every `[` and `]` from `message`.
pub fn strip_brackets(message: &str) -> (r: String)
    ensures
        r@ == without_brackets(message@),
{
    let n = message.unicode_len();
    let mut out = String::new();
    let mut i: usize = 0;
    while i < n
        invariant
            n == message@.len(),
            i <= n,
            out@ == without_brackets(message@.subrange(0, i as int)),
        decreases n - i,
    {
        let c = message.get_char(i);
        if c != '[' && c != ']' {
            out.append(message.substring_char(i, i + 1));
        }
        proof {
            let s = message@.subrange(0, i + 1);
            assert(s.drop_last() =~= message@.subrange(0, i as int));
            assert(s.last() == c);
            reveal(Seq::filter);
        }
        i = i + 1;
    }
    assert(message@.subrange(0, n as int) =~= message@);
    out
}

/// Replaces every double quote in `message` by an apostrophe.
pub fn replace_quotes(message: &str) -> (r: String)
    ensures
        r@ == quotes_to_apostrophes(message@),
{
    let n = message.unicode_len();
    let mut out = String::new();
    let mut i: usize = 0;
    while i < n
        invariant
            n == message@.len(),
            i <= n,
            out@ =~= quotes_to_apostrophes(message@.subrange(0, i as int)),
        decreases n - i,
    {
        let c = message.get_char(i);
        if c == '"' {
            proof {
                reveal_strlit("'");
            }
            out.append("'");
        } else {
            out.append(message.substring_char(i, i + 1));
        }
        i = i + 1;
    }
    assert(message@.subrange(0, n as int) =~= message@);
    out
}

/// Appends `s` wrapped in double quotes.
fn push_quoted(out: &mut String, s: &str)
    ensures
        final(out)@ == old(out)@ + quoted(s@),
{
    out.append("\"");
    out.append(s);
    out.append("\"");
    assert(final(out)@ =~= old(out)@ + quoted(s@));
}

/// The `terminal-notifier` command line: title, subtitle, the message
/// without brackets and the sound, each quoted, and `-open "<url>"` when
/// `open` is not empty.
pub fn terminal_notifier_command(
    title: &str,
    subtitle: &str,
    message: &str,
    sound: &str,
    open: &str,
) -> (r: String)
    ensures
        r@ == terminal_notifier_line(title@, subtitle@, message@, sound@, open@),
{
    let safe_message = strip_brackets(message);
    let mut out = String::from_str("terminal-notifier -title ");
    push_quoted(&mut out, title);
    out.append(" -subtitle ");
    push_quoted(&mut out, subtitle);
    out.append(" -message ");
    let ghost head = out@;
    assert(head =~= terminal_notifier_head(title@, subtitle@));
    push_quoted(&mut out, safe_message.as_str());
    let ghost with_message = out@;
    out.append(" -sound ");
    push_quoted(&mut out, sound);
    if !open.is_empty() {
        out.append(" -open ");
        push_quoted(&mut out, open);
    }
    assert(out@ =~= with_message + terminal_notifier_tail(sound@, open@));
    out
}

/// The `notify-send` command line: `"<title> (<subtitle>)"`, the message
/// with apostrophes for double quotes, quoted, and the URL as a bare token
/// when it is not empty. There is no sound on this backend.
pub fn notify_send_command(title: &str, subtitle: &str, message: &str, url: &str) -> (r: String)
    ensures
        r@ == notify_send_line(title@, subtitle@, message@, url@),
{
    let safe_message = replace_quotes(message);
    let mut out = String::from_str("notify-send \"");
    out.append(title);
    out.append(" (");
    out.append(subtitle);
    out.append(")\" ");
    proof {
        reveal_strlit("notify-send \"");
        reveal_strlit("notify-send ");
        reveal_strlit(")\" ");
        reveal_strlit(")");
        reveal_strlit("\"");
        reveal_strlit(" ");
    }
    let ghost head = out@;
    assert(head =~= notify_send_head(title@, subtitle@));
    push_quoted(&mut out, safe_message.as_str());
    let ghost with_message = out@;
    if !url.is_empty() {
        out.append(" ");
        out.append(url);
    }
    assert(out@ =~= with_message + notify_send_tail(url@));
    out
}

} // verus!
