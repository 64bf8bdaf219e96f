//! The texts that a run shows: the update line, the notification and the
//! progress message.
use vstd::prelude::*;

use crate::text::{decimal, join, join_strings, lemma_join_laws, strings_view, usize_to_decimal};

verus! {

/// The preferred notifier program.
pub const NOTIFIER_APP: &'static str = "macos-notifier";

/// The program used when the preferred notifier cannot be started.
pub const NOTIFIER_FALLBACK: &'static str = "osascript";

/// The title of the desktop notification.
pub const NOTIFICATION_TITLE: &'static str = "Nix Package Update";

/// The line that closes a run: how many packages have updates, and which.
pub open spec fn update_line(names: Seq<Seq<char>>) -> Seq<char> {
    if names.len() == 0 {
        "0 Updated Packages"@
    } else {
        decimal(names.len()) + " Updated Packages - "@ + join(names, ", "@)
    }
}

/// The body of the desktop notification: a bulleted list of the packages.
pub open spec fn notification_body(names: Seq<Seq<char>>) -> Seq<char> {
    "Following Packages have updates\n• "@ + join(names, "\n• "@)
}

/// The AppleScript that shows `message` under `title`.
pub open spec fn notification_script(message: Seq<char>, title: Seq<char>) -> Seq<char> {
    "display notification \""@ + message + "\" with title \""@ + title + "\""@
}

/// The message shown while the flake is queried.
pub open spec fn query_message(path: Seq<char>, config_name: Seq<char>) -> Seq<char> {
    "Querying Darwin Flake\n  • location:'"@ + path + "'\n  • config:  '"@ + config_name + "'"@
}

/// Law: with no updates the line says so; with one it names it; and one
/// more update raises the count and appends `, ` and the new name to the
/// names of the shorter line, which stay as they were.
pub proof fn lemma_update_line_laws(names: Seq<Seq<char>>, x: Seq<char>)
    ensures
        update_line(Seq::empty()) == "0 Updated Packages"@,
        update_line(seq![x]) == "1 Updated Packages - "@ + x,
        names.len() > 0 ==> update_line(names.push(x)) == decimal(names.len() + 1)
            + " Updated Packages - "@ + update_line(names).skip(
            (decimal(names.len()).len() + " Updated Packages - "@.len()) as int,
        ) + ", "@ + x,
{
    lemma_join_laws(names, x, ", "@);
    reveal_strlit(" Updated Packages - ");
    reveal_strlit("1 Updated Packages - ");
    assert(decimal(1) =~= seq!['1']);
    assert(update_line(seq![x]) =~= "1 Updated Packages - "@ + x);
    if names.len() > 0 {
        let head = decimal(names.len()) + " Updated Packages - "@;
        assert((head + join(names, ", "@)).skip(head.len() as int) =~= join(names, ", "@));
        assert(update_line(names.push(x)) =~= decimal(names.len() + 1) + " Updated Packages - "@
            + join(names, ", "@) + ", "@ + x);
    }
}

/// Law: the notification is the heading followed by one bullet per update,
/// in order: no updates leave the heading alone, one update follows it, and
/// one more update appends a bullet with its name.
pub proof fn lemma_notification_body_laws(names: Seq<Seq<char>>, x: Seq<char>)
    ensures
        notification_body(Seq::empty()) == "Following Packages have updates\n• "@,
        notification_body(seq![x]) == "Following Packages have updates\n• "@ + x,
        names.len() > 0 ==> notification_body(names.push(x)) == notification_body(names) + "\n• "@
            + x,
{
    lemma_join_laws(names, x, "\n• "@);
    assert("Following Packages have updates\n• "@ + Seq::<char>::empty() =~= "Following Packages have updates\n• "@);
    if names.len() > 0 {
        assert(notification_body(names.push(x)) =~= notification_body(names) + "\n• "@ + x);
    }
}

/// Says how many packages have updates, and which.
pub fn update_string(update_names: &[String]) -> (r: String)
    ensures
        r@ == update_line(strings_view(update_names@)),
        update_names@.len() == 0 ==> r@ == "0 Updated Packages"@,
        update_names@.len() > 0 ==> r@ == decimal(update_names@.len()) + " Updated Packages - "@
            + join(strings_view(update_names@), ", "@),
{
    if update_names.len() == 0 {
        String::from_str("0 Updated Packages")
    } else {
        let mut r = usize_to_decimal(update_names.len());
        r.append(" Updated Packages - ");
        let joined = join_strings(update_names, ", ");
        r.append(joined.as_str());
        r
    }
}

/// The body of the desktop notification that lists `updates`.
pub fn notification_message(updates: &[String]) -> (r: String)
    ensures
        r@ == notification_body(strings_view(updates@)),
        r@ == "Following Packages have updates\n• "@ + join(strings_view(updates@), "\n• "@),
{
    let mut r = String::from_str("Following Packages have updates\n• ");
    let joined = join_strings(updates, "\n• ");
    r.append(joined.as_str());
    r
}

/// The AppleScript that shows `message` as a notification under `title`.
pub fn osascript_command(message: &str, title: &str) -> (r: String)
    ensures
        r@ == notification_script(message@, title@),
{
    let mut r = String::from_str("display notification \"");
    r.append(message);
    r.append("\" with title \"");
    r.append(title);
    r.append("\"");
    r
}

/// The message shown while the flake at `path` is queried for `config_name`.
pub fn spinner_message(path: &str, config_name: &str) -> (r: String)
    ensures
        r@ == query_message(path@, config_name@),
{
    let mut r = String::from_str("Querying Darwin Flake\n  • location:'");
    r.append(path);
    r.append("'\n  • config:  '");
    r.append(config_name);
    r.append("'");
    r
}

} // verus!
