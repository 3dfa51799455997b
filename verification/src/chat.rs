//! The command layer's decisions: which answer a message gets, with every
//! reply text stated exactly.

use vstd::prelude::*;
use vstd::string::{StrSliceExecFns, StringExecFns};

use crate::decimal::{spec_nat_string, u64_to_string};
use crate::urls::{extract_urls, spec_multiple_urls, spec_netloc, spec_no_urls, spec_single_url,
    spec_supported, spec_the_url, URLsFound};

verus! {

/// Whether the markdown renderer needs the character escaped.
pub open spec fn spec_needs_escape(c: char) -> bool {
    c == '.' || c == '(' || c == ')' || c == '-' || c == '_'
}

/// A character as the renderer must receive it: escaped when needed.
pub open spec fn spec_escaped_char(c: char) -> Seq<char> {
    if spec_needs_escape(c) {
        seq!['\\', c]
    } else {
        seq![c]
    }
}

/// A text with every markdown-sensitive character escaped.
pub open spec fn spec_sanitised(s: Seq<char>) -> Seq<char>
    decreases s.len(),
{
    if s.len() == 0 {
        Seq::<char>::empty()
    } else {
        spec_sanitised(s.drop_last()) + spec_escaped_char(s.last())
    }
}

/// Escape the markdown-sensitive characters of a reply text.
pub fn sanitise(text: &str) -> (r: String)
    ensures
        r@ == spec_sanitised(text@),
{
    let n = text.unicode_len();
    let mut r = String::new();
    let mut i: usize = 0;
    while i < n
        invariant
            0 <= i <= n,
            n == text@.len(),
            r@ == spec_sanitised(text@.take(i as int)),
        decreases n - i,
    {
        let c = text.get_char(i);
        let piece = text.substring_char(i, i + 1);
        proof {
            reveal_strlit("\\");
        }
        if c == '.' || c == '(' || c == ')' || c == '-' || c == '_' {
            r.append("\\");
        }
        r.append(piece);
        proof {
            assert(text@.take(i + 1).drop_last() =~= text@.take(i as int));
            assert(piece@ =~= seq![text@.take(i + 1).last()]);
        }
        i = i + 1;
    }
    proof {
        assert(text@.take(n as int) =~= text@);
    }
    r
}

/// The status reply: the number of active tasks.
pub open spec fn spec_status_text(n: nat) -> Seq<char> {
    "Number of active tasks: "@ + spec_nat_string(n) + "."@
}

/// A site wrapped in backticks.
pub open spec fn spec_backticked(x: Seq<char>) -> Seq<char> {
    "`"@ + x + "`"@
}

/// The allowlisted sites, each in backticks, joined by commas.
pub open spec fn spec_backticked_join(list: Seq<Seq<char>>) -> Seq<char>
    decreases list.len(),
{
    if list.len() == 0 {
        Seq::<char>::empty()
    } else if list.len() == 1 {
        spec_backticked(list[0])
    } else {
        spec_backticked_join(list.drop_last()) + ", "@ + spec_backticked(list.last())
    }
}

/// The reply to the allowlist command: the supported sites, or none.
pub open spec fn spec_allowlist_text(list: Seq<Seq<char>>) -> Seq<char> {
    if list.len() == 0 {
        "Supported websites:"@ + " none"@ + "."@
    } else {
        "Supported websites:"@ + "\n"@ + spec_backticked_join(list) + "."@
    }
}

/// The reply to an unsupported URL: the allowlisted sites it could have
/// come from.
pub open spec fn spec_unsupported_text(list: Seq<Seq<char>>) -> Seq<char> {
    "URL is unsupported.\n\nSupported websites: "@ + (if list.len() == 0 {
        "none"@
    } else {
        spec_backticked_join(list)
    }) + "."@
}

/// An error reply, with a pointer to the maintainer when one is configured.
pub open spec fn spec_with_maintainer(text: Seq<char>, maintainer: Option<Seq<char>>) -> Seq<
    char,
> {
    match maintainer {
        Some(m) => text + "\n\nFor more information, please contact "@ + m + "."@,
        None => text,
    }
}

/// The acceptance reply: the caller's position, or an immediate start.
pub open spec fn spec_accept_text(position: nat) -> Seq<char> {
    if position == 0 {
        "Request accepted.\nThe queue is empty, downloading now."@
    } else {
        "Request accepted.\nYour position in the queue: "@ + spec_nat_string(position) + "."@
    }
}

/// Render the status reply.
pub fn status_text(n: u64) -> (r: String)
    ensures
        r@ == spec_status_text(n as nat),
{
    let mut s = "Number of active tasks: ".to_owned();
    s.append(u64_to_string(n).as_str());
    s.append(".");
    s
}

/// Render the allowlisted sites, each in backticks, joined by commas.
pub fn backticked_join(list: &Vec<String>) -> (r: String)
    ensures
        r@ == spec_backticked_join(list.deep_view()),
{
    let n = list.len();
    let mut r = String::new();
    let mut i: usize = 0;
    while i < n
        invariant
            0 <= i <= n,
            n == list@.len(),
            r@ == spec_backticked_join(list.deep_view().take(i as int)),
        decreases n - i,
    {
        if i > 0 {
            r.append(", ");
        }
        r.append("`");
        r.append(list[i].as_str());
        r.append("`");
        proof {
            assert(list.deep_view().take(i + 1).drop_last() =~= list.deep_view().take(i as int));
            assert(list.deep_view().take(i + 1).last() == list.deep_view()[i as int]);
            if i == 0 {
                assert(r@ =~= spec_backticked_join(list.deep_view().take(i + 1)));
            } else {
                assert(r@ =~= spec_backticked_join(list.deep_view().take(i + 1)));
            }
        }
        i = i + 1;
    }
    proof {
        assert(list.deep_view().take(n as int) =~= list.deep_view());
    }
    r
}

/// Render the reply to the allowlist command.
pub fn allowlist_text(list: &Vec<String>) -> (r: String)
    ensures
        r@ == spec_allowlist_text(list.deep_view()),
{
    let mut s = "Supported websites:".to_owned();
    if list.len() == 0 {
        s.append(" none");
    } else {
        s.append("\n");
        s.append(backticked_join(list).as_str());
    }
    s.append(".");
    s
}

/// Render the reply to an unsupported URL.
pub fn unsupported_text(list: &Vec<String>) -> (r: String)
    ensures
        r@ == spec_unsupported_text(list.deep_view()),
{
    let mut s = "URL is unsupported.\n\nSupported websites: ".to_owned();
    if list.len() == 0 {
        s.append("none");
    } else {
        s.append(backticked_join(list).as_str());
    }
    s.append(".");
    s
}

/// Append the maintainer pointer to an error reply, when one is configured.
pub fn with_maintainer(text: String, maintainer: &Option<String>) -> (r: String)
    ensures
        r@ == spec_with_maintainer(text@, spec_maintainer_view(*maintainer)),
{
    match maintainer {
        Some(m) => {
            let mut s = text;
            s.append("\n\nFor more information, please contact ");
            s.append(m.as_str());
            s.append(".");
            s
        },
        None => text,
    }
}

/// Render the acceptance reply for a queue position.
pub fn accept_text(position: u64) -> (r: String)
    ensures
        r@ == spec_accept_text(position as nat),
{
    if position == 0 {
        "Request accepted.\nThe queue is empty, downloading now.".to_owned()
    } else {
        let mut s = "Request accepted.\nYour position in the queue: ".to_owned();
        s.append(u64_to_string(position).as_str());
        s.append(".");
        s
    }
}

/// A chat command, as the surrounding interface parses it.
pub enum Command {
    /// Show the command descriptions.
    Help,
    /// Show the number of active tasks.
    Status,
    /// Download the video a message links to.
    Yeet(String),
    /// Download with fallback processing: a higher size cap, and no
    /// quality-degradation rejection; bypasses the allowlist.
    YeetPlz(String),
    /// Show the allowlisted sites.
    Allowlist,
}

/// What a message looks like to the decision, reduced to the fields it
/// reads.
pub struct MessageInfo {
    /// Whether this is a common chat message — not a pin, poll or other
    /// service message.
    pub is_common: bool,
    /// Whether the chat is a private one.
    pub is_private_chat: bool,
    /// Whether the message was forwarded.
    pub is_forwarded: bool,
    /// The text of the message this one replies to, when there is one.
    pub reply_text: Option<String>,
}

/// The decision taken on a message: what the surrounding interface should
/// send or start.
pub enum Answer {
    /// Ignore the message.
    Nothing,
    /// Send this reply.
    SendMessage {
        /// The reply text.
        text: String,
    },
    /// Accept the request: send the acceptance, then start the download.
    StartDownload {
        /// The acceptance reply, reporting the queue position.
        accept_message: String,
        /// The URL to download, in normalized form.
        url: String,
        /// Whether fallback processing was requested.
        enable_fallback: bool,
    },
}

/// Whether the command asks for a download.
pub open spec fn spec_is_download_cmd(cmd: Command) -> bool {
    cmd is Yeet || cmd is YeetPlz
}

/// The message text a download command carries.
pub open spec fn spec_cmd_text(cmd: Command) -> Seq<char> {
    match cmd {
        Command::Yeet(t) => t@,
        Command::YeetPlz(t) => t@,
        _ => Seq::<char>::empty(),
    }
}

/// The view of the maintainer setting.
pub open spec fn spec_maintainer_view(maintainer: Option<String>) -> Option<Seq<char>> {
    match maintainer {
        Some(m) => Some(m@),
        None => None,
    }
}

/// Decide the answer to a command.
///
/// Service messages are ignored, as are messages forwarded into chats that
/// are not private. The informational commands are answered with their
/// texts. A download command must yield exactly one URL — from the message,
/// or failing that from the message it replies to — whose site is
/// allowlisted unless fallback was requested; an acceptable request is
/// answered with its queue position and started, anything else with the
/// reason it cannot be served.
pub fn answer_entrypoint(
    info: &MessageInfo,
    cmd: Command,
    allowlist: &Vec<String>,
    maintainer: &Option<String>,
    help_text: &str,
    queue_size: u64,
) -> (r: Answer)
    ensures
        (!info.is_common || (!info.is_private_chat && info.is_forwarded)) ==> r is Nothing,
        (info.is_common && (info.is_private_chat || !info.is_forwarded)) ==> (match cmd {
            Command::Help => r matches Answer::SendMessage { text } && text@ == help_text@,
            Command::Status => r matches Answer::SendMessage { text } && text@ == spec_status_text(
                queue_size as nat,
            ),
            Command::Allowlist => r matches Answer::SendMessage { text } && text@
                == spec_allowlist_text(allowlist.deep_view()),
            Command::Yeet(t) => spec_download_answer(
                r,
                t@,
                spec_reply_view(info.reply_text),
                false,
                allowlist.deep_view(),
                spec_maintainer_view(*maintainer),
                queue_size as nat,
            ),
            Command::YeetPlz(t) => spec_download_answer(
                r,
                t@,
                spec_reply_view(info.reply_text),
                true,
                allowlist.deep_view(),
                spec_maintainer_view(*maintainer),
                queue_size as nat,
            ),
        }),
{
    if !info.is_common || (!info.is_private_chat && info.is_forwarded) {
        return Answer::Nothing;
    }
    match cmd {
        Command::Help => Answer::SendMessage { text: help_text.to_owned() },
        Command::Status => Answer::SendMessage { text: status_text(queue_size) },
        Command::Allowlist => Answer::SendMessage { text: allowlist_text(allowlist) },
        Command::Yeet(t) => download_answer(&t, info, false, allowlist, maintainer, queue_size),
        Command::YeetPlz(t) => download_answer(&t, info, true, allowlist, maintainer, queue_size),
    }
}

/// The reply text's view, when the message replies to one with text.
pub open spec fn spec_reply_view(reply_text: Option<String>) -> Option<Seq<char>> {
    match reply_text {
        Some(t) => Some(t@),
        None => None,
    }
}

/// What the answer to a download command must be, given the texts scanned
/// for URLs: the effective URL is the message's single URL, or the reply's;
/// no URL, several URLs, or an unsupported site without fallback are
/// answered with their reason, anything else accepted and started.
pub open spec fn spec_download_answer(
    r: Answer,
    msg: Seq<char>,
    reply: Option<Seq<char>>,
    fallback: bool,
    allowlist: Seq<Seq<char>>,
    maintainer: Option<Seq<char>>,
    queue_size: nat,
) -> bool {
    let reply_single = match reply {
        Some(t) => spec_single_url(t),
        None => false,
    };
    if spec_single_url(msg) || reply_single {
        let src = if spec_single_url(msg) {
            msg
        } else {
            reply->0
        };
        if spec_supported(src, allowlist) || fallback {
            &&& r matches Answer::StartDownload { accept_message, url, enable_fallback }
            &&& accept_message@ == spec_accept_text(queue_size)
            &&& url@ == spec_the_url(src)
            &&& enable_fallback == fallback
        } else {
            r matches Answer::SendMessage { text } && text@ == spec_with_maintainer(
                spec_unsupported_text(allowlist),
                maintainer,
            )
        }
    } else {
        &&& (spec_no_urls(msg) ==> (r matches Answer::SendMessage { text } && text@
            == spec_with_maintainer("No URLs found."@, maintainer)))
        &&& (spec_multiple_urls(msg) ==> (r matches Answer::SendMessage { text } && text@
            == spec_with_maintainer(
            "Downloading more than one video at a time is unsupported."@,
            maintainer,
        )))
    }
}

/// Decide the answer to a download command.
fn download_answer(
    msg_text: &String,
    info: &MessageInfo,
    fallback: bool,
    allowlist: &Vec<String>,
    maintainer: &Option<String>,
    queue_size: u64,
) -> (r: Answer)
    ensures
        spec_download_answer(
            r,
            msg_text@,
            spec_reply_view(info.reply_text),
            fallback,
            allowlist.deep_view(),
            spec_maintainer_view(*maintainer),
            queue_size as nat,
        ),
{
    let urls_found = extract_urls(msg_text.as_str(), info.reply_text.as_ref(), allowlist);
    match urls_found {
        URLsFound::NoUrls => Answer::SendMessage {
            text: with_maintainer("No URLs found.".to_owned(), maintainer),
        },
        URLsFound::Multiple => Answer::SendMessage {
            text: with_maintainer(
                "Downloading more than one video at a time is unsupported.".to_owned(),
                maintainer,
            ),
        },
        URLsFound::One { url, supported } => {
            if supported || fallback {
                Answer::StartDownload {
                    accept_message: accept_text(queue_size),
                    url,
                    enable_fallback: fallback,
                }
            } else {
                Answer::SendMessage {
                    text: with_maintainer(unsupported_text(allowlist), maintainer),
                }
            }
        },
    }
}

} // verus!
