use vstd::prelude::*;
use vstd::string::{StrSliceExecFns, StringExecFns};
use crate::auth::{auth_attempt_step, classify_spec, Classification, SILENT_ON_FAILED_AUTH};
use crate::notify::{format_warning, warning_wrap};
use crate::path::{join_path, join_spec, resolve, resolve_spec};
use crate::states::GatewayState;

verus! {

/// The structured commands of the transport, exactly as the user types
/// them: `start`, `auth <token>`, `down <filename>`, `chat <prompt>`.
pub enum Command {
    Start,
    Auth(String),
    Down(String),
    Chat(String),
}

/// One classified unit of inbound work.
pub enum Event {
    /// A structured command.
    Cmd(Command),
    /// Plain text: a change-directory request or a shell command line.
    Text(String),
    /// A document attachment, by its reported file name.
    Document { file_name: String },
    /// An attachment of a kind the gateway does not handle; a display
    /// text describing it.
    UnsupportedMedia { description: String },
    /// An inbound message that is not a common chat message at all.
    UnsupportedMessage,
}

/// What the transport around the core must do next for one event.
/// Every directive that touches the world names plain values only; the
/// outcome of such work comes back to the core through a second call.
pub enum Directive {
    /// Send this text to the requester.
    Reply(String),
    /// Deliver this warning to the owner's session; the requester hears
    /// nothing.
    Warn { owner_chat: i64, text: String },
    /// Do nothing at all.
    Silent,
    /// Run this command line in a shell in this directory, then shape
    /// the reply with `shell_reply`.
    RunShell { dir: String, line: String },
    /// Probe this attempted directory on the filesystem, then finish
    /// with `apply_change_directory`.
    ProbeCd { attempted: String },
    /// Stream the regular file at this path back, or report it missing
    /// as `download_reply` says.
    SendDocument { path: String },
    /// Forward this prompt to the text-generation endpoint, then shape
    /// the reply with `interpret_generate` and `chat_reply`.
    QueryModel { prompt: String },
    /// Announce `progress`, stream the attachment's bytes to `path`,
    /// then confirm with `upload_saved_reply`.
    ReceiveDocument { progress: String, path: String },
}

/// A free-text body is a change-directory request when it begins with
/// the three characters `cd `.
pub open spec fn is_cd(body: Seq<char>) -> bool {
    body.len() >= 3 && body[0] == 'c' && body[1] == 'd' && body[2] == ' '
}

/// The directory expression behind the `cd ` sentinel.
pub open spec fn cd_argument(body: Seq<char>) -> Seq<char> {
    body.skip(3)
}

/// What an impostor was caught doing, as reported to the owner.
pub open spec fn impostor_report(event: &Event) -> Seq<char> {
    match event {
        Event::Cmd(Command::Start) => " is starting the bot"@,
        Event::Cmd(Command::Auth(_)) => " is trying to auth"@,
        Event::Cmd(Command::Down(_)) => " is trying to download file"@,
        Event::Cmd(Command::Chat(_)) => " is trying to chat with ollama"@,
        _ => " is sending msg!"@,
    }
}

/// The one warning the owner receives for one impostor event.
pub open spec fn impostor_warning(username: Seq<char>, event: &Event) -> Seq<char> {
    warning_wrap(username + impostor_report(event))
}

/// An authentication step that actually binds the slot: the slot was
/// free and the presented token is the right one.
pub open spec fn auth_succeeds(pre: &GatewayState, event: &Event) -> bool {
    match event {
        Event::Cmd(Command::Auth(tok)) => pre.spec_owner() is None && tok@ == pre.spec_token(),
        _ => false,
    }
}

pub open spec fn download_target(dir: Seq<char>, name: Seq<char>) -> Seq<char> {
    join_spec(dir, name)
}

pub open spec fn upload_target(dir: Seq<char>, name: Seq<char>) -> Seq<char> {
    join_spec(dir, name)
}

/// A file saved from an attachment sits exactly where a following
/// `down` request with the same name will look for it.
pub proof fn lemma_upload_download_same_target(dir: Seq<char>, name: Seq<char>)
    ensures
        upload_target(dir, name) == download_target(dir, name),
{
}

pub open spec fn download_progress_msg(name: Seq<char>) -> Seq<char> {
    "⬇️ downloading file: "@ + name
}

pub open spec fn upload_saved_msg(path: Seq<char>) -> Seq<char> {
    "✅️ file saved to: "@ + path
}

pub open spec fn download_missing_msg(path: Seq<char>) -> Seq<char> {
    "🚫file: "@ + path + " no exists"@
}

pub open spec fn unsupported_media_msg(description: Seq<char>) -> Seq<char> {
    "unsupported media kind: "@ + description
}

/// Routes one inbound event. Classification comes first: an impostor
/// never reaches shell execution or file access, whatever the event;
/// an unauthenticated identity only ever reaches the authentication
/// step itself.
pub fn dispatch(state: &mut GatewayState, from: i64, username: &str, event: &Event) -> (r:
    Directive)
    requires
        old(state).wf(),
    ensures
        final(state).wf(),
        final(state).spec_token() == old(state).spec_token(),
        // the slot moves by exactly one authentication step, and only
        // for an `auth` command; in particular, once set it never changes
        final(state).spec_owner() == (match event {
            Event::Cmd(Command::Auth(tok)) => (if old(state).spec_owner() is None {
                auth_attempt_step(
                    old(state).spec_owner(),
                    old(state).spec_token(),
                    from,
                    tok@,
                )
            } else {
                old(state).spec_owner()
            }),
            _ => old(state).spec_owner(),
        }),
        old(state).spec_owner() is Some ==> final(state).spec_owner() == old(
            state,
        ).spec_owner(),
        // the stored directory is untouched, except that a successful
        // authentication starts the fresh owner at the root
        final(state).spec_current_path() == (if auth_succeeds(old(state), event) {
            Some("/"@)
        } else {
            old(state).spec_current_path()
        }),
        // an impostor event yields exactly one warning, to the owner,
        // and nothing for the impostor
        classify_spec(old(state).spec_owner(), from) == Classification::Impostor ==> (r matches
            Directive::Warn { owner_chat, text } && old(state).spec_owner() == Some(owner_chat)
            && text@ == impostor_warning(username@, event)),
        // before anyone owns the gateway, nothing but authentication
        // has any effect: `down`, `chat` and free text draw only the
        // not-available reply, and nothing is spawned, read or written
        classify_spec(old(state).spec_owner(), from) == Classification::Unauthenticated ==> (match
            event {
            Event::Cmd(Command::Start) => r matches Directive::Reply(m) && m@
                == " 🆓 not auth yet, be quick! auth now 🤞 "@,
            Event::Cmd(Command::Auth(tok)) => (if tok@ == old(state).spec_token() {
                r matches Directive::Reply(m) && m@ == "✅ auth suceed"@
            } else if SILENT_ON_FAILED_AUTH {
                r is Silent
            } else {
                r matches Directive::Reply(m) && m@ == "❌ auth failed"@
            }),
            Event::Cmd(Command::Down(_)) => r matches Directive::Reply(m) && m@
                == "❌ cmd not available before auth"@,
            Event::Cmd(Command::Chat(_)) => r matches Directive::Reply(m) && m@
                == "❌ cmd not available before auth"@,
            Event::Text(_) => r matches Directive::Reply(m) && m@
                == "❌ cmd not available before auth"@,
            _ => r is Silent,
        }),
        // the owner's events dispatch to exactly one handler
        classify_spec(old(state).spec_owner(), from) == Classification::Owner ==> (match event {
            Event::Cmd(Command::Start) => r matches Directive::Reply(m) && m@
                == "🚩 already auth"@,
            Event::Cmd(Command::Auth(_)) => r matches Directive::Reply(m) && m@
                == "🚩 already auth"@,
            Event::Cmd(Command::Down(name)) => r matches Directive::SendDocument { path }
                && path@ == download_target(old(state).effective_path(), name@),
            Event::Cmd(Command::Chat(prompt)) => r matches Directive::QueryModel { prompt: p }
                && p@ == prompt@,
            Event::Text(body) => (if is_cd(body@) {
                r matches Directive::ProbeCd { attempted } && attempted@ == resolve_spec(
                    old(state).effective_path(),
                    cd_argument(body@),
                )
            } else {
                r matches Directive::RunShell { dir, line } && dir@ == old(
                    state,
                ).effective_path() && line@ == body@
            }),
            Event::Document { file_name } => r matches Directive::ReceiveDocument {
                progress,
                path,
            } && progress@ == download_progress_msg(file_name@) && path@ == upload_target(
                old(state).effective_path(),
                file_name@,
            ),
            Event::UnsupportedMedia { description } => r matches Directive::Reply(m) && m@
                == unsupported_media_msg(description@),
            Event::UnsupportedMessage => r matches Directive::Reply(m) && m@
                == "unsupported msg type"@,
        }),
{
    match state.get_auth_chat_id() {
        None => match event {
            Event::Cmd(Command::Start) => Directive::Reply(
                String::from_str(" 🆓 not auth yet, be quick! auth now 🤞 "),
            ),
            Event::Cmd(Command::Auth(tok)) => {
                if state.try_authenticate(from, tok) {
                    Directive::Reply(String::from_str("✅ auth suceed"))
                } else if SILENT_ON_FAILED_AUTH {
                    Directive::Silent
                } else {
                    Directive::Reply(String::from_str("❌ auth failed"))
                }
            },
            Event::Cmd(Command::Down(_)) => Directive::Reply(
                String::from_str("❌ cmd not available before auth"),
            ),
            Event::Cmd(Command::Chat(_)) => Directive::Reply(
                String::from_str("❌ cmd not available before auth"),
            ),
            Event::Text(_) => Directive::Reply(
                String::from_str("❌ cmd not available before auth"),
            ),
            _ => Directive::Silent,
        },
        Some(owner_chat) => {
            if owner_chat != from {
                let suffix: &str = match event {
                    Event::Cmd(Command::Start) => " is starting the bot",
                    Event::Cmd(Command::Auth(_)) => " is trying to auth",
                    Event::Cmd(Command::Down(_)) => " is trying to download file",
                    Event::Cmd(Command::Chat(_)) => " is trying to chat with ollama",
                    _ => " is sending msg!",
                };
                let mut report = String::from_str(username);
                report.append(suffix);
                Directive::Warn { owner_chat, text: format_warning(report.as_str()) }
            } else {
                let dir = state.current_path_or_root();
                match event {
                    Event::Cmd(Command::Start) => Directive::Reply(
                        String::from_str("🚩 already auth"),
                    ),
                    Event::Cmd(Command::Auth(_)) => Directive::Reply(
                        String::from_str("🚩 already auth"),
                    ),
                    Event::Cmd(Command::Down(name)) => Directive::SendDocument {
                        path: join_path(dir.as_str(), name.as_str()),
                    },
                    Event::Cmd(Command::Chat(prompt)) => Directive::QueryModel {
                        prompt: prompt.clone(),
                    },
                    Event::Text(body) => {
                        let n = body.as_str().unicode_len();
                        if n >= 3 && body.as_str().get_char(0) == 'c' && body.as_str().get_char(1)
                            == 'd' && body.as_str().get_char(2) == ' ' {
                            let rest = body.as_str().substring_char(3, n);
                            Directive::ProbeCd { attempted: resolve(dir.as_str(), rest) }
                        } else {
                            Directive::RunShell { dir: dir.clone(), line: body.clone() }
                        }
                    },
                    Event::Document { file_name } => {
                        let mut progress = String::from_str("⬇️ downloading file: ");
                        progress.append(file_name.as_str());
                        Directive::ReceiveDocument {
                            progress,
                            path: join_path(dir.as_str(), file_name.as_str()),
                        }
                    },
                    Event::UnsupportedMedia { description } => {
                        let mut m = String::from_str("unsupported media kind: ");
                        m.append(description.as_str());
                        Directive::Reply(m)
                    },
                    Event::UnsupportedMessage => Directive::Reply(
                        String::from_str("unsupported msg type"),
                    ),
                }
            }
        },
    }
}

/// The requester's reply for a `down` request, after the caller checked
/// the target: nothing to say when it is a regular file (the file itself
/// is streamed back), a not-found report naming the path otherwise.
pub fn download_reply(path: &str, is_file: bool) -> (r: Option<String>)
    ensures
        is_file ==> r is None,
        !is_file ==> (r matches Some(m) && m@ == download_missing_msg(path@)),
{
    if is_file {
        None
    } else {
        let mut m = String::from_str("🚫file: ");
        m.append(path);
        m.append(" no exists");
        Some(m)
    }
}

/// The completion message after an attachment's bytes were streamed to
/// their target, naming the exact saved path.
pub fn upload_saved_reply(path: &str) -> (r: String)
    ensures
        r@ == upload_saved_msg(path@),
{
    let mut r = String::from_str("✅️ file saved to: ");
    r.append(path);
    r
}

} // verus!
