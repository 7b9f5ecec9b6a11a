use remote_gateway::auth::Classification;
use remote_gateway::model::{chat_reply, interpret_generate, GenerateOutcome};
use remote_gateway::notify::format_warning;
use remote_gateway::path::{join_path, resolve, PathProbe};
use remote_gateway::router::{
    dispatch, download_reply, upload_saved_reply, Command, Directive, Event,
};
use remote_gateway::shell::{shell_reply, ExecOutcome};
use remote_gateway::states::GatewayState;

fn owned_state(owner: i64, token: &str, dir: &str) -> GatewayState {
    let mut s = GatewayState::new(token.to_string());
    assert!(s.try_authenticate(owner, &token.to_string()));
    let attempted = dir.to_string();
    s.apply_change_directory(&attempted, PathProbe::Canonical(dir.to_string()));
    s
}

#[test]
fn test_uses() {
    let token = "test token xxx".to_string();
    let mut ss = GatewayState::new(token.clone());
    assert_eq!(ss.get_auth_token(), token);

    let chatid = 2_991_384_423i64;
    ss.set_auth_chat_id(chatid);
    assert_eq!(ss.get_auth_chat_id().unwrap(), chatid);
    ss.update_current_path("/home/x".to_string());

    let cp = ss.query_current_path().unwrap();
    assert_eq!(cp, "/home/x");
}

#[test]
fn first_correct_token_wins_and_owner_never_changes() {
    let mut s = GatewayState::new("secret".to_string());
    assert!(!s.try_authenticate(111, &"wrong".to_string()));
    assert_eq!(s.get_auth_chat_id(), None);

    assert!(s.try_authenticate(111, &"secret".to_string()));
    assert_eq!(s.get_auth_chat_id(), Some(111));

    // the right token no longer binds anyone else
    assert!(!s.try_authenticate(222, &"secret".to_string()));
    assert_eq!(s.get_auth_chat_id(), Some(111));
    // not even the owner itself rebinds the slot
    assert!(!s.try_authenticate(111, &"secret".to_string()));
    assert_eq!(s.get_auth_chat_id(), Some(111));
}

#[test]
fn classify_matches_slot() {
    let mut s = GatewayState::new("secret".to_string());
    assert_eq!(s.classify(5), Classification::Unauthenticated);
    assert!(s.try_authenticate(5, &"secret".to_string()));
    assert_eq!(s.classify(5), Classification::Owner);
    assert_eq!(s.classify(6), Classification::Impostor);
}

#[test]
fn unauthenticated_down_and_chat_get_not_available() {
    for event in [
        Event::Cmd(Command::Down("x.txt".to_string())),
        Event::Cmd(Command::Chat("hello".to_string())),
    ] {
        let mut s = GatewayState::new("secret".to_string());
        let r = dispatch(&mut s, 9, "alice", &event);
        match r {
            Directive::Reply(m) => assert_eq!(m, "❌ cmd not available before auth"),
            _ => panic!("expected a reply"),
        }
        assert_eq!(s.get_auth_chat_id(), None);
        assert_eq!(s.query_current_path(), None);
    }
}

#[test]
fn unauthenticated_free_text_gets_not_available() {
    let mut s = GatewayState::new("secret".to_string());
    let r = dispatch(&mut s, 9, "alice", &Event::Text("rm -rf /".to_string()));
    match r {
        Directive::Reply(m) => assert_eq!(m, "❌ cmd not available before auth"),
        _ => panic!("expected a reply"),
    }
    assert_eq!(s.get_auth_chat_id(), None);
    assert_eq!(s.query_current_path(), None);
}

#[test]
fn unauthenticated_document_is_a_no_op() {
    let mut s = GatewayState::new("secret".to_string());
    let r = dispatch(
        &mut s,
        9,
        "alice",
        &Event::Document {
            file_name: "report.txt".to_string(),
        },
    );
    assert!(matches!(r, Directive::Silent));
    assert_eq!(s.get_auth_chat_id(), None);
}

#[test]
fn unauthenticated_start_prompts_to_auth() {
    let mut s = GatewayState::new("secret".to_string());
    let r = dispatch(&mut s, 9, "alice", &Event::Cmd(Command::Start));
    match r {
        Directive::Reply(m) => assert_eq!(m, " 🆓 not auth yet, be quick! auth now 🤞 "),
        _ => panic!("expected a reply"),
    }
}

#[test]
fn auth_with_wrong_token_is_silent() {
    let mut s = GatewayState::new("secret".to_string());
    let r = dispatch(
        &mut s,
        9,
        "alice",
        &Event::Cmd(Command::Auth("guess".to_string())),
    );
    assert!(matches!(r, Directive::Silent));
    assert_eq!(s.get_auth_chat_id(), None);
}

#[test]
fn auth_with_right_token_binds_and_replies() {
    let mut s = GatewayState::new("secret".to_string());
    let r = dispatch(
        &mut s,
        9,
        "alice",
        &Event::Cmd(Command::Auth("secret".to_string())),
    );
    match r {
        Directive::Reply(m) => assert_eq!(m, "✅ auth suceed"),
        _ => panic!("expected a reply"),
    }
    assert_eq!(s.get_auth_chat_id(), Some(9));
    assert_eq!(s.query_current_path().unwrap(), "/");
}

#[test]
fn owner_start_and_auth_acknowledge() {
    for event in [
        Event::Cmd(Command::Start),
        Event::Cmd(Command::Auth("secret".to_string())),
    ] {
        let mut s = owned_state(1, "secret", "/home/x");
        let r = dispatch(&mut s, 1, "alice", &event);
        match r {
            Directive::Reply(m) => assert_eq!(m, "🚩 already auth"),
            _ => panic!("expected a reply"),
        }
        assert_eq!(s.get_auth_chat_id(), Some(1));
    }
}

#[test]
fn impostor_events_warn_the_owner_once() {
    let cases: [(Event, &str); 5] = [
        (Event::Cmd(Command::Start), "mallory is starting the bot"),
        (
            Event::Cmd(Command::Auth("secret".to_string())),
            "mallory is trying to auth",
        ),
        (
            Event::Cmd(Command::Down("a.txt".to_string())),
            "mallory is trying to download file",
        ),
        (
            Event::Cmd(Command::Chat("hi".to_string())),
            "mallory is trying to chat with ollama",
        ),
        (Event::Text("ls".to_string()), "mallory is sending msg!"),
    ];
    for (event, body) in cases {
        let mut s = owned_state(1, "secret", "/home/x");
        let r = dispatch(&mut s, 2, "mallory", &event);
        match r {
            Directive::Warn { owner_chat, text } => {
                assert_eq!(owner_chat, 1);
                assert_eq!(text, format!("❗️❗️❗️{body}❗️❗️❗️"));
            }
            _ => panic!("expected a warning to the owner"),
        }
        // the impostor changed nothing and learned nothing
        assert_eq!(s.get_auth_chat_id(), Some(1));
        assert_eq!(s.query_current_path().unwrap(), "/home/x");
    }
}

#[test]
fn change_directory_to_existing_path() {
    let mut s = owned_state(7, "secret", "/home/alice");
    let r = dispatch(&mut s, 7, "alice", &Event::Text("cd projects".to_string()));
    let attempted = match r {
        Directive::ProbeCd { attempted } => attempted,
        _ => panic!("expected a probe"),
    };
    assert_eq!(attempted, "/home/alice/projects");

    let reply = s.apply_change_directory(
        &attempted,
        PathProbe::Canonical("/home/alice/projects".to_string()),
    );
    assert_eq!(reply, "current path changed: /home/alice/projects");
    assert_eq!(s.query_current_path().unwrap(), "/home/alice/projects");

    // future relative resolutions use the stored directory
    let r = dispatch(&mut s, 7, "alice", &Event::Text("cd src".to_string()));
    match r {
        Directive::ProbeCd { attempted } => assert_eq!(attempted, "/home/alice/projects/src"),
        _ => panic!("expected a probe"),
    }
}

#[test]
fn change_directory_to_missing_path() {
    let mut s = owned_state(7, "secret", "/home/alice");
    let r = dispatch(&mut s, 7, "alice", &Event::Text("cd nowhere".to_string()));
    let attempted = match r {
        Directive::ProbeCd { attempted } => attempted,
        _ => panic!("expected a probe"),
    };
    let reply = s.apply_change_directory(&attempted, PathProbe::Missing);
    assert_eq!(reply, "path not exists: /home/alice/nowhere");
    assert_eq!(s.query_current_path().unwrap(), "/home/alice");
}

#[test]
fn change_directory_absolute_expression() {
    let mut s = owned_state(7, "secret", "/home/alice");
    let r = dispatch(&mut s, 7, "alice", &Event::Text("cd /var/log".to_string()));
    match r {
        Directive::ProbeCd { attempted } => assert_eq!(attempted, "/var/log"),
        _ => panic!("expected a probe"),
    }
}

#[test]
fn free_text_runs_in_the_stored_directory() {
    let mut s = owned_state(7, "secret", "/home/alice");
    let r = dispatch(&mut s, 7, "alice", &Event::Text("ls -l".to_string()));
    match r {
        Directive::RunShell { dir, line } => {
            assert_eq!(dir, "/home/alice");
            assert_eq!(line, "ls -l");
        }
        _ => panic!("expected a shell run"),
    }
}

#[test]
fn empty_free_text_still_reaches_the_shell() {
    let mut s = owned_state(7, "secret", "/home/alice");
    let r = dispatch(&mut s, 7, "alice", &Event::Text(String::new()));
    match r {
        Directive::RunShell { dir, line } => {
            assert_eq!(dir, "/home/alice");
            assert_eq!(line, "");
        }
        _ => panic!("expected a shell run"),
    }
    let quiet = ExecOutcome::Exited {
        stdout: String::new(),
        exit_ok: true,
    };
    assert_eq!(shell_reply("", &quiet).0, "⭕️ exe succeed cmd: ");
}

#[test]
fn cd_with_empty_expression_probes_the_joined_path() {
    let mut s = owned_state(7, "secret", "/home/alice");
    let r = dispatch(&mut s, 7, "alice", &Event::Text("cd ".to_string()));
    match r {
        Directive::ProbeCd { attempted } => assert_eq!(attempted, "/home/alice/"),
        _ => panic!("expected a probe"),
    }
}

#[test]
fn quiet_success_gets_a_synthesized_notice() {
    let outcome = ExecOutcome::Exited {
        stdout: String::new(),
        exit_ok: true,
    };
    let (text, ok) = shell_reply("true", &outcome);
    assert!(ok);
    assert_eq!(text, "⭕️ exe succeed cmd: true");
}

#[test]
fn failed_command_is_distinguishable_from_quiet_success() {
    let failed = ExecOutcome::Exited {
        stdout: String::new(),
        exit_ok: false,
    };
    let (text, ok) = shell_reply("exit 1", &failed);
    assert!(!ok);
    assert!(!text.is_empty());
    assert_eq!(text, "❌ exe failed cmd: exit 1");
    let quiet = ExecOutcome::Exited {
        stdout: String::new(),
        exit_ok: true,
    };
    assert_ne!(text, shell_reply("exit 1", &quiet).0);
}

#[test]
fn captured_output_passes_through() {
    let outcome = ExecOutcome::Exited {
        stdout: "/home/alice\n".to_string(),
        exit_ok: true,
    };
    let (text, ok) = shell_reply("pwd", &outcome);
    assert!(ok);
    assert_eq!(text, "/home/alice\n");
}

#[test]
fn spawn_failure_reports_the_error_text() {
    let outcome = ExecOutcome::SpawnFailed {
        error: "No such file or directory (os error 2)".to_string(),
    };
    let (text, ok) = shell_reply("pwd", &outcome);
    assert!(!ok);
    assert_eq!(text, "No such file or directory (os error 2)");
}

#[test]
fn upload_lands_under_the_working_directory() {
    let mut s = owned_state(7, "secret", "/data");
    let r = dispatch(
        &mut s,
        7,
        "alice",
        &Event::Document {
            file_name: "report.txt".to_string(),
        },
    );
    match r {
        Directive::ReceiveDocument { progress, path } => {
            assert_eq!(progress, "⬇️ downloading file: report.txt");
            assert_eq!(path, "/data/report.txt");
            assert_eq!(upload_saved_reply(&path), "✅️ file saved to: /data/report.txt");
        }
        _ => panic!("expected a document transfer"),
    }
}

#[test]
fn download_addresses_the_uploaded_path() {
    let mut s = owned_state(7, "secret", "/data");
    let up = dispatch(
        &mut s,
        7,
        "alice",
        &Event::Document {
            file_name: "report.txt".to_string(),
        },
    );
    let saved = match up {
        Directive::ReceiveDocument { path, .. } => path,
        _ => panic!("expected a document transfer"),
    };
    let down = dispatch(
        &mut s,
        7,
        "alice",
        &Event::Cmd(Command::Down("report.txt".to_string())),
    );
    match down {
        Directive::SendDocument { path } => assert_eq!(path, saved),
        _ => panic!("expected a document send"),
    }
}

#[test]
fn download_of_a_missing_file_is_reported() {
    assert_eq!(download_reply("/data/report.txt", true), None);
    assert_eq!(
        download_reply("/data/report.txt", false).unwrap(),
        "🚫file: /data/report.txt no exists"
    );
}

#[test]
fn chat_is_forwarded_for_the_owner() {
    let mut s = owned_state(7, "secret", "/home/alice");
    let r = dispatch(
        &mut s,
        7,
        "alice",
        &Event::Cmd(Command::Chat("tell me a joke".to_string())),
    );
    match r {
        Directive::QueryModel { prompt } => assert_eq!(prompt, "tell me a joke"),
        _ => panic!("expected a model query"),
    }
}

#[test]
fn generate_outcomes_map_to_display_text() {
    let r = interpret_generate(&GenerateOutcome::Generated {
        response: "hello".to_string(),
    });
    assert_eq!(r, Ok("hello".to_string()));

    let r = interpret_generate(&GenerateOutcome::TransportError {
        error: "connection refused".to_string(),
    });
    assert_eq!(r, Err("connection refused".to_string()));

    let r = interpret_generate(&GenerateOutcome::BadStatus {
        status: "404 Not Found".to_string(),
    });
    assert_eq!(r, Err("request failed with status code:404 Not Found".to_string()));

    let r = interpret_generate(&GenerateOutcome::MalformedResponse {
        error: "missing field `response`".to_string(),
    });
    assert_eq!(r, Err("missing field `response`".to_string()));

    assert_eq!(chat_reply(Ok("hello".to_string())), "hello");
    assert_eq!(chat_reply(Err("oops".to_string())), "oops");
}

#[test]
fn unsupported_inputs_are_named_for_the_owner() {
    let mut s = owned_state(7, "secret", "/home/alice");
    let r = dispatch(
        &mut s,
        7,
        "alice",
        &Event::UnsupportedMedia {
            description: "Sticker".to_string(),
        },
    );
    match r {
        Directive::Reply(m) => assert_eq!(m, "unsupported media kind: Sticker"),
        _ => panic!("expected a reply"),
    }
    let r = dispatch(&mut s, 7, "alice", &Event::UnsupportedMessage);
    match r {
        Directive::Reply(m) => assert_eq!(m, "unsupported msg type"),
        _ => panic!("expected a reply"),
    }
}

#[test]
fn resolution_and_joining() {
    assert_eq!(resolve("/home/alice", "projects"), "/home/alice/projects");
    assert_eq!(resolve("/home/alice", "/etc"), "/etc");
    assert_eq!(resolve("/", ""), "//");
    assert_eq!(join_path("/data", "report.txt"), "/data/report.txt");
    assert_eq!(join_path("/", "a"), "//a");
}

#[test]
fn warnings_are_wrapped_in_markers() {
    assert_eq!(
        format_warning("mallory is sending msg!"),
        "❗️❗️❗️mallory is sending msg!❗️❗️❗️"
    );
}
