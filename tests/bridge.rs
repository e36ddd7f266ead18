use codex_bridge::extract::extract_url;
use codex_bridge::process::{
    agent_available, agent_invocation, interpret_execution, version_invocation, AgentError,
    ExecutionResult, AGENT_MODEL, AGENT_PROGRAM,
};
use codex_bridge::prompt::{
    compose, Request, Task, ANALYZE_INSTRUCTION, CONTINUE_INSTRUCTION, IMPROVE_INSTRUCTION,
};
use codex_bridge::text::starts_with_http;

fn finished(success: bool, stdout: &[u8], stderr: &[u8]) -> Result<ExecutionResult, String> {
    Ok(ExecutionResult { exit_success: success, stdout: stdout.to_vec(), stderr: stderr.to_vec() })
}

#[test]
fn compose_without_context_is_prompt() {
    assert_eq!(compose("Translate: hi", None), "Translate: hi");
    assert_eq!(compose("", None), "");
}

#[test]
fn compose_with_context_puts_blank_line_between() {
    assert_eq!(compose("prompt", Some("context")), "context\n\nprompt");
    assert_eq!(compose("", Some("")), "\n\n");
}

fn reply(stdout: &str) -> String {
    interpret_execution(finished(true, stdout.as_bytes(), b"")).unwrap()
}

#[test]
fn trim_removes_unicode_whitespace() {
    assert_eq!(reply("  Hi there.  \n"), "Hi there.");
    assert_eq!(reply("\u{3000}\u{a0}abc\u{2029}\t"), "abc");
    assert_eq!(reply(" \r\n "), "");
    assert_eq!(reply("a \u{200b}"), "a \u{200b}");
}

#[test]
fn trimming_twice_changes_nothing() {
    for s in ["  a b  ", "\n\nx\n", "", "   ", "\u{3000}y\u{85}"] {
        let once = reply(s);
        assert_eq!(reply(&once), once);
    }
}

#[test]
fn starts_with_http_checks_prefix() {
    assert!(starts_with_http("https://x"));
    assert!(starts_with_http("http"));
    assert!(!starts_with_http("htt"));
    assert!(!starts_with_http(" http"));
}

#[test]
fn extract_takes_first_url_line() {
    assert_eq!(extract_url("noise\nhttps://x/y\nmore"), Ok("https://x/y".to_string()));
    assert_eq!(
        extract_url("noise\n  https://a/1  \nhttps://b/2"),
        Ok("https://a/1".to_string())
    );
    assert_eq!(extract_url("noise\r\nhttp://c\r\n"), Ok("http://c".to_string()));
}

#[test]
fn extract_failure_carries_trimmed_reply() {
    assert_eq!(
        extract_url("no links here"),
        Err(AgentError::ExtractionFailure("no links here".to_string()))
    );
    assert_eq!(
        extract_url("  one\ntwo  \n"),
        Err(AgentError::ExtractionFailure("one\ntwo".to_string()))
    );
    assert_eq!(extract_url(""), Err(AgentError::ExtractionFailure(String::new())));
}

#[test]
fn extract_keeps_reply_that_is_a_url() {
    assert_eq!(
        extract_url("https://img/1 then words\nhttps://img/2"),
        Ok("https://img/1 then words\nhttps://img/2".to_string())
    );
    assert_eq!(extract_url("\n https://img/3 \n"), Ok("https://img/3".to_string()));
}

#[test]
fn nonzero_exit_carries_stderr() {
    let r = interpret_execution(finished(false, b"ignored", b"boom"));
    assert_eq!(r, Err(AgentError::NonZeroExit("boom".to_string())));
    let r = interpret_execution(finished(false, b"", b"bad \xff byte"));
    assert_eq!(r, Err(AgentError::NonZeroExit("bad \u{fffd} byte".to_string())));
}

#[test]
fn invalid_output_is_decode_failure() {
    let r = interpret_execution(finished(true, b"\xff\xfe", b""));
    assert!(matches!(r, Err(AgentError::DecodeFailure(_))));
    let r = interpret_execution(finished(true, b"ok \xc0\x80", b""));
    assert!(matches!(r, Err(AgentError::DecodeFailure(_))));
}

#[test]
fn spawn_failure_carries_system_text() {
    let r = interpret_execution(Err("No such file or directory (os error 2)".to_string()));
    assert_eq!(
        r,
        Err(AgentError::SpawnFailure("No such file or directory (os error 2)".to_string()))
    );
}

#[test]
fn successful_output_is_decoded_and_trimmed() {
    let r = interpret_execution(finished(true, "  안녕하세요 \n".as_bytes(), b"warn"));
    assert_eq!(r, Ok("안녕하세요".to_string()));
}

#[test]
fn probe_is_false_when_agent_absent() {
    assert!(!agent_available(&Err("not found".to_string())));
    assert!(!agent_available(&finished(false, b"", b"")));
    assert!(agent_available(&finished(true, b"codex 1.0", b"")));
}

#[test]
fn request_end_to_end() {
    let req = Request { prompt: "Translate: hi".to_string(), context: None, max_tokens: None };
    assert_eq!(req.composed_prompt(), "Translate: hi");
    let inv = req.invocation();
    assert_eq!(inv.program, "codex");
    assert_eq!(inv.args.last().map(|a| a.as_str()), Some("Translate: hi"));
    let r = interpret_execution(finished(true, b"  Hi there.  \n", b""));
    assert_eq!(r, Ok("Hi there.".to_string()));
}

#[test]
fn agent_command_line_shape() {
    let inv = agent_invocation("do it");
    assert_eq!(inv.program, AGENT_PROGRAM);
    assert_eq!(inv.args, vec!["exec", "--model", "gpt-5.2", "--skip-git-repo-check", "do it"]);
    assert_eq!(AGENT_MODEL, "gpt-5.2");
    let v = version_invocation();
    assert_eq!(v.program, "codex");
    assert_eq!(v.args, vec!["--version"]);
}

#[test]
fn request_with_context_is_composed() {
    let req = Request {
        prompt: "go on".to_string(),
        context: Some("once upon a time".to_string()),
        max_tokens: Some(10),
    };
    assert_eq!(req.composed_prompt(), "once upon a time\n\ngo on");
    assert_eq!(req.invocation().args[4], "once upon a time\n\ngo on");
}

#[test]
fn task_templates() {
    let r = Task::ImproveText { text: "글".to_string() }.request();
    assert_eq!(r.prompt, format!("{}\n\n글", IMPROVE_INSTRUCTION));
    assert_eq!(r.context, None);
    assert_eq!(r.max_tokens, Some(1024));

    let r = Task::ContinueStory { context: "story".to_string() }.request();
    assert_eq!(r.prompt, CONTINUE_INSTRUCTION);
    assert_eq!(r.context, Some("story".to_string()));
    assert_eq!(r.max_tokens, Some(2048));
    assert_eq!(r.composed_prompt(), format!("story\n\n{}", CONTINUE_INSTRUCTION));

    let r = Task::AnalyzeStory { text: "plot".to_string() }.request();
    assert_eq!(r.prompt, format!("{}\n\nplot", ANALYZE_INSTRUCTION));
    assert_eq!(r.max_tokens, Some(2048));

    let r = Task::GenerateImage { prompt: "a cat".to_string(), size: "1024x1024".to_string() }
        .request();
    assert_eq!(
        r.prompt,
        "Please generate an image using DALL-E 3 with the following prompt and return ONLY the image URL (nothing else):\n\nPrompt: a cat\nSize: 1024x1024"
    );
    assert_eq!(r.context, None);
    assert_eq!(r.max_tokens, None);
}

#[test]
fn finish_extracts_only_for_images() {
    let image = Task::GenerateImage { prompt: "p".to_string(), size: "s".to_string() };
    let text = Task::AnalyzeStory { text: "t".to_string() };
    assert_eq!(image.finish(Ok("here:\nhttps://u".to_string())), Ok("https://u".to_string()));
    assert_eq!(
        image.finish(Ok("nothing".to_string())),
        Err(AgentError::ExtractionFailure("nothing".to_string()))
    );
    assert_eq!(
        image.finish(Err(AgentError::NonZeroExit("e".to_string()))),
        Err(AgentError::NonZeroExit("e".to_string()))
    );
    assert_eq!(text.finish(Ok("here:\nhttps://u".to_string())), Ok("here:\nhttps://u".to_string()));
}

#[test]
fn error_messages() {
    assert_eq!(
        AgentError::SpawnFailure("x".to_string()).message(),
        "Failed to execute Codex CLI: x"
    );
    assert_eq!(AgentError::NonZeroExit("y".to_string()).message(), "Codex CLI error: y");
    assert_eq!(
        AgentError::DecodeFailure("z".to_string()).message(),
        "Failed to parse Codex output: z"
    );
    assert_eq!(
        AgentError::ExtractionFailure("w".to_string()).message(),
        "Failed to extract image URL from response: w"
    );
    assert_eq!(AgentError::ExtractionFailure("w".to_string()).detail(), "w");
}
