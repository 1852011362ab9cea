use crater_ohos_bot::auth::{callback_authorized, tokens_match};
use crater_ohos_bot::bot::processor::{CraterCall, CraterReply, Pending, Step};
use crater_ohos_bot::bot::{BotCommand, CommandProcessor};
use crater_ohos_bot::config::{BotConfig, Config, CraterConfig, PlatformConfig, PlatformsConfig, ServerConfig};
use crater_ohos_bot::crater::{Experiment, ExperimentStatus, WebhookCallback};
use crater_ohos_bot::error::BotError;
use crater_ohos_bot::platforms::gitcode::{comment_url, token_header, GitCodeAdapter};
use crater_ohos_bot::crater::endpoints::{bearer, experiment_action_url, experiment_url, experiments_url};
use crater_ohos_bot::api::{callback_failure_is_bad_request, contains_text};
use crater_ohos_bot::platforms::gitee::GiteeAdapter;
use crater_ohos_bot::platforms::github::GitHubAdapter;
use crater_ohos_bot::platforms::PlatformAdapter;
use crater_ohos_bot::store::{make_mapping_key, MappingStore};
use crater_ohos_bot::utils::{generate_experiment_name, parse_experiment_name};
use crater_ohos_bot::webhook::receiver::{GitCodeIssue, GitCodeNote, GitCodeProject, Route};
use crater_ohos_bot::webhook::{CallbackHandler, GitCodeWebhook, WebhookReceiver};

fn platform_config() -> PlatformConfig {
    PlatformConfig {
        enabled: true,
        api_url: "https://gitcode.example/api/v5".to_string(),
        access_token: "tok".to_string(),
        webhook_secret: "s3cret-token".to_string(),
    }
}

fn config() -> Config {
    Config {
        server: ServerConfig { host: "127.0.0.1".to_string(), port: 8080 },
        crater: CraterConfig {
            api_url: "https://crater.example".to_string(),
            api_token: "api".to_string(),
            callback_base_url: "https://relay.example".to_string(),
            callback_secret: "cb".to_string(),
        },
        platforms: PlatformsConfig { gitcode: Some(platform_config()), github: None, gitee: None },
        bot: BotConfig {
            name: "Crater Bot".to_string(),
            trigger_prefix: "@crater-bot".to_string(),
            default_mode: "build-and-test".to_string(),
            default_crate_select: "demo".to_string(),
        },
    }
}

fn experiment(name: &str, status: ExperimentStatus, toolchains: &[&str]) -> Experiment {
    Experiment {
        name: name.to_string(),
        toolchains: toolchains.iter().map(|t| t.to_string()).collect(),
        mode: "build-and-test".to_string(),
        crate_select: "demo".to_string(),
        priority: 0,
        status,
        report_url: None,
    }
}

fn note_webhook(project: &str, iid: u64, text: &str) -> GitCodeWebhook {
    GitCodeWebhook {
        object_kind: "note".to_string(),
        project: Some(GitCodeProject { path_with_namespace: project.to_string() }),
        issue: Some(GitCodeIssue { iid }),
        object_attributes: Some(GitCodeNote { note: text.to_string() }),
    }
}

fn reply_text(step: Result<Step, BotError>) -> String {
    match step.unwrap() {
        Step::Reply(m) => m,
        other => panic!("expected a reply, got {:?}", other),
    }
}

#[test]
fn experiment_name_example_round_trips() {
    let name = generate_experiment_name("my-org/my-cool-project", 789);
    assert_eq!(name, "my-org--my-cool-project-789");
    let (project, issue) = parse_experiment_name(&name).unwrap();
    assert_eq!(project, "my-org/my-cool-project");
    assert_eq!(issue, 789);
}

#[test]
fn experiment_name_of_nested_path_round_trips() {
    let name = generate_experiment_name("a/b/c-d", 1);
    assert_eq!(name, "a--b--c-d-1");
    assert_eq!(parse_experiment_name(&name).unwrap(), ("a/b/c-d".to_string(), 1));
}

#[test]
fn experiment_name_number_limits() {
    assert_eq!(parse_experiment_name("x-18446744073709551615").unwrap().1, u64::MAX);
    assert!(matches!(parse_experiment_name("x-18446744073709551616"), Err(BotError::Internal(_))));
    assert!(matches!(parse_experiment_name("x-"), Err(BotError::Internal(_))));
    assert_eq!(parse_experiment_name("x-+7").unwrap(), ("x".to_string(), 7));
    assert_eq!(parse_experiment_name("-0").unwrap(), ("".to_string(), 0));
}

#[test]
fn experiment_name_errors_are_internal() {
    match parse_experiment_name("invalid") {
        Err(e) => assert_eq!(e.message(), "Internal error: Invalid experiment name format: invalid"),
        Ok(_) => panic!("expected an error"),
    }
    match parse_experiment_name("no-number-abc") {
        Err(e) => assert_eq!(e.message(), "Internal error: Invalid issue ID in experiment name: abc"),
        Ok(_) => panic!("expected an error"),
    }
}

#[test]
fn parse_ignores_comments_without_prefix() {
    assert_eq!(BotCommand::parse("This is a regular comment", "@crater-bot").unwrap(), None);
    assert_eq!(BotCommand::parse("", "@crater-bot").unwrap(), None);
    assert_eq!(BotCommand::parse("please @crater-bot run a b", "@crater-bot").unwrap(), None);
}

#[test]
fn parse_trims_the_comment() {
    assert_eq!(BotCommand::parse("  \n@crater-bot  list \t", "@crater-bot").unwrap(), Some(BotCommand::List));
    assert_eq!(BotCommand::parse("@crater-bot   \u{3000}", "@crater-bot").unwrap(), Some(BotCommand::Help));
}

#[test]
fn parse_run_arity() {
    assert!(matches!(
        BotCommand::parse("@crater-bot run stable", "@crater-bot"),
        Err(BotError::InvalidCommand(_))
    ));
    assert_eq!(
        BotCommand::parse("@crater-bot run stable beta", "@crater-bot").unwrap(),
        Some(BotCommand::Run { toolchains: vec!["stable".to_string(), "beta".to_string()] })
    );
}

#[test]
fn parse_keeps_toolchain_case() {
    assert_eq!(
        BotCommand::parse("@crater-bot RUN Stable BETA", "@crater-bot").unwrap(),
        Some(BotCommand::Run { toolchains: vec!["Stable".to_string(), "BETA".to_string()] })
    );
    assert_eq!(BotCommand::parse("@crater-bot status", "@crater-bot").unwrap(), Some(BotCommand::Status));
    assert_eq!(BotCommand::parse("@crater-bot STATUS", "@crater-bot").unwrap(), Some(BotCommand::Status));
    assert_eq!(BotCommand::parse("@crater-bot AbOrT", "@crater-bot").unwrap(), Some(BotCommand::Abort));
}

#[test]
fn unknown_command_quotes_the_word() {
    match BotCommand::parse("@crater-bot Deploy now", "@crater-bot") {
        Err(BotError::InvalidCommand(m)) => assert!(m.contains("Deploy")),
        other => panic!("unexpected {:?}", other),
    }
}

#[test]
fn from_keyword_selects_by_lowered_word() {
    assert_eq!(BotCommand::from_keyword("list", "LIST", vec![]).unwrap(), Some(BotCommand::List));
    assert!(BotCommand::from_keyword("LIST", "LIST", vec![]).is_err());
    assert!(BotCommand::from_keyword("run", "run", vec!["a".to_string()]).is_err());
}

#[test]
fn webhook_token_checks() {
    let adapter = GitCodeAdapter::new(platform_config()).unwrap();
    assert_eq!(adapter.verify_webhook(b"{}", "s3cret-token").unwrap(), true);
    assert_eq!(adapter.verify_webhook(b"{}", "s3cret-tokem").unwrap(), false);
    assert_eq!(adapter.verify_webhook(b"{}", "s3cret-toke").unwrap(), false);
    assert_eq!(adapter.verify_webhook(b"{}", "").unwrap(), false);
    assert!(tokens_match("abc", "abc"));
    assert!(!tokens_match("abc", "abd"));
}

#[test]
fn callback_bearer_token() {
    assert!(callback_authorized("Bearer cb", "cb"));
    assert!(!callback_authorized("Bearer cc", "cb"));
    assert!(!callback_authorized("cb", "cb"));
}

#[test]
fn unimplemented_platforms_fail() {
    let mut gitee = GiteeAdapter::new(platform_config()).unwrap();
    assert!(matches!(gitee.verify_webhook(b"", "x"), Err(BotError::Platform(_))));
    assert!(matches!(gitee.get_experiment_mapping("a/b", 1), Err(BotError::Platform(_))));
    assert!(matches!(gitee.store_experiment_mapping("a/b", 1, "n"), Err(BotError::Platform(_))));
    let github = GitHubAdapter::new(platform_config()).unwrap();
    match github.get_experiment_mapping("a/b", 1) {
        Err(e) => assert_eq!(e.message(), "Platform error: GitHub adapter not implemented yet"),
        Ok(_) => panic!("expected an error"),
    }
}

#[test]
fn store_keeps_the_latest_name() {
    assert_eq!(make_mapping_key("acme/widgets", 42), "acme/widgets#42");
    let mut store = MappingStore::new();
    let key = make_mapping_key("acme/widgets", 42);
    assert_eq!(store.get(&key), None);
    store.put(key.clone(), "first".to_string());
    store.put(make_mapping_key("acme/widgets", 4), "other".to_string());
    store.put(key.clone(), "second".to_string());
    assert_eq!(store.get(&key), Some("second".to_string()));
    assert_eq!(store.get(&make_mapping_key("acme/widgets", 4)), Some("other".to_string()));
}

#[test]
fn status_and_abort_without_experiment() {
    let processor = CommandProcessor::new(&config());
    let adapter = GitCodeAdapter::new(platform_config()).unwrap();
    let status = reply_text(processor.process(BotCommand::Status, &adapter, "acme/widgets", 42));
    assert_eq!(status, "当前没有与此 Issue 关联的实验。");
    let abort = reply_text(processor.process(BotCommand::Abort, &adapter, "acme/widgets", 42));
    assert_eq!(abort, "当前没有与此 Issue 关联的实验可以中止。");
}

#[test]
fn help_lists_commands_with_prefix() {
    let processor = CommandProcessor::new(&config());
    let adapter = GitCodeAdapter::new(platform_config()).unwrap();
    let help = reply_text(processor.process(BotCommand::Help, &adapter, "acme/widgets", 42));
    assert!(help.starts_with("## Crater Bot 帮助"));
    assert!(help.contains("- `@crater-bot status` - 查看当前实验状态"));
    assert!(help.ends_with("@crater-bot run nightly-2024-01-01 stable\n```"));
}

#[test]
fn end_to_end_run_from_webhook() {
    let cfg = config();
    let receiver = WebhookReceiver::new(&cfg);
    let processor = CommandProcessor::new(&cfg);
    let mut adapter = GitCodeAdapter::new(platform_config()).unwrap();
    receiver.authenticate(&adapter, b"{}", "s3cret-token").unwrap();
    assert!(matches!(
        receiver.authenticate(&adapter, b"{}", "wrong"),
        Err(BotError::WebhookVerification(_))
    ));
    let route = receiver.route(note_webhook("acme/widgets", 42, "@crater-bot run stable beta")).unwrap();
    let (project, issue_id, command) = match route {
        Route::Dispatch { project, issue_id, command } => (project, issue_id, command),
        other => panic!("unexpected {:?}", other),
    };
    let step = processor.process(command, &adapter, &project, issue_id).unwrap();
    let pending = match step {
        Step::Call { call: CraterCall::Create(req), pending } => {
            assert_eq!(req.name, "acme--widgets-42");
            assert_eq!(req.toolchains, vec!["stable".to_string(), "beta".to_string()]);
            assert_eq!(req.mode, "build-and-test");
            assert_eq!(req.crate_select, "demo");
            assert_eq!(req.priority, 0);
            assert_eq!(req.callback_url, Some("https://relay.example/callback/crater".to_string()));
            pending
        }
        other => panic!("unexpected {:?}", other),
    };
    let created = experiment("acme--widgets-42", ExperimentStatus::Queued, &["stable", "beta"]);
    let step = processor
        .resume(pending, Ok(CraterReply::Created(created)), &mut adapter, &project, issue_id)
        .unwrap();
    let pending = match step {
        Step::Call { call: CraterCall::Run(name), pending } => {
            assert_eq!(name, "acme--widgets-42");
            pending
        }
        other => panic!("unexpected {:?}", other),
    };
    assert_eq!(adapter.get_experiment_mapping("acme/widgets", 42).unwrap(), None);
    let message =
        reply_text(processor.resume(pending, Ok(CraterReply::Started), &mut adapter, &project, issue_id));
    assert_eq!(
        message,
        "✅ 实验 `acme--widgets-42` 已创建并开始执行。\n\n工具链：stable vs beta\n模式：build-and-test\n状态：排队中\n\n我会在实验完成后通知您。"
    );
    assert_eq!(
        adapter.get_experiment_mapping("acme/widgets", 42).unwrap(),
        Some("acme--widgets-42".to_string())
    );
    assert_eq!(adapter.get_experiment_mapping("acme/widgets", 4).unwrap(), None);
    let answer = WebhookReceiver::answer(project, issue_id, Ok(message.clone()));
    assert_eq!(answer.comment.project, "acme/widgets");
    assert_eq!(answer.comment.issue_id, 42);
    assert_eq!(answer.comment.body, message);
    assert!(answer.failure.is_none());
    assert!(WebhookReceiver::settle(answer.failure, Ok(())).is_ok());

    // The mapping is now found by status and abort.
    match processor.process(BotCommand::Status, &adapter, "acme/widgets", 42).unwrap() {
        Step::Call { call: CraterCall::Get(name), pending: Pending::Fetching } => {
            assert_eq!(name, "acme--widgets-42")
        }
        other => panic!("unexpected {:?}", other),
    }
    match processor.process(BotCommand::Abort, &adapter, "acme/widgets", 42).unwrap() {
        Step::Call { call: CraterCall::Abort(name), pending } => {
            assert_eq!(name, "acme--widgets-42");
            let text = reply_text(processor.resume(
                pending,
                Ok(CraterReply::Aborted),
                &mut adapter,
                "acme/widgets",
                42,
            ));
            assert_eq!(text, "⏹️ 实验 `acme--widgets-42` 已中止。");
        }
        other => panic!("unexpected {:?}", other),
    }
}

#[test]
fn failed_call_ends_the_exchange() {
    let processor = CommandProcessor::new(&config());
    let mut adapter = GitCodeAdapter::new(platform_config()).unwrap();
    let step = processor
        .process(BotCommand::Run { toolchains: vec!["a".to_string(), "b".to_string()] }, &adapter, "o/r", 7)
        .unwrap();
    let pending = match step {
        Step::Call { pending, .. } => pending,
        other => panic!("unexpected {:?}", other),
    };
    let r = processor.resume(pending, Err(BotError::CraterApi("boom".to_string())), &mut adapter, "o/r", 7);
    assert!(matches!(r, Err(BotError::CraterApi(_))));
    assert_eq!(adapter.get_experiment_mapping("o/r", 7).unwrap(), None);
    let r = processor.resume(Pending::Listing, Ok(CraterReply::Started), &mut adapter, "o/r", 7);
    assert!(matches!(r, Err(BotError::Internal(_))));
}

#[test]
fn status_reply_describes_experiment() {
    let processor = CommandProcessor::new(&config());
    let mut adapter = GitCodeAdapter::new(platform_config()).unwrap();
    let exp = experiment("o--r-7", ExperimentStatus::Running, &["stable", "beta", "nightly"]);
    let text = reply_text(processor.resume(Pending::Fetching, Ok(CraterReply::Fetched(exp)), &mut adapter, "o/r", 7));
    assert_eq!(text, "📊 实验状态\n\n名称：`o--r-7`\n工具链：stable vs beta vs nightly\n状态：运行中\n模式：build-and-test");
}

#[test]
fn list_shows_ten_and_counts_the_rest() {
    let processor = CommandProcessor::new(&config());
    let mut adapter = GitCodeAdapter::new(platform_config()).unwrap();
    let empty = reply_text(processor.resume(Pending::Listing, Ok(CraterReply::Listed(vec![])), &mut adapter, "o/r", 1));
    assert_eq!(empty, "当前没有实验。");
    let one = vec![experiment("e0", ExperimentStatus::Completed, &["a", "b"])];
    let text = reply_text(processor.resume(Pending::Listing, Ok(CraterReply::Listed(one)), &mut adapter, "o/r", 1));
    assert_eq!(text, "## 实验列表\n\n- `e0` - 已完成 (a vs b)\n");
    let many: Vec<Experiment> =
        (0..12).map(|i| experiment(&format!("e{}", i), ExperimentStatus::Failed, &["a", "b"])).collect();
    let text = reply_text(processor.resume(Pending::Listing, Ok(CraterReply::Listed(many)), &mut adapter, "o/r", 1));
    assert_eq!(text.matches("\n- `").count(), 10);
    assert!(text.contains("- `e9` - 失败 (a vs b)\n"));
    assert!(!text.contains("`e10`"));
    assert!(text.ends_with("\n_...还有 2 个实验_"));
}

#[test]
fn route_filters_and_reports() {
    let receiver = WebhookReceiver::new(&config());
    let mut push = note_webhook("o/r", 1, "@crater-bot status");
    push.object_kind = "push".to_string();
    assert!(matches!(receiver.route(push).unwrap(), Route::Ignore));
    assert!(matches!(receiver.route(note_webhook("o/r", 1, "thanks!")).unwrap(), Route::Ignore));
    let mut missing = note_webhook("o/r", 1, "@crater-bot status");
    missing.issue = None;
    match receiver.route(missing) {
        Err(e) => assert_eq!(e.message(), "Platform error: Missing issue information"),
        Ok(r) => panic!("unexpected {:?}", r),
    }
    match receiver.route(note_webhook("o/r", 3, "@crater-bot run stable")).unwrap() {
        Route::Report(answer) => {
            assert_eq!(answer.comment.project, "o/r");
            assert_eq!(answer.comment.issue_id, 3);
            assert!(answer.comment.body.starts_with("❌ Error: Invalid command: run 命令需要至少两个工具链参数"));
            assert!(matches!(answer.failure, Some(BotError::InvalidCommand(_))));
            let settled = WebhookReceiver::settle(answer.failure, Err(BotError::Platform("down".to_string())));
            assert!(matches!(settled, Err(BotError::InvalidCommand(_))));
        }
        other => panic!("unexpected {:?}", other),
    }
}

#[test]
fn settle_reports_post_failure() {
    let r = WebhookReceiver::settle(None, Err(BotError::Platform("down".to_string())));
    assert!(matches!(r, Err(BotError::Platform(_))));
}

#[test]
fn callback_completed_links_report() {
    let handler = CallbackHandler::new();
    let callback = WebhookCallback {
        experiment: "acme--widgets-42".to_string(),
        status: "completed".to_string(),
        report_url: Some("https://example/report".to_string()),
    };
    let comment = handler.handle_crater_callback(&callback).unwrap();
    assert_eq!(comment.project, "acme/widgets");
    assert_eq!(comment.issue_id, 42);
    assert_eq!(
        comment.body,
        "🎉 实验 `acme--widgets-42` 已完成！\n\n📊 查看完整报告：[点击查看](https://example/report)"
    );
}

#[test]
fn callback_other_states() {
    let handler = CallbackHandler::new();
    let mk = |status: &str| WebhookCallback {
        experiment: "o--r-5".to_string(),
        status: status.to_string(),
        report_url: None,
    };
    assert_eq!(handler.handle_crater_callback(&mk("completed")).unwrap().body, "🎉 实验 `o--r-5` 已完成！");
    assert_eq!(handler.handle_crater_callback(&mk("failed")).unwrap().body, "❌ 实验 `o--r-5` 失败。");
    assert_eq!(handler.handle_crater_callback(&mk("aborted")).unwrap().body, "⏹️ 实验 `o--r-5` 已中止。");
    assert_eq!(handler.handle_crater_callback(&mk("queued")).unwrap().body, "📊 实验 `o--r-5` 状态更新：queued");
}

#[test]
fn callback_for_unknown_name_posts_nothing() {
    let handler = CallbackHandler::new();
    for name in ["garbage", "acme-widgets-x", "o--r-0"] {
        let callback = WebhookCallback {
            experiment: name.to_string(),
            status: "completed".to_string(),
            report_url: Some("https://example/report".to_string()),
        };
        assert!(handler.handle_crater_callback(&callback).is_none());
    }
}

#[test]
fn error_messages_have_headings() {
    assert_eq!(BotError::Config("x".to_string()).message(), "Configuration error: x");
    assert_eq!(BotError::CraterApi("y".to_string()).message(), "Crater API error: y");
    assert_eq!(BotError::WebhookVerification("z".to_string()).message(), "Webhook verification failed: z");
    assert_eq!(ExperimentStatus::Aborted.label(), "已中止");
}

#[test]
fn service_addresses() {
    assert_eq!(experiments_url("https://c.example"), "https://c.example/api/v1/experiments");
    assert_eq!(experiment_url("https://c.example", "o--r-1"), "https://c.example/api/v1/experiments/o--r-1");
    assert_eq!(
        experiment_action_url("https://c.example", "o--r-1", "abort"),
        "https://c.example/api/v1/experiments/o--r-1/abort"
    );
    assert_eq!(bearer("t0k"), "Bearer t0k");
    assert_eq!(
        comment_url("https://g.example/api/v5", "acme/widgets", 42),
        "https://g.example/api/v5/repos/acme/widgets/issues/42/comments"
    );
    assert_eq!(token_header("abc"), "token abc");
}

#[test]
fn callback_failures_classified() {
    assert!(callback_failure_is_bad_request(&BotError::Internal("Invalid issue ID".to_string())));
    assert!(callback_failure_is_bad_request(&BotError::Json("cannot parse body".to_string())));
    assert!(callback_failure_is_bad_request(&BotError::InvalidCommand("x".to_string())));
    assert!(!callback_failure_is_bad_request(&BotError::Platform("down".to_string())));
    let s: Vec<char> = "abcabd".chars().collect();
    let t: Vec<char> = "abd".chars().collect();
    let u: Vec<char> = "abe".chars().collect();
    assert!(contains_text(&s, &t));
    assert!(!contains_text(&s, &u));
    assert!(contains_text(&s, &[]));
}
