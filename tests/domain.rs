use agent_orchestrator::{
    AgentExecutionResult, DomainError, HealthCheckResponse, MailCategory, MailContent, MailMessage, MailRouter,
    MailStatus, MailTitle, Score, SubmissionStatus, UserId,
};

#[test]
fn health_check_ok_payload() {
    let response = HealthCheckResponse::ok();
    assert_eq!(response.status, "ok");
}

#[test]
fn accepted_result_has_expected_fields() {
    let score = Score::new(100).expect("score should be valid");
    let result = AgentExecutionResult::accepted(score, 12, 1024);

    assert_eq!(result.status, SubmissionStatus::Accepted);
    assert_eq!(result.score, score);
    assert_eq!(result.runtime_ms, Some(12));
    assert_eq!(result.memory_kb, Some(1024));
    assert!(result.compiler_output.is_none());
}

#[test]
fn failed_result_defaults_score_and_resource_usage() {
    let result = AgentExecutionResult::failed(
        SubmissionStatus::CompileError,
        Some("compile failed".to_string()),
        None,
    );

    assert_eq!(result.status, SubmissionStatus::CompileError);
    assert_eq!(result.score, Score::default());
    assert_eq!(result.runtime_ms, None);
    assert_eq!(result.memory_kb, None);
    assert_eq!(result.compiler_output.as_deref(), Some("compile failed"));
}

#[test]
fn user_id_can_roundtrip_from_string() {
    let id = UserId::new();
    let parsed: UserId = id
        .to_string()
        .parse()
        .expect("generated user id should be valid");

    assert_eq!(id, parsed);
}

fn user_ids() -> (UserId, UserId, UserId) {
    (UserId::new(), UserId::new(), UserId::new())
}

#[test]
fn route_returns_primary_recipient_when_no_subscribers() {
    let router = MailRouter::new();
    let (u1, _, _) = user_ids();

    let recipients = router.route(MailCategory::Security, Some(u1));

    assert_eq!(recipients, vec![u1]);
}

#[test]
fn route_merges_primary_and_subscribers_without_duplicates() {
    let mut router = MailRouter::new();
    let (u1, u2, _) = user_ids();

    router.subscribe(MailCategory::System, u1);
    router.subscribe(MailCategory::System, u2);

    let recipients = router.route(MailCategory::System, Some(u1));

    assert_eq!(recipients.len(), 2);
    assert!(recipients.contains(&u1));
    assert!(recipients.contains(&u2));
}

#[test]
fn unsubscribe_removes_subscriber() {
    let mut router = MailRouter::new();
    let (u1, _, _) = user_ids();

    assert!(router.subscribe(MailCategory::Contest, u1));
    assert!(router.unsubscribe(MailCategory::Contest, u1));

    let recipients = router.route(MailCategory::Contest, None);
    assert!(recipients.is_empty());
}

#[test]
fn dispatch_creates_mail_for_all_routed_recipients() {
    let mut router = MailRouter::new();
    let (u1, u2, _) = user_ids();
    router.subscribe(MailCategory::Activity, u2);

    let title = MailTitle::new("活动通知").expect("valid title");
    let content = MailContent::new("你关注的题目有新动态").expect("valid content");

    let mails = router.dispatch(MailCategory::Activity, title, content, Some(u1));

    assert_eq!(mails.len(), 2);

    let recipients: Vec<UserId> = mails.iter().map(|mail| mail.recipient_id()).collect();
    assert!(recipients.contains(&u1));
    assert!(recipients.contains(&u2));

    for mail in mails {
        assert_eq!(mail.category(), MailCategory::Activity);
        assert_eq!(mail.status(), MailStatus::Unread);
        assert_eq!(mail.title().as_str(), "活动通知");
        assert_eq!(mail.content().as_str(), "你关注的题目有新动态");
    }
}

#[test]
fn valid_mail_title_is_created() {
    let title = MailTitle::new("  系统通知  ").expect("title should be valid");
    assert_eq!(title.as_str(), "系统通知");
}

#[test]
fn empty_mail_title_is_rejected() {
    let err = MailTitle::new("   ").expect_err("empty title should be rejected");
    assert_eq!(err, DomainError::EmptyMailTitle);
}

#[test]
fn too_long_mail_title_is_rejected() {
    let long = "a".repeat(MailTitle::MAX_LEN + 1);
    let err = MailTitle::new(&long).expect_err("too long title should be rejected");
    assert_eq!(err, DomainError::InvalidMailTitleLength(121));
}

#[test]
fn valid_mail_content_is_created() {
    let content = MailContent::new("  评测完成，请查看结果。 ").expect("content should be valid");
    assert_eq!(content.as_str(), "评测完成，请查看结果。");
}

#[test]
fn too_long_mail_content_is_rejected() {
    let long = "a".repeat(MailContent::MAX_LEN + 1);
    let err = MailContent::new(&long).expect_err("too long content should be rejected");
    assert_eq!(err, DomainError::InvalidMailContentLength(10_001));
}

#[test]
fn mail_message_mark_read_and_unread() {
    let recipient_id = UserId::new();
    let title = MailTitle::new("提交结果通知").expect("title should be valid");
    let content = MailContent::new("你的提交已通过全部测试。").expect("content should be valid");
    let mut mail = MailMessage::new(recipient_id, MailCategory::SubmissionResult, title, content);

    assert_eq!(mail.status(), MailStatus::Unread);
    mail.mark_read();
    assert_eq!(mail.status(), MailStatus::Read);
    mail.mark_unread();
    assert_eq!(mail.status(), MailStatus::Unread);
}

#[test]
fn valid_score_is_created() {
    let score = Score::new(100).expect("100 should be valid");

    assert_eq!(score.value(), 100);
}

#[test]
fn invalid_score_is_rejected() {
    let err = Score::new(101).expect_err("101 should be rejected");

    assert_eq!(err.to_string(), "invalid score: 101. score must be in [0, 100]");
}

#[test]
fn route_orders_recipients_by_identity() {
    let mut router = MailRouter::new();
    let a = UserId::from_u128(30);
    let b = UserId::from_u128(10);
    let c = UserId::from_u128(20);
    router.subscribe(MailCategory::System, a);
    router.subscribe(MailCategory::System, b);
    assert!(!router.subscribe(MailCategory::System, b));
    router.subscribe(MailCategory::Contest, c);
    let recipients = router.route(MailCategory::System, Some(c));
    assert_eq!(recipients, vec![b, c, a]);
    assert!(!router.unsubscribe(MailCategory::Security, a));
}

#[test]
fn mail_title_of_exactly_the_limit_is_accepted() {
    let text = "题".repeat(120);
    let title = MailTitle::new(&text).expect("120 characters fit");
    assert_eq!(title.as_str().chars().count(), 120);
    let err = MailContent::new("\t\n ").expect_err("blank content");
    assert_eq!(err, DomainError::EmptyMailContent);
}

#[test]
fn domain_error_messages() {
    assert_eq!(
        DomainError::InvalidMailTitleLength(121).to_string(),
        "invalid mail title length: 121. title length must be in [1, 120]"
    );
    assert_eq!(DomainError::EmptyMailTitle.to_string(), "invalid mail title: title cannot be empty");
    assert_eq!(Score::new(0).expect("zero is valid").value(), 0);
}
