use vaulty_mail::address::Address;
use vaulty_mail::admission::{
    accepted_text, quota_text, size_text, unknown_recipient_text, Admission, Decision, Effect, Next,
    RejectReason, Reply, Step,
};
use vaulty_mail::email::Email;
use vaulty_mail::log_level::LogLevel;
use vaulty_mail::session::SessionCache;
use vaulty_mail::storage::Backend;

const UUID: u128 = 0x0000_0000_0000_0000_0000_0000_0000_002a;
const UUID_TEXT: &str = "00000000-0000-0000-0000-00000000002a";

fn email(recipients: &[&str], size: usize, attachments: Option<u32>) -> Email {
    Email {
        uuid: UUID,
        sender: "sender@example.org".to_string(),
        recipients: recipients.iter().map(|r| r.to_string()).collect(),
        message_id: Some("<m1@example.org>".to_string()),
        subject: Some("Invoice".to_string()),
        size,
        num_attachments: attachments,
    }
}

fn address(name: &str, max_email_size: i32, quota: i32, received: i32) -> Address {
    Address {
        address: name.to_string(),
        user_id: 7,
        max_email_size,
        quota,
        received,
        storage_token: "token".to_string(),
        storage_backend: Backend::Dropbox,
        storage_path: "/vault".to_string(),
        last_renewal_time: 1_600_000_000_000_000,
    }
}

fn asked(step: Step) -> Admission {
    assert!(step.effects.is_empty(), "a step that asks on writes nothing down");
    match step.next {
        Next::Ask(state) => state,
        Next::Done(d) => panic!("admission ended early: {:?}", d),
    }
}

/// Runs an admission over the given replies and returns every effect, the
/// decision, and how many replies were consumed.
fn run(e: Email, replies: Vec<Reply>, cache: &mut SessionCache) -> (Vec<Effect>, Decision, usize) {
    let mut state = Admission::start(e);
    let mut effects = Vec::new();
    let mut used = 0;
    for reply in replies {
        used += 1;
        let step = state.advance(reply, cache);
        effects.extend(step.effects);
        match step.next {
            Next::Ask(next) => state = next,
            Next::Done(decision) => return (effects, decision, used),
        }
    }
    panic!("the replies ran out before a decision");
}

#[test]
fn size_is_checked_before_quota() {
    let mut cache = SessionCache::new();
    let a = address("b@x", 1000, 5, 5);
    let (effects, decision, used) = run(
        email(&["b@x"], 2000, Some(1)),
        vec![Reply::Resolved(Some(a)), Reply::SenderChecked(true), Reply::Inserted],
        &mut cache,
    );
    let text = "This email is larger than allowed for b@x: maximum email size is 0.00 MB.";
    assert_eq!(
        decision,
        Decision::Rejected { reason: RejectReason::SizeExceeded, detail: text.to_string() }
    );
    assert_eq!(used, 3);
    assert_eq!(
        effects,
        vec![
            Effect::Log {
                message: text.to_string(),
                email_id: Some(UUID),
                level: LogLevel::Warning
            },
            Effect::UpdateStatus { uuid: UUID, success: false, reason: Some(text.to_string()) },
        ]
    );
    assert_eq!(cache.len(), 0);
}

#[test]
fn only_resolving_recipient_is_kept() {
    let mut cache = SessionCache::new();
    let state = Admission::start(email(&["a@x", "b@x", "c@x"], 100, None));
    let state = asked(state.advance(Reply::Resolved(Some(address("b@x", 1000, 5, 0))), &mut cache));
    match &state {
        Admission::Validating { email, address } => {
            assert_eq!(email.recipients, vec!["b@x".to_string()]);
            assert_eq!(address.address, "b@x");
        },
        other => panic!("unexpected state {:?}", other),
    }
    let state = asked(state.advance(Reply::SenderChecked(true), &mut cache));
    match &state {
        Admission::Persisting { email, .. } => {
            assert_eq!(email.recipients, vec!["b@x".to_string()])
        },
        other => panic!("unexpected state {:?}", other),
    }
    let state = asked(state.advance(Reply::Inserted, &mut cache));
    let step = state.advance(Reply::Incremented, &mut cache);
    assert_eq!(step.next, Next::Done(Decision::Accepted { session_created: false }));
}

#[test]
fn quota_is_checked_when_size_fits() {
    let mut cache = SessionCache::new();
    let (effects, decision, _) = run(
        email(&["b@x"], 1000, Some(1)),
        vec![
            Reply::Resolved(Some(address("b@x", 1000, 5, 5))),
            Reply::SenderChecked(true),
            Reply::Inserted,
        ],
        &mut cache,
    );
    let text = "Address b@x has hit its quota of 5 emails for this period.";
    assert_eq!(
        decision,
        Decision::Rejected { reason: RejectReason::QuotaExceeded, detail: text.to_string() }
    );
    assert_eq!(effects.len(), 2);
    assert_eq!(
        effects[1],
        Effect::UpdateStatus { uuid: UUID, success: false, reason: Some(text.to_string()) }
    );
}

#[test]
fn last_email_within_quota_is_accepted() {
    let mut cache = SessionCache::new();
    let (effects, decision, used) = run(
        email(&["b@x"], 1000, None),
        vec![
            Reply::Resolved(Some(address("b@x", 1000, 5, 4))),
            Reply::SenderChecked(true),
            Reply::Inserted,
            Reply::Incremented,
        ],
        &mut cache,
    );
    assert_eq!(decision, Decision::Accepted { session_created: false });
    assert_eq!(used, 4);
    assert_eq!(
        effects,
        vec![Effect::Log {
            message: "Got email for recipient b@x".to_string(),
            email_id: Some(UUID),
            level: LogLevel::Info
        }]
    );
    assert_eq!(cache.len(), 0);
}

#[test]
fn accepted_email_with_attachments_gets_a_session() {
    let mut cache = SessionCache::new();
    let (_, decision, _) = run(
        email(&["a@x", "b@x"], 10, Some(3)),
        vec![
            Reply::Resolved(Some(address("b@x", 1000, 5, 0))),
            Reply::SenderChecked(true),
            Reply::Inserted,
            Reply::Incremented,
        ],
        &mut cache,
    );
    assert_eq!(decision, Decision::Accepted { session_created: true });
    assert_eq!(cache.len(), 1);
    let session = cache.session(UUID_TEXT).expect("registered under the identifier text");
    assert_eq!(session.remaining, 3);
    assert_eq!(session.email.recipients, vec!["b@x".to_string()]);
    assert_eq!(session.address.address, "b@x");
}

#[test]
fn zero_declared_attachments_create_no_session() {
    let mut cache = SessionCache::new();
    let (_, decision, _) = run(
        email(&["b@x"], 10, Some(0)),
        vec![
            Reply::Resolved(Some(address("b@x", 1000, 5, 0))),
            Reply::SenderChecked(true),
            Reply::Inserted,
            Reply::Incremented,
        ],
        &mut cache,
    );
    assert_eq!(decision, Decision::Accepted { session_created: false });
    assert_eq!(cache.len(), 0);
}

#[test]
fn unknown_recipients_are_rejected_and_logged_without_identifier() {
    let mut cache = SessionCache::new();
    let (effects, decision, used) =
        run(email(&["a@x", "b@x"], 10, Some(1)), vec![Reply::Resolved(None)], &mut cache);
    let text = "Rejecting email message_id: <m1@example.org>, from: sender@example.org, to: a@x, b@x";
    assert_eq!(used, 1);
    assert_eq!(
        decision,
        Decision::Rejected { reason: RejectReason::InvalidRecipient, detail: text.to_string() }
    );
    assert_eq!(
        effects,
        vec![Effect::Log { message: text.to_string(), email_id: None, level: LogLevel::Warning }]
    );
}

#[test]
fn missing_message_id_reads_not_available() {
    let mut e = email(&["a@x"], 10, None);
    e.message_id = None;
    assert_eq!(
        unknown_recipient_text(&e),
        "Rejecting email message_id: N/A, from: sender@example.org, to: a@x"
    );
}

#[test]
fn resolved_address_outside_candidates_counts_as_unknown() {
    let mut cache = SessionCache::new();
    let (effects, decision, _) = run(
        email(&["a@x"], 10, None),
        vec![Reply::Resolved(Some(address("z@x", 1000, 5, 0)))],
        &mut cache,
    );
    match decision {
        Decision::Rejected { reason, .. } => assert_eq!(reason, RejectReason::InvalidRecipient),
        other => panic!("unexpected decision {:?}", other),
    }
    assert_eq!(effects.len(), 1);
}

#[test]
fn sender_off_the_whitelist_is_rejected_without_persistence() {
    let mut cache = SessionCache::new();
    let (effects, decision, used) = run(
        email(&["b@x"], 10, Some(1)),
        vec![Reply::Resolved(Some(address("b@x", 1000, 5, 0))), Reply::SenderChecked(false)],
        &mut cache,
    );
    assert_eq!(used, 2);
    assert!(effects.is_empty());
    assert_eq!(
        decision,
        Decision::Rejected { reason: RejectReason::SenderNotWhitelisted, detail: "b@x".to_string() }
    );
}

#[test]
fn collaborator_failure_is_surfaced_at_every_stage() {
    for failing in 0..4usize {
        let mut cache = SessionCache::new();
        let mut replies = vec![
            Reply::Resolved(Some(address("b@x", 1000, 5, 0))),
            Reply::SenderChecked(true),
            Reply::Inserted,
            Reply::Incremented,
        ];
        replies[failing] = Reply::Failed(format!("database down at {}", failing));
        replies.truncate(failing + 1);
        let (effects, decision, used) = run(email(&["b@x"], 10, Some(2)), replies, &mut cache);
        assert_eq!(used, failing + 1);
        assert!(effects.is_empty());
        assert_eq!(
            decision,
            Decision::Rejected {
                reason: RejectReason::PersistenceFailure,
                detail: format!("database down at {}", failing)
            }
        );
        assert_eq!(cache.len(), 0, "no session without a counted email");
    }
}

#[test]
fn reply_to_another_question_ends_the_admission() {
    let wrong: Vec<(usize, Reply)> = vec![
        (0, Reply::Inserted),
        (0, Reply::Incremented),
        (0, Reply::SenderChecked(true)),
        (1, Reply::Inserted),
        (1, Reply::Resolved(None)),
        (2, Reply::Incremented),
        (2, Reply::SenderChecked(true)),
        (3, Reply::Inserted),
        (3, Reply::Resolved(None)),
    ];
    for (at, reply) in wrong {
        let mut cache = SessionCache::new();
        let mut replies = vec![
            Reply::Resolved(Some(address("b@x", 1000, 5, 0))),
            Reply::SenderChecked(true),
            Reply::Inserted,
            Reply::Incremented,
        ];
        replies.truncate(at);
        replies.push(reply);
        let (effects, decision, _) = run(email(&["b@x"], 10, Some(2)), replies, &mut cache);
        assert!(effects.is_empty());
        assert_eq!(
            decision,
            Decision::Rejected {
                reason: RejectReason::PersistenceFailure,
                detail: "unexpected reply from collaborator".to_string()
            }
        );
        assert_eq!(cache.len(), 0);
    }
}

#[test]
fn count_is_raised_once_for_accepted_and_never_for_rejected() {
    let scenarios: Vec<(Vec<Reply>, bool)> = vec![
        (vec![Reply::Resolved(None)], false),
        (vec![Reply::Resolved(Some(address("b@x", 1000, 5, 0))), Reply::SenderChecked(false)], false),
        (
            vec![
                Reply::Resolved(Some(address("b@x", 1000, 5, 5))),
                Reply::SenderChecked(true),
                Reply::Inserted,
            ],
            false,
        ),
        (
            vec![
                Reply::Resolved(Some(address("b@x", 1000, 5, 0))),
                Reply::SenderChecked(true),
                Reply::Inserted,
                Reply::Failed("no".to_string()),
            ],
            false,
        ),
        (
            vec![
                Reply::Resolved(Some(address("b@x", 1000, 5, 0))),
                Reply::SenderChecked(true),
                Reply::Inserted,
                Reply::Incremented,
            ],
            true,
        ),
    ];
    for (replies, accepted) in scenarios {
        let mut cache = SessionCache::new();
        let mut state = Admission::start(email(&["b@x"], 10, None));
        let mut raises = 0;
        let mut decision = None;
        for reply in replies {
            if matches!(state, Admission::Counting { .. }) && reply == Reply::Incremented {
                raises += 1;
            }
            let step = state.advance(reply, &mut cache);
            match step.next {
                Next::Ask(next) => state = next,
                Next::Done(d) => {
                    decision = Some(d);
                    break;
                },
            }
        }
        let decision = decision.expect("every scenario reaches a decision");
        assert_eq!(matches!(decision, Decision::Accepted { .. }), accepted);
        assert_eq!(raises, if accepted { 1 } else { 0 });
    }
}

#[test]
fn texts_of_the_limits() {
    let a = address("b@x", 5_000_000, 100, 3);
    assert_eq!(
        size_text(&a),
        "This email is larger than allowed for b@x: maximum email size is 5.00 MB."
    );
    assert_eq!(quota_text(&a), "Address b@x has hit its quota of 100 emails for this period.");
    assert_eq!(accepted_text(&a), "Got email for recipient b@x");
    assert_eq!(
        quota_text(&address("b@x", 1, -3, 0)),
        "Address b@x has hit its quota of -3 emails for this period."
    );
}

#[test]
fn email_of_exactly_the_limit_is_accepted() {
    let mut cache = SessionCache::new();
    let (_, decision, _) = run(
        email(&["b@x"], 1000, None),
        vec![
            Reply::Resolved(Some(address("b@x", 1000, 1, 0))),
            Reply::SenderChecked(true),
            Reply::Inserted,
            Reply::Incremented,
        ],
        &mut cache,
    );
    assert_eq!(decision, Decision::Accepted { session_created: false });
}
