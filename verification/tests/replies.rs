use vaulty_mail::admission::RejectReason;
use vaulty_mail::email::Email;
use vaulty_mail::reply::{
    attachment_body_text, email_body_text, post_reply, recover, Failure, PostFailure, Recovered,
};

fn all_failures() -> Vec<Failure> {
    vec![
        Failure::Rejected(RejectReason::InvalidRecipient),
        Failure::Rejected(RejectReason::SenderNotWhitelisted),
        Failure::Rejected(RejectReason::SizeExceeded),
        Failure::Rejected(RejectReason::QuotaExceeded),
        Failure::Rejected(RejectReason::PersistenceFailure),
        Failure::SessionNotFound,
        Failure::DispatchFailed,
        Failure::Unauthorized,
        Failure::NotFound,
    ]
}

#[test]
fn every_failure_has_its_own_status() {
    let codes: Vec<u16> = all_failures().into_iter().map(|f| f.status()).collect();
    assert_eq!(codes, vec![422, 403, 413, 429, 500, 409, 502, 401, 404]);
    for (i, a) in codes.iter().enumerate() {
        for (j, b) in codes.iter().enumerate() {
            assert_eq!(a == b, i == j);
        }
    }
}

#[test]
fn faults_of_collaborators_are_not_permanent() {
    for f in all_failures() {
        let transient = matches!(
            f,
            Failure::Rejected(RejectReason::PersistenceFailure) | Failure::DispatchFailed
        );
        assert_eq!(f.is_permanent(), !transient);
    }
}

#[test]
fn unhandled_requests_get_one_of_three_answers() {
    assert_eq!(recover(true, false), Recovered::NotFound);
    assert_eq!(recover(true, true), Recovered::NotFound);
    assert_eq!(recover(false, true), Recovered::AuthRequired);
    assert_eq!(recover(false, false), Recovered::InternalError);
    assert_eq!((Recovered::NotFound.text(), Recovered::NotFound.status()), ("NOT FOUND", 404));
    assert_eq!(
        (Recovered::AuthRequired.text(), Recovered::AuthRequired.status()),
        ("AUTH REQUIRED", 401)
    );
    assert_eq!(
        (Recovered::InternalError.text(), Recovered::InternalError.status()),
        ("INTERNAL SERVER ERROR", 500)
    );
}

#[test]
fn email_is_acknowledged_with_sender_and_identifier() {
    let e = Email {
        uuid: 0xa1a2a3a4b1b2c1c2d1d2d3d4d5d6d7d8,
        sender: "sender@example.org".to_string(),
        recipients: vec!["b@x".to_string()],
        message_id: None,
        subject: None,
        size: 1,
        num_attachments: None,
    };
    assert_eq!(
        email_body_text(&e),
        "sender@example.org, a1a2a3a4-b1b2-c1c2-d1d2-d3d4d5d6d7d8"
    );
}

#[test]
fn attachment_is_acknowledged_with_its_details() {
    assert_eq!(
        attachment_body_text("a.pdf", "b@x", 1234, "00000000-0000-0000-0000-00000000002a"),
        "Attachment name: a.pdf, Recipient: b@x, Size: 1234, UUID: 00000000-0000-0000-0000-00000000002a"
    );
    assert_eq!(
        attachment_body_text("", "", 0, ""),
        "Attachment name: , Recipient: , Size: 0, UUID: "
    );
}

#[test]
fn manager_answers_posts() {
    assert_eq!(post_reply(Ok(())), ("Success".to_string(), 200));
    assert_eq!(
        post_reply(Err(PostFailure::BodyUnreadable)),
        ("Failed to read request body".to_string(), 500)
    );
    assert_eq!(
        post_reply(Err(PostFailure::NoContentType)),
        ("No content type set!".to_string(), 500)
    );
    assert_eq!(
        post_reply(Err(PostFailure::Payload("bad json".to_string()))),
        ("bad json".to_string(), 500)
    );
    assert_eq!(
        post_reply(Err(PostFailure::Fetch("timed out".to_string()))),
        ("timed out".to_string(), 500)
    );
}
