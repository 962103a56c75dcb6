use vaulty_mail::email::Email;
use vaulty_mail::log_level::LogLevel;

fn email(uuid: u128) -> Email {
    Email {
        uuid,
        sender: "s@example.org".to_string(),
        recipients: vec!["a@x".to_string(), "b@x".to_string()],
        message_id: None,
        subject: None,
        size: 10,
        num_attachments: None,
    }
}

#[test]
fn identifier_text_is_hyphenated_lower_case() {
    assert_eq!(email(0).id_text(), "00000000-0000-0000-0000-000000000000");
    assert_eq!(
        email(0xa1a2a3a4b1b2c1c2d1d2d3d4d5d6d7d8).id_text(),
        "a1a2a3a4-b1b2-c1c2-d1d2-d3d4d5d6d7d8"
    );
    assert_eq!(email(u128::MAX).id_text(), "ffffffff-ffff-ffff-ffff-ffffffffffff");
    assert_eq!(email(0x0123456789abcdef).id_text(), "00000000-0000-0000-0123-456789abcdef");
}

#[test]
fn identifier_text_puts_each_digit_in_its_place() {
    for k in 0..32u32 {
        let id: u128 = 0xf << (4 * (31 - k));
        let text = email(id).id_text();
        let digits: String = text.chars().filter(|c| *c != '-').collect();
        assert_eq!(digits.len(), 32);
        for (i, c) in digits.chars().enumerate() {
            assert_eq!(c, if i as u32 == k { 'f' } else { '0' });
        }
        let hyphens: Vec<usize> =
            text.char_indices().filter(|(_, c)| *c == '-').map(|(i, _)| i).collect();
        assert_eq!(hyphens, vec![8, 13, 18, 23]);
    }
}

#[test]
fn narrowing_leaves_one_recipient() {
    let mut e = email(1);
    e.narrow_to("b@x");
    assert_eq!(e.recipients, vec!["b@x".to_string()]);
    assert_eq!(e.sender, "s@example.org");
    assert_eq!(e.uuid, 1);
}

#[test]
fn expected_attachments_defaults_to_none() {
    let mut e = email(1);
    assert_eq!(e.expected_attachments(), 0);
    e.num_attachments = Some(0);
    assert_eq!(e.expected_attachments(), 0);
    e.num_attachments = Some(4);
    assert_eq!(e.expected_attachments(), 4);
}

#[test]
fn clone_keeps_every_field() {
    let mut e = email(77);
    e.message_id = Some("<m@x>".to_string());
    e.subject = Some("Hello".to_string());
    e.num_attachments = Some(2);
    assert_eq!(e.clone(), e);
}

#[test]
fn log_level_codes_round_trip() {
    assert_eq!(LogLevel::from(0), LogLevel::Debug);
    assert_eq!(LogLevel::from(1), LogLevel::Info);
    assert_eq!(LogLevel::from(2), LogLevel::Warning);
    assert_eq!(LogLevel::from(3), LogLevel::Error);
    assert_eq!(LogLevel::from(4), LogLevel::Info);
    assert_eq!(LogLevel::from(-1), LogLevel::Info);
    for level in [LogLevel::Debug, LogLevel::Info, LogLevel::Warning, LogLevel::Error] {
        assert_eq!(LogLevel::from(level.code()), level);
    }
    assert_eq!(LogLevel::Debug.code(), 0);
    assert_eq!(LogLevel::Info.code(), 1);
    assert_eq!(LogLevel::Warning.code(), 2);
    assert_eq!(LogLevel::Error.code(), 3);
}

#[test]
fn attachment_names_the_session_of_its_email() {
    let a = vaulty_mail::email::Attachment {
        email_id: 0xa1a2a3a4b1b2c1c2d1d2d3d4d5d6d7d8,
        name: "a.txt".to_string(),
        size: 3,
    };
    assert_eq!(a.mail_id(), "a1a2a3a4-b1b2-c1c2-d1d2-d3d4d5d6d7d8");
    let e = email(0xa1a2a3a4b1b2c1c2d1d2d3d4d5d6d7d8);
    assert_eq!(a.mail_id(), e.id_text());
}
