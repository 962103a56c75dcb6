//! The statements that the service sends to its database, and the values
//! it binds to them.
//!
//! Parameters are numbered as PostgreSQL numbers them. The statements are
//! built here; sending them is the service's work.

use vstd::prelude::*;
use vstd::string::StringExecFns;
use crate::email::{Email, EmailView, copy_optional_text, optional_text};
use crate::text::{join, joined, texts};

verus! {

/// The names of the tables.
#[derive(Debug, PartialEq, Eq)]
pub struct Tables {
    pub user_table: String,
    pub address_table: String,
    pub email_table: String,
    pub log_table: String,
}

/// What [`Tables`] holds, as mathematical values.
pub struct TablesView {
    pub user_table: Seq<char>,
    pub address_table: Seq<char>,
    pub email_table: Seq<char>,
    pub log_table: Seq<char>,
}

impl View for Tables {
    type V = TablesView;

    open spec fn view(&self) -> TablesView {
        TablesView {
            user_table: self.user_table@,
            address_table: self.address_table@,
            email_table: self.email_table@,
            log_table: self.log_table@,
        }
    }
}

/// Each item between single quotes.
pub open spec fn quoted(items: Seq<Seq<char>>) -> Seq<Seq<char>> {
    items.map_values(|item: Seq<char>| "'"@ + item + "'"@)
}

impl TablesView {
    /// The tables under their usual names.
    pub open spec fn usual() -> TablesView {
        TablesView {
            user_table: "users"@,
            address_table: "addresses"@,
            email_table: "emails"@,
            log_table: "logs"@,
        }
    }

    /// Selects the user of the address bound as `$1`.
    pub open spec fn user_id_query(self) -> Seq<char> {
        "SELECT user_id FROM "@ + self.address_table + " WHERE address = $1"@
    }

    /// Selects the records of the addresses among `recipients`.
    pub open spec fn address_query(self, recipients: Seq<Seq<char>>) -> Seq<char> {
        "SELECT * FROM "@ + self.address_table + " WHERE address IN ("@ + joined(
            quoted(recipients),
            ", "@,
        ) + ")"@
    }

    /// Raises the received count of the address bound as `$1` by one.
    pub open spec fn received_update(self) -> Seq<char> {
        "UPDATE "@ + self.address_table + " SET received = received + 1 WHERE address = $1"@
    }

    /// Inserts a log entry: email identifier, message and level.
    pub open spec fn log_insert(self) -> Seq<char> {
        "INSERT INTO "@ + self.log_table + " (email_id, msg, log_level) VALUES ($1, $2, $3)"@
    }

    /// Inserts an email: recipient, identifier, number of attachments,
    /// size, message identifier and creation time.
    pub open spec fn email_insert(self) -> Seq<char> {
        "INSERT INTO "@ + self.email_table
            + " (user_id, address_id, email_id, num_attachments, total_size, message_id, creation_time) VALUES ((SELECT user_id FROM "@
            + self.address_table + " WHERE address = $1), (SELECT id FROM "@ + self.address_table
            + " WHERE address = $1), $2, $3, $4, $5, $6)"@
    }

    /// Sets status and error message of the email bound as `$3`.
    pub open spec fn email_update(self) -> Seq<char> {
        "UPDATE "@ + self.email_table + " SET status = $1, error_msg = $2 WHERE email_id = $3"@
    }
}

/// Each item between single quotes.
pub fn quote_all(items: &Vec<String>) -> (all: Vec<String>)
    ensures
        texts(all@) == quoted(texts(items@)),
{
    let mut all: Vec<String> = Vec::new();
    let mut i: usize = 0;
    while i < items.len()
        invariant
            i <= items.len(),
            all.len() == i,
            forall|k: int| 0 <= k < i ==> (#[trigger] all@[k])@ == "'"@ + items@[k]@ + "'"@,
        decreases items.len() - i,
    {
        let mut item: String = String::from_str("'");
        item.append(items[i].as_str());
        item.append("'");
        all.push(item);
        i = i + 1;
    }
    assert(texts(all@) =~= quoted(texts(items@)));
    all
}

impl Tables {
    /// The tables under their usual names.
    pub fn new() -> (tables: Tables)
        ensures
            tables@ == TablesView::usual(),
    {
        Tables {
            user_table: String::from_str("users"),
            address_table: String::from_str("addresses"),
            email_table: String::from_str("emails"),
            log_table: String::from_str("logs"),
        }
    }

    /// Selects the user of the address bound as `$1`.
    pub fn user_id_query(&self) -> (sql: String)
        ensures
            sql@ == self@.user_id_query(),
    {
        let mut sql: String = String::from_str("SELECT user_id FROM ");
        sql.append(self.address_table.as_str());
        sql.append(" WHERE address = $1");
        sql
    }

    /// Selects the records of the addresses among `recipients`, which are
    /// written into the statement between single quotes, as they are.
    pub fn address_query(&self, recipients: &Vec<String>) -> (sql: String)
        ensures
            sql@ == self@.address_query(texts(recipients@)),
    {
        let listed: Vec<String> = quote_all(recipients);
        let list: String = join(&listed, ", ");
        let mut sql: String = String::from_str("SELECT * FROM ");
        sql.append(self.address_table.as_str());
        sql.append(" WHERE address IN (");
        sql.append(list.as_str());
        sql.append(")");
        sql
    }

    /// Raises the received count of the address bound as `$1` by one.
    pub fn received_update(&self) -> (sql: String)
        ensures
            sql@ == self@.received_update(),
    {
        let mut sql: String = String::from_str("UPDATE ");
        sql.append(self.address_table.as_str());
        sql.append(" SET received = received + 1 WHERE address = $1");
        sql
    }

    /// Inserts a log entry: email identifier, message and level.
    pub fn log_insert(&self) -> (sql: String)
        ensures
            sql@ == self@.log_insert(),
    {
        let mut sql: String = String::from_str("INSERT INTO ");
        sql.append(self.log_table.as_str());
        sql.append(" (email_id, msg, log_level) VALUES ($1, $2, $3)");
        sql
    }

    /// Inserts an email: recipient, identifier, number of attachments,
    /// size, message identifier and creation time.
    pub fn email_insert(&self) -> (sql: String)
        ensures
            sql@ == self@.email_insert(),
    {
        let mut sql: String = String::from_str("INSERT INTO ");
        sql.append(self.email_table.as_str());
        sql.append(
            " (user_id, address_id, email_id, num_attachments, total_size, message_id, creation_time) VALUES ((SELECT user_id FROM ",
        );
        sql.append(self.address_table.as_str());
        sql.append(" WHERE address = $1), (SELECT id FROM ");
        sql.append(self.address_table.as_str());
        sql.append(" WHERE address = $1), $2, $3, $4, $5, $6)");
        sql
    }

    /// Sets status and error message of the email bound as `$3`.
    pub fn email_update(&self) -> (sql: String)
        ensures
            sql@ == self@.email_update(),
    {
        let mut sql: String = String::from_str("UPDATE ");
        sql.append(self.email_table.as_str());
        sql.append(" SET status = $1, error_msg = $2 WHERE email_id = $3");
        sql
    }
}

/// The values that are stored for an email.
#[derive(Debug, PartialEq, Eq)]
pub struct EmailRow {
    pub recipient: String,
    pub email_id: u128,
    pub num_attachments: i32,
    pub total_size: i32,
    pub message_id: Option<String>,
}

/// What an [`EmailRow`] holds, as mathematical values.
pub struct EmailRowView {
    pub recipient: Seq<char>,
    pub email_id: u128,
    pub num_attachments: int,
    pub total_size: int,
    pub message_id: Option<Seq<char>>,
}

impl View for EmailRow {
    type V = EmailRowView;

    open spec fn view(&self) -> EmailRowView {
        EmailRowView {
            recipient: self.recipient@,
            email_id: self.email_id,
            num_attachments: self.num_attachments as int,
            total_size: self.total_size as int,
            message_id: optional_text(self.message_id),
        }
    }
}

/// A count or size as the signed 32-bit column holds it: its low 32 bits.
/// A value that fits is held as it is.
pub open spec fn column_value(n: nat) -> int {
    (n as i32) as int
}

/// The row of an email that has a recipient: its first recipient, no
/// attachments where none are declared.
pub open spec fn row_of(email: EmailView) -> Option<EmailRowView> {
    if email.recipients.len() == 0 {
        None
    } else {
        Some(
            EmailRowView {
                recipient: email.recipients[0],
                email_id: email.uuid,
                num_attachments: column_value(email.expected_attachments()),
                total_size: column_value(email.size),
                message_id: email.message_id,
            },
        )
    }
}

/// The view of an optional row.
pub open spec fn optional_row(row: Option<EmailRow>) -> Option<EmailRowView> {
    match row {
        Some(r) => Some(r@),
        None => None,
    }
}

/// The values to store for `email`; `None` if it has no recipient.
pub fn email_row(email: &Email) -> (row: Option<EmailRow>)
    ensures
        optional_row(row) == row_of(email@),
{
    if email.recipients.len() == 0 {
        return None;
    }
    let declared: u32 = email.expected_attachments();
    let num_attachments: i32 = #[verifier::truncate]
    (declared as i32);
    let total_size: i32 = #[verifier::truncate]
    (email.size as i32);
    Some(
        EmailRow {
            recipient: email.recipients[0].clone(),
            email_id: email.uuid,
            num_attachments,
            total_size,
            message_id: copy_optional_text(&email.message_id),
        },
    )
}

/// A count or size that fits the column is stored as it is.
pub proof fn lemma_column_value_in_range(n: nat)
    requires
        n <= i32::MAX,
    ensures
        column_value(n) == n,
{
}

} // verus!
