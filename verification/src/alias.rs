//! The alias translator: a reserved alias in the shape that alias-provider
//! clients expect.

use vstd::prelude::*;
use vstd::string::*;
use crate::icloud::{HmeEmail, HmeEmailView};
use crate::text::optional_text;

verus! {

/// The mailbox address shown where the upstream names no forwarding address.
pub const FORWARDING_NOT_SET: &'static str = "forwarding-not-set@icloud.com";

/// The upstream exposes no numeric identifiers; every alias and mailbox
/// carries this one.
pub const PLACEHOLDER_ID: i32 = 1;

/// A mailbox that an alias forwards to.
#[derive(Debug, PartialEq, Eq)]
pub struct Mailbox {
    pub id: i32,
    pub email: String,
}

/// What a [`Mailbox`] holds.
pub struct MailboxView {
    pub id: i32,
    pub email: Seq<char>,
}

impl View for Mailbox {
    type V = MailboxView;

    open spec fn view(&self) -> MailboxView {
        MailboxView { id: self.id, email: self.email@ }
    }
}

/// The other party of an activity.
#[derive(Debug, PartialEq, Eq)]
pub struct Contact {
    pub email: String,
    pub name: Option<String>,
    pub reverse_alias: String,
}

/// The latest thing that happened on an alias.
#[derive(Debug, PartialEq, Eq)]
pub struct Activity {
    pub action: String,
    pub timestamp: i64,
    pub contact: Contact,
}

/// An alias as alias-provider clients read it.
#[derive(Debug, PartialEq, Eq)]
pub struct Alias {
    pub id: i32,
    pub alias: String,
    pub name: Option<String>,
    pub enabled: bool,
    pub creation_timestamp: i64,
    pub creation_date: String,
    pub note: Option<String>,
    pub nb_block: i32,
    pub nb_forward: i32,
    pub nb_reply: i32,
    pub support_pgp: bool,
    pub disable_pgp: bool,
    pub mailbox: Mailbox,
    pub mailboxes: Vec<Mailbox>,
    pub latest_activity: Option<Activity>,
    pub pinned: bool,
}

/// What an [`Alias`] holds.
pub struct AliasView {
    pub id: i32,
    pub alias: Seq<char>,
    pub name: Option<Seq<char>>,
    pub enabled: bool,
    pub creation_timestamp: i64,
    pub creation_date: Seq<char>,
    pub note: Option<Seq<char>>,
    pub nb_block: i32,
    pub nb_forward: i32,
    pub nb_reply: i32,
    pub support_pgp: bool,
    pub disable_pgp: bool,
    pub mailbox: MailboxView,
    pub mailboxes: Seq<MailboxView>,
    pub latest_activity: Option<Activity>,
    pub pinned: bool,
}

impl View for Alias {
    type V = AliasView;

    open spec fn view(&self) -> AliasView {
        AliasView {
            id: self.id,
            alias: self.alias@,
            name: optional_text(self.name),
            enabled: self.enabled,
            creation_timestamp: self.creation_timestamp,
            creation_date: self.creation_date@,
            note: optional_text(self.note),
            nb_block: self.nb_block,
            nb_forward: self.nb_forward,
            nb_reply: self.nb_reply,
            support_pgp: self.support_pgp,
            disable_pgp: self.disable_pgp,
            mailbox: self.mailbox@,
            mailboxes: self.mailboxes@.map_values(|m: Mailbox| m@),
            latest_activity: self.latest_activity,
            pinned: self.pinned,
        }
    }
}

/// The RFC 3339 rendering, in UTC, of the instant that lies `millis`
/// milliseconds after the Unix epoch; `None` where the instant lies outside
/// the range of dates that can be represented.
pub uninterp spec fn rfc3339_of_millis(millis: i64) -> Option<Seq<char>>;

/// Calls `chrono::TimeZone::timestamp_millis_opt` on `chrono::Utc` and renders
/// the single instant it gives with `chrono::DateTime::to_rfc3339`. The result
/// is a function of `millis` alone, and `None` exactly where chrono finds the
/// number out of range.
#[verifier::external_body]
fn rfc3339(millis: i64) -> (text: Option<String>)
    ensures
        optional_text(text) == rfc3339_of_millis(millis),
{
    match chrono::TimeZone::timestamp_millis_opt(&chrono::Utc, millis).single() {
        Some(instant) => Some(instant.to_rfc3339()),
        None => None,
    }
}

/// The one mailbox of an alias: its forwarding address, or
/// [`FORWARDING_NOT_SET`] where it has none.
pub open spec fn mailbox_of(forward_to_email: Option<Seq<char>>) -> MailboxView {
    MailboxView {
        id: PLACEHOLDER_ID,
        email: match forward_to_email {
            Some(email) => email,
            None => FORWARDING_NOT_SET@,
        },
    }
}

/// The translation of a reserved alias, given the rendering of its creation
/// time: placeholder identifiers, counters at zero, PGP flags off, no
/// activity, not pinned, and exactly one mailbox.
pub open spec fn alias_of(hme: HmeEmailView, creation_date: Seq<char>) -> AliasView {
    AliasView {
        id: PLACEHOLDER_ID,
        alias: hme.hme,
        name: Some(hme.label),
        enabled: hme.is_active,
        creation_timestamp: hme.create_timestamp,
        creation_date,
        note: Some(hme.note),
        nb_block: 0,
        nb_forward: 0,
        nb_reply: 0,
        support_pgp: false,
        disable_pgp: false,
        mailbox: mailbox_of(hme.forward_to_email),
        mailboxes: seq![mailbox_of(hme.forward_to_email)],
        latest_activity: None,
        pinned: false,
    }
}

/// A translated alias lists exactly one mailbox: the forwarding address of
/// the record, or [`FORWARDING_NOT_SET`] where the record has none.
pub proof fn translation_has_one_mailbox(hme: HmeEmailView, creation_date: Seq<char>)
    ensures
        alias_of(hme, creation_date).mailboxes.len() == 1,
        alias_of(hme, creation_date).mailboxes[0] == alias_of(hme, creation_date).mailbox,
        alias_of(hme, creation_date).mailboxes[0].email == match hme.forward_to_email {
            Some(email) => email,
            None => FORWARDING_NOT_SET@,
        },
        alias_of(hme, creation_date).note == Some(hme.note),
        alias_of(hme, creation_date).enabled == hme.is_active,
{
}

fn mailbox_for(forward_to_email: &Option<String>) -> (mailbox: Mailbox)
    ensures
        mailbox@ == mailbox_of(optional_text(*forward_to_email)),
{
    let email = match forward_to_email {
        Some(email) => email.clone(),
        None => String::from_str(FORWARDING_NOT_SET),
    };
    Mailbox { id: PLACEHOLDER_ID, email }
}

/// Translates a reserved alias whose creation time is already rendered.
pub fn alias_with_date(hme: HmeEmail, creation_date: String) -> (alias: Alias)
    ensures
        alias@ == alias_of(hme@, creation_date@),
{
    let mailbox = mailbox_for(&hme.forward_to_email);
    let mut mailboxes: Vec<Mailbox> = Vec::new();
    mailboxes.push(mailbox_for(&hme.forward_to_email));
    let alias = Alias {
        id: PLACEHOLDER_ID,
        alias: hme.hme,
        name: Some(hme.label),
        enabled: hme.is_active,
        creation_timestamp: hme.create_timestamp,
        creation_date,
        note: Some(hme.note),
        nb_block: 0,
        nb_forward: 0,
        nb_reply: 0,
        support_pgp: false,
        disable_pgp: false,
        mailbox,
        mailboxes,
        latest_activity: None,
        pinned: false,
    };
    assert(alias@.mailboxes =~= seq![mailbox_of(hme@.forward_to_email)]);
    alias
}

/// Translates a reserved alias. Its creation time must be one that has an
/// RFC 3339 rendering.
pub fn hme_to_alias(hme: HmeEmail) -> (alias: Alias)
    requires
        rfc3339_of_millis(hme.create_timestamp) is Some,
    ensures
        alias@ == alias_of(hme@, rfc3339_of_millis(hme.create_timestamp).unwrap()),
{
    let creation_date = rfc3339(hme.create_timestamp).unwrap();
    alias_with_date(hme, creation_date)
}

/// Translates a reserved alias; `None` where its creation time has no RFC 3339
/// rendering.
pub fn try_hme_to_alias(hme: HmeEmail) -> (alias: Option<Alias>)
    ensures
        match rfc3339_of_millis(hme.create_timestamp) {
            Some(date) => alias is Some && alias.unwrap()@ == alias_of(hme@, date),
            None => alias is None,
        },
{
    match rfc3339(hme.create_timestamp) {
        Some(_) => Some(hme_to_alias(hme)),
        None => None,
    }
}

} // verus!
