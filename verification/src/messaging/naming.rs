//! Display names for senders and conversations.
use vstd::prelude::*;
use crate::messaging::types::ChatMessage;
use crate::text::{is_blank, owned, push_char, same_text, text_is_blank};

verus! {

/// What the contact store knows of a sender: its saved name (possibly
/// empty) and its phone number in display form, if any.
#[derive(Debug, Clone)]
pub struct SenderContact {
    pub name: String,
    pub phone: Option<String>,
}

/// The short handle shown for an unknown sender: "~" and the first eight
/// characters of its UUID (fewer if the UUID is shorter).
pub open spec fn uuid_handle(uuid: Seq<char>) -> Seq<char> {
    seq!['~'] + uuid.take(if uuid.len() < 8 { uuid.len() as int } else { 8 })
}

/// The name picked for a sender: the saved name, else the phone number,
/// else the short UUID handle.
pub open spec fn sender_name_of(contact: Option<(Seq<char>, Option<Seq<char>>)>, uuid: Seq<char>) -> Seq<char> {
    match contact {
        Some((name, phone)) => if name.len() > 0 {
            name
        } else {
            match phone {
                Some(p) => p,
                None => uuid_handle(uuid),
            }
        },
        None => uuid_handle(uuid),
    }
}

/// The store facts of a contact, as a pair of texts.
pub open spec fn contact_facts(c: Option<&SenderContact>) -> Option<(Seq<char>, Option<Seq<char>>)> {
    match c {
        Some(c) => Some((c.name@, c.phone.deep_view())),
        None => None,
    }
}

fn uuid_handle_of(uuid: &str) -> (r: String)
    ensures
        r@ == uuid_handle(uuid@),
{
    let mut out = String::new();
    push_char(&mut out, '~');
    let n = uuid.unicode_len();
    let k: usize = if n < 8 { n } else { 8 };
    let mut i: usize = 0;
    while i < k
        invariant
            n == uuid@.len(),
            k == (if n < 8 { n } else { 8 }),
            i <= k,
            out@ == seq!['~'] + uuid@.take(i as int),
        decreases k - i,
    {
        push_char(&mut out, uuid.get_char(i));
        proof {
            assert(uuid@.take(i + 1) =~= uuid@.take(i as int).push(uuid@[i as int]));
            assert(seq!['~'] + uuid@.take(i + 1) =~= (seq!['~'] + uuid@.take(i as int)).push(uuid@[i as int]));
        }
        i = i + 1;
    }
    out
}

/// Pick a human-readable name for a sender given its cached contact, if
/// any: the contact's name, then its phone number, then "~" and the first
/// eight characters of the UUID.
pub fn pick_sender_name(contact: Option<&SenderContact>, sender_uuid_str: &str) -> (r: String)
    ensures
        r@ == sender_name_of(contact_facts(contact), sender_uuid_str@),
{
    if let Some(c) = contact {
        if c.name.unicode_len() > 0 {
            return c.name.clone();
        }
        if let Some(p) = &c.phone {
            return p.clone();
        }
    }
    uuid_handle_of(sender_uuid_str)
}

/// The saved name in a contact's facts (empty when there is no contact).
pub open spec fn saved_name(contact: Option<(Seq<char>, Option<Seq<char>>)>) -> Seq<char> {
    match contact {
        Some((name, _)) => name,
        None => Seq::empty(),
    }
}

/// The name shown for the sender of a stored message: "You" for our own
/// account, then a saved contact name, then a profile name that is not
/// blank, then the phone number or the short UUID handle.
pub open spec fn resolved_sender_name_of(
    sender: Seq<char>,
    self_aci: Option<Seq<char>>,
    contact: Option<(Seq<char>, Option<Seq<char>>)>,
    profile_name: Option<Seq<char>>,
) -> Seq<char> {
    if self_aci == Some(sender) {
        "You"@
    } else if saved_name(contact).len() > 0 {
        saved_name(contact)
    } else if profile_name is Some && !is_blank(profile_name->0) {
        profile_name->0
    } else {
        sender_name_of(contact, sender)
    }
}

/// Resolve a sender's display name from what the store holds for it: its
/// contact entry and its cached profile name (either absent when unknown or
/// when the sender is not a UUID).
pub fn resolve_sender_name(
    sender_uuid_str: &str,
    self_aci: &Option<String>,
    contact: Option<&SenderContact>,
    profile_name: Option<&str>,
) -> (r: String)
    ensures
        r@ == resolved_sender_name_of(
            sender_uuid_str@,
            self_aci.deep_view(),
            contact_facts(contact),
            match profile_name {
                Some(p) => Some(p@),
                None => None,
            },
        ),
{
    if let Some(me) = self_aci {
        if same_text(me.as_str(), sender_uuid_str) {
            return owned("You");
        }
    }
    if let Some(c) = contact {
        if c.name.unicode_len() > 0 {
            return c.name.clone();
        }
    }
    if let Some(p) = profile_name {
        if !text_is_blank(p) {
            return owned(p);
        }
    }
    pick_sender_name(contact, sender_uuid_str)
}

/// Replace the sender name of an incoming message; outgoing messages keep
/// theirs ("You").
pub fn enrich_sender_name(chat_msg: &mut ChatMessage, resolved: String)
    ensures
        old(chat_msg).is_outgoing ==> final(chat_msg).deep_view() == old(chat_msg).deep_view(),
        !old(chat_msg).is_outgoing ==> final(chat_msg).deep_view() == (crate::messaging::types::ChatMessageView {
            sender_name: resolved@,
            ..old(chat_msg).deep_view()
        }),
{
    if chat_msg.is_outgoing {
        return;
    }
    chat_msg.sender_name = resolved;
}

/// The name of a 1:1 conversation in the sidebar: "Note to Self" for our
/// own account, else the contact's name, else its phone number, else its
/// UUID.
pub open spec fn contact_title_of(
    uuid: Seq<char>,
    self_aci: Option<Seq<char>>,
    name: Seq<char>,
    phone: Option<Seq<char>>,
) -> Seq<char> {
    if self_aci == Some(uuid) {
        "Note to Self"@
    } else if name.len() > 0 {
        name
    } else {
        match phone {
            Some(p) => p,
            None => uuid,
        }
    }
}

/// Sidebar title of a 1:1 conversation.
pub fn contact_title(uuid: &str, self_aci: &Option<String>, contact: &SenderContact) -> (r: String)
    ensures
        r@ == contact_title_of(uuid@, self_aci.deep_view(), contact.name@, contact.phone.deep_view()),
{
    if let Some(me) = self_aci {
        if same_text(me.as_str(), uuid) {
            return owned("Note to Self");
        }
    }
    if contact.name.unicode_len() > 0 {
        return contact.name.clone();
    }
    match &contact.phone {
        Some(p) => p.clone(),
        None => owned(uuid),
    }
}

} // verus!
